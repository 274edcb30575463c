//! Parsing of `key=value` command-line arguments.
use crate::text::{push_char, push_text};
use vstd::prelude::*;

verus! {

/// Rejection of a `key=value` argument that holds no `=`.
#[derive(Debug, PartialEq, Eq)]
pub struct KeyValError {
    pub input: String,
}

impl KeyValError {
    /// The user-facing message: `invalid key=value format: '<input>'`.
    pub fn message(&self) -> (r: String)
        ensures
            r@ == "invalid key=value format: '"@ + self.input@ + "'"@,
    {
        let mut m = String::new();
        push_text(&mut m, "invalid key=value format: '");
        push_text(&mut m, self.input.as_str());
        push_text(&mut m, "'");
        m
    }
}

/// `s` is `key`, then `=`, then `value`, and `key` holds no `=`: the split at
/// the first `=`.
pub open spec fn splits_at_first_eq(s: Seq<char>, key: Seq<char>, value: Seq<char>) -> bool {
    &&& s == key + seq!['='] + value
    &&& !key.contains('=')
}

/// Splits `s` at its first `=` into a key and a value; fails when `s` holds
/// no `=`.
pub fn parse_key_val(s: &str) -> (r: Result<(String, String), KeyValError>)
    ensures
        r is Err <==> !s@.contains('='),
        r matches Ok((k, v)) ==> splits_at_first_eq(s@, k@, v@),
        r matches Err(e) ==> e.input@ == s@,
{
    let mut key = String::new();
    let mut value = String::new();
    let mut seen = false;
    for c in it: s.chars()
        invariant
            it.seq() == s@,
            0 <= it.index() <= s@.len(),
            !seen ==> key@ == s@.take(it.index()) && value@.len() == 0 && !key@.contains('='),
            seen ==> exists|p: int|
                0 <= p < it.index() && s@[p] == '=' && key@ == s@.take(p) && !key@.contains('=')
                    && value@ == s@.subrange(p + 1, it.index() as int),
    {
        proof {
            assert(s@[it.index()] == c);
        }
        if seen {
            let ghost p = choose|p: int|
                0 <= p < it.index() && s@[p] == '=' && key@ == s@.take(p) && !key@.contains('=')
                    && value@ == s@.subrange(p + 1, it.index() as int);
            push_char(&mut value, c);
            assert(value@ =~= s@.subrange(p + 1, it.index() + 1));
        } else if c == '=' {
            seen = true;
            assert(value@ =~= s@.subrange(it.index() + 1, it.index() + 1));
        } else {
            push_char(&mut key, c);
            assert(key@ =~= s@.take(it.index() + 1));
        }
    }
    if seen {
        proof {
            let p = choose|p: int|
                0 <= p < s@.len() && s@[p] == '=' && key@ == s@.take(p) && !key@.contains('=')
                    && value@ == s@.subrange(p + 1, s@.len() as int);
            assert(s@ =~= key@ + seq!['='] + value@);
        }
        Ok((key, value))
    } else {
        assert(key@ =~= s@);
        Err(KeyValError { input: s.to_owned() })
    }
}

} // verus!
