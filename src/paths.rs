//! Path joining, through camino's UTF-8 paths.
use camino::Utf8Path;
use vstd::prelude::*;

verus! {

/// The path that camino gives for `part` adjoined to `base`; it depends on the
/// two paths alone.
pub uninterp spec fn joined_path(base: Seq<char>, part: Seq<char>) -> Seq<char>;

/// Relies on `camino::Utf8Path::join`: adjoins `part` to `base`.
#[verifier::external_body]
pub(crate) fn join_path(base: &str, part: &str) -> (r: String)
    ensures
        r@ == joined_path(base@, part@),
{
    Utf8Path::new(base).join(part).into_string()
}

} // verus!
