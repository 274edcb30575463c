use bindgen_cli::key_val::parse_key_val;

#[test]
fn splits_simple_pair() {
    let (k, v) = parse_key_val("my_crate=path/to/crate").unwrap();
    assert_eq!(k, "my_crate");
    assert_eq!(v, "path/to/crate");
}

#[test]
fn splits_at_first_equals_sign() {
    let (k, v) = parse_key_val("a=b=c").unwrap();
    assert_eq!(k, "a");
    assert_eq!(v, "b=c");
}

#[test]
fn empty_key_and_empty_value() {
    assert_eq!(parse_key_val("=v").unwrap(), ("".to_string(), "v".to_string()));
    assert_eq!(parse_key_val("k=").unwrap(), ("k".to_string(), "".to_string()));
    assert_eq!(parse_key_val("=").unwrap(), ("".to_string(), "".to_string()));
}

#[test]
fn keeps_non_ascii_text() {
    let (k, v) = parse_key_val("crâte=dossier/é").unwrap();
    assert_eq!(k, "crâte");
    assert_eq!(v, "dossier/é");
}

#[test]
fn rejects_text_without_equals_sign() {
    let e = parse_key_val("no-separator").unwrap_err();
    assert_eq!(e.input, "no-separator");
    assert_eq!(e.message(), "invalid key=value format: 'no-separator'");
    assert!(parse_key_val("").is_err());
}
