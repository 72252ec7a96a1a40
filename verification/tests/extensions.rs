use gitarena::errors::NestedError;
use gitarena::extensions::{
    flatten_io_result, flatten_result, get_user_by_identity, is_fs_legal, is_identifier,
    parse_key_value,
};
use gitarena::store::{UserRecord, UserStore};

fn user(id: i32, username: &str, session: &str) -> UserRecord {
    UserRecord {
        id,
        username: username.to_owned(),
        email: format!("{}@example.com", username),
        password: "pw".to_owned(),
        session: session.to_owned(),
    }
}

fn store() -> UserStore {
    UserStore {
        users: vec![user(42, "carol", "abc123"), user(7, "dave", "unknown")],
    }
}

#[test]
fn parse_key_value_splits_at_first_equals() {
    let (k, v) = parse_key_value("a=b=c").expect("must parse");
    assert_eq!(k, "a");
    assert_eq!(v, "b=c");
}

#[test]
fn parse_key_value_accepts_empty_key() {
    let (k, v) = parse_key_value("=value").expect("must parse");
    assert_eq!(k, "");
    assert_eq!(v, "value");
}

#[test]
fn parse_key_value_rejects_input_without_equals() {
    let e = parse_key_value("no separator").err().expect("must fail");
    assert_eq!(e.expected, "key values");
    assert_eq!(e.input, "no separator");
}

#[test]
fn is_identifier_accepts_alphanumerics_dash_underscore() {
    assert!(is_identifier(&'a'));
    assert!(is_identifier(&'Z'));
    assert!(is_identifier(&'0'));
    assert!(is_identifier(&'-'));
    assert!(is_identifier(&'_'));
}

#[test]
fn is_identifier_rejects_other_characters() {
    assert!(!is_identifier(&' '));
    assert!(!is_identifier(&'$'));
    assert!(!is_identifier(&'.'));
    assert!(!is_identifier(&'\u{e9}'));
}

#[test]
fn is_fs_legal_rejects_reserved_names() {
    assert!(!is_fs_legal(&"CON".to_owned()));
    assert!(!is_fs_legal(&"PRN".to_owned()));
    assert!(!is_fs_legal(&"AUX".to_owned()));
    assert!(!is_fs_legal(&"NUL".to_owned()));
    assert!(!is_fs_legal(&"LST".to_owned()));
    assert!(!is_fs_legal(&"COM0".to_owned()));
    assert!(!is_fs_legal(&"COM5".to_owned()));
    assert!(!is_fs_legal(&"COM9".to_owned()));
    assert!(!is_fs_legal(&"LPT0".to_owned()));
    assert!(!is_fs_legal(&"LPT9".to_owned()));
}

#[test]
fn is_fs_legal_is_exact_case_so_lowercase_con_passes() {
    // The reserved-name rule compares exact-case only; the lowercase
    // spelling is treated as legal, a documented gap kept as specified.
    assert!(is_fs_legal(&"con".to_owned()));
    assert!(is_fs_legal(&"com5".to_owned()));
    assert!(is_fs_legal(&"lpt0".to_owned()));
}

#[test]
fn is_fs_legal_accepts_ordinary_names() {
    assert!(is_fs_legal(&"HELLO".to_owned()));
    assert!(is_fs_legal(&"COMA".to_owned()));
    assert!(is_fs_legal(&"LPTX".to_owned()));
    assert!(is_fs_legal(&"COM10".to_owned()));
    assert!(is_fs_legal(&"".to_owned()));
}

#[test]
fn identity_token_resolves_matching_row() {
    let s = store();
    let u = get_user_by_identity(Some("42$abc123"), &s).expect("token must resolve");
    assert_eq!(u.id, 42);
    assert_eq!(u.username, "carol");
}

#[test]
fn identity_token_without_number_resolves_to_none() {
    let s = store();
    assert!(get_user_by_identity(Some("notanumber"), &s).is_none());
}

#[test]
fn identity_token_with_wrong_session_resolves_to_none() {
    let s = store();
    assert!(get_user_by_identity(Some("42$other"), &s).is_none());
}

#[test]
fn identity_token_without_separator_uses_unknown_session() {
    let s = store();
    let u = get_user_by_identity(Some("7"), &s).expect("the literal unknown session matches");
    assert_eq!(u.id, 7);
    assert!(get_user_by_identity(Some("42"), &s).is_none());
}

#[test]
fn identity_token_with_sign_and_leading_zeros_parses() {
    let s = store();
    assert_eq!(get_user_by_identity(Some("+42$abc123"), &s).map(|u| u.id), Some(42));
    assert_eq!(get_user_by_identity(Some("042$abc123"), &s).map(|u| u.id), Some(42));
}

#[test]
fn identity_token_with_overflowing_id_resolves_to_none() {
    let s = store();
    assert!(get_user_by_identity(Some("99999999999999999999$abc123"), &s).is_none());
    assert!(get_user_by_identity(Some("2147483648$abc123"), &s).is_none());
}

#[test]
fn absent_identity_resolves_to_none() {
    let s = store();
    assert!(get_user_by_identity(None, &s).is_none());
}

#[test]
fn flatten_result_flattens_each_layer() {
    let ok: Result<Result<i32, String>, String> = Ok(Ok(5));
    assert_eq!(flatten_result(ok), Ok(5));
    let inner: Result<Result<i32, String>, String> = Ok(Err("inner".to_owned()));
    assert_eq!(flatten_result(inner), Err("inner".to_owned()));
    let outer: Result<Result<i32, String>, String> = Err("outer".to_owned());
    assert_eq!(flatten_result(outer), Err("outer".to_owned()));
}

#[test]
fn flatten_io_result_keeps_the_layers_apart() {
    let ok: Result<Result<i32, String>, u8> = Ok(Ok(5));
    assert!(matches!(flatten_io_result(ok), Ok(5)));
    let inner: Result<Result<i32, String>, u8> = Ok(Err("bad".to_owned()));
    match flatten_io_result(inner) {
        Err(NestedError::Inner(m)) => assert_eq!(m, "bad"),
        _ => panic!("inner failure must surface as inner"),
    }
    let outer: Result<Result<i32, String>, u8> = Err(3);
    match flatten_io_result(outer) {
        Err(NestedError::Outer(c)) => assert_eq!(c, 3),
        _ => panic!("outer failure must surface as outer"),
    }
}
