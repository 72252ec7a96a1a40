use base64::Engine;
use gitarena::basic_auth::{
    authenticate, login_flow, parse_basic_auth, prompt, validate_repo_access, RepoVisibility,
    Repository,
};
use gitarena::errors::Either;
use gitarena::store::{UserRecord, UserStore};

const GENERIC: &str = "Incorrect username or password";

fn b64(s: &str) -> String {
    base64::engine::general_purpose::STANDARD.encode(s)
}

fn store() -> UserStore {
    UserStore {
        users: vec![
            UserRecord {
                id: 1,
                username: "alice".to_owned(),
                email: "alice@example.com".to_owned(),
                password: "secret".to_owned(),
                session: "sess-a".to_owned(),
            },
            UserRecord {
                id: 2,
                username: "bob".to_owned(),
                email: "bob@example.com".to_owned(),
                password: "hunter2".to_owned(),
                session: "sess-b".to_owned(),
            },
        ],
    }
}

fn repo(visibility: RepoVisibility) -> Repository {
    Repository {
        id: 10,
        owner: "alice".to_owned(),
        name: "project".to_owned(),
        visibility,
    }
}

#[test]
fn wrong_scheme_denies_without_message() {
    let r = parse_basic_auth(&format!("Bearer {}", b64("alice:secret")));
    match r {
        Err(e) => {
            assert_eq!(e.status, 401);
            assert!(e.message.is_none());
        }
        Ok(_) => panic!("wrong scheme must not parse"),
    }
}

#[test]
fn invalid_base64_denies_without_message() {
    let r = parse_basic_auth("Basic !!!not-base64!!!");
    match r {
        Err(e) => {
            assert_eq!(e.status, 401);
            assert!(e.message.is_none());
        }
        Ok(_) => panic!("invalid base64 must not parse"),
    }
}

#[test]
fn invalid_utf8_denies_without_message() {
    let encoded = base64::engine::general_purpose::STANDARD.encode([0xffu8, 0xfe, 0xfd]);
    let r = parse_basic_auth(&format!("Basic {}", encoded));
    match r {
        Err(e) => {
            assert_eq!(e.status, 401);
            assert!(e.message.is_none());
        }
        Ok(_) => panic!("invalid utf-8 must not parse"),
    }
}

#[test]
fn missing_colon_denies_with_generic_message() {
    let r = parse_basic_auth(&format!("Basic {}", b64("alicesecret")));
    match r {
        Err(e) => {
            assert_eq!(e.status, 401);
            assert_eq!(e.message.as_deref(), Some(GENERIC));
        }
        Ok(_) => panic!("missing colon must not parse"),
    }
}

#[test]
fn empty_password_denies_with_generic_message() {
    // header "Basic " + base64("alice:"): fails before any lookup could happen.
    let r = parse_basic_auth(&format!("Basic {}", b64("alice:")));
    match r {
        Err(e) => {
            assert_eq!(e.status, 401);
            assert_eq!(e.message.as_deref(), Some(GENERIC));
        }
        Ok(_) => panic!("empty password must not parse"),
    }
}

#[test]
fn empty_username_denies_with_generic_message() {
    let r = parse_basic_auth(&format!("Basic {}", b64(":secret")));
    match r {
        Err(e) => {
            assert_eq!(e.status, 401);
            assert_eq!(e.message.as_deref(), Some(GENERIC));
        }
        Ok(_) => panic!("empty username must not parse"),
    }
}

#[test]
fn scheme_without_payload_denies_with_generic_message() {
    let r = parse_basic_auth("Basic");
    match r {
        Err(e) => {
            assert_eq!(e.status, 401);
            assert_eq!(e.message.as_deref(), Some(GENERIC));
        }
        Ok(_) => panic!("bare scheme must not parse"),
    }
}

#[test]
fn round_trip_parses_credentials() {
    let r = parse_basic_auth(&format!("Basic {}", b64("alice:tops:ecret")));
    match r {
        Ok((u, p)) => {
            assert_eq!(u, "alice");
            assert_eq!(p, "tops:ecret");
        }
        Err(_) => panic!("well-formed credentials must parse"),
    }
}

#[test]
fn unknown_user_and_wrong_password_same_denial() {
    let s = store();
    let h1 = format!("Basic {}", b64("mallory:whatever"));
    let h2 = format!("Basic {}", b64("alice:wrong"));
    let e1 = authenticate(Some(&h1), &s).err().expect("unknown user must fail");
    let e2 = authenticate(Some(&h2), &s).err().expect("wrong password must fail");
    assert_eq!(e1.status, e2.status);
    assert_eq!(e1.message, e2.message);
    assert_eq!(e1.message.as_deref(), Some(GENERIC));
}

#[test]
fn valid_credentials_authenticate() {
    let s = store();
    let h = format!("Basic {}", b64("alice:secret"));
    let u = authenticate(Some(&h), &s).expect("valid credentials must authenticate");
    assert_eq!(u.id, 1);
    assert_eq!(u.username, "alice");
}

#[test]
fn missing_header_denies_without_message() {
    let s = store();
    let e = authenticate(None, &s).err().expect("no header must fail");
    assert_eq!(e.status, 401);
    assert!(e.message.is_none());
}

#[test]
fn prompt_carries_realm_and_content_type() {
    let c = prompt("application/x-git-upload-pack-advertisement");
    assert_eq!(c.status, 401);
    assert_eq!(c.content_type, "application/x-git-upload-pack-advertisement");
    assert_eq!(c.www_authenticate, "Basic realm=\"GitArena\", charset=\"UTF-8\"");
}

#[test]
fn login_flow_challenges_without_header() {
    let s = store();
    match login_flow(None, "text/plain", &s) {
        Ok(Either::B(c)) => {
            assert_eq!(c.status, 401);
            assert_eq!(c.content_type, "text/plain");
        }
        _ => panic!("absent header must challenge"),
    }
}

#[test]
fn public_repo_allows_anonymous_even_with_garbage_header() {
    let s = store();
    let garbage = "Nonsense $$$".to_owned();
    match validate_repo_access(Some(repo(RepoVisibility::Public)), "text/plain", Some(&garbage), &s)
    {
        Ok(Either::A((user, rep))) => {
            assert!(user.is_none());
            assert_eq!(rep.name, "project");
        }
        _ => panic!("public repository must pass anonymously"),
    }
}

#[test]
fn private_repo_with_valid_credentials_authenticates() {
    let s = store();
    let h = format!("Basic {}", b64("bob:hunter2"));
    match validate_repo_access(Some(repo(RepoVisibility::Private)), "text/plain", Some(&h), &s) {
        Ok(Either::A((user, rep))) => {
            let user = user.expect("the authenticated user is returned");
            assert_eq!(user.id, 2);
            assert_eq!(rep.id, 10);
        }
        _ => panic!("valid credentials must open a private repository"),
    }
}

#[test]
fn private_repo_without_header_challenges() {
    let s = store();
    match validate_repo_access(Some(repo(RepoVisibility::Private)), "text/plain", None, &s) {
        Ok(Either::B(c)) => assert_eq!(c.status, 401),
        _ => panic!("a private repository without credentials must challenge"),
    }
}

#[test]
fn private_repo_with_wrong_password_denies() {
    let s = store();
    let h = format!("Basic {}", b64("bob:wrong"));
    match validate_repo_access(Some(repo(RepoVisibility::Private)), "text/plain", Some(&h), &s) {
        Err(e) => {
            assert_eq!(e.status, 401);
            assert_eq!(e.message.as_deref(), Some(GENERIC));
        }
        _ => panic!("wrong password must deny"),
    }
}

#[test]
fn missing_repo_not_found_with_absent_credentials() {
    let s = store();
    match validate_repo_access(None, "text/plain", None, &s) {
        Err(e) => {
            assert_eq!(e.status, 404);
            assert!(e.message.is_none());
        }
        _ => panic!("a missing repository must end in 404"),
    }
}

#[test]
fn missing_repo_not_found_with_valid_credentials() {
    let s = store();
    let h = format!("Basic {}", b64("alice:secret"));
    match validate_repo_access(None, "text/plain", Some(&h), &s) {
        Err(e) => {
            assert_eq!(e.status, 404);
            assert!(e.message.is_none());
        }
        _ => panic!("a missing repository must end in 404"),
    }
}

#[test]
fn missing_repo_not_found_with_invalid_credentials() {
    let s = store();
    let h = format!("Basic {}", b64("alice:wrong"));
    match validate_repo_access(None, "text/plain", Some(&h), &s) {
        Err(e) => {
            assert_eq!(e.status, 404);
            assert!(e.message.is_none());
        }
        _ => panic!("a missing repository must end in 404"),
    }
}

#[test]
fn internal_repo_requires_authentication() {
    let s = store();
    match validate_repo_access(Some(repo(RepoVisibility::Internal)), "text/plain", None, &s) {
        Ok(Either::B(c)) => assert_eq!(c.status, 401),
        _ => panic!("a non-public repository must challenge without credentials"),
    }
}
