//! The HTTP Basic Authentication gate and the repository access policy.
//!
//! `parse_basic_auth` turns a raw `Authorization` header into
//! credentials, `authenticate` verifies them against the user store,
//! `login_flow` decides between challenging and verifying, and
//! `validate_repo_access` applies the repository-visibility policy with
//! its anti-enumeration rule.

use vstd::prelude::*;
use crate::errors::Either;
use crate::errors::GitError;
use crate::errors::GitErrorView;
use crate::errors::incorrect_credentials_msg;
use crate::outside::base64_decode;
use crate::outside::base64_decoded;
use crate::outside::utf8_decoded;
use crate::outside::utf8_to_string;
use crate::store::UserRecord;
use crate::store::UserStore;
use crate::store::lookup_by_username;
use crate::text::split_first;
use crate::text::split_once_char;
use crate::text::str_is;

verus! {

/// Visibility policy of a repository.
#[derive(Clone, Copy, PartialEq, Eq, Structural, Debug)]
pub enum RepoVisibility {
    Public,
    Internal,
    Private,
}

/// A repository row, as the collaborating lookup hands it in.
pub struct Repository {
    pub id: i32,
    pub owner: String,
    pub name: String,
    pub visibility: RepoVisibility,
}

/// The response that asks the caller to retry with Basic credentials.
pub struct ChallengeResponse {
    pub status: u16,
    pub content_type: String,
    pub www_authenticate: String,
}

/// Mathematical image of a [`ChallengeResponse`].
pub struct ChallengeView {
    pub status: u16,
    pub content_type: Seq<char>,
    pub www_authenticate: Seq<char>,
}

impl View for ChallengeResponse {
    type V = ChallengeView;

    open spec fn view(&self) -> ChallengeView {
        ChallengeView {
            status: self.status,
            content_type: self.content_type@,
            www_authenticate: self.www_authenticate@,
        }
    }
}

/// A 401 that carries no message at all, so that nothing about the
/// parser's internals is disclosed.
pub open spec fn no_message_denial() -> GitErrorView {
    GitErrorView { status: 401, message: None }
}

/// The 401 every credential failure past decoding collapses into.
pub open spec fn generic_denial() -> GitErrorView {
    GitErrorView { status: 401, message: Some(incorrect_credentials_msg()) }
}

/// The 404 that hides whether a repository exists.
pub open spec fn not_found_denial() -> GitErrorView {
    GitErrorView { status: 404, message: None }
}

/// What the credential parser yields for a raw header value: the
/// username and password, or the denial it fails with.
pub open spec fn parse_basic_auth_spec(header: Seq<char>) -> Result<
    (Seq<char>, Seq<char>),
    GitErrorView,
> {
    let (auth_type, rest) = split_first(header, ' ');
    let creds_b64 = match rest {
        Some(r) => r,
        None => Seq::<char>::empty(),
    };
    if auth_type != "Basic"@ {
        Err(no_message_denial())
    } else {
        match base64_decoded(creds_b64) {
            None => Err(no_message_denial()),
            Some(bytes) => match utf8_decoded(bytes) {
                None => Err(no_message_denial()),
                Some(creds) => {
                    let (username, rest2) = split_first(creds, ':');
                    let password = match rest2 {
                        Some(p) => p,
                        None => Seq::<char>::empty(),
                    };
                    if username.len() == 0 || password.len() == 0 {
                        Err(generic_denial())
                    } else {
                        Ok((username, password))
                    }
                },
            },
        }
    }
}

/// Parses an `Authorization` header value into a (username, password)
/// pair.
///
/// The scheme must be the literal `Basic`; any other scheme, an invalid
/// Base64 payload, and bytes that are not valid text all deny with the
/// same messageless 401. A missing colon or an empty username or
/// password denies with the one generic message that every later
/// credential failure reuses.
pub fn parse_basic_auth(auth_header: &str) -> (r: Result<(String, String), GitError>)
    ensures
        match (r, parse_basic_auth_spec(auth_header@)) {
            (Ok(t), Ok(st)) => t.0@ == st.0 && t.1@ == st.1,
            (Err(e), Err(se)) => e@ == se,
            _ => false,
        },
{
    let (auth_type, rest) = split_once_char(auth_header, ' ');
    let base64_creds: String = match rest {
        Some(r) => r,
        None => String::new(),
    };
    if !str_is(&auth_type, "Basic") {
        return Err(GitError { status: 401, message: None });
    }
    let decoded = match base64_decode(base64_creds.as_str()) {
        Some(v) => v,
        None => {
            return Err(GitError { status: 401, message: None });
        },
    };
    let creds = match utf8_to_string(decoded) {
        Some(s) => s,
        None => {
            return Err(GitError { status: 401, message: None });
        },
    };
    let (username, rest2) = split_once_char(creds.as_str(), ':');
    let password: String = match rest2 {
        Some(p) => p,
        None => String::new(),
    };
    if username.as_str().is_empty() || password.as_str().is_empty() {
        return Err(
            GitError { status: 401, message: Some("Incorrect username or password".to_owned()) },
        );
    }
    Ok((username, password))
}

/// What authentication yields for an optional header and the rows in the
/// store: the matching user, or the denial.
pub open spec fn authenticate_spec(header: Option<Seq<char>>, users: Seq<UserRecord>) -> Result<
    UserRecord,
    GitErrorView,
> {
    match header {
        None => Err(no_message_denial()),
        Some(h) => match parse_basic_auth_spec(h) {
            Err(e) => Err(e),
            Ok((username, password)) => if username.len() == 0 || password.len() == 0 {
                Err(generic_denial())
            } else {
                match lookup_by_username(users, username) {
                    None => Err(generic_denial()),
                    Some(user) => if user.password@ == password {
                        Ok(user)
                    } else {
                        Err(generic_denial())
                    },
                }
            },
        },
    }
}

/// The view of an optional borrowed header.
pub open spec fn header_view(auth_header: Option<&str>) -> Option<Seq<char>> {
    match auth_header {
        Some(h) => Some(h@),
        None => None,
    }
}

/// Verifies the supplied credentials against the store: parses the
/// header, looks the username up by exact match and checks the password
/// against the stored material. An absent user and a wrong password
/// deny with the identical generic message, so that usernames cannot be
/// enumerated.
pub fn authenticate(auth_header: Option<&str>, store: &UserStore) -> (r: Result<
    UserRecord,
    GitError,
>)
    ensures
        match (r, authenticate_spec(header_view(auth_header), store.users@)) {
            (Ok(u), Ok(su)) => u == su,
            (Err(e), Err(se)) => e@ == se,
            _ => false,
        },
{
    match auth_header {
        Some(h) => {
            let (username, password) = match parse_basic_auth(h) {
                Ok(t) => t,
                Err(e) => {
                    return Err(e);
                },
            };
            if username.as_str().is_empty() || password.as_str().is_empty() {
                return Err(
                    GitError {
                        status: 401,
                        message: Some("Incorrect username or password".to_owned()),
                    },
                );
            }
            let user = match store.find_by_username(&username) {
                Some(u) => u,
                None => {
                    return Err(
                        GitError {
                            status: 401,
                            message: Some("Incorrect username or password".to_owned()),
                        },
                    );
                },
            };
            if user.password == password {
                Ok(user)
            } else {
                Err(GitError { status: 401, message: Some("Incorrect username or password".to_owned()) })
            }
        },
        None => Err(GitError { status: 401, message: None }),
    }
}

/// Whether an `Authorization` header came with the request.
pub fn is_present(auth_header: Option<&str>) -> (r: bool)
    ensures
        r == (auth_header is Some),
{
    match auth_header {
        Some(_) => true,
        None => false,
    }
}

/// The challenge sent when no credentials were supplied: a 401 carrying
/// the Basic realm header and the caller's negotiated content type.
pub open spec fn challenge_spec(content_type: Seq<char>) -> ChallengeView {
    ChallengeView {
        status: 401,
        content_type,
        www_authenticate: "Basic realm=\"GitArena\", charset=\"UTF-8\""@,
    }
}

/// Builds the challenge response that asks the caller to retry with
/// Basic credentials.
pub fn prompt(content_type: &str) -> (r: ChallengeResponse)
    ensures
        r@ == challenge_spec(content_type@),
{
    ChallengeResponse {
        status: 401,
        content_type: content_type.to_owned(),
        www_authenticate: "Basic realm=\"GitArena\", charset=\"UTF-8\"".to_owned(),
    }
}

/// What the login flow yields: the authenticated user, the challenge,
/// or the denial that verification failed with.
pub open spec fn login_flow_spec(
    header: Option<Seq<char>>,
    content_type: Seq<char>,
    users: Seq<UserRecord>,
) -> Result<Either<UserRecord, ChallengeView>, GitErrorView> {
    match header {
        None => Ok(Either::B(challenge_spec(content_type))),
        Some(_) => match authenticate_spec(header, users) {
            Ok(u) => Ok(Either::A(u)),
            Err(e) => Err(e),
        },
    }
}

/// Relates an executable login outcome to its specification image.
pub open spec fn login_outcome_matches(
    r: Result<Either<UserRecord, ChallengeResponse>, GitError>,
    s: Result<Either<UserRecord, ChallengeView>, GitErrorView>,
) -> bool {
    match (r, s) {
        (Ok(Either::A(u)), Ok(Either::A(su))) => u == su,
        (Ok(Either::B(c)), Ok(Either::B(sc))) => c@ == sc,
        (Err(e), Err(se)) => e@ == se,
        _ => false,
    }
}

/// Decides between challenging for credentials and verifying the ones
/// supplied: with no `Authorization` header the caller is prompted,
/// otherwise verification proceeds and its outcome is passed through.
pub fn login_flow(auth_header: Option<&str>, content_type: &str, store: &UserStore) -> (r: Result<
    Either<UserRecord, ChallengeResponse>,
    GitError,
>)
    ensures
        login_outcome_matches(r, login_flow_spec(header_view(auth_header), content_type@, store.users@)),
{
    if !is_present(auth_header) {
        return Ok(Either::B(prompt(content_type)));
    }
    match authenticate(auth_header, store) {
        Ok(u) => Ok(Either::A(u)),
        Err(e) => Err(e),
    }
}

/// What the access gate yields: anonymous or authenticated passage with
/// the repository, a challenge, or a denial.
pub open spec fn validate_repo_access_spec(
    repo: Option<Repository>,
    header: Option<Seq<char>>,
    content_type: Seq<char>,
    users: Seq<UserRecord>,
) -> Result<Either<(Option<UserRecord>, Repository), ChallengeView>, GitErrorView> {
    match repo {
        Some(rep) => if rep.visibility != RepoVisibility::Public {
            match login_flow_spec(header, content_type, users) {
                Ok(Either::A(u)) => Ok(Either::A((Some(u), rep))),
                Ok(Either::B(c)) => Ok(Either::B(c)),
                Err(e) => Err(e),
            }
        } else {
            Ok(Either::A((None, rep)))
        },
        None => Err(not_found_denial()),
    }
}

/// Relates an executable access outcome to its specification image.
pub open spec fn access_outcome_matches(
    r: Result<Either<(Option<UserRecord>, Repository), ChallengeResponse>, GitError>,
    s: Result<Either<(Option<UserRecord>, Repository), ChallengeView>, GitErrorView>,
) -> bool {
    match (r, s) {
        (Ok(Either::A(t)), Ok(Either::A(st))) => t == st,
        (Ok(Either::B(c)), Ok(Either::B(sc))) => c@ == sc,
        (Err(e), Err(se)) => e@ == se,
        _ => false,
    }
}

/// The top-level policy: a public repository passes anonymously, a
/// non-public one goes through the login flow, and a missing one always
/// ends in a bare 404.
///
/// The missing-repository branch still exercises the full
/// authentication path so that private and nonexistent repositories
/// stay indistinguishable in behaviour, but every outcome of that path
/// — success, challenge or failure — is discarded in favour of the 404.
/// The challenge the flow would otherwise send is thereby suppressed on
/// this branch; that gap is kept deliberate and visible here rather
/// than silently reworked.
pub fn validate_repo_access(
    repo: Option<Repository>,
    content_type: &str,
    auth_header: Option<&str>,
    store: &UserStore,
) -> (r: Result<Either<(Option<UserRecord>, Repository), ChallengeResponse>, GitError>)
    ensures
        access_outcome_matches(
            r,
            validate_repo_access_spec(repo, header_view(auth_header), content_type@, store.users@),
        ),
{
    match repo {
        Some(rep) => {
            if rep.visibility != RepoVisibility::Public {
                match login_flow(auth_header, content_type, store) {
                    Ok(Either::A(user)) => Ok(Either::A((Some(user), rep))),
                    Ok(Either::B(resp)) => Ok(Either::B(resp)),
                    Err(e) => Err(e),
                }
            } else {
                Ok(Either::A((None, rep)))
            }
        },
        None => {
            let _ = login_flow(auth_header, content_type, store);
            Err(GitError { status: 404, message: None })
        },
    }
}

/// Every denial the credential parser produces is a 401, and every one
/// of them that carries a message at all carries exactly the generic
/// wording — a malformed payload cannot be told from a wrong password by
/// the text. (Scheme and decoding failures carry no message.)
pub proof fn lemma_parser_denials_uniform(h: Seq<char>)
    ensures
        match parse_basic_auth_spec(h) {
            Err(e) => e.status == 401 && (e.message is Some ==> e.message == Some(
                incorrect_credentials_msg(),
            )),
            Ok(_) => true,
        },
{
}

/// A header that fails to parse denies the same way against any store
/// at all: the store is never consulted before the credentials are
/// whole.
pub proof fn lemma_parse_failure_ignores_store(
    h: Seq<char>,
    users1: Seq<UserRecord>,
    users2: Seq<UserRecord>,
)
    requires
        parse_basic_auth_spec(h) is Err,
    ensures
        authenticate_spec(Some(h), users1) == authenticate_spec(Some(h), users2),
{
}

/// An unknown username and a present username with a wrong password
/// deny with the identical error, so the store's contents cannot be
/// enumerated through the verifier.
pub proof fn lemma_verifier_denials_identical(
    h: Seq<char>,
    users: Seq<UserRecord>,
    username: Seq<char>,
    password: Seq<char>,
)
    requires
        parse_basic_auth_spec(h) == Ok::<_, GitErrorView>((username, password)),
    ensures
        lookup_by_username(users, username) is None ==> authenticate_spec(Some(h), users) == Err::<
            UserRecord,
            _,
        >(generic_denial()),
        match lookup_by_username(users, username) {
            Some(u) => u.password@ != password ==> authenticate_spec(Some(h), users) == Err::<
                UserRecord,
                _,
            >(generic_denial()),
            None => true,
        },
{
}

/// A public repository is served anonymously whatever credentials were
/// sent and whatever the store holds: the credential path contributes
/// nothing to the outcome.
pub proof fn lemma_public_repo_allows_anonymous(
    repo: Repository,
    header: Option<Seq<char>>,
    content_type: Seq<char>,
    users: Seq<UserRecord>,
)
    requires
        repo.visibility == RepoVisibility::Public,
    ensures
        validate_repo_access_spec(Some(repo), header, content_type, users) == Ok::<
            _,
            GitErrorView,
        >(Either::<(Option<UserRecord>, Repository), ChallengeView>::A((None, repo))),
{
}

/// A non-public repository with credentials that parse, match a stored
/// row and carry its password is served authenticated, with that very
/// user.
pub proof fn lemma_private_repo_valid_credentials(
    repo: Repository,
    h: Seq<char>,
    content_type: Seq<char>,
    users: Seq<UserRecord>,
    username: Seq<char>,
    password: Seq<char>,
    u: UserRecord,
)
    requires
        repo.visibility != RepoVisibility::Public,
        parse_basic_auth_spec(h) == Ok::<_, GitErrorView>((username, password)),
        lookup_by_username(users, username) == Some(u),
        u.password@ == password,
    ensures
        validate_repo_access_spec(Some(repo), Some(h), content_type, users) == Ok::<
            _,
            GitErrorView,
        >(Either::<(Option<UserRecord>, Repository), ChallengeView>::A((Some(u), repo))),
{
}

/// A missing repository always ends in the bare 404, whether the
/// credentials supplied alongside were valid, invalid or absent.
pub proof fn lemma_missing_repo_always_not_found(
    header: Option<Seq<char>>,
    content_type: Seq<char>,
    users: Seq<UserRecord>,
)
    ensures
        validate_repo_access_spec(None, header, content_type, users) == Err::<
            Either<(Option<UserRecord>, Repository), ChallengeView>,
            _,
        >(not_found_denial()),
{
}

} // verus!
