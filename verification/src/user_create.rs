//! The decision core of user registration: username normalisation, the
//! lowercased-uniqueness check, and the response each outcome maps to.
//! The persistence, captcha call and mail delivery around it are the
//! host's concern.

use vstd::prelude::*;
use crate::outside::lower_of;
use crate::outside::lowercase;
use crate::store::UserRecord;
use crate::store::UserStore;

verus! {

/// An ASCII character, i.e. one at or below code point 127.
pub open spec fn is_ascii_char(c: char) -> bool {
    c as u32 <= 127
}

/// Index of the first non-ASCII character, if any.
pub open spec fn find_non_ascii(s: Seq<char>) -> Option<int>
    decreases s.len(),
{
    if s.len() == 0 {
        None
    } else if !is_ascii_char(s[0]) {
        Some(0)
    } else {
        match find_non_ascii(s.subrange(1, s.len() as int)) {
            Some(i) => Some(i + 1),
            None => None,
        }
    }
}

/// `find_non_ascii` returns the least non-ASCII index, or reports that
/// every character is ASCII.
proof fn lemma_find_non_ascii(s: Seq<char>)
    ensures
        match find_non_ascii(s) {
            Some(i) => 0 <= i < s.len() && !is_ascii_char(s[i]) && (forall|j: int|
                0 <= j < i ==> is_ascii_char(s[j])),
            None => forall|j: int| 0 <= j < s.len() ==> is_ascii_char(s[j]),
        },
    decreases s.len(),
{
    if s.len() == 0 {
    } else if !is_ascii_char(s[0]) {
    } else {
        let t = s.subrange(1, s.len() as int);
        lemma_find_non_ascii(t);
        match find_non_ascii(t) {
            Some(i) => {
                assert(s[i + 1] == t[i]);
                assert forall|j: int| 0 <= j < i + 1 implies is_ascii_char(s[j]) by {
                    if j >= 1 {
                        assert(t[j - 1] == s[j]);
                    }
                }
            },
            None => {
                assert forall|j: int| 0 <= j < s.len() implies is_ascii_char(s[j]) by {
                    if j >= 1 {
                        assert(t[j - 1] == s[j]);
                    }
                }
            },
        }
    }
}

/// Length of the leading run of non-ASCII characters.
pub open spec fn non_ascii_run_len(s: Seq<char>) -> int
    decreases s.len(),
{
    if s.len() == 0 || is_ascii_char(s[0]) {
        0
    } else {
        1 + non_ascii_run_len(s.subrange(1, s.len() as int))
    }
}

/// The leading non-ASCII run is exactly as long as `non_ascii_run_len`
/// says: all characters before its end are non-ASCII and the one right
/// after it, when there is one, is ASCII.
proof fn lemma_non_ascii_run_len(s: Seq<char>)
    ensures
        0 <= non_ascii_run_len(s) <= s.len(),
        forall|j: int| 0 <= j < non_ascii_run_len(s) ==> !is_ascii_char(s[j]),
        non_ascii_run_len(s) < s.len() ==> is_ascii_char(s[non_ascii_run_len(s)]),
    decreases s.len(),
{
    if s.len() == 0 || is_ascii_char(s[0]) {
    } else {
        let t = s.subrange(1, s.len() as int);
        lemma_non_ascii_run_len(t);
        let r = non_ascii_run_len(s);
        assert(forall|j: int| 0 <= j < t.len() ==> t[j] == s[j + 1]);
        assert forall|j: int| 0 <= j < r implies !is_ascii_char(s[j]) by {
            if j >= 1 {
                assert(t[j - 1] == s[j]);
            }
        }
    }
}

/// What username validation yields: the first maximal run of non-ASCII
/// characters, or the empty string when the name is entirely ASCII.
/// (The run can hold no ASCII space, so no separator substitution can
/// ever apply to it.)
pub open spec fn validate_username_spec(s: Seq<char>) -> Seq<char> {
    match find_non_ascii(s) {
        Some(i) => s.subrange(i, i + non_ascii_run_len(s.subrange(i, s.len() as int))),
        None => Seq::empty(),
    }
}

/// Reduces a submitted username to its first run of non-ASCII
/// characters; a fully ASCII submission reduces to the empty string.
pub fn validate_username(username: &String) -> (r: String)
    ensures
        r@ == validate_username_spec(username@),
{
    let s = username.as_str();
    let len = s.unicode_len();
    let mut i: usize = 0;
    while i < len
        invariant
            i <= len,
            len == s@.len(),
            s@ == username@,
            forall|j: int| 0 <= j < i ==> is_ascii_char(s@[j]),
        decreases len - i,
    {
        let c = s.get_char(i);
        if (c as u32) > 127 {
            proof {
                lemma_find_non_ascii(s@);
            }
            let ghost tail = s@.subrange(i as int, len as int);
            let mut j: usize = i + 1;
            while j < len && (s.get_char(j) as u32) > 127
                invariant
                    i < j <= len,
                    len == s@.len(),
                    !is_ascii_char(s@[i as int]),
                    forall|k: int| i <= k < j ==> !is_ascii_char(s@[k]),
                decreases len - j,
            {
                j += 1;
            }
            proof {
                lemma_find_non_ascii(s@);
                assert(!is_ascii_char(s@[i as int]));
                match find_non_ascii(s@) {
                    Some(k) => {
                        if k < i {
                            assert(is_ascii_char(s@[k]));
                            assert(false);
                        }
                        if k > i {
                            assert(is_ascii_char(s@[i as int]));
                            assert(false);
                        }
                    },
                    None => {
                        assert(is_ascii_char(s@[i as int]));
                        assert(false);
                    },
                }
                lemma_non_ascii_run_len(tail);
                let r = non_ascii_run_len(tail);
                assert(forall|k: int| 0 <= k < tail.len() ==> tail[k] == s@[i + k]);
                if r < j - i {
                    assert(!is_ascii_char(s@[i + r]));
                    assert(false);
                }
                if r > j - i {
                    assert(!is_ascii_char(tail[j - i]));
                    assert(false);
                }
            }
            return s.substring_char(i, j).to_owned();
        }
        i += 1;
    }
    proof {
        lemma_find_non_ascii(s@);
    }
    String::new()
}

/// Whether some stored username, lower-cased, equals the given
/// lower-cased candidate.
pub open spec fn username_taken_spec(users: Seq<UserRecord>, lowered: Seq<char>) -> bool {
    exists|i: int| 0 <= i < users.len() && lower_of(users[i].username@) == lowered
}

/// Checks the lowercased-uniqueness rule: whether any stored username
/// collides with the candidate once both are lower-cased. (Login's own
/// lookup is exact-case; the discrepancy between the two rules is kept,
/// not resolved here.)
pub fn username_taken(store: &UserStore, lowered_username: &String) -> (r: bool)
    ensures
        r == username_taken_spec(store.users@, lowered_username@),
{
    let n = store.users.len();
    let mut i: usize = 0;
    while i < n
        invariant
            i <= n,
            n == store.users@.len(),
            forall|j: int| 0 <= j < i ==> lower_of(store.users@[j].username@) != lowered_username@,
        decreases n - i,
    {
        let u = &store.users[i];
        let low = lowercase(u.username.as_str());
        if low == *lowered_username {
            return true;
        }
        i += 1;
    }
    false
}

/// The decision registration comes to before anything is persisted.
pub enum RegisterDecision {
    UsernameTaken,
    CaptchaFailed,
    Proceed(String),
}

/// Decides whether a registration may proceed: the submitted username
/// is validated, lower-cased and checked for a collision, then the
/// captcha outcome is consulted; only then may the host create the row.
pub fn register_decision(store: &UserStore, username: &String, captcha_success: bool) -> (r:
    RegisterDecision)
    ensures
        ({
            let validated = validate_username_spec(username@);
            let taken = username_taken_spec(store.users@, lower_of(validated));
            match r {
                RegisterDecision::UsernameTaken => taken,
                RegisterDecision::CaptchaFailed => !taken && !captcha_success,
                RegisterDecision::Proceed(v) => !taken && captcha_success && v@ == validated,
            }
        }),
{
    let validated = validate_username(username);
    let lowered = lowercase(validated.as_str());
    if username_taken(store, &lowered) {
        RegisterDecision::UsernameTaken
    } else if !captcha_success {
        RegisterDecision::CaptchaFailed
    } else {
        RegisterDecision::Proceed(validated)
    }
}

/// The response shape a registration outcome maps to.
pub struct RegisterResponse {
    pub status: u16,
    pub success: bool,
    pub id: Option<i32>,
    pub errors: Option<String>,
}

/// Maps a registration decision, and the id the created row received,
/// to the response the caller is shown: a conflict for a taken name, an
/// unprocessable-entity failure for a failed captcha, success with the
/// new id otherwise.
pub fn register_response(decision: &RegisterDecision, new_user_id: i32) -> (r: RegisterResponse)
    ensures
        match decision {
            RegisterDecision::UsernameTaken => r.status == 409 && !r.success && r.id is None
                && (match r.errors {
                Some(m) => m@ == "Username already in use"@,
                None => false,
            }),
            RegisterDecision::CaptchaFailed => r.status == 422 && !r.success && r.id is None
                && (match r.errors {
                Some(m) => m@ == "Captcha verification failed"@,
                None => false,
            }),
            RegisterDecision::Proceed(_) => r.status == 200 && r.success && r.id == Some(
                new_user_id,
            ) && r.errors is None,
        },
{
    match decision {
        RegisterDecision::UsernameTaken => RegisterResponse {
            status: 409,
            success: false,
            id: None,
            errors: Some("Username already in use".to_owned()),
        },
        RegisterDecision::CaptchaFailed => RegisterResponse {
            status: 422,
            success: false,
            id: None,
            errors: Some("Captcha verification failed".to_owned()),
        },
        RegisterDecision::Proceed(_) => RegisterResponse {
            status: 200,
            success: true,
            id: Some(new_user_id),
            errors: None,
        },
    }
}

} // verus!
