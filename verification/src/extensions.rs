//! Utility validators and the best-effort session identity resolver.

use vstd::prelude::*;
use crate::errors::NestedError;
use crate::errors::ParseError;
use crate::store::UserRecord;
use crate::store::UserStore;
use crate::store::lookup_by_identity;
use crate::store::lemma_sentinel_id_never_matches;
use crate::text::split_first;
use crate::text::split_once_char;
use crate::text::str_is;

verus! {

/// Parses `key=value` into a key/value pair; the split happens at the
/// first `=`, so the value may itself contain `=`.
pub open spec fn parse_key_value_spec(input: Seq<char>) -> Option<(Seq<char>, Seq<char>)> {
    let (key, rest) = split_first(input, '=');
    match rest {
        Some(value) => Some((key, value)),
        None => None,
    }
}

/// Parses "key=value" into a key value tuple; an input without `=`
/// fails with a parse error that echoes the input.
pub fn parse_key_value(input: &str) -> (r: Result<(String, String), ParseError>)
    ensures
        match (r, parse_key_value_spec(input@)) {
            (Ok(t), Some(st)) => t.0@ == st.0 && t.1@ == st.1,
            (Err(e), None) => e.expected@ == "key values"@ && e.input@ == input@,
            _ => false,
        },
{
    let (key, rest) = split_once_char(input, '=');
    match rest {
        Some(value) => Ok((key, value)),
        None => Err(ParseError { expected: "key values".to_owned(), input: input.to_owned() }),
    }
}

/// An ASCII letter, an ASCII digit, a dash or an underscore.
pub open spec fn is_identifier_char(c: char) -> bool {
    (97 <= c as u32 <= 122) || (65 <= c as u32 <= 90) || (48 <= c as u32 <= 57) || c == '-' || c
        == '_'
}

/// Checks if the character is alphanumeric (`a-z, A-Z, 0-9`), a dash
/// (`-`) or a underscore (`_`).
pub fn is_identifier(c: &char) -> (r: bool)
    ensures
        r == is_identifier_char(*c),
{
    let u = *c as u32;
    (u >= 97 && u <= 122) || (u >= 65 && u <= 90) || (u >= 48 && u <= 57) || *c == '-' || *c == '_'
}

/// An ASCII decimal digit.
pub open spec fn is_digit_char(c: char) -> bool {
    48 <= c as u32 <= 57
}

/// The reserved device-style names this core refuses, by exact-case
/// comparison only.
pub open spec fn is_reserved_name(s: Seq<char>) -> bool {
    ||| s == "CON"@
    ||| s == "PRN"@
    ||| s == "AUX"@
    ||| s == "NUL"@
    ||| s == "LST"@
    ||| (s.len() == 4 && s.subrange(0, 3) == "COM"@ && is_digit_char(s[3]))
    ||| (s.len() == 4 && s.subrange(0, 3) == "LPT"@ && is_digit_char(s[3]))
}

/// Checks for illegal file and directory names on Windows: the reserved
/// names `CON`, `PRN`, `AUX`, `NUL`, `LST` and `COM0`–`COM9`,
/// `LPT0`–`LPT9`.
///
/// The comparison is exact-case on purpose, so `con` passes as legal —
/// a known gap versus real platform semantics, kept as specified rather
/// than silently widened. The input is assumed to have been vetted with
/// [`is_identifier`] already.
pub fn is_fs_legal(input: &String) -> (r: bool)
    ensures
        r == !is_reserved_name(input@),
{
    proof {
        reveal_strlit("COM");
        reveal_strlit("LPT");
    }
    if str_is(input, "CON") || str_is(input, "PRN") || str_is(input, "AUX") || str_is(input, "NUL")
        || str_is(input, "LST") {
        return false;
    }
    let s = input.as_str();
    let len = s.unicode_len();
    if len == 4 {
        let c0 = s.get_char(0);
        let c1 = s.get_char(1);
        let c2 = s.get_char(2);
        let c3 = s.get_char(3);
        let d = c3 as u32;
        if d >= 48 && d <= 57 {
            if (c0 == 'C' && c1 == 'O' && c2 == 'M') || (c0 == 'L' && c1 == 'P' && c2 == 'T') {
                proof {
                    if c0 == 'C' {
                        assert(input@.subrange(0, 3) =~= "COM"@);
                    } else {
                        assert(input@.subrange(0, 3) =~= "LPT"@);
                    }
                }
                return false;
            }
        }
        proof {
            assert(input@.subrange(0, 3)[0] == input@[0]);
            assert(input@.subrange(0, 3)[1] == input@[1]);
            assert(input@.subrange(0, 3)[2] == input@[2]);
        }
    }
    true
}

/// The numeric value of a digit string, most significant digit first.
pub open spec fn digits_value(s: Seq<char>) -> int
    decreases s.len(),
{
    if s.len() == 0 {
        0
    } else {
        digits_value(s.subrange(0, s.len() - 1)) * 10 + (s[s.len() - 1] as u32 - 48)
    }
}

/// Whether every character is an ASCII decimal digit.
pub open spec fn all_digits(s: Seq<char>) -> bool {
    forall|i: int| 0 <= i < s.len() ==> is_digit_char(s[i])
}

proof fn lemma_digits_value_nonneg(s: Seq<char>)
    requires
        all_digits(s),
    ensures
        digits_value(s) >= 0,
    decreases s.len(),
{
    if s.len() > 0 {
        let p = s.subrange(0, s.len() - 1);
        assert(forall|i: int| 0 <= i < p.len() ==> p[i] == s[i]);
        lemma_digits_value_nonneg(p);
    }
}

/// A digit string is worth at least any of its prefixes.
proof fn lemma_digits_prefix_le(s: Seq<char>, k: int)
    requires
        all_digits(s),
        0 <= k <= s.len(),
    ensures
        digits_value(s.subrange(0, k)) <= digits_value(s),
    decreases s.len() - k,
{
    if k < s.len() {
        let pre = s.subrange(0, k);
        let pre1 = s.subrange(0, k + 1);
        assert(pre1.subrange(0, k) =~= pre);
        assert(forall|i: int| 0 <= i < pre.len() ==> pre[i] == s[i]);
        lemma_digits_value_nonneg(pre);
        assert(digits_value(pre1) == digits_value(pre) * 10 + (s[k] as u32 - 48));
        lemma_digits_prefix_le(s, k + 1);
    } else {
        assert(s.subrange(0, k) =~= s);
    }
}

/// The digit part of a decimal literal: everything after an optional
/// leading sign.
pub open spec fn sign_digits_of(s: Seq<char>) -> Seq<char> {
    if s.len() > 0 && (s[0] == '-' || s[0] == '+') {
        s.subrange(1, s.len() as int)
    } else {
        s
    }
}

/// What Rust's `i32` parsing accepts: an optional sign, then one or
/// more ASCII digits, with a value that fits the type.
pub open spec fn parse_i32_spec(s: Seq<char>) -> Option<i32> {
    let neg = s.len() > 0 && s[0] == '-';
    let digits = sign_digits_of(s);
    if digits.len() == 0 || !all_digits(digits) {
        None
    } else {
        let v = digits_value(digits);
        if neg {
            if v <= 0x8000_0000 {
                Some((-v) as i32)
            } else {
                None
            }
        } else {
            if v <= 0x7fff_ffff {
                Some(v as i32)
            } else {
                None
            }
        }
    }
}

/// Parses a decimal `i32` the way Rust's own parser does: an optional
/// `+` or `-`, then digits only; anything else, or a value out of
/// range, yields nothing.
pub fn parse_i32(s: &str) -> (r: Option<i32>)
    ensures
        r == parse_i32_spec(s@),
{
    let len = s.unicode_len();
    let mut start: usize = 0;
    let mut neg = false;
    if len > 0 {
        let c0 = s.get_char(0);
        if c0 == '-' {
            neg = true;
            start = 1;
        } else if c0 == '+' {
            start = 1;
        }
    }
    if start >= len {
        proof {
            if start == 0 {
                assert(sign_digits_of(s@) =~= s@);
            } else {
                assert(sign_digits_of(s@) =~= s@.subrange(1, s@.len() as int));
            }
        }
        return None;
    }
    let ghost digits = s@.subrange(start as int, len as int);
    proof {
        if start == 0 {
            assert(s@.subrange(0, s@.len() as int) =~= s@);
        }
        assert(digits == sign_digits_of(s@));
    }
    let mut acc: u64 = 0;
    let mut i: usize = start;
    while i < len
        invariant
            start <= i <= len,
            len == s@.len(),
            digits == s@.subrange(start as int, len as int),
            digits == sign_digits_of(s@),
            neg == (s@.len() > 0 && s@[0] == '-'),
            all_digits(digits.subrange(0, i - start)),
            acc == digits_value(digits.subrange(0, i - start)),
            acc <= 0x8000_0000,
        decreases len - i,
    {
        let c = s.get_char(i);
        let u = c as u32;
        let ghost j = i - start;
        proof {
            assert(digits[j] == s@[i as int]);
        }
        if u < 48 || u > 57 {
            proof {
                assert(!is_digit_char(digits[j]));
                assert(!all_digits(digits));
            }
            return None;
        }
        let d = (u - 48) as u64;
        proof {
            let pre = digits.subrange(0, j);
            let pre1 = digits.subrange(0, j + 1);
            assert(pre1.subrange(0, j) =~= pre);
            assert(pre1[j] == digits[j]);
            assert(digits_value(pre1) == digits_value(pre) * 10 + (digits[j] as u32 - 48));
            assert(forall|x: int| 0 <= x < j + 1 ==> pre1[x] == digits[x]);
        }
        let acc2 = acc * 10 + d;
        if acc2 > 0x8000_0000 {
            proof {
                if all_digits(digits) {
                    lemma_digits_prefix_le(digits, j + 1);
                }
            }
            return None;
        }
        acc = acc2;
        i += 1;
    }
    proof {
        assert(digits.subrange(0, (i - start) as int) =~= digits);
    }
    if neg {
        let signed: i64 = -(acc as i64);
        Some(signed as i32)
    } else {
        if acc > 0x7fff_ffff {
            return None;
        }
        Some(acc as i32)
    }
}

/// What the identity resolver yields for an optional `id$session`
/// token: the id segment degrades to the sentinel `-1` and the session
/// segment to `unknown` when missing or unparsable, and the lookup then
/// simply misses.
pub open spec fn resolve_identity_spec(token: Option<Seq<char>>, users: Seq<UserRecord>) -> Option<
    UserRecord,
> {
    match token {
        None => None,
        Some(t) => {
            let (id_part, rest) = split_first(t, '$');
            let id = match parse_i32_spec(id_part) {
                Some(v) => v,
                None => -1i32,
            };
            let session = match rest {
                Some(r) => r,
                None => "unknown"@,
            };
            lookup_by_identity(users, id, session)
        },
    }
}

/// Resolves a session identity token of the shape `id$session` to a
/// user, best-effort: malformed segments are replaced by sentinel
/// values rather than reported, and the lookup then returns nothing.
/// This function never fails, for any input string.
pub fn get_user_by_identity(identity: Option<&str>, store: &UserStore) -> (r: Option<UserRecord>)
    ensures
        match (r, resolve_identity_spec(
            match identity {
                Some(t) => Some(t@),
                None => None,
            },
            store.users@,
        )) {
            (Some(u), Some(su)) => u == su,
            (None, None) => true,
            _ => false,
        },
{
    match identity {
        Some(id_str) => {
            let (id_part, rest) = split_once_char(id_str, '$');
            let id: i32 = match parse_i32(id_part.as_str()) {
                Some(v) => v,
                None => -1,
            };
            let session: String = match rest {
                Some(r) => r,
                None => "unknown".to_owned(),
            };
            store.find_by_identity(id, &session)
        },
        None => None,
    }
}

/// A token whose id segment does not parse degrades to the sentinel id
/// `-1`, which matches no row of a well-formed store: malformed input
/// resolves to no identity rather than to an error.
pub proof fn lemma_malformed_token_resolves_to_none(t: Seq<char>, users: Seq<UserRecord>)
    requires
        forall|i: int| 0 <= i < users.len() ==> users[i].id >= 0,
        parse_i32_spec(split_first(t, '$').0) is None,
    ensures
        resolve_identity_spec(Some(t), users) is None,
{
    let (id_part, rest) = split_first(t, '$');
    match rest {
        Some(r) => lemma_sentinel_id_never_matches(users, r),
        None => lemma_sentinel_id_never_matches(users, "unknown"@),
    }
}

/// Flattens a nested result whose layers fail with the same error type
/// into a single result.
pub fn flatten_result<O, E>(result: Result<Result<O, E>, E>) -> (r: Result<O, E>)
    ensures
        match result {
            Ok(Ok(o)) => r == Ok::<O, E>(o),
            Ok(Err(e)) => r == Err::<O, E>(e),
            Err(e) => r == Err::<O, E>(e),
        },
{
    match result {
        Ok(Ok(ok)) => Ok(ok),
        Ok(Err(err)) => Err(err),
        Err(err) => Err(err),
    }
}

/// Flattens a result nested under an I/O-style outer result into a
/// single result whose error says which layer failed.
pub fn flatten_io_result<O, A, B>(result: Result<Result<O, B>, A>) -> (r: Result<
    O,
    NestedError<A, B>,
>)
    ensures
        match result {
            Ok(Ok(o)) => r == Ok::<O, NestedError<A, B>>(o),
            Ok(Err(e)) => r == Err::<O, NestedError<A, B>>(NestedError::Inner(e)),
            Err(e) => r == Err::<O, NestedError<A, B>>(NestedError::Outer(e)),
        },
{
    match result {
        Ok(Ok(ok)) => Ok(ok),
        Ok(Err(err)) => Err(NestedError::Inner(err)),
        Err(err) => Err(NestedError::Outer(err)),
    }
}

} // verus!
