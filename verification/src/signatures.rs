//! Commit-signature attribution and commit-time conversion.
//!
//! A commit's author signature is mapped to a platform account by
//! email, case-insensitively; a commit's timestamp and offset are
//! validated into a fixed-offset date-time model.

use vstd::prelude::*;
use crate::outside::chrono_accepts_timestamp;
use crate::outside::chrono_timestamp_in_range;
use crate::outside::lower_of;
use crate::outside::lowercase;
use crate::store::UserRecord;
use crate::store::UserStore;
use crate::store::lookup_by_email_ci;

verus! {

/// A commit-author signature, reduced to what attribution reads: the
/// display name and the email, each absent when not decodable as text.
pub struct SignatureInfo {
    pub name: Option<String>,
    pub email: Option<String>,
}

/// What signature attribution yields: the registered username and id
/// when the email matches an account case-insensitively, else the
/// signature's own name — or the fixed `Ghost` placeholder when even
/// that is missing — and no id.
pub open spec fn disassemble_spec(
    name: Option<Seq<char>>,
    email: Option<Seq<char>>,
    users: Seq<UserRecord>,
) -> (Seq<char>, Option<i32>) {
    let found = match email {
        Some(e) => lookup_by_email_ci(users, lower_of(e)),
        None => None,
    };
    match found {
        Some(u) => (u.username@, Some(u.id)),
        None => (
            match name {
                Some(n) => n,
                None => "Ghost"@,
            },
            None,
        ),
    }
}

/// Tries to disassemble a signature as `(display name, user id)`: the
/// email, when present, is looked up case-insensitively against the
/// registered accounts; a match hands back that account's username and
/// id, a miss the signature's own name and no id.
pub fn try_disassemble(sig: &SignatureInfo, store: &UserStore) -> (r: (String, Option<i32>))
    ensures
        ({
            let s = disassemble_spec(
                match sig.name {
                    Some(n) => Some(n@),
                    None => None,
                },
                match sig.email {
                    Some(e) => Some(e@),
                    None => None,
                },
                store.users@,
            );
            r.0@ == s.0 && r.1 == s.1
        }),
{
    let found = match &sig.email {
        Some(email) => {
            let lowered = lowercase(email.as_str());
            store.find_by_email_ci(&lowered)
        },
        None => None,
    };
    match found {
        Some(u) => (u.username, Some(u.id)),
        None => match &sig.name {
            Some(n) => (n.clone(), None),
            None => ("Ghost".to_owned(), None),
        },
    }
}

/// The sign of a commit-time offset; an offset can only ever be
/// positive or negative.
#[derive(Clone, Copy, PartialEq, Eq, Structural, Debug)]
pub enum OffsetSign {
    Plus,
    Minus,
}

/// A raw commit time: seconds since the Unix epoch, a timezone offset
/// in minutes, and the offset's sign.
pub struct CommitTime {
    pub seconds: i64,
    pub offset_minutes: i32,
    pub sign: OffsetSign,
}

/// A validated instant with a fixed timezone offset, held as plain
/// values.
#[derive(Clone, Copy, PartialEq, Eq, Structural, Debug)]
pub struct OffsetDateTime {
    pub unix_seconds: i64,
    pub offset_seconds: i32,
}

/// Why a commit time could not be converted.
#[derive(Clone, Copy, PartialEq, Eq, Structural, Debug)]
pub enum TimeError {
    OffsetOutOfBounds,
    TimestampOutOfRange,
}

/// A timezone offset is representable when its magnitude stays under a
/// full day, i.e. under 1440 minutes.
pub open spec fn offset_in_bounds(t: CommitTime) -> bool {
    -1440 < (t.offset_minutes as int) < 1440
}

/// The offset in signed seconds: the magnitude of the minutes, scaled,
/// with the signature's own sign applied.
pub open spec fn signed_offset_seconds(t: CommitTime) -> int {
    let abs_m = if t.offset_minutes < 0 {
        -(t.offset_minutes as int)
    } else {
        t.offset_minutes as int
    };
    match t.sign {
        OffsetSign::Plus => abs_m * 60,
        OffsetSign::Minus => -(abs_m * 60),
    }
}

/// Converts a raw commit time into a fixed-offset instant: an offset of
/// a day or more is rejected, and so is a number of seconds the
/// date-time library cannot represent.
pub fn try_as_chrono(t: &CommitTime) -> (r: Result<OffsetDateTime, TimeError>)
    ensures
        match r {
            Ok(dt) => offset_in_bounds(*t) && chrono_timestamp_in_range(t.seconds as int)
                && dt.unix_seconds == t.seconds && dt.offset_seconds as int
                == signed_offset_seconds(*t),
            Err(e) => match e {
                TimeError::OffsetOutOfBounds => !offset_in_bounds(*t),
                TimeError::TimestampOutOfRange => offset_in_bounds(*t)
                    && !chrono_timestamp_in_range(t.seconds as int),
            },
        },
{
    let m = t.offset_minutes;
    let abs_m: i64 = if m < 0 {
        -(m as i64)
    } else {
        m as i64
    };
    if abs_m >= 1440 {
        return Err(TimeError::OffsetOutOfBounds);
    }
    let abs_s: i32 = (abs_m as i32) * 60;
    let signed: i32 = match t.sign {
        OffsetSign::Plus => abs_s,
        OffsetSign::Minus => -abs_s,
    };
    if chrono_accepts_timestamp(signed, t.seconds) {
        Ok(OffsetDateTime { unix_seconds: t.seconds, offset_seconds: signed })
    } else {
        Err(TimeError::TimestampOutOfRange)
    }
}

/// The platform's default commit signature, stamped with the given
/// current time.
pub struct DefaultSignature {
    pub name: String,
    pub email: String,
    pub seconds_since_unix_epoch: u32,
    pub offset_in_seconds: i32,
    pub sign: OffsetSign,
}

/// Returns the default signature for GitArena: the fixed platform name
/// and address, the given time, and a zero offset signed positive.
pub fn gitarena_default(now_unix_seconds: u32) -> (r: DefaultSignature)
    ensures
        r.name@ == "GitArena"@,
        r.email@ == "git@gitarena.com"@,
        r.seconds_since_unix_epoch == now_unix_seconds,
        r.offset_in_seconds == 0,
        r.sign == OffsetSign::Plus,
{
    DefaultSignature {
        name: "GitArena".to_owned(),
        email: "git@gitarena.com".to_owned(),
        seconds_since_unix_epoch: now_unix_seconds,
        offset_in_seconds: 0,
        sign: OffsetSign::Plus,
    }
}

} // verus!
