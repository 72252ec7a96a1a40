//! Error and outcome carriers shared by the gateway.

use vstd::prelude::*;

verus! {

/// A value of one of two kinds: a success, or a response that stands
/// in its place.
pub enum Either<A, B> {
    A(A),
    B(B),
}

/// A denial reported by the gateway: an HTTP status and an optional,
/// deliberately generic message.
#[derive(Debug)]
pub struct GitError {
    pub status: u16,
    pub message: Option<String>,
}

/// Mathematical image of a [`GitError`]: the message as a character
/// sequence rather than an owned string.
pub struct GitErrorView {
    pub status: u16,
    pub message: Option<Seq<char>>,
}

impl View for GitError {
    type V = GitErrorView;

    open spec fn view(&self) -> GitErrorView {
        GitErrorView {
            status: self.status,
            message: match self.message {
                Some(m) => Some(m@),
                None => None,
            },
        }
    }
}

/// The one wording used for every credential failure that carries a
/// message at all, so that no failure mode can be told from another.
pub open spec fn incorrect_credentials_msg() -> Seq<char> {
    "Incorrect username or password"@
}

/// Failure of a local, non-security-sensitive parse, carrying what was
/// expected and the offending input.
#[derive(Debug)]
pub struct ParseError {
    pub expected: String,
    pub input: String,
}

/// An error from one of two nested layers, kept apart by layer.
#[derive(Debug)]
pub enum NestedError<A, B> {
    Outer(A),
    Inner(B),
}

} // verus!
