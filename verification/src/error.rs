//! The error every fallible operation of the client reports.
use vstd::prelude::*;

use crate::text::text;

verus! {

/// Why an operation failed. The variants that carry a `String` carry the
/// rendered message of the underlying failure.
#[derive(Debug)]
pub enum DesktopError {
    CliNotFound,
    Io(String),
    Json(String),
    Keyring(String),
    Path(String),
    Message(String),
}

/// `r` is an error with exactly the message `m`.
pub open spec fn fails_with<T>(r: Result<T, DesktopError>, m: Seq<char>) -> bool {
    match r {
        Err(DesktopError::Message(s)) => s@ == m,
        _ => false,
    }
}

/// The text the error displays as.
pub open spec fn error_text(e: DesktopError) -> Seq<char> {
    match e {
        DesktopError::CliNotFound => "mountos CLI not found in PATH"@,
        DesktopError::Io(s) => "io error: "@ + s@,
        DesktopError::Json(s) => "json error: "@ + s@,
        DesktopError::Keyring(s) => "keychain error: "@ + s@,
        DesktopError::Path(s) => "tauri path error: "@ + s@,
        DesktopError::Message(s) => s@,
    }
}

impl DesktopError {
    /// The text the error displays as.
    pub fn message(&self) -> (r: String)
        ensures
            r@ == error_text(*self),
    {
        match self {
            DesktopError::CliNotFound => text("mountos CLI not found in PATH"),
            DesktopError::Io(s) => {
                let mut r = text("io error: ");
                r.append(s.as_str());
                r
            },
            DesktopError::Json(s) => {
                let mut r = text("json error: ");
                r.append(s.as_str());
                r
            },
            DesktopError::Keyring(s) => {
                let mut r = text("keychain error: ");
                r.append(s.as_str());
                r
            },
            DesktopError::Path(s) => {
                let mut r = text("tauri path error: ");
                r.append(s.as_str());
                r
            },
            DesktopError::Message(s) => s.clone(),
        }
    }

    pub open spec fn is_cli_not_found(self) -> bool {
        self is CliNotFound
    }
}

/// An error carrying the message `m`.
pub fn fail(m: &str) -> (e: DesktopError)
    ensures
        e matches DesktopError::Message(s) && s@ == m@,
{
    DesktopError::Message(text(m))
}

/// An error carrying the message `head` followed by `tail`.
pub fn fail2(head: &str, tail: &str) -> (e: DesktopError)
    ensures
        e matches DesktopError::Message(s) && s@ == head@ + tail@,
{
    let mut s = text(head);
    s.append(tail);
    DesktopError::Message(s)
}

/// An error carrying the message `a`, `b`, `c` in turn.
pub fn fail3(a: &str, b: &str, c: &str) -> (e: DesktopError)
    ensures
        e matches DesktopError::Message(s) && s@ == a@ + b@ + c@,
{
    let mut s = text(a);
    s.append(b);
    s.append(c);
    DesktopError::Message(s)
}

} // verus!
