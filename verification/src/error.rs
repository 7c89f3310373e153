//! The errors that the service's rules give, with their messages.

use vstd::prelude::*;

use crate::text::{decimal, push_decimal, push_str, string_from_chars};

verus! {

/// Why a request was refused.
#[derive(Clone, Copy, Debug, PartialEq, Eq, Structural)]
pub enum Error {
    WrongCredentialsError,
    JWTExpiredError,
    NoAuthHeaderError,
    InvalidAuthHeaderError,
    NoPermissionError,
    ParseError,
    /// An insert that did not store every row: rows stored, rows missing.
    InsertUnsuccessfulError(u64, u64),
    DuplicateAttendanceError,
}

/// The message that reports `e`.
pub open spec fn error_message(e: Error) -> Seq<char> {
    match e {
        Error::WrongCredentialsError => "wrong credentials"@,
        Error::JWTExpiredError => "jwt expired error"@,
        Error::NoAuthHeaderError => "no auth header"@,
        Error::InvalidAuthHeaderError => "invalid auth header"@,
        Error::NoPermissionError => "no permission"@,
        Error::ParseError => "parse error"@,
        Error::InsertUnsuccessfulError(stored, missing) => "db insert unsuccessful, succeeded: "@
            + decimal(stored as nat) + " failed: "@ + decimal(missing as nat),
        Error::DuplicateAttendanceError => "attendance already exists"@,
    }
}

impl Error {
    /// The message that reports this error.
    pub fn message(&self) -> (s: String)
        ensures
            s@ == error_message(*self),
    {
        let mut out: Vec<char> = Vec::new();
        match self {
            Error::WrongCredentialsError => push_str(&mut out, "wrong credentials"),
            Error::JWTExpiredError => push_str(&mut out, "jwt expired error"),
            Error::NoAuthHeaderError => push_str(&mut out, "no auth header"),
            Error::InvalidAuthHeaderError => push_str(&mut out, "invalid auth header"),
            Error::NoPermissionError => push_str(&mut out, "no permission"),
            Error::ParseError => push_str(&mut out, "parse error"),
            Error::InsertUnsuccessfulError(stored, missing) => {
                push_str(&mut out, "db insert unsuccessful, succeeded: ");
                push_decimal(&mut out, *stored);
                push_str(&mut out, " failed: ");
                push_decimal(&mut out, *missing);
            },
            Error::DuplicateAttendanceError => push_str(&mut out, "attendance already exists"),
        }
        string_from_chars(out.as_slice())
    }
}

} // verus!
