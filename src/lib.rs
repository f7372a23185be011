//! A client library for the Wilma school portal: the login handshake as a state
//! machine, and the decoders that read profile, schedule and exam data from its
//! pages.
use vstd::prelude::*;

pub mod client;
pub mod parser;
pub mod text;
pub mod utils;
pub mod wilma;

pub use client::Credentials;


verus! {

/// What can go wrong while logging in or reading a page.
#[derive(Clone, Copy, Debug, PartialEq, Eq, Structural)]
pub enum Error {
    /// The login answer carried no session cookie.
    InvalidCredentials,
    /// The transport failed: connection, timeout or TLS.
    Network,
    /// A JSON answer did not have the expected shape.
    MalformedResponse,
    /// No line of the page holds the marker.
    LineNotFound,
    /// The line is too long to be parsed as a fragment.
    FragmentTooLong,
    /// The line holds no element with the tag, or the element lacks the attribute or text.
    FieldNotFound,
    /// A time of day is neither a minute count nor `H:MM`.
    InvalidTime,
    /// A weekday number outside 1 to 5.
    InvalidWeekday,
    /// A formkey with fewer than three parts.
    MalformedFormkey,
    /// A formkey whose user id is not a non-negative integer.
    InvalidUserId,
}

/// The sentence that describes `e`.
pub open spec fn error_message(e: Error) -> Seq<char> {
    match e {
        Error::InvalidCredentials => "Invalid credentials were provided."@,
        Error::Network => "The server could not be reached."@,
        Error::MalformedResponse => "The server's answer did not have the expected shape."@,
        Error::LineNotFound => "The page holds no line with the expected marker."@,
        Error::FragmentTooLong => "A line of the page is too long to be parsed."@,
        Error::FieldNotFound => "The page lacks the expected element, attribute or text."@,
        Error::InvalidTime => "A time of day could not be read."@,
        Error::InvalidWeekday => "A weekday number outside 1-5 was given."@,
        Error::MalformedFormkey => "A formkey must have three colon-separated parts."@,
        Error::InvalidUserId => "The user id of a formkey is not a number."@,
    }
}

impl Error {
    /// A sentence that describes the error.
    pub fn message(&self) -> (r: &'static str)
        ensures
            r@ == error_message(*self),
    {
        match self {
            Error::InvalidCredentials => "Invalid credentials were provided.",
            Error::Network => "The server could not be reached.",
            Error::MalformedResponse => "The server's answer did not have the expected shape.",
            Error::LineNotFound => "The page holds no line with the expected marker.",
            Error::FragmentTooLong => "A line of the page is too long to be parsed.",
            Error::FieldNotFound => "The page lacks the expected element, attribute or text.",
            Error::InvalidTime => "A time of day could not be read.",
            Error::InvalidWeekday => "A weekday number outside 1-5 was given.",
            Error::MalformedFormkey => "A formkey must have three colon-separated parts.",
            Error::InvalidUserId => "The user id of a formkey is not a number.",
        }
    }
}

} // verus!
