//! What can end a request or a connection.

use vstd::prelude::*;
use vstd::string::*;

verus! {

/// Why a request or a connection was ended.
#[derive(Debug, PartialEq, Eq)]
pub enum GameError {
    /// The route names no locale of the game; holds the name that was given.
    UnsupportedLocale(String),
    /// A frame could not be put into JSON; holds what the encoder reported.
    Encode(String),
    /// An inbound text frame is no request; holds the frame.
    Decode(String),
    /// The connection failed on a read or a write; holds what it reported.
    Transport(String),
}

impl GameError {
    /// The text of this error as a client is told it.
    pub open spec fn spec_message(self) -> Seq<char> {
        match self {
            GameError::UnsupportedLocale(name) => "unsupported locale: "@ + name@,
            GameError::Encode(report) => report@,
            GameError::Decode(frame) => frame@,
            GameError::Transport(report) => report@,
        }
    }

    /// The text of this error as a client is told it: the name behind a
    /// fixed prefix for an unknown locale, the offending frame for a request
    /// that could not be read, else the report as it came.
    pub fn message(&self) -> (text: String)
        ensures
            text@ == self.spec_message(),
    {
        match self {
            GameError::UnsupportedLocale(name) => {
                let mut text = "unsupported locale: ".to_owned();
                text.append(name.as_str());
                text
            },
            GameError::Encode(report) => report.clone(),
            GameError::Decode(frame) => frame.clone(),
            GameError::Transport(report) => report.clone(),
        }
    }
}

} // verus!
