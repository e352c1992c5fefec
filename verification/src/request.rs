//! What a player may ask of the game, and how a text frame says it.

use vstd::prelude::*;
use vstd::string::*;
use crate::error::GameError;
use crate::json::{
    number_members, number_object, parse_number_object, parse_text_object, text_members,
    text_object,
};

verus! {

/// What a player may do besides scoring.
#[derive(Clone, Copy, Debug, PartialEq, Eq, Structural)]
pub enum Action {
    /// Ask for the next round.
    AdvanceRound,
}

/// One request of a player.
#[derive(Clone, Copy, Debug, PartialEq, Eq, Structural)]
pub enum Request {
    /// Give the peer's answer this score.
    Score { score: u8 },
    /// Do this.
    Action { action: Action },
}

/// The request that a JSON object states, given its members as numbers where
/// all its values are small numbers, and as strings where all are strings:
/// a score for the one member `score`, the request for the next round for
/// the one member `action` with the value `advance-round`, and none for
/// any other object.
pub open spec fn request_of(
    numbers: Option<Seq<(Seq<char>, u8)>>,
    texts: Option<Seq<(Seq<char>, Seq<char>)>>,
) -> Option<Request> {
    if numbers is Some && numbers->0.len() == 1 && numbers->0[0].0 == "score"@ {
        Some(Request::Score { score: numbers->0[0].1 })
    } else if texts is Some && texts->0.len() == 1 && texts->0[0].0 == "action"@ && texts->0[0].1
        == "advance-round"@ {
        Some(Request::Action { action: Action::AdvanceRound })
    } else {
        None
    }
}

/// The request that the frame `text` states, if it states one.
pub open spec fn request_in(text: Seq<char>) -> Option<Request> {
    request_of(number_object(text), text_object(text))
}

/// Whether `text` reads `word`.
fn reads(text: &String, word: &str) -> (same: bool)
    ensures
        same == (text@ == word@),
{
    let owned = word.to_owned();
    *text == owned
}

impl Request {
    /// The request that a JSON object states, given what reading it as an
    /// object of small numbers and as an object of strings gave.
    pub fn from_members(
        numbers: Option<Vec<(String, u8)>>,
        texts: Option<Vec<(String, String)>>,
    ) -> (request: Option<Request>)
        ensures
            request == request_of(
                match numbers {
                    Some(members) => Some(number_members(members@)),
                    None => None,
                },
                match texts {
                    Some(members) => Some(text_members(members@)),
                    None => None,
                },
            ),
    {
        if let Some(members) = &numbers {
            if members.len() == 1 && reads(&members[0].0, "score") {
                return Some(Request::Score { score: members[0].1 });
            }
        }
        if let Some(members) = &texts {
            if members.len() == 1 && reads(&members[0].0, "action") && reads(
                &members[0].1,
                "advance-round",
            ) {
                return Some(Request::Action { action: Action::AdvanceRound });
            }
        }
        None
    }

    /// Reads a request from an inbound text frame. A frame that states none
    /// is refused, and the error holds the frame.
    pub fn decode(text: &str) -> (request: Result<Request, GameError>)
        ensures
            match request_in(text@) {
                Some(stated) => request == Ok::<Request, GameError>(stated),
                None => request matches Err(GameError::Decode(frame)) && frame@ == text@,
            },
    {
        let numbers = match parse_number_object(text) {
            Ok(members) => Some(members),
            Err(_) => None,
        };
        let texts = match parse_text_object(text) {
            Ok(members) => Some(members),
            Err(_) => None,
        };
        match Request::from_members(numbers, texts) {
            Some(stated) => Ok(stated),
            None => Err(GameError::Decode(text.to_owned())),
        }
    }
}

} // verus!
