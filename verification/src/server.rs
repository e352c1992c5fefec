//! The decisions of one player's connection: whether it may join, what
//! each thing that it reads leads to, and how it is seen off.
//!
//! Reading and writing are the transport's work. It reports what it read
//! and how its writes went, and is told what to do next.

use vstd::prelude::*;
use vstd::string::*;
use crate::error::GameError;
use crate::game::{Game, GameView, Pending, Step};
use crate::json::{literal, quoted};
use crate::locale::Locale;
use crate::request::{request_in, Request};

verus! {

/// The error frame that tells a client `message`: a JSON object with the
/// one member `error`, where the message has a literal.
pub open spec fn error_frame(message: Seq<char>) -> Option<Seq<char>> {
    match quoted(message) {
        Some(text) => Some("{\"error\":"@ + text + "}"@),
        None => None,
    }
}

/// The last frame of a connection that is closed for an error.
#[derive(Debug)]
pub struct ErrorResponse {
    error: String,
}

impl View for ErrorResponse {
    type V = Seq<char>;

    closed spec fn view(&self) -> Seq<char> {
        self.error@
    }
}

impl ErrorResponse {
    /// The response that tells a client of `error`.
    pub fn new(error: &GameError) -> (response: ErrorResponse)
        ensures
            response@ == error.spec_message(),
    {
        ErrorResponse { error: error.message() }
    }

    /// The error frame of this response.
    pub fn to_json(&self) -> (json: Result<String, GameError>)
        ensures
            json is Ok <==> error_frame(self@) is Some,
            json matches Ok(frame) ==> error_frame(self@) == Some(frame@),
            json matches Err(error) ==> error is Encode,
    {
        let text = literal(self.error.as_str())?;
        let mut frame = "{\"error\":".to_owned();
        frame.append(text.as_str());
        frame.append("}");
        Ok(frame)
    }
}

/// One message that a connection delivered, as far as the game looks at it.
#[derive(Debug)]
pub enum Message {
    /// The client closes the connection.
    Close,
    /// A text frame.
    Text(String),
    /// Anything else: binary data, a ping, a pong.
    Other,
}

/// What one read of a connection gave.
#[derive(Debug)]
pub enum Inbound {
    /// A message.
    Message(Message),
    /// The stream of messages has ended.
    End,
    /// The read failed; holds what the transport reported.
    Failed(String),
}

/// What a connection does next.
#[derive(Debug)]
pub enum Turn {
    /// Read from the connection and report what came.
    Read,
    /// Write `frame` to the connection that is attached for `to`, then
    /// report how that went, together with `pending`.
    Send { to: Locale, frame: String, pending: Pending },
    /// Stop; the connection ends with this result.
    Stop(Result<(), GameError>),
}

impl Turn {
    /// The turn that `step` of a request asks for: a push is made, a
    /// request that has failed ends the connection with its error, and
    /// after one that has succeeded the connection reads on.
    pub open spec fn after(step: Step) -> Turn {
        match step {
            Step::Send { to, frame, pending } => Turn::Send { to, frame, pending },
            Step::Finished(Ok(_)) => Turn::Read,
            Step::Finished(Err(error)) => Turn::Stop(Err(error)),
        }
    }

    /// The step of a request that this turn stands for, if it stands for
    /// one.
    pub open spec fn step(self) -> Option<Step> {
        match self {
            Turn::Send { to, frame, pending } => Some(Step::Send { to, frame, pending }),
            Turn::Read => Some(Step::Finished(Ok(()))),
            Turn::Stop(Err(error)) => Some(Step::Finished(Err(error))),
            Turn::Stop(Ok(_)) => None,
        }
    }

    fn following(step: Step) -> (turn: Turn)
        ensures
            turn == Turn::after(step),
            turn.step() == Some(step),
    {
        match step {
            Step::Send { to, frame, pending } => Turn::Send { to, frame, pending },
            Step::Finished(result) => match result {
                Ok(done) => {
                    assert(done == ());
                    Turn::Read
                },
                Err(error) => Turn::Stop(Err(error)),
            },
        }
    }
}

/// How a connection is seen off.
#[derive(Debug)]
pub enum Farewell<K> {
    /// Nothing was attached for the side any more: a later connection has
    /// taken its place, and there is nothing to write to.
    Gone,
    /// The connection ends without a word; here is its writing half.
    Quiet(K),
    /// The connection ends for an error: write this error frame to its
    /// writing half, without regard to how that goes.
    Notify(K, String),
}

/// Whether `farewell` sees off the writing half `participant` after the
/// connection has ended with `error`: with the error frame for the error's
/// message, or without a word where that message has no literal.
pub open spec fn sees_off<K>(participant: K, error: GameError, farewell: Farewell<K>) -> bool {
    match error_frame(error.spec_message()) {
        Some(text) => farewell matches Farewell::Notify(half, frame) && half == participant
            && frame@ == text,
        None => farewell == Farewell::Quiet(participant),
    }
}

fn see_off<K>(participant: K, error: &GameError) -> (farewell: Farewell<K>)
    ensures
        sees_off(participant, *error, farewell),
{
    match ErrorResponse::new(error).to_json() {
        Ok(frame) => Farewell::Notify(participant, frame),
        Err(_) => Farewell::Quiet(participant),
    }
}

/// Lets the writing half `participant` of a new connection join as `side`,
/// given in `pushed` how the push of the current state frame to it went.
/// After a delivered push it is attached, in the place of whatever was
/// attached for `side` before. After a failed one the game is left as it
/// was and the connection is seen off with the error.
pub fn connect<K>(
    game: &mut Game<K>,
    side: Locale,
    participant: K,
    pushed: Result<(), GameError>,
) -> (joined: Result<(), Farewell<K>>)
    ensures
        match pushed {
            Ok(_) => joined is Ok && final(game)@ == old(game)@.with_participant(
                side,
                Some(participant),
            ),
            Err(error) => {
                &&& final(game)@ == old(game)@
                &&& joined matches Err(farewell)
                &&& sees_off(participant, error, farewell)
            },
        },
{
    match game.set_participant(side, participant, pushed) {
        Ok(_) => Ok(()),
        Err((error, participant)) => Err(see_off(participant, &error)),
    }
}

/// Whether `turn` answers what `side` read in `inbound`, leading from the
/// game `before` to `after`.
///
/// A failed read stops the connection with that failure; the end of the
/// stream and a close message stop it without one. A message that is no
/// text, or an empty text, is passed over. Any other text must state a
/// request: if it does not, the connection stops with an error that holds
/// the text; if it does, the request is served and its first step is
/// taken. Only a request that is served changes the game.
pub open spec fn answers<K>(
    before: GameView<K>,
    side: Locale,
    inbound: Inbound,
    after: GameView<K>,
    turn: Turn,
) -> bool {
    match inbound {
        Inbound::Failed(report) => after == before && turn == Turn::Stop(
            Err(GameError::Transport(report)),
        ),
        Inbound::End => after == before && turn == Turn::Stop(Ok(())),
        Inbound::Message(Message::Close) => after == before && turn == Turn::Stop(Ok(())),
        Inbound::Message(Message::Other) => after == before && turn == Turn::Read,
        Inbound::Message(Message::Text(text)) => if text@.len() == 0 {
            after == before && turn == Turn::Read
        } else {
            match request_in(text@) {
                Some(request) => {
                    &&& turn.step() matches Some(step)
                    &&& before.serves(side, request, after, step)
                },
                None => {
                    &&& after == before
                    &&& turn matches Turn::Stop(Err(GameError::Decode(frame)))
                    &&& frame@ == text@
                },
            }
        },
    }
}

/// Decides what follows one read of the connection of `side`.
pub fn receive<K>(game: &mut Game<K>, side: Locale, inbound: Inbound) -> (turn: Turn)
    ensures
        answers(old(game)@, side, inbound, final(game)@, turn),
{
    match inbound {
        Inbound::Failed(report) => Turn::Stop(Err(GameError::Transport(report))),
        Inbound::End => Turn::Stop(Ok(())),
        Inbound::Message(message) => match message {
            Message::Close => Turn::Stop(Ok(())),
            Message::Other => Turn::Read,
            Message::Text(text) => {
                if text.as_str().is_empty() {
                    Turn::Read
                } else {
                    match Request::decode(text.as_str()) {
                        Ok(request) => Turn::following(game.serve(side, request)),
                        Err(error) => Turn::Stop(Err(error)),
                    }
                }
            },
        },
    }
}

/// Decides what follows the push `pending`, given in `outcome` how it
/// went: the next push of the request, the next read once the request has
/// succeeded, or the end of the connection with the error of a request that
/// has failed.
pub fn sent<K>(game: &Game<K>, pending: Pending, outcome: Result<(), GameError>) -> (turn: Turn)
    ensures
        turn.step() matches Some(step) && game@.is_next_step(pending, outcome, step),
{
    Turn::following(game.pushed(pending, outcome))
}

/// Whether `farewell` sees off the connection of `side` that has ended
/// with `result`, leading from the game `before` to `after`.
///
/// Where nothing is attached for `side`, nothing is done. Else what is
/// attached is detached and handed out: without a word after a connection
/// that ended well, with an error frame after one that did not.
pub open spec fn parts<K>(
    before: GameView<K>,
    side: Locale,
    result: Result<(), GameError>,
    after: GameView<K>,
    farewell: Farewell<K>,
) -> bool {
    match before.participant(side) {
        None => after == before && farewell == Farewell::<K>::Gone,
        Some(participant) => {
            &&& after == before.with_participant(side, None)
            &&& match result {
                Ok(_) => farewell == Farewell::Quiet(participant),
                Err(error) => sees_off(participant, error, farewell),
            }
        },
    }
}

/// Sees off the connection of `side` once its reading has stopped with
/// `result`.
pub fn disconnect<K>(game: &mut Game<K>, side: Locale, result: Result<(), GameError>) -> (farewell:
    Farewell<K>)
    ensures
        parts(old(game)@, side, result, final(game)@, farewell),
{
    match game.take_participant(side) {
        None => Farewell::Gone,
        Some(participant) => match result {
            Ok(_) => Farewell::Quiet(participant),
            Err(error) => see_off(participant, &error),
        },
    }
}

/// A text frame that states no request ends the connection that sent it
/// and touches nothing else: the round and the peer's connection are as
/// before, and the sender, if it is still attached, is seen off with an
/// error about that frame.
pub proof fn lemma_unreadable_frame_spares_peer<K>(
    before: GameView<K>,
    side: Locale,
    text: String,
    after: GameView<K>,
    turn: Turn,
    last: GameView<K>,
    farewell: Farewell<K>,
)
    requires
        text@.len() > 0,
        request_in(text@) is None,
        answers(before, side, Inbound::Message(Message::Text(text)), after, turn),
        turn matches Turn::Stop(result) ==> parts(after, side, result, last, farewell),
    ensures
        after == before,
        turn matches Turn::Stop(Err(GameError::Decode(frame))) && frame@ == text@,
        last.round == before.round,
        last.participant(side.other()) == before.participant(side.other()),
        last.participant(side) is None,
        before.participant(side) matches Some(participant) ==> turn matches Turn::Stop(
            Err(error),
        ) && sees_off(participant, error, farewell),
{
}

} // verus!
