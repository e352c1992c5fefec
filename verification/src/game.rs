//! The game of one pair of players: the round, a place for the connection
//! of each side, and the order in which state frames go out after a request.
//!
//! The game never writes to a connection itself. It says which frame is due
//! to which side, is told how the write went, and says what follows.

use vstd::prelude::*;
use crate::error::GameError;
use crate::round::RoundView;
use crate::vocab::{Vocab, WordEntry};

pub use crate::card::{Card, CardSide, VocabWord};
pub use crate::locale::Locale;
pub use crate::request::{Action, Request};
pub use crate::round::{ClientState, Round};

verus! {

/// The state that both players share: the round that is being played.
#[derive(Debug)]
pub struct GameState {
    round: Round,
}

impl View for GameState {
    type V = RoundView;

    closed spec fn view(&self) -> RoundView {
        self.round@
    }
}

impl GameState {
    /// The state of a game that begins with `round`.
    pub fn new(round: Round) -> (state: GameState)
        ensures
            state@ == round@,
    {
        GameState { round }
    }

    /// The round that is being played.
    pub fn round(&self) -> (round: &Round)
        ensures
            round@ == self@,
    {
        &self.round
    }

    /// Records that `side` gives its peer the score `points`.
    pub fn set_score(&mut self, side: Locale, points: u8)
        ensures
            final(self)@ == old(self)@.scored_by(side, points),
    {
        self.round.set_score(side, points);
    }

    /// Puts a freshly dealt round in the place of the current one, as a
    /// whole: nothing of the old round is left.
    pub fn next_round(&mut self, vocab: &Vocab)
        ensures
            final(self)@.is_fresh(),
            final(self)@.dealt_from(vocab@),
    {
        self.round = Round::new_random(vocab);
    }

    /// Records that `side` asks for the next round, and deals that round
    /// once both sides have asked. Until then only the flag of `side`
    /// changes; then the whole round is replaced at once.
    pub fn set_ready(&mut self, side: Locale, vocab: &Vocab)
        ensures
            final(self)@ == old(self)@.after_ready(side, final(self)@),
            old(self)@.marked_ready(side).both_ready() ==> final(self)@.is_fresh(),
            old(self)@.marked_ready(side).both_ready() ==> final(self)@.dealt_from(vocab@),
    {
        self.round.set_ready(side);
        if self.round.both_ready() {
            self.next_round(vocab);
        }
    }
}

/// A game, as contracts speak of it: the words it deals from, the round,
/// and for each side the connection that is attached, if one is.
pub struct GameView<K> {
    pub words: Seq<WordEntry>,
    pub round: RoundView,
    pub en_participant: Option<K>,
    pub zh_participant: Option<K>,
}

impl<K> GameView<K> {
    /// The connection that is attached for `side`, if one is.
    pub open spec fn participant(self, side: Locale) -> Option<K> {
        match side {
            Locale::English => self.en_participant,
            Locale::Chinese => self.zh_participant,
        }
    }

    /// This game with `slot` as what is attached for `side`.
    pub open spec fn with_participant(self, side: Locale, slot: Option<K>) -> GameView<K> {
        match side {
            Locale::English => GameView { en_participant: slot, ..self },
            Locale::Chinese => GameView { zh_participant: slot, ..self },
        }
    }

    /// This game with `round` as its round.
    pub open spec fn with_round(self, round: RoundView) -> GameView<K> {
        GameView { round, ..self }
    }

    /// The state frame that is due to `side`, where it can be encoded.
    pub open spec fn frame_for(self, side: Locale) -> Option<Seq<char>> {
        self.round.shown_to(side).json()
    }

    /// Whether `step` is the push to the peer of `acting`, or the end of
    /// the request where there is none to make: the peer gets its frame if
    /// it is attached and the frame can be encoded, and either way the
    /// request has succeeded.
    pub open spec fn is_peer_step(self, acting: Locale, step: Step) -> bool {
        let peer = acting.other();
        if self.participant(peer) is Some && self.frame_for(peer) is Some {
            &&& step matches Step::Send { to, frame, pending }
            &&& to == peer
            &&& Some(frame@) == self.frame_for(peer)
            &&& pending.acting() == acting
            &&& pending.to_peer()
        } else {
            step == Step::Finished(Ok(()))
        }
    }

    /// Whether `step` is what a request of `acting` leads to first: the
    /// push to `acting` itself where it is attached, which ends the request
    /// with an error where its frame cannot be encoded; else the step
    /// toward the peer.
    pub open spec fn is_first_step(self, acting: Locale, step: Step) -> bool {
        if self.participant(acting) is Some {
            match self.frame_for(acting) {
                Some(text) => {
                    &&& step matches Step::Send { to, frame, pending }
                    &&& to == acting
                    &&& frame@ == text
                    &&& pending.acting() == acting
                    &&& !pending.to_peer()
                },
                None => step matches Step::Finished(Err(error)) && error is Encode,
            }
        } else {
            self.is_peer_step(acting, step)
        }
    }

    /// Whether serving `request` of `acting` leads from this game to
    /// `after` and to `step` as the first thing to do: a score is recorded
    /// for the peer, a call for the next round marks `acting` as ready and
    /// deals a new round once both are, and then the pushes begin.
    pub open spec fn serves(
        self,
        acting: Locale,
        request: Request,
        after: GameView<K>,
        step: Step,
    ) -> bool {
        &&& match request {
            Request::Score { score } => after == self.with_round(
                self.round.scored_by(acting, score),
            ),
            Request::Action { action: Action::AdvanceRound } => {
                &&& after == self.with_round(self.round.after_ready(acting, after.round))
                &&& self.round.marked_ready(acting).both_ready() ==> after.round.is_fresh()
                    && after.round.dealt_from(self.words)
            },
        }
        &&& after.is_first_step(acting, step)
    }

    /// Whether `step` is what follows the push `pending` that ended with
    /// `outcome`: a failed push to the acting side ends the request with
    /// that error, a delivered one leads on to the peer, and after the push
    /// to the peer the request has succeeded however that push ended.
    pub open spec fn is_next_step(
        self,
        pending: Pending,
        outcome: Result<(), GameError>,
        step: Step,
    ) -> bool {
        if pending.to_peer() {
            step == Step::Finished(Ok(()))
        } else {
            match outcome {
                Err(error) => step == Step::Finished(Err(error)),
                Ok(_) => self.is_peer_step(pending.acting(), step),
            }
        }
    }
}

/// A push that has been handed to the transport and whose outcome is due.
#[derive(Debug)]
pub struct Pending {
    acting: Locale,
    to_peer: bool,
}

impl Pending {
    /// The side whose request caused the push.
    pub closed spec fn acting(self) -> Locale {
        self.acting
    }

    /// Whether the push goes to the peer of that side.
    pub closed spec fn to_peer(self) -> bool {
        self.to_peer
    }
}

/// What is to be done next for a request.
#[derive(Debug)]
pub enum Step {
    /// Write `frame` to the connection that is attached for `to`, then
    /// report how that went, together with `pending`.
    Send { to: Locale, frame: String, pending: Pending },
    /// The request is over, with this result.
    Finished(Result<(), GameError>),
}

/// The game of one pair of players. `K` is whatever writes to a player's
/// connection; the game only keeps it.
pub struct Game<K> {
    vocab: Vocab,
    state: GameState,
    en_participant: Option<K>,
    zh_participant: Option<K>,
}

impl<K> View for Game<K> {
    type V = GameView<K>;

    closed spec fn view(&self) -> GameView<K> {
        GameView {
            words: self.vocab@,
            round: self.state@,
            en_participant: self.en_participant,
            zh_participant: self.zh_participant,
        }
    }
}

impl<K> Game<K> {
    /// A game over `vocab` with a freshly dealt round and nobody attached.
    pub fn new(vocab: Vocab) -> (game: Self)
        ensures
            game@.words == vocab@,
            game@.round.is_fresh(),
            game@.round.dealt_from(vocab@),
            game@.en_participant is None,
            game@.zh_participant is None,
    {
        let round = Round::new_random(&vocab);
        Game { state: GameState::new(round), en_participant: None, zh_participant: None, vocab }
    }

    /// What `side` is shown of the round.
    pub fn client_state(&self, side: Locale) -> (shown: ClientState<'_>)
        ensures
            shown@ == self@.round.shown_to(side),
    {
        self.state.round().client_state(side)
    }

    /// The state frame that is due to `side`.
    pub fn push_state(&self, side: Locale) -> (frame: Result<String, GameError>)
        ensures
            frame is Ok <==> self@.frame_for(side) is Some,
            frame matches Ok(text) ==> self@.frame_for(side) == Some(text@),
            frame matches Err(error) ==> error is Encode,
    {
        self.state.round().client_state(side).to_json()
    }

    /// Whether a connection is attached for `side`.
    pub fn has_participant(&self, side: Locale) -> (attached: bool)
        ensures
            attached == self@.participant(side) is Some,
    {
        match side {
            Locale::English => self.en_participant.is_some(),
            Locale::Chinese => self.zh_participant.is_some(),
        }
    }

    /// Attaches `participant` for `side`, given in `pushed` how the push of
    /// the current state frame to it went. After a failed push the game is
    /// left as it was, and the error comes back together with the
    /// participant. After a delivered one the participant is attached in
    /// the place of whatever was attached for `side` before.
    pub fn set_participant(
        &mut self,
        side: Locale,
        participant: K,
        pushed: Result<(), GameError>,
    ) -> (joined: Result<(), (GameError, K)>)
        ensures
            match pushed {
                Ok(_) => {
                    &&& joined is Ok
                    &&& final(self)@ == old(self)@.with_participant(side, Some(participant))
                },
                Err(error) => {
                    &&& joined == Err::<(), (GameError, K)>((error, participant))
                    &&& final(self)@ == old(self)@
                },
            },
    {
        match pushed {
            Ok(_) => {
                match side {
                    Locale::English => {
                        self.en_participant = Some(participant);
                    },
                    Locale::Chinese => {
                        self.zh_participant = Some(participant);
                    },
                }
                Ok(())
            },
            Err(error) => Err((error, participant)),
        }
    }

    /// The place of `side`, for the transport to write to what is attached
    /// there. What the caller leaves in the place is what is attached
    /// afterwards; nothing else of the game can change through it.
    pub fn get_participant(&mut self, side: Locale) -> (slot: &mut Option<K>)
        ensures
            *slot == old(self)@.participant(side),
            final(self)@ == old(self)@.with_participant(side, *final(slot)),
    {
        match side {
            Locale::English => &mut self.en_participant,
            Locale::Chinese => &mut self.zh_participant,
        }
    }

    /// Detaches and returns what is attached for `side`, if anything is.
    /// The place of `side` is vacant afterwards.
    pub fn take_participant(&mut self, side: Locale) -> (taken: Option<K>)
        ensures
            taken == old(self)@.participant(side),
            final(self)@ == old(self)@.with_participant(side, None),
    {
        match side {
            Locale::English => self.en_participant.take(),
            Locale::Chinese => self.zh_participant.take(),
        }
    }

    fn push_to_peer(&self, acting: Locale) -> (step: Step)
        ensures
            self@.is_peer_step(acting, step),
    {
        let peer = acting.other();
        if self.has_participant(peer) {
            match self.push_state(peer) {
                Ok(frame) => Step::Send {
                    to: peer,
                    frame,
                    pending: Pending { acting, to_peer: true },
                },
                Err(_) => Step::Finished(Ok(())),
            }
        } else {
            Step::Finished(Ok(()))
        }
    }

    fn push_to_acting(&self, acting: Locale) -> (step: Step)
        ensures
            self@.is_first_step(acting, step),
    {
        if self.has_participant(acting) {
            match self.push_state(acting) {
                Ok(frame) => Step::Send {
                    to: acting,
                    frame,
                    pending: Pending { acting, to_peer: false },
                },
                Err(error) => Step::Finished(Err(error)),
            }
        } else {
            self.push_to_peer(acting)
        }
    }

    /// Records that `side` gives its peer the score `points`, and says
    /// which push comes first. The round is never replaced by a score.
    pub fn set_score(&mut self, side: Locale, points: u8) -> (step: Step)
        ensures
            final(self)@ == old(self)@.with_round(old(self)@.round.scored_by(side, points)),
            final(self)@.is_first_step(side, step),
    {
        self.state.set_score(side, points);
        self.push_to_acting(side)
    }

    /// Records that `side` asks for the next round, deals that round once
    /// both sides have asked, and says which push comes first. The round is
    /// replaced as a whole before any frame is made, so no frame shows a
    /// part of each.
    pub fn set_ready(&mut self, side: Locale) -> (step: Step)
        ensures
            final(self)@ == old(self)@.with_round(
                old(self)@.round.after_ready(side, final(self)@.round),
            ),
            old(self)@.round.marked_ready(side).both_ready() ==> final(self)@.round.is_fresh()
                && final(self)@.round.dealt_from(old(self)@.words),
            final(self)@.is_first_step(side, step),
    {
        self.state.set_ready(side, &self.vocab);
        self.push_to_acting(side)
    }

    /// Serves one request of `side`: changes the round as the request
    /// asks, and says which push comes first.
    pub fn serve(&mut self, side: Locale, request: Request) -> (step: Step)
        ensures
            old(self)@.serves(side, request, final(self)@, step),
    {
        match request {
            Request::Score { score } => self.set_score(side, score),
            Request::Action { action } => match action {
                Action::AdvanceRound => self.set_ready(side),
            },
        }
    }

    /// Says what follows the push `pending`, given in `outcome` how it
    /// went.
    pub fn pushed(&self, pending: Pending, outcome: Result<(), GameError>) -> (step: Step)
        ensures
            self@.is_next_step(pending, outcome, step),
    {
        if pending.to_peer {
            Step::Finished(Ok(()))
        } else {
            match outcome {
                Err(error) => Step::Finished(Err(error)),
                Ok(_) => self.push_to_peer(pending.acting),
            }
        }
    }
}

/// A connection that joins takes the place of its side whatever was
/// attached there: the game that results does not depend on the connection
/// it replaces, which is attached nowhere afterwards unless it is attached
/// for the other side. Every push that follows is addressed to a side, so it
/// reaches the connection that joined last.
pub proof fn lemma_join_supersedes<K>(game: GameView<K>, side: Locale, earlier: K, later: K)
    ensures
        game.with_participant(side, Some(earlier)).with_participant(side, Some(later))
            == game.with_participant(side, Some(later)),
        game.with_participant(side, Some(later)).participant(side) == Some(later),
        game.with_participant(side, Some(later)).participant(side.other()) == game.participant(
            side.other(),
        ),
        game.with_participant(side, Some(later)).round == game.round,
{
}

/// Taking from a side for which nothing is attached yields nothing and
/// leaves the game as it was.
pub proof fn lemma_take_from_vacant<K>(game: GameView<K>, side: Locale)
    requires
        game.participant(side) is None,
    ensures
        game.with_participant(side, None) == game,
{
}

} // verus!
