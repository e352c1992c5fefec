//! One round of the game, and what each player is shown of it.

use vstd::prelude::*;
use vstd::string::*;
use crate::card::{Card, CardView};
use crate::error::GameError;
use crate::json::{decimal, flag, number, truth};
use crate::locale::Locale;
use crate::vocab::{Vocab, WordEntry};

verus! {

/// The JSON value for a score: its numeral, or `null` where there is none.
pub open spec fn score_json(score: Option<u8>) -> Seq<char> {
    match score {
        Some(points) => decimal(points as nat),
        None => "null"@,
    }
}

/// What one player is shown of a round, as contracts speak of it.
pub struct ClientStateView {
    pub my_card: CardView,
    pub their_card: CardView,
    pub has_score: bool,
    pub scored: Option<u8>,
    pub ready: bool,
}

impl ClientStateView {
    /// The state frame: a JSON object with the members `myCard`,
    /// `theirCard`, `hasScore`, `scored` and `ready`, in this order and
    /// without spaces.
    pub open spec fn json(self) -> Option<Seq<char>> {
        match (self.my_card.json(), self.their_card.json()) {
            (Some(mine), Some(theirs)) => Some(
                "{\"myCard\":"@ + mine + ",\"theirCard\":"@ + theirs + ",\"hasScore\":"@ + truth(
                    self.has_score,
                ) + ",\"scored\":"@ + score_json(self.scored) + ",\"ready\":"@ + truth(self.ready)
                    + "}"@,
            ),
            _ => None,
        }
    }
}

/// A round, as contracts speak of it: for each side a card, a score that
/// may be missing, and whether that side is ready for the next round.
pub struct RoundView {
    pub en_card: CardView,
    pub zh_card: CardView,
    pub en_score: Option<u8>,
    pub zh_score: Option<u8>,
    pub en_ready: bool,
    pub zh_ready: bool,
}

impl RoundView {
    /// The card that was dealt to `side`.
    pub open spec fn card_for(self, side: Locale) -> CardView {
        match side {
            Locale::English => self.en_card,
            Locale::Chinese => self.zh_card,
        }
    }

    /// The score that `side` was given, if any.
    pub open spec fn score_for(self, side: Locale) -> Option<u8> {
        match side {
            Locale::English => self.en_score,
            Locale::Chinese => self.zh_score,
        }
    }

    /// Whether `side` has asked for the next round.
    pub open spec fn ready_for(self, side: Locale) -> bool {
        match side {
            Locale::English => self.en_ready,
            Locale::Chinese => self.zh_ready,
        }
    }

    /// A round as it is dealt: nobody scored, nobody ready.
    pub open spec fn is_fresh(self) -> bool {
        &&& self.en_score is None
        &&& self.zh_score is None
        &&& !self.en_ready
        &&& !self.zh_ready
    }

    /// A round whose two cards both show a word of `words`.
    pub open spec fn dealt_from(self, words: Seq<WordEntry>) -> bool {
        &&& words.contains(self.en_card.word)
        &&& words.contains(self.zh_card.word)
    }

    /// The fresh round with these two cards.
    pub open spec fn dealt(en_card: CardView, zh_card: CardView) -> RoundView {
        RoundView {
            en_card,
            zh_card,
            en_score: None,
            zh_score: None,
            en_ready: false,
            zh_ready: false,
        }
    }

    /// This round after `side` has scored its peer with `points`: the
    /// peer's score is `points`, and nothing else has changed.
    pub open spec fn scored_by(self, side: Locale, points: u8) -> RoundView {
        match side {
            Locale::English => RoundView { zh_score: Some(points), ..self },
            Locale::Chinese => RoundView { en_score: Some(points), ..self },
        }
    }

    /// This round with `side` marked as ready, and nothing else changed.
    pub open spec fn marked_ready(self, side: Locale) -> RoundView {
        match side {
            Locale::English => RoundView { en_ready: true, ..self },
            Locale::Chinese => RoundView { zh_ready: true, ..self },
        }
    }

    /// Whether both sides have asked for the next round.
    pub open spec fn both_ready(self) -> bool {
        self.en_ready && self.zh_ready
    }

    /// The round that follows when `side` asks for the next one while
    /// `next` is what would be dealt: `next` as a whole where the peer has
    /// asked already, else this round with `side` marked as ready.
    pub open spec fn after_ready(self, side: Locale, next: RoundView) -> RoundView {
        if self.marked_ready(side).both_ready() {
            next
        } else {
            self.marked_ready(side)
        }
    }

    /// What `side` is shown of this round: its peer's card to answer and
    /// its own card to judge, whether it has scored its peer, the score it
    /// was given itself, and whether it has asked for the next round.
    pub open spec fn shown_to(self, side: Locale) -> ClientStateView {
        ClientStateView {
            my_card: self.card_for(side.other()),
            their_card: self.card_for(side),
            has_score: self.score_for(side.other()) is Some,
            scored: self.score_for(side),
            ready: self.ready_for(side),
        }
    }
}

/// What one player is shown of a round.
#[derive(Debug)]
pub struct ClientState<'a> {
    your_card: &'a Card,
    their_card: &'a Card,
    has_score: bool,
    your_score: Option<u8>,
    ready: bool,
}

impl<'a> View for ClientState<'a> {
    type V = ClientStateView;

    closed spec fn view(&self) -> ClientStateView {
        ClientStateView {
            my_card: self.your_card@,
            their_card: self.their_card@,
            has_score: self.has_score,
            scored: self.your_score,
            ready: self.ready,
        }
    }
}

impl<'a> ClientState<'a> {
    /// The card that the player answers: the one dealt to the peer.
    pub fn my_card(&self) -> (card: &'a Card)
        ensures
            card@ == self@.my_card,
    {
        self.your_card
    }

    /// The card that the player judges: the one dealt to the player.
    pub fn their_card(&self) -> (card: &'a Card)
        ensures
            card@ == self@.their_card,
    {
        self.their_card
    }

    /// Whether the player has scored the peer in this round.
    pub fn has_score(&self) -> (set: bool)
        ensures
            set == self@.has_score,
    {
        self.has_score
    }

    /// The score that the player was given in this round, if any.
    pub fn scored(&self) -> (score: Option<u8>)
        ensures
            score == self@.scored,
    {
        self.your_score
    }

    /// Whether the player has asked for the next round.
    pub fn ready(&self) -> (set: bool)
        ensures
            set == self@.ready,
    {
        self.ready
    }

    /// The state frame for this view of the round.
    pub fn to_json(&self) -> (json: Result<String, GameError>)
        ensures
            json is Ok <==> self@.json() is Some,
            json matches Ok(frame) ==> self@.json() == Some(frame@),
            json matches Err(error) ==> error is Encode,
    {
        let mine = self.your_card.to_json()?;
        let theirs = self.their_card.to_json()?;
        let mut frame = "{\"myCard\":".to_owned();
        frame.append(mine.as_str());
        frame.append(",\"theirCard\":");
        frame.append(theirs.as_str());
        frame.append(",\"hasScore\":");
        frame.append(flag(self.has_score));
        frame.append(",\"scored\":");
        match self.your_score {
            Some(points) => {
                let numeral = number(points);
                frame.append(numeral.as_str());
            },
            None => {
                frame.append("null");
            },
        }
        frame.append(",\"ready\":");
        frame.append(flag(self.ready));
        frame.append("}");
        Ok(frame)
    }
}

/// One round: the two cards, and what the players have said of it so far.
#[derive(Debug)]
pub struct Round {
    en_card: Card,
    zh_card: Card,
    en_score: Option<u8>,
    zh_score: Option<u8>,
    en_ready: bool,
    zh_ready: bool,
}

impl View for Round {
    type V = RoundView;

    closed spec fn view(&self) -> RoundView {
        RoundView {
            en_card: self.en_card@,
            zh_card: self.zh_card@,
            en_score: self.en_score,
            zh_score: self.zh_score,
            en_ready: self.en_ready,
            zh_ready: self.zh_ready,
        }
    }
}

impl Round {
    /// The fresh round with these two cards.
    pub fn dealt(en_card: Card, zh_card: Card) -> (round: Round)
        ensures
            round@ == RoundView::dealt(en_card@, zh_card@),
    {
        Round { en_card, zh_card, en_score: None, zh_score: None, en_ready: false, zh_ready: false }
    }

    /// A fresh round with two cards drawn from `vocab`, one draw for each
    /// side. The two may show the same word.
    pub fn new_random(vocab: &Vocab) -> (round: Round)
        ensures
            round@.is_fresh(),
            round@.dealt_from(vocab@),
    {
        let en_card = Card::random(vocab);
        let zh_card = Card::random(vocab);
        Round::dealt(en_card, zh_card)
    }

    /// Records that `side` gives its peer the score `points`. An earlier
    /// score of the peer is overwritten; the score of `side` itself, the
    /// cards and the readiness of both stay as they are.
    pub fn set_score(&mut self, side: Locale, points: u8)
        ensures
            final(self)@ == old(self)@.scored_by(side, points),
    {
        match side {
            Locale::English => {
                self.zh_score = Some(points);
            },
            Locale::Chinese => {
                self.en_score = Some(points);
            },
        }
    }

    /// Records that `side` asks for the next round. Cards and scores stay as
    /// they are, and so does the readiness of the peer.
    pub fn set_ready(&mut self, side: Locale)
        ensures
            final(self)@ == old(self)@.marked_ready(side),
    {
        match side {
            Locale::English => {
                self.en_ready = true;
            },
            Locale::Chinese => {
                self.zh_ready = true;
            },
        }
    }

    /// Whether both sides have asked for the next round.
    pub fn both_ready(&self) -> (both: bool)
        ensures
            both == self@.both_ready(),
    {
        self.en_ready && self.zh_ready
    }

    /// What `side` is shown of this round.
    pub fn client_state(&self, side: Locale) -> (shown: ClientState<'_>)
        ensures
            shown@ == self@.shown_to(side),
    {
        match side {
            Locale::English => ClientState {
                your_card: &self.zh_card,
                their_card: &self.en_card,
                has_score: self.zh_score.is_some(),
                your_score: self.en_score,
                ready: self.en_ready,
            },
            Locale::Chinese => ClientState {
                your_card: &self.en_card,
                their_card: &self.zh_card,
                has_score: self.en_score.is_some(),
                your_score: self.zh_score,
                ready: self.zh_ready,
            },
        }
    }
}

/// A score that `side` submits is stored for its peer and for nobody else:
/// the score of `side` itself, both cards and both readiness flags stay as
/// they were.
pub proof fn lemma_score_goes_to_peer_only(round: RoundView, side: Locale, points: u8)
    ensures
        round.scored_by(side, points).score_for(side.other()) == Some(points),
        round.scored_by(side, points).score_for(side) == round.score_for(side),
        forall|any: Locale|
            round.scored_by(side, points).card_for(any) == #[trigger] round.card_for(any),
        forall|any: Locale|
            round.scored_by(side, points).ready_for(any) == #[trigger] round.ready_for(any),
        !round.both_ready() ==> !round.scored_by(side, points).both_ready(),
{
}

/// While the peer has not asked for the next round, `side` asking for it
/// changes the readiness of `side` and nothing else: no new round is dealt,
/// cards and scores stay as they were, and so does everything but `ready`
/// in what either player is shown.
pub proof fn lemma_ready_alone_keeps_round(round: RoundView, side: Locale, next: RoundView)
    requires
        !round.ready_for(side.other()),
    ensures
        round.after_ready(side, next) == round.marked_ready(side),
        round.after_ready(side, next).ready_for(side),
        !round.after_ready(side, next).ready_for(side.other()),
        forall|any: Locale|
            round.after_ready(side, next).card_for(any) == #[trigger] round.card_for(any),
        forall|any: Locale|
            round.after_ready(side, next).score_for(any) == #[trigger] round.score_for(any),
        forall|viewer: Locale|
            {
                let shown = #[trigger] round.after_ready(side, next).shown_to(viewer);
                &&& shown.has_score == round.shown_to(viewer).has_score
                &&& shown.scored == round.shown_to(viewer).scored
                &&& shown.my_card == round.shown_to(viewer).my_card
                &&& shown.their_card == round.shown_to(viewer).their_card
            },
{
}

/// A round is replaced as a whole or not at all: when a side asks for the
/// next round, what follows is either the old round with that side marked
/// as ready, the two not both ready, or the new round and nothing of the
/// old one.
pub proof fn lemma_round_is_replaced_whole(round: RoundView, side: Locale, next: RoundView)
    ensures
        round.after_ready(side, next) == next || (round.after_ready(side, next)
            == round.marked_ready(side) && !round.marked_ready(side).both_ready()),
        round.ready_for(side.other()) ==> round.after_ready(side, next) == next,
{
}

/// Once both sides have asked for the next round, one after the other and in
/// either order, the round is the one dealt at the second call: each player
/// is shown the new cards, no score and no readiness.
pub proof fn lemma_both_ready_deals_next(
    round: RoundView,
    first: Locale,
    skipped: RoundView,
    next: RoundView,
)
    requires
        !round.ready_for(first.other()),
        next.is_fresh(),
    ensures
        round.after_ready(first, skipped).after_ready(first.other(), next) == next,
        forall|viewer: Locale|
            {
                let shown = #[trigger] round.after_ready(first, skipped).after_ready(
                    first.other(),
                    next,
                ).shown_to(viewer);
                &&& shown.my_card == next.card_for(viewer.other())
                &&& shown.their_card == next.card_for(viewer)
                &&& !shown.has_score
                &&& shown.scored is None
                &&& !shown.ready
            },
{
}

} // verus!
