//! Cards: a word of the vocabulary and the face of it that is shown.

use vstd::prelude::*;
use vstd::string::*;
use vstd::std_specs::convert::FromSpecImpl;
use crate::error::GameError;
use crate::json::{literal, literal_list, quoted, quoted_list};
use crate::random::{pick, toss};
use crate::vocab::{copy_texts, texts_view, Vocab, WordEntry};

verus! {

/// Which face of a word a card shows.
#[derive(Clone, Copy, Debug, PartialEq, Eq, Structural)]
pub enum CardSide {
    Word,
    Definition,
}

impl Default for CardSide {
    /// The face that a card shows where none was drawn: the word.
    fn default() -> (side: Self)
        ensures
            side == CardSide::Word,
    {
        CardSide::Word
    }
}

impl CardSide {
    /// The JSON string literal that names the face.
    pub open spec fn json(self) -> Seq<char> {
        match self {
            CardSide::Word => "\"word\""@,
            CardSide::Definition => "\"definition\""@,
        }
    }

    /// The face that a coin toss decides: the word on heads, the definition
    /// on tails.
    pub open spec fn tossed(heads: bool) -> CardSide {
        if heads {
            CardSide::Word
        } else {
            CardSide::Definition
        }
    }

    /// The JSON string literal that names the face.
    pub fn to_json(&self) -> (json: &'static str)
        ensures
            json@ == self.json(),
    {
        match self {
            CardSide::Word => "\"word\"",
            CardSide::Definition => "\"definition\"",
        }
    }
}

/// The word on a card: a copy of one entry of the vocabulary.
#[derive(Debug, PartialEq, Eq)]
pub struct VocabWord {
    word: String,
    word_detail: String,
    definition: Vec<String>,
}

impl View for VocabWord {
    type V = WordEntry;

    closed spec fn view(&self) -> WordEntry {
        WordEntry {
            word: self.word@,
            word_detail: self.word_detail@,
            definition: texts_view(self.definition@),
        }
    }
}

impl FromSpecImpl<crate::vocab::VocabWord> for VocabWord {
    open spec fn obeys_from_spec() -> bool {
        true
    }

    closed spec fn from_spec(entry: crate::vocab::VocabWord) -> Self {
        VocabWord { word: entry.word, word_detail: entry.word_detail, definition: entry.definition }
    }
}

impl From<crate::vocab::VocabWord> for VocabWord {
    /// The word of a card that holds `entry`.
    fn from(entry: crate::vocab::VocabWord) -> (word: Self)
        ensures
            word@ == entry@,
    {
        VocabWord { word: entry.word, word_detail: entry.word_detail, definition: entry.definition }
    }
}

impl Clone for VocabWord {
    fn clone(&self) -> (copy: Self)
        ensures
            copy@ == self@,
    {
        VocabWord {
            word: self.word.clone(),
            word_detail: self.word_detail.clone(),
            definition: copy_texts(&self.definition),
        }
    }
}

impl VocabWord {
    /// The word itself.
    pub fn word(&self) -> (text: &str)
        ensures
            text@ == self@.word,
    {
        self.word.as_str()
    }

    /// The note that goes with the word.
    pub fn word_detail(&self) -> (text: &str)
        ensures
            text@ == self@.word_detail,
    {
        self.word_detail.as_str()
    }

    /// The definitions of the word, in order.
    pub fn definition(&self) -> (texts: &Vec<String>)
        ensures
            texts_view(texts@) == self@.definition,
    {
        &self.definition
    }
}

/// A card, as contracts speak of it.
pub struct CardView {
    pub word: WordEntry,
    pub side: CardSide,
}

impl CardView {
    /// The JSON object that a client receives for this card: the word's
    /// three members and the face, in this order and without spaces.
    pub open spec fn json(self) -> Option<Seq<char>> {
        match (
            quoted(self.word.word),
            quoted(self.word.word_detail),
            quoted_list(self.word.definition),
        ) {
            (Some(word), Some(detail), Some(definition)) => Some(
                "{\"word\":"@ + word + ",\"wordDetail\":"@ + detail + ",\"definition\":"@
                    + definition + ",\"side\":"@ + self.side.json() + "}"@,
            ),
            _ => None,
        }
    }
}

/// A word of the vocabulary together with the face of it that is shown.
#[derive(Debug, PartialEq, Eq)]
pub struct Card {
    pub word: VocabWord,
    pub side: CardSide,
}

impl View for Card {
    type V = CardView;

    open spec fn view(&self) -> CardView {
        CardView { word: self.word@, side: self.side }
    }
}

impl Clone for Card {
    fn clone(&self) -> (copy: Self)
        ensures
            copy@ == self@,
    {
        Card { word: self.word.clone(), side: self.side }
    }
}

impl Card {
    /// The card for a draw that came out as `entry` and `heads`: a copy of
    /// the entry, showing the word on heads and the definition on tails.
    pub fn drawn(entry: &crate::vocab::VocabWord, heads: bool) -> (card: Card)
        ensures
            card@ == (CardView { word: entry@, side: CardSide::tossed(heads) }),
    {
        Card {
            word: VocabWord::from(entry.clone()),
            side: if heads {
                CardSide::Word
            } else {
                CardSide::Definition
            },
        }
    }

    /// A card drawn at random: some word of `vocab`, showing either face.
    pub fn random(vocab: &Vocab) -> (card: Card)
        ensures
            vocab@.contains(card@.word),
    {
        let words = vocab.words();
        let heads = toss();
        match pick(words) {
            Some(entry) => {
                proof {
                    let i = choose|i: int| 0 <= i < words@.len() && words@[i] == *entry;
                    assert(vocab@[i] == entry@);
                }
                Card::drawn(entry, heads)
            },
            None => {
                // A vocabulary is never empty, so a word was picked.
                Card::drawn(&words[0], heads)
            },
        }
    }

    /// The JSON object that a client receives for this card.
    pub fn to_json(&self) -> (json: Result<String, GameError>)
        ensures
            json is Ok <==> self@.json() is Some,
            json matches Ok(found) ==> self@.json() == Some(found@),
            json matches Err(error) ==> error is Encode,
    {
        let word = literal(self.word.word.as_str())?;
        let detail = literal(self.word.word_detail.as_str())?;
        let definition = literal_list(&self.word.definition)?;
        let mut found = "{\"word\":".to_owned();
        found.append(word.as_str());
        found.append(",\"wordDetail\":");
        found.append(detail.as_str());
        found.append(",\"definition\":");
        found.append(definition.as_str());
        found.append(",\"side\":");
        found.append(self.side.to_json());
        found.append("}");
        Ok(found)
    }
}

} // verus!
