//! The words that the game deals from.

use vstd::prelude::*;

verus! {

/// A word with its gloss, as contracts speak of it.
pub struct WordEntry {
    pub word: Seq<char>,
    pub word_detail: Seq<char>,
    pub definition: Seq<Seq<char>>,
}

/// The characters of each string of `texts`, in order.
pub open spec fn texts_view(texts: Seq<String>) -> Seq<Seq<char>> {
    texts.map_values(|text: String| text@)
}

/// One entry of a vocabulary: a word, a note on it, and its definitions.
#[derive(Debug, PartialEq, Eq)]
pub struct VocabWord {
    pub word: String,
    pub word_detail: String,
    pub definition: Vec<String>,
}

impl View for VocabWord {
    type V = WordEntry;

    open spec fn view(&self) -> WordEntry {
        WordEntry {
            word: self.word@,
            word_detail: self.word_detail@,
            definition: texts_view(self.definition@),
        }
    }
}

/// A copy of `texts`, string by string.
pub fn copy_texts(texts: &Vec<String>) -> (copy: Vec<String>)
    ensures
        texts_view(copy@) == texts_view(texts@),
{
    let mut copy: Vec<String> = Vec::new();
    let mut i: usize = 0;
    while i < texts.len()
        invariant
            i <= texts.len(),
            copy@.len() == i,
            forall|j: int| 0 <= j < i ==> copy@[j]@ == texts@[j]@,
        decreases texts.len() - i,
    {
        copy.push(texts[i].clone());
        i = i + 1;
    }
    assert(texts_view(copy@) =~= texts_view(texts@));
    copy
}

impl Clone for VocabWord {
    fn clone(&self) -> (copy: Self)
        ensures
            copy@ == self@,
    {
        VocabWord {
            word: self.word.clone(),
            word_detail: self.word_detail.clone(),
            definition: copy_texts(&self.definition),
        }
    }
}

/// The entries of each word of `words`, in order.
pub open spec fn entries(words: Seq<VocabWord>) -> Seq<WordEntry> {
    words.map_values(|word: VocabWord| word@)
}

/// A vocabulary: a list of words that is never empty.
#[derive(Debug)]
pub struct Vocab(Vec<VocabWord>);

impl View for Vocab {
    type V = Seq<WordEntry>;

    closed spec fn view(&self) -> Seq<WordEntry> {
        entries(self.0@)
    }
}

impl Vocab {
    #[verifier::type_invariant]
    spec fn stocked(self) -> bool {
        self.0@.len() > 0
    }

    /// The vocabulary that holds `words`, unless there are none.
    pub fn from_words(words: Vec<VocabWord>) -> (vocab: Option<Vocab>)
        ensures
            words@.len() == 0 ==> vocab is None,
            words@.len() > 0 ==> vocab is Some && vocab->0@ == entries(words@),
    {
        if words.len() == 0 {
            None
        } else {
            Some(Vocab(words))
        }
    }

    /// The words, in the order in which they were given.
    pub fn words(&self) -> (words: &Vec<VocabWord>)
        ensures
            entries(words@) == self@,
            words@.len() > 0,
    {
        proof {
            use_type_invariant(self);
        }
        &self.0
    }

    /// How many words there are: at least one.
    pub fn len(&self) -> (count: usize)
        ensures
            count == self@.len(),
            count > 0,
    {
        proof {
            use_type_invariant(self);
        }
        self.0.len()
    }
}

impl std::ops::Deref for Vocab {
    type Target = [VocabWord];

    fn deref(&self) -> (words: &[VocabWord])
        ensures
            entries(words@) == self@,
    {
        self.0.as_slice()
    }
}

impl Clone for Vocab {
    fn clone(&self) -> (copy: Self)
        ensures
            copy@ == self@,
    {
        proof {
            use_type_invariant(self);
        }
        let mut words: Vec<VocabWord> = Vec::new();
        let mut i: usize = 0;
        while i < self.0.len()
            invariant
                i <= self.0.len(),
                words@.len() == i,
                forall|j: int| 0 <= j < i ==> words@[j]@ == self.0@[j]@,
            decreases self.0.len() - i,
        {
            words.push(self.0[i].clone());
            i = i + 1;
        }
        assert(entries(words@) =~= entries(self.0@));
        Vocab(words)
    }
}

/// The vocabularies of both directions of study.
#[derive(Debug)]
pub struct Vocabs {
    pub en_zh: Vocab,
    pub zh_en: Vocab,
}

impl Clone for Vocabs {
    fn clone(&self) -> (copy: Self)
        ensures
            copy.en_zh@ == self.en_zh@,
            copy.zh_en@ == self.zh_en@,
    {
        Vocabs { en_zh: self.en_zh.clone(), zh_en: self.zh_en.clone() }
    }
}

} // verus!
