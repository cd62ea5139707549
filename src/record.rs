use vstd::prelude::*;

verus! {

/// A bare word referenced from an entry's related or synonym list.
pub struct Word {
    pub word: String,
}

impl View for Word {
    type V = Seq<char>;

    open spec fn view(&self) -> Seq<char> {
        self.word@
    }
}

impl AsRef<str> for Word {
    fn as_ref(&self) -> (r: &str)
        ensures
            r@ == self.word@,
    {
        self.word.as_str()
    }
}

impl From<Word> for String {
    fn from(w: Word) -> (r: String)
        ensures
            r == w.word,
    {
        w.word
    }
}

impl vstd::std_specs::convert::FromSpecImpl<Word> for String {
    open spec fn obeys_from_spec() -> bool {
        true
    }

    open spec fn from_spec(w: Word) -> String {
        w.word
    }
}

/// One sense of an entry: its gloss strings, possibly none.
pub struct Definition {
    pub glosses: Vec<String>,
}

impl View for Definition {
    type V = Seq<Seq<char>>;

    open spec fn view(&self) -> Seq<Seq<char>> {
        self.glosses@.map_values(|g: String| g@)
    }
}

impl Definition {
    /// Number of gloss strings in this sense.
    pub fn len(&self) -> (r: usize)
        ensures
            r == self@.len(),
    {
        self.glosses.len()
    }
}

impl Definition {
    /// Builds a sense from its decoded field; an absent gloss list is empty.
    pub fn from_field(glosses: Option<Vec<String>>) -> (r: Definition)
        ensures
            r.glosses@ == (match glosses {
                Some(g) => g@,
                None => Seq::empty(),
            }),
    {
        match glosses {
            Some(g) => Definition { glosses: g },
            None => Definition { glosses: Vec::new() },
        }
    }
}

/// One decoded input entry: a word with its part of speech, senses and
/// related and synonymous words.
pub struct Record {
    pub word: String,
    pub pos: String,
    pub senses: Vec<Definition>,
    pub related: Vec<Word>,
    pub synonyms: Vec<Word>,
}

/// The mathematical content of a `Record`: every string as its characters.
pub struct RecordView {
    pub word: Seq<char>,
    pub pos: Seq<char>,
    pub senses: Seq<Seq<Seq<char>>>,
    pub related: Seq<Seq<char>>,
    pub synonyms: Seq<Seq<char>>,
}

impl View for Record {
    type V = RecordView;

    open spec fn view(&self) -> RecordView {
        RecordView {
            word: self.word@,
            pos: self.pos@,
            senses: self.senses@.map_values(|d: Definition| d@),
            related: self.related@.map_values(|w: Word| w@),
            synonyms: self.synonyms@.map_values(|w: Word| w@),
        }
    }
}

/// An entry has definitions when at least one of its senses holds a gloss.
pub open spec fn has_definitions(r: RecordView) -> bool {
    exists|i: int| 0 <= i < r.senses.len() && #[trigger] r.senses[i].len() > 0
}

/// Total number of gloss strings over all senses.
pub open spec fn gloss_total(senses: Seq<Seq<Seq<char>>>) -> nat
    decreases senses.len(),
{
    if senses.len() == 0 {
        0
    } else {
        gloss_total(senses.drop_last()) + senses.last().len()
    }
}

/// Text of an optional decoded string field, empty when absent.
pub open spec fn text_or_empty(s: Option<String>) -> Seq<char> {
    match s {
        Some(v) => v@,
        None => Seq::empty(),
    }
}

impl Record {
    /// Builds an entry from its decoded fields: an absent word or part of
    /// speech is the empty string, an absent list is empty.
    pub fn from_fields(
        word: Option<String>,
        pos: Option<String>,
        senses: Option<Vec<Definition>>,
        related: Option<Vec<Word>>,
        synonyms: Option<Vec<Word>>,
    ) -> (r: Record)
        ensures
            r.word@ == text_or_empty(word),
            r.pos@ == text_or_empty(pos),
            r.senses@ == (match senses {
                Some(v) => v@,
                None => Seq::empty(),
            }),
            r.related@ == (match related {
                Some(v) => v@,
                None => Seq::empty(),
            }),
            r.synonyms@ == (match synonyms {
                Some(v) => v@,
                None => Seq::empty(),
            }),
    {
        let word = match word {
            Some(w) => w,
            None => String::new(),
        };
        let pos = match pos {
            Some(p) => p,
            None => String::new(),
        };
        let senses = match senses {
            Some(v) => v,
            None => Vec::new(),
        };
        let related = match related {
            Some(v) => v,
            None => Vec::new(),
        };
        let synonyms = match synonyms {
            Some(v) => v,
            None => Vec::new(),
        };
        Record { word, pos, senses, related, synonyms }
    }

    /// Whether any sense of this entry holds at least one gloss; entries
    /// without are not stored.
    pub fn has_any_definitions(&self) -> (r: bool)
        ensures
            r == has_definitions(self@),
    {
        let mut i: usize = 0;
        while i < self.senses.len()
            invariant
                0 <= i <= self.senses@.len(),
                forall|k: int| 0 <= k < i ==> #[trigger] self@.senses[k].len() == 0,
            decreases self.senses@.len() - i,
        {
            if self.senses[i].len() > 0 {
                assert(self@.senses[i as int].len() > 0);
                return true;
            }
            i += 1;
        }
        false
    }

    /// Total number of glosses over all senses, saturating at `usize::MAX`.
    pub fn num_definitions(&self) -> (r: usize)
        ensures
            r as nat == if gloss_total(self@.senses) <= usize::MAX {
                gloss_total(self@.senses)
            } else {
                usize::MAX as nat
            },
    {
        let mut total: usize = 0;
        let mut i: usize = 0;
        while i < self.senses.len()
            invariant
                0 <= i <= self.senses@.len(),
                total as nat == if gloss_total(self@.senses.take(i as int)) <= usize::MAX {
                    gloss_total(self@.senses.take(i as int))
                } else {
                    usize::MAX as nat
                },
            decreases self.senses@.len() - i,
        {
            assert(self@.senses.take(i + 1).drop_last() =~= self@.senses.take(i as int));
            total = total.saturating_add(self.senses[i].len());
            i += 1;
        }
        assert(self@.senses.take(i as int) =~= self@.senses);
        total
    }
}

} // verus!
