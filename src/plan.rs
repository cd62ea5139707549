use vstd::prelude::*;

use crate::record::{Definition, Record, RecordView, Word};

verus! {

/// One row-level write that storing an entry takes, relative to the
/// identity of the entry's own word.
pub enum WriteOp {
    /// Insert-or-ignore the row (entry word, part of speech, gloss).
    Definition { pos: String, gloss: String },
    /// Resolve the named word and insert-or-ignore a related-word edge to it.
    Related(String),
    /// Resolve the named word and insert-or-ignore a synonym edge to it.
    Synonym(String),
}

/// A `WriteOp` with its strings as characters.
pub enum OpView {
    Definition { pos: Seq<char>, gloss: Seq<char> },
    Related(Seq<char>),
    Synonym(Seq<char>),
}

impl View for WriteOp {
    type V = OpView;

    open spec fn view(&self) -> OpView {
        match self {
            WriteOp::Definition { pos, gloss } => OpView::Definition { pos: pos@, gloss: gloss@ },
            WriteOp::Related(w) => OpView::Related(w@),
            WriteOp::Synonym(w) => OpView::Synonym(w@),
        }
    }
}

/// Everything one entry writes, in order: resolve `word`, then run `ops`
/// against its identity. The whole plan is one unit of work.
pub struct WritePlan {
    pub word: String,
    pub ops: Vec<WriteOp>,
}

impl View for WritePlan {
    type V = (Seq<char>, Seq<OpView>);

    open spec fn view(&self) -> (Seq<char>, Seq<OpView>) {
        (self.word@, self.ops@.map_values(|o: WriteOp| o@))
    }
}

/// Definition rows of one sense: one per non-empty gloss, in order.
pub open spec fn sense_ops(pos: Seq<char>, glosses: Seq<Seq<char>>) -> Seq<OpView>
    decreases glosses.len(),
{
    if glosses.len() == 0 {
        Seq::empty()
    } else {
        let earlier = sense_ops(pos, glosses.drop_last());
        if glosses.last().len() == 0 {
            earlier
        } else {
            earlier.push(OpView::Definition { pos, gloss: glosses.last() })
        }
    }
}

/// Definition rows of all senses, sense after sense.
pub open spec fn senses_ops(pos: Seq<char>, senses: Seq<Seq<Seq<char>>>) -> Seq<OpView>
    decreases senses.len(),
{
    if senses.len() == 0 {
        Seq::empty()
    } else {
        senses_ops(pos, senses.drop_last()) + sense_ops(pos, senses.last())
    }
}

/// Related-word edges, one per reference, in order.
pub open spec fn related_ops(words: Seq<Seq<char>>) -> Seq<OpView> {
    words.map_values(|w: Seq<char>| OpView::Related(w))
}

/// Synonym edges, one per reference, in order.
pub open spec fn synonym_ops(words: Seq<Seq<char>>) -> Seq<OpView> {
    words.map_values(|w: Seq<char>| OpView::Synonym(w))
}

/// The writes of an entry after its own word is resolved: definitions, then
/// related words, then synonyms.
pub open spec fn plan_ops(r: RecordView) -> Seq<OpView> {
    senses_ops(r.pos, r.senses) + related_ops(r.related) + synonym_ops(r.synonyms)
}

fn push_definitions(ops: &mut Vec<WriteOp>, pos: &String, sense: &Definition)
    ensures
        final(ops)@.map_values(|o: WriteOp| o@) == old(ops)@.map_values(|o: WriteOp| o@)
            + sense_ops(pos@, sense@),
{
    let mut j: usize = 0;
    while j < sense.glosses.len()
        invariant
            0 <= j <= sense.glosses@.len(),
            ops@.map_values(|o: WriteOp| o@) == old(ops)@.map_values(|o: WriteOp| o@)
                + sense_ops(pos@, sense@.take(j as int)),
        decreases sense.glosses@.len() - j,
    {
        let ghost before = ops@;
        assert(sense@.take(j + 1).drop_last() =~= sense@.take(j as int));
        let gloss = &sense.glosses[j];
        if !gloss.as_str().is_empty() {
            ops.push(WriteOp::Definition { pos: pos.clone(), gloss: gloss.clone() });
            assert(ops@.map_values(|o: WriteOp| o@) =~= before.map_values(|o: WriteOp| o@).push(
                ops@[ops@.len() - 1]@,
            ));
        }
        j += 1;
    }
    assert(sense@.take(j as int) =~= sense@);
}

fn push_edges(ops: &mut Vec<WriteOp>, words: &Vec<Word>, related: bool)
    ensures
        final(ops)@.map_values(|o: WriteOp| o@) == old(ops)@.map_values(|o: WriteOp| o@) + (
        if related {
            related_ops(words@.map_values(|w: Word| w@))
        } else {
            synonym_ops(words@.map_values(|w: Word| w@))
        }),
{
    let ghost targets = words@.map_values(|w: Word| w@);
    let mut k: usize = 0;
    while k < words.len()
        invariant
            0 <= k <= words@.len(),
            targets == words@.map_values(|w: Word| w@),
            ops@.map_values(|o: WriteOp| o@) == old(ops)@.map_values(|o: WriteOp| o@) + (
            if related {
                related_ops(targets.take(k as int))
            } else {
                synonym_ops(targets.take(k as int))
            }),
        decreases words@.len() - k,
    {
        let ghost before = ops@;
        let w = words[k].word.clone();
        if related {
            ops.push(WriteOp::Related(w));
            assert(related_ops(targets.take(k + 1)) =~= related_ops(targets.take(k as int)).push(
                OpView::Related(targets[k as int]),
            ));
        } else {
            ops.push(WriteOp::Synonym(w));
            assert(synonym_ops(targets.take(k + 1)) =~= synonym_ops(targets.take(k as int)).push(
                OpView::Synonym(targets[k as int]),
            ));
        }
        assert(ops@.map_values(|o: WriteOp| o@) =~= before.map_values(|o: WriteOp| o@).push(
            ops@[ops@.len() - 1]@,
        ));
        k += 1;
    }
    assert(targets.take(k as int) =~= targets);
}

impl Record {
    /// The writes that store this entry: its word, then one definition row
    /// per non-empty gloss, then one edge per related word and per synonym.
    pub fn write_plan(&self) -> (p: WritePlan)
        ensures
            p@.0 == self@.word,
            p@.1 == plan_ops(self@),
    {
        let mut ops: Vec<WriteOp> = Vec::new();
        let mut i: usize = 0;
        while i < self.senses.len()
            invariant
                0 <= i <= self.senses@.len(),
                ops@.map_values(|o: WriteOp| o@) == senses_ops(self@.pos, self@.senses.take(i as int)),
            decreases self.senses@.len() - i,
        {
            assert(self@.senses.take(i + 1).drop_last() =~= self@.senses.take(i as int));
            push_definitions(&mut ops, &self.pos, &self.senses[i]);
            i += 1;
        }
        assert(self@.senses.take(i as int) =~= self@.senses);
        push_edges(&mut ops, &self.related, true);
        push_edges(&mut ops, &self.synonyms, false);
        assert(ops@.map_values(|o: WriteOp| o@) =~= plan_ops(self@));
        WritePlan { word: self.word.clone(), ops }
    }
}

} // verus!
