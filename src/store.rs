use vstd::prelude::*;

use crate::plan::{plan_ops, OpView};
use crate::record::RecordView;

verus! {

/// The four tables of the store, as mathematics. `ids` is the `words`
/// table: each stored word and its identity; `next_id` is the identity the
/// next new word receives.
pub struct Tables {
    pub ids: Map<Seq<char>, int>,
    pub next_id: int,
    pub definitions: Set<(int, Seq<char>, Seq<char>)>,
    pub related: Set<(int, int)>,
    pub synonyms: Set<(int, int)>,
}

/// A store with no rows.
pub open spec fn empty_tables() -> Tables {
    Tables {
        ids: Map::empty(),
        next_id: 1,
        definitions: Set::empty(),
        related: Set::empty(),
        synonyms: Set::empty(),
    }
}

/// `i` is the identity of some stored word.
pub open spec fn is_word_id(t: Tables, i: int) -> bool {
    exists|w: Seq<char>| t.ids.contains_key(w) && #[trigger] t.ids[w] == i
}

/// Store invariant: identities are positive, below `next_id` and distinct,
/// and every identity that a row of another table holds is a stored word's.
pub open spec fn wf(t: Tables) -> bool {
    &&& 1 <= t.next_id
    &&& forall|w: Seq<char>| #[trigger] t.ids.contains_key(w) ==> 1 <= t.ids[w] < t.next_id
    &&& forall|v: Seq<char>, w: Seq<char>|
        t.ids.contains_key(v) && t.ids.contains_key(w) && v != w ==> #[trigger] t.ids[v]
            != #[trigger] t.ids[w]
    &&& forall|e: (int, Seq<char>, Seq<char>)| #[trigger]
        t.definitions.contains(e) ==> is_word_id(t, e.0)
    &&& forall|e: (int, int)| #[trigger]
        t.related.contains(e) ==> is_word_id(t, e.0) && is_word_id(t, e.1)
    &&& forall|e: (int, int)| #[trigger]
        t.synonyms.contains(e) ==> is_word_id(t, e.0) && is_word_id(t, e.1)
}

/// Insert the word unless a row with exactly that string exists; a new word
/// receives `next_id`.
pub open spec fn ensure_word(t: Tables, w: Seq<char>) -> Tables {
    if t.ids.contains_key(w) {
        t
    } else {
        Tables {
            ids: t.ids.insert(w, t.next_id),
            next_id: t.next_id + 1,
            definitions: t.definitions,
            related: t.related,
            synonyms: t.synonyms,
        }
    }
}

/// Effect of one write of an entry whose word has identity `wid`.
pub open spec fn apply_op(t: Tables, wid: int, op: OpView) -> Tables {
    match op {
        OpView::Definition { pos, gloss } => Tables {
            ids: t.ids,
            next_id: t.next_id,
            definitions: t.definitions.insert((wid, pos, gloss)),
            related: t.related,
            synonyms: t.synonyms,
        },
        OpView::Related(w) => {
            let s = ensure_word(t, w);
            Tables {
                ids: s.ids,
                next_id: s.next_id,
                definitions: s.definitions,
                related: s.related.insert((wid, s.ids[w])),
                synonyms: s.synonyms,
            }
        },
        OpView::Synonym(w) => {
            let s = ensure_word(t, w);
            Tables {
                ids: s.ids,
                next_id: s.next_id,
                definitions: s.definitions,
                related: s.related,
                synonyms: s.synonyms.insert((wid, s.ids[w])),
            }
        },
    }
}

/// Effect of a sequence of writes, first to last.
pub open spec fn apply_ops(t: Tables, wid: int, ops: Seq<OpView>) -> Tables
    decreases ops.len(),
{
    if ops.len() == 0 {
        t
    } else {
        apply_ops(apply_op(t, wid, ops[0]), wid, ops.drop_first())
    }
}

/// The store after one entry is committed: its word is resolved, then its
/// planned writes run against that identity.
pub open spec fn write_record(t: Tables, r: RecordView) -> Tables {
    let s = ensure_word(t, r.word);
    apply_ops(s, s.ids[r.word], plan_ops(r))
}

/// Every word of `small` is in `big`, with the same identity.
pub open spec fn keeps_ids(big: Tables, small: Tables) -> bool {
    forall|w: Seq<char>| #[trigger]
        small.ids.contains_key(w) ==> big.ids.contains_key(w) && big.ids[w] == small.ids[w]
}

/// Every row of `small` is in `big`, and every word of `small` keeps its
/// identity in `big`.
pub open spec fn absorbs(big: Tables, small: Tables) -> bool {
    &&& keeps_ids(big, small)
    &&& small.definitions.subset_of(big.definitions)
    &&& small.related.subset_of(big.related)
    &&& small.synonyms.subset_of(big.synonyms)
}

proof fn lemma_absorbs_trans(a: Tables, b: Tables, c: Tables)
    requires
        absorbs(a, b),
        absorbs(b, c),
    ensures
        absorbs(a, c),
{
    assert forall|w: Seq<char>| #[trigger] c.ids.contains_key(w) implies a.ids.contains_key(w)
        && a.ids[w] == c.ids[w] by {
        assert(b.ids.contains_key(w));
    }
}

proof fn lemma_op_grows(t: Tables, wid: int, op: OpView)
    ensures
        absorbs(apply_op(t, wid, op), t),
{
    match op {
        OpView::Definition { .. } => {},
        OpView::Related(w) => {
            lemma_resolve_stable(t, w);
        },
        OpView::Synonym(w) => {
            lemma_resolve_stable(t, w);
        },
    }
}

proof fn lemma_ops_grow(t: Tables, wid: int, ops: Seq<OpView>)
    ensures
        absorbs(apply_ops(t, wid, ops), t),
    decreases ops.len(),
{
    if ops.len() > 0 {
        let t1 = apply_op(t, wid, ops[0]);
        lemma_op_grows(t, wid, ops[0]);
        lemma_ops_grow(t1, wid, ops.drop_first());
        lemma_absorbs_trans(apply_ops(t, wid, ops), t1, t);
    }
}

proof fn lemma_ops_absorbed(t: Tables, wid: int, ops: Seq<OpView>, big: Tables)
    requires
        absorbs(big, apply_ops(t, wid, ops)),
    ensures
        apply_ops(big, wid, ops) == big,
    decreases ops.len(),
{
    if ops.len() > 0 {
        let t1 = apply_op(t, wid, ops[0]);
        lemma_ops_grow(t1, wid, ops.drop_first());
        lemma_absorbs_trans(big, apply_ops(t1, wid, ops.drop_first()), t1);
        match ops[0] {
            OpView::Definition { pos, gloss } => {
                assert(big.definitions.insert((wid, pos, gloss)) =~= big.definitions);
            },
            OpView::Related(w) => {
                let s = ensure_word(t, w);
                lemma_resolve_stable(t, w);
                assert(t1.ids.contains_key(w));
                assert(big.ids.contains_key(w));
                assert(ensure_word(big, w) == big);
                assert(big.related.insert((wid, s.ids[w])) =~= big.related);
            },
            OpView::Synonym(w) => {
                let s = ensure_word(t, w);
                lemma_resolve_stable(t, w);
                assert(t1.ids.contains_key(w));
                assert(big.ids.contains_key(w));
                assert(ensure_word(big, w) == big);
                assert(big.synonyms.insert((wid, s.ids[w])) =~= big.synonyms);
            },
        }
        assert(apply_op(big, wid, ops[0]) == big);
        lemma_ops_absorbed(t1, wid, ops.drop_first(), big);
    }
}

/// Resolving a word stores it, never changes the identity of a word already
/// stored, and resolving it again changes nothing: the same word always has
/// the same identity and is never stored twice.
pub proof fn lemma_resolve_stable(t: Tables, w: Seq<char>)
    ensures
        ensure_word(t, w).ids.contains_key(w),
        ensure_word(t, w).ids[w] == if t.ids.contains_key(w) {
            t.ids[w]
        } else {
            t.next_id
        },
        keeps_ids(ensure_word(t, w), t),
        absorbs(ensure_word(t, w), t),
        t.ids.contains_key(w) ==> ensure_word(t, w) == t,
        ensure_word(ensure_word(t, w), w) == ensure_word(t, w),
        wf(t) ==> wf(ensure_word(t, w)),
{
    let s = ensure_word(t, w);
    if !t.ids.contains_key(w) {
        assert forall|v: Seq<char>| #[trigger] t.ids.contains_key(v) implies s.ids.contains_key(v)
            && s.ids[v] == t.ids[v] by {
            assert(v != w);
        }
        if wf(t) {
            assert forall|i: int| is_word_id(t, i) implies is_word_id(s, i) by {
                let v = choose|v: Seq<char>| t.ids.contains_key(v) && #[trigger] t.ids[v] == i;
                assert(s.ids.contains_key(v) && s.ids[v] == i);
            }
            assert forall|u: Seq<char>, v: Seq<char>|
                s.ids.contains_key(u) && s.ids.contains_key(v) && u != v implies #[trigger] s.ids[u]
                != #[trigger] s.ids[v] by {
                if u != w && v != w {
                    assert(t.ids[u] != t.ids[v]);
                }
            }
        }
    }
}

/// Committing an entry never removes a row nor changes a stored word's
/// identity.
pub proof fn lemma_write_keeps_rows(t: Tables, r: RecordView)
    ensures
        absorbs(write_record(t, r), t),
{
    let s = ensure_word(t, r.word);
    lemma_resolve_stable(t, r.word);
    lemma_ops_grow(s, s.ids[r.word], plan_ops(r));
    lemma_absorbs_trans(write_record(t, r), s, t);
}

/// Writing the same entry twice leaves the same tables as writing it once.
pub proof fn lemma_write_twice(t: Tables, r: RecordView)
    ensures
        write_record(write_record(t, r), r) == write_record(t, r),
{
    let s = ensure_word(t, r.word);
    let wid = s.ids[r.word];
    let t1 = write_record(t, r);
    lemma_resolve_stable(t, r.word);
    lemma_ops_grow(s, wid, plan_ops(r));
    assert(t1.ids.contains_key(r.word));
    assert(ensure_word(t1, r.word) == t1);
    lemma_ops_absorbed(s, wid, plan_ops(r), t1);
}

proof fn lemma_word_id_kept(big: Tables, small: Tables, i: int)
    requires
        keeps_ids(big, small),
        is_word_id(small, i),
    ensures
        is_word_id(big, i),
{
    let w = choose|w: Seq<char>| small.ids.contains_key(w) && #[trigger] small.ids[w] == i;
    assert(big.ids.contains_key(w) && big.ids[w] == i);
}

proof fn lemma_ops_wf(t: Tables, wid: int, ops: Seq<OpView>)
    requires
        wf(t),
        is_word_id(t, wid),
    ensures
        wf(apply_ops(t, wid, ops)),
    decreases ops.len(),
{
    if ops.len() > 0 {
        let t1 = apply_op(t, wid, ops[0]);
        match ops[0] {
            OpView::Definition { .. } => {
                assert forall|i: int| is_word_id(t, i) implies is_word_id(t1, i) by {
                    lemma_word_id_kept(t1, t, i);
                }
            },
            OpView::Related(w) => {
                let s = ensure_word(t, w);
                lemma_resolve_stable(t, w);
                lemma_word_id_kept(s, t, wid);
                assert(s.ids[w] == s.ids[w]);
                assert(is_word_id(s, s.ids[w]));
                assert forall|i: int| is_word_id(s, i) implies is_word_id(t1, i) by {
                    lemma_word_id_kept(t1, s, i);
                }
            },
            OpView::Synonym(w) => {
                let s = ensure_word(t, w);
                lemma_resolve_stable(t, w);
                lemma_word_id_kept(s, t, wid);
                assert(s.ids[w] == s.ids[w]);
                assert(is_word_id(s, s.ids[w]));
                assert forall|i: int| is_word_id(s, i) implies is_word_id(t1, i) by {
                    lemma_word_id_kept(t1, s, i);
                }
            },
        }
        assert(wf(t1));
        lemma_op_grows(t, wid, ops[0]);
        lemma_word_id_kept(t1, t, wid);
        lemma_ops_wf(t1, wid, ops.drop_first());
    }
}

/// Committing an entry keeps the store invariant: identities stay distinct
/// and every row refers only to stored words.
pub proof fn lemma_write_wf(t: Tables, r: RecordView)
    requires
        wf(t),
    ensures
        wf(write_record(t, r)),
{
    let s = ensure_word(t, r.word);
    lemma_resolve_stable(t, r.word);
    assert(s.ids[r.word] == s.ids[r.word]);
    assert(is_word_id(s, s.ids[r.word]));
    lemma_ops_wf(s, s.ids[r.word], plan_ops(r));
}

/// The empty store satisfies the store invariant.
pub proof fn lemma_empty_wf()
    ensures
        wf(empty_tables()),
{
}

} // verus!
