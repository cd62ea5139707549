use wiktionary_sql::plan::WriteOp;
use wiktionary_sql::record::{Definition, Record, Word};

fn s(x: &str) -> String {
    x.to_string()
}

fn sense(glosses: &[&str]) -> Definition {
    Definition::from_field(Some(glosses.iter().map(|g| s(g)).collect()))
}

fn word(w: &str) -> Word {
    Word { word: s(w) }
}

fn def(pos: &str, gloss: &str) -> WriteOp {
    WriteOp::Definition { pos: s(pos), gloss: s(gloss) }
}

fn same(a: &WriteOp, b: &WriteOp) -> bool {
    match (a, b) {
        (WriteOp::Definition { pos: p1, gloss: g1 }, WriteOp::Definition { pos: p2, gloss: g2 }) => {
            p1 == p2 && g1 == g2
        }
        (WriteOp::Related(x), WriteOp::Related(y)) => x == y,
        (WriteOp::Synonym(x), WriteOp::Synonym(y)) => x == y,
        _ => false,
    }
}

fn assert_ops(got: &[WriteOp], want: &[WriteOp]) {
    assert_eq!(got.len(), want.len());
    for (g, w) in got.iter().zip(want.iter()) {
        assert!(same(g, w));
    }
}

#[test]
fn cat_and_kitten_plans() {
    let cat = Record::from_fields(
        Some(s("cat")),
        Some(s("noun")),
        Some(vec![sense(&["a feline"])]),
        Some(vec![word("kitten")]),
        None,
    );
    let kitten = Record::from_fields(
        Some(s("kitten")),
        Some(s("noun")),
        Some(vec![sense(&["a young cat"])]),
        None,
        None,
    );
    let p = cat.write_plan();
    assert_eq!(p.word, "cat");
    assert_ops(&p.ops, &[def("noun", "a feline"), WriteOp::Related(s("kitten"))]);
    let q = kitten.write_plan();
    assert_eq!(q.word, "kitten");
    assert_ops(&q.ops, &[def("noun", "a young cat")]);
}

#[test]
fn plan_order_is_definitions_related_synonyms() {
    let r = Record::from_fields(
        Some(s("run")),
        Some(s("")),
        Some(vec![sense(&["g1", "g2"]), sense(&["g3"])]),
        Some(vec![word("sprint"), word("jog")]),
        Some(vec![word("dash")]),
    );
    let p = r.write_plan();
    assert_ops(
        &p.ops,
        &[
            def("", "g1"),
            def("", "g2"),
            def("", "g3"),
            WriteOp::Related(s("sprint")),
            WriteOp::Related(s("jog")),
            WriteOp::Synonym(s("dash")),
        ],
    );
}

#[test]
fn empty_gloss_strings_are_not_written() {
    let r = Record::from_fields(
        Some(s("a")),
        Some(s("noun")),
        Some(vec![sense(&["", "x", ""])]),
        None,
        None,
    );
    assert_ops(&r.write_plan().ops, &[def("noun", "x")]);
}

#[test]
fn self_reference_is_kept() {
    let r = Record::from_fields(
        Some(s("a")),
        None,
        Some(vec![sense(&["x"])]),
        Some(vec![word("a")]),
        Some(vec![word("a")]),
    );
    assert_ops(
        &r.write_plan().ops,
        &[def("", "x"), WriteOp::Related(s("a")), WriteOp::Synonym(s("a"))],
    );
}

#[test]
fn same_record_gives_same_plan() {
    let r = Record::from_fields(
        Some(s("dog")),
        Some(s("noun")),
        Some(vec![sense(&["a canine"])]),
        Some(vec![word("puppy")]),
        None,
    );
    let a = r.write_plan();
    let b = r.write_plan();
    assert_eq!(a.word, b.word);
    assert_ops(&a.ops, &b.ops);
}
