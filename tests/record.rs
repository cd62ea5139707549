use wiktionary_sql::record::{Definition, Record, Word};

fn s(x: &str) -> String {
    x.to_string()
}

fn sense(glosses: &[&str]) -> Definition {
    Definition::from_field(Some(glosses.iter().map(|g| s(g)).collect()))
}

fn word(w: &str) -> Word {
    Word { word: s(w) }
}

#[test]
fn empty_object_defaults_and_is_filtered() {
    let r = Record::from_fields(None, None, None, None, None);
    assert_eq!(r.word, "");
    assert_eq!(r.pos, "");
    assert!(r.senses.is_empty());
    assert!(r.related.is_empty());
    assert!(r.synonyms.is_empty());
    assert!(!r.has_any_definitions());
    assert_eq!(r.num_definitions(), 0);
}

#[test]
fn present_fields_are_kept() {
    let r = Record::from_fields(
        Some(s("cat")),
        Some(s("noun")),
        Some(vec![sense(&["a feline"])]),
        Some(vec![word("kitten")]),
        Some(vec![word("moggy")]),
    );
    assert_eq!(r.word, "cat");
    assert_eq!(r.pos, "noun");
    assert_eq!(r.senses.len(), 1);
    assert_eq!(r.related[0].word, "kitten");
    assert_eq!(r.synonyms[0].word, "moggy");
}

#[test]
fn absent_gloss_list_is_empty() {
    let d = Definition::from_field(None);
    assert_eq!(d.len(), 0);
    assert_eq!(sense(&["a", "b"]).len(), 2);
}

#[test]
fn only_empty_senses_have_no_definitions() {
    let r = Record::from_fields(Some(s("x")), None, Some(vec![sense(&[]), sense(&[])]), None, None);
    assert!(!r.has_any_definitions());
    assert_eq!(r.num_definitions(), 0);
}

#[test]
fn one_non_empty_sense_is_enough() {
    let r = Record::from_fields(
        Some(s("x")),
        None,
        Some(vec![sense(&[]), sense(&["g1", "g2"]), sense(&["g3"])]),
        None,
        None,
    );
    assert!(r.has_any_definitions());
    assert_eq!(r.num_definitions(), 3);
}

#[test]
fn word_reference_converts_to_its_string() {
    let w = word("kitten");
    assert_eq!(w.as_ref(), "kitten");
    let t: String = String::from(w);
    assert_eq!(t, "kitten");
}
