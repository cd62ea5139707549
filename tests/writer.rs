use std::collections::{BTreeMap, BTreeSet};

use wiktionary_sql::pipeline::{Action, Pipeline, RunState};
use wiktionary_sql::plan::WritePlan;
use wiktionary_sql::record::{Definition, Record, Word};
use wiktionary_sql::writer::{Reply, Stage, StoreAction, WriteSession};

fn s(x: &str) -> String {
    x.to_string()
}

fn entry(w: &str, pos: &str, glosses: &[&str], related: &[&str], synonyms: &[&str]) -> Record {
    let d = Definition::from_field(Some(glosses.iter().map(|g| s(g)).collect()));
    let words = |v: &[&str]| -> Vec<Word> { v.iter().map(|x| Word { word: s(x) }).collect() };
    Record::from_fields(Some(s(w)), Some(s(pos)), Some(vec![d]), Some(words(related)), Some(words(synonyms)))
}

/// A small stand-in for the relational store, answering session actions.
#[derive(Clone, PartialEq, Debug, Default)]
struct Tables {
    ids: BTreeMap<String, i64>,
    next: i64,
    defs: BTreeSet<(i64, String, String)>,
    related: BTreeSet<(i64, i64)>,
    synonyms: BTreeSet<(i64, i64)>,
}

impl Tables {
    fn new() -> Tables {
        Tables { next: 1, ..Default::default() }
    }
}

/// Runs a plan against `committed`; the reply to action number `fail_at`
/// is a failure. Returns whether the session committed and its actions.
fn run(committed: &mut Tables, plan: WritePlan, fail_at: Option<usize>) -> (bool, Vec<String>) {
    let mut work = committed.clone();
    let (mut session, mut action) = WriteSession::start(plan);
    let mut log = Vec::new();
    let mut n = 0usize;
    loop {
        log.push(describe(&action));
        let fail = fail_at == Some(n);
        n += 1;
        let reply = match &action {
            StoreAction::Done | StoreAction::Rollback => break,
            _ if fail => Reply::Failed,
            StoreAction::EnsureWord(w) => {
                if !work.ids.contains_key(w) {
                    work.ids.insert(w.clone(), work.next);
                    work.next += 1;
                }
                Reply::Applied
            }
            StoreAction::LookupWordId(w) => match work.ids.get(w) {
                Some(id) => Reply::WordId(*id),
                None => Reply::Failed,
            },
            StoreAction::InsertDefinition { word_id, pos, gloss } => {
                work.defs.insert((*word_id, pos.clone(), gloss.clone()));
                Reply::Applied
            }
            StoreAction::InsertRelated { word_id, other_id } => {
                work.related.insert((*word_id, *other_id));
                Reply::Applied
            }
            StoreAction::InsertSynonym { word_id, other_id } => {
                work.synonyms.insert((*word_id, *other_id));
                Reply::Applied
            }
            StoreAction::Commit => {
                *committed = work.clone();
                Reply::Applied
            }
        };
        action = session.on_reply(reply);
    }
    (session.committed(), log)
}

fn describe(a: &StoreAction) -> String {
    match a {
        StoreAction::EnsureWord(w) => format!("ensure {}", w),
        StoreAction::LookupWordId(w) => format!("lookup {}", w),
        StoreAction::InsertDefinition { word_id, pos, gloss } => {
            format!("definition {} {} {}", word_id, pos, gloss)
        }
        StoreAction::InsertRelated { word_id, other_id } => format!("related {} {}", word_id, other_id),
        StoreAction::InsertSynonym { word_id, other_id } => format!("synonym {} {}", word_id, other_id),
        StoreAction::Commit => s("commit"),
        StoreAction::Rollback => s("rollback"),
        StoreAction::Done => s("done"),
    }
}

/// Feeds decoded lines (`None`: a line that does not decode) through a run.
fn ingest(store: &mut Tables, lines: Vec<Option<Record>>) -> Pipeline {
    let mut p = Pipeline::new();
    let mut it = lines.into_iter();
    while !p.is_finished() {
        match it.next() {
            None => {
                p.on_end_of_input();
            }
            Some(None) => {
                p.on_decode_error();
            }
            Some(Some(r)) => {
                if p.on_record(&r) == Action::Write {
                    let (ok, _) = run(store, r.write_plan(), None);
                    p.on_write_result(ok);
                }
            }
        }
    }
    p
}

fn cat() -> Record {
    entry("cat", "noun", &["a feline"], &["kitten"], &[])
}

fn kitten() -> Record {
    entry("kitten", "noun", &["a young cat"], &[], &[])
}

#[test]
fn session_actions_for_one_entry() {
    let mut t = Tables::new();
    let (ok, log) = run(&mut t, cat().write_plan(), None);
    assert!(ok);
    assert_eq!(
        log,
        vec![
            "ensure cat",
            "lookup cat",
            "definition 1 noun a feline",
            "ensure kitten",
            "lookup kitten",
            "related 1 2",
            "commit",
            "done"
        ]
    );
}

#[test]
fn end_to_end_two_entries() {
    let mut t = Tables::new();
    let p = ingest(&mut t, vec![Some(cat()), Some(kitten())]);
    assert!(p.succeeded());
    assert_eq!(t.ids.len(), 2);
    let c = t.ids["cat"];
    let k = t.ids["kitten"];
    let want: BTreeSet<(i64, String, String)> =
        [(c, s("noun"), s("a feline")), (k, s("noun"), s("a young cat"))].into_iter().collect();
    assert_eq!(t.defs, want);
    assert_eq!(t.related, [(c, k)].into_iter().collect());
    assert!(t.synonyms.is_empty());
}

#[test]
fn writing_an_entry_twice_changes_nothing() {
    let mut once = Tables::new();
    let r = entry("run", "verb", &["to move fast", "to operate"], &["sprint"], &["dash", "run"]);
    assert!(run(&mut once, r.write_plan(), None).0);
    let mut twice = once.clone();
    assert!(run(&mut twice, r.write_plan(), None).0);
    assert_eq!(once, twice);
}

#[test]
fn a_word_keeps_its_identity() {
    let mut t = Tables::new();
    assert!(run(&mut t, cat().write_plan(), None).0);
    let before = t.ids.clone();
    assert!(run(&mut t, entry("kitten", "noun", &["small"], &["cat"], &["cat"]).write_plan(), None).0);
    assert_eq!(t.ids, before);
    assert_eq!(t.synonyms, [(before["kitten"], before["cat"])].into_iter().collect());
}

#[test]
fn failure_mid_entry_rolls_back_everything() {
    let mut t = Tables::new();
    assert!(run(&mut t, kitten().write_plan(), None).0);
    let before = t.clone();
    // Action 4 is the lookup of the related word.
    let (ok, log) = run(&mut t, cat().write_plan(), Some(4));
    assert!(!ok);
    assert_eq!(log.last().map(|x| x.as_str()), Some("rollback"));
    assert!(!log.contains(&s("commit")));
    assert_eq!(t, before);
}

#[test]
fn failed_commit_is_not_success() {
    let mut t = Tables::new();
    let (ok, log) = run(&mut t, kitten().write_plan(), Some(3));
    assert_eq!(log[3], "commit");
    assert!(!ok);
    assert_eq!(log.last().map(|x| x.as_str()), Some("rollback"));
}

#[test]
fn unexpected_reply_rolls_back() {
    let (mut session, _) = WriteSession::start(kitten().write_plan());
    assert_eq!(describe(&session.on_reply(Reply::WordId(7))), "rollback");
    assert_eq!(session.stage, Stage::Finished(false));
    assert!(session.is_finished());
    assert_eq!(describe(&session.on_reply(Reply::Applied)), "done");
    assert!(!session.committed());
}

#[test]
fn bad_line_stops_the_run_and_keeps_earlier_entries() {
    let mut t = Tables::new();
    let p = ingest(&mut t, vec![Some(kitten()), None, Some(cat())]);
    assert_eq!(p.state, RunState::Failed);
    assert_eq!(t.ids.len(), 1);
    assert!(t.ids.contains_key("kitten"));
    assert_eq!(t.defs.len(), 1);
    assert!(t.related.is_empty());
}

#[test]
fn entry_without_definitions_is_not_written() {
    let mut t = Tables::new();
    let empty = Record::from_fields(Some(s("ghost")), None, None, Some(vec![Word { word: s("x") }]), None);
    let p = ingest(&mut t, vec![Some(empty), Some(kitten())]);
    assert!(p.succeeded());
    assert!(!t.ids.contains_key("ghost"));
    assert!(!t.ids.contains_key("x"));
    assert_eq!(t.ids.len(), 1);
}
