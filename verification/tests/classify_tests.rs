use linenum::classify::{number_all_lines, number_and_increment_non_empty_lines, number_lines};
use linenum::policy::{always_true, is_not_empty, LinePredicate, Policy};

fn strings(raw: &[&str]) -> Vec<String> {
    raw.iter().map(|s| s.to_string()).collect()
}

#[test]
fn predicates() {
    assert!(always_true("anything".to_string()));
    assert!(always_true("".to_string()));
    assert!(is_not_empty("x".to_string()));
    assert!(!is_not_empty("".to_string()));
}

#[test]
fn number_all_assigns_rank_ordinals() {
    let lines = strings(&["alpha", "", "beta", "gamma"]);
    let doc = number_all_lines(&lines);
    assert_eq!(
        doc,
        vec![
            (Some(1), "alpha".to_string()),
            (Some(2), "".to_string()),
            (Some(3), "beta".to_string()),
            (Some(4), "gamma".to_string()),
        ]
    );
}

#[test]
fn skip_empty_numbers_only_non_blank_lines() {
    let lines = strings(&["hello", "", "world", "", ""]);
    let doc = number_and_increment_non_empty_lines(&lines);
    assert_eq!(
        doc,
        vec![
            (Some(1), "hello".to_string()),
            (None, "".to_string()),
            (Some(2), "world".to_string()),
            (None, "".to_string()),
            (None, "".to_string()),
        ]
    );
}

#[test]
fn classification_keeps_one_entry_per_line() {
    let lines = strings(&["a", "", "b", "", "", "c"]);
    assert_eq!(number_all_lines(&lines).len(), lines.len());
    assert_eq!(number_and_increment_non_empty_lines(&lines).len(), lines.len());
}

#[test]
fn empty_document_classifies_to_empty() {
    let lines: Vec<String> = Vec::new();
    assert_eq!(number_all_lines(&lines), vec![]);
    assert_eq!(number_and_increment_non_empty_lines(&lines), vec![]);
}

#[test]
fn show_without_increment_reuses_the_counter() {
    // A policy with distinct predicates: blank lines display the current
    // counter value without consuming it, so the next non-blank line
    // shows the same ordinal.
    let policy = Policy {
        should_incr: LinePredicate::NonEmpty,
        should_number: LinePredicate::AlwaysTrue,
    };
    let lines = strings(&["a", "", "b"]);
    let doc = number_lines(&policy, &lines);
    assert_eq!(
        doc,
        vec![
            (Some(1), "a".to_string()),
            (Some(2), "".to_string()),
            (Some(2), "b".to_string()),
        ]
    );
}
