use linenum::pipeline::{reverse_rows, run_pipeline};
use linenum::render::RenderError;

fn strings(raw: &[&str]) -> Vec<String> {
    raw.iter().map(|s| s.to_string()).collect()
}

#[test]
fn reverse_rows_reverses_order() {
    let rows = strings(&["a", "b", "c"]);
    assert_eq!(reverse_rows(rows), strings(&["c", "b", "a"]));
}

#[test]
fn skip_empty_left_pad_scenario() {
    // Lines ["hello", "", "world"] under the skip-empty policy, numbers
    // right-aligned: the column is 5 wide (from "hello"/"world"), the
    // blank line renders as an empty number padded to the column plus
    // the separating space.
    let lines = strings(&["hello", "", "world"]);
    let rows = run_pipeline(&lines, true, false, false).unwrap();
    assert_eq!(rows, strings(&["    1 hello", "      ", "    2 world"]));
}

#[test]
fn reverse_left_align_scenario() {
    // Flags --reverse --left-align on ["a", "bb", "ccc"] under the
    // number-all policy: numbers are right-padded to width 3, and the
    // rendered list is reversed.
    let lines = strings(&["a", "bb", "ccc"]);
    let rows = run_pipeline(&lines, false, true, true).unwrap();
    assert_eq!(rows, strings(&["3   ccc", "2   bb", "1   a"]));
}

#[test]
fn empty_file_gives_empty_output() {
    let lines: Vec<String> = Vec::new();
    assert_eq!(run_pipeline(&lines, false, false, false).unwrap(), Vec::<String>::new());
    assert_eq!(run_pipeline(&lines, true, true, true).unwrap(), Vec::<String>::new());
}

#[test]
fn single_line_file() {
    // The column is exactly as wide as the single line, and its ordinal is 1.
    let lines = strings(&["hi"]);
    let rows = run_pipeline(&lines, false, false, false).unwrap();
    assert_eq!(rows, strings(&[" 1 hi"]));
}

#[test]
fn single_empty_line_cannot_fit_its_ordinal() {
    // One empty line under number-all: the column is 0 wide, but the
    // digit 1 needs one character.
    let lines = strings(&[""]);
    assert_eq!(
        run_pipeline(&lines, false, false, false),
        Err(RenderError::NumberTooWide)
    );
}

#[test]
fn rerunning_gives_identical_output() {
    let lines = strings(&["one", "", "two", "three", ""]);
    for &skip in &[false, true] {
        for &left in &[false, true] {
            for &rev in &[false, true] {
                let first = run_pipeline(&lines, skip, left, rev);
                let second = run_pipeline(&lines, skip, left, rev);
                assert_eq!(first, second);
            }
        }
    }
}

#[test]
fn reversal_is_a_permutation_of_the_forward_rendering() {
    let lines = strings(&["pear", "fig", "", "plum"]);
    let forward = run_pipeline(&lines, true, false, false).unwrap();
    let reversed = run_pipeline(&lines, true, false, true).unwrap();
    assert_eq!(reversed.len(), forward.len());
    let mut f_sorted = forward.clone();
    f_sorted.sort();
    let mut r_sorted = reversed.clone();
    r_sorted.sort();
    assert_eq!(f_sorted, r_sorted);
    // And the reversal is exactly the forward rendering backwards.
    let mut back = reversed.clone();
    back.reverse();
    assert_eq!(back, forward);
}

#[test]
fn ordinals_are_forward_even_when_reversed() {
    let lines = strings(&["aa", "bb"]);
    let rows = run_pipeline(&lines, false, false, true).unwrap();
    assert_eq!(rows, strings(&[" 2 bb", " 1 aa"]));
}
