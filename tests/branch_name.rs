use labtohub::branch_name::branch_name_from_message;

fn is_valid_name(s: &str) -> bool {
    !s.is_empty()
        && s.chars().all(|c| c.is_ascii_lowercase() || c.is_ascii_digit() || c == '-')
        && !s.starts_with('-')
        && !s.ends_with('-')
        && !s.contains("--")
}

#[test]
fn empty_message_gives_fallback() {
    assert_eq!(branch_name_from_message(""), "new");
}

#[test]
fn punctuation_only_gives_fallback() {
    assert_eq!(branch_name_from_message("!!!"), "new");
}

#[test]
fn words_and_number() {
    assert_eq!(branch_name_from_message("Fix Bug #123"), "fix-bug-123");
}

#[test]
fn hyphen_runs_collapse() {
    assert_eq!(branch_name_from_message("a--b---c"), "a-b-c");
}

#[test]
fn surrounding_space_and_hyphens_are_dropped() {
    assert_eq!(branch_name_from_message("  --Hello World--  "), "hello-world");
}

#[test]
fn non_ascii_letters_separate_words() {
    assert_eq!(branch_name_from_message("Ünïcode"), "n-code");
}

#[test]
fn fallback_word_is_a_fixed_point() {
    assert_eq!(branch_name_from_message("new"), "new");
}

#[test]
fn every_name_has_the_branch_shape() {
    let inputs = [
        "",
        "-",
        "A",
        "Release v1.2.3 (final)",
        "__init__",
        "tab\tand\nnewline",
        "ÄÖÜ",
        "x-y",
        "UPPER lower 42",
    ];
    for s in inputs.iter() {
        let name = branch_name_from_message(s);
        assert!(is_valid_name(&name), "{:?} -> {:?}", s, name);
    }
}

#[test]
fn deriving_twice_changes_nothing() {
    let inputs = ["", "!!!", "Fix Bug #123", "a--b---c", "  Mixed CASE -- text 9 ", "ÿes"];
    for s in inputs.iter() {
        let once = branch_name_from_message(s);
        let twice = branch_name_from_message(&once);
        assert_eq!(once, twice);
    }
}
