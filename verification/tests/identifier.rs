use laravel_maker::kebab::{format_to_kebab_case, kebab_from_lowered};

fn is_normalized(s: &str) -> bool {
    !s.starts_with('-')
        && !s.ends_with('-')
        && !s.contains("--")
        && s.chars().all(|c| c.is_ascii_lowercase() || c.is_ascii_digit() || c == '-')
}

#[test]
fn example_identifier_is_normalized() {
    assert_eq!(format_to_kebab_case("Demo_App!!"), "demo-app");
}

#[test]
fn words_are_joined_by_single_hyphens() {
    assert_eq!(format_to_kebab_case("My  Cool   Project"), "my-cool-project");
    assert_eq!(format_to_kebab_case("a_b.c/d"), "a-b-c-d");
    assert_eq!(format_to_kebab_case("a - b"), "a-b");
    assert_eq!(format_to_kebab_case("a--b"), "a-b");
    assert_eq!(format_to_kebab_case("a -- - b"), "a-b");
    assert_eq!(format_to_kebab_case("a\tb\nc"), "a-b-c");
}

#[test]
fn separators_at_the_ends_are_dropped() {
    assert_eq!(format_to_kebab_case("--a--"), "a");
    assert_eq!(format_to_kebab_case("  a  "), "a");
    assert_eq!(format_to_kebab_case("- a -"), "a");
    assert_eq!(format_to_kebab_case("!!a"), "a");
    assert_eq!(format_to_kebab_case("a!!"), "a");
}

#[test]
fn text_without_words_gives_nothing() {
    assert_eq!(format_to_kebab_case(""), "");
    assert_eq!(format_to_kebab_case("!!!"), "");
    assert_eq!(format_to_kebab_case("---"), "");
    assert_eq!(format_to_kebab_case(" - - "), "");
}

#[test]
fn digits_and_letters_are_kept() {
    assert_eq!(format_to_kebab_case("app2"), "app2");
    assert_eq!(format_to_kebab_case("2fast4you"), "2fast4you");
    assert_eq!(format_to_kebab_case("x"), "x");
}

#[test]
fn upper_case_becomes_lower_case() {
    assert_eq!(format_to_kebab_case("ABC"), "abc");
    assert_eq!(format_to_kebab_case("CamelCase"), "camelcase");
}

#[test]
fn lower_case_is_taken_before_words_are_found() {
    // The Kelvin sign has the ASCII letter k as its lower case.
    assert_eq!(format_to_kebab_case("\u{212A}elvin"), "kelvin");
    // The dotted capital I becomes an i and a combining dot, which separates.
    assert_eq!(format_to_kebab_case("\u{130}stanbul"), "i-stanbul");
}

#[test]
fn other_alphabets_separate_words() {
    assert_eq!(format_to_kebab_case("caf\u{e9} au lait"), "caf-au-lait");
    assert_eq!(format_to_kebab_case("\u{e9}t\u{e9}"), "t");
    assert_eq!(format_to_kebab_case("\u{442}\u{435}\u{441}\u{442}"), "");
}

#[test]
fn normalizing_twice_changes_nothing() {
    let inputs = [
        "Demo_App!!",
        "  a  b  ",
        "--x--y--",
        "",
        "\u{212A}elvin \u{130}stanbul",
        "already-normal-1",
        "A",
        "-",
    ];
    for input in inputs {
        let once = format_to_kebab_case(input);
        let twice = format_to_kebab_case(&once);
        assert_eq!(once, twice);
    }
}

#[test]
fn a_normalized_identifier_is_returned_unchanged() {
    for id in ["demo-app", "a", "a-b-c", "x1-y2", "0", ""] {
        assert_eq!(format_to_kebab_case(id), id);
    }
}

#[test]
fn results_are_always_normalized() {
    let inputs = [
        "Demo_App!!",
        "-a",
        "a-",
        "a---b",
        "___",
        " A  B ",
        "a\u{301}b",
        "\u{1F600}smile\u{1F600}",
        "tab\tseparated",
    ];
    for input in inputs {
        let id = format_to_kebab_case(input);
        assert!(is_normalized(&id));
    }
}

#[test]
fn joining_words_keeps_each_word_as_written() {
    assert_eq!(kebab_from_lowered("ABC def"), "ABC-def");
    assert_eq!(kebab_from_lowered("a - b"), "a-b");
    assert_eq!(kebab_from_lowered("-a"), "a");
    assert_eq!(kebab_from_lowered("a-"), "a");
    assert_eq!(kebab_from_lowered(""), "");
    assert_eq!(kebab_from_lowered("one"), "one");
    assert_eq!(kebab_from_lowered("a!b?c"), "a-b-c");
}

#[test]
fn a_run_of_separators_is_one_hyphen() {
    let left = "left";
    let right = "right";
    for sep in [" ", "   ", "-", "---", " - ", "_", "!?.,", "\u{e9}\u{e9}", "\n\t"] {
        let text = format!("{}{}{}", left, sep, right);
        assert_eq!(kebab_from_lowered(&text), "left-right");
    }
}
