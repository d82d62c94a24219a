use rmenu::text::{chars_of, contains, spells};

#[test]
fn chars_of_gives_the_characters_in_order() {
    assert_eq!(chars_of("abc"), vec!['a', 'b', 'c']);
    assert_eq!(chars_of(""), Vec::<char>::new());
    assert_eq!(chars_of("né"), vec!['n', 'é']);
}

#[test]
fn spells_compares_the_whole_text() {
    assert!(spells(&vec!['s', 't'], "st"));
    assert!(!spells(&vec!['s', 't'], "s"));
    assert!(!spells(&vec!['s'], "st"));
    assert!(!spells(&vec!['s', 't'], "sx"));
    assert!(spells(&Vec::new(), ""));
    assert!(!spells(&Vec::new(), "a"));
}

#[test]
fn contains_finds_a_run_at_the_start_the_middle_and_the_end() {
    assert!(contains("firefox", "fire"));
    assert!(contains("firefox", "ref"));
    assert!(contains("firefox", "fox"));
    assert!(contains("firefox", "firefox"));
}

#[test]
fn contains_rejects_what_is_not_a_contiguous_run() {
    assert!(!contains("firefox", "frx"));
    assert!(!contains("firefox", "foxy"));
    assert!(!contains("firefox", "Fire"));
    assert!(!contains("fox", "firefox"));
}

#[test]
fn contains_finds_the_empty_text_everywhere() {
    assert!(contains("firefox", ""));
    assert!(contains("", ""));
    assert!(!contains("", "a"));
}

#[test]
fn contains_goes_by_characters() {
    assert!(contains("café au lait", "é a"));
    assert!(!contains("cafe", "é"));
}

#[test]
fn contains_agrees_with_the_standard_library() {
    let texts = ["", "a", "aa", "ab", "aab", "abab", "b.desktop", ".desk.desktop"];
    for haystack in texts {
        for needle in texts {
            assert_eq!(contains(haystack, needle), haystack.contains(needle));
        }
    }
}
