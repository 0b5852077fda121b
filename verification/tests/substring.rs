use basics::substring::find_substr_pos;

#[test]
fn finds_word_at_first_occurrence() {
    let text = "Today is a very warm and sunny day.";
    assert_eq!(find_substr_pos(text, "very"), 11);
    assert_eq!(find_substr_pos(text, "sun"), 25);
}

#[test]
fn pattern_inside_a_longer_word() {
    // "arm" first occurs inside "warm".
    let text = "Today is a very warm and sunny day.";
    assert_eq!(find_substr_pos(text, "arm"), 17);
}

#[test]
fn absent_pattern_yields_text_length() {
    let text = "Today is a very warm and sunny day.";
    assert_eq!(text.len(), 35);
    assert_eq!(find_substr_pos(text, "dew"), 35);
    assert_eq!(find_substr_pos(text, "say"), 35);
}

#[test]
fn pattern_longer_than_text_is_absent() {
    assert_eq!(find_substr_pos("hi", "high"), 2);
}

#[test]
fn empty_pattern_matches_at_zero() {
    assert_eq!(find_substr_pos("abc", ""), 0);
    assert_eq!(find_substr_pos("", ""), 0);
}

#[test]
fn empty_text_has_no_nonempty_match() {
    assert_eq!(find_substr_pos("", "a"), 0);
}

#[test]
fn first_of_several_occurrences_wins() {
    assert_eq!(find_substr_pos("abcabcabc", "bc"), 1);
    assert_eq!(find_substr_pos("aaaa", "aa"), 0);
}

#[test]
fn positions_count_characters_not_bytes() {
    // Two-byte characters ahead of the pattern: the reported offset counts
    // decoded characters.
    let text = "\u{e4}\u{f6} abc";
    assert_eq!(find_substr_pos(text, "abc"), 3);
    assert_eq!(find_substr_pos(text, "zz"), text.chars().count());
}
