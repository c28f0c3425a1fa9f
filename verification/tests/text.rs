use falling::text::{chars_of, contains_text, same_text};

#[test]
fn chars_of_lists_the_characters() {
    assert_eq!(chars_of(""), Vec::<char>::new());
    assert_eq!(chars_of("wall"), vec!['w', 'a', 'l', 'l']);
    assert_eq!(chars_of("a\u{e9}\u{1f600}z"), vec!['a', '\u{e9}', '\u{1f600}', 'z']);
}

#[test]
fn same_text_compares_character_by_character() {
    assert!(same_text("", ""));
    assert!(same_text("player_head", "player_head"));
    assert!(!same_text("player_head", "player_hea"));
    assert!(!same_text("player_hea", "player_head"));
    assert!(!same_text("player_head", "player_heat"));
    assert!(!same_text("", "x"));
    assert!(same_text("gr\u{fc}n", "gr\u{fc}n"));
    assert!(!same_text("gr\u{fc}n", "grun"));
}

#[test]
fn contains_text_finds_a_pattern_anywhere() {
    assert!(contains_text("player_torso", "player"));
    assert!(contains_text("a_player", "player"));
    assert!(contains_text("xxplayerxx", "player"));
    assert!(contains_text("player", "player"));
    assert!(!contains_text("playe", "player"));
    assert!(!contains_text("pplaye_r", "player"));
    assert!(!contains_text("", "player"));
    assert!(contains_text("plaplayer", "player"));
    assert!(contains_text("aab", "ab"));
    assert!(!contains_text("aba", "bb"));
}

#[test]
fn the_empty_pattern_occurs_everywhere() {
    assert!(contains_text("", ""));
    assert!(contains_text("wall", ""));
}

#[test]
fn contains_text_counts_characters_not_bytes() {
    assert!(contains_text("\u{e9}player", "player"));
    assert!(contains_text("na\u{ef}ve", "\u{ef}v"));
    assert!(!contains_text("naive", "\u{ef}"));
}
