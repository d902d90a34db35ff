use codex_rs::status_words::{
    choose_working_status_word_index, load_working_status_words, working_status_word_for_index,
    DEFAULT_WORKING_STATUS,
};

#[test]
fn loads_embedded_words() {
    let words = load_working_status_words();

    assert_eq!(words.first().map(String::as_str), Some("Accomplishing"));
    assert_eq!(words.last().map(String::as_str), Some("Zigzagging"));
    assert!(words.iter().any(|word| word == "Beboppin'"));
    assert!(words.iter().any(|word| word == "Working"));
}

#[test]
fn falls_back_to_default_when_list_is_empty() {
    assert_eq!(
        working_status_word_for_index(&[], 0),
        DEFAULT_WORKING_STATUS
    );
}

#[test]
fn returns_word_for_requested_index() {
    let words = vec![
        "Working".to_string(),
        "Thinking".to_string(),
        "Computing".to_string(),
    ];

    assert_eq!(working_status_word_for_index(&words, 1), "Thinking");
    assert_eq!(working_status_word_for_index(&words, 2), "Computing");
    assert_eq!(working_status_word_for_index(&words, 0), "Working");
}

#[test]
fn embedded_words_keep_non_ascii_entries() {
    let words = load_working_status_words();
    assert_eq!(words.len(), 187);
    assert!(words.iter().any(|word| word == "Flamb\u{e9}ing"));
    assert!(words.iter().any(|word| word == "Saut\u{e9}ing"));
}

#[test]
fn chosen_index_is_zero_for_empty_list() {
    assert_eq!(choose_working_status_word_index(&[]), 0);
}

#[test]
fn chosen_index_stays_in_range() {
    let words = load_working_status_words();
    for _ in 0..200 {
        let index = choose_working_status_word_index(&words);
        assert!(index < words.len());
        let word = working_status_word_for_index(&words, index);
        assert_eq!(word, words[index]);
    }
}

#[test]
fn single_word_list_always_picks_it() {
    let words = vec!["Only".to_string()];
    for _ in 0..20 {
        assert_eq!(choose_working_status_word_index(&words), 0);
    }
}
