use voice_session::resolver::{resolve, InputError, ResolvedSource};
use voice_session::text::{join_with, starts_with};

fn words(list: &[&str]) -> Vec<String> {
    list.iter().map(|word| word.to_string()).collect()
}

#[test]
fn resolve_of_nothing_is_empty_input() {
    assert_eq!(resolve(&Vec::new()), Err(InputError::Empty));
}

#[test]
fn resolve_takes_a_locator_and_drops_the_rest() {
    assert_eq!(
        resolve(&words(&["http://x", "ignored", "tokens"])),
        Ok(ResolvedSource::Direct("http://x".to_string()))
    );
}

#[test]
fn resolve_joins_words_into_a_search_phrase() {
    assert_eq!(
        resolve(&words(&["some", "search", "phrase"])),
        Ok(ResolvedSource::Search("some search phrase".to_string()))
    );
}

#[test]
fn resolve_of_one_word_searches_for_it() {
    assert_eq!(
        resolve(&words(&["lofi"])),
        Ok(ResolvedSource::Search("lofi".to_string()))
    );
}

#[test]
fn resolve_takes_https_for_a_locator() {
    assert_eq!(
        resolve(&words(&["https://a.example/audio?v=1"])),
        Ok(ResolvedSource::Direct("https://a.example/audio?v=1".to_string()))
    );
}

#[test]
fn resolve_takes_the_bare_prefix_for_a_locator() {
    assert_eq!(
        resolve(&words(&["http", "more"])),
        Ok(ResolvedSource::Direct("http".to_string()))
    );
}

#[test]
fn resolve_looks_at_the_first_word_only() {
    assert_eq!(
        resolve(&words(&["play", "http://x"])),
        Ok(ResolvedSource::Search("play http://x".to_string()))
    );
}

#[test]
fn resolve_wants_the_prefix_at_the_start() {
    assert_eq!(
        resolve(&words(&["xhttp://x"])),
        Ok(ResolvedSource::Search("xhttp://x".to_string()))
    );
    assert_eq!(
        resolve(&words(&["htt"])),
        Ok(ResolvedSource::Search("htt".to_string()))
    );
    assert_eq!(
        resolve(&words(&["HTTP://x"])),
        Ok(ResolvedSource::Search("HTTP://x".to_string()))
    );
}

#[test]
fn resolve_keeps_empty_words_in_the_phrase() {
    assert_eq!(
        resolve(&words(&[""])),
        Ok(ResolvedSource::Search(String::new()))
    );
    assert_eq!(
        resolve(&words(&["a", "", "b"])),
        Ok(ResolvedSource::Search("a  b".to_string()))
    );
}

#[test]
fn resolve_keeps_words_beyond_ascii() {
    assert_eq!(
        resolve(&words(&["søng", "名前"])),
        Ok(ResolvedSource::Search("søng 名前".to_string()))
    );
}

#[test]
fn starts_with_compares_from_the_start() {
    assert!(starts_with("http://x", "http"));
    assert!(starts_with("http", "http"));
    assert!(starts_with("anything", ""));
    assert!(starts_with("", ""));
    assert!(!starts_with("htt", "http"));
    assert!(!starts_with("", "http"));
    assert!(!starts_with("ahttp", "http"));
    assert!(!starts_with("htpt://", "http"));
    assert!(starts_with("名前x", "名前"));
    assert!(!starts_with("名x", "名前"));
}

#[test]
fn join_with_puts_the_separator_between_words() {
    assert_eq!(join_with(&Vec::new(), " "), "");
    assert_eq!(join_with(&words(&["one"]), " "), "one");
    assert_eq!(join_with(&words(&["one", "two"]), " "), "one two");
    assert_eq!(join_with(&words(&["a", "b", "c"]), ", "), "a, b, c");
    assert_eq!(join_with(&words(&["a", "b"]), ""), "ab");
    assert_eq!(join_with(&words(&["", ""]), "-"), "-");
}
