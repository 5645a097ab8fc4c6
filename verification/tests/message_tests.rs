use speech_model::Message;

#[test]
fn components_are_case_folded() {
    let m = Message::from("Hello, WORLD");
    assert!(m.contains_component("hello"));
    assert!(m.contains_component("world"));
}

#[test]
fn components_are_exact_tokens() {
    let m = Message::from("Hello, WORLD");
    assert!(!m.contains_component("wor"));
    assert!(!m.contains_component("hello,"));
}

#[test]
fn digits_stay_in_tokens() {
    let m = Message::from("room 42b is free");
    assert!(m.contains_component("42b"));
    assert!(!m.contains_component("42"));
}

#[test]
fn substring_check_is_case_sensitive() {
    let m = Message::from("Hello, WORLD");
    assert!(m.contains("WOR"));
    assert!(!m.contains("wor"));
    assert!(m.contains("Hello, W"));
    assert!(!m.contains("xyz"));
}

#[test]
fn empty_needle_is_always_contained() {
    let m = Message::from("anything");
    assert!(m.contains(""));
}

#[test]
fn raw_equality_preserves_case_and_punctuation() {
    let m = Message::from("Initiating btot fight.");
    assert!(m.raw_equals("Initiating btot fight."));
    assert!(!m.raw_equals("initiating btot fight."));
    assert!(!m.raw_equals("Initiating btot fight"));
}

#[test]
fn non_ascii_characters_separate_tokens() {
    let m = Message::from("héllo there");
    assert!(m.contains_component("h"));
    assert!(m.contains_component("llo"));
    assert!(m.contains_component("there"));
    assert!(!m.contains_component("héllo"));
}
