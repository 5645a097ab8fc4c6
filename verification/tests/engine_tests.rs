use speech_model::Mode;
use speech_model::State;

fn corpus() -> Vec<String> {
    vec![
        "Why did the chicken cross the road?".to_string(),
        "A horse walks into a bar.".to_string(),
        "Knock knock.".to_string(),
    ]
}

#[test]
fn greeting_on_hello() {
    let mut s = State::with_seed(0, corpus());
    assert_eq!(s.handle_msg("hello"), Some("Greeting".to_string()));
    assert_eq!(s.mode(), Mode::Neutral);
}

#[test]
fn greeting_on_hi_with_case_and_punctuation() {
    let mut s = State::with_seed(0, corpus());
    assert_eq!(s.handle_msg("Oh, HI!"), Some("Greeting".to_string()));
    assert_eq!(s.mode(), Mode::Neutral);
}

#[test]
fn greeting_not_on_embedded_token() {
    let mut s = State::with_seed(0, corpus());
    assert_eq!(s.handle_msg("this is history"), None);
}

#[test]
fn who_reply() {
    let mut s = State::with_seed(0, corpus());
    assert_eq!(
        s.handle_msg("who are you?"),
        Some("Glad you asked! I’m robotti, your personal assistant.".to_string())
    );
}

#[test]
fn why_reply() {
    let mut s = State::with_seed(0, corpus());
    assert_eq!(s.handle_msg("why though"), Some("Why not?".to_string()));
}

#[test]
fn ladder_quote_exact_line() {
    let mut s = State::with_seed(0, corpus());
    assert_eq!(
        s.handle_msg("Thanks. I take pride in my ladder collection."),
        Some("It’s not that good tbh".to_string())
    );
    // The quote must match the raw line exactly, case included.
    let mut s = State::with_seed(0, corpus());
    assert_eq!(s.handle_msg("thanks. i take pride in my ladder collection."), None);
}

#[test]
fn reminder_round_trip() {
    let mut s = State::with_seed(0, corpus());
    assert_eq!(
        s.handle_msg("I need a reminder"),
        Some("What would you like me to remind you of?".to_string())
    );
    assert_eq!(s.mode(), Mode::SettingReminder);
    assert_eq!(
        s.handle_msg("buy milk"),
        Some("OK, I’ll remember that.".to_string())
    );
    assert_eq!(s.mode(), Mode::Neutral);
    assert_eq!(s.reminder_count(), 1);
}

#[test]
fn next_line_is_stored_verbatim_whatever_it_is() {
    let mut s = State::with_seed(0, corpus());
    s.handle_msg("reminder");
    // Even a line that would match another rule is stored, not dispatched.
    assert_eq!(
        s.handle_msg("hello why who"),
        Some("OK, I’ll remember that.".to_string())
    );
    assert_eq!(s.mode(), Mode::Neutral);
    assert_eq!(s.reminder_count(), 1);
    assert_eq!(
        s.handle_msg("list reminders"),
        Some("You have 1 reminder:\nhello why who".to_string())
    );
}

#[test]
fn list_with_no_reminders() {
    let mut s = State::with_seed(0, corpus());
    assert_eq!(
        s.handle_msg("list reminders"),
        Some("You have no reminders".to_string())
    );
}

#[test]
fn list_two_reminders_in_insertion_order() {
    let mut s = State::with_seed(0, corpus());
    s.handle_msg("I need a reminder");
    s.handle_msg("buy milk");
    s.handle_msg("set another reminder");
    s.handle_msg("call mom");
    assert_eq!(
        s.handle_msg("list my reminders"),
        Some("You have 2 reminders:\nbuy milk\ncall mom".to_string())
    );
}

#[test]
fn list_header_with_two_digit_count() {
    let mut s = State::with_seed(0, corpus());
    let mut expected = String::from("You have 12 reminders:");
    for i in 0..12 {
        s.handle_msg("reminder");
        let text = format!("item number {}", i);
        s.handle_msg(&text);
        expected.push('\n');
        expected.push_str(&text);
    }
    assert_eq!(s.handle_msg("list reminders"), Some(expected));
}

#[test]
fn fight_counter_runs_to_the_bound_then_resets() {
    let mut s = State::with_seed(0, corpus());
    assert_eq!(
        s.handle_msg("Initiating btot fight."),
        Some("KIL!".to_string())
    );
    assert_eq!(s.mode(), Mode::Fight { num_times_said_kil: 0 });
    for k in 0..5u32 {
        assert_eq!(s.handle_msg("whatever"), Some("KIL!".to_string()));
        assert_eq!(s.mode(), Mode::Fight { num_times_said_kil: k + 1 });
    }
    // The sixth call still replies, but the session is neutral again.
    assert_eq!(s.handle_msg("whatever"), Some("KIL!".to_string()));
    assert_eq!(s.mode(), Mode::Neutral);
    // A seventh call behaves as fresh neutral input.
    assert_eq!(s.handle_msg("whatever"), None);
    assert_eq!(s.handle_msg("hello"), Some("Greeting".to_string()));
}

#[test]
fn fight_trigger_requires_exact_line() {
    let mut s = State::with_seed(0, corpus());
    assert_eq!(s.handle_msg("Initiating btot fight"), None);
    assert_eq!(s.mode(), Mode::Neutral);
}

#[test]
fn joke_reply_comes_from_the_corpus() {
    let jokes = corpus();
    let mut s = State::with_seed(7, jokes.clone());
    let reply = s.handle_msg("tell me a joke").expect("a joke is owed");
    assert!(jokes.contains(&reply));
}

#[test]
fn joke_selection_is_deterministic_in_the_seed() {
    let mut a = State::with_seed(1234, corpus());
    let mut b = State::with_seed(1234, corpus());
    for _ in 0..20 {
        assert_eq!(a.handle_msg("joke"), b.handle_msg("joke"));
    }
}

#[test]
fn every_joke_is_selectable() {
    let jokes = corpus();
    let mut seen = vec![false; jokes.len()];
    for seed in 0..200u64 {
        let mut s = State::with_seed(seed, jokes.clone());
        let reply = s.handle_msg("joke").expect("a joke is owed");
        let idx = jokes.iter().position(|j| *j == reply).expect("reply from corpus");
        seen[idx] = true;
    }
    assert!(seen.iter().all(|v| *v));
}

#[test]
fn unmatched_input_is_silent_and_changes_nothing() {
    let mut s = State::with_seed(0, corpus());
    s.handle_msg("I need a reminder");
    s.handle_msg("buy milk");
    assert_eq!(s.handle_msg("the weather is nice"), None);
    assert_eq!(s.mode(), Mode::Neutral);
    assert_eq!(s.reminder_count(), 1);
    // The generator was not consumed either: the next joke equals the one a
    // twin session draws without the silent line in between.
    let mut t = State::with_seed(0, corpus());
    t.handle_msg("I need a reminder");
    t.handle_msg("buy milk");
    assert_eq!(s.handle_msg("joke"), t.handle_msg("joke"));
}

#[test]
fn first_match_wins_over_later_rules() {
    // "hello" and "why" both occur: the greeting rule is declared first.
    let mut s = State::with_seed(0, corpus());
    assert_eq!(s.handle_msg("hello why"), Some("Greeting".to_string()));
}

#[test]
fn create_rule_precedes_list_rule() {
    // "list reminder" holds the token "reminder", and the create rule is
    // declared before the list rule: first match wins.
    let mut s = State::with_seed(0, corpus());
    assert_eq!(
        s.handle_msg("list reminder"),
        Some("What would you like me to remind you of?".to_string())
    );
    assert_eq!(s.mode(), Mode::SettingReminder);
}

#[test]
fn separator_only_input_is_silent() {
    let mut s = State::with_seed(0, corpus());
    assert_eq!(s.handle_msg("?!?"), None);
    assert_eq!(s.handle_msg(""), None);
}

#[test]
fn apostrophe_separates_tokens() {
    let mut s = State::with_seed(0, corpus());
    assert_eq!(
        s.handle_msg("Who's there?"),
        Some("Glad you asked! I’m robotti, your personal assistant.".to_string())
    );
}

#[test]
fn construction_from_entropy_succeeds() {
    let s = State::new(corpus()).expect("entropy source available");
    assert_eq!(s.mode(), Mode::Neutral);
    assert_eq!(s.reminder_count(), 0);
}

#[test]
fn default_mode_is_neutral() {
    assert_eq!(Mode::default(), Mode::Neutral);
}
