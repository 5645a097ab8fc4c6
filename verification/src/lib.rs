//! A small conversational responder: given one line of input and the session's
//! memory, decide whether to reply and with what text.
//!
//! The engine tokenizes the line, evaluates a fixed, ordered rule table against
//! the current conversational mode, and lets the first applicable rule produce
//! the reply and mutate the session state.

mod engine;
mod laws;
mod message;
mod rng;

pub use laws::lemma_deterministic;
pub use laws::lemma_fight;
pub use laws::lemma_greeting;
pub use laws::lemma_set_reminder;
pub use laws::lemma_silent_unchanged;
pub use laws::lemma_wf_preserved;

pub use engine::dec_str;
pub use engine::digit_char;
pub use engine::list_reply;
pub use engine::reminder_lines;
pub use engine::spec_continue_fight;
pub use engine::spec_handle;
pub use engine::spec_joke;
pub use engine::wf_model;
pub use engine::Error;
pub use engine::Mode;
pub use engine::SessionModel;
pub use engine::State;
pub use engine::continue_fight_applies;
pub use engine::create_reminder_applies;
pub use engine::greeting_applies;
pub use engine::joke_applies;
pub use engine::ladder_applies;
pub use engine::list_reminders_applies;
pub use engine::set_reminder_applies;
pub use engine::start_fight_applies;
pub use engine::who_applies;
pub use engine::why_applies;

pub use rng::rand32_draw;
pub use rng::rand32_seed_state;

pub use message::Message;
pub use message::components_of;
pub use message::contains_seq;
pub use message::is_word_char;
pub use message::lower_char;
