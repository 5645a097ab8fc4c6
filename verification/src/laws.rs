//! Laws of the dispatch step, stated over the pure model and proved once for
//! all sessions and lines.

use crate::engine::continue_fight_applies;
use crate::engine::greeting_applies;
use crate::engine::set_reminder_applies;
use crate::engine::spec_handle;
use crate::engine::wf_model;
use crate::engine::Mode;
use crate::engine::SessionModel;
use crate::message::components_of;
use vstd::prelude::*;

verus! {

/// A line holding the token "hello" or "hi" in the neutral phase is answered
/// with the greeting, and the session is left exactly as it was.
pub proof fn lemma_greeting(m: SessionModel, input: Seq<char>)
    requires
        m.mode == Mode::Neutral,
        components_of(input).contains("hello"@) || components_of(input).contains("hi"@),
    ensures
        spec_handle(m, input).1 == Some("Greeting"@),
        spec_handle(m, input).0 == m,
{
    assert(greeting_applies(m, input));
}

/// While a reminder is being set, any line whatever is appended verbatim to
/// the stored reminders, the session returns to the neutral phase, and the
/// acknowledgement is the reply.
pub proof fn lemma_set_reminder(m: SessionModel, input: Seq<char>)
    requires
        m.mode == Mode::SettingReminder,
    ensures
        spec_handle(m, input).0 == (SessionModel {
            mode: Mode::Neutral,
            reminders: m.reminders.push(input),
            ..m
        }),
        spec_handle(m, input).1 == Some("OK, I’ll remember that."@),
{
    assert(set_reminder_applies(m));
    assert(!continue_fight_applies(m));
}

/// In the fight phase every line whatever draws the battle cry; below the
/// bound the counter grows by one, at the bound the session returns to the
/// neutral phase.
pub proof fn lemma_fight(m: SessionModel, input: Seq<char>, k: u32)
    requires
        m.mode == (Mode::Fight { num_times_said_kil: k }),
    ensures
        spec_handle(m, input).1 == Some("KIL!"@),
        k < 5 ==> spec_handle(m, input).0 == (SessionModel {
            mode: Mode::Fight { num_times_said_kil: (k + 1) as u32 },
            ..m
        }),
        k >= 5 ==> spec_handle(m, input).0 == (SessionModel { mode: Mode::Neutral, ..m }),
{
    assert(continue_fight_applies(m));
}

/// Dispatch is deterministic: equal sessions given equal lines produce the
/// same reply and the same successor session.
pub proof fn lemma_deterministic(m1: SessionModel, m2: SessionModel, i1: Seq<char>, i2: Seq<char>)
    requires
        m1 == m2,
        i1 == i2,
    ensures
        spec_handle(m1, i1) == spec_handle(m2, i2),
{
}

/// A line that matches no rule draws no reply and leaves the session exactly
/// as it was.
pub proof fn lemma_silent_unchanged(m: SessionModel, input: Seq<char>)
    requires
        spec_handle(m, input).1 is None,
    ensures
        spec_handle(m, input).0 == m,
{
}

/// The session invariant survives every dispatch step: the corpus never
/// changes and the fight counter never leaves its bound.
pub proof fn lemma_wf_preserved(m: SessionModel, input: Seq<char>)
    requires
        wf_model(m),
    ensures
        wf_model(spec_handle(m, input).0),
{
}

} // verus!
