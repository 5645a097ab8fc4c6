//! The rule engine: the conversational mode, the stored reminders, and the
//! ordered rule table that dispatch evaluates with first-match-wins policy.

use crate::message::Message;
use crate::message::components_of;
use crate::message::contains_seq;
use crate::rng::draw_below;
use crate::rng::entropy_seed;
use crate::rng::rand32_draw;
use crate::rng::rand32_seed_state;
use crate::rng::seed_rng;
use vstd::prelude::*;

verus! {

/// The conversational phase of a session. Exactly one is active at a time;
/// the fight counter exists only while the fight phase does.
#[derive(Clone, Copy, PartialEq, Eq, Structural, Debug)]
pub enum Mode {
    Neutral,
    SettingReminder,
    Fight { num_times_said_kil: u32 },
}

impl Default for Mode {
    /// A fresh session starts in the neutral phase.
    fn default() -> (m: Mode)
        ensures
            m == Mode::Neutral,
    {
        Mode::Neutral
    }
}

/// The one failure the engine can report: the system entropy source failed
/// while a fresh session was being seeded.
#[derive(Clone, Copy, PartialEq, Eq, Structural, Debug)]
pub enum Error {
    EntropySourceFailure,
}

/// The session as contracts see it: the phase, the stored reminders in
/// insertion order, the generator state, and the joke corpus.
pub struct SessionModel {
    pub mode: Mode,
    pub reminders: Seq<Seq<char>>,
    pub rng: (u64, u64),
    pub jokes: Seq<Seq<char>>,
}

/// The session invariant: a nonempty joke corpus that a 32-bit draw can
/// index, and a fight counter that never leaves [0, 5].
pub open spec fn wf_model(m: SessionModel) -> bool {
    &&& 1 <= m.jokes.len() <= u32::MAX
    &&& (m.mode matches Mode::Fight { num_times_said_kil } ==> num_times_said_kil <= 5)
}

/// Greeting rule: in the neutral phase the line holds the token "hello" or "hi".
pub open spec fn greeting_applies(m: SessionModel, input: Seq<char>) -> bool {
    m.mode == Mode::Neutral && (components_of(input).contains("hello"@) || components_of(
        input,
    ).contains("hi"@))
}

/// Who rule: in the neutral phase the line holds the token "who".
pub open spec fn who_applies(m: SessionModel, input: Seq<char>) -> bool {
    m.mode == Mode::Neutral && components_of(input).contains("who"@)
}

/// Why rule: in the neutral phase the line holds the token "why".
pub open spec fn why_applies(m: SessionModel, input: Seq<char>) -> bool {
    m.mode == Mode::Neutral && components_of(input).contains("why"@)
}

/// Quote rule: in the neutral phase the raw line equals the fixed phrase.
pub open spec fn ladder_applies(m: SessionModel, input: Seq<char>) -> bool {
    m.mode == Mode::Neutral && input == "Thanks. I take pride in my ladder collection."@
}

/// Create-reminder rule: in the neutral phase the line holds the token
/// "reminder".
pub open spec fn create_reminder_applies(m: SessionModel, input: Seq<char>) -> bool {
    m.mode == Mode::Neutral && components_of(input).contains("reminder"@)
}

/// List-reminders rule: in the neutral phase the line holds the token "list"
/// and the raw substring "reminder".
pub open spec fn list_reminders_applies(m: SessionModel, input: Seq<char>) -> bool {
    m.mode == Mode::Neutral && components_of(input).contains("list"@) && contains_seq(
        input,
        "reminder"@,
    )
}

/// Start-fight rule: in the neutral phase the raw line equals the trigger
/// phrase.
pub open spec fn start_fight_applies(m: SessionModel, input: Seq<char>) -> bool {
    m.mode == Mode::Neutral && input == "Initiating btot fight."@
}

/// Continue-fight rule: the session is in the fight phase, whatever the line.
pub open spec fn continue_fight_applies(m: SessionModel) -> bool {
    m.mode matches Mode::Fight { .. }
}

/// Set-reminder rule: the session awaits the reminder text, whatever the line.
pub open spec fn set_reminder_applies(m: SessionModel) -> bool {
    m.mode == Mode::SettingReminder
}

/// Joke rule: in the neutral phase the line holds the token "joke".
pub open spec fn joke_applies(m: SessionModel, input: Seq<char>) -> bool {
    m.mode == Mode::Neutral && components_of(input).contains("joke"@)
}

/// The decimal digit character for d (meaningful for d < 10).
pub open spec fn digit_char(d: nat) -> char {
    if d == 0 {
        '0'
    } else if d == 1 {
        '1'
    } else if d == 2 {
        '2'
    } else if d == 3 {
        '3'
    } else if d == 4 {
        '4'
    } else if d == 5 {
        '5'
    } else if d == 6 {
        '6'
    } else if d == 7 {
        '7'
    } else if d == 8 {
        '8'
    } else {
        '9'
    }
}

/// The decimal numeral of n, most significant digit first.
pub open spec fn dec_str(n: nat) -> Seq<char>
    decreases n,
{
    if n < 10 {
        seq![digit_char(n)]
    } else {
        dec_str(n / 10).push(digit_char(n % 10))
    }
}

/// Each stored reminder on its own line, every line preceded by a newline.
pub open spec fn reminder_lines(rs: Seq<Seq<char>>) -> Seq<char>
    decreases rs.len(),
{
    if rs.len() == 0 {
        Seq::<char>::empty()
    } else {
        reminder_lines(rs.drop_last()) + "\n"@ + rs.last()
    }
}

/// The reply to a list request: a fixed line when nothing is stored, else a
/// header with the count and the singular or plural noun, then the reminders
/// in insertion order.
pub open spec fn list_reply(rs: Seq<Seq<char>>) -> Seq<char> {
    if rs.len() == 0 {
        "You have no reminders"@
    } else {
        "You have "@ + dec_str(rs.len()) + (if rs.len() == 1 {
            " reminder:"@
        } else {
            " reminders:"@
        }) + reminder_lines(rs)
    }
}

/// The fight exchange: reply the battle cry; below the bound the counter
/// grows, at the bound the session returns to neutral.
pub open spec fn spec_continue_fight(m: SessionModel) -> (SessionModel, Option<Seq<char>>) {
    match m.mode {
        Mode::Fight { num_times_said_kil } => (
            SessionModel {
                mode: if num_times_said_kil < 5 {
                    Mode::Fight { num_times_said_kil: (num_times_said_kil + 1) as u32 }
                } else {
                    Mode::Neutral
                },
                ..m
            },
            Some("KIL!"@),
        ),
        _ => (m, None),
    }
}

/// The joke rule's effect: one draw below the corpus size advances the
/// generator and selects the reply.
pub open spec fn spec_joke(m: SessionModel) -> (SessionModel, Option<Seq<char>>) {
    let drawn = rand32_draw(m.rng, m.jokes.len() as u32);
    (SessionModel { rng: drawn.0, ..m }, Some(m.jokes[drawn.1 as int]))
}

/// One dispatch step as a pure function: the first applicable rule, in
/// catalog order, decides the reply and the successor session; when no rule
/// applies there is no reply and the session is unchanged.
pub open spec fn spec_handle(m: SessionModel, input: Seq<char>) -> (SessionModel, Option<
    Seq<char>,
>) {
    if greeting_applies(m, input) {
        (m, Some("Greeting"@))
    } else if who_applies(m, input) {
        (m, Some("Glad you asked! I’m robotti, your personal assistant."@))
    } else if why_applies(m, input) {
        (m, Some("Why not?"@))
    } else if ladder_applies(m, input) {
        (m, Some("It’s not that good tbh"@))
    } else if create_reminder_applies(m, input) {
        (
            SessionModel { mode: Mode::SettingReminder, ..m },
            Some("What would you like me to remind you of?"@),
        )
    } else if list_reminders_applies(m, input) {
        (m, Some(list_reply(m.reminders)))
    } else if start_fight_applies(m, input) {
        (SessionModel { mode: Mode::Fight { num_times_said_kil: 0 }, ..m }, Some("KIL!"@))
    } else if continue_fight_applies(m) {
        spec_continue_fight(m)
    } else if set_reminder_applies(m) {
        (
            SessionModel { mode: Mode::Neutral, reminders: m.reminders.push(input), ..m },
            Some("OK, I’ll remember that."@),
        )
    } else if joke_applies(m, input) {
        spec_joke(m)
    } else {
        (m, None)
    }
}

/// One conversation's durable session: its phase, the reminders stored so
/// far, the generator's state as two plain words, and the joke corpus fixed
/// at creation.
pub struct State {
    mode: Mode,
    reminders: Vec<String>,
    rng_state: u64,
    rng_inc: u64,
    jokes: Vec<String>,
}

impl View for State {
    type V = SessionModel;

    closed spec fn view(&self) -> SessionModel {
        SessionModel {
            mode: self.mode,
            reminders: self.reminders.deep_view(),
            rng: (self.rng_state, self.rng_inc),
            jokes: self.jokes.deep_view(),
        }
    }
}

impl State {
    /// The session invariant holds.
    pub open spec fn wf(&self) -> bool {
        wf_model(self@)
    }

    /// A fresh session over the given joke corpus, its generator seeded from
    /// the system entropy source; fails exactly when that source fails. The
    /// corpus must be nonempty and indexable by a 32-bit draw.
    pub fn new(jokes: Vec<String>) -> (r: Result<State, Error>)
        requires
            1 <= jokes@.len() <= u32::MAX,
        ensures
            r matches Ok(s) ==> s.wf() && s@.mode == Mode::Neutral && s@.reminders
                == Seq::<Seq<char>>::empty() && s@.jokes == jokes.deep_view(),
            r matches Err(e) ==> e == Error::EntropySourceFailure,
    {
        match entropy_seed() {
            Some(seed) => Ok(State::with_seed(seed, jokes)),
            None => Err(Error::EntropySourceFailure),
        }
    }

    /// A fresh session over the given corpus, the generator seeded with the
    /// given value: the caller supplies the entropy, and equal seeds give
    /// equal sessions.
    pub fn with_seed(seed: u64, jokes: Vec<String>) -> (s: State)
        requires
            1 <= jokes@.len() <= u32::MAX,
        ensures
            s.wf(),
            s@ == (SessionModel {
                mode: Mode::Neutral,
                reminders: Seq::<Seq<char>>::empty(),
                rng: rand32_seed_state(seed),
                jokes: jokes.deep_view(),
            }),
    {
        let rng = seed_rng(seed);
        let s = State {
            mode: Mode::Neutral,
            reminders: Vec::new(),
            rng_state: rng.0,
            rng_inc: rng.1,
            jokes,
        };
        proof {
            assert(s@.reminders =~~= Seq::<Seq<char>>::empty());
            assert(s@.rng == rand32_seed_state(seed));
        }
        s
    }

    /// The current conversational phase.
    pub fn mode(&self) -> (m: Mode)
        ensures
            m == self@.mode,
    {
        self.mode
    }

    /// How many reminders are stored.
    pub fn reminder_count(&self) -> (n: usize)
        ensures
            n == self@.reminders.len(),
    {
        self.reminders.len()
    }

    /// Dispatch one raw input line: tokenize it once, fire the first
    /// applicable rule in catalog order, and return its reply; a line that
    /// matches no rule draws no reply and leaves the session untouched.
    pub fn handle_msg(&mut self, they_said: &str) -> (reply: Option<String>)
        requires
            old(self).wf(),
        ensures
            final(self).wf(),
            final(self)@ == spec_handle(old(self)@, they_said@).0,
            reply matches Some(t) ==> spec_handle(old(self)@, they_said@).1 == Some(t@),
            reply is None ==> spec_handle(old(self)@, they_said@).1 is None,
            reply is None ==> *final(self) == *old(self),
    {
        let message = Message::from(they_said);
        let r = greeting(self, &message);
        if r.is_some() {
            return r;
        }
        let r = who(self, &message);
        if r.is_some() {
            return r;
        }
        let r = why(self, &message);
        if r.is_some() {
            return r;
        }
        let r = ladder_collection(self, &message);
        if r.is_some() {
            return r;
        }
        let r = create_reminder(self, &message);
        if r.is_some() {
            return r;
        }
        let r = list_reminders(self, &message);
        if r.is_some() {
            return r;
        }
        let r = start_fight(self, &message);
        if r.is_some() {
            return r;
        }
        let r = continue_fight(self, &message);
        if r.is_some() {
            return r;
        }
        let r = set_reminder_value(self, &message);
        if r.is_some() {
            return r;
        }
        let r = joke(self, &message);
        if r.is_some() {
            return r;
        }
        None
    }
}

fn greeting(state: &mut State, message: &Message) -> (r: Option<String>)
    requires
        message.wf(),
    ensures
        *final(state) == *old(state),
        greeting_applies(old(state)@, message.raw_seq()) ==> (r matches Some(t) && t@
            == "Greeting"@),
        !greeting_applies(old(state)@, message.raw_seq()) ==> r is None,
{
    if !(state.mode == Mode::Neutral && (message.contains_component("hello")
        || message.contains_component("hi"))) {
        return None;
    }
    Some("Greeting".to_owned())
}

fn who(state: &mut State, message: &Message) -> (r: Option<String>)
    requires
        message.wf(),
    ensures
        *final(state) == *old(state),
        who_applies(old(state)@, message.raw_seq()) ==> (r matches Some(t) && t@
            == "Glad you asked! I’m robotti, your personal assistant."@),
        !who_applies(old(state)@, message.raw_seq()) ==> r is None,
{
    if !(state.mode == Mode::Neutral && message.contains_component("who")) {
        return None;
    }
    Some("Glad you asked! I’m robotti, your personal assistant.".to_owned())
}

fn why(state: &mut State, message: &Message) -> (r: Option<String>)
    requires
        message.wf(),
    ensures
        *final(state) == *old(state),
        why_applies(old(state)@, message.raw_seq()) ==> (r matches Some(t) && t@ == "Why not?"@),
        !why_applies(old(state)@, message.raw_seq()) ==> r is None,
{
    if !(state.mode == Mode::Neutral && message.contains_component("why")) {
        return None;
    }
    Some("Why not?".to_owned())
}

fn ladder_collection(state: &mut State, message: &Message) -> (r: Option<String>)
    ensures
        *final(state) == *old(state),
        ladder_applies(old(state)@, message.raw_seq()) ==> (r matches Some(t) && t@
            == "It’s not that good tbh"@),
        !ladder_applies(old(state)@, message.raw_seq()) ==> r is None,
{
    if !(state.mode == Mode::Neutral && message.raw_equals(
        "Thanks. I take pride in my ladder collection.",
    )) {
        return None;
    }
    Some("It’s not that good tbh".to_owned())
}

fn create_reminder(state: &mut State, message: &Message) -> (r: Option<String>)
    requires
        message.wf(),
    ensures
        create_reminder_applies(old(state)@, message.raw_seq()) ==> (r matches Some(t) && t@
            == "What would you like me to remind you of?"@ && final(state)@ == (SessionModel {
            mode: Mode::SettingReminder,
            ..old(state)@
        })),
        !create_reminder_applies(old(state)@, message.raw_seq()) ==> r is None && *final(state)
            == *old(state),
{
    if !(state.mode == Mode::Neutral && message.contains_component("reminder")) {
        return None;
    }
    state.mode = Mode::SettingReminder;
    Some("What would you like me to remind you of?".to_owned())
}

fn list_reminders(state: &mut State, message: &Message) -> (r: Option<String>)
    requires
        message.wf(),
    ensures
        *final(state) == *old(state),
        list_reminders_applies(old(state)@, message.raw_seq()) ==> (r matches Some(t) && t@
            == list_reply(old(state)@.reminders)),
        !list_reminders_applies(old(state)@, message.raw_seq()) ==> r is None,
{
    if !(state.mode == Mode::Neutral && message.contains_component("list") && message.contains(
        "reminder",
    )) {
        return None;
    }
    Some(render_list(&state.reminders))
}

fn start_fight(state: &mut State, message: &Message) -> (r: Option<String>)
    ensures
        start_fight_applies(old(state)@, message.raw_seq()) ==> (r matches Some(t) && t@ == "KIL!"@
            && final(state)@ == (SessionModel {
            mode: Mode::Fight { num_times_said_kil: 0 },
            ..old(state)@
        })),
        !start_fight_applies(old(state)@, message.raw_seq()) ==> r is None && *final(state)
            == *old(state),
{
    if !(state.mode == Mode::Neutral && message.raw_equals("Initiating btot fight.")) {
        return None;
    }
    state.mode = Mode::Fight { num_times_said_kil: 0 };
    Some("KIL!".to_owned())
}

fn continue_fight(state: &mut State, _message: &Message) -> (r: Option<String>)
    ensures
        continue_fight_applies(old(state)@) ==> (r matches Some(t) && t@ == "KIL!"@ && final(state)@
            == spec_continue_fight(old(state)@).0),
        !continue_fight_applies(old(state)@) ==> r is None && *final(state) == *old(state),
{
    let k = match state.mode {
        Mode::Fight { num_times_said_kil } => num_times_said_kil,
        _ => {
            return None;
        },
    };
    if k < 5 {
        state.mode = Mode::Fight { num_times_said_kil: k + 1 };
    } else {
        state.mode = Mode::Neutral;
    }
    Some("KIL!".to_owned())
}

fn set_reminder_value(state: &mut State, message: &Message) -> (r: Option<String>)
    ensures
        set_reminder_applies(old(state)@) ==> (r matches Some(t) && t@ == "OK, I’ll remember that."@
            && final(state)@ == (SessionModel {
            mode: Mode::Neutral,
            reminders: old(state)@.reminders.push(message.raw_seq()),
            ..old(state)@
        })),
        !set_reminder_applies(old(state)@) ==> r is None && *final(state) == *old(state),
{
    if !(state.mode == Mode::SettingReminder) {
        return None;
    }
    state.reminders.push(message.raw_string());
    state.mode = Mode::Neutral;
    proof {
        assert(state.reminders.deep_view() =~~= old(state).reminders.deep_view().push(
            message.raw_seq(),
        ));
    }
    Some("OK, I’ll remember that.".to_owned())
}

fn joke(state: &mut State, message: &Message) -> (r: Option<String>)
    requires
        old(state).wf(),
        message.wf(),
    ensures
        joke_applies(old(state)@, message.raw_seq()) ==> (r matches Some(t) && spec_joke(
            old(state)@,
        ).1 == Some(t@) && final(state)@ == spec_joke(old(state)@).0),
        !joke_applies(old(state)@, message.raw_seq()) ==> r is None && *final(state) == *old(state),
{
    if !(state.mode == Mode::Neutral && message.contains_component("joke")) {
        return None;
    }
    proof {
        assert(state.jokes.deep_view().len() == state.jokes@.len());
    }
    let bound = state.jokes.len() as u32;
    let (ns, idx) = draw_below(state.rng_state, state.rng_inc, bound);
    state.rng_state = ns.0;
    state.rng_inc = ns.1;
    let line = state.jokes[idx as usize].clone();
    Some(line)
}

/// The full reply to a list request, rendered from the stored reminders.
fn render_list(reminders: &Vec<String>) -> (out: String)
    ensures
        out@ == list_reply(reminders.deep_view()),
{
    let n = reminders.len();
    proof {
        assert(reminders.deep_view().len() == reminders@.len());
    }
    if n == 0 {
        return "You have no reminders".to_owned();
    }
    let mut out = "You have ".to_owned();
    append_dec(&mut out, n);
    if n == 1 {
        out.append(" reminder:");
    } else {
        out.append(" reminders:");
    }
    let ghost header = out@;
    let mut i: usize = 0;
    proof {
        assert(reminder_lines(reminders.deep_view().take(0)) =~= Seq::<char>::empty());
        assert(out@ =~= header + reminder_lines(reminders.deep_view().take(0)));
    }
    while i < n
        invariant
            n == reminders@.len(),
            i <= n,
            out@ == header + reminder_lines(reminders.deep_view().take(i as int)),
        decreases n - i,
    {
        proof {
            lemma_reminder_lines_step(reminders.deep_view(), i as int);
        }
        out.append("\n");
        out.append(reminders[i].as_str());
        proof {
            assert(out@ =~= header + reminder_lines(
                reminders.deep_view().take(i as int + 1),
            ));
        }
        i += 1;
    }
    proof {
        assert(reminders.deep_view().take(n as int) =~= reminders.deep_view());
        assert(out@ =~= list_reply(reminders.deep_view()));
    }
    out
}

proof fn lemma_reminder_lines_step(rs: Seq<Seq<char>>, i: int)
    requires
        0 <= i < rs.len(),
    ensures
        reminder_lines(rs.take(i + 1)) == reminder_lines(rs.take(i)) + "\n"@ + rs[i],
{
    assert(rs.take(i + 1).drop_last() =~= rs.take(i));
    assert(rs.take(i + 1).last() == rs[i]);
}

/// Append one decimal digit (d < 10) to the string.
fn append_digit(out: &mut String, d: usize)
    requires
        d < 10,
    ensures
        final(out)@ == old(out)@ + seq![digit_char(d as nat)],
{
    if d == 0 {
        proof {
            reveal_strlit("0");
            assert("0"@ =~= seq![digit_char(0)]);
        }
        out.append("0");
    } else if d == 1 {
        proof {
            reveal_strlit("1");
            assert("1"@ =~= seq![digit_char(1)]);
        }
        out.append("1");
    } else if d == 2 {
        proof {
            reveal_strlit("2");
            assert("2"@ =~= seq![digit_char(2)]);
        }
        out.append("2");
    } else if d == 3 {
        proof {
            reveal_strlit("3");
            assert("3"@ =~= seq![digit_char(3)]);
        }
        out.append("3");
    } else if d == 4 {
        proof {
            reveal_strlit("4");
            assert("4"@ =~= seq![digit_char(4)]);
        }
        out.append("4");
    } else if d == 5 {
        proof {
            reveal_strlit("5");
            assert("5"@ =~= seq![digit_char(5)]);
        }
        out.append("5");
    } else if d == 6 {
        proof {
            reveal_strlit("6");
            assert("6"@ =~= seq![digit_char(6)]);
        }
        out.append("6");
    } else if d == 7 {
        proof {
            reveal_strlit("7");
            assert("7"@ =~= seq![digit_char(7)]);
        }
        out.append("7");
    } else if d == 8 {
        proof {
            reveal_strlit("8");
            assert("8"@ =~= seq![digit_char(8)]);
        }
        out.append("8");
    } else {
        proof {
            reveal_strlit("9");
            assert("9"@ =~= seq![digit_char(9)]);
        }
        out.append("9");
    }
}

/// Append the decimal numeral of n to the string.
fn append_dec(out: &mut String, n: usize)
    ensures
        final(out)@ == old(out)@ + dec_str(n as nat),
    decreases n,
{
    if n < 10 {
        append_digit(out, n);
    } else {
        append_dec(out, n / 10);
        append_digit(out, n % 10);
        proof {
            assert(old(out)@ + dec_str((n / 10) as nat) + seq![digit_char((n % 10) as nat)]
                =~= old(out)@ + dec_str(n as nat));
        }
    }
}

} // verus!
