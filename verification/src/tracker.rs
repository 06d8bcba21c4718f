use vstd::prelude::*;
use crate::event::{KeyAction, KeyState};

verus! {

/// The transition table of the input state machine: current state and
/// incoming action give the next state. A Down on an idle or released code
/// starts a fresh Down edge; a Down on an already-held code keeps the level
/// at Hold; an Up always moves to the Up edge.
pub open spec fn key_transition(s: KeyState, a: KeyAction) -> KeyState {
    match a {
        KeyAction::Down => match s {
            KeyState::Idle | KeyState::Up => KeyState::Down,
            KeyState::Down | KeyState::Hold => KeyState::Hold,
        },
        KeyAction::Up => KeyState::Up,
    }
}

/// Whether a notification is a repeat: a Down arriving while the code is
/// already held. Callers use this to suppress duplicate down edges.
pub open spec fn key_repeated(s: KeyState, a: KeyAction) -> bool {
    a == KeyAction::Down && (s == KeyState::Down || s == KeyState::Hold)
}

/// The end-of-frame collapse: Down and Hold persist as the Hold level;
/// Up and Idle fall back to Idle (and their entries leave the map).
pub open spec fn key_collapse(s: KeyState) -> KeyState {
    match s {
        KeyState::Down | KeyState::Hold => KeyState::Hold,
        KeyState::Up | KeyState::Idle => KeyState::Idle,
    }
}

/// Down-or-hold: the level that `is_hold` queries report.
pub open spec fn is_held(s: KeyState) -> bool {
    s == KeyState::Down || s == KeyState::Hold
}

/// First-match lookup in an association list of code/state entries;
/// a code with no entry reads as Idle.
pub open spec fn lookup(s: Seq<(u64, KeyState)>, code: u64) -> KeyState
    decreases s.len(),
{
    if s.len() == 0 {
        KeyState::Idle
    } else if s[0].0 == code {
        s[0].1
    } else {
        lookup(s.drop_first(), code)
    }
}

pub open spec fn has_code(s: Seq<(u64, KeyState)>, code: u64) -> bool {
    exists|j: int| 0 <= j < s.len() && s[j].0 == code
}

spec fn distinct_codes(s: Seq<(u64, KeyState)>) -> bool {
    forall|i: int, j: int| 0 <= i < j < s.len() ==> s[i].0 != s[j].0
}

spec fn no_idle_entries(s: Seq<(u64, KeyState)>) -> bool {
    forall|i: int| 0 <= i < s.len() ==> s[i].1 != KeyState::Idle
}

proof fn lemma_lookup_absent(s: Seq<(u64, KeyState)>, code: u64)
    requires
        forall|j: int| 0 <= j < s.len() ==> s[j].0 != code,
    ensures
        lookup(s, code) == KeyState::Idle,
    decreases s.len(),
{
    if s.len() > 0 {
        assert(forall|j: int| 0 <= j < s.drop_first().len() ==> s.drop_first()[j].0 != code);
        lemma_lookup_absent(s.drop_first(), code);
    }
}

proof fn lemma_lookup_first_match(s: Seq<(u64, KeyState)>, code: u64, i: int)
    requires
        0 <= i < s.len(),
        s[i].0 == code,
        forall|j: int| 0 <= j < i ==> s[j].0 != code,
    ensures
        lookup(s, code) == s[i].1,
    decreases i,
{
    if i > 0 {
        assert(s.drop_first()[i - 1] == s[i]);
        assert(forall|j: int| 0 <= j < i - 1 ==> s.drop_first()[j].0 != code);
        lemma_lookup_first_match(s.drop_first(), code, i - 1);
    }
}

proof fn lemma_lookup_update(s: Seq<(u64, KeyState)>, i: int, p: (u64, KeyState))
    requires
        0 <= i < s.len(),
        s[i].0 == p.0,
        forall|j: int| 0 <= j < s.len() && j != i ==> s[j].0 != p.0,
    ensures
        lookup(s.update(i, p), p.0) == p.1,
        forall|c: u64| c != p.0 ==> lookup(s.update(i, p), c) == lookup(s, c),
    decreases i,
{
    let t = s.update(i, p);
    if i == 0 {
        assert(t[0] == p);
        assert(t.drop_first() =~= s.drop_first());
        assert forall|c: u64| c != p.0 implies lookup(t, c) == lookup(s, c) by {
            assert(lookup(t, c) == lookup(t.drop_first(), c));
            assert(lookup(s, c) == lookup(s.drop_first(), c));
        }
    } else {
        assert(t.drop_first() =~= s.drop_first().update(i - 1, p));
        assert(forall|j: int| 0 <= j < s.drop_first().len() && j != i - 1 ==> s.drop_first()[j].0
            != p.0);
        lemma_lookup_update(s.drop_first(), i - 1, p);
        assert(s[0].0 != p.0);
        assert(t[0] == s[0]);
        assert(lookup(t, p.0) == lookup(t.drop_first(), p.0));
        assert forall|c: u64| c != p.0 implies lookup(t, c) == lookup(s, c) by {
            if s[0].0 == c {
                assert(lookup(t, c) == t[0].1);
                assert(lookup(s, c) == s[0].1);
            } else {
                assert(lookup(t, c) == lookup(t.drop_first(), c));
                assert(lookup(s, c) == lookup(s.drop_first(), c));
            }
        }
    }
}

proof fn lemma_lookup_push(s: Seq<(u64, KeyState)>, p: (u64, KeyState))
    ensures
        forall|c: u64| c != p.0 ==> lookup(s.push(p), c) == lookup(s, c),
        !has_code(s, p.0) ==> lookup(s.push(p), p.0) == p.1,
    decreases s.len(),
{
    let t = s.push(p);
    if s.len() == 0 {
        assert(t[0] == p);
        assert(t.drop_first() =~= Seq::<(u64, KeyState)>::empty());
        assert forall|c: u64| c != p.0 implies lookup(t, c) == lookup(s, c) by {
            assert(lookup(t, c) == lookup(t.drop_first(), c));
        }
    } else {
        assert(t.drop_first() =~= s.drop_first().push(p));
        lemma_lookup_push(s.drop_first(), p);
        assert(t[0] == s[0]);
        assert forall|c: u64| c != p.0 implies lookup(t, c) == lookup(s, c) by {
            if s[0].0 == c {
                assert(lookup(t, c) == t[0].1);
            } else {
                assert(lookup(t, c) == lookup(t.drop_first(), c));
                assert(lookup(s, c) == lookup(s.drop_first(), c));
            }
        }
        if !has_code(s, p.0) {
            assert(s[0].0 != p.0);
            assert(!has_code(s.drop_first(), p.0)) by {
                assert(forall|j: int| 0 <= j < s.drop_first().len() ==> s.drop_first()[j] == s[j
                    + 1]);
            }
            assert(lookup(t, p.0) == lookup(t.drop_first(), p.0));
        }
    }
}

proof fn lemma_lookup_present_not_idle(s: Seq<(u64, KeyState)>, code: u64)
    requires
        no_idle_entries(s),
        has_code(s, code),
    ensures
        lookup(s, code) != KeyState::Idle,
    decreases s.len(),
{
    if s[0].0 != code {
        let j = choose|j: int| 0 <= j < s.len() && s[j].0 == code;
        assert(s.drop_first()[j - 1] == s[j]);
        lemma_lookup_present_not_idle(s.drop_first(), code);
    }
}

/// Per-code input state for one device class: the four-state machine of
/// §Idle/Down/Hold/Up keyed by a plain code. A code with no entry reads
/// as Idle.
pub struct StateTracker {
    entries: Vec<(u64, KeyState)>,
}

impl StateTracker {
    /// The state currently tracked for a code.
    pub closed spec fn state_of(&self, code: u64) -> KeyState {
        lookup(self.entries@, code)
    }

    /// Entries carry distinct codes and never store Idle (an idle code is
    /// simply absent, which keeps the map bounded to relevant codes).
    pub closed spec fn wf(&self) -> bool {
        distinct_codes(self.entries@) && no_idle_entries(self.entries@)
    }

    pub fn new() -> (r: Self)
        ensures
            r.wf(),
            forall|c: u64| r.state_of(c) == KeyState::Idle,
    {
        Self { entries: Vec::new() }
    }

    /// Pure read of the current state of a code.
    pub fn state(&self, code: u64) -> (r: KeyState)
        ensures
            r == self.state_of(code),
    {
        let n = self.entries.len();
        let mut i: usize = 0;
        while i < n
            invariant
                i <= n,
                n == self.entries@.len(),
                forall|j: int| 0 <= j < i ==> self.entries@[j].0 != code,
            decreases n - i,
        {
            if self.entries[i].0 == code {
                proof {
                    lemma_lookup_first_match(self.entries@, code, i as int);
                }
                return self.entries[i].1;
            }
            i += 1;
        }
        proof {
            lemma_lookup_absent(self.entries@, code);
        }
        KeyState::Idle
    }

    /// Record one platform notification for a code and report whether it
    /// was a repeat. The code's state moves by the transition table; every
    /// other code is untouched.
    pub fn handle_input(&mut self, code: u64, action: KeyAction) -> (repeated: bool)
        requires
            old(self).wf(),
        ensures
            final(self).wf(),
            repeated == key_repeated(old(self).state_of(code), action),
            final(self).state_of(code) == key_transition(old(self).state_of(code), action),
            forall|c: u64| c != code ==> final(self).state_of(c) == old(self).state_of(c),
    {
        let n = self.entries.len();
        let mut i: usize = 0;
        while i < n
            invariant
                i <= n,
                n == self.entries@.len(),
                self.entries@ == old(self).entries@,
                distinct_codes(self.entries@),
                no_idle_entries(self.entries@),
                forall|j: int| 0 <= j < i ==> self.entries@[j].0 != code,
            decreases n - i,
        {
            if self.entries[i].0 == code {
                let prior = self.entries[i].1;
                proof {
                    lemma_lookup_first_match(self.entries@, code, i as int);
                }
                let next = transition(prior, action);
                let repeated = is_repeat(prior, action);
                proof {
                    let s = self.entries@;
                    let updated = s.update(i as int, (code, next));
                    assert forall|j: int| 0 <= j < s.len() && j != i implies s[j].0 != code by {
                        if j > i {
                            assert(s[i as int].0 != s[j].0);
                        }
                    }
                    lemma_lookup_update(s, i as int, (code, next));
                    assert(forall|j: int| 0 <= j < s.len() ==> updated[j].0 == s[j].0);
                    assert(distinct_codes(updated)) by {
                        assert forall|a: int, b: int|
                            0 <= a < b < updated.len() implies updated[a].0 != updated[b].0 by {
                            assert(updated[a].0 == s[a].0);
                            assert(updated[b].0 == s[b].0);
                        }
                    }
                    assert(next != KeyState::Idle);
                    assert(no_idle_entries(updated)) by {
                        assert forall|j: int|
                            0 <= j < updated.len() implies updated[j].1 != KeyState::Idle by {
                            if j != i {
                                assert(updated[j] == s[j]);
                            }
                        }
                    }
                }
                self.entries.set(i, (code, next));
                return repeated;
            }
            i += 1;
        }
        proof {
            let s = self.entries@;
            let next = key_transition(KeyState::Idle, action);
            let pushed = s.push((code, next));
            lemma_lookup_absent(s, code);
            lemma_lookup_push(s, (code, next));
            assert(!has_code(s, code));
            assert(distinct_codes(pushed)) by {
                assert forall|a: int, b: int|
                    0 <= a < b < pushed.len() implies pushed[a].0 != pushed[b].0 by {
                    if b == s.len() {
                        assert(pushed[a] == s[a]);
                        assert(s[a].0 != code);
                    } else {
                        assert(pushed[a] == s[a]);
                        assert(pushed[b] == s[b]);
                    }
                }
            }
            assert(next != KeyState::Idle);
            assert(no_idle_entries(pushed)) by {
                assert forall|j: int| 0 <= j < pushed.len() implies pushed[j].1 != KeyState::Idle
                by {
                    if j < s.len() {
                        assert(pushed[j] == s[j]);
                    }
                }
            }
        }
        let next = transition(KeyState::Idle, action);
        self.entries.push((code, next));
        false
    }

    /// The end-of-frame collapse over every code: Down and Hold persist as
    /// Hold; Up entries are removed, falling back to Idle.
    pub fn clear(&mut self)
        requires
            old(self).wf(),
        ensures
            final(self).wf(),
            forall|c: u64| final(self).state_of(c) == key_collapse(old(self).state_of(c)),
    {
        let n = self.entries.len();
        let mut out: Vec<(u64, KeyState)> = Vec::new();
        let mut i: usize = 0;
        while i < n
            invariant
                i <= n,
                n == self.entries@.len(),
                self.entries@ == old(self).entries@,
                distinct_codes(self.entries@),
                no_idle_entries(self.entries@),
                distinct_codes(out@),
                no_idle_entries(out@),
                forall|c: u64| #[trigger] lookup(out@, c) == key_collapse(
                    lookup(self.entries@.subrange(0, i as int), c)),
            decreases n - i,
        {
            let (code, prior) = self.entries[i];
            let ghost prefix = self.entries@.subrange(0, i as int);
            let ghost longer = self.entries@.subrange(0, i as int + 1);
            let ghost out_before = out@;
            proof {
                assert(longer =~= prefix.push(self.entries@[i as int]));
                lemma_lookup_push(prefix, self.entries@[i as int]);
                assert(forall|j: int| 0 <= j < prefix.len() ==> prefix[j] == self.entries@[j]);
                assert(!has_code(prefix, code));
                lemma_lookup_absent(prefix, code);
                if is_held(prior) {
                    assert(!has_code(out@, code)) by {
                        if has_code(out@, code) {
                            lemma_lookup_present_not_idle(out@, code);
                        }
                    }
                    lemma_lookup_push(out@, (code, KeyState::Hold));
                }
            }
            let held = match prior {
                KeyState::Down | KeyState::Hold => true,
                _ => false,
            };
            if held {
                out.push((code, KeyState::Hold));
            }
            proof {
                assert forall|c: u64| #[trigger] lookup(out@, c) == key_collapse(
                    lookup(longer, c)) by {
                    if c == code {
                        assert(lookup(longer, code) == prior);
                        if is_held(prior) {
                            assert(lookup(out@, code) == KeyState::Hold);
                        } else {
                            assert(lookup(out_before, code) == key_collapse(lookup(prefix, code)));
                            assert(lookup(prefix, code) == KeyState::Idle);
                        }
                    } else {
                        assert(lookup(longer, c) == lookup(prefix, c));
                        assert(lookup(out_before, c) == key_collapse(lookup(prefix, c)));
                        if is_held(prior) {
                            assert(lookup(out@, c) == lookup(out_before, c));
                        }
                    }
                }
            }
            i += 1;
        }
        proof {
            assert(self.entries@.subrange(0, n as int) =~= self.entries@);
        }
        self.entries = out;
    }
}

/// Executable form of the transition table.
fn transition(s: KeyState, a: KeyAction) -> (r: KeyState)
    ensures
        r == key_transition(s, a),
{
    match a {
        KeyAction::Down => match s {
            KeyState::Idle | KeyState::Up => KeyState::Down,
            KeyState::Down | KeyState::Hold => KeyState::Hold,
        },
        KeyAction::Up => KeyState::Up,
    }
}

/// Executable form of the repeat test.
fn is_repeat(s: KeyState, a: KeyAction) -> (r: bool)
    ensures
        r == key_repeated(s, a),
{
    match a {
        KeyAction::Down => match s {
            KeyState::Down | KeyState::Hold => true,
            _ => false,
        },
        KeyAction::Up => false,
    }
}

/// One poll-visible step in the life of a single code: a platform
/// notification, or the end-of-frame collapse.
#[derive(Debug, Clone, Copy, PartialEq, Eq, Structural)]
pub enum KeyStep {
    Notify(KeyAction),
    FrameEnd,
}

pub open spec fn key_step(s: KeyState, step: KeyStep) -> KeyState {
    match step {
        KeyStep::Notify(a) => key_transition(s, a),
        KeyStep::FrameEnd => key_collapse(s),
    }
}

/// The state of one code after a sequence of notifications and frame ends.
pub open spec fn run_key_steps(s0: KeyState, steps: Seq<KeyStep>) -> KeyState
    decreases steps.len(),
{
    if steps.len() == 0 {
        s0
    } else {
        run_key_steps(key_step(s0, steps[0]), steps.drop_first())
    }
}

/// Law: a Down observation makes the code read as held on that very poll.
pub proof fn lemma_down_is_held(s: KeyState)
    ensures
        is_held(key_transition(s, KeyAction::Down)),
{
}

/// Law: once a code is held, it stays held through any sequence of further
/// Down notifications and frame-end collapses, until an Up notification
/// arrives. Together with `lemma_down_is_held` this says the hold level is
/// true from the Down poll through every poll strictly between the Down and
/// its matching Up.
pub proof fn lemma_hold_until_up(s0: KeyState, steps: Seq<KeyStep>)
    requires
        is_held(s0),
        forall|i: int| 0 <= i < steps.len() ==> steps[i] != KeyStep::Notify(KeyAction::Up),
    ensures
        is_held(run_key_steps(s0, steps)),
    decreases steps.len(),
{
    if steps.len() > 0 {
        let s1 = key_step(s0, steps[0]);
        assert(steps[0] != KeyStep::Notify(KeyAction::Up));
        assert(is_held(s1));
        assert(forall|i: int| 0 <= i < steps.drop_first().len() ==> steps.drop_first()[i] == steps[
            i + 1]);
        lemma_hold_until_up(s1, steps.drop_first());
    }
}

/// Law: after an Up notification, the end-of-frame collapse removes the
/// code entirely, so the hold level reads false on the next frame.
pub proof fn lemma_up_then_frame_end_releases(s: KeyState)
    ensures
        key_collapse(key_transition(s, KeyAction::Up)) == KeyState::Idle,
        !is_held(key_collapse(key_transition(s, KeyAction::Up))),
{
}

/// Law: a second Down notification arriving while the code is still held
/// (no Up seen since the first Down) reads as repeated and leaves the state
/// at Hold.
pub proof fn lemma_second_down_repeats(s: KeyState)
    requires
        is_held(s),
    ensures
        key_repeated(s, KeyAction::Down),
        key_transition(s, KeyAction::Down) == KeyState::Hold,
{
}

} // verus!
