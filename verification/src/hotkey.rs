//! Edge detection for the global hotkey.
//!
//! The host's global-shortcut facility reports raw key-state transitions of
//! the registered combination. The listener turns them into toggle events:
//! exactly one emission per press edge, nothing on release or repeat-fire.

use vstd::prelude::*;

verus! {

/// State of the listener: `Idle` when the combination is up, `Pressed` while
/// it is held.
#[derive(Clone, Copy, PartialEq, Eq, Structural, Debug)]
pub enum KeyState {
    Idle,
    Pressed,
}

/// A key-state transition of the registered combination, as the host's
/// global-shortcut facility reports it.
#[derive(Clone, Copy, PartialEq, Eq, Structural, Debug)]
pub enum ShortcutSignal {
    Press,
    Release,
}

/// A signal arriving in state `s` emits the toggle event exactly on the
/// rising edge: the listener is `Idle` and the signal is a `Press`.
pub open spec fn emits(s: KeyState, sig: ShortcutSignal) -> bool {
    s is Idle && sig is Press
}

/// The listener's state after a signal: `Press` leaves it holding, `Release`
/// returns it to `Idle`. Repeat-fire presses while held change nothing.
pub open spec fn step_state(s: KeyState, sig: ShortcutSignal) -> KeyState {
    match sig {
        ShortcutSignal::Press => KeyState::Pressed,
        ShortcutSignal::Release => KeyState::Idle,
    }
}

/// The edge-detecting listener. Created once at startup, fed every signal
/// of the registered combination.
pub struct HotkeyListener {
    state: KeyState,
}

impl HotkeyListener {
    /// The listener's current state.
    pub closed spec fn current(self) -> KeyState {
        self.state
    }

    /// A fresh listener starts with the combination up.
    pub fn new() -> (r: Self)
        ensures
            r.current() is Idle,
    {
        HotkeyListener { state: KeyState::Idle }
    }

    /// Feed one signal; the result says whether to emit the toggle event.
    /// Exactly the rising edge emits, and the state follows the signal.
    pub fn on_signal(&mut self, sig: ShortcutSignal) -> (emit: bool)
        ensures
            emit == emits(old(self).current(), sig),
            final(self).current() == step_state(old(self).current(), sig),
    {
        let emit = self.state == KeyState::Idle && sig == ShortcutSignal::Press;
        self.state = match sig {
            ShortcutSignal::Press => KeyState::Pressed,
            ShortcutSignal::Release => KeyState::Idle,
        };
        emit
    }
}

/// The listener's state after a whole sequence of signals.
pub open spec fn run_state(s: KeyState, sigs: Seq<ShortcutSignal>) -> KeyState
    decreases sigs.len(),
{
    if sigs.len() == 0 {
        s
    } else {
        run_state(step_state(s, sigs[0]), sigs.subrange(1, sigs.len() as int))
    }
}

/// How many toggle events a sequence of signals emits, starting in state `s`.
pub open spec fn emission_count(s: KeyState, sigs: Seq<ShortcutSignal>) -> nat
    decreases sigs.len(),
{
    if sigs.len() == 0 {
        0
    } else {
        (if emits(s, sigs[0]) {
            1nat
        } else {
            0nat
        }) + emission_count(step_state(s, sigs[0]), sigs.subrange(1, sigs.len() as int))
    }
}

/// One press-and-release cycle as the OS reports it: the press edge, any
/// repeat-fire signals while the combination is held, then the release.
pub open spec fn press_release_cycle(repeats: Seq<ShortcutSignal>) -> Seq<ShortcutSignal> {
    seq![ShortcutSignal::Press] + repeats + seq![ShortcutSignal::Release]
}

/// Emissions and final state split at any cut of the signal sequence.
pub proof fn lemma_emission_count_concat(s: KeyState, a: Seq<ShortcutSignal>, b: Seq<ShortcutSignal>)
    ensures
        run_state(s, a + b) == run_state(run_state(s, a), b),
        emission_count(s, a + b) == emission_count(s, a) + emission_count(run_state(s, a), b),
    decreases a.len(),
{
    if a.len() == 0 {
        assert(a + b =~= b);
    } else {
        let s2 = step_state(s, a[0]);
        assert((a + b).subrange(1, (a + b).len() as int) =~= a.subrange(1, a.len() as int) + b);
        lemma_emission_count_concat(s2, a.subrange(1, a.len() as int), b);
    }
}

/// While the combination is held, repeat-fire presses emit nothing and the
/// listener stays in `Pressed`.
pub proof fn lemma_held_presses_silent(repeats: Seq<ShortcutSignal>)
    requires
        forall|i: int| 0 <= i < repeats.len() ==> repeats[i] is Press,
    ensures
        run_state(KeyState::Pressed, repeats) is Pressed,
        emission_count(KeyState::Pressed, repeats) == 0,
    decreases repeats.len(),
{
    if repeats.len() > 0 {
        lemma_held_presses_silent(repeats.subrange(1, repeats.len() as int));
    }
}

/// A single physical press-and-release cycle of the combination emits
/// exactly one toggle event, however long it is held and however many
/// repeat-fire presses the OS reports meanwhile, and leaves the listener
/// back in `Idle`.
pub proof fn lemma_one_cycle_one_emission(repeats: Seq<ShortcutSignal>)
    requires
        forall|i: int| 0 <= i < repeats.len() ==> repeats[i] is Press,
    ensures
        emission_count(KeyState::Idle, press_release_cycle(repeats)) == 1,
        run_state(KeyState::Idle, press_release_cycle(repeats)) is Idle,
{
    let press = seq![ShortcutSignal::Press];
    let release = seq![ShortcutSignal::Release];
    lemma_emission_count_concat(KeyState::Idle, press + repeats, release);
    lemma_emission_count_concat(KeyState::Idle, press, repeats);
    assert(press_release_cycle(repeats) == (press + repeats) + release);
    assert(press.subrange(1, 1) =~= Seq::<ShortcutSignal>::empty());
    assert(emission_count(KeyState::Pressed, Seq::<ShortcutSignal>::empty()) == 0);
    assert(run_state(KeyState::Pressed, Seq::<ShortcutSignal>::empty()) is Pressed);
    assert(emission_count(KeyState::Idle, press) == 1);
    assert(run_state(KeyState::Idle, press) is Pressed);
    lemma_held_presses_silent(repeats);
    assert(release.subrange(1, 1) =~= Seq::<ShortcutSignal>::empty());
    assert(emission_count(KeyState::Idle, Seq::<ShortcutSignal>::empty()) == 0);
    assert(run_state(KeyState::Idle, Seq::<ShortcutSignal>::empty()) is Idle);
    assert(emission_count(KeyState::Pressed, release) == 0);
    assert(run_state(KeyState::Pressed, release) is Idle);
    assert(run_state(KeyState::Idle, press + repeats) is Pressed);
    assert(emission_count(KeyState::Idle, press + repeats) == 1);
}

/// Two press-and-release cycles, separated by any interval, emit exactly
/// two toggle events; each emission carries the one fixed marker payload,
/// [`toggle_marker`].
pub proof fn lemma_two_cycles_two_emissions(
    repeats1: Seq<ShortcutSignal>,
    repeats2: Seq<ShortcutSignal>,
)
    requires
        forall|i: int| 0 <= i < repeats1.len() ==> repeats1[i] is Press,
        forall|i: int| 0 <= i < repeats2.len() ==> repeats2[i] is Press,
    ensures
        emission_count(
            KeyState::Idle,
            press_release_cycle(repeats1) + press_release_cycle(repeats2),
        ) == 2,
        run_state(
            KeyState::Idle,
            press_release_cycle(repeats1) + press_release_cycle(repeats2),
        ) is Idle,
{
    lemma_emission_count_concat(
        KeyState::Idle,
        press_release_cycle(repeats1),
        press_release_cycle(repeats2),
    );
    lemma_one_cycle_one_emission(repeats1);
    lemma_one_cycle_one_emission(repeats2);
}

/// The combination registered with the host's global-shortcut facility at
/// startup: a static configuration value, not user-configurable at runtime.
pub fn default_shortcut() -> (r: &'static str)
    ensures
        r@ == "CommandOrControl+Shift+Space"@,
{
    "CommandOrControl+Shift+Space"
}

/// Name of the event emitted to the front-end on each qualifying press.
pub fn toggle_event_name() -> (r: &'static str)
    ensures
        r@ == "toggle-recording"@,
{
    "toggle-recording"
}

/// The fixed marker payload carried by every toggle event.
pub fn toggle_marker() -> (r: &'static str)
    ensures
        r@ == "true"@,
{
    "true"
}

} // verus!
