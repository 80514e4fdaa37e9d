//! The text-injection sequence as a verified state machine.
//!
//! An injection places a payload on the system clipboard, waits a fixed
//! settle delay, then dispatches a paste gesture chosen by the build's
//! platform: either one invocation of the OS scripting facility, or a raw
//! synthetic key chord (press the modifier, click `v`, release the
//! modifier, with a short gap between the sub-steps).
//!
//! The machine decides; an unverified shell acts. The shell performs each
//! [`Action`] the machine hands out and reports back whether it succeeded,
//! so an action is dispatched only after the one before it has completed.
//! Only the clipboard write's failure aborts the run: every later failure
//! is swallowed and the sequence continues, on the theory that a trailing
//! release is still safer to attempt than to stop mid-chord.
//!
//! The machine's functions carry no preconditions and are verified free of
//! panics: no payload and no reported outcome aborts back to the caller.
//! How a run ended shows only in its stage.

use vstd::prelude::*;

verus! {

/// Milliseconds the shell must wait after the clipboard write, so the OS
/// clipboard service propagates the new contents before the gesture reads
/// them.
pub const SETTLE_MILLIS: u64 = 100;

/// Milliseconds the shell must wait between raw key-synthesis sub-steps.
pub const KEY_GAP_MILLIS: u64 = 100;

/// The paste strategy, fixed at build time by the target platform.
#[derive(Clone, Copy, PartialEq, Eq, Structural, Debug)]
pub enum Platform {
    /// Delegate the paste chord to the OS UI-automation scripting facility.
    ScriptDelegation,
    /// Synthesize the paste chord with raw virtual key input.
    KeySynthesis,
}

/// One OS action the shell performs on the machine's behalf.
#[derive(Debug, PartialEq, Eq)]
pub enum Action {
    /// Set the system clipboard's text contents to the payload.
    WriteClipboard(String),
    /// Block for the given number of milliseconds.
    Sleep(u64),
    /// Run the OS scripting binary on the given script.
    RunScript(String),
    /// Press and hold the primary modifier key.
    PressModifier,
    /// Click (press and release) the given character key.
    ClickKey(char),
    /// Release the primary modifier key.
    ReleaseModifier,
}

/// Mathematical model of an [`Action`].
pub ghost enum Act {
    WriteClipboard(Seq<char>),
    Sleep(u64),
    RunScript(Seq<char>),
    PressModifier,
    ClickKey(char),
    ReleaseModifier,
}

impl View for Action {
    type V = Act;

    open spec fn view(&self) -> Act {
        match self {
            Action::WriteClipboard(t) => Act::WriteClipboard(t@),
            Action::Sleep(ms) => Act::Sleep(*ms),
            Action::RunScript(s) => Act::RunScript(s@),
            Action::PressModifier => Act::PressModifier,
            Action::ClickKey(c) => Act::ClickKey(*c),
            Action::ReleaseModifier => Act::ReleaseModifier,
        }
    }
}

/// The view of an optional action.
pub open spec fn act_view(next: Option<Action>) -> Option<Act> {
    match next {
        Some(a) => Some(a@),
        None => None,
    }
}

/// Where an injection run stands: which action is outstanding, or how the
/// run ended.
#[derive(Clone, Copy, PartialEq, Eq, Structural, Debug)]
pub enum Stage {
    /// The clipboard write is outstanding.
    AwaitClipboard,
    /// The settle delay is outstanding.
    AwaitSettle,
    /// The scripting invocation is outstanding.
    AwaitScript,
    /// The modifier press is outstanding.
    AwaitPress,
    /// The gap after the modifier press is outstanding.
    AwaitPressGap,
    /// The `v` click is outstanding.
    AwaitClick,
    /// The gap after the `v` click is outstanding.
    AwaitClickGap,
    /// The modifier release is outstanding.
    AwaitRelease,
    /// The sequence ran to completion.
    Done,
    /// The clipboard write failed; nothing further was attempted.
    Aborted,
}

/// The stage after one reported outcome. Only the clipboard write consults
/// its outcome: a failure there aborts, while every gesture sub-step
/// advances the run whether it succeeded or not.
pub open spec fn step_stage(s: Stage, platform: Platform, ok: bool) -> Stage {
    match s {
        Stage::AwaitClipboard => if ok {
            Stage::AwaitSettle
        } else {
            Stage::Aborted
        },
        Stage::AwaitSettle => match platform {
            Platform::ScriptDelegation => Stage::AwaitScript,
            Platform::KeySynthesis => Stage::AwaitPress,
        },
        Stage::AwaitScript => Stage::Done,
        Stage::AwaitPress => Stage::AwaitPressGap,
        Stage::AwaitPressGap => Stage::AwaitClick,
        Stage::AwaitClick => Stage::AwaitClickGap,
        Stage::AwaitClickGap => Stage::AwaitRelease,
        Stage::AwaitRelease => Stage::Done,
        Stage::Done => Stage::Done,
        Stage::Aborted => Stage::Aborted,
    }
}

/// The script handed to the OS scripting facility: it has the system's
/// UI-automation service press the paste chord itself.
pub open spec fn paste_script_text() -> Seq<char> {
    "tell application \"System Events\" to keystroke \"v\" using command down"@
}

/// The action outstanding in a stage, for an injection of `text`.
pub open spec fn stage_act(s: Stage, text: Seq<char>) -> Option<Act> {
    match s {
        Stage::AwaitClipboard => Some(Act::WriteClipboard(text)),
        Stage::AwaitSettle => Some(Act::Sleep(SETTLE_MILLIS)),
        Stage::AwaitScript => Some(Act::RunScript(paste_script_text())),
        Stage::AwaitPress => Some(Act::PressModifier),
        Stage::AwaitPressGap => Some(Act::Sleep(KEY_GAP_MILLIS)),
        Stage::AwaitClick => Some(Act::ClickKey('v')),
        Stage::AwaitClickGap => Some(Act::Sleep(KEY_GAP_MILLIS)),
        Stage::AwaitRelease => Some(Act::ReleaseModifier),
        Stage::Done => None,
        Stage::Aborted => None,
    }
}

/// A running injection.
pub struct Injection {
    /// The payload to place on the clipboard.
    pub text: String,
    /// The paste strategy the build selected.
    pub platform: Platform,
    /// Where the run stands.
    pub stage: Stage,
}

impl Injection {
    /// Begin an injection of `text`: the machine's first demand on the
    /// shell is to write the payload itself to the clipboard, whatever the
    /// platform.
    pub fn start(text: String, platform: Platform) -> (r: (Injection, Action))
        ensures
            r.0.text@ == text@,
            r.0.platform == platform,
            r.0.stage == Stage::AwaitClipboard,
            Some(r.1@) == stage_act(r.0.stage, text@),
            r.1@ == Act::WriteClipboard(text@),
    {
        let payload = text.clone();
        let machine = Injection { text, platform, stage: Stage::AwaitClipboard };
        (machine, Action::WriteClipboard(payload))
    }

    /// Report the outstanding action's outcome; the result is the next
    /// action to perform, or `None` once the run is over. The stage moves
    /// as [`step_stage`] says, and the returned action is exactly the one
    /// the new stage makes outstanding.
    pub fn on_outcome(&mut self, ok: bool) -> (next: Option<Action>)
        ensures
            final(self).stage == step_stage(old(self).stage, old(self).platform, ok),
            final(self).text@ == old(self).text@,
            final(self).platform == old(self).platform,
            act_view(next) == stage_act(final(self).stage, old(self).text@),
    {
        self.stage = match self.stage {
            Stage::AwaitClipboard => if ok {
                Stage::AwaitSettle
            } else {
                Stage::Aborted
            },
            Stage::AwaitSettle => match self.platform {
                Platform::ScriptDelegation => Stage::AwaitScript,
                Platform::KeySynthesis => Stage::AwaitPress,
            },
            Stage::AwaitScript => Stage::Done,
            Stage::AwaitPress => Stage::AwaitPressGap,
            Stage::AwaitPressGap => Stage::AwaitClick,
            Stage::AwaitClick => Stage::AwaitClickGap,
            Stage::AwaitClickGap => Stage::AwaitRelease,
            Stage::AwaitRelease => Stage::Done,
            Stage::Done => Stage::Done,
            Stage::Aborted => Stage::Aborted,
        };
        match self.stage {
            Stage::AwaitClipboard => Some(Action::WriteClipboard(self.text.clone())),
            Stage::AwaitSettle => Some(Action::Sleep(SETTLE_MILLIS)),
            Stage::AwaitScript => Some(Action::RunScript(paste_script().to_owned())),
            Stage::AwaitPress => Some(Action::PressModifier),
            Stage::AwaitPressGap => Some(Action::Sleep(KEY_GAP_MILLIS)),
            Stage::AwaitClick => Some(Action::ClickKey('v')),
            Stage::AwaitClickGap => Some(Action::Sleep(KEY_GAP_MILLIS)),
            Stage::AwaitRelease => Some(Action::ReleaseModifier),
            Stage::Done => None,
            Stage::Aborted => None,
        }
    }

    /// Whether the run is over, completed or aborted.
    pub fn finished(&self) -> (b: bool)
        ensures
            b == (self.stage is Done || self.stage is Aborted),
    {
        self.stage == Stage::Done || self.stage == Stage::Aborted
    }

    /// Whether the run was aborted by a failed clipboard write.
    pub fn aborted(&self) -> (b: bool)
        ensures
            b == (self.stage is Aborted),
    {
        self.stage == Stage::Aborted
    }
}

/// The actions a run issues in response to a sequence of reported
/// outcomes, in order, starting with stage `s`'s action outstanding.
/// Outcome `i + 1` is reported only once action `i + 1` — issued on outcome
/// `i` — has been performed, so an action stands in this sequence only
/// after every earlier one has completed.
pub open spec fn acts_from(
    s: Stage,
    platform: Platform,
    text: Seq<char>,
    outcomes: Seq<bool>,
) -> Seq<Act>
    decreases outcomes.len(),
{
    if outcomes.len() == 0 {
        Seq::<Act>::empty()
    } else {
        let s2 = step_stage(s, platform, outcomes[0]);
        let rest = acts_from(s2, platform, text, outcomes.subrange(1, outcomes.len() as int));
        match stage_act(s2, text) {
            Some(a) => seq![a] + rest,
            None => rest,
        }
    }
}

/// Every action an injection of `text` issues when the shell reports the
/// given outcomes: the initial clipboard write, then whatever `on_outcome`
/// hands back, in dispatch order.
pub open spec fn inject_trace(text: Seq<char>, platform: Platform, outcomes: Seq<bool>) -> Seq<
    Act,
> {
    seq![Act::WriteClipboard(text)] + acts_from(Stage::AwaitClipboard, platform, text, outcomes)
}

/// How many actions a run reaching stage `s` can still issue; decreases
/// along every transition, so the run always terminates.
pub open spec fn rank(s: Stage) -> nat {
    match s {
        Stage::AwaitClipboard => 7,
        Stage::AwaitSettle => 6,
        Stage::AwaitScript => 1,
        Stage::AwaitPress => 5,
        Stage::AwaitPressGap => 4,
        Stage::AwaitClick => 3,
        Stage::AwaitClickGap => 2,
        Stage::AwaitRelease => 1,
        Stage::Done => 0,
        Stage::Aborted => 0,
    }
}

/// The actions still to come once stage `s` is reached, when the run is
/// driven to its end. Outcome-independent: only the clipboard write
/// consults its outcome, and it lies before every other stage.
pub open spec fn remaining_acts(s: Stage, platform: Platform, text: Seq<char>) -> Seq<Act>
    decreases rank(s),
{
    if s is Done || s is Aborted {
        Seq::<Act>::empty()
    } else {
        let s2 = step_stage(s, platform, true);
        let rest = remaining_acts(s2, platform, text);
        match stage_act(s2, text) {
            Some(a) => seq![a] + rest,
            None => rest,
        }
    }
}

/// Whether an action is part of the paste gesture proper.
pub open spec fn is_gesture(a: Act) -> bool {
    match a {
        Act::RunScript(_) => true,
        Act::PressModifier => true,
        Act::ClickKey(_) => true,
        Act::ReleaseModifier => true,
        Act::WriteClipboard(_) => false,
        Act::Sleep(_) => false,
    }
}

/// A run that has ended issues nothing, whatever is reported to it.
pub proof fn lemma_terminal_silent(s: Stage, platform: Platform, text: Seq<char>, outcomes: Seq<bool>)
    requires
        s is Done || s is Aborted,
    ensures
        acts_from(s, platform, text, outcomes) == Seq::<Act>::empty(),
    decreases outcomes.len(),
{
    if outcomes.len() > 0 {
        lemma_terminal_silent(
            step_stage(s, platform, outcomes[0]),
            platform,
            text,
            outcomes.subrange(1, outcomes.len() as int),
        );
        assert(acts_from(s, platform, text, outcomes) =~= Seq::<Act>::empty());
    }
}

/// Gesture failures are swallowed: past the clipboard write, the actions a
/// run issues do not depend on the reported outcomes — given enough
/// reports, the whole remaining sequence is issued, success or failure.
pub proof fn lemma_swallowed_failures(
    s: Stage,
    platform: Platform,
    text: Seq<char>,
    outcomes: Seq<bool>,
)
    requires
        s !is AwaitClipboard,
        outcomes.len() >= remaining_acts(s, platform, text).len(),
    ensures
        acts_from(s, platform, text, outcomes) == remaining_acts(s, platform, text),
    decreases outcomes.len(),
{
    let rem = remaining_acts(s, platform, text);
    if s is Done || s is Aborted {
        lemma_terminal_silent(s, platform, text, outcomes);
    } else if outcomes.len() == 0 {
        assert(acts_from(s, platform, text, outcomes) =~= rem);
    } else {
        let s2 = step_stage(s, platform, outcomes[0]);
        assert(s2 == step_stage(s, platform, true));
        assert(s2 !is AwaitClipboard);
        let rest_out = outcomes.subrange(1, outcomes.len() as int);
        lemma_swallowed_failures(s2, platform, text, rest_out);
        assert(acts_from(s, platform, text, outcomes) =~= rem);
    }
}

/// Clipboard-write correctness: every injection's first action writes the
/// payload itself, whatever the platform. The settle delay is demanded
/// exactly when that write reports success, and immediately after it — so
/// the clipboard holds the payload the moment the settle delay begins.
pub proof fn lemma_clipboard_write_first(text: Seq<char>, platform: Platform, outcomes: Seq<bool>)
    ensures
        inject_trace(text, platform, outcomes).len() >= 1,
        inject_trace(text, platform, outcomes)[0] == Act::WriteClipboard(text),
        outcomes.len() > 0 && outcomes[0] ==> inject_trace(text, platform, outcomes).len() >= 2
            && inject_trace(text, platform, outcomes)[1] == Act::Sleep(SETTLE_MILLIS),
        outcomes.len() > 0 && !outcomes[0] ==> inject_trace(text, platform, outcomes) == seq![
            Act::WriteClipboard(text),
        ],
{
    if outcomes.len() > 0 && !outcomes[0] {
        lemma_abort_on_clipboard_failure(text, platform, outcomes);
    }
}

/// A failed clipboard write aborts the run at once: the write attempt is
/// the only action ever issued — no settle delay and no paste gesture.
pub proof fn lemma_abort_on_clipboard_failure(
    text: Seq<char>,
    platform: Platform,
    outcomes: Seq<bool>,
)
    requires
        outcomes.len() > 0,
        !outcomes[0],
    ensures
        inject_trace(text, platform, outcomes) == seq![Act::WriteClipboard(text)],
{
    lemma_terminal_silent(
        Stage::Aborted,
        platform,
        text,
        outcomes.subrange(1, outcomes.len() as int),
    );
    assert(inject_trace(text, platform, outcomes) =~= seq![Act::WriteClipboard(text)]);
}

/// The settle delay is non-zero, and every gesture action comes only after
/// it: in every trace, a gesture stands at a position no earlier than two,
/// behind the settle sleep that the successful clipboard write demanded.
pub proof fn lemma_gesture_after_settle(text: Seq<char>, platform: Platform, outcomes: Seq<bool>)
    ensures
        SETTLE_MILLIS > 0,
        forall|i: int|
            0 <= i < inject_trace(text, platform, outcomes).len() && is_gesture(
                #[trigger] inject_trace(text, platform, outcomes)[i],
            ) ==> 2 <= i && inject_trace(text, platform, outcomes)[1] == Act::Sleep(SETTLE_MILLIS),
{
    let tr = inject_trace(text, platform, outcomes);
    if outcomes.len() == 0 {
        assert(tr =~= seq![Act::WriteClipboard(text)]);
    } else if !outcomes[0] {
        lemma_abort_on_clipboard_failure(text, platform, outcomes);
    } else {
        assert(tr[1] == Act::Sleep(SETTLE_MILLIS));
        assert(!is_gesture(tr[0]));
        assert(!is_gesture(tr[1]));
    }
}

/// Once the clipboard write has succeeded, the run always issues the whole
/// remaining sequence, whatever each later step reports.
pub proof fn lemma_run_to_completion(text: Seq<char>, platform: Platform, outcomes: Seq<bool>)
    requires
        outcomes.len() >= remaining_acts(Stage::AwaitClipboard, platform, text).len(),
        outcomes.len() > 0,
        outcomes[0],
    ensures
        inject_trace(text, platform, outcomes) == seq![Act::WriteClipboard(text)]
            + remaining_acts(Stage::AwaitClipboard, platform, text),
{
    let rest_out = outcomes.subrange(1, outcomes.len() as int);
    lemma_swallowed_failures(Stage::AwaitSettle, platform, text, rest_out);
    assert(inject_trace(text, platform, outcomes) =~= seq![Act::WriteClipboard(text)]
        + remaining_acts(Stage::AwaitClipboard, platform, text));
}

/// On the key-synthesis platform, a successful clipboard write is followed
/// by the settle delay and then exactly press-modifier, gap, click `v`,
/// gap, release-modifier — whatever each sub-step reports.
pub proof fn lemma_key_synthesis_trace(text: Seq<char>, outcomes: Seq<bool>)
    requires
        outcomes.len() >= 6,
        outcomes[0],
    ensures
        inject_trace(text, Platform::KeySynthesis, outcomes) == seq![
            Act::WriteClipboard(text),
            Act::Sleep(SETTLE_MILLIS),
            Act::PressModifier,
            Act::Sleep(KEY_GAP_MILLIS),
            Act::ClickKey('v'),
            Act::Sleep(KEY_GAP_MILLIS),
            Act::ReleaseModifier,
        ],
{
    let p = Platform::KeySynthesis;
    assert(remaining_acts(Stage::Done, p, text) =~= Seq::<Act>::empty());
    assert(remaining_acts(Stage::AwaitRelease, p, text) =~= Seq::<Act>::empty());
    assert(remaining_acts(Stage::AwaitClickGap, p, text) =~= seq![Act::ReleaseModifier]);
    assert(remaining_acts(Stage::AwaitClick, p, text) =~= seq![
        Act::Sleep(KEY_GAP_MILLIS),
        Act::ReleaseModifier,
    ]);
    assert(remaining_acts(Stage::AwaitPressGap, p, text) =~= seq![
        Act::ClickKey('v'),
        Act::Sleep(KEY_GAP_MILLIS),
        Act::ReleaseModifier,
    ]);
    assert(remaining_acts(Stage::AwaitPress, p, text) =~= seq![
        Act::Sleep(KEY_GAP_MILLIS),
        Act::ClickKey('v'),
        Act::Sleep(KEY_GAP_MILLIS),
        Act::ReleaseModifier,
    ]);
    assert(remaining_acts(Stage::AwaitSettle, p, text) =~= seq![
        Act::PressModifier,
        Act::Sleep(KEY_GAP_MILLIS),
        Act::ClickKey('v'),
        Act::Sleep(KEY_GAP_MILLIS),
        Act::ReleaseModifier,
    ]);
    assert(remaining_acts(Stage::AwaitClipboard, p, text) =~= seq![
        Act::Sleep(SETTLE_MILLIS),
        Act::PressModifier,
        Act::Sleep(KEY_GAP_MILLIS),
        Act::ClickKey('v'),
        Act::Sleep(KEY_GAP_MILLIS),
        Act::ReleaseModifier,
    ]);
    lemma_run_to_completion(text, p, outcomes);
    assert(inject_trace(text, p, outcomes) =~= seq![
        Act::WriteClipboard(text),
        Act::Sleep(SETTLE_MILLIS),
        Act::PressModifier,
        Act::Sleep(KEY_GAP_MILLIS),
        Act::ClickKey('v'),
        Act::Sleep(KEY_GAP_MILLIS),
        Act::ReleaseModifier,
    ]);
}

/// On the delegation platform, a successful clipboard write is followed by
/// the settle delay and then exactly one invocation of the OS scripting
/// facility, on the fixed paste script.
pub proof fn lemma_script_delegation_trace(text: Seq<char>, outcomes: Seq<bool>)
    requires
        outcomes.len() >= 2,
        outcomes[0],
    ensures
        inject_trace(text, Platform::ScriptDelegation, outcomes) == seq![
            Act::WriteClipboard(text),
            Act::Sleep(SETTLE_MILLIS),
            Act::RunScript(paste_script_text()),
        ],
{
    let p = Platform::ScriptDelegation;
    assert(remaining_acts(Stage::Done, p, text) =~= Seq::<Act>::empty());
    assert(remaining_acts(Stage::AwaitScript, p, text) =~= Seq::<Act>::empty());
    assert(remaining_acts(Stage::AwaitSettle, p, text) =~= seq![
        Act::RunScript(paste_script_text()),
    ]);
    assert(remaining_acts(Stage::AwaitClipboard, p, text) =~= seq![
        Act::Sleep(SETTLE_MILLIS),
        Act::RunScript(paste_script_text()),
    ]);
    lemma_run_to_completion(text, p, outcomes);
    assert(inject_trace(text, p, outcomes) =~= seq![
        Act::WriteClipboard(text),
        Act::Sleep(SETTLE_MILLIS),
        Act::RunScript(paste_script_text()),
    ]);
}

/// The delegation script asks for the paste chord itself: its tail, from
/// character 36 on, reads the keystroke phrase verbatim.
pub proof fn lemma_script_carries_paste_chord()
    ensures
        paste_script_text().len() == 68,
        paste_script_text().subrange(36, 68) == "keystroke \"v\" using command down"@,
{
    reveal_strlit("tell application \"System Events\" to keystroke \"v\" using command down");
    reveal_strlit("keystroke \"v\" using command down");
    assert(paste_script_text().subrange(36, 68) =~= "keystroke \"v\" using command down"@);
}

/// The fixed script for the delegation platform, as the shell hands it to
/// the OS scripting binary.
pub fn paste_script() -> (r: &'static str)
    ensures
        r@ == paste_script_text(),
{
    "tell application \"System Events\" to keystroke \"v\" using command down"
}

} // verus!
