use text_injector::injector::{
    Action, Injection, Platform, KEY_GAP_MILLIS, SETTLE_MILLIS,
};
use text_injector::injector::paste_script;

/// Drive one injection, reporting the given outcome for every action, and
/// collect every action the machine issues in dispatch order.
fn drive(text: &str, platform: Platform, outcomes: &[bool]) -> (Vec<Action>, Injection) {
    let (mut machine, first) = Injection::start(text.to_string(), platform);
    let mut actions = vec![first];
    let mut i = 0;
    loop {
        let ok = if i < outcomes.len() { outcomes[i] } else { true };
        i += 1;
        match machine.on_outcome(ok) {
            Some(action) => actions.push(action),
            None => break,
        }
    }
    (actions, machine)
}

#[test]
fn hello_world_key_synthesis_sequence() {
    let (actions, machine) = drive("hello world", Platform::KeySynthesis, &[true; 7]);
    assert_eq!(
        actions,
        vec![
            Action::WriteClipboard("hello world".to_string()),
            Action::Sleep(SETTLE_MILLIS),
            Action::PressModifier,
            Action::Sleep(KEY_GAP_MILLIS),
            Action::ClickKey('v'),
            Action::Sleep(KEY_GAP_MILLIS),
            Action::ReleaseModifier,
        ]
    );
    assert!(machine.finished());
    assert!(!machine.aborted());
}

#[test]
fn hello_world_script_delegation_sequence() {
    let (actions, machine) = drive("hello world", Platform::ScriptDelegation, &[true; 3]);
    assert_eq!(actions.len(), 3);
    assert_eq!(
        actions[0],
        Action::WriteClipboard("hello world".to_string())
    );
    assert_eq!(actions[1], Action::Sleep(SETTLE_MILLIS));
    match &actions[2] {
        Action::RunScript(script) => {
            assert!(script.contains("keystroke \"v\" using command down"));
        }
        other => panic!("expected a script invocation, got {:?}", other),
    }
    assert!(machine.finished());
}

#[test]
fn exactly_one_script_invocation() {
    let (actions, _) = drive("x", Platform::ScriptDelegation, &[true; 5]);
    let scripts = actions
        .iter()
        .filter(|a| matches!(a, Action::RunScript(_)))
        .count();
    assert_eq!(scripts, 1);
}

#[test]
fn clipboard_payload_is_exact_for_all_strings() {
    for text in ["", "line one\nline two\n", "   \t  ", "héllo wörld ✓"] {
        let (actions, _) = drive(text, Platform::KeySynthesis, &[true; 7]);
        assert_eq!(actions[0], Action::WriteClipboard(text.to_string()));
        // The settle delay begins right after the write succeeded.
        assert_eq!(actions[1], Action::Sleep(SETTLE_MILLIS));
    }
}

#[test]
fn clipboard_failure_aborts_without_gesture() {
    for platform in [Platform::KeySynthesis, Platform::ScriptDelegation] {
        let (mut machine, first) = Injection::start("payload".to_string(), platform);
        assert_eq!(first, Action::WriteClipboard("payload".to_string()));
        // The clipboard backend is unavailable: the write fails.
        assert_eq!(machine.on_outcome(false), None);
        assert!(machine.finished());
        assert!(machine.aborted());
        // Nothing further is ever issued, whatever is reported.
        assert_eq!(machine.on_outcome(true), None);
        assert_eq!(machine.on_outcome(false), None);
        assert!(machine.aborted());
    }
}

#[test]
fn gesture_failures_are_swallowed() {
    // Every sub-step after the clipboard write fails; the sequence still
    // runs to completion, identical to the all-success run.
    let (failed, machine) =
        drive("x", Platform::KeySynthesis, &[true, false, false, false, false, false, false]);
    let (succeeded, _) = drive("x", Platform::KeySynthesis, &[true; 7]);
    assert_eq!(failed, succeeded);
    assert!(machine.finished());
    assert!(!machine.aborted());
}

#[test]
fn settle_delay_is_nonzero_and_precedes_gesture() {
    assert!(SETTLE_MILLIS > 0);
    assert_eq!(SETTLE_MILLIS, 100);
    assert_eq!(KEY_GAP_MILLIS, 100);
    for platform in [Platform::KeySynthesis, Platform::ScriptDelegation] {
        let (actions, _) = drive("abc", platform, &[true; 7]);
        let gesture_positions: Vec<usize> = actions
            .iter()
            .enumerate()
            .filter(|(_, a)| {
                matches!(
                    a,
                    Action::RunScript(_)
                        | Action::PressModifier
                        | Action::ClickKey(_)
                        | Action::ReleaseModifier
                )
            })
            .map(|(i, _)| i)
            .collect();
        assert!(!gesture_positions.is_empty());
        for i in gesture_positions {
            assert!(i >= 2);
        }
        assert_eq!(actions[1], Action::Sleep(SETTLE_MILLIS));
    }
}

#[test]
fn paste_script_text_is_fixed() {
    assert_eq!(
        paste_script(),
        "tell application \"System Events\" to keystroke \"v\" using command down"
    );
    assert_eq!(paste_script().len(), 68);
    assert_eq!(&paste_script()[36..68], "keystroke \"v\" using command down");
}

#[test]
fn synthesized_chord_is_v_with_modifier_held() {
    let (actions, _) = drive("abc", Platform::KeySynthesis, &[true; 7]);
    let keys: Vec<&Action> = actions
        .iter()
        .filter(|a| !matches!(a, Action::Sleep(_) | Action::WriteClipboard(_)))
        .collect();
    assert_eq!(keys.len(), 3);
    assert_eq!(*keys[0], Action::PressModifier);
    assert_eq!(*keys[1], Action::ClickKey('v'));
    assert_eq!(*keys[2], Action::ReleaseModifier);
}
