use text_injector::hotkey::{HotkeyListener, ShortcutSignal};
use text_injector::hotkey::{toggle_event_name, toggle_marker};

#[test]
fn single_press_release_emits_once() {
    let mut listener = HotkeyListener::new();
    let mut emissions = 0;
    if listener.on_signal(ShortcutSignal::Press) {
        emissions += 1;
    }
    if listener.on_signal(ShortcutSignal::Release) {
        emissions += 1;
    }
    assert_eq!(emissions, 1);
}

#[test]
fn held_combination_emits_once() {
    // The OS may repeat-fire presses while the combination is held; only the
    // rising edge emits.
    let mut listener = HotkeyListener::new();
    let mut emissions = 0;
    let signals = [
        ShortcutSignal::Press,
        ShortcutSignal::Press,
        ShortcutSignal::Press,
        ShortcutSignal::Press,
        ShortcutSignal::Release,
    ];
    for sig in signals {
        if listener.on_signal(sig) {
            emissions += 1;
        }
    }
    assert_eq!(emissions, 1);
}

#[test]
fn two_presses_emit_twice_with_same_marker() {
    let mut listener = HotkeyListener::new();
    let mut markers: Vec<&'static str> = Vec::new();
    let signals = [
        ShortcutSignal::Press,
        ShortcutSignal::Release,
        ShortcutSignal::Press,
        ShortcutSignal::Press,
        ShortcutSignal::Release,
    ];
    for sig in signals {
        if listener.on_signal(sig) {
            markers.push(toggle_marker());
        }
    }
    assert_eq!(markers.len(), 2);
    assert_eq!(markers[0], markers[1]);
    assert_eq!(markers[0], "true");
}

#[test]
fn release_without_press_emits_nothing() {
    let mut listener = HotkeyListener::new();
    assert!(!listener.on_signal(ShortcutSignal::Release));
    assert!(!listener.on_signal(ShortcutSignal::Release));
    assert!(listener.on_signal(ShortcutSignal::Press));
}

#[test]
fn event_name_and_marker_are_fixed() {
    assert_eq!(toggle_event_name(), "toggle-recording");
    assert_eq!(toggle_marker(), "true");
}
