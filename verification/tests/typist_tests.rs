use ocr_typist::keys::KeyId;
use ocr_typist::region::Region;
use ocr_typist::region::capture_region;
use ocr_typist::sanitize::sanitize;
use ocr_typist::typist::InputEvent;
use ocr_typist::typist::KEY_DELAY_MS;
use ocr_typist::typist::key_event_sequence;
use ocr_typist::typist::keystrokes_for;
use ocr_typist::typist::typing_plan;

#[test]
fn hello_world_scenario() {
    let raw = "!Hello, World!";
    let cleaned = sanitize(raw);
    assert_eq!(cleaned, "Hello, World!");
    let strokes = keystrokes_for(&cleaned);
    let expected = vec![
        (KeyId::KeyH, true),
        (KeyId::KeyE, false),
        (KeyId::KeyL, false),
        (KeyId::KeyL, false),
        (KeyId::KeyO, false),
        (KeyId::Comma, false),
        (KeyId::KeyW, true),
        (KeyId::KeyO, false),
        (KeyId::KeyR, false),
        (KeyId::KeyL, false),
        (KeyId::KeyD, false),
        (KeyId::Num1, true),
    ];
    assert_eq!(strokes.len(), 12);
    assert_eq!(strokes, expected);
    assert_eq!(typing_plan(raw), expected);
}

#[test]
fn lone_marker_scenario() {
    let raw = "!";
    let cleaned = sanitize(raw);
    assert_eq!(cleaned, "!");
    let strokes = keystrokes_for(&cleaned);
    assert_eq!(strokes, vec![(KeyId::Num1, true)]);
    assert_eq!(typing_plan(raw), vec![(KeyId::Num1, true)]);
}

#[test]
fn non_ascii_scenario() {
    let raw = "H\u{e9}llo";
    let cleaned = sanitize(raw);
    assert_eq!(cleaned, "Hllo");
    let strokes = keystrokes_for(&cleaned);
    let expected = vec![
        (KeyId::KeyH, true),
        (KeyId::KeyL, false),
        (KeyId::KeyL, false),
        (KeyId::KeyO, false),
    ];
    assert_eq!(strokes.len(), 4);
    assert_eq!(strokes, expected);
    assert_eq!(typing_plan(raw), expected);
}

#[test]
fn unmapped_chars_produce_no_keystroke() {
    assert_eq!(keystrokes_for(" . "), vec![]);
    assert_eq!(keystrokes_for("a b"), vec![(KeyId::KeyA, false), (KeyId::KeyB, false)]);
}

#[test]
fn empty_text_produces_no_keystroke() {
    assert_eq!(keystrokes_for(""), vec![]);
    assert_eq!(typing_plan(""), vec![]);
}

#[test]
fn shifted_keystroke_unfolds_to_four_events() {
    let events = key_event_sequence(KeyId::Num1, true);
    assert_eq!(
        events,
        vec![
            InputEvent::Press(KeyId::ShiftLeft),
            InputEvent::Press(KeyId::Num1),
            InputEvent::Release(KeyId::Num1),
            InputEvent::Release(KeyId::ShiftLeft),
        ]
    );
}

#[test]
fn plain_keystroke_unfolds_to_two_events() {
    let events = key_event_sequence(KeyId::KeyA, false);
    assert_eq!(events, vec![InputEvent::Press(KeyId::KeyA), InputEvent::Release(KeyId::KeyA)]);
}

#[test]
fn inter_key_delay_is_fixed() {
    assert_eq!(KEY_DELAY_MS, 60);
}

#[test]
fn capture_region_is_the_fixed_rectangle() {
    let r = capture_region();
    assert_eq!(r, Region { x: 772, y: 425, width: 350, height: 30 });
    assert!(r.width > 0 && r.height > 0);
}
