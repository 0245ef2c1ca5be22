use vkey::keys::{EventTapType, PressedKey};
use vkey::modifier::{is_hotkey_match, Hotkey, KeyModifier};
use vkey::orchestrator::{EventOrchestrator, KeyDecision, RAW_ARROW_LEFT, RAW_KEY_GLOBE};
use vkey::types::InputType;

fn orch() -> EventOrchestrator {
    EventOrchestrator::new(InputType::Telex, Hotkey::default())
}

fn super_mods() -> KeyModifier {
    let mut m = KeyModifier::new();
    m.add_super();
    m
}

fn pass() -> KeyDecision {
    KeyDecision { block: false, erase: 0, insert: None }
}

#[test]
fn hotkey_chord_toggles_exactly_once() {
    let mut o = orch();
    assert!(o.is_enabled());
    let d1 = o.handle_event(
        EventTapType::KeyDown,
        Some(PressedKey::Char(' ')),
        super_mods(),
        false,
    );
    assert!(d1.block);
    assert!(o.is_enabled());
    // key repeats while the chord is held must not toggle
    for _ in 0..3 {
        let d = o.handle_event(
            EventTapType::KeyDown,
            Some(PressedKey::Char(' ')),
            super_mods(),
            false,
        );
        assert!(d.block);
        assert!(o.is_enabled());
    }
    // releasing all modifiers fires the toggle once
    let d2 = o.handle_event(EventTapType::FlagsChanged, None, KeyModifier::new(), false);
    assert!(!d2.block);
    assert!(!o.is_enabled());
    // a further release changes nothing
    o.handle_event(EventTapType::FlagsChanged, None, KeyModifier::new(), false);
    assert!(!o.is_enabled());
}

#[test]
fn modifier_release_without_arming_does_not_toggle() {
    let mut o = orch();
    o.handle_event(EventTapType::FlagsChanged, None, super_mods(), false);
    o.handle_event(EventTapType::FlagsChanged, None, KeyModifier::new(), false);
    assert!(o.is_enabled());
}

#[test]
fn globe_key_toggles_unconditionally() {
    let mut o = orch();
    let d = o.handle_event(
        EventTapType::KeyDown,
        Some(PressedKey::Raw(RAW_KEY_GLOBE)),
        KeyModifier::new(),
        false,
    );
    assert!(d.block);
    assert!(!o.is_enabled());
}

#[test]
fn arrow_key_resets_word_and_passes() {
    let mut o = orch();
    o.handle_event(EventTapType::KeyDown, Some(PressedKey::Char('v')), KeyModifier::new(), false);
    assert!(!o.processor().is_buffer_empty());
    let d = o.handle_event(
        EventTapType::KeyDown,
        Some(PressedKey::Raw(RAW_ARROW_LEFT)),
        KeyModifier::new(),
        false,
    );
    assert_eq!(d, pass());
    assert!(o.processor().is_buffer_empty());
}

#[test]
fn super_chord_resets_word_and_passes() {
    let mut o = orch();
    o.handle_event(EventTapType::KeyDown, Some(PressedKey::Char('v')), KeyModifier::new(), false);
    let d = o.handle_event(EventTapType::KeyDown, Some(PressedKey::Char('c')), super_mods(), false);
    assert_eq!(d, pass());
    assert!(o.processor().is_buffer_empty());
}

#[test]
fn control_chord_resets_word_and_passes() {
    let mut o = orch();
    o.handle_event(EventTapType::KeyDown, Some(PressedKey::Char('v')), KeyModifier::new(), false);
    let mut mods = KeyModifier::new();
    mods.add_control();
    let d = o.handle_event(EventTapType::KeyDown, Some(PressedKey::Char('c')), mods, false);
    assert_eq!(d, pass());
    assert!(o.processor().is_buffer_empty());
}

#[test]
fn typing_injects_transformed_text() {
    let mut o = orch();
    let d1 = o.handle_event(
        EventTapType::KeyDown,
        Some(PressedKey::Char('v')),
        KeyModifier::new(),
        false,
    );
    assert_eq!(
        d1,
        KeyDecision { block: true, erase: 0, insert: Some("v".to_string()) }
    );
    let d2 = o.handle_event(
        EventTapType::KeyDown,
        Some(PressedKey::Char('i')),
        KeyModifier::new(),
        false,
    );
    assert_eq!(
        d2,
        KeyDecision { block: true, erase: 1, insert: Some("vi".to_string()) }
    );
}

#[test]
fn disabled_lets_keys_through() {
    let mut o = orch();
    o.set_enabled(false);
    let d = o.handle_event(
        EventTapType::KeyDown,
        Some(PressedKey::Char('v')),
        KeyModifier::new(),
        false,
    );
    assert_eq!(d, pass());
    assert!(o.processor().is_buffer_empty());
}

#[test]
fn disabled_shifted_symbol_is_injected() {
    let mut o = orch();
    o.set_enabled(false);
    let mut mods = KeyModifier::new();
    mods.add_shift();
    let d = o.handle_event(EventTapType::KeyDown, Some(PressedKey::Char('.')), mods, false);
    assert_eq!(
        d,
        KeyDecision { block: true, erase: 0, insert: Some(">".to_string()) }
    );
}

#[test]
fn shifted_letter_is_composed_when_enabled() {
    let mut o = orch();
    let mut mods = KeyModifier::new();
    mods.add_shift();
    let d = o.handle_event(EventTapType::KeyDown, Some(PressedKey::Char('v')), mods, false);
    assert_eq!(
        d,
        KeyDecision { block: true, erase: 0, insert: Some("V".to_string()) }
    );
}

#[test]
fn backspace_event_rewrites_shorter_word() {
    let mut o = orch();
    o.handle_event(EventTapType::KeyDown, Some(PressedKey::Char('v')), KeyModifier::new(), false);
    o.handle_event(EventTapType::KeyDown, Some(PressedKey::Char('i')), KeyModifier::new(), false);
    let d = o.handle_event(
        EventTapType::KeyDown,
        Some(PressedKey::Char('\u{8}')),
        KeyModifier::new(),
        false,
    );
    assert_eq!(
        d,
        KeyDecision { block: true, erase: 2, insert: Some("v".to_string()) }
    );
}

#[test]
fn backspace_on_last_char_passes_to_host() {
    let mut o = orch();
    o.handle_event(EventTapType::KeyDown, Some(PressedKey::Char('v')), KeyModifier::new(), false);
    let d = o.handle_event(
        EventTapType::KeyDown,
        Some(PressedKey::Char('\u{8}')),
        KeyModifier::new(),
        false,
    );
    assert_eq!(d, pass());
    assert!(o.processor().is_buffer_empty());
}

#[test]
fn backspace_with_selection_clears_and_passes() {
    let mut o = orch();
    o.handle_event(EventTapType::KeyDown, Some(PressedKey::Char('v')), KeyModifier::new(), false);
    let d = o.handle_event(
        EventTapType::KeyDown,
        Some(PressedKey::Char('\u{8}')),
        KeyModifier::new(),
        true,
    );
    assert_eq!(d, pass());
    assert!(o.processor().is_buffer_empty());
}

#[test]
fn character_with_selection_starts_fresh_word() {
    let mut o = orch();
    o.handle_event(EventTapType::KeyDown, Some(PressedKey::Char('v')), KeyModifier::new(), false);
    let d = o.handle_event(
        EventTapType::KeyDown,
        Some(PressedKey::Char('a')),
        KeyModifier::new(),
        true,
    );
    assert_eq!(
        d,
        KeyDecision { block: true, erase: 0, insert: Some("a".to_string()) }
    );
    assert_eq!(o.processor().get_current_buffer(), "a");
}

#[test]
fn escape_event_restores_raw_word() {
    let mut o = orch();
    for k in ['v', 'i', 'e', 't', '6'] {
        o.handle_event(EventTapType::KeyDown, Some(PressedKey::Char(k)), KeyModifier::new(), false);
    }
    let d = o.handle_event(
        EventTapType::KeyDown,
        Some(PressedKey::Char('\u{1B}')),
        KeyModifier::new(),
        false,
    );
    assert_eq!(
        d,
        KeyDecision { block: true, erase: 5, insert: Some("viet6".to_string()) }
    );
}

#[test]
fn event_without_key_passes() {
    let mut o = orch();
    let d = o.handle_event(EventTapType::Other, None, KeyModifier::new(), false);
    assert_eq!(d, pass());
}

#[test]
fn set_input_type_clears_orchestrator_word() {
    let mut o = orch();
    o.handle_event(EventTapType::KeyDown, Some(PressedKey::Char('v')), KeyModifier::new(), false);
    o.set_input_type(InputType::VNI);
    assert!(o.processor().is_buffer_empty());
}

#[test]
fn toggle_vietnamese_clears_word() {
    let mut o = orch();
    o.handle_event(EventTapType::KeyDown, Some(PressedKey::Char('v')), KeyModifier::new(), false);
    o.toggle_vietnamese();
    assert!(!o.is_enabled());
    assert!(o.processor().is_buffer_empty());
}

#[test]
fn hotkey_match_requires_all_modifiers_and_trigger() {
    let hk = Hotkey::default();
    assert!(is_hotkey_match(&hk, super_mods(), Some(PressedKey::Char(' '))));
    let mut both = super_mods();
    both.add_shift();
    assert!(is_hotkey_match(&hk, both, Some(PressedKey::Char(' '))));
    assert!(!is_hotkey_match(&hk, super_mods(), Some(PressedKey::Char('a'))));
    assert!(!is_hotkey_match(&hk, KeyModifier::new(), Some(PressedKey::Char(' '))));
    assert!(!is_hotkey_match(&hk, super_mods(), None));
    assert!(!is_hotkey_match(&hk, super_mods(), Some(PressedKey::Raw(49))));
}

#[test]
fn modifier_bits_track_additions() {
    let mut m = KeyModifier::new();
    assert!(!m.is_shift() && !m.is_super() && !m.is_control() && !m.is_alt() && !m.is_capslock());
    m.add_shift();
    m.add_alt();
    assert!(m.is_shift());
    assert!(m.is_alt());
    assert!(!m.is_super());
    m.add_super();
    m.add_control();
    m.add_capslock();
    assert!(m.is_super() && m.is_control() && m.is_capslock());
}
