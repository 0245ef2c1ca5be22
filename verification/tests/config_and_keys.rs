use vkey::config::AppConfig;
use vkey::error::VKeyError;
use vkey::keys::{is_word_boundary_char, shifted_char, to_lower, to_upper, PressedKey};
use vkey::layout::{get_char, KeyboardLayout};
use vkey::platform::{should_dismiss_selection_if_needed, MacOSKeyboardHandler};
use vkey::types::{Encoding, InputMode, InputType, KeyboardConfig};

#[test]
fn default_config_values() {
    let c = AppConfig::default();
    assert_eq!(c.input_type, InputType::Telex);
    assert_eq!(c.encoding, Encoding::Unicode);
    assert_eq!(c.input_mode, InputMode::English);
    assert_eq!(c.global_hotkey.as_deref(), Some("cmd+space"));
    assert!(c.auto_save);
    assert!(c.keyboard.cmd_enabled);
    assert!(c.keyboard.home_enabled);
    assert!(!c.keyboard.shift_enabled);
    assert!(c.advanced.spell_check);
    assert!(!c.advanced.replace_oa_uy);
}

#[test]
fn toggle_vietnamese_mode_flips() {
    let mut c = AppConfig::default();
    assert!(!c.is_vietnamese_enabled());
    c.toggle_vietnamese_mode().unwrap();
    assert!(c.is_vietnamese_enabled());
    c.toggle_vietnamese_mode().unwrap();
    assert!(!c.is_vietnamese_enabled());
}

#[test]
fn set_vietnamese_mode_sets() {
    let mut c = AppConfig::default();
    c.set_vietnamese_mode(true).unwrap();
    assert_eq!(c.input_mode, InputMode::Vietnamese);
    c.set_vietnamese_mode(false).unwrap();
    assert_eq!(c.input_mode, InputMode::English);
}

#[test]
fn hotkey_validation_accepts_known_chords() {
    let c = AppConfig::default();
    assert!(c.is_valid_hotkey("cmd+space"));
    assert!(c.is_valid_hotkey("ctrl+shift+v"));
    assert!(c.is_valid_hotkey("Option+Enter"));
    assert!(c.is_valid_hotkey(" cmd + i "));
    assert!(c.is_valid_hotkey("cmd+space+x"));
}

#[test]
fn hotkey_validation_rejects_malformed() {
    let c = AppConfig::default();
    assert!(!c.is_valid_hotkey(""));
    assert!(!c.is_valid_hotkey("space"));
    assert!(!c.is_valid_hotkey("cmd"));
    assert!(!c.is_valid_hotkey("cmd+"));
    assert!(!c.is_valid_hotkey("cmd+!"));
    assert!(!c.is_valid_hotkey("cmd+space+??"));
    assert!(!c.is_valid_hotkey("meta+space"));
}

#[test]
fn set_global_hotkey_accepts_valid() {
    let mut c = AppConfig::default();
    c.set_global_hotkey("ctrl+i").unwrap();
    assert_eq!(c.global_hotkey.as_deref(), Some("ctrl+i"));
}

#[test]
fn set_global_hotkey_rejects_invalid() {
    let mut c = AppConfig::default();
    let e = c.set_global_hotkey("bogus").unwrap_err();
    match e {
        VKeyError::ConfigError(m) => {
            assert_eq!(m, "Invalid hotkey format: 'bogus'");
        }
        other => panic!("unexpected error {:?}", other),
    }
    assert_eq!(c.global_hotkey.as_deref(), Some("cmd+space"));
}

#[test]
fn error_messages_carry_prefix() {
    let e = VKeyError::InputError("x".to_string());
    assert_eq!(e.message(), "Input error: x");
    let s = VKeyError::SystemError("y".to_string());
    assert_eq!(s.message(), "System error: y");
}

#[test]
fn hotkey_options_and_descriptions() {
    let opts = AppConfig::get_hotkey_options();
    assert_eq!(opts.len(), 6);
    assert_eq!(opts[0].0, "cmd+space");
    assert_eq!(opts[0].1, "\u{2318} + Space");
    let c = AppConfig::default();
    assert_eq!(c.get_hotkey_description(), "\u{2318} + Space");
    let mut c2 = AppConfig::default();
    c2.set_global_hotkey("ctrl+i").unwrap();
    assert_eq!(c2.get_hotkey_description(), "\u{2303} + I");
    let mut c3 = AppConfig::default();
    c3.global_hotkey = Some("cmd+k".to_string());
    assert_eq!(c3.get_hotkey_description(), "cmd+k");
    let mut c4 = AppConfig::default();
    c4.global_hotkey = None;
    assert_eq!(c4.get_hotkey_description(), "None");
}

#[test]
fn validate_and_fix_repairs_hotkey_and_keyboard() {
    let mut c = AppConfig::default();
    c.global_hotkey = None;
    c.keyboard = KeyboardConfig {
        shift_enabled: false,
        ctrl_enabled: false,
        cmd_enabled: false,
        home_enabled: false,
        beep_enabled: false,
    };
    c.validate_and_fix().unwrap();
    assert_eq!(c.global_hotkey.as_deref(), Some("cmd+space"));
    assert!(c.keyboard.cmd_enabled);

    let mut c2 = AppConfig::default();
    c2.global_hotkey = Some("garbage".to_string());
    c2.validate_and_fix().unwrap();
    assert_eq!(c2.global_hotkey.as_deref(), Some("cmd+space"));

    let mut c3 = AppConfig::default();
    c3.global_hotkey = Some("ctrl+shift+v".to_string());
    c3.validate_and_fix().unwrap();
    assert_eq!(c3.global_hotkey.as_deref(), Some("ctrl+shift+v"));
}

#[test]
fn reset_to_default_restores_everything() {
    let mut c = AppConfig::default();
    c.set_vietnamese_mode(true).unwrap();
    c.set_global_hotkey("ctrl+i").unwrap();
    c.reset_to_default().unwrap();
    assert_eq!(c.input_mode, InputMode::English);
    assert_eq!(c.global_hotkey.as_deref(), Some("cmd+space"));
}

#[test]
fn shifted_characters_map_to_symbols() {
    assert_eq!(shifted_char('.'), '>');
    assert_eq!(shifted_char(','), '<');
    assert_eq!(shifted_char('1'), '!');
    assert_eq!(shifted_char('5'), '%');
    assert_eq!(shifted_char('='), '+');
    assert_eq!(shifted_char('a'), 'A');
    assert_eq!(shifted_char('z'), 'Z');
    assert_eq!(shifted_char('A'), 'A');
    assert_eq!(shifted_char(' '), ' ');
}

#[test]
fn case_mapping_helpers() {
    assert_eq!(to_lower('A'), 'a');
    assert_eq!(to_lower('Z'), 'z');
    assert_eq!(to_lower('a'), 'a');
    assert_eq!(to_lower('5'), '5');
    assert_eq!(to_upper('a'), 'A');
    assert_eq!(to_upper('!'), '!');
}

#[test]
fn word_boundary_characters() {
    for c in ['(', ')', '[', ']', '{', '}', '<', '>', '/', '\\', '!', '@', '#', '$', '%', '^',
        '&', '*', '-', '_', '=', '+', '|', '~', '`', ',', '.', ';', '\'', '"', '?'] {
        assert!(is_word_boundary_char(c));
    }
    for c in ['a', 'Z', '0', '9', ' '] {
        assert!(!is_word_boundary_char(c));
    }
}

#[test]
fn layout_resolves_keycodes() {
    let l = KeyboardLayout::identity();
    assert_eq!(get_char(0, &l), Some(PressedKey::Char('a')));
    assert_eq!(get_char(1, &l), Some(PressedKey::Char('s')));
    assert_eq!(get_char(50, &l), Some(PressedKey::Char('`')));
    assert_eq!(get_char(36, &l), Some(PressedKey::Char('\r')));
    assert_eq!(get_char(52, &l), Some(PressedKey::Char('\r')));
    assert_eq!(get_char(49, &l), Some(PressedKey::Char(' ')));
    assert_eq!(get_char(48, &l), Some(PressedKey::Char('\t')));
    assert_eq!(get_char(51, &l), Some(PressedKey::Char('\u{8}')));
    assert_eq!(get_char(53, &l), Some(PressedKey::Char('\u{1B}')));
    assert_eq!(get_char(99, &l), Some(PressedKey::Raw(99)));
}

#[test]
fn layout_mapping_overrides_base_characters() {
    let l = KeyboardLayout::from_pairs(vec![('a', 'q'), ('s', 'o')]);
    assert_eq!(get_char(0, &l), Some(PressedKey::Char('q')));
    assert_eq!(get_char(1, &l), Some(PressedKey::Char('o')));
    assert_eq!(get_char(2, &l), Some(PressedKey::Char('d')));
}

#[test]
fn selection_dismissal_targets_browsers() {
    assert!(should_dismiss_selection_if_needed("/Applications/Google Chrome.app"));
    assert!(should_dismiss_selection_if_needed("/Applications/Firefox.app"));
    assert!(!should_dismiss_selection_if_needed("/Applications/Safari.app"));
    assert!(!should_dismiss_selection_if_needed(""));
}

#[test]
fn keyboard_handler_keeps_plain_state() {
    let mut h = MacOSKeyboardHandler::new(InputType::Telex);
    assert_eq!(h.get_current_buffer(), "");
    h.set_enabled(true);
    h.set_input_type(InputType::VNI);
    h.clear_buffer();
    assert_eq!(h.get_current_buffer(), "");
    let h2 = MacOSKeyboardHandler::new_with_system_integration(InputType::Telex);
    assert!(h2.is_ok());
}

#[test]
fn input_type_names() {
    assert_eq!(InputType::Telex.name(), "Telex");
    assert_eq!(InputType::VNI.name(), "VNI");
    assert_eq!(InputType::VIQR.name(), "VIQR");
    assert_eq!(Encoding::VNIWin.name(), "VNI-Win");
}
