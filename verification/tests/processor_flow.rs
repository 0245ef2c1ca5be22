use vkey::processor::{ProcessingResult, VietnameseInputProcessor};
use vkey::types::InputType;

fn processed(text: &str, erase: usize) -> ProcessingResult {
    ProcessingResult::ProcessedText { text: text.to_string(), buffer_length: erase }
}

#[test]
fn non_ascii_key_passes_through() {
    let mut p = VietnameseInputProcessor::new(InputType::Telex);
    p.process_key('v');
    let before_typing = p.get_current_buffer().to_string();
    let before_display = p.get_display_buffer().to_string();
    let r = p.process_key('\u{e9}');
    assert_eq!(r, ProcessingResult::PassThrough('\u{e9}'));
    assert_eq!(p.get_current_buffer(), before_typing);
    assert_eq!(p.get_display_buffer(), before_display);
}

#[test]
fn control_key_passes_through() {
    let mut p = VietnameseInputProcessor::new(InputType::Telex);
    p.process_key('v');
    let r = p.process_key('\u{1}');
    assert_eq!(r, ProcessingResult::PassThrough('\u{1}'));
    assert_eq!(p.get_current_buffer(), "v");
}

#[test]
fn telex_typing_sequence_viet6() {
    let mut p = VietnameseInputProcessor::new(InputType::Telex);
    let keys = ['v', 'i', 'e', 't', '6'];
    let expected_texts = ["v", "vi", "vie", "viet", "viet6"];
    let expected_erase = [0usize, 1, 2, 3, 4];
    for (i, k) in keys.iter().enumerate() {
        let r = p.process_key(*k);
        assert_eq!(r, processed(expected_texts[i], expected_erase[i]));
    }
    assert_eq!(p.get_current_buffer(), "viet6");
}

#[test]
fn telex_display_matches_engine_transform() {
    // the display buffer after each keystroke must equal the engine's
    // transform of the typing buffer so far
    let mut p = VietnameseInputProcessor::new(InputType::Telex);
    for k in ['v', 'i', 'e', 't', '6'] {
        p.process_key(k);
        let mut expected = String::new();
        vi::transform_buffer(&vi::TELEX, p.get_current_buffer().chars(), &mut expected);
        assert_eq!(p.get_display_buffer(), expected);
    }
}

#[test]
fn vni_typing_sequence_viet65() {
    let mut p = VietnameseInputProcessor::new(InputType::VNI);
    let mut prev_len: usize = 0;
    let mut last_text = String::new();
    for k in ['v', 'i', 'e', 't', '6', '5'] {
        let r = p.process_key(k);
        match r {
            ProcessingResult::ProcessedText { text, buffer_length } => {
                assert_eq!(buffer_length, prev_len);
                prev_len = text.chars().count();
                last_text = text;
            }
            other => panic!("expected processed text, got {:?}", other),
        }
    }
    assert_eq!(last_text, "vi\u{1EC7}t");
}

#[test]
fn telex_tone_key_transforms() {
    let mut p = VietnameseInputProcessor::new(InputType::Telex);
    assert_eq!(p.process_key('a'), processed("a", 0));
    assert_eq!(p.process_key('s'), processed("\u{e1}", 1));
}

#[test]
fn backspace_after_viet6() {
    let mut p = VietnameseInputProcessor::new(InputType::Telex);
    for k in ['v', 'i', 'e', 't', '6'] {
        p.process_key(k);
    }
    let r = p.process_key('\u{8}');
    assert_eq!(r, processed("viet", 5));
    assert_eq!(p.get_current_buffer(), "viet");
}

#[test]
fn backspaces_drain_to_clear() {
    let mut p = VietnameseInputProcessor::new(InputType::Telex);
    for k in ['a', 'b', 'c'] {
        p.process_key(k);
    }
    assert_eq!(p.process_key('\u{8}'), processed("ab", 3));
    assert_eq!(p.process_key('\u{8}'), processed("a", 2));
    assert_eq!(p.process_key('\u{8}'), ProcessingResult::ClearAndPassBackspace);
    assert!(p.is_buffer_empty());
    assert!(p.is_tracking());
    assert_eq!(p.get_display_buffer(), "");
}

#[test]
fn backspace_on_empty_passes_through() {
    let mut p = VietnameseInputProcessor::new(InputType::Telex);
    assert_eq!(p.process_key('\u{8}'), ProcessingResult::PassThrough('\u{8}'));
}

#[test]
fn space_commits_word() {
    let mut p = VietnameseInputProcessor::new(InputType::Telex);
    p.process_key('v');
    p.process_key('i');
    let r = p.process_key(' ');
    assert_eq!(r, processed("vi ", 2));
    assert!(p.is_buffer_empty());
    assert!(p.is_tracking());
    assert_eq!(p.get_previous_word(), "vi");
}

#[test]
fn space_on_empty_passes_through() {
    let mut p = VietnameseInputProcessor::new(InputType::Telex);
    assert_eq!(p.process_key(' '), ProcessingResult::PassThrough(' '));
}

#[test]
fn enter_commits_silently() {
    let mut p = VietnameseInputProcessor::new(InputType::Telex);
    p.process_key('v');
    p.process_key('i');
    let r = p.process_key('\r');
    assert_eq!(r, ProcessingResult::PassThrough('\n'));
    assert!(p.is_buffer_empty());
    assert!(p.is_tracking());
    assert_eq!(p.get_previous_word(), "vi");
}

#[test]
fn tab_commits_silently() {
    let mut p = VietnameseInputProcessor::new(InputType::Telex);
    p.process_key('v');
    let r = p.process_key('\t');
    assert_eq!(r, ProcessingResult::PassThrough('\t'));
    assert!(p.is_buffer_empty());
    assert!(p.is_tracking());
}

#[test]
fn double_s_suspends_tracking() {
    let mut p = VietnameseInputProcessor::new(InputType::Telex);
    p.process_key('s');
    p.process_key('s');
    assert_eq!(p.get_current_buffer(), "ss");
    assert!(!p.is_tracking());
    let r = p.process_key('a');
    assert_eq!(r, ProcessingResult::PassThrough('a'));
    assert_eq!(p.get_current_buffer(), "ss");
}

#[test]
fn triple_a_suspends_tracking() {
    let mut p = VietnameseInputProcessor::new(InputType::Telex);
    p.process_key('a');
    p.process_key('a');
    p.process_key('a');
    assert_eq!(p.get_current_buffer(), "aaa");
    assert!(!p.is_tracking());
}

#[test]
fn word_boundary_commits_and_resumes() {
    let mut p = VietnameseInputProcessor::new(InputType::Telex);
    p.process_key('s');
    p.process_key('s');
    assert!(!p.is_tracking());
    let r = p.process_key('.');
    // a word-boundary key is dispatched only while tracking; suspended,
    // it passes through untouched
    assert_eq!(r, ProcessingResult::PassThrough('.'));
    assert_eq!(p.get_current_buffer(), "ss");
    let mut q = VietnameseInputProcessor::new(InputType::Telex);
    q.process_key('a');
    q.process_key('b');
    let r2 = q.process_key('.');
    assert_eq!(r2, ProcessingResult::PassThrough('.'));
    assert!(q.is_buffer_empty());
    assert!(q.is_tracking());
    assert_eq!(q.get_previous_word(), "ab");
}

#[test]
fn escape_restores_raw_text() {
    let mut p = VietnameseInputProcessor::new(InputType::Telex);
    for k in ['v', 'i', 'e', 't', '6'] {
        p.process_key(k);
    }
    let r = p.process_key('\u{1B}');
    assert_eq!(
        r,
        ProcessingResult::RestoreText { text: "viet6".to_string(), buffer_length: 5 }
    );
    assert!(p.is_buffer_empty());
    assert!(p.is_tracking());
}

#[test]
fn escape_on_empty_passes_through() {
    let mut p = VietnameseInputProcessor::new(InputType::Telex);
    assert_eq!(p.process_key('\u{1B}'), ProcessingResult::PassThrough('\u{1B}'));
}

#[test]
fn max_length_overflow_commits() {
    let mut p = VietnameseInputProcessor::new(InputType::Telex);
    for _ in 0..10 {
        p.process_key('q');
    }
    assert_eq!(p.get_current_buffer(), "qqqqqqqqqq");
    let r = p.process_key('q');
    assert_eq!(r, ProcessingResult::PassThrough('q'));
    assert!(p.is_buffer_empty());
    assert_eq!(p.get_previous_word(), "qqqqqqqqqq");
}

#[test]
fn digit_prefix_is_stripped() {
    let mut p = VietnameseInputProcessor::new(InputType::Telex);
    assert_eq!(p.process_key('1'), processed("1", 0));
    let r = p.process_key('a');
    assert_eq!(r, processed("a", 0));
    assert_eq!(p.get_current_buffer(), "a");
}

#[test]
fn set_input_type_clears_buffers() {
    let mut p = VietnameseInputProcessor::new(InputType::Telex);
    p.process_key('v');
    p.process_key('i');
    p.set_input_type(InputType::VNI);
    assert!(p.is_buffer_empty());
    assert_eq!(p.get_display_buffer(), "");
}

#[test]
fn viqr_falls_back_to_raw_buffer() {
    let mut p = VietnameseInputProcessor::new(InputType::VIQR);
    assert_eq!(p.process_key('a'), processed("a", 0));
    assert_eq!(p.process_key('b'), processed("ab", 1));
    assert_eq!(p.get_display_buffer(), "ab");
}

#[test]
fn backspace_count_formula() {
    let mut p = VietnameseInputProcessor::new(InputType::Telex);
    for k in ['v', 'i', 'e', 't', '6'] {
        p.process_key(k);
    }
    assert_eq!(p.get_backspace_count(false, false), 4);
    assert_eq!(p.get_backspace_count(true, false), 5);
    assert_eq!(p.get_backspace_count(false, true), 5);
    assert_eq!(p.get_backspace_count(true, true), 6);
    let q = VietnameseInputProcessor::new(InputType::Telex);
    assert_eq!(q.get_backspace_count(false, false), 0);
    assert_eq!(q.get_backspace_count(true, false), 0);
    assert_eq!(q.get_backspace_count(false, true), 1);
}

#[test]
fn restore_text_and_never_restore_by_validation() {
    let mut p = VietnameseInputProcessor::new(InputType::Telex);
    for k in ['v', 'i', 'e', 't', '6'] {
        p.process_key(k);
    }
    assert_eq!(p.get_restore_text(), "viet6");
    assert!(!p.should_restore_word());
}

#[test]
fn reset_forgets_everything() {
    let mut p = VietnameseInputProcessor::new(InputType::Telex);
    p.process_key('v');
    p.process_key(' ');
    p.process_key('s');
    p.process_key('s');
    p.reset();
    assert!(p.is_buffer_empty());
    assert!(p.is_tracking());
    assert_eq!(p.get_previous_word(), "");
    assert_eq!(p.get_display_buffer(), "");
}

#[test]
fn backspaces_restore_idle_after_suspension() {
    let mut p = VietnameseInputProcessor::new(InputType::Telex);
    p.process_key('s');
    p.process_key('s');
    assert!(!p.is_tracking());
    assert_eq!(p.process_key('\u{8}'), processed("s", 2));
    assert!(!p.is_tracking());
    assert_eq!(p.process_key('\u{8}'), ProcessingResult::ClearAndPassBackspace);
    assert!(p.is_buffer_empty());
    assert_eq!(p.get_display_buffer(), "");
    assert!(p.is_tracking());
}
