//! Per-event dispatch: route every observed key through hotkey tracking,
//! special-key handling and the transliteration processor, and decide
//! whether the physical event is suppressed and what synthetic text
//! replaces it.
//!
//! The decision logic is pinned by the spec transition `step_event`; the
//! caller performs the injection a `KeyDecision` asks for and returns its
//! `block` verdict to the platform tap.

use vstd::prelude::*;
use crate::keys::{shifted, shifted_char, EventTapType, PressedKey};
use crate::modifier::{Hotkey, KeyModifier, MODIFIER_ALT, MODIFIER_CONTROL, MODIFIER_SHIFT,
    MODIFIER_SUPER};
use crate::processor::{buffers_consistent, clear_spec, commit_word, step_backspace, step_key,
    ProcState, ProcessingOutcome, ProcessingResult, VietnameseInputProcessor};
use crate::text::char_to_string;
use crate::types::InputType;

verus! {

/// The dedicated physical toggle key present on some keyboards.
pub const RAW_KEY_GLOBE: u16 = 179;

pub const RAW_ARROW_UP: u16 = 0x7e;

pub const RAW_ARROW_DOWN: u16 = 0x7d;

pub const RAW_ARROW_LEFT: u16 = 0x7b;

pub const RAW_ARROW_RIGHT: u16 = 0x7c;

/// What the caller must do with one observed key event: inject `erase`
/// synthetic backspaces, then the `insert` text if any, and report `block`
/// to the platform so the physical event is suppressed or let through.
#[derive(Debug, Clone, PartialEq)]
pub struct KeyDecision {
    pub block: bool,
    pub erase: usize,
    pub insert: Option<String>,
}

/// A `KeyDecision` over sequences.
pub struct DecisionModel {
    pub block: bool,
    pub erase: int,
    pub insert: Option<Seq<char>>,
}

impl View for KeyDecision {
    type V = DecisionModel;

    open spec fn view(&self) -> DecisionModel {
        DecisionModel {
            block: self.block,
            erase: self.erase as int,
            insert: match &self.insert {
                Some(s) => Some(s@),
                None => None,
            },
        }
    }
}

impl KeyDecision {
    /// Let the physical event through unchanged, injecting nothing.
    pub fn pass() -> (r: KeyDecision)
        ensures
            r@ == pass_decision(),
    {
        KeyDecision { block: false, erase: 0, insert: None }
    }
}

/// The decision that lets the physical event through unchanged.
pub open spec fn pass_decision() -> DecisionModel {
    DecisionModel { block: false, erase: 0, insert: None }
}

/// The decision that suppresses the physical event without injecting.
pub open spec fn block_decision() -> DecisionModel {
    DecisionModel { block: true, erase: 0, insert: None }
}

/// How a processor outcome is carried out: rendered text replaces the
/// previous rendering and the physical key is suppressed; everything else
/// is let through (for `ClearErase`, the host itself deletes one
/// character).
pub open spec fn decision_of_outcome(o: ProcessingOutcome) -> DecisionModel {
    match o {
        ProcessingOutcome::Pass { .. } => pass_decision(),
        ProcessingOutcome::ClearErase => pass_decision(),
        ProcessingOutcome::Text { text, erase } => DecisionModel {
            block: true,
            erase,
            insert: Some(text),
        },
        ProcessingOutcome::Restore { text, erase } => DecisionModel {
            block: true,
            erase,
            insert: Some(text),
        },
    }
}

/// The mathematical state of the orchestrator.
#[verifier::ext_equal]
pub struct OrcState {
    /// The transliteration processor's state.
    pub processor: ProcState,
    /// Whether Vietnamese composition is on.
    pub enabled: bool,
    /// The configured toggle chord.
    pub hotkey: Hotkey,
    /// The modifiers as of the latest event.
    pub modifiers: KeyModifier,
    /// Whether the toggle chord was seen and the toggle fires on the next
    /// full modifier release.
    pub armed: bool,
}

/// Flip the enabled flag and drop the half-composed word.
pub open spec fn toggle_spec(s: OrcState) -> OrcState {
    OrcState { enabled: !s.enabled, processor: clear_spec(s.processor), ..s }
}

/// The backspace path: an active text selection or a disabled processor
/// lets the physical key through; otherwise the processor's backspace
/// outcome is carried out.
pub open spec fn step_backspace_event(s: OrcState, has_sel: bool) -> (OrcState, DecisionModel) {
    if has_sel {
        (OrcState { processor: clear_spec(s.processor), ..s }, pass_decision())
    } else if !s.enabled {
        (s, pass_decision())
    } else {
        let (p2, o) = step_backspace(s.processor);
        (OrcState { processor: p2, ..s }, decision_of_outcome(o))
    }
}

/// The character path: backspace goes to its own handler; shift rewrites
/// the key; with composition off a rewritten key is injected and anything
/// else passes; with composition on, an active selection first drops the
/// half-composed word, then the processor's outcome is carried out.
pub open spec fn step_transform(s: OrcState, ch: char, mods: KeyModifier, has_sel: bool) -> (
    OrcState,
    DecisionModel,
) {
    if ch == '\u{8}' {
        step_backspace_event(s, has_sel)
    } else {
        let t = if mods.has(MODIFIER_SHIFT) {
            shifted(ch)
        } else {
            ch
        };
        if t != ch && !s.enabled {
            (s, DecisionModel { block: true, erase: 0, insert: Some(seq![t]) })
        } else if !s.enabled {
            (s, pass_decision())
        } else {
            let s1 = if has_sel {
                OrcState { processor: clear_spec(s.processor), ..s }
            } else {
                s
            };
            let (p2, o) = step_key(s1.processor, t);
            (OrcState { processor: p2, ..s1 }, decision_of_outcome(o))
        }
    }
}

/// The full per-event transition.
///
/// A pure modifier change is recorded and, when everything was released
/// while the toggle chord was armed, fires the toggle once.  A key-down
/// matching the chord arms it and is suppressed.  A super chord, and the
/// navigation arrows, commit the current word and pass through.  With
/// composition on, alt and control chords over ordinary characters do the
/// same; the dedicated raw toggle key flips the enabled flag
/// unconditionally; everything else goes through the character path.
pub open spec fn step_event(
    s: OrcState,
    ev: EventTapType,
    key: Option<PressedKey>,
    mods: KeyModifier,
    has_sel: bool,
) -> (OrcState, DecisionModel) {
    let s0 = OrcState { modifiers: mods, ..s };
    if ev is FlagsChanged {
        if mods.is_empty() && s0.armed {
            (toggle_spec(OrcState { armed: false, ..s0 }), pass_decision())
        } else {
            (s0, pass_decision())
        }
    } else {
        match key {
            None => (s0, pass_decision()),
            Some(k) => {
                if s0.hotkey.matches_spec(mods, Some(k)) {
                    (OrcState { armed: true, ..s0 }, block_decision())
                } else if mods.has(MODIFIER_SUPER) {
                    (
                        OrcState { processor: commit_word(s0.processor), ..s0 },
                        pass_decision(),
                    )
                } else {
                    match k {
                        PressedKey::Char(ch) => {
                            if s0.enabled && ch != '\u{1B}' && ch != '\t' && ch != '\r'
                                && ch != '\u{8}' && (mods.has(MODIFIER_ALT) || mods.has(
                                MODIFIER_CONTROL,
                            )) {
                                (
                                    OrcState { processor: commit_word(s0.processor), ..s0 },
                                    pass_decision(),
                                )
                            } else {
                                step_transform(s0, ch, mods, has_sel)
                            }
                        },
                        PressedKey::Raw(code) => {
                            if code == RAW_KEY_GLOBE {
                                (toggle_spec(s0), block_decision())
                            } else if code == RAW_ARROW_UP || code == RAW_ARROW_DOWN
                                || code == RAW_ARROW_LEFT || code == RAW_ARROW_RIGHT {
                                (
                                    OrcState { processor: commit_word(s0.processor), ..s0 },
                                    pass_decision(),
                                )
                            } else {
                                (s0, pass_decision())
                            }
                        },
                    }
                }
            },
        }
    }
}

/// Glue around the processor: hotkey and modifier tracking, the enabled
/// flag, and the per-event dispatch.
#[derive(Debug)]
pub struct EventOrchestrator {
    processor: VietnameseInputProcessor,
    enabled: bool,
    hotkey: Hotkey,
    modifiers: KeyModifier,
    armed: bool,
}

impl View for EventOrchestrator {
    type V = OrcState;

    closed spec fn view(&self) -> OrcState {
        OrcState {
            processor: self.processor@,
            enabled: self.enabled,
            hotkey: self.hotkey,
            modifiers: self.modifiers,
            armed: self.armed,
        }
    }
}

impl EventOrchestrator {
    /// A fresh orchestrator: composition on, chord not armed, no
    /// modifiers held, a fresh processor for the given method.
    pub fn new(input_type: InputType, hotkey: Hotkey) -> (r: Self)
        ensures
            r@.processor == (ProcState {
                typing: Seq::empty(),
                display: Seq::empty(),
                input_type: input_type,
                tracking: true,
                previous: Seq::empty(),
                max_len: 10,
            }),
            r@.enabled,
            r@.hotkey == hotkey,
            r@.modifiers.bits == 0,
            !r@.armed,
    {
        EventOrchestrator {
            processor: VietnameseInputProcessor::new(input_type),
            enabled: true,
            hotkey,
            modifiers: KeyModifier::new(),
            armed: false,
        }
    }

    /// Flip the enabled flag and drop the half-composed word.
    pub fn toggle_vietnamese(&mut self)
        ensures
            final(self)@ == toggle_spec(old(self)@),
    {
        self.enabled = !self.enabled;
        self.processor.clear_buffer();
    }

    /// Whether Vietnamese composition is on.
    pub fn is_enabled(&self) -> (r: bool)
        ensures
            r == self@.enabled,
    {
        self.enabled
    }

    /// Turn composition on or off, dropping the half-composed word.
    pub fn set_enabled(&mut self, enabled: bool)
        ensures
            final(self)@ == (OrcState {
                enabled,
                processor: clear_spec(old(self)@.processor),
                ..old(self)@
            }),
    {
        self.enabled = enabled;
        self.processor.clear_buffer();
    }

    /// Switch the processor's input method, clearing its buffers.
    pub fn set_input_type(&mut self, input_type: InputType)
        ensures
            final(self)@ == (OrcState {
                processor: ProcState {
                    input_type,
                    ..clear_spec(old(self)@.processor)
                },
                ..old(self)@
            }),
    {
        self.processor.set_input_type(input_type);
    }

    /// The transliteration processor.
    pub fn processor(&self) -> (r: &VietnameseInputProcessor)
        ensures
            r@ == self@.processor,
    {
        &self.processor
    }

    /// The backspace path of the dispatch.
    pub fn handle_backspace_event(&mut self, has_text_selection: bool) -> (r: KeyDecision)
        ensures
            final(self)@ == step_backspace_event(old(self)@, has_text_selection).0,
            r@ == step_backspace_event(old(self)@, has_text_selection).1,
    {
        if has_text_selection {
            self.processor.clear_buffer();
            return KeyDecision::pass();
        }
        if !self.enabled {
            return KeyDecision::pass();
        }
        let outcome = self.processor.handle_backspace();
        decision_of(outcome)
    }

    /// The character path of the dispatch.
    pub fn transform_key(&mut self, ch: char, modifiers: KeyModifier, has_text_selection: bool)
        -> (r: KeyDecision)
        ensures
            final(self)@ == step_transform(old(self)@, ch, modifiers, has_text_selection).0,
            r@ == step_transform(old(self)@, ch, modifiers, has_text_selection).1,
    {
        if ch == '\u{8}' {
            return self.handle_backspace_event(has_text_selection);
        }
        let transformed = if modifiers.is_shift() {
            shifted_char(ch)
        } else {
            ch
        };
        if transformed != ch && !self.enabled {
            return KeyDecision { block: true, erase: 0, insert: Some(char_to_string(transformed)) };
        }
        if !self.enabled {
            return KeyDecision::pass();
        }
        if has_text_selection {
            self.processor.clear_buffer();
        }
        let outcome = self.processor.process_key(transformed);
        decision_of(outcome)
    }

    /// Dispatch one observed event and decide what to do with it.
    pub fn handle_event(
        &mut self,
        event_type: EventTapType,
        pressed_key: Option<PressedKey>,
        modifiers: KeyModifier,
        has_text_selection: bool,
    ) -> (r: KeyDecision)
        ensures
            final(self)@ == step_event(
                old(self)@,
                event_type,
                pressed_key,
                modifiers,
                has_text_selection,
            ).0,
            r@ == step_event(
                old(self)@,
                event_type,
                pressed_key,
                modifiers,
                has_text_selection,
            ).1,
    {
        self.modifiers = modifiers;
        if matches!(event_type, EventTapType::FlagsChanged) {
            if modifiers.is_none() && self.armed {
                self.armed = false;
                self.toggle_vietnamese();
            }
            return KeyDecision::pass();
        }
        let key = match pressed_key {
            None => {
                return KeyDecision::pass();
            },
            Some(k) => k,
        };
        if self.hotkey.matches(modifiers, Some(key)) {
            self.armed = true;
            return KeyDecision { block: true, erase: 0, insert: None };
        }
        if modifiers.is_super() {
            self.processor.new_word();
            return KeyDecision::pass();
        }
        match key {
            PressedKey::Char(ch) => {
                if self.enabled && ch != '\u{1B}' && ch != '\t' && ch != '\r' && ch != '\u{8}'
                    && (modifiers.is_alt() || modifiers.is_control()) {
                    self.processor.new_word();
                    return KeyDecision::pass();
                }
                self.transform_key(ch, modifiers, has_text_selection)
            },
            PressedKey::Raw(code) => {
                if code == RAW_KEY_GLOBE {
                    self.toggle_vietnamese();
                    return KeyDecision { block: true, erase: 0, insert: None };
                }
                if code == RAW_ARROW_UP || code == RAW_ARROW_DOWN || code == RAW_ARROW_LEFT
                    || code == RAW_ARROW_RIGHT {
                    self.processor.new_word();
                    return KeyDecision::pass();
                }
                KeyDecision::pass()
            },
        }
    }
}

/// Carry a processor outcome out as a decision.
fn decision_of(o: ProcessingResult) -> (r: KeyDecision)
    ensures
        r@ == decision_of_outcome(o@),
{
    match o {
        ProcessingResult::PassThrough(_) => KeyDecision::pass(),
        ProcessingResult::ClearAndPassBackspace => KeyDecision::pass(),
        ProcessingResult::ProcessedText { text, buffer_length } => KeyDecision {
            block: true,
            erase: buffer_length,
            insert: Some(text),
        },
        ProcessingResult::RestoreText { text, buffer_length } => KeyDecision {
            block: true,
            erase: buffer_length,
            insert: Some(text),
        },
    }
}

/// Law: pressing the toggle chord arms it without flipping the enabled
/// flag, key repeats of the chord change nothing further, the first full
/// modifier release then flips the flag exactly once, and another release
/// leaves it alone.
pub proof fn lemma_hotkey_toggles_once(
    s: OrcState,
    mods: KeyModifier,
    key: PressedKey,
    released: KeyModifier,
)
    requires
        s.hotkey.matches_spec(mods, Some(key)),
        released.is_empty(),
    ensures
        ({
            let s1 = step_event(s, EventTapType::KeyDown, Some(key), mods, false).0;
            let s2 = step_event(s1, EventTapType::KeyDown, Some(key), mods, false).0;
            let s3 = step_event(s2, EventTapType::FlagsChanged, None, released, false).0;
            let s4 = step_event(s3, EventTapType::FlagsChanged, None, released, false).0;
            s1.enabled == s.enabled && s1.armed
            && s2 == s1
            && s3.enabled == !s.enabled && !s3.armed
            && s4.enabled == s3.enabled
        }),
{
}

/// Law: whatever event arrives, the dispatcher keeps the processor's
/// display buffer equal to the engine's rendering of its typing buffer.
pub proof fn lemma_event_keeps_buffers_consistent(
    s: OrcState,
    ev: EventTapType,
    key: Option<PressedKey>,
    mods: KeyModifier,
    has_sel: bool,
)
    requires
        buffers_consistent(s.processor),
    ensures
        buffers_consistent(step_event(s, ev, key, mods, has_sel).0.processor),
{
    let s0 = OrcState { modifiers: mods, ..s };
    if !(ev is FlagsChanged) {
        match key {
            Some(PressedKey::Char(ch)) => {
                if !s0.hotkey.matches_spec(mods, Some(PressedKey::Char(ch))) && !mods.has(
                    MODIFIER_SUPER,
                ) {
                    crate::processor::lemma_step_keeps_buffers_consistent(s0.processor, ch);
                    if ch != '\u{8}' && mods.has(MODIFIER_SHIFT) {
                        crate::processor::lemma_step_keeps_buffers_consistent(
                            s0.processor,
                            shifted(ch),
                        );
                    }
                    crate::processor::lemma_step_keeps_buffers_consistent(
                        clear_spec(s0.processor),
                        ch,
                    );
                    if ch != '\u{8}' && mods.has(MODIFIER_SHIFT) {
                        crate::processor::lemma_step_keeps_buffers_consistent(
                            clear_spec(s0.processor),
                            shifted(ch),
                        );
                    }
                }
            },
            _ => {},
        }
    }
}

} // verus!
