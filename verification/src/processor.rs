//! The per-keystroke transliteration state machine.
//!
//! The processor owns a typing buffer (the raw keystrokes of the current
//! word) and a display buffer (the composed text last rendered for it),
//! delegates the phonetic transformation to the engine boundary, and
//! classifies every keystroke's effect into a small set of outcomes.
//!
//! The whole behaviour is pinned by a mathematical transition function
//! `step_key` over `ProcState`; every mutating method is proved equal to
//! it.

use vstd::prelude::*;
use crate::engine::{engine_out, engine_letter_removed, engine_tone_removed, engine_transform};
use crate::keys::{
    is_ascii_char, is_ascii_control_char, is_ascii_letter, is_digit_char, is_word_boundary,
    is_word_boundary_char, lo, to_lower,
};
use crate::text::push_char;
use crate::types::InputType;

verus! {

/// The mathematical state of the processor.
#[verifier::ext_equal]
pub struct ProcState {
    /// Raw keystrokes of the current word.
    pub typing: Seq<char>,
    /// Composed text last rendered for the current word.
    pub display: Seq<char>,
    /// The active input method.
    pub input_type: InputType,
    /// Whether the processor still composes the current word.
    pub tracking: bool,
    /// The last committed word, kept for restoration.
    pub previous: Seq<char>,
    /// Upper bound on the typing buffer's length.
    pub max_len: int,
}

/// What one keystroke did, stated over sequences.
pub enum ProcessingOutcome {
    /// The key is passed through to the host unchanged.
    Pass { key: char },
    /// `erase` rendered characters are replaced by `text`.
    Text { text: Seq<char>, erase: int },
    /// The processor cleared its word; the host deletes one character.
    ClearErase,
    /// The raw keystrokes are restored: `erase` rendered characters are
    /// replaced by `text`, the raw typing buffer.
    Restore { text: Seq<char>, erase: int },
}

/// Whether the typing buffer holds one of the doubled-letter or
/// triple-vowel substrings that mark a manual restoration attempt, after
/// ASCII-lowercasing.
pub open spec fn has_stop_pattern(s: Seq<char>) -> bool {
    (exists|i: int| 0 <= i && i + 1 < s.len() && double_stop(lo(#[trigger] s[i]), lo(s[i + 1])))
    || (exists|i: int| 0 <= i && i + 2 < s.len()
            && triple_stop(lo(#[trigger] s[i]), lo(s[i + 1]), lo(s[i + 2])))
}

/// Whether two adjacent lowercased characters form a doubled-letter
/// restoration pattern.
pub open spec fn double_stop(a: char, b: char) -> bool {
    a == b && (a == 's' || a == 'f' || a == 'j' || a == 'r' || a == 'x'
        || a == 'w' || a == 'k' || a == 't' || a == 'n' || a == 'm'
        || a == 'y' || a == 'h' || a == 'i')
}

/// Whether three adjacent lowercased characters form a tripled-vowel (or
/// tripled-d) restoration pattern.
pub open spec fn triple_stop(a: char, b: char, c: char) -> bool {
    a == b && b == c && (a == 'a' || a == 'e' || a == 'o' || a == 'd')
}

/// Commit the current word: remember it for restoration if non-empty,
/// clear both buffers and resume tracking.
pub open spec fn commit_word(s: ProcState) -> ProcState {
    ProcState {
        typing: Seq::empty(),
        display: Seq::empty(),
        tracking: true,
        previous: if s.typing.len() > 0 { s.typing } else { s.previous },
        ..s
    }
}

/// Clear both buffers, touching nothing else.
pub open spec fn clear_spec(s: ProcState) -> ProcState {
    ProcState { typing: Seq::empty(), display: Seq::empty(), ..s }
}

/// Drop a stray leading digit (an artifact of prior injection) from both
/// buffers.
pub open spec fn strip_digit_prefix(s: ProcState) -> ProcState {
    if s.typing.len() > 0 && is_digit_char(s.typing[0]) {
        ProcState {
            typing: s.typing.subrange(1, s.typing.len() as int),
            display: if s.display.len() > 0 {
                s.display.subrange(1, s.display.len() as int)
            } else {
                s.display
            },
            ..s
        }
    } else {
        s
    }
}

/// The backspace transition: pop the last raw keystroke; an emptied word
/// returns the processor to Idle — both buffers clear, tracking on — and
/// lets the host erase one character; otherwise the shortened word is
/// re-composed.
pub open spec fn step_backspace(s: ProcState) -> (ProcState, ProcessingOutcome) {
    if s.typing.len() == 0 {
        (s, ProcessingOutcome::Pass { key: '\u{8}' })
    } else {
        let erase = s.display.len() as int;
        let shorter = s.typing.subrange(0, s.typing.len() - 1);
        if shorter.len() == 0 {
            (ProcState { tracking: true, ..clear_spec(s) }, ProcessingOutcome::ClearErase)
        } else {
            let out = engine_out(s.input_type, shorter);
            (
                ProcState { typing: shorter, display: out, ..s },
                ProcessingOutcome::Text { text: out, erase },
            )
        }
    }
}

/// The space transition: an empty word passes the space through; otherwise
/// the word is composed one final time, committed, and rendered with a
/// trailing space.
pub open spec fn step_space(s: ProcState) -> (ProcState, ProcessingOutcome) {
    if s.typing.len() == 0 {
        (s, ProcessingOutcome::Pass { key: ' ' })
    } else {
        let out = engine_out(s.input_type, s.typing);
        (
            commit_word(s),
            ProcessingOutcome::Text { text: out + " "@, erase: s.display.len() as int },
        )
    }
}

/// The enter transition: commit silently and pass a newline through.
pub open spec fn step_enter(s: ProcState) -> (ProcState, ProcessingOutcome) {
    (commit_word(s), ProcessingOutcome::Pass { key: '\n' })
}

/// The tab transition: commit silently and pass the tab through.
pub open spec fn step_tab(s: ProcState) -> (ProcState, ProcessingOutcome) {
    (commit_word(s), ProcessingOutcome::Pass { key: '\t' })
}

/// The escape transition: a non-empty word is committed and its raw
/// keystrokes are restored in place of the rendered text.
pub open spec fn step_escape(s: ProcState) -> (ProcState, ProcessingOutcome) {
    if s.typing.len() > 0 {
        (
            commit_word(s),
            ProcessingOutcome::Restore { text: s.typing, erase: s.display.len() as int },
        )
    } else {
        (s, ProcessingOutcome::Pass { key: '\u{1B}' })
    }
}

/// The transition for an ordinary (non-special) key.
pub open spec fn step_char(s: ProcState, key: char) -> (ProcState, ProcessingOutcome) {
    if !is_ascii_char(key) || is_ascii_control_char(key) {
        (s, ProcessingOutcome::Pass { key })
    } else if !s.tracking {
        (s, ProcessingOutcome::Pass { key })
    } else if is_word_boundary(key) {
        (commit_word(s), ProcessingOutcome::Pass { key })
    } else {
        let s1 = strip_digit_prefix(s);
        if s1.typing.len() as int >= s.max_len {
            (commit_word(s1), ProcessingOutcome::Pass { key })
        } else {
            let t2 = s1.typing.push(key);
            let out = engine_out(s.input_type, t2);
            let stop = engine_letter_removed(s.input_type, t2)
                || engine_tone_removed(s.input_type, t2)
                || has_stop_pattern(t2);
            (
                ProcState { typing: t2, display: out, tracking: !stop, ..s1 },
                ProcessingOutcome::Text { text: out, erase: s1.display.len() as int },
            )
        }
    }
}

/// The full transition function: what one keystroke does to the processor
/// and what outcome it produces.
pub open spec fn step_key(s: ProcState, key: char) -> (ProcState, ProcessingOutcome) {
    if key == '\u{8}' {
        step_backspace(s)
    } else if key == '\r' || key == '\n' {
        step_enter(s)
    } else if key == ' ' {
        step_space(s)
    } else if key == '\t' {
        step_tab(s)
    } else if key == '\u{1B}' {
        step_escape(s)
    } else {
        step_char(s, key)
    }
}

/// How a keystroke's effect is reported to the caller.
#[derive(Debug, Clone, PartialEq)]
pub enum ProcessingResult {
    /// The character should be passed through without processing.
    PassThrough(char),
    /// Text has been processed and should replace the current rendering:
    /// `buffer_length` previously rendered characters are erased first.
    ProcessedText { text: String, buffer_length: usize },
    /// Clear current text and pass the physical backspace through.
    ClearAndPassBackspace,
    /// Restore the original raw text (used for the escape key).
    RestoreText { text: String, buffer_length: usize },
}

impl View for ProcessingResult {
    type V = ProcessingOutcome;

    open spec fn view(&self) -> ProcessingOutcome {
        match self {
            ProcessingResult::PassThrough(c) => ProcessingOutcome::Pass { key: *c },
            ProcessingResult::ProcessedText { text, buffer_length } => ProcessingOutcome::Text {
                text: text@,
                erase: *buffer_length as int,
            },
            ProcessingResult::ClearAndPassBackspace => ProcessingOutcome::ClearErase,
            ProcessingResult::RestoreText { text, buffer_length } => ProcessingOutcome::Restore {
                text: text@,
                erase: *buffer_length as int,
            },
        }
    }
}

/// The transliteration state machine around the external engine.
#[derive(Debug, Clone)]
pub struct VietnameseInputProcessor {
    /// Raw input buffer (what the user actually typed).
    typing_buffer: String,
    /// Display buffer (what is currently shown after transformation).
    display_buffer: String,
    input_type: InputType,
    /// Whether we should continue composing the current word.
    should_track: bool,
    /// The previous word, kept for restoration.
    previous_word: String,
    /// Maximum word length, to prevent unbounded growth.
    max_word_length: usize,
}

impl View for VietnameseInputProcessor {
    type V = ProcState;

    closed spec fn view(&self) -> ProcState {
        ProcState {
            typing: self.typing_buffer@,
            display: self.display_buffer@,
            input_type: self.input_type,
            tracking: self.should_track,
            previous: self.previous_word@,
            max_len: self.max_word_length as int,
        }
    }
}

impl VietnameseInputProcessor {
    /// A fresh processor: both buffers empty, tracking on, a word length
    /// bound of ten keystrokes.
    pub fn new(input_type: InputType) -> (r: Self)
        ensures
            r@ == (ProcState {
                typing: Seq::empty(),
                display: Seq::empty(),
                input_type: input_type,
                tracking: true,
                previous: Seq::empty(),
                max_len: 10,
            }),
    {
        let r = VietnameseInputProcessor {
            typing_buffer: String::new(),
            display_buffer: String::new(),
            input_type,
            should_track: true,
            previous_word: String::new(),
            max_word_length: 10,
        };
        proof {
            assert(r@ =~= ProcState {
                typing: Seq::empty(),
                display: Seq::empty(),
                input_type: input_type,
                tracking: true,
                previous: Seq::empty(),
                max_len: 10,
            });
        }
        r
    }

    /// Switch the active input method; a half-composed word under one
    /// method is meaningless under another, so both buffers are cleared.
    pub fn set_input_type(&mut self, input_type: InputType)
        ensures
            final(self)@ == (ProcState { input_type: input_type, ..clear_spec(old(self)@) }),
    {
        self.input_type = input_type;
        self.clear_buffer();
    }

    /// Process one keystroke: dispatch the special keys to their handlers
    /// and compose ordinary printable characters.  The entire effect is
    /// `step_key` of the previous state.
    pub fn process_key(&mut self, key: char) -> (r: ProcessingResult)
        ensures
            final(self)@ == step_key(old(self)@, key).0,
            r@ == step_key(old(self)@, key).1,
    {
        match key {
            '\u{8}' => {
                return self.handle_backspace();
            },
            '\r' | '\n' => {
                return self.handle_enter();
            },
            ' ' => {
                return self.handle_space();
            },
            '\t' => {
                return self.handle_tab();
            },
            '\u{1B}' => {
                return self.handle_escape();
            },
            _ => {},
        }
        // Only printable ASCII characters take part in composition.
        if !((key as u32) < 128) || (key as u32) < 32 || (key as u32) == 127 {
            return ProcessingResult::PassThrough(key);
        }
        if !self.should_track {
            return ProcessingResult::PassThrough(key);
        }
        if is_word_boundary_char(key) {
            self.new_word();
            return ProcessingResult::PassThrough(key);
        }
        // Drop a stray leading digit left behind by prior injection.
        let tlen = self.typing_buffer.unicode_len();
        if tlen > 0 {
            let first = self.typing_buffer.as_str().get_char(0);
            if (first as u32) >= 48 && (first as u32) <= 57 {
                let stripped = String::from_str(
                    self.typing_buffer.as_str().substring_char(1, tlen),
                );
                self.typing_buffer = stripped;
                let dlen = self.display_buffer.unicode_len();
                if dlen > 0 {
                    let dstripped = String::from_str(
                        self.display_buffer.as_str().substring_char(1, dlen),
                    );
                    self.display_buffer = dstripped;
                }
            }
        }
        // A word at the length bound is committed and the key passed on.
        if self.typing_buffer.unicode_len() >= self.max_word_length {
            self.new_word();
            return ProcessingResult::PassThrough(key);
        }
        let previous_display_length = self.display_buffer.unicode_len();
        push_char(&mut self.typing_buffer, key);
        let (result, letter_removed, tone_removed) = engine_transform(
            self.input_type,
            self.typing_buffer.as_str(),
        );
        self.display_buffer = result.clone();
        if letter_removed || tone_removed {
            self.stop_tracking();
        }
        if self.should_stop_tracking_due_to_patterns() {
            self.stop_tracking();
        }
        ProcessingResult::ProcessedText { text: result, buffer_length: previous_display_length }
    }

    /// Undo the last keystroke of the current word; undoing the only one
    /// returns the processor to Idle.
    pub fn handle_backspace(&mut self) -> (r: ProcessingResult)
        ensures
            final(self)@ == step_backspace(old(self)@).0,
            r@ == step_backspace(old(self)@).1,
    {
        let tlen = self.typing_buffer.unicode_len();
        if tlen == 0 {
            return ProcessingResult::PassThrough('\u{8}');
        }
        let previous_display_length = self.display_buffer.unicode_len();
        let shorter = String::from_str(self.typing_buffer.as_str().substring_char(0, tlen - 1));
        self.typing_buffer = shorter;
        if tlen - 1 == 0 {
            self.clear_buffer();
            self.should_track = true;
            return ProcessingResult::ClearAndPassBackspace;
        }
        let (result, _letter_removed, _tone_removed) = engine_transform(
            self.input_type,
            self.typing_buffer.as_str(),
        );
        self.display_buffer = result.clone();
        ProcessingResult::ProcessedText { text: result, buffer_length: previous_display_length }
    }

    /// Commit the current word silently and pass a newline through.
    pub fn handle_enter(&mut self) -> (r: ProcessingResult)
        ensures
            final(self)@ == step_enter(old(self)@).0,
            r@ == step_enter(old(self)@).1,
    {
        self.new_word();
        ProcessingResult::PassThrough('\n')
    }

    /// Commit the current word silently and pass the tab through.
    pub fn handle_tab(&mut self) -> (r: ProcessingResult)
        ensures
            final(self)@ == step_tab(old(self)@).0,
            r@ == step_tab(old(self)@).1,
    {
        self.new_word();
        ProcessingResult::PassThrough('\t')
    }

    /// Restore the raw keystrokes of a non-empty word.
    pub fn handle_escape(&mut self) -> (r: ProcessingResult)
        ensures
            final(self)@ == step_escape(old(self)@).0,
            r@ == step_escape(old(self)@).1,
    {
        if !self.typing_buffer.as_str().is_empty() {
            let original_text = self.typing_buffer.clone();
            let display_length = self.display_buffer.unicode_len();
            self.new_word();
            return ProcessingResult::RestoreText {
                text: original_text,
                buffer_length: display_length,
            };
        }
        ProcessingResult::PassThrough('\u{1B}')
    }

    /// Commit a non-empty word, render it one final time with a trailing
    /// space, or pass an idle space through.
    pub fn handle_space(&mut self) -> (r: ProcessingResult)
        ensures
            final(self)@ == step_space(old(self)@).0,
            r@ == step_space(old(self)@).1,
    {
        if self.typing_buffer.as_str().is_empty() {
            return ProcessingResult::PassThrough(' ');
        }
        let (result, _letter_removed, _tone_removed) = engine_transform(
            self.input_type,
            self.typing_buffer.as_str(),
        );
        let display_length = self.display_buffer.unicode_len();
        self.new_word();
        ProcessingResult::ProcessedText {
            text: result.concat(" "),
            buffer_length: display_length,
        }
    }

    /// Start tracking a new word, remembering a non-empty one for
    /// restoration.
    pub fn new_word(&mut self)
        ensures
            final(self)@ == commit_word(old(self)@),
    {
        if !self.typing_buffer.as_str().is_empty() {
            self.previous_word = self.typing_buffer.clone();
        }
        self.clear_buffer();
        self.should_track = true;
    }

    /// Stop composing the current word until the next word boundary.
    pub fn stop_tracking(&mut self)
        ensures
            final(self)@ == (ProcState { tracking: false, ..old(self)@ }),
    {
        self.should_track = false;
    }

    /// Whether the typing buffer holds one of the doubled-letter or
    /// triple-vowel substrings that mark a manual restoration attempt.
    pub fn should_stop_tracking_due_to_patterns(&self) -> (r: bool)
        ensures
            r == has_stop_pattern(self@.typing),
    {
        let s = self.typing_buffer.as_str();
        let n = s.unicode_len();
        if n < 2 {
            return false;
        }
        let mut i: usize = 0;
        while i + 1 < n
            invariant
                i < n,
                n == s@.len(),
                s@ == self@.typing,
                forall|j: int|
                    0 <= j && j + 1 < s@.len() && j < i ==> !double_stop(
                        lo(s@[j]),
                        lo(#[trigger] s@[j + 1]),
                    ),
                forall|j: int|
                    0 <= j && j + 2 < s@.len() && j < i ==> !triple_stop(
                        lo(s@[j]),
                        lo(s@[j + 1]),
                        lo(#[trigger] s@[j + 2]),
                    ),
            decreases n - i,
        {
            let a = to_lower(s.get_char(i));
            let b = to_lower(s.get_char(i + 1));
            if a == b && (a == 's' || a == 'f' || a == 'j' || a == 'r' || a == 'x'
                || a == 'w' || a == 'k' || a == 't' || a == 'n' || a == 'm'
                || a == 'y' || a == 'h' || a == 'i') {
                proof {
                    let gi = i as int;
                    assert(0 <= gi && gi + 1 < s@.len() && double_stop(
                        lo(#[trigger] s@[gi]),
                        lo(s@[gi + 1]),
                    ));
                    assert(s@ == self@.typing);
                    assert(has_stop_pattern(self@.typing));
                }
                return true;
            }
            if i + 2 < n {
                let c = to_lower(s.get_char(i + 2));
                if a == b && b == c && (a == 'a' || a == 'e' || a == 'o' || a == 'd') {
                    proof {
                        let gi = i as int;
                        assert(0 <= gi && gi + 2 < s@.len() && triple_stop(
                            lo(#[trigger] s@[gi]),
                            lo(s@[gi + 1]),
                            lo(s@[gi + 2]),
                        ));
                        assert(s@ == self@.typing);
                        assert(has_stop_pattern(self@.typing));
                    }
                    return true;
                }
            }
            i += 1;
        }
        false
    }

    /// How many synthetic backspaces clear the rendered word: the whole
    /// rendering for a forward delete, one less otherwise (the host
    /// deletes one itself), plus one compensating erase when the focused
    /// control holds a text selection.
    pub fn get_backspace_count(&self, is_delete: bool, has_text_selection: bool) -> (r: usize)
        requires
            self@.display.len() + 1 <= usize::MAX,
        ensures
            (r as int) == backspace_count_spec(self@, is_delete, has_text_selection),
    {
        let display_length = self.display_buffer.unicode_len();
        let backspace_count: usize = if is_delete && display_length >= 1 {
            display_length
        } else if display_length > 0 {
            display_length - 1
        } else {
            0
        };
        if has_text_selection {
            backspace_count + 1
        } else {
            backspace_count
        }
    }

    /// Whether the composed word should be restored; restoration by
    /// validation is not implemented, so this never asks for it.
    pub fn should_restore_word(&self) -> (r: bool)
        ensures
            !r,
    {
        if self.typing_buffer.as_str().is_empty() || self.display_buffer.as_str().is_empty() {
            return false;
        }
        if self.typing_buffer.eq(&self.display_buffer) {
            return false;
        }
        false
    }

    /// The raw keystrokes of the current word, for restoration.
    pub fn get_restore_text(&self) -> (r: String)
        ensures
            r@ == self@.typing,
    {
        self.typing_buffer.clone()
    }

    /// Clear both buffers, touching nothing else.
    pub fn clear_buffer(&mut self)
        ensures
            final(self)@ == clear_spec(old(self)@),
    {
        self.typing_buffer = String::new();
        self.display_buffer = String::new();
    }

    /// The raw keystrokes of the current word.
    pub fn get_current_buffer(&self) -> (r: &str)
        ensures
            r@ == self@.typing,
    {
        self.typing_buffer.as_str()
    }

    /// The composed text last rendered for the current word.
    pub fn get_display_buffer(&self) -> (r: &str)
        ensures
            r@ == self@.display,
    {
        self.display_buffer.as_str()
    }

    /// The last committed word.
    pub fn get_previous_word(&self) -> (r: &str)
        ensures
            r@ == self@.previous,
    {
        self.previous_word.as_str()
    }

    /// Whether the processor still composes the current word.
    pub fn is_tracking(&self) -> (r: bool)
        ensures
            r == self@.tracking,
    {
        self.should_track
    }

    /// Whether no keystroke of a current word is held.
    pub fn is_buffer_empty(&self) -> (r: bool)
        ensures
            r == (self@.typing.len() == 0),
    {
        self.typing_buffer.as_str().is_empty()
    }

    /// Forget everything: both buffers, the previous word, and resume
    /// tracking.
    pub fn reset(&mut self)
        ensures
            final(self)@ == (ProcState {
                typing: Seq::empty(),
                display: Seq::empty(),
                previous: Seq::empty(),
                tracking: true,
                ..old(self)@
            }),
    {
        self.typing_buffer = String::new();
        self.display_buffer = String::new();
        self.previous_word = String::new();
        self.should_track = true;
    }
}

/// The number of synthetic backspaces that clear the rendered word.
pub open spec fn backspace_count_spec(s: ProcState, is_delete: bool, has_sel: bool) -> int {
    let dl = s.display.len() as int;
    let base = if is_delete && dl >= 1 {
        dl
    } else if dl > 0 {
        dl - 1
    } else {
        0
    };
    if has_sel {
        base + 1
    } else {
        base
    }
}

/// Law: a keystroke that is not ASCII, or is an ASCII control character
/// other than backspace, enter, space, tab and escape, is passed through
/// unchanged and leaves the processor's state untouched.
pub proof fn lemma_non_text_key_passes_through(s: ProcState, key: char)
    requires
        key != '\u{8}',
        key != '\r',
        key != '\n',
        key != ' ',
        key != '\t',
        key != '\u{1B}',
        !is_ascii_char(key) || is_ascii_control_char(key),
    ensures
        step_key(s, key).0 == s,
        step_key(s, key).1 == (ProcessingOutcome::Pass { key }),
{
}

/// Whether the display buffer is exactly the engine's rendering of the
/// typing buffer, and empty whenever no word is in progress.
pub open spec fn buffers_consistent(s: ProcState) -> bool {
    if s.typing.len() == 0 {
        s.display.len() == 0
    } else {
        s.display == engine_out(s.input_type, s.typing)
    }
}

/// Law: every keystroke keeps the display buffer equal to the engine's
/// rendering of the typing buffer.
pub proof fn lemma_step_keeps_buffers_consistent(s: ProcState, key: char)
    requires
        buffers_consistent(s),
    ensures
        buffers_consistent(step_key(s, key).0),
{
}

/// Law: while tracking, an ASCII letter appended to a word below the
/// length bound (with no stray digit prefix in the buffer) extends the
/// typing buffer by exactly that letter, and the outcome replaces the
/// previous rendering with the engine's rendering of the extended buffer.
pub proof fn lemma_letter_key_renders_engine(s: ProcState, key: char)
    requires
        s.tracking,
        is_ascii_letter(key),
        (s.typing.len() as int) < s.max_len,
        s.typing.len() == 0 || !is_digit_char(s.typing[0]),
    ensures
        step_key(s, key).0.typing == s.typing.push(key),
        step_key(s, key).0.display == engine_out(s.input_type, s.typing.push(key)),
        step_key(s, key).1 == (ProcessingOutcome::Text {
            text: engine_out(s.input_type, s.typing.push(key)),
            erase: s.display.len() as int,
        }),
{
}

/// The processor after a run of consecutive backspace keystrokes.
pub open spec fn apply_backspaces(s: ProcState, n: nat) -> ProcState
    decreases n,
{
    if n == 0 {
        s
    } else {
        apply_backspaces(step_backspace(s).0, (n - 1) as nat)
    }
}

/// Law: from any word in progress, one backspace per raw keystroke drains
/// the word: the final backspace reports `ClearErase` and leaves the
/// processor in Idle — both buffers empty, tracking on — with the
/// previous word untouched.
pub proof fn lemma_backspaces_drain(s: ProcState)
    requires
        s.typing.len() > 0,
    ensures
        apply_backspaces(s, s.typing.len()).typing.len() == 0,
        apply_backspaces(s, s.typing.len()).display.len() == 0,
        apply_backspaces(s, s.typing.len()).tracking,
        apply_backspaces(s, s.typing.len()).previous == s.previous,
        step_backspace(apply_backspaces(s, (s.typing.len() - 1) as nat)).1 is ClearErase,
    decreases s.typing.len(),
{
    let s1 = step_backspace(s).0;
    assert(s.typing.subrange(0, s.typing.len() - 1).len() == s.typing.len() - 1);
    if s.typing.len() > 1 {
        lemma_backspaces_drain(s1);
    }
}

/// Law: committing a non-empty word with space, enter or tab leaves the
/// typing buffer empty and tracking on.
pub proof fn lemma_commit_resets(s: ProcState, key: char)
    requires
        key == ' ' || key == '\r' || key == '\n' || key == '\t',
        s.typing.len() > 0,
    ensures
        step_key(s, key).0.typing.len() == 0,
        step_key(s, key).0.tracking,
{
}

/// Law: typing the letter `s` twice from an empty word suspends the
/// processor, and every later ASCII letter is then passed through without
/// touching its state.
pub proof fn lemma_doubled_letter_suspends(s: ProcState)
    requires
        s.typing.len() == 0,
        s.tracking,
        2 <= s.max_len,
    ensures
        !step_key(step_key(s, 's').0, 's').0.tracking,
        forall|k: char|
            is_ascii_letter(k) ==> #[trigger] step_key(step_key(step_key(s, 's').0, 's').0, k).0
                == step_key(step_key(s, 's').0, 's').0,
        forall|k: char|
            is_ascii_letter(k) ==> #[trigger] step_key(step_key(step_key(s, 's').0, 's').0, k).1
                == (ProcessingOutcome::Pass { key: k }),
{
    let s1 = step_key(s, 's').0;
    let s2 = step_key(s1, 's').0;
    if s1.tracking {
        let t2 = s1.typing.push('s');
        assert(t2.len() == 2 && t2[0] == 's' && t2[1] == 's');
        assert(double_stop(lo(t2[0]), lo(t2[1])));
        assert(has_stop_pattern(t2));
    }
    assert(!s2.tracking);
    assert forall|k: char| is_ascii_letter(k) implies #[trigger] step_key(s2, k).0 == s2
        && step_key(s2, k).1 == (ProcessingOutcome::Pass { key: k }) by {
    }
}

} // verus!
