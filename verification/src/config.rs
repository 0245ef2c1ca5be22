//! Application configuration: the active input method, encoding and mode,
//! modifier behaviour, and the toggle-hotkey string with its validation.
//!
//! Loading and saving the configuration is the application's business;
//! this module holds the values and the rules that keep them sound.

use vstd::prelude::*;
use crate::error::VKeyError;
use crate::keys::{is_ascii_letter, is_ascii_letter_char, lo, to_lower};
use crate::text::{collect_chars, str_eq, word_matches};
use crate::types::{AdvancedSettings, Encoding, InputMode, InputType, KeyboardConfig};

verus! {

/// Whether the character is ASCII whitespace, for trimming hotkey parts.
pub open spec fn is_ws_char(c: char) -> bool {
    c == ' ' || c == '\t' || c == '\n' || c == '\r'
}

fn is_ws(c: char) -> (r: bool)
    ensures
        r == is_ws_char(c),
{
    match c {
        ' ' | '\t' | '\n' | '\r' => true,
        _ => false,
    }
}

/// The sequence without its leading whitespace.
pub open spec fn trim_front(s: Seq<char>) -> Seq<char>
    decreases s.len(),
{
    if s.len() > 0 && is_ws_char(s[0]) {
        trim_front(s.subrange(1, s.len() as int))
    } else {
        s
    }
}

/// The sequence without its trailing whitespace.
pub open spec fn trim_back(s: Seq<char>) -> Seq<char>
    decreases s.len(),
{
    if s.len() > 0 && is_ws_char(s[s.len() - 1]) {
        trim_back(s.subrange(0, s.len() - 1))
    } else {
        s
    }
}

/// The sequence without leading and trailing whitespace.
pub open spec fn trim_spec(s: Seq<char>) -> Seq<char> {
    trim_back(trim_front(s))
}

/// The sequence with every character ASCII-lowercased.
pub open spec fn lower_seq(s: Seq<char>) -> Seq<char> {
    s.map_values(|c: char| lo(c))
}

/// A hotkey part as it is compared: trimmed, then lowercased.
pub open spec fn norm_part(s: Seq<char>) -> Seq<char> {
    lower_seq(trim_spec(s))
}

/// The hotkey string split at every `+`, empty parts kept.
pub open spec fn split_plus(s: Seq<char>) -> Seq<Seq<char>> {
    split_plus_rec(s, Seq::empty())
}

/// Split what remains of the string, `cur` being the part read so far.
pub open spec fn split_plus_rec(s: Seq<char>, cur: Seq<char>) -> Seq<Seq<char>>
    decreases s.len(),
{
    if s.len() == 0 {
        seq![cur]
    } else if s[0] == '+' {
        seq![cur] + split_plus_rec(s.subrange(1, s.len() as int), Seq::empty())
    } else {
        split_plus_rec(s.subrange(1, s.len() as int), cur.push(s[0]))
    }
}

/// Whether a normalized part names a modifier key.
pub open spec fn is_modifier_word(s: Seq<char>) -> bool {
    s == "cmd"@ || s == "command"@ || s == "ctrl"@ || s == "control"@ || s == "alt"@
        || s == "option"@ || s == "shift"@
}

/// Whether a normalized part names a non-modifier key: a named special
/// key, or a single letter.
pub open spec fn is_key_word(s: Seq<char>) -> bool {
    s == "space"@ || s == "enter"@ || s == "tab"@ || s == "escape"@ || s == "backspace"@
        || (s.len() == 1 && is_ascii_letter(s[0]))
}

/// Whether a hotkey string is well-formed: every `+`-separated part names
/// a modifier or a key, at least one modifier and at least one key among
/// them.
pub open spec fn valid_hotkey(s: Seq<char>) -> bool {
    let parts = split_plus(s);
    parts.len() > 0
    && (forall|i: int| 0 <= i && i < parts.len() ==> is_modifier_word(norm_part(#[trigger] parts[i]))
            || is_key_word(norm_part(parts[i])))
    && (exists|i: int| 0 <= i && i < parts.len() && is_modifier_word(norm_part(#[trigger] parts[i])))
    && (exists|i: int| 0 <= i && i < parts.len() && is_key_word(norm_part(#[trigger] parts[i])))
}

/// The characters without leading and trailing whitespace.
fn trim_chars(v: &Vec<char>) -> (r: Vec<char>)
    ensures
        r@ == trim_spec(v@),
{
    let mut start: usize = 0;
    proof {
        assert(v@.subrange(0, v@.len() as int) =~= v@);
    }
    while start < v.len() && is_ws(v[start])
        invariant
            start <= v.len(),
            trim_front(v@) == trim_front(v@.subrange(start as int, v@.len() as int)),
        decreases v.len() - start,
    {
        proof {
            let t = v@.subrange(start as int, v@.len() as int);
            assert(t.subrange(1, t.len() as int) =~= v@.subrange(
                start as int + 1,
                v@.len() as int,
            ));
        }
        start += 1;
    }
    let mut end: usize = v.len();
    while end > start && is_ws(v[end - 1])
        invariant
            start <= end,
            end <= v.len(),
            trim_front(v@) == trim_front(v@.subrange(start as int, v@.len() as int)),
            trim_back(v@.subrange(start as int, v@.len() as int)) == trim_back(
                v@.subrange(start as int, end as int),
            ),
        decreases end,
    {
        proof {
            let t = v@.subrange(start as int, end as int);
            assert(t.subrange(0, t.len() - 1) =~= v@.subrange(start as int, end as int - 1));
        }
        end -= 1;
    }
    let mut r: Vec<char> = Vec::new();
    let mut i: usize = start;
    while i < end
        invariant
            start <= i,
            i <= end,
            end <= v.len(),
            r@ == v@.subrange(start as int, i as int),
        decreases end - i,
    {
        proof {
            assert(v@.subrange(start as int, i as int + 1) =~= v@.subrange(
                start as int,
                i as int,
            ).push(v@[i as int]));
        }
        r.push(v[i]);
        i += 1;
    }
    proof {
        let f = v@.subrange(start as int, v@.len() as int);
        assert(trim_front(f) == f);
        let t = v@.subrange(start as int, end as int);
        assert(trim_back(t) == t);
    }
    r
}

/// The characters with every one ASCII-lowercased.
fn lower_chars(v: &Vec<char>) -> (r: Vec<char>)
    ensures
        r@ == lower_seq(v@),
{
    let mut r: Vec<char> = Vec::new();
    let mut i: usize = 0;
    while i < v.len()
        invariant
            i <= v.len(),
            r@ == lower_seq(v@.subrange(0, i as int)),
        decreases v.len() - i,
    {
        r.push(to_lower(v[i]));
        proof {
            assert(lower_seq(v@.subrange(0, i as int + 1)) =~= lower_seq(
                v@.subrange(0, i as int),
            ).push(lo(v@[i as int])));
        }
        i += 1;
    }
    proof {
        assert(v@.subrange(0, v@.len() as int) =~= v@);
    }
    r
}

/// The characters split at every `+`, empty parts kept.
fn split_parts(v: &Vec<char>) -> (r: Vec<Vec<char>>)
    ensures
        r@.len() == split_plus(v@).len(),
        forall|i: int| 0 <= i && i < r@.len() ==> #[trigger] r@[i]@ == split_plus(v@)[i],
{
    let mut parts: Vec<Vec<char>> = Vec::new();
    let mut cur: Vec<char> = Vec::new();
    let ghost mut done: Seq<Seq<char>> = Seq::empty();
    let mut i: usize = 0;
    proof {
        assert(v@.subrange(0, v@.len() as int) =~= v@);
        assert(Seq::<Seq<char>>::empty() + split_plus_rec(v@, Seq::empty()) =~= split_plus_rec(
            v@,
            Seq::empty(),
        ));
    }
    while i < v.len()
        invariant
            i <= v.len(),
            split_plus(v@) == done + split_plus_rec(
                v@.subrange(i as int, v@.len() as int),
                cur@,
            ),
            parts@.len() == done.len(),
            forall|j: int| 0 <= j && j < done.len() ==> #[trigger] parts@[j]@ == done[j],
        decreases v.len() - i,
    {
        let c = v[i];
        proof {
            let rest = v@.subrange(i as int, v@.len() as int);
            assert(rest[0] == v@[i as int]);
            assert(rest.subrange(1, rest.len() as int) =~= v@.subrange(
                i as int + 1,
                v@.len() as int,
            ));
        }
        if c == '+' {
            let ghost gcur = cur@;
            parts.push(cur);
            cur = Vec::new();
            proof {
                let rest2 = split_plus_rec(
                    v@.subrange(i as int + 1, v@.len() as int),
                    Seq::empty(),
                );
                assert(done + (seq![gcur] + rest2) =~= (done + seq![gcur]) + rest2);
                done = done + seq![gcur];
            }
        } else {
            cur.push(c);
        }
        i += 1;
    }
    proof {
        assert(v@.subrange(v@.len() as int, v@.len() as int) =~= Seq::<char>::empty());
        assert(done + seq![cur@] =~= done.push(cur@));
    }
    let ghost gcur = cur@;
    parts.push(cur);
    proof {
        assert(split_plus(v@) == done.push(gcur));
    }
    parts
}

/// How the configured hotkey reads as a sequence, if one is configured.
pub open spec fn hotkey_view(h: Option<String>) -> Option<Seq<char>> {
    match h {
        Some(s) => Some(s@),
        None => None,
    }
}

/// The human-readable description of a hotkey string: the known chords
/// get their symbol form, anything else reads as itself, and a missing
/// hotkey reads as `None`.
pub open spec fn hotkey_description_spec(h: Option<Seq<char>>) -> Seq<char> {
    match h {
        None => "None"@,
        Some(s) => if s == "cmd+space"@ {
            "\u{2318} + Space"@
        } else if s == "ctrl+space"@ {
            "\u{2303} + Space"@
        } else if s == "cmd+shift+v"@ {
            "\u{2318} + \u{21E7} + V"@
        } else if s == "ctrl+shift+v"@ {
            "\u{2303} + \u{21E7} + V"@
        } else if s == "cmd+i"@ {
            "\u{2318} + I"@
        } else if s == "ctrl+i"@ {
            "\u{2303} + I"@
        } else {
            s
        },
    }
}

/// The opposite input mode.
pub open spec fn flipped(m: InputMode) -> InputMode {
    match m {
        InputMode::Vietnamese => InputMode::English,
        InputMode::English => InputMode::Vietnamese,
    }
}

/// The application's configuration.
#[derive(Debug, Clone, PartialEq)]
pub struct AppConfig {
    pub input_type: InputType,
    pub encoding: Encoding,
    pub input_mode: InputMode,
    pub keyboard: KeyboardConfig,
    pub advanced: AdvancedSettings,
    /// Global hotkey for toggling Vietnamese input.
    pub global_hotkey: Option<String>,
    /// Whether changes should be persisted as they are made.
    pub auto_save: bool,
}

impl Default for AppConfig {
    /// The stock configuration: Telex over Unicode, English mode, the
    /// stock keyboard and advanced settings, the super-space hotkey, and
    /// saving on every change.
    fn default() -> (r: Self)
        ensures
            r.input_type == InputType::Telex,
            r.encoding == Encoding::Unicode,
            r.input_mode == InputMode::English,
            r.keyboard == crate::types::default_keyboard(),
            r.advanced == crate::types::default_advanced(),
            (r.global_hotkey matches Some(h) && h@ == "cmd+space"@),
            r.auto_save == true,
    {
        AppConfig {
            input_type: InputType::Telex,
            encoding: Encoding::Unicode,
            input_mode: InputMode::English,
            keyboard: KeyboardConfig::default(),
            advanced: AdvancedSettings::default(),
            global_hotkey: Some(String::from_str("cmd+space")),
            auto_save: true,
        }
    }
}

impl AppConfig {
    /// Switch between Vietnamese and English input.
    pub fn toggle_vietnamese_mode(&mut self) -> (r: Result<(), VKeyError>)
        ensures
            r is Ok,
            *final(self) == (AppConfig { input_mode: flipped(old(self).input_mode), ..*old(self) }),
    {
        self.input_mode = match self.input_mode {
            InputMode::Vietnamese => InputMode::English,
            InputMode::English => InputMode::Vietnamese,
        };
        Ok(())
    }

    /// Set Vietnamese input on or off.
    pub fn set_vietnamese_mode(&mut self, enabled: bool) -> (r: Result<(), VKeyError>)
        ensures
            r is Ok,
            *final(self) == (AppConfig {
                input_mode: if enabled {
                    InputMode::Vietnamese
                } else {
                    InputMode::English
                },
                ..*old(self)
            }),
    {
        self.input_mode = if enabled {
            InputMode::Vietnamese
        } else {
            InputMode::English
        };
        Ok(())
    }

    /// Whether Vietnamese input is currently on.
    pub fn is_vietnamese_enabled(&self) -> (r: bool)
        ensures
            r == (self.input_mode is Vietnamese),
    {
        matches!(self.input_mode, InputMode::Vietnamese)
    }

    /// Whether a hotkey string is well-formed.
    pub fn is_valid_hotkey(&self, hotkey: &str) -> (r: bool)
        ensures
            r == valid_hotkey(hotkey@),
    {
        let chars = collect_chars(hotkey);
        let parts = split_parts(&chars);
        let ghost gparts = split_plus(hotkey@);
        let mut has_modifier = false;
        let mut has_key = false;
        let mut idx: usize = 0;
        while idx < parts.len()
            invariant
                idx <= parts.len(),
                parts@.len() == gparts.len(),
                gparts == split_plus(hotkey@),
                forall|j: int| 0 <= j && j < parts@.len() ==> #[trigger] parts@[j]@ == gparts[j],
                forall|j: int|
                    0 <= j && j < idx ==> is_modifier_word(norm_part(#[trigger] gparts[j]))
                        || is_key_word(norm_part(gparts[j])),
                has_modifier == (exists|j: int|
                    0 <= j && j < idx && is_modifier_word(norm_part(#[trigger] gparts[j]))),
                has_key == (exists|j: int|
                    0 <= j && j < idx && is_key_word(norm_part(#[trigger] gparts[j]))),
            decreases parts.len() - idx,
        {
            let trimmed = trim_chars(&parts[idx]);
            let part = lower_chars(&trimmed);
            proof {
                assert(part@ == norm_part(gparts[idx as int]));
            }
            let part_is_modifier = word_matches(&part, "cmd") || word_matches(&part, "command")
                || word_matches(&part, "ctrl") || word_matches(&part, "control")
                || word_matches(&part, "alt") || word_matches(&part, "option")
                || word_matches(&part, "shift");
            let part_is_key = word_matches(&part, "space") || word_matches(&part, "enter")
                || word_matches(&part, "tab") || word_matches(&part, "escape")
                || word_matches(&part, "backspace") || (part.len() == 1
                && is_ascii_letter_char(part[0]));
            if !part_is_modifier && !part_is_key {
                proof {
                    let gi = idx as int;
                    assert(!(is_modifier_word(norm_part(#[trigger] gparts[gi]))
                        || is_key_word(norm_part(gparts[gi]))));
                }
                return false;
            }
            if part_is_modifier {
                has_modifier = true;
            }
            if part_is_key {
                has_key = true;
            }
            idx += 1;
        }
        has_modifier && has_key
    }

    /// Set the hotkey if the string is well-formed; a malformed string is
    /// rejected with a configuration error and changes nothing.
    pub fn set_global_hotkey(&mut self, hotkey: &str) -> (r: Result<(), VKeyError>)
        ensures
            valid_hotkey(hotkey@) ==> r is Ok && (final(self).global_hotkey matches Some(h)
                && h@ == hotkey@) && final(self).input_type == old(self).input_type
                && final(self).encoding == old(self).encoding && final(self).input_mode == old(self).input_mode && final(self).keyboard == old(self).keyboard && final(self).advanced
                == old(self).advanced && final(self).auto_save == old(self).auto_save,
            !valid_hotkey(hotkey@) ==> *final(self) == *old(self) && (r matches Err(e) && e
                matches VKeyError::ConfigError(m) && m@ == "Invalid hotkey format: '"@ + hotkey@
                + "'"@),
    {
        if self.is_valid_hotkey(hotkey) {
            self.global_hotkey = Some(String::from_str(hotkey));
            Ok(())
        } else {
            Err(
                VKeyError::ConfigError(
                    String::from_str("Invalid hotkey format: '").concat(hotkey).concat("'"),
                ),
            )
        }
    }

    /// The hotkey choices offered by the settings interface, each with its
    /// symbol form.
    pub fn get_hotkey_options() -> (r: Vec<(&'static str, &'static str)>)
        ensures
            r@.len() == 6,
            r@[0].0@ == "cmd+space"@,
            r@[1].0@ == "ctrl+space"@,
            r@[2].0@ == "cmd+shift+v"@,
            r@[3].0@ == "ctrl+shift+v"@,
            r@[4].0@ == "cmd+i"@,
            r@[5].0@ == "ctrl+i"@,
            r@[0].1@ == "\u{2318} + Space"@,
            r@[1].1@ == "\u{2303} + Space"@,
            r@[2].1@ == "\u{2318} + \u{21E7} + V"@,
            r@[3].1@ == "\u{2303} + \u{21E7} + V"@,
            r@[4].1@ == "\u{2318} + I"@,
            r@[5].1@ == "\u{2303} + I"@,
    {
        let mut r: Vec<(&'static str, &'static str)> = Vec::new();
        r.push(("cmd+space", "\u{2318} + Space"));
        r.push(("ctrl+space", "\u{2303} + Space"));
        r.push(("cmd+shift+v", "\u{2318} + \u{21E7} + V"));
        r.push(("ctrl+shift+v", "\u{2303} + \u{21E7} + V"));
        r.push(("cmd+i", "\u{2318} + I"));
        r.push(("ctrl+i", "\u{2303} + I"));
        r
    }

    /// The human-readable description of the configured hotkey.
    pub fn get_hotkey_description(&self) -> (r: String)
        ensures
            r@ == hotkey_description_spec(hotkey_view(self.global_hotkey)),
    {
        match &self.global_hotkey {
            None => String::from_str("None"),
            Some(h) => {
                if str_eq(h.as_str(), "cmd+space") {
                    String::from_str("\u{2318} + Space")
                } else if str_eq(h.as_str(), "ctrl+space") {
                    String::from_str("\u{2303} + Space")
                } else if str_eq(h.as_str(), "cmd+shift+v") {
                    String::from_str("\u{2318} + \u{21E7} + V")
                } else if str_eq(h.as_str(), "ctrl+shift+v") {
                    String::from_str("\u{2303} + \u{21E7} + V")
                } else if str_eq(h.as_str(), "cmd+i") {
                    String::from_str("\u{2318} + I")
                } else if str_eq(h.as_str(), "ctrl+i") {
                    String::from_str("\u{2303} + I")
                } else {
                    h.clone()
                }
            },
        }
    }

    /// Replace everything by the stock configuration.
    pub fn reset_to_default(&mut self) -> (r: Result<(), VKeyError>)
        ensures
            r is Ok,
            final(self).input_type == InputType::Telex,
            final(self).encoding == Encoding::Unicode,
            final(self).input_mode == InputMode::English,
            final(self).keyboard == crate::types::default_keyboard(),
            final(self).advanced == crate::types::default_advanced(),
            (final(self).global_hotkey matches Some(h) && h@ == "cmd+space"@),
            final(self).auto_save == true,
    {
        *self = AppConfig::default();
        Ok(())
    }

    /// Repair the configuration in place: a missing or malformed hotkey
    /// falls back to the stock chord, and the keyboard settings keep at
    /// least one modifier behaviour on.
    pub fn validate_and_fix(&mut self) -> (r: Result<(), VKeyError>)
        ensures
            r is Ok,
            (old(self).global_hotkey matches Some(h0) && valid_hotkey(h0@)) ==> final(self).global_hotkey == old(self).global_hotkey,
            (old(self).global_hotkey is None || (old(self).global_hotkey matches Some(h0)
                && !valid_hotkey(h0@))) ==> (final(self).global_hotkey matches Some(h) && h@
                == "cmd+space"@),
            final(self).keyboard == fixed_keyboard(old(self).keyboard),
            final(self).input_type == old(self).input_type,
            final(self).encoding == old(self).encoding,
            final(self).input_mode == old(self).input_mode,
            final(self).advanced == old(self).advanced,
            final(self).auto_save == old(self).auto_save,
    {
        let needs_reset: bool = match &self.global_hotkey {
            None => true,
            Some(h) => !self.is_valid_hotkey(h.as_str()),
        };
        if needs_reset {
            self.global_hotkey = Some(String::from_str("cmd+space"));
        }
        self.validate_keyboard_config();
        self.validate_advanced_settings();
        Ok(())
    }

    /// Keep at least one modifier behaviour on: with every one off, the
    /// command behaviour is turned back on.
    pub fn validate_keyboard_config(&mut self)
        ensures
            *final(self) == (AppConfig { keyboard: fixed_keyboard(old(self).keyboard), ..*old(self) }),
    {
        if !self.keyboard.shift_enabled && !self.keyboard.ctrl_enabled
            && !self.keyboard.cmd_enabled && !self.keyboard.home_enabled {
            self.keyboard.cmd_enabled = true;
        }
    }

    /// The advanced settings need no repairs; they are taken as they are.
    pub fn validate_advanced_settings(&mut self)
        ensures
            *final(self) == *old(self),
    {
    }
}

/// A keyboard configuration with at least one modifier behaviour on.
pub open spec fn fixed_keyboard(k: KeyboardConfig) -> KeyboardConfig {
    if !k.shift_enabled && !k.ctrl_enabled && !k.cmd_enabled && !k.home_enabled {
        KeyboardConfig { cmd_enabled: true, ..k }
    } else {
        k
    }
}

} // verus!
