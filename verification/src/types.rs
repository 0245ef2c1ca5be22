//! Plain data types shared by the input pipeline and its configuration.

use vstd::prelude::*;

verus! {

/// The input method used to compose Vietnamese text.
#[derive(Debug, Copy, Clone, PartialEq, Eq, Structural)]
pub enum InputType {
    /// Telex input method (e.g., aa -> â)
    Telex,
    /// VNI input method (e.g., a6 -> â)
    VNI,
    /// VIQR input method (e.g., a^ -> â)
    VIQR,
}

impl InputType {
    /// A short human-readable name of the method.
    pub fn name(&self) -> (r: &'static str)
        ensures
            self is Telex ==> r@ == "Telex"@,
            self is VNI ==> r@ == "VNI"@,
            self is VIQR ==> r@ == "VIQR"@,
    {
        match self {
            InputType::Telex => "Telex",
            InputType::VNI => "VNI",
            InputType::VIQR => "VIQR",
        }
    }
}

/// The character encoding used for rendered Vietnamese text.
#[derive(Debug, Copy, Clone, PartialEq, Eq, Structural)]
pub enum Encoding {
    /// Unicode UTF-8 encoding
    Unicode,
    /// TCVN3 (ABC) encoding
    TCVN3,
    /// VNI-Win encoding
    VNIWin,
}

impl Encoding {
    /// A short human-readable name of the encoding.
    pub fn name(&self) -> (r: &'static str)
        ensures
            self is Unicode ==> r@ == "Unicode"@,
            self is TCVN3 ==> r@ == "TCVN3"@,
            self is VNIWin ==> r@ == "VNI-Win"@,
    {
        match self {
            Encoding::Unicode => "Unicode",
            Encoding::TCVN3 => "TCVN3",
            Encoding::VNIWin => "VNI-Win",
        }
    }
}

/// Whether keystrokes are currently composed into Vietnamese or passed
/// through as plain English.
#[derive(Debug, Copy, Clone, PartialEq, Eq, Structural)]
pub enum InputMode {
    /// Vietnamese input mode
    Vietnamese,
    /// English input mode
    English,
}

/// Which modifier-based behaviours are enabled.
#[derive(Debug, Copy, Clone, PartialEq, Eq, Structural)]
pub struct KeyboardConfig {
    pub shift_enabled: bool,
    pub ctrl_enabled: bool,
    pub cmd_enabled: bool,
    pub home_enabled: bool,
    pub beep_enabled: bool,
}

/// The stock keyboard configuration: only the command and home behaviours
/// on.
pub open spec fn default_keyboard() -> KeyboardConfig {
    KeyboardConfig {
        shift_enabled: false,
        ctrl_enabled: false,
        cmd_enabled: true,
        home_enabled: true,
        beep_enabled: false,
    }
}

impl Default for KeyboardConfig {
    /// The stock configuration: only the command and home behaviours on.
    fn default() -> (r: Self)
        ensures
            r == default_keyboard(),
    {
        KeyboardConfig {
            shift_enabled: false,
            ctrl_enabled: false,
            cmd_enabled: true,
            home_enabled: true,
            beep_enabled: false,
        }
    }
}

/// Optional behaviours of the composition engine and the application
/// around it.
#[derive(Debug, Copy, Clone, PartialEq, Eq, Structural)]
pub struct AdvancedSettings {
    /// Replace oa, uy with oa, uy
    pub replace_oa_uy: bool,
    /// Spell checking
    pub spell_check: bool,
    /// Auto restart on typos
    pub auto_restart_typos: bool,
    /// Write Vietnamese with capital letters
    pub vietnamese_capital: bool,
    /// Smart input mode switching
    pub smart_switching: bool,
    /// Remember encoding by app
    pub remember_encoding: bool,
    /// Allow z w j f as silent consonants
    pub allow_silent_consonants: bool,
    /// Auto-correct spelling mistakes
    pub auto_correct_spelling: bool,
    /// Temporarily disable spell check
    pub temp_disable_spell_check: bool,
    /// Temporarily disable the whole input method
    pub temp_disable_openkey: bool,
}

/// The stock advanced settings: spell check, smart switching and
/// per-application encoding memory on, everything else off.
pub open spec fn default_advanced() -> AdvancedSettings {
    AdvancedSettings {
        replace_oa_uy: false,
        spell_check: true,
        auto_restart_typos: false,
        vietnamese_capital: false,
        smart_switching: true,
        remember_encoding: true,
        allow_silent_consonants: false,
        auto_correct_spelling: false,
        temp_disable_spell_check: false,
        temp_disable_openkey: false,
    }
}

impl Default for AdvancedSettings {
    /// The stock settings: spell check, smart switching and per-application
    /// encoding memory on, everything else off.
    fn default() -> (r: Self)
        ensures
            r == default_advanced(),
    {
        AdvancedSettings {
            replace_oa_uy: false,
            spell_check: true,
            auto_restart_typos: false,
            vietnamese_capital: false,
            smart_switching: true,
            remember_encoding: true,
            allow_silent_consonants: false,
            auto_correct_spelling: false,
            temp_disable_spell_check: false,
            temp_disable_openkey: false,
        }
    }
}

} // verus!
