//! Modifier state and hotkey matching.
//!
//! The modifier state is a bitset updated on every modifier-change event;
//! a hotkey is a modifier combination plus a trigger key, matched against
//! the current state and the latest key.

use vstd::prelude::*;
use crate::keys::PressedKey;

verus! {

pub const MODIFIER_NONE: u32 = 0;

pub const MODIFIER_SHIFT: u32 = 1;

pub const MODIFIER_SUPER: u32 = 2;

pub const MODIFIER_CONTROL: u32 = 4;

pub const MODIFIER_ALT: u32 = 8;

pub const MODIFIER_CAPSLOCK: u32 = 16;

/// The set of currently held modifiers, as a bitset over the
/// `MODIFIER_...` flags.
#[derive(Debug, Clone, Copy, PartialEq, Eq, Structural)]
pub struct KeyModifier {
    pub bits: u32,
}

impl KeyModifier {
    /// No modifiers held.
    pub fn new() -> (r: Self)
        ensures
            r.bits == 0,
    {
        KeyModifier { bits: MODIFIER_NONE }
    }

    /// Whether every bit of `m` is held.
    pub open spec fn has(self, m: u32) -> bool {
        self.bits & m == m
    }

    /// Whether no modifier is held.
    pub open spec fn is_empty(self) -> bool {
        self.bits == 0
    }

    pub fn add_shift(&mut self)
        ensures
            final(self).bits == old(self).bits | MODIFIER_SHIFT,
    {
        self.bits = self.bits | MODIFIER_SHIFT;
    }

    pub fn add_super(&mut self)
        ensures
            final(self).bits == old(self).bits | MODIFIER_SUPER,
    {
        self.bits = self.bits | MODIFIER_SUPER;
    }

    pub fn add_control(&mut self)
        ensures
            final(self).bits == old(self).bits | MODIFIER_CONTROL,
    {
        self.bits = self.bits | MODIFIER_CONTROL;
    }

    pub fn add_alt(&mut self)
        ensures
            final(self).bits == old(self).bits | MODIFIER_ALT,
    {
        self.bits = self.bits | MODIFIER_ALT;
    }

    pub fn add_capslock(&mut self)
        ensures
            final(self).bits == old(self).bits | MODIFIER_CAPSLOCK,
    {
        self.bits = self.bits | MODIFIER_CAPSLOCK;
    }

    pub fn is_shift(&self) -> (r: bool)
        ensures
            r == self.has(MODIFIER_SHIFT),
    {
        self.bits & MODIFIER_SHIFT == MODIFIER_SHIFT
    }

    pub fn is_super(&self) -> (r: bool)
        ensures
            r == self.has(MODIFIER_SUPER),
    {
        self.bits & MODIFIER_SUPER == MODIFIER_SUPER
    }

    pub fn is_control(&self) -> (r: bool)
        ensures
            r == self.has(MODIFIER_CONTROL),
    {
        self.bits & MODIFIER_CONTROL == MODIFIER_CONTROL
    }

    pub fn is_alt(&self) -> (r: bool)
        ensures
            r == self.has(MODIFIER_ALT),
    {
        self.bits & MODIFIER_ALT == MODIFIER_ALT
    }

    pub fn is_capslock(&self) -> (r: bool)
        ensures
            r == self.has(MODIFIER_CAPSLOCK),
    {
        self.bits & MODIFIER_CAPSLOCK == MODIFIER_CAPSLOCK
    }

    /// Whether no modifier is held.
    pub fn is_none(&self) -> (r: bool)
        ensures
            r == self.is_empty(),
    {
        self.bits == 0
    }
}

/// A configured toggle chord: a modifier combination plus the trigger key
/// that must be pressed while the combination is held.
#[derive(Debug, Clone, Copy, PartialEq, Eq, Structural)]
pub struct Hotkey {
    pub modifiers: KeyModifier,
    pub trigger: char,
}

impl Hotkey {
    /// Whether the held modifiers cover the chord's combination and the
    /// decoded key is exactly the trigger.
    pub open spec fn matches_spec(self, mods: KeyModifier, key: Option<PressedKey>) -> bool {
        mods.has(self.modifiers.bits) && key == Some(PressedKey::Char(self.trigger))
    }

    /// Match the chord against the current modifiers and the latest key.
    pub fn matches(&self, mods: KeyModifier, key: Option<PressedKey>) -> (r: bool)
        ensures
            r == self.matches_spec(mods, key),
    {
        if mods.bits & self.modifiers.bits != self.modifiers.bits {
            return false;
        }
        match key {
            Some(PressedKey::Char(c)) => c == self.trigger,
            _ => false,
        }
    }
}

impl Default for Hotkey {
    /// The stock chord: super plus space.
    fn default() -> (r: Self)
        ensures
            r.modifiers.bits == MODIFIER_SUPER,
            r.trigger == ' ',
    {
        Hotkey { modifiers: KeyModifier { bits: MODIFIER_SUPER }, trigger: ' ' }
    }
}

/// Whether the current modifiers and the latest key match the configured
/// chord.
pub fn is_hotkey_match(hotkey: &Hotkey, modifiers: KeyModifier, key: Option<PressedKey>) -> (r:
    bool)
    ensures
        r == hotkey.matches_spec(modifiers, key),
{
    hotkey.matches(modifiers, key)
}

} // verus!
