//! Platform-facing decisions that need no platform: which host
//! applications want the selection-dismissal workaround, and the plain
//! state a per-platform keyboard handler keeps.

use vstd::prelude::*;
use crate::text::{contains_seq, str_contains};
use crate::types::InputType;

verus! {

/// Whether the frontmost application is one whose text fields hold a
/// selection in ways that need dismissing before deletion (browser-style
/// URL bars).
pub fn should_dismiss_selection_if_needed(app_name: &str) -> (r: bool)
    ensures
        r == (contains_seq(app_name@, "Firefox"@) || contains_seq(app_name@, "Chrome"@)),
{
    str_contains(app_name, "Firefox") || str_contains(app_name, "Chrome")
}

/// The mathematical state of a platform keyboard handler.
pub struct HandlerState {
    pub input_type: InputType,
    pub enabled: bool,
    pub buffer: Seq<char>,
    pub system_integrated: bool,
}

/// The plain state a platform keyboard handler keeps: the active method,
/// an enabled flag, a scratch buffer, and whether it is wired into the
/// system hook.
#[derive(Debug, Clone)]
pub struct MacOSKeyboardHandler {
    input_type: InputType,
    enabled: bool,
    current_buffer: String,
    system_integrated: bool,
}

impl View for MacOSKeyboardHandler {
    type V = HandlerState;

    closed spec fn view(&self) -> HandlerState {
        HandlerState {
            input_type: self.input_type,
            enabled: self.enabled,
            buffer: self.current_buffer@,
            system_integrated: self.system_integrated,
        }
    }
}

impl MacOSKeyboardHandler {
    /// A fresh handler: disabled, empty buffer, not wired into the
    /// system.
    pub fn new(input_type: InputType) -> (r: Self)
        ensures
            r@ == (HandlerState {
                input_type,
                enabled: false,
                buffer: Seq::empty(),
                system_integrated: false,
            }),
    {
        let r = MacOSKeyboardHandler {
            input_type,
            enabled: false,
            current_buffer: String::new(),
            system_integrated: false,
        };
        proof {
            assert(r@ =~= HandlerState {
                input_type,
                enabled: false,
                buffer: Seq::empty(),
                system_integrated: false,
            });
        }
        r
    }

    /// A fresh handler marked as wired into the system hook.
    pub fn new_with_system_integration(input_type: InputType) -> (r: Result<Self, String>)
        ensures
            (r matches Ok(h) && h@ == (HandlerState {
                input_type,
                enabled: false,
                buffer: Seq::empty(),
                system_integrated: true,
            })),
    {
        let mut handler = Self::new(input_type);
        handler.system_integrated = true;
        Ok(handler)
    }

    /// Switch the active input method.
    pub fn set_input_type(&mut self, input_type: InputType)
        ensures
            final(self)@ == (HandlerState { input_type, ..old(self)@ }),
    {
        self.input_type = input_type;
    }

    /// Turn the handler on or off.
    pub fn set_enabled(&mut self, enabled: bool)
        ensures
            final(self)@ == (HandlerState { enabled, ..old(self)@ }),
    {
        self.enabled = enabled;
    }

    /// The scratch buffer's contents.
    pub fn get_current_buffer(&self) -> (r: String)
        ensures
            r@ == self@.buffer,
    {
        self.current_buffer.clone()
    }

    /// Empty the scratch buffer.
    pub fn clear_buffer(&mut self)
        ensures
            final(self)@ == (HandlerState { buffer: Seq::empty(), ..old(self)@ }),
    {
        self.current_buffer = String::new();
    }
}

} // verus!
