//! The transliteration engine boundary.
//!
//! The actual phonetic rules of Telex and VNI live in the external `vi`
//! engine, consumed as a black box that maps a whole keystroke buffer to a
//! composed string plus two change flags.  This module gives the engine's
//! results names that contracts can speak of, and a verified dispatcher
//! over the active input method.  VIQR is not supported by the engine, so
//! it falls back to echoing the raw buffer.

use vstd::prelude::*;
use crate::types::InputType;

verus! {

/// What the Telex transliteration of a keystroke sequence is.
pub uninterp spec fn telex_out(s: Seq<char>) -> Seq<char>;

/// Whether composing a Telex sequence removed a previously applied
/// letter modification at any point.
pub uninterp spec fn telex_letter_removed(s: Seq<char>) -> bool;

/// Whether composing a Telex sequence removed a previously applied tone
/// mark at any point.
pub uninterp spec fn telex_tone_removed(s: Seq<char>) -> bool;

/// What the VNI transliteration of a keystroke sequence is.
pub uninterp spec fn vni_out(s: Seq<char>) -> Seq<char>;

/// Whether composing a VNI sequence removed a previously applied letter
/// modification at any point.
pub uninterp spec fn vni_letter_removed(s: Seq<char>) -> bool;

/// Whether composing a VNI sequence removed a previously applied tone
/// mark at any point.
pub uninterp spec fn vni_tone_removed(s: Seq<char>) -> bool;

/// Relies on vi::transform_buffer with the built-in TELEX definition: it
/// writes the transliteration of the whole buffer into the output string
/// and reports whether composing it removed a previously applied letter
/// modification or tone mark at any point (the flags are cumulative over
/// the buffer).  The result is a function of the buffer's characters
/// alone; an empty buffer yields an empty string and clear flags.
#[verifier::external_body]
fn transform_telex(buf: &str) -> (r: (String, bool, bool))
    ensures
        r.0@ == telex_out(buf@),
        r.1 == telex_letter_removed(buf@),
        r.2 == telex_tone_removed(buf@),
        buf@.len() == 0 ==> r.0@.len() == 0,
{
    let mut out = String::new();
    let tr = vi::transform_buffer(&vi::TELEX, buf.chars(), &mut out);
    (out, tr.letter_modification_removed, tr.tone_mark_removed)
}

/// Relies on vi::transform_buffer with the built-in VNI definition, in the
/// same way as the Telex wrapper above.
#[verifier::external_body]
fn transform_vni(buf: &str) -> (r: (String, bool, bool))
    ensures
        r.0@ == vni_out(buf@),
        r.1 == vni_letter_removed(buf@),
        r.2 == vni_tone_removed(buf@),
        buf@.len() == 0 ==> r.0@.len() == 0,
{
    let mut out = String::new();
    let tr = vi::transform_buffer(&vi::VNI, buf.chars(), &mut out);
    (out, tr.letter_modification_removed, tr.tone_mark_removed)
}

/// What the active engine renders for a keystroke sequence: the Telex or
/// VNI transliteration, or the sequence itself under VIQR, which the
/// engine does not support.
pub open spec fn engine_out(t: InputType, s: Seq<char>) -> Seq<char> {
    match t {
        InputType::Telex => telex_out(s),
        InputType::VNI => vni_out(s),
        InputType::VIQR => s,
    }
}

/// Whether the engine reports that composing the sequence removed a
/// previously applied letter modification.  Never set under the VIQR
/// fallback.
pub open spec fn engine_letter_removed(t: InputType, s: Seq<char>) -> bool {
    match t {
        InputType::Telex => telex_letter_removed(s),
        InputType::VNI => vni_letter_removed(s),
        InputType::VIQR => false,
    }
}

/// Whether the engine reports that composing the sequence removed a
/// previously applied tone mark.  Never set under the VIQR fallback.
pub open spec fn engine_tone_removed(t: InputType, s: Seq<char>) -> bool {
    match t {
        InputType::Telex => telex_tone_removed(s),
        InputType::VNI => vni_tone_removed(s),
        InputType::VIQR => false,
    }
}

/// Run the active engine over the whole buffer, returning the rendered
/// string and the two removal flags.
pub(crate) fn engine_transform(t: InputType, buf: &str) -> (r: (String, bool, bool))
    ensures
        r.0@ == engine_out(t, buf@),
        r.1 == engine_letter_removed(t, buf@),
        r.2 == engine_tone_removed(t, buf@),
        buf@.len() == 0 ==> r.0@.len() == 0,
{
    match t {
        InputType::Telex => transform_telex(buf),
        InputType::VNI => transform_vni(buf),
        InputType::VIQR => (String::from_str(buf), false, false),
    }
}

} // verus!
