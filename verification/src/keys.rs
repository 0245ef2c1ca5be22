//! Logical keys and character classification.
//!
//! The event tap reports each key-down either as a printable character or
//! as an opaque raw hardware code; these types and predicates classify the
//! characters the transliteration pipeline cares about.

use vstd::prelude::*;

verus! {

/// The kind of a system event observed by the tap.
#[derive(Debug, Clone, Copy, PartialEq, Eq, Structural)]
pub enum EventTapType {
    KeyDown,
    FlagsChanged,
    Other,
}

/// A decoded key: a printable character, or a raw hardware code for keys
/// with no text meaning (arrows, function keys).
#[derive(Debug, Clone, Copy, PartialEq, Eq, Structural)]
pub enum PressedKey {
    Char(char),
    Raw(u16),
}

pub const KEY_ENTER: char = '\r';

pub const KEY_SPACE: char = ' ';

pub const KEY_TAB: char = '\t';

pub const KEY_DELETE: char = '\u{8}';

pub const KEY_ESCAPE: char = '\u{1B}';

/// Whether the character is ASCII.
pub open spec fn is_ascii_char(c: char) -> bool {
    (c as int) < 128
}

/// Whether the character is an ASCII control character.
pub open spec fn is_ascii_control_char(c: char) -> bool {
    (c as int) < 32 || (c as int) == 127
}

/// Whether the character is an ASCII decimal digit.
pub open spec fn is_digit_char(c: char) -> bool {
    48 <= (c as int) && (c as int) <= 57
}

/// Whether the character is an ASCII letter.
pub open spec fn is_ascii_letter(c: char) -> bool {
    (65 <= (c as int) && (c as int) <= 90) || (97 <= (c as int) && (c as int) <= 122)
}

/// Decide whether the character is an ASCII letter.
pub fn is_ascii_letter_char(c: char) -> (r: bool)
    ensures
        r == is_ascii_letter(c),
{
    ((c as u32) >= 65 && (c as u32) <= 90) || ((c as u32) >= 97 && (c as u32) <= 122)
}

/// Whether the character ends the current word: printable punctuation that
/// never takes part in a Vietnamese syllable.
pub open spec fn is_word_boundary(c: char) -> bool {
    c == '(' || c == ')' || c == '[' || c == ']' || c == '{' || c == '}'
    || c == '<' || c == '>' || c == '/' || c == '\\' || c == '!' || c == '@'
    || c == '#' || c == '$' || c == '%' || c == '^' || c == '&' || c == '*'
    || c == '-' || c == '_' || c == '=' || c == '+' || c == '|' || c == '~'
    || c == '`' || c == ',' || c == '.' || c == ';' || c == '\'' || c == '"'
    || c == '?'
}

/// Decide whether the character ends the current word.
pub fn is_word_boundary_char(c: char) -> (r: bool)
    ensures
        r == is_word_boundary(c),
{
    match c {
        '(' | ')' | '[' | ']' | '{' | '}' | '<' | '>' | '/' | '\\' | '!' | '@'
        | '#' | '$' | '%' | '^' | '&' | '*' | '-' | '_' | '=' | '+' | '|' | '~'
        | '`' | ',' | '.' | ';' | '\'' | '"' | '?' => true,
        _ => false,
    }
}

/// The ASCII-lowercase form of a character: uppercase ASCII letters map to
/// their lowercase form, everything else is unchanged.
pub open spec fn lo(c: char) -> char {
    if c == 'A' { 'a' } else if c == 'B' { 'b' } else if c == 'C' { 'c' }
    else if c == 'D' { 'd' } else if c == 'E' { 'e' } else if c == 'F' { 'f' }
    else if c == 'G' { 'g' } else if c == 'H' { 'h' } else if c == 'I' { 'i' }
    else if c == 'J' { 'j' } else if c == 'K' { 'k' } else if c == 'L' { 'l' }
    else if c == 'M' { 'm' } else if c == 'N' { 'n' } else if c == 'O' { 'o' }
    else if c == 'P' { 'p' } else if c == 'Q' { 'q' } else if c == 'R' { 'r' }
    else if c == 'S' { 's' } else if c == 'T' { 't' } else if c == 'U' { 'u' }
    else if c == 'V' { 'v' } else if c == 'W' { 'w' } else if c == 'X' { 'x' }
    else if c == 'Y' { 'y' } else if c == 'Z' { 'z' } else { c }
}

/// Lower a character to its ASCII-lowercase form.
pub fn to_lower(c: char) -> (r: char)
    ensures
        r == lo(c),
{
    match c {
        'A' => 'a', 'B' => 'b', 'C' => 'c', 'D' => 'd', 'E' => 'e', 'F' => 'f',
        'G' => 'g', 'H' => 'h', 'I' => 'i', 'J' => 'j', 'K' => 'k', 'L' => 'l',
        'M' => 'm', 'N' => 'n', 'O' => 'o', 'P' => 'p', 'Q' => 'q', 'R' => 'r',
        'S' => 's', 'T' => 't', 'U' => 'u', 'V' => 'v', 'W' => 'w', 'X' => 'x',
        'Y' => 'y', 'Z' => 'z',
        _ => c,
    }
}

/// What a key produces when shift is held: the symbol row and punctuation
/// map to their shifted symbols, lowercase letters to uppercase, and
/// everything else is unchanged.
pub open spec fn shifted(c: char) -> char {
    if c == '.' { '>' } else if c == ',' { '<' } else if c == ';' { ':' }
    else if c == '\'' { '"' } else if c == '[' { '{' } else if c == ']' { '}' }
    else if c == '\\' { '|' } else if c == '/' { '?' } else if c == '1' { '!' }
    else if c == '2' { '@' } else if c == '3' { '#' } else if c == '4' { '$' }
    else if c == '5' { '%' } else if c == '6' { '^' } else if c == '7' { '&' }
    else if c == '8' { '*' } else if c == '9' { '(' } else if c == '0' { ')' }
    else if c == '-' { '_' } else if c == '=' { '+' } else if c == '`' { '~' }
    else if 97 <= (c as int) && (c as int) <= 122 { up(c) }
    else { c }
}

/// The ASCII-uppercase form of a character: lowercase ASCII letters map to
/// their uppercase form, everything else is unchanged.
pub open spec fn up(c: char) -> char {
    if c == 'a' { 'A' } else if c == 'b' { 'B' } else if c == 'c' { 'C' }
    else if c == 'd' { 'D' } else if c == 'e' { 'E' } else if c == 'f' { 'F' }
    else if c == 'g' { 'G' } else if c == 'h' { 'H' } else if c == 'i' { 'I' }
    else if c == 'j' { 'J' } else if c == 'k' { 'K' } else if c == 'l' { 'L' }
    else if c == 'm' { 'M' } else if c == 'n' { 'N' } else if c == 'o' { 'O' }
    else if c == 'p' { 'P' } else if c == 'q' { 'Q' } else if c == 'r' { 'R' }
    else if c == 's' { 'S' } else if c == 't' { 'T' } else if c == 'u' { 'U' }
    else if c == 'v' { 'V' } else if c == 'w' { 'W' } else if c == 'x' { 'X' }
    else if c == 'y' { 'Y' } else if c == 'z' { 'Z' } else { c }
}

/// Raise a character to its ASCII-uppercase form.
pub fn to_upper(c: char) -> (r: char)
    ensures
        r == up(c),
{
    match c {
        'a' => 'A', 'b' => 'B', 'c' => 'C', 'd' => 'D', 'e' => 'E', 'f' => 'F',
        'g' => 'G', 'h' => 'H', 'i' => 'I', 'j' => 'J', 'k' => 'K', 'l' => 'L',
        'm' => 'M', 'n' => 'N', 'o' => 'O', 'p' => 'P', 'q' => 'Q', 'r' => 'R',
        's' => 'S', 't' => 'T', 'u' => 'U', 'v' => 'V', 'w' => 'W', 'x' => 'X',
        'y' => 'Y', 'z' => 'Z',
        _ => c,
    }
}

/// Apply the shift key to a character.
pub fn shifted_char(c: char) -> (r: char)
    ensures
        r == shifted(c),
{
    match c {
        '.' => '>', ',' => '<', ';' => ':', '\'' => '"', '[' => '{', ']' => '}',
        '\\' => '|', '/' => '?', '1' => '!', '2' => '@', '3' => '#', '4' => '$',
        '5' => '%', '6' => '^', '7' => '&', '8' => '*', '9' => '(', '0' => ')',
        '-' => '_', '=' => '+', '`' => '~',
        _ => {
            if (c as u32) >= 97 && (c as u32) <= 122 {
                to_upper(c)
            } else {
                c
            }
        },
    }
}

} // verus!
