//! Keyboard-layout resolution: from a hardware key code to the logical
//! key it produces.
//!
//! The layout is a small character-to-character map, rebuilt by the
//! application whenever the system layout changes; the fixed part — which
//! key code carries which base character, and which codes are the named
//! special keys — lives here.

use vstd::prelude::*;
use crate::keys::PressedKey;

verus! {

/// The physical key positions a layout map covers.
pub const PREDEFINED_CHARS: [char; 47] = [
    'a', '`', '1', '2', '3', '4', '5', '6', '7', '8', '9', '0', '-', '=', 'q', 'w', 'e', 'r',
    't', 'y', 'u', 'i', 'o', 'p', '[', ']', 's', 'd', 'f', 'g', 'h', 'j', 'k', 'l', ';', '\'',
    '\\', 'z', 'x', 'c', 'v', 'b', 'n', 'm', ',', '.', '/',
];

/// What a pair list maps a character to: the first matching pair wins,
/// and an unmapped character stays itself.
pub open spec fn lookup_spec(pairs: Seq<(char, char)>, c: char) -> char
    decreases pairs.len(),
{
    if pairs.len() == 0 {
        c
    } else if pairs[0].0 == c {
        pairs[0].1
    } else {
        lookup_spec(pairs.subrange(1, pairs.len() as int), c)
    }
}

/// The active keyboard-layout map from base characters to the characters
/// the current system layout produces for them.
#[derive(Debug, Clone)]
pub struct KeyboardLayout {
    pairs: Vec<(char, char)>,
}

impl View for KeyboardLayout {
    type V = Seq<(char, char)>;

    closed spec fn view(&self) -> Seq<(char, char)> {
        self.pairs@
    }
}

impl KeyboardLayout {
    /// A layout from explicit pairs, first match winning.
    pub fn from_pairs(pairs: Vec<(char, char)>) -> (r: Self)
        ensures
            r@ == pairs@,
    {
        KeyboardLayout { pairs }
    }

    /// The fallback layout: every predefined character maps to itself.
    pub fn identity() -> (r: Self)
        ensures
            forall|c: char| lookup_spec(r@, c) == c,
    {
        let mut pairs: Vec<(char, char)> = Vec::new();
        let mut i: usize = 0;
        while i < 47
            invariant
                i <= 47,
                forall|j: int| 0 <= j && j < pairs@.len() ==> (#[trigger] pairs@[j]).0
                    == pairs@[j].1,
            decreases 47 - i,
        {
            let c = PREDEFINED_CHARS[i];
            pairs.push((c, c));
            i += 1;
        }
        proof {
            lemma_identity_pairs_lookup(pairs@);
        }
        KeyboardLayout { pairs }
    }

    /// The character the current layout produces for a base character.
    pub fn lookup(&self, c: char) -> (r: char)
        ensures
            r == lookup_spec(self@, c),
    {
        let mut i: usize = 0;
        proof {
            assert(self.pairs@.subrange(0, self.pairs@.len() as int) =~= self.pairs@);
        }
        while i < self.pairs.len()
            invariant
                i <= self.pairs.len(),
                lookup_spec(self.pairs@, c) == lookup_spec(
                    self.pairs@.subrange(i as int, self.pairs@.len() as int),
                    c,
                ),
                self.pairs@ == self@,
            decreases self.pairs.len() - i,
        {
            let (from, to) = self.pairs[i];
            proof {
                let rest = self.pairs@.subrange(i as int, self.pairs@.len() as int);
                assert(rest[0] == self.pairs@[i as int]);
                assert(rest.subrange(1, rest.len() as int) =~= self.pairs@.subrange(
                    i as int + 1,
                    self.pairs@.len() as int,
                ));
            }
            if from == c {
                return to;
            }
            i += 1;
        }
        proof {
            assert(self.pairs@.subrange(
                self.pairs@.len() as int,
                self.pairs@.len() as int,
            ) =~= Seq::<(char, char)>::empty());
        }
        c
    }
}

/// In a pair list where every pair maps a character to itself, every
/// lookup is the identity.
proof fn lemma_identity_pairs_lookup(pairs: Seq<(char, char)>)
    requires
        forall|j: int| 0 <= j && j < pairs.len() ==> (#[trigger] pairs[j]).0 == pairs[j].1,
    ensures
        forall|c: char| lookup_spec(pairs, c) == c,
    decreases pairs.len(),
{
    if pairs.len() > 0 {
        let tail = pairs.subrange(1, pairs.len() as int);
        lemma_identity_pairs_lookup(tail);
        assert forall|c: char| lookup_spec(pairs, c) == c by {
            if pairs[0].0 != c {
                assert(lookup_spec(tail, c) == c);
            }
        }
    }
}

/// The base character a hardware key code carries, if it is a character
/// key.
pub open spec fn base_char(keycode: u16) -> Option<char> {
    if keycode == 0 { Some('a') } else if keycode == 1 { Some('s') }
    else if keycode == 2 { Some('d') } else if keycode == 3 { Some('f') }
    else if keycode == 4 { Some('h') } else if keycode == 5 { Some('g') }
    else if keycode == 6 { Some('z') } else if keycode == 7 { Some('x') }
    else if keycode == 8 { Some('c') } else if keycode == 9 { Some('v') }
    else if keycode == 11 { Some('b') } else if keycode == 12 { Some('q') }
    else if keycode == 13 { Some('w') } else if keycode == 14 { Some('e') }
    else if keycode == 15 { Some('r') } else if keycode == 16 { Some('y') }
    else if keycode == 17 { Some('t') } else if keycode == 31 { Some('o') }
    else if keycode == 32 { Some('u') } else if keycode == 34 { Some('i') }
    else if keycode == 35 { Some('p') } else if keycode == 37 { Some('l') }
    else if keycode == 38 { Some('j') } else if keycode == 40 { Some('k') }
    else if keycode == 45 { Some('n') } else if keycode == 46 { Some('m') }
    else if keycode == 18 { Some('1') } else if keycode == 19 { Some('2') }
    else if keycode == 20 { Some('3') } else if keycode == 21 { Some('4') }
    else if keycode == 22 { Some('6') } else if keycode == 23 { Some('5') }
    else if keycode == 25 { Some('9') } else if keycode == 26 { Some('7') }
    else if keycode == 28 { Some('8') } else if keycode == 29 { Some('0') }
    else if keycode == 27 { Some('-') } else if keycode == 33 { Some('[') }
    else if keycode == 30 { Some(']') } else if keycode == 41 { Some(';') }
    else if keycode == 43 { Some(',') } else if keycode == 24 { Some('=') }
    else if keycode == 42 { Some('\\') } else if keycode == 44 { Some('/') }
    else if keycode == 39 { Some('\'') } else if keycode == 47 { Some('.') }
    else if keycode == 50 { Some('`') } else { None }
}

/// What a hardware key code resolves to under a layout: a named special
/// key, a layout-mapped character, or an opaque raw code.
pub open spec fn resolve_spec(layout: Seq<(char, char)>, keycode: u16) -> PressedKey {
    if keycode == 36 || keycode == 52 {
        PressedKey::Char('\r')
    } else if keycode == 49 {
        PressedKey::Char(' ')
    } else if keycode == 48 {
        PressedKey::Char('\t')
    } else if keycode == 51 {
        PressedKey::Char('\u{8}')
    } else if keycode == 53 {
        PressedKey::Char('\u{1B}')
    } else {
        match base_char(keycode) {
            Some(c) => PressedKey::Char(lookup_spec(layout, c)),
            None => PressedKey::Raw(keycode),
        }
    }
}

/// Decode a hardware key code into the logical key it produces under the
/// given layout.
pub fn get_char(keycode: u16, layout: &KeyboardLayout) -> (r: Option<PressedKey>)
    ensures
        r == Some(resolve_spec(layout@, keycode)),
{
    let key = match keycode {
        36 | 52 => PressedKey::Char('\r'),
        49 => PressedKey::Char(' '),
        48 => PressedKey::Char('\t'),
        51 => PressedKey::Char('\u{8}'),
        53 => PressedKey::Char('\u{1B}'),
        _ => {
            match base_char_exec(keycode) {
                Some(c) => PressedKey::Char(layout.lookup(c)),
                None => PressedKey::Raw(keycode),
            }
        },
    };
    Some(key)
}

/// Decode the fixed key-code table.
fn base_char_exec(keycode: u16) -> (r: Option<char>)
    ensures
        r == base_char(keycode),
{
    match keycode {
        0 => Some('a'), 1 => Some('s'), 2 => Some('d'), 3 => Some('f'), 4 => Some('h'),
        5 => Some('g'), 6 => Some('z'), 7 => Some('x'), 8 => Some('c'), 9 => Some('v'),
        11 => Some('b'), 12 => Some('q'), 13 => Some('w'), 14 => Some('e'), 15 => Some('r'),
        16 => Some('y'), 17 => Some('t'), 31 => Some('o'), 32 => Some('u'), 34 => Some('i'),
        35 => Some('p'), 37 => Some('l'), 38 => Some('j'), 40 => Some('k'), 45 => Some('n'),
        46 => Some('m'), 18 => Some('1'), 19 => Some('2'), 20 => Some('3'), 21 => Some('4'),
        22 => Some('6'), 23 => Some('5'), 25 => Some('9'), 26 => Some('7'), 28 => Some('8'),
        29 => Some('0'), 27 => Some('-'), 33 => Some('['), 30 => Some(']'), 41 => Some(';'),
        43 => Some(','), 24 => Some('='), 42 => Some('\\'), 44 => Some('/'), 39 => Some('\''),
        47 => Some('.'), 50 => Some('`'),
        _ => None,
    }
}

} // verus!
