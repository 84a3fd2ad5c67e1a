//! Input methods and their key tables.
//!
//! A [`Mode`] says, for one input method, what each key byte is (vowel,
//! modifier, tone key), which tone a tone key asks for, which letters a `w`
//! may attach to, and how two neighbouring keys fold into one letter.

use vstd::prelude::*;

verus! {

/// Attribute bit: the key is a plain vowel letter.
pub const IS_VOWEL: u8 = 1;

/// Attribute bit: the key modifies a neighbouring letter.
pub const IS_MODIFIER: u8 = 2;

/// Attribute bit: the key asks for a tone.
pub const IS_TONE_KEY: u8 = 4;

/// The key bytes that the tables name: lower-case letters and digits.
pub const KEY_A: u8 = 97;
pub const KEY_B: u8 = 98;
pub const KEY_C: u8 = 99;
pub const KEY_D: u8 = 100;
pub const KEY_E: u8 = 101;
pub const KEY_F: u8 = 102;
pub const KEY_G: u8 = 103;
pub const KEY_H: u8 = 104;
pub const KEY_I: u8 = 105;
pub const KEY_J: u8 = 106;
pub const KEY_K: u8 = 107;
pub const KEY_L: u8 = 108;
pub const KEY_N: u8 = 110;
pub const KEY_O: u8 = 111;
pub const KEY_P: u8 = 112;
pub const KEY_Q: u8 = 113;
pub const KEY_R: u8 = 114;
pub const KEY_S: u8 = 115;
pub const KEY_T: u8 = 116;
pub const KEY_U: u8 = 117;
pub const KEY_W: u8 = 119;
pub const KEY_X: u8 = 120;
pub const KEY_Y: u8 = 121;
pub const KEY_Z: u8 = 122;
pub const KEY_0: u8 = 48;
pub const KEY_1: u8 = 49;
pub const KEY_5: u8 = 53;
pub const KEY_6: u8 = 54;
pub const KEY_7: u8 = 55;
pub const KEY_8: u8 = 56;
pub const KEY_9: u8 = 57;

/// The keyboard convention in which the user types.
#[derive(Clone, Copy, Debug, PartialEq, Eq, Structural)]
pub enum InputMethod {
    Telex,
    Vni,
}

/// Descriptor of one input method.
#[derive(Clone, Copy, Debug, PartialEq, Eq, Structural)]
pub struct Mode {
    /// The input method whose tables this descriptor stands for.
    pub method: InputMethod,
    /// Whether modifier keys typed late are moved back to their letter.
    pub enable_modifier_bubbling: bool,
}

/// The key is one of the six plain vowel letters.
pub open spec fn is_vowel_key(b: u8) -> bool {
    b == KEY_A || b == KEY_E || b == KEY_I || b == KEY_O || b == KEY_U || b == KEY_Y
}

/// The key is one of `a`, `e`, `o`, `d`: the letters that are typed twice
/// for their modified form.
pub open spec fn is_doubling_key(b: u8) -> bool {
    b == KEY_A || b == KEY_E || b == KEY_O || b == KEY_D
}

/// The key asks for a tone under `method`.
pub open spec fn is_tone_key(method: InputMethod, b: u8) -> bool {
    match method {
        InputMethod::Telex => b == KEY_S || b == KEY_F || b == KEY_R || b == KEY_X || b == KEY_J
            || b == KEY_Z,
        InputMethod::Vni => KEY_0 <= b <= KEY_5,
    }
}

/// The key is classified as a modifier under `method`.
pub open spec fn is_modifier_key(method: InputMethod, b: u8) -> bool {
    method == InputMethod::Telex && (b == KEY_W || b == KEY_D)
}

/// Attribute mask of a key under `method`.
pub open spec fn key_attributes(method: InputMethod, b: u8) -> u8 {
    if is_vowel_key(b) {
        IS_VOWEL
    } else if is_modifier_key(method, b) {
        IS_MODIFIER
    } else if is_tone_key(method, b) {
        IS_TONE_KEY
    } else {
        0
    }
}

/// Tone id (0 none, 1 acute, 2 grave, 3 hook above, 4 tilde, 5 dot below)
/// that a key asks for under `method`; 0 for every key that is no tone key.
pub open spec fn tone_id(method: InputMethod, b: u8) -> u8 {
    match method {
        InputMethod::Telex => if b == KEY_S {
            1
        } else if b == KEY_F {
            2
        } else if b == KEY_R {
            3
        } else if b == KEY_X {
            4
        } else if b == KEY_J {
            5
        } else {
            0
        },
        InputMethod::Vni => if KEY_1 <= b <= KEY_5 {
            (b - KEY_0) as u8
        } else {
            0
        },
    }
}

/// A `w` typed later may attach to this key under `method`.
pub open spec fn w_anchor(method: InputMethod, b: u8) -> bool {
    method == InputMethod::Telex && (b == KEY_A || b == KEY_O || b == KEY_U || b == KEY_D)
}

/// Telex folding of the key `curr` with the key after it, if any: the
/// letter that comes out and whether both keys were used up.
pub open spec fn telex_pair(curr: u8, next: Option<u8>) -> (char, bool) {
    if curr == KEY_A && next == Some(KEY_A) {
        ('â', true)
    } else if curr == KEY_A && next == Some(KEY_W) {
        ('ă', true)
    } else if curr == KEY_E && next == Some(KEY_E) {
        ('ê', true)
    } else if curr == KEY_O && next == Some(KEY_O) {
        ('ô', true)
    } else if curr == KEY_O && next == Some(KEY_W) {
        ('ơ', true)
    } else if curr == KEY_U && next == Some(KEY_W) {
        ('ư', true)
    } else if curr == KEY_D && next == Some(KEY_D) {
        ('đ', true)
    } else if curr == KEY_W {
        ('ư', false)
    } else {
        (curr as char, false)
    }
}

/// VNI folding of the key `curr` with the key after it, if any.
pub open spec fn vni_pair(curr: u8, next: Option<u8>) -> (char, bool) {
    if curr == KEY_A && next == Some(KEY_6) {
        ('â', true)
    } else if curr == KEY_A && next == Some(KEY_8) {
        ('ă', true)
    } else if curr == KEY_E && next == Some(KEY_6) {
        ('ê', true)
    } else if curr == KEY_O && next == Some(KEY_6) {
        ('ô', true)
    } else if curr == KEY_O && next == Some(KEY_7) {
        ('ơ', true)
    } else if curr == KEY_U && next == Some(KEY_7) {
        ('ư', true)
    } else if curr == KEY_D && next == Some(KEY_9) {
        ('đ', true)
    } else {
        (curr as char, false)
    }
}

/// Folding of two neighbouring keys under `method`.
pub open spec fn key_pair(method: InputMethod, curr: u8, next: Option<u8>) -> (char, bool) {
    match method {
        InputMethod::Telex => telex_pair(curr, next),
        InputMethod::Vni => vni_pair(curr, next),
    }
}

/// The descriptor that belongs to `method`.
pub open spec fn mode_of(method: InputMethod) -> Mode {
    Mode { method, enable_modifier_bubbling: method == InputMethod::Telex }
}

/// Returns the descriptor of an input method: Telex moves late modifier keys
/// back to their letter, VNI does not.
pub fn mode_for(method: InputMethod) -> (mode: Mode)
    ensures
        mode == mode_of(method),
{
    match method {
        InputMethod::Telex => Mode { method, enable_modifier_bubbling: true },
        InputMethod::Vni => Mode { method, enable_modifier_bubbling: false },
    }
}

/// Attribute mask of the key `b` under `method`.
pub fn classify(method: InputMethod, b: u8) -> (attr: u8)
    ensures
        attr == key_attributes(method, b),
{
    if b == KEY_A || b == KEY_E || b == KEY_I || b == KEY_O || b == KEY_U || b == KEY_Y {
        IS_VOWEL
    } else {
        match method {
            InputMethod::Telex => {
                if b == KEY_W || b == KEY_D {
                    IS_MODIFIER
                } else if b == KEY_S || b == KEY_F || b == KEY_R || b == KEY_X || b == KEY_J || b
                    == KEY_Z {
                    IS_TONE_KEY
                } else {
                    0
                }
            },
            InputMethod::Vni => {
                if KEY_0 <= b && b <= KEY_5 {
                    IS_TONE_KEY
                } else {
                    0
                }
            },
        }
    }
}

/// Tone id that the key `b` asks for under `method`.
pub fn map_tone(method: InputMethod, b: u8) -> (tone: u8)
    ensures
        tone == tone_id(method, b),
        tone <= 5,
{
    match method {
        InputMethod::Telex => {
            if b == KEY_S {
                1
            } else if b == KEY_F {
                2
            } else if b == KEY_R {
                3
            } else if b == KEY_X {
                4
            } else if b == KEY_J {
                5
            } else {
                0
            }
        },
        InputMethod::Vni => {
            if KEY_1 <= b && b <= KEY_5 {
                b - KEY_0
            } else {
                0
            }
        },
    }
}

/// Whether a late `w` may attach to the key `b` under `method`.
pub fn is_w_target(method: InputMethod, b: u8) -> (anchor: bool)
    ensures
        anchor == w_anchor(method, b),
{
    match method {
        InputMethod::Telex => b == KEY_A || b == KEY_O || b == KEY_U || b == KEY_D,
        InputMethod::Vni => false,
    }
}

/// Folds the key `curr` with the key after it by the Telex digraphs
/// `aa aw ee oo ow uw dd`; a `w` that folds with nothing before it becomes
/// `ư`, and every other key comes out as its own code point.
pub fn resolve_telex(curr: u8, next: Option<u8>) -> (folded: (char, bool))
    ensures
        folded == telex_pair(curr, next),
{
    match (curr, next) {
        (97, Some(97)) => ('â', true),
        (97, Some(119)) => ('ă', true),
        (101, Some(101)) => ('ê', true),
        (111, Some(111)) => ('ô', true),
        (111, Some(119)) => ('ơ', true),
        (117, Some(119)) => ('ư', true),
        (100, Some(100)) => ('đ', true),
        (119, _) => ('ư', false),
        _ => (curr as char, false),
    }
}

/// Folds the key `curr` with the key after it by the VNI digit suffixes
/// `a6 a8 e6 o6 o7 u7 d9`; every other key comes out as its own code point.
pub fn resolve_vni(curr: u8, next: Option<u8>) -> (folded: (char, bool))
    ensures
        folded == vni_pair(curr, next),
{
    match (curr, next) {
        (97, Some(54)) => ('â', true),
        (97, Some(56)) => ('ă', true),
        (101, Some(54)) => ('ê', true),
        (111, Some(54)) => ('ô', true),
        (111, Some(55)) => ('ơ', true),
        (117, Some(55)) => ('ư', true),
        (100, Some(57)) => ('đ', true),
        _ => (curr as char, false),
    }
}

impl Mode {
    /// Attribute mask of the key `b` in this mode.
    pub fn classify(&self, b: u8) -> (attr: u8)
        ensures
            attr == key_attributes(self.method, b),
    {
        classify(self.method, b)
    }

    /// Whether `b` is a tone key of this mode.
    pub fn is_tone_key(&self, b: u8) -> (tone_key: bool)
        ensures
            tone_key == is_tone_key(self.method, b),
    {
        self.classify(b) == IS_TONE_KEY
    }

    /// Tone id that the tone key `b` asks for.
    pub fn tone(&self, b: u8) -> (tone: u8)
        ensures
            tone == tone_id(self.method, b),
            tone <= 5,
    {
        map_tone(self.method, b)
    }

    /// Whether a late `w` may attach to `b`.
    pub fn w_target(&self, b: u8) -> (anchor: bool)
        ensures
            anchor == w_anchor(self.method, b),
    {
        is_w_target(self.method, b)
    }

    /// Folds `curr` with the key after it by this mode's rules.
    pub fn resolve(&self, curr: u8, next: Option<u8>) -> (folded: (char, bool))
        ensures
            folded == key_pair(self.method, curr, next),
    {
        match self.method {
            InputMethod::Telex => resolve_telex(curr, next),
            InputMethod::Vni => resolve_vni(curr, next),
        }
    }
}

} // verus!
