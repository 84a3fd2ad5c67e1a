//! The render pass: from the typed keys of one syllable to its letters.
//!
//! The pass is a function of the keys and the mode alone. It takes the tone
//! keys out, moves late modifiers back, resolves keys into letters, gives
//! the rendering up where it cannot be Vietnamese, and sets the tone.

use vstd::prelude::*;
use crate::bubble::{bubble_modifiers, bubbled};
use crate::extract::{extract_tone, extracted};
use crate::modes::{tone_id, Mode};
use crate::placement::{apply_tone_in_place, placed};
use crate::resolve::{letters_small, resolve_keys, resolved};
use crate::validate::{is_invalid_vietnamese_chars, rejected};

verus! {

/// The letters that the keys `raw` resolve to, before validation and
/// before any tone is set.
pub open spec fn syllable_letters(mode: Mode, raw: Seq<u8>) -> Seq<char> {
    resolved(mode, bubbled(mode, extracted(mode, raw).kept))
}

/// The rendering of the keys `raw` under `mode`: `None` where the keys
/// cannot be a Vietnamese syllable and are to be shown as typed, else the
/// letters of the syllable with the remembered tone in place.
pub open spec fn render_syllable(mode: Mode, raw: Seq<u8>) -> Option<Seq<char>> {
    let tone_key = extracted(mode, raw).tone_key;
    let letters = syllable_letters(mode, raw);
    if rejected(letters, tone_key.is_some()) {
        None
    } else {
        match tone_key {
            Some(key) => Some(placed(letters, tone_id(mode.method, key))),
            None => Some(letters),
        }
    }
}

/// Renders the keys of one syllable. The result is `None` where the keys
/// are to be shown as typed; else it holds the letters of the syllable,
/// never more of them than there are keys.
pub fn render(mode: &Mode, raw: &[u8]) -> (rendering: Option<Vec<char>>)
    ensures
        rendering is Some == render_syllable(*mode, raw@) is Some,
        rendering matches Some(letters) ==> {
            &&& render_syllable(*mode, raw@) == Some(letters@)
            &&& letters@.len() <= raw@.len()
            &&& letters_small(letters@)
        },
{
    let found = extract_tone(mode, raw);
    let keys = bubble_modifiers(mode, found.kept);
    let mut letters = resolve_keys(mode, &keys);
    if is_invalid_vietnamese_chars(&letters, found.tone_key.is_some()) {
        return None;
    }
    match found.tone_key {
        Some(key) => {
            let tone = mode.tone(key);
            apply_tone_in_place(&mut letters, tone);
        },
        None => {},
    }
    Some(letters)
}

} // verus!
