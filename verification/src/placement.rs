//! Tone placement: which vowel of the syllable carries the tone mark.

use vstd::prelude::*;
use crate::resolve::{find_vowels, letters_small, vowel_positions};
use crate::tone::{
    is_modified_vowel, is_plain_vowel, lemma_with_tone_bound, map_vowel_with_tone, with_tone,
};

verus! {

/// The two vowels form one of the pairs `ui`, `ưi`, or a modified vowel
/// followed by a plain one: the tone belongs on the first.
pub open spec fn prefers_first(f: char, s: char) -> bool {
    ((f == 'u' || f == 'ư') && s == 'i') || (is_modified_vowel(f) && is_plain_vowel(s))
}

/// The two vowels form one of the open pairs
/// `ia iu ua ue ưa ưu ao ae ai au ay eo eu oi ây âu`.
pub open spec fn is_open_pair(f: char, s: char) -> bool {
    ||| f == 'i' && (s == 'a' || s == 'u')
    ||| f == 'u' && (s == 'a' || s == 'e')
    ||| f == 'ư' && (s == 'a' || s == 'u')
    ||| f == 'a' && (s == 'o' || s == 'e' || s == 'i' || s == 'u' || s == 'y')
    ||| f == 'e' && (s == 'o' || s == 'u')
    ||| f == 'o' && s == 'i'
    ||| f == 'â' && (s == 'y' || s == 'u')
}

/// The syllable begins with `qu` or `gi` and its first vowel, at `first`,
/// is the second letter of that prefix: a glide, not a nucleus.
pub open spec fn has_glide_prefix(chars: Seq<char>, first: usize) -> bool {
    &&& chars.len() >= 2
    &&& first == 1
    &&& (chars[0] == 'q' && chars[1] == 'u') || (chars[0] == 'g' && chars[1] == 'i')
}

/// The position that carries the tone when the syllable has exactly two
/// vowels, at `first` and `second`.
pub open spec fn pair_target(chars: Seq<char>, first: usize, second: usize) -> usize {
    let f = chars[first as int];
    let s = chars[second as int];
    let glide = has_glide_prefix(chars, first);
    if !glide && prefers_first(f, s) {
        first
    } else if !glide && is_open_pair(f, s) {
        if second + 1 < chars.len() {
            second
        } else {
            first
        }
    } else {
        second
    }
}

/// The position that carries the tone: none in a syllable without vowels,
/// the only vowel, the second of three or more, and the one that
/// [`pair_target`] names of two.
pub open spec fn tone_target(chars: Seq<char>) -> Option<usize> {
    let vowels = vowel_positions(chars);
    if vowels.len() == 0 {
        None
    } else if vowels.len() == 1 {
        Some(vowels[0])
    } else if vowels.len() == 2 {
        Some(pair_target(chars, vowels[0], vowels[1]))
    } else {
        Some(vowels[1])
    }
}

/// The letters `chars` with the tone `tone` set on the vowel that carries
/// it.
pub open spec fn placed(chars: Seq<char>, tone: u8) -> Seq<char> {
    match tone_target(chars) {
        Some(target) => chars.update(target as int, with_tone(chars[target as int], tone)),
        None => chars,
    }
}

fn is_first_preferred(f: char, s: char) -> (prefer: bool)
    ensures
        prefer == prefers_first(f, s),
{
    let modified = f == 'ơ' || f == 'ô' || f == 'ê' || f == 'â' || f == 'ă';
    let plain = s == 'a' || s == 'e' || s == 'i' || s == 'o' || s == 'u' || s == 'y';
    ((f == 'u' || f == 'ư') && s == 'i') || (modified && plain)
}

fn is_open_vowel_pair(f: char, s: char) -> (open: bool)
    ensures
        open == is_open_pair(f, s),
{
    match (f, s) {
        ('i', 'a') | ('i', 'u') => true,
        ('u', 'a') | ('u', 'e') => true,
        ('ư', 'a') | ('ư', 'u') => true,
        ('a', 'o') | ('a', 'e') | ('a', 'i') | ('a', 'u') | ('a', 'y') => true,
        ('e', 'o') | ('e', 'u') => true,
        ('o', 'i') => true,
        ('â', 'y') | ('â', 'u') => true,
        _ => false,
    }
}

/// Finds the position that carries the tone.
pub fn find_tone_target(chars: &Vec<char>) -> (target: Option<usize>)
    ensures
        target == tone_target(chars@),
        target matches Some(t) ==> t < chars@.len(),
{
    let vowels = find_vowels(chars);
    if vowels.len() == 0 {
        None
    } else if vowels.len() == 1 {
        Some(vowels[0])
    } else if vowels.len() == 2 {
        let first = vowels[0];
        let second = vowels[1];
        let f = chars[first];
        let s = chars[second];
        let glide = first == 1 && ((chars[0] == 'q' && chars[1] == 'u') || (chars[0] == 'g'
            && chars[1] == 'i'));
        if !glide && is_first_preferred(f, s) {
            Some(first)
        } else if !glide && is_open_vowel_pair(f, s) {
            if chars.len() - second > 1 {
                Some(second)
            } else {
                Some(first)
            }
        } else {
            Some(second)
        }
    } else {
        Some(vowels[1])
    }
}

/// Sets the tone `tone` on the vowel of `chars` that carries it; every
/// other letter stays as it is.
pub fn apply_tone_in_place(chars: &mut Vec<char>, tone: u8)
    ensures
        final(chars)@ == placed(old(chars)@, tone),
        final(chars)@.len() == old(chars)@.len(),
        letters_small(old(chars)@) ==> letters_small(final(chars)@),
{
    match find_tone_target(chars) {
        Some(target) => {
            let toned = map_vowel_with_tone(chars[target], tone);
            proof {
                if letters_small(chars@) {
                    lemma_with_tone_bound(chars@[target as int], tone);
                }
            }
            chars.set(target, toned);
        },
        None => {},
    }
}

} // verus!
