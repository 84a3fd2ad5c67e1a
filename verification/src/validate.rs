//! Validation: telling Vietnamese syllables from foreign words.
//!
//! A rendering that cannot be a Vietnamese syllable is given up, and the
//! keys are shown as they were typed.

use vstd::prelude::*;
use crate::resolve::{find_vowels, vowel_positions};

verus! {

/// At position `k` of `chars` stands an `o` with a `u` right after it.
pub open spec fn ou_at(chars: Seq<char>, k: int) -> bool {
    chars[k] == 'o' && chars[k + 1] == 'u'
}

/// Somewhere in `chars` an `o` is followed by a `u`.
pub open spec fn has_ou(chars: Seq<char>) -> bool {
    exists|k: int| 0 <= k < chars.len() - 1 && #[trigger] ou_at(chars, k)
}

/// Every letter of `chars` is ASCII.
pub open spec fn all_ascii(chars: Seq<char>) -> bool {
    forall|k: int| 0 <= k < chars.len() ==> (#[trigger] chars[k] as u32) < 128
}

/// No Vietnamese syllable begins with the two consonants `c1`, `c2`.
pub open spec fn forbidden_onset(c1: char, c2: char) -> bool {
    ||| c2 == 'l' && (c1 == 'c' || c1 == 'f' || c1 == 'b' || c1 == 'g' || c1 == 's' || c1 == 'p')
    ||| c2 == 'r' && (c1 == 'b' || c1 == 'p' || c1 == 'd' || c1 == 'f' || c1 == 'g' || c1 == 'k')
    ||| c1 == 's' && (c2 == 't' || c2 == 'p' || c2 == 'k')
    ||| c1 == 'p' && (c2 == 't' || c2 == 'c' || c2 == 'g' || c2 == 'q' || c2 == 's' || c2 == 'k'
        || c2 == 'd' || c2 == 'f' || c2 == 'b')
}

/// A syllable without a vowel is given up: when a tone key was taken out
/// of it, unless a modifier did apply and left a letter outside ASCII; when
/// none was, if it is longer than one letter.
pub open spec fn vowelless_rejected(chars: Seq<char>, tone_taken: bool) -> bool {
    if tone_taken {
        all_ascii(chars)
    } else {
        chars.len() > 1
    }
}

/// The consonants before the first vowel, which stands at `first`, cannot
/// begin a Vietnamese syllable: four or more of them, three other than
/// `ngh`, or a forbidden pair.
pub open spec fn onset_rejected(chars: Seq<char>, first: usize) -> bool {
    ||| first >= 4
    ||| first == 3 && !(chars[0] == 'n' && chars[1] == 'g' && chars[2] == 'h')
    ||| first == 2 && forbidden_onset(chars[0], chars[1])
}

/// The letters `chars` cannot be a Vietnamese syllable. `tone_taken` says
/// whether a tone key was taken out of the typed keys.
pub open spec fn rejected(chars: Seq<char>, tone_taken: bool) -> bool {
    let vowels = vowel_positions(chars);
    ||| vowels.len() == 0 && vowelless_rejected(chars, tone_taken)
    ||| has_ou(chars)
    ||| vowels.len() > 0 && onset_rejected(chars, vowels[0])
}

fn contains_ou(chars: &Vec<char>) -> (found: bool)
    ensures
        found == has_ou(chars@),
{
    let mut k: usize = 0;
    while chars.len() - k > 1
        invariant
            k <= chars.len(),
            forall|j: int| 0 <= j < k && j < chars@.len() - 1 ==> !#[trigger] ou_at(chars@, j),
        decreases chars.len() - k,
    {
        if chars[k] == 'o' && chars[k + 1] == 'u' {
            assert(ou_at(chars@, k as int));
            return true;
        }
        k = k + 1;
    }
    false
}

fn is_all_ascii(chars: &Vec<char>) -> (ascii: bool)
    ensures
        ascii == all_ascii(chars@),
{
    let mut k: usize = 0;
    while k < chars.len()
        invariant
            k <= chars.len(),
            forall|j: int| 0 <= j < k ==> (#[trigger] chars@[j] as u32) < 128,
        decreases chars.len() - k,
    {
        if chars[k] as u32 >= 128 {
            return false;
        }
        k = k + 1;
    }
    true
}

fn is_forbidden_onset(c1: char, c2: char) -> (forbidden: bool)
    ensures
        forbidden == forbidden_onset(c1, c2),
{
    match (c1, c2) {
        ('c', 'l') | ('f', 'l') | ('b', 'l') | ('g', 'l') | ('s', 'l') | ('p', 'l') => true,
        ('b', 'r') | ('p', 'r') | ('d', 'r') | ('f', 'r') | ('g', 'r') | ('k', 'r') => true,
        ('s', 't') | ('s', 'p') | ('s', 'k') => true,
        ('p', 't') | ('p', 'c') | ('p', 'g') | ('p', 'q') | ('p', 's') | ('p', 'k') | ('p', 'd')
        | ('p', 'f') | ('p', 'b') => true,
        _ => false,
    }
}

/// Decides whether the letters `chars` must be given up as a foreign word.
/// `tone_taken` says whether a tone key was taken out of the typed keys.
pub fn is_invalid_vietnamese_chars(chars: &Vec<char>, tone_taken: bool) -> (invalid: bool)
    ensures
        invalid == rejected(chars@, tone_taken),
{
    let vowels = find_vowels(chars);
    if vowels.len() == 0 {
        let given_up = if tone_taken {
            is_all_ascii(chars)
        } else {
            chars.len() > 1
        };
        if given_up {
            return true;
        }
    }
    if contains_ou(chars) {
        return true;
    }
    if vowels.len() == 0 {
        return false;
    }
    let first = vowels[0];
    if first >= 4 {
        return true;
    }
    if first == 3 {
        return !(chars[0] == 'n' && chars[1] == 'g' && chars[2] == 'h');
    }
    if first == 2 {
        return is_forbidden_onset(chars[0], chars[1]);
    }
    false
}

} // verus!
