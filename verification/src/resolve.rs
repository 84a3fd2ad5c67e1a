//! Pair resolution: from keys to letters.
//!
//! The keys are walked from left to right; at each position the mode's
//! folding rule turns one key, or a key and its modifier, into one letter.

use vstd::prelude::*;
use crate::bubble::W_LITERAL;
use crate::modes::{key_pair, Mode, KEY_O, KEY_Q, KEY_U, KEY_W};
use crate::tone::{is_base_vowel, is_vowel_unicode};

verus! {

/// Only the first sixteen letters of a syllable are looked at for vowels.
pub const VOWEL_WINDOW: usize = 16;

/// Every letter that resolution or tone placement gives lies below this
/// code point.
pub const LETTER_LIMIT: u32 = 0x2000;

/// The key after position `i`, if there is one.
pub open spec fn key_after(src: Seq<u8>, i: int) -> Option<u8> {
    if i + 1 < src.len() {
        Some(src[i + 1])
    } else {
        None
    }
}

/// At position `i` stands the `u` of `uow`, and no `q` stands before it.
pub open spec fn starts_uow(src: Seq<u8>, i: int) -> bool {
    &&& src[i] == KEY_U
    &&& i + 2 < src.len()
    &&& src[i + 1] == KEY_O
    &&& src[i + 2] == KEY_W
    &&& !(i > 0 && src[i - 1] == KEY_Q)
}

/// The letter that the key at position `i` resolves to, and whether the key
/// after it was used up as well.
pub open spec fn resolve_at(mode: Mode, src: Seq<u8>, i: int) -> (char, bool) {
    if src[i] == W_LITERAL {
        ('w', false)
    } else {
        let folded = key_pair(mode.method, src[i], key_after(src, i));
        if !folded.1 && starts_uow(src, i) {
            ('ư', false)
        } else {
            folded
        }
    }
}

/// The letters of the walk when it stands at position `i` of `src` with
/// `out` written so far.
pub open spec fn resolve_from(mode: Mode, src: Seq<u8>, i: int, out: Seq<char>) -> Seq<char>
    decreases src.len() - i,
{
    if i < 0 || i >= src.len() {
        out
    } else {
        let step = resolve_at(mode, src, i);
        resolve_from(
            mode,
            src,
            if step.1 {
                i + 2
            } else {
                i + 1
            },
            out.push(step.0),
        )
    }
}

/// The letters that the keys `src` resolve to.
pub open spec fn resolved(mode: Mode, src: Seq<u8>) -> Seq<char> {
    resolve_from(mode, src, 0, Seq::empty())
}

/// Every letter of `chars` lies below [`LETTER_LIMIT`].
pub open spec fn letters_small(chars: Seq<char>) -> bool {
    forall|k: int| 0 <= k < chars.len() ==> (#[trigger] chars[k] as u32) < LETTER_LIMIT
}

/// The positions below `n`, and inside the vowel window, at which `chars`
/// holds a base vowel, in ascending order.
pub open spec fn vowels_upto(chars: Seq<char>, n: nat) -> Seq<usize>
    decreases n,
{
    if n == 0 {
        Seq::empty()
    } else {
        let before = vowels_upto(chars, (n - 1) as nat);
        if n - 1 < VOWEL_WINDOW && is_base_vowel(chars[n - 1]) {
            before.push((n - 1) as usize)
        } else {
            before
        }
    }
}

/// The positions inside the vowel window at which `chars` holds a base
/// vowel, in ascending order.
pub open spec fn vowel_positions(chars: Seq<char>) -> Seq<usize> {
    vowels_upto(chars, chars.len())
}

/// Every entry of `vowels` is a position of `chars`.
pub open spec fn positions_within(vowels: Seq<usize>, len: int) -> bool {
    forall|k: int| 0 <= k < vowels.len() ==> #[trigger] vowels[k] < len
}

/// Every entry of the vowel positions is a position below `n` that holds a
/// base vowel.
pub proof fn lemma_vowel_positions_hold_vowels(chars: Seq<char>, n: nat)
    requires
        n <= chars.len(),
    ensures
        forall|k: int|
            0 <= k < vowels_upto(chars, n).len() ==> {
                &&& (#[trigger] vowels_upto(chars, n)[k]) < n
                &&& is_base_vowel(chars[vowels_upto(chars, n)[k] as int])
            },
    decreases n,
{
    if n > 0 {
        lemma_vowel_positions_hold_vowels(chars, (n - 1) as nat);
        let before = vowels_upto(chars, (n - 1) as nat);
        let now = vowels_upto(chars, n);
        assert forall|k: int| 0 <= k < now.len() implies {
            &&& (#[trigger] now[k]) < n
            &&& is_base_vowel(chars[now[k] as int])
        } by {
            if k < before.len() {
                assert(now[k] == before[k]);
            }
        }
    }
}

/// The vowel positions ascend, and every position below `n` and inside the
/// vowel window that holds a base vowel is among them.
pub proof fn lemma_vowel_positions_complete(chars: Seq<char>, n: nat)
    requires
        n <= chars.len(),
    ensures
        forall|j: int, k: int|
            0 <= j < k < vowels_upto(chars, n).len() ==> (#[trigger] vowels_upto(chars, n)[j])
                < (#[trigger] vowels_upto(chars, n)[k]),
        forall|p: int|
            0 <= p < n && p < VOWEL_WINDOW && is_base_vowel(#[trigger] chars[p]) ==> vowels_upto(
                chars,
                n,
            ).contains(p as usize),
    decreases n,
{
    if n > 0 {
        lemma_vowel_positions_complete(chars, (n - 1) as nat);
        lemma_vowel_positions_hold_vowels(chars, (n - 1) as nat);
        let before = vowels_upto(chars, (n - 1) as nat);
        let now = vowels_upto(chars, n);
        assert forall|p: int|
            0 <= p < n && p < VOWEL_WINDOW && is_base_vowel(#[trigger] chars[p]) implies now.contains(
            p as usize,
        ) by {
            if p < n - 1 {
                let k = choose|k: int| 0 <= k < before.len() && before[k] == p as usize;
                assert(now[k] == p as usize);
            } else {
                assert(now[now.len() - 1] == p as usize);
            }
        }
    }
}

/// Resolves the keys `src` into letters by the mode's folding rule, with
/// `uow` read as `ươ` and the literal-`w` byte as `w`.
pub fn resolve_keys(mode: &Mode, src: &Vec<u8>) -> (out: Vec<char>)
    ensures
        out@ == resolved(*mode, src@),
        out@.len() <= src@.len(),
        letters_small(out@),
{
    let mut out: Vec<char> = Vec::new();
    let mut i: usize = 0;
    while i < src.len()
        invariant
            i <= src.len(),
            out@.len() <= i,
            letters_small(out@),
            resolve_from(*mode, src@, i as int, out@) == resolved(*mode, src@),
        decreases src.len() - i,
    {
        let curr = src[i];
        if curr == W_LITERAL {
            out.push('w');
            i = i + 1;
        } else {
            let next = if src.len() - i > 1 {
                Some(src[i + 1])
            } else {
                None
            };
            let (folded, two) = mode.resolve(curr, next);
            let mut letter = folded;
            if curr == KEY_U && !two && src.len() - i > 2 && src[i + 1] == KEY_O && src[i + 2]
                == KEY_W && !(i > 0 && src[i - 1] == KEY_Q) {
                letter = 'ư';
            }
            out.push(letter);
            if two {
                i = i + 2;
            } else {
                i = i + 1;
            }
        }
    }
    out
}

/// Collects the positions of the base vowels among the first sixteen
/// letters of `chars`.
pub fn find_vowels(chars: &Vec<char>) -> (vowels: Vec<usize>)
    ensures
        vowels@ == vowel_positions(chars@),
        positions_within(vowels@, chars@.len() as int),
{
    let mut vowels: Vec<usize> = Vec::new();
    let mut i: usize = 0;
    while i < chars.len()
        invariant
            i <= chars.len(),
            vowels@ == vowels_upto(chars@, i as nat),
            positions_within(vowels@, i as int),
        decreases chars.len() - i,
    {
        if i < VOWEL_WINDOW && is_vowel_unicode(chars[i]) {
            vowels.push(i);
        }
        i = i + 1;
    }
    vowels
}

} // verus!
