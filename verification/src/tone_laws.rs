//! Laws of tone keys: the last one wins, a repeated one cancels, and the
//! key that clears the tone changes nothing where there is none.

use vstd::prelude::*;
use vstd::utf8::is_ascii_chars;
use crate::engine::{after_key, ascii_lower, rendering, white_space, Session};
use crate::extract::{extract_upto, extracted, tone_key_is_literal};
use crate::modes::{is_tone_key, is_vowel_key, tone_id, Mode};
use crate::passthrough::{
    bytes_of, inert, lemma_ascii_bytes, lemma_plain_keys_pass_through, no_tone_keys,
};
use crate::placement::{placed, tone_target};
use crate::render::{render_syllable, syllable_letters};
use crate::resolve::{lemma_vowel_positions_hold_vowels, vowel_positions, vowels_upto};
use crate::tone::{is_base_vowel, with_tone};
use crate::validate::{ou_at, rejected};

verus! {

/// What extraction has found after the first `n` keys does not depend on
/// the keys that follow.
pub proof fn lemma_extract_ignores_rest(mode: Mode, raw: Seq<u8>, rest: Seq<u8>, n: nat)
    requires
        n <= raw.len(),
    ensures
        extract_upto(mode, raw + rest, n) == extract_upto(mode, raw, n),
    decreases n,
{
    if n > 0 {
        lemma_extract_ignores_rest(mode, raw, rest, (n - 1) as nat);
        assert((raw + rest)[n - 1] == raw[n - 1]);
        if n > 1 {
            assert((raw + rest)[n - 2] == raw[n - 2]);
        }
    }
}

/// Where no tone key was typed, no tone is remembered and none was
/// cancelled.
pub proof fn lemma_no_tone_key_no_tone(mode: Mode, raw: Seq<u8>, n: nat)
    requires
        n <= raw.len(),
        no_tone_keys(mode, raw, n as int),
    ensures
        extract_upto(mode, raw, n).tone_key is None,
        !extract_upto(mode, raw, n).cancelled,
    decreases n,
{
    if n > 0 {
        lemma_no_tone_key_no_tone(mode, raw, (n - 1) as nat);
        assert(!is_tone_key(mode.method, raw[n - 1]));
    }
}

/// Setting no tone on letters that carry none leaves them as they are.
pub proof fn lemma_placing_no_tone(chars: Seq<char>)
    ensures
        placed(chars, 0) == chars,
{
    lemma_vowel_positions_hold_vowels(chars, chars.len());
    match tone_target(chars) {
        Some(target) => {
            let vowels = vowel_positions(chars);
            assert(target == vowels[0] || target == vowels[1]);
            assert(is_base_vowel(chars[target as int]));
            assert(with_tone(chars[target as int], 0) == chars[target as int]);
            assert(chars.update(target as int, chars[target as int]) =~= chars);
        },
        None => {},
    }
}

/// The key that clears the tone changes nothing where there is no tone.
/// When `clear` is the tone key of tone 0 (`z` in Telex, `0` in VNI), typed
/// after keys among which there is no tone key, and the render pass gives
/// up neither the keys nor the keys with `clear` after them, both render
/// the same.
pub proof fn lemma_clear_key_keeps_toneless(mode: Mode, raw: Seq<u8>, clear: u8)
    requires
        raw.len() > 0,
        no_tone_keys(mode, raw, raw.len() as int),
        is_tone_key(mode.method, clear),
        tone_id(mode.method, clear) == 0,
        render_syllable(mode, raw) is Some,
        render_syllable(mode, raw.push(clear)) is Some,
    ensures
        render_syllable(mode, raw.push(clear)) == render_syllable(mode, raw),
{
    let longer = raw.push(clear);
    assert(longer =~= raw + seq![clear]);
    lemma_extract_ignores_rest(mode, raw, seq![clear], raw.len());
    lemma_no_tone_key_no_tone(mode, raw, raw.len());
    assert(longer[raw.len() as int] == clear);
    assert(!tone_key_is_literal(longer, raw.len() as int));
    assert(extracted(mode, longer).kept == extracted(mode, raw).kept);
    assert(extracted(mode, longer).tone_key == Some(clear));
    lemma_placing_no_tone(syllable_letters(mode, raw));
}

/// From position `start` on, every key of `raw` is a tone key, and none of
/// them is kept as a letter.
pub open spec fn tone_run(mode: Mode, raw: Seq<u8>, start: int) -> bool {
    forall|k: int|
        start <= k < raw.len() ==> is_tone_key(mode.method, #[trigger] raw[k])
            && !tone_key_is_literal(raw, k)
}

/// The key at position `k` is the key before it once more.
pub open spec fn repeats_at(raw: Seq<u8>, k: int) -> bool {
    raw[k] == raw[k - 1]
}

/// Between `start` and `n` some key of `raw` repeats the key before it.
pub open spec fn has_repeat(raw: Seq<u8>, start: int, n: int) -> bool {
    exists|k: int| start < k < n && #[trigger] repeats_at(raw, k)
}

/// What extraction has found inside a run of tone keys that begins at
/// `start`, after keys without a tone key: while no tone key has repeated
/// the one before it, the latest is remembered and nothing more was kept;
/// from the first repetition on, the tone is cancelled for good.
pub proof fn lemma_tone_run(mode: Mode, raw: Seq<u8>, start: nat, n: nat)
    requires
        0 < start <= n <= raw.len(),
        no_tone_keys(mode, raw, start as int),
        tone_run(mode, raw, start as int),
    ensures
        !has_repeat(raw, start as int, n as int) ==> {
            &&& extract_upto(mode, raw, n).kept == extract_upto(mode, raw, start).kept
            &&& !extract_upto(mode, raw, n).cancelled
            &&& n > start ==> extract_upto(mode, raw, n).tone_key == Some(raw[n - 1])
            &&& n == start ==> extract_upto(mode, raw, n).tone_key is None
        },
        has_repeat(raw, start as int, n as int) ==> {
            &&& extract_upto(mode, raw, n).cancelled
            &&& extract_upto(mode, raw, n).tone_key is None
        },
    decreases n,
{
    if n == start {
        lemma_no_tone_key_no_tone(mode, raw, start);
    } else {
        let m = (n - 1) as nat;
        lemma_tone_run(mode, raw, start, m);
        let b = raw[m as int];
        assert(is_tone_key(mode.method, b) && !tone_key_is_literal(raw, m as int));
        if has_repeat(raw, start as int, m as int) {
            let k = choose|k: int| start < k < m && #[trigger] repeats_at(raw, k);
            assert(start < k < n && repeats_at(raw, k));
        } else if m > start && repeats_at(raw, m as int) {
            assert(has_repeat(raw, start as int, n as int));
        } else {
            assert forall|k: int| start < k < n implies !#[trigger] repeats_at(raw, k) by {
                if k < m {
                    assert(!has_repeat(raw, start as int, m as int));
                }
            }
        }
    }
}

/// The last tone key wins. When tone keys follow keys without a tone key,
/// none of them is kept as a letter and none repeats the one before it,
/// the syllable is that of the keys before them, with the tone of the last
/// tone key.
pub proof fn lemma_last_tone_wins(mode: Mode, base: Seq<u8>, tones: Seq<u8>)
    requires
        base.len() > 0,
        tones.len() > 0,
        no_tone_keys(mode, base, base.len() as int),
        tone_run(mode, base + tones, base.len() as int),
        !has_repeat(base + tones, base.len() as int, (base + tones).len() as int),
    ensures
        extracted(mode, base + tones).tone_key == Some(tones.last()),
        syllable_letters(mode, base + tones) == syllable_letters(mode, base),
        render_syllable(mode, base + tones) == if rejected(syllable_letters(mode, base), true) {
            None
        } else {
            Some(placed(syllable_letters(mode, base), tone_id(mode.method, tones.last())))
        },
{
    let raw = base + tones;
    assert forall|k: int| 0 <= k < base.len() implies !is_tone_key(
        mode.method,
        #[trigger] raw[k],
    ) by {
        assert(raw[k] == base[k]);
    }
    lemma_tone_run(mode, raw, base.len(), raw.len());
    lemma_extract_ignores_rest(mode, base, tones, base.len());
    assert(raw[raw.len() - 1] == tones.last());
}

/// A repeated tone key cancels the tone. When tone keys follow keys
/// without a tone key, none of them is kept as a letter and one of them
/// repeats the one before it, no tone is remembered at the end, and the
/// syllable carries none.
pub proof fn lemma_repeated_tone_cancels(mode: Mode, base: Seq<u8>, tones: Seq<u8>)
    requires
        base.len() > 0,
        no_tone_keys(mode, base, base.len() as int),
        tone_run(mode, base + tones, base.len() as int),
        has_repeat(base + tones, base.len() as int, (base + tones).len() as int),
    ensures
        extracted(mode, base + tones).tone_key is None,
        render_syllable(mode, base + tones) == if rejected(
            syllable_letters(mode, base + tones),
            false,
        ) {
            None
        } else {
            Some(syllable_letters(mode, base + tones))
        },
{
    let raw = base + tones;
    assert forall|k: int| 0 <= k < base.len() implies !is_tone_key(
        mode.method,
        #[trigger] raw[k],
    ) by {
        assert(raw[k] == base[k]);
    }
    lemma_tone_run(mode, raw, base.len(), raw.len());
}

/// The last tone key wins on a vowel. When tone keys follow one plain
/// vowel, none of them is kept as a letter and none repeats the one before
/// it, the rendering is that vowel with the tone of the last tone key.
pub proof fn lemma_last_tone_wins_on_vowel(mode: Mode, vowel: u8, tones: Seq<u8>)
    requires
        is_vowel_key(vowel),
        tones.len() > 0,
        tone_run(mode, seq![vowel] + tones, 1),
        !has_repeat(seq![vowel] + tones, 1, 1 + tones.len() as int),
    ensures
        render_syllable(mode, seq![vowel] + tones) == Some(
            seq![with_tone(vowel as char, tone_id(mode.method, tones.last()))],
        ),
{
    let base = seq![vowel];
    assert(!is_tone_key(mode.method, vowel));
    assert(inert(base));
    assert(no_tone_keys(mode, base, 1));
    lemma_plain_keys_pass_through(mode, base);
    let letters = syllable_letters(mode, base);
    assert(letters =~= seq![vowel as char]);
    assert(is_base_vowel(vowel as char));
    reveal_with_fuel(vowels_upto, 2);
    assert(vowel_positions(letters) =~= seq![0usize]);
    assert(!rejected(letters, true)) by {
        assert forall|k: int| 0 <= k < letters.len() - 1 implies !#[trigger] ou_at(letters, k) by {}
    }
    lemma_last_tone_wins(mode, base, tones);
    let tone = tone_id(mode.method, tones.last());
    assert(placed(letters, tone) =~= seq![with_tone(vowel as char, tone)]);
}

/// The key that clears the tone, typed into an engine. When the typed keys
/// are ASCII without a tone key, `clear` is the tone key of tone 0, and the
/// render pass gives up neither the typed keys nor the typed keys with
/// `clear` after them, then after `clear` the engine shows the rendering of
/// what was typed before it.
pub proof fn lemma_clear_key_shows_the_same(s: Session, clear: char)
    requires
        s.typed.len() > 0,
        is_ascii_chars(s.typed),
        no_tone_keys(s.mode, bytes_of(s.typed), s.typed.len() as int),
        '\0' <= clear <= '\u{7f}',
        !white_space(clear),
        is_tone_key(s.mode.method, clear as u8),
        tone_id(s.mode.method, clear as u8) == 0,
        render_syllable(s.mode, bytes_of(s.typed)) is Some,
        render_syllable(s.mode, bytes_of(s.typed).push(clear as u8)) is Some,
    ensures
        after_key(s, clear).shown == rendering(s.mode, s.typed),
{
    assert(ascii_lower(clear) == clear);
    let longer = s.typed.push(clear);
    assert(is_ascii_chars(longer));
    lemma_ascii_bytes(s.typed);
    lemma_ascii_bytes(longer);
    assert(bytes_of(longer) =~= bytes_of(s.typed).push(clear as u8));
    lemma_clear_key_keeps_toneless(s.mode, bytes_of(s.typed), clear as u8);
}

/// The last tone key wins, in typed text. When ASCII tone keys follow one
/// plain vowel, none of them is kept as a letter and none repeats the one
/// before it, the text shown is that vowel with the tone of the last tone
/// key.
pub proof fn lemma_last_tone_wins_in_text(mode: Mode, vowel: char, tones: Seq<char>)
    requires
        '\0' <= vowel <= '\u{7f}',
        is_vowel_key(vowel as u8),
        tones.len() > 0,
        is_ascii_chars(tones),
        tone_run(mode, seq![vowel as u8] + bytes_of(tones), 1),
        !has_repeat(seq![vowel as u8] + bytes_of(tones), 1, 1 + tones.len() as int),
    ensures
        rendering(mode, seq![vowel] + tones) == seq![
            with_tone(vowel, tone_id(mode.method, tones.last() as u8)),
        ],
{
    let typed = seq![vowel] + tones;
    assert(is_ascii_chars(typed));
    lemma_ascii_bytes(typed);
    assert(bytes_of(typed) =~= seq![vowel as u8] + bytes_of(tones));
    lemma_last_tone_wins_on_vowel(mode, vowel as u8, bytes_of(tones));
    assert((vowel as u8) as char == vowel);
}

} // verus!
