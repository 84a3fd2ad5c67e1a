//! Passthrough: keys that no rule touches are shown as typed.

use vstd::prelude::*;
use vstd::utf8::{encode_utf8, is_ascii_chars, is_ascii_chars_encode_utf8};
use crate::bubble::{attach_from, bubbled, pair_from, PairSlots, W_LITERAL};
use crate::engine::rendering;
use crate::extract::extract_upto;
use crate::modes::{is_doubling_key, is_tone_key, w_anchor, Mode, KEY_6, KEY_9, KEY_W};
use crate::render::{render_syllable, syllable_letters};
use crate::resolve::{resolve_at, resolve_from, resolved};

verus! {

/// None of the first `n` keys of `raw` is a tone key.
pub open spec fn no_tone_keys(mode: Mode, raw: Seq<u8>, n: int) -> bool {
    forall|k: int| 0 <= k < n ==> !is_tone_key(mode.method, #[trigger] raw[k])
}

/// The key is one that modifiers are made of: a `w`, the literal-`w` byte,
/// or one of the digits 6 to 9.
pub open spec fn is_modifying_key(b: u8) -> bool {
    b == KEY_W || b == W_LITERAL || (KEY_6 <= b && b <= KEY_9)
}

/// No rule of bubbling or resolution applies to `src`: it holds no
/// modifying key, and none of `a`, `e`, `o`, `d` occurs twice in it.
pub open spec fn inert(src: Seq<u8>) -> bool {
    &&& forall|k: int| 0 <= k < src.len() ==> !is_modifying_key(#[trigger] src[k])
    &&& forall|j: int, k: int|
        0 <= j < k < src.len() && is_doubling_key(#[trigger] src[j]) ==> src[j] != #[trigger] src[k]
}

/// The letters that keys stand for by themselves: each its own code point.
pub open spec fn letters_of(src: Seq<u8>) -> Seq<char> {
    Seq::new(src.len(), |k: int| src[k] as char)
}

/// Extraction keeps every key of an inert run without tone keys.
pub proof fn lemma_extract_keeps_all(mode: Mode, raw: Seq<u8>, n: nat)
    requires
        n <= raw.len(),
        no_tone_keys(mode, raw, n as int),
        inert(raw),
    ensures
        extract_upto(mode, raw, n).kept == raw.take(n as int),
        extract_upto(mode, raw, n).tone_key is None,
        !extract_upto(mode, raw, n).cancelled,
        n > 0 ==> extract_upto(mode, raw, n).run_key == raw[n - 1],
        n == 0 ==> extract_upto(mode, raw, n).run_len == 0,
    decreases n,
{
    if n > 0 {
        let m = (n - 1) as nat;
        lemma_extract_keeps_all(mode, raw, m);
        let before = extract_upto(mode, raw, m);
        let b = raw[m as int];
        assert(!is_tone_key(mode.method, b));
        if b == before.run_key && before.run_len == 2 && is_doubling_key(b) {
            assert(m > 0);
            assert(raw[m - 1] != raw[m as int]);
        }
        assert(raw.take(m as int).push(b) =~= raw.take(n as int));
    } else {
        assert(raw.take(0) =~= Seq::<u8>::empty());
    }
}

/// The pairing pass leaves an inert run as it is.
pub proof fn lemma_pair_keeps(src: Seq<u8>, i: int, out: Seq<u8>, slots: PairSlots)
    requires
        0 <= i <= src.len(),
        inert(src),
        forall|k: int|
            i <= k < src.len() && is_doubling_key(#[trigger] src[k]) ==> slots.get(src[k])
                is None,
    ensures
        pair_from(src, i, out, slots) == out + src.skip(i),
    decreases src.len() - i,
{
    if i < src.len() {
        let c = src[i];
        assert(!is_modifying_key(c));
        let next = if is_doubling_key(c) {
            slots.set(c, Some(out.len() as usize))
        } else {
            slots
        };
        assert forall|k: int|
            i + 1 <= k < src.len() && is_doubling_key(#[trigger] src[k]) implies next.get(
            src[k],
        ) is None by {
            assert(slots.get(src[k]) is None);
            if is_doubling_key(c) {
                assert(src[i] != src[k]);
            }
        }
        lemma_pair_keeps(src, i + 1, out.push(c), next);
        assert(out.push(c) + src.skip(i + 1) =~= out + src.skip(i));
    } else {
        assert(out + src.skip(i) =~= out);
    }
}

/// The `w` pass leaves a run without `w` as it is.
pub proof fn lemma_attach_keeps(
    mode: Mode,
    src: Seq<u8>,
    i: int,
    out: Seq<u8>,
    anchor: Option<usize>,
)
    requires
        0 <= i <= src.len(),
        inert(src),
    ensures
        attach_from(mode, src, i, out, anchor) == out + src.skip(i),
    decreases src.len() - i,
{
    if i < src.len() {
        let c = src[i];
        assert(!is_modifying_key(c));
        let next = if w_anchor(mode.method, c) {
            Some(out.len() as usize)
        } else {
            anchor
        };
        lemma_attach_keeps(mode, src, i + 1, out.push(c), next);
        assert(out.push(c) + src.skip(i + 1) =~= out + src.skip(i));
    } else {
        assert(out + src.skip(i) =~= out);
    }
}

/// Resolution turns each key of an inert run into its own letter.
pub proof fn lemma_resolve_keeps(mode: Mode, src: Seq<u8>, i: int, out: Seq<char>)
    requires
        0 <= i <= src.len(),
        inert(src),
    ensures
        resolve_from(mode, src, i, out) == out + letters_of(src.skip(i)),
    decreases src.len() - i,
{
    if i < src.len() {
        let c = src[i];
        assert(!is_modifying_key(c));
        if i + 1 < src.len() {
            assert(!is_modifying_key(src[i + 1]));
            if is_doubling_key(c) {
                assert(src[i] != src[i + 1]);
            }
        }
        if i + 2 < src.len() {
            assert(!is_modifying_key(src[i + 2]));
        }
        assert(resolve_at(mode, src, i) == (c as char, false));
        lemma_resolve_keeps(mode, src, i + 1, out.push(c as char));
        assert(out.push(c as char) + letters_of(src.skip(i + 1)) =~= out + letters_of(
            src.skip(i),
        ));
    } else {
        assert(out + letters_of(src.skip(i)) =~= out);
    }
}

/// The letters of an inert run of keys are the keys' own letters.
pub proof fn lemma_inert_letters(mode: Mode, kept: Seq<u8>)
    requires
        inert(kept),
    ensures
        resolved(mode, bubbled(mode, kept)) == letters_of(kept),
{
    let none = Seq::<u8>::empty();
    lemma_pair_keeps(kept, 0, none, PairSlots::none());
    assert(none + kept.skip(0) =~= kept);
    lemma_attach_keeps(mode, kept, 0, none, None);
    assert(bubbled(mode, kept) == kept);
    lemma_resolve_keeps(mode, kept, 0, Seq::<char>::empty());
    assert(Seq::<char>::empty() + letters_of(kept.skip(0)) =~= letters_of(kept));
}

/// Keys among which there is no tone key and no modifying key, and among
/// which none of `a`, `e`, `o`, `d` occurs twice, come out as their own
/// letters: the rendering is either given up, so that the keys are shown as
/// typed, or it is the keys' own letters.
pub proof fn lemma_plain_keys_pass_through(mode: Mode, raw: Seq<u8>)
    requires
        no_tone_keys(mode, raw, raw.len() as int),
        inert(raw),
    ensures
        syllable_letters(mode, raw) == letters_of(raw),
        render_syllable(mode, raw) is None || render_syllable(mode, raw) == Some(letters_of(raw)),
{
    lemma_extract_keeps_all(mode, raw, raw.len());
    assert(raw.take(raw.len() as int) =~= raw);
    lemma_inert_letters(mode, raw);
}

/// The bytes of an ASCII text.
pub open spec fn bytes_of(text: Seq<char>) -> Seq<u8> {
    Seq::new(text.len(), |k: int| text[k] as u8)
}

/// An ASCII text is stored as its own bytes, and its bytes stand for its
/// own letters.
pub proof fn lemma_ascii_bytes(text: Seq<char>)
    requires
        is_ascii_chars(text),
    ensures
        encode_utf8(text) == bytes_of(text),
        letters_of(bytes_of(text)) == text,
{
    is_ascii_chars_encode_utf8(text);
    assert(encode_utf8(text) =~= bytes_of(text));
    assert forall|k: int| 0 <= k < text.len() implies letters_of(bytes_of(text))[k]
        == text[k] by {
        let c = text[k];
        assert('\0' <= c <= '\u{7f}');
        assert((c as u8) as char == c);
    }
    assert(letters_of(bytes_of(text)) =~= text);
}

/// Passthrough. An ASCII text in which there is no tone key and no
/// modifying key, and in which none of `a`, `e`, `o`, `d` occurs twice, is
/// shown exactly as typed.
pub proof fn lemma_plain_text_is_echoed(mode: Mode, typed: Seq<char>)
    requires
        is_ascii_chars(typed),
        no_tone_keys(mode, bytes_of(typed), typed.len() as int),
        inert(bytes_of(typed)),
    ensures
        rendering(mode, typed) == typed,
{
    lemma_ascii_bytes(typed);
    lemma_plain_keys_pass_through(mode, bytes_of(typed));
}

/// Foreign words. Whatever the render pass gives up is shown exactly as
/// typed.
pub proof fn lemma_given_up_is_echoed(mode: Mode, typed: Seq<char>)
    requires
        render_syllable(mode, encode_utf8(typed)) is None,
    ensures
        rendering(mode, typed) == typed,
{
}

} // verus!
