//! Fixed-capacity stores for the typed keys and for the rendered text.
//!
//! Both stores are `heapless::String`s. Verus cannot look inside them, so the
//! text each one holds is given a name, and every operation the engine needs
//! is a small function whose contract is taken on trust from the `heapless`
//! source.

use vstd::prelude::*;
use vstd::utf8::*;

verus! {

/// Number of bytes the key store can hold.
pub const RAW_CAPACITY: usize = 32;

/// Number of bytes the rendered-text store can hold.
pub const OUT_CAPACITY: usize = 128;

/// Makes `heapless::String` known to the verifier as an opaque type.
#[verifier::external_type_specification]
#[verifier::external_body]
pub struct ExHeaplessString<const N: usize>(heapless::String<N>);

/// Store of the keys typed since the last flush.
pub type RawBuffer = heapless::String<32>;

/// Store of the text most recently rendered.
pub type OutBuffer = heapless::String<128>;

/// The characters held by a key store.
pub uninterp spec fn raw_text(buf: heapless::String<32>) -> Seq<char>;

/// The characters held by a rendered-text store.
pub uninterp spec fn out_text(buf: heapless::String<128>) -> Seq<char>;

/// Number of bytes that `text` occupies in a store.
pub open spec fn stored_len(text: Seq<char>) -> nat {
    encode_utf8(text).len()
}

/// Number of bytes that one character occupies in a store.
pub open spec fn char_len(c: char) -> nat {
    encode_scalar(c as u32).len()
}

/// Trusted: `heapless::String::<32>::new` returns a string with no
/// characters in it.
#[verifier::external_body]
pub fn new_raw_buffer() -> (buf: RawBuffer)
    ensures
        raw_text(buf) == Seq::<char>::empty(),
{
    heapless::String::new()
}

/// Trusted: `heapless::String::<128>::new` returns a string with no
/// characters in it.
#[verifier::external_body]
pub fn new_out_buffer() -> (buf: OutBuffer)
    ensures
        out_text(buf) == Seq::<char>::empty(),
{
    heapless::String::new()
}

/// Trusted: `heapless::String::push` on the key store appends `c` when its
/// UTF-8 encoding fits in the bytes that are left, and otherwise leaves the
/// store as it was; the result tells which.
#[verifier::external_body]
pub(crate) fn push_key_or_drop(buf: &mut RawBuffer, c: char) -> (pushed: bool)
    ensures
        pushed == (stored_len(raw_text(*old(buf))) + char_len(c) <= 32),
        pushed ==> raw_text(*final(buf)) == raw_text(*old(buf)).push(c),
        !pushed ==> raw_text(*final(buf)) == raw_text(*old(buf)),
{
    buf.push(c).is_ok()
}

/// Trusted: `heapless::String::push` on the rendered-text store appends `c`
/// when its UTF-8 encoding fits in the bytes that are left, and otherwise
/// leaves the store as it was; the result tells which.
#[verifier::external_body]
pub(crate) fn push_char_or_drop(buf: &mut OutBuffer, c: char) -> (pushed: bool)
    ensures
        pushed == (stored_len(out_text(*old(buf))) + char_len(c) <= 128),
        pushed ==> out_text(*final(buf)) == out_text(*old(buf)).push(c),
        !pushed ==> out_text(*final(buf)) == out_text(*old(buf)),
{
    buf.push(c).is_ok()
}

/// Trusted: `heapless::String::push_str` on the rendered-text store appends
/// the whole of `s` when its bytes fit, and otherwise leaves the store as it
/// was; the result tells which.
#[verifier::external_body]
pub(crate) fn push_str_or_drop(buf: &mut OutBuffer, s: &str) -> (pushed: bool)
    ensures
        pushed == (stored_len(out_text(*old(buf))) + stored_len(s@) <= 128),
        pushed ==> out_text(*final(buf)) == out_text(*old(buf)) + s@,
        !pushed ==> out_text(*final(buf)) == out_text(*old(buf)),
{
    buf.push_str(s).is_ok()
}

/// Trusted: `heapless::String::clear` empties the key store.
#[verifier::external_body]
pub(crate) fn clear_raw(buf: &mut RawBuffer)
    ensures
        raw_text(*final(buf)) == Seq::<char>::empty(),
{
    buf.clear()
}

/// Trusted: `heapless::String::clear` empties the rendered-text store.
#[verifier::external_body]
pub(crate) fn clear_out(buf: &mut OutBuffer)
    ensures
        out_text(*final(buf)) == Seq::<char>::empty(),
{
    buf.clear()
}

/// Trusted: `heapless::String::as_str` hands out the characters of the key
/// store, which never occupy more bytes than the store's capacity.
#[verifier::external_body]
pub(crate) fn raw_as_str(buf: &RawBuffer) -> (s: &str)
    ensures
        s@ == raw_text(*buf),
        stored_len(s@) <= 32,
{
    buf.as_str()
}

/// Trusted: `heapless::String::as_str` hands out the characters of the
/// rendered-text store.
#[verifier::external_body]
pub(crate) fn out_as_str(buf: &OutBuffer) -> (s: &str)
    ensures
        s@ == out_text(*buf),
{
    buf.as_str()
}

/// The empty text occupies no bytes.
pub proof fn lemma_stored_len_empty()
    ensures
        stored_len(Seq::<char>::empty()) == 0,
{
}

/// Appending a character makes the text longer by the bytes of that
/// character.
pub proof fn lemma_stored_len_push(text: Seq<char>, c: char)
    ensures
        stored_len(text.push(c)) == stored_len(text) + char_len(c),
    decreases text.len(),
{
    let longer = text.push(c);
    if text.len() == 0 {
        assert(longer.drop_first() =~= Seq::<char>::empty());
        assert(encode_utf8(longer) == encode_scalar(c as u32) + encode_utf8(longer.drop_first()));
    } else {
        assert(longer.drop_first() =~= text.drop_first().push(c));
        lemma_stored_len_push(text.drop_first(), c);
        assert(encode_utf8(longer) == encode_scalar(text[0] as u32) + encode_utf8(
            longer.drop_first(),
        ));
    }
}

/// A character occupies one to four bytes, and at most three when it lies
/// in the Basic Multilingual Plane.
pub proof fn lemma_char_len_bounds(c: char)
    ensures
        1 <= char_len(c) <= 4,
        (c as u32) < 0x10000 ==> char_len(c) <= 3,
{
    broadcast use vstd::utf8::char_is_scalar;

    assert(is_scalar(c as u32));
}

} // verus!
