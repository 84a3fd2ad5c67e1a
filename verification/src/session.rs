//! Laws of a typing session: what a run of keystrokes does to an engine.

use vstd::prelude::*;
use vstd::utf8::encode_utf8;
use crate::bubble::{attach_from, bubbled, pair_from};
use crate::engine::{after_keys, fresh, rendering, white_space, Session};
use crate::extract::extract_upto;
use crate::modes::Mode;
use crate::render::render_syllable;
use crate::resolve::{resolve_from, vowels_upto};

verus! {

/// The text shown is the rendering of the typed keys. This holds of a
/// fresh engine and after every key that is no whitespace.
pub open spec fn settled(s: Session) -> bool {
    s.shown == rendering(s.mode, s.typed)
}

/// Typing `first` and then `second` is typing the two runs one after the
/// other.
pub proof fn lemma_after_keys_concat(s: Session, first: Seq<char>, second: Seq<char>)
    ensures
        after_keys(s, first + second) == after_keys(after_keys(s, first), second),
    decreases second.len(),
{
    if second.len() == 0 {
        assert(first + second =~= first);
    } else {
        assert((first + second).drop_last() =~= first + second.drop_last());
        assert((first + second).last() == second.last());
        lemma_after_keys_concat(s, first, second.drop_last());
    }
}

/// Nothing typed renders as nothing.
pub proof fn lemma_rendering_of_nothing(mode: Mode)
    ensures
        rendering(mode, Seq::<char>::empty()) == Seq::<char>::empty(),
        settled(fresh(mode)),
{
    let none = Seq::<u8>::empty();
    assert(encode_utf8(Seq::<char>::empty()) =~= none);
    assert(extract_upto(mode, none, 0).kept == none);
    reveal_with_fuel(pair_from, 1);
    reveal_with_fuel(attach_from, 1);
    reveal_with_fuel(resolve_from, 1);
    assert(bubbled(mode, none) == none);
    assert(vowels_upto(Seq::<char>::empty(), 0) == Seq::<usize>::empty());
    assert(render_syllable(mode, none) == Some(Seq::<char>::empty()));
}

/// The text shown depends on nothing but the mode, the typed keys and the
/// keystrokes: two engines in the same mode that hold the same typed keys
/// are in the same session after the same keystrokes, whatever each of
/// them showed before. So two fresh engines in the same mode show the same
/// text after the same keystrokes.
pub proof fn lemma_same_keys_same_text(a: Session, b: Session, keys: Seq<char>)
    requires
        a.mode == b.mode,
        a.typed == b.typed,
        keys.len() > 0,
    ensures
        after_keys(a, keys) == after_keys(b, keys),
    decreases keys.len(),
{
    if keys.len() > 1 {
        lemma_same_keys_same_text(a, b, keys.drop_last());
    } else {
        assert(after_keys(a, keys.drop_last()) == a);
        assert(after_keys(b, keys.drop_last()) == b);
    }
}

/// After a key that is no whitespace the text shown is the rendering of
/// the typed keys.
pub proof fn lemma_settled_after_key(s: Session, keys: Seq<char>)
    requires
        keys.len() > 0,
        !white_space(keys.last()),
    ensures
        settled(after_keys(s, keys)),
{
}

/// Whitespace delimits. When the keys `before` are followed by the
/// whitespace `ws`, the text shown is the rendering of what was typed
/// followed by `ws`; where the text shown was that rendering, as it is of
/// a fresh engine and after every key that is no whitespace, this is the
/// text shown before with `ws` after it. From then on the engine is as a
/// fresh one: the keys `after` do to it what they do to a fresh engine.
pub proof fn lemma_whitespace_delimits(
    s: Session,
    before: Seq<char>,
    ws: char,
    after: Seq<char>,
)
    requires
        white_space(ws),
    ensures
        after_keys(s, before.push(ws)).shown == rendering(
            s.mode,
            after_keys(s, before).typed,
        ).push(ws),
        settled(after_keys(s, before)) ==> after_keys(s, before.push(ws)).shown == after_keys(
            s,
            before,
        ).shown.push(ws),
        after_keys(s, before.push(ws) + after).typed == after_keys(fresh(s.mode), after).typed,
        after.len() > 0 ==> after_keys(s, before.push(ws) + after).shown == after_keys(
            fresh(s.mode),
            after,
        ).shown,
{
    lemma_mode_stays(s, before);
    assert(before.push(ws).drop_last() =~= before);
    let flushed = after_keys(s, before.push(ws));
    lemma_after_keys_concat(s, before.push(ws), after);
    if after.len() > 0 {
        lemma_same_keys_same_text(flushed, fresh(s.mode), after);
    }
}

/// Keystrokes never change the mode.
pub proof fn lemma_mode_stays(s: Session, keys: Seq<char>)
    ensures
        after_keys(s, keys).mode == s.mode,
    decreases keys.len(),
{
    if keys.len() > 0 {
        lemma_mode_stays(s, keys.drop_last());
    }
}

} // verus!
