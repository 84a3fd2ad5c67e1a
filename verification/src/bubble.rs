//! Modifier bubbling.
//!
//! A modifier key may be typed after other letters have followed the letter
//! it belongs to. Two passes move such keys back: the first puts the second
//! `a`, `e`, `o` or `d` right behind the first one and turns `ww` into a
//! literal `w`; the second puts a single `w` right behind the nearest letter
//! before it that can take one.

use vstd::prelude::*;
use crate::modes::{is_doubling_key, w_anchor, Mode, KEY_A, KEY_D, KEY_E, KEY_O, KEY_W};

verus! {

/// The byte that stands for a `w` which is a letter and no modifier.
pub const W_LITERAL: u8 = 1;

/// For each of `a`, `e`, `o`, `d`: where its latest occurrence that has not
/// been paired yet stands in the output.
#[derive(Clone, Copy)]
pub struct PairSlots {
    pub a: Option<usize>,
    pub e: Option<usize>,
    pub o: Option<usize>,
    pub d: Option<usize>,
}

/// A tracked position after a key was spliced in at `at`.
pub open spec fn shift_slot(slot: Option<usize>, at: usize) -> Option<usize> {
    match slot {
        Some(p) => if p >= at {
            Some((p + 1) as usize)
        } else {
            slot
        },
        None => None,
    }
}

/// A tracked position, if any, lies below `n`.
pub open spec fn slot_below(slot: Option<usize>, n: int) -> bool {
    match slot {
        Some(p) => p < n,
        None => true,
    }
}

impl PairSlots {
    /// No key is waiting for its pair.
    pub open spec fn none() -> PairSlots {
        PairSlots { a: None, e: None, o: None, d: None }
    }

    /// The tracked position of `key`, one of `a`, `e`, `o`, `d`.
    pub open spec fn get(self, key: u8) -> Option<usize> {
        if key == KEY_A {
            self.a
        } else if key == KEY_E {
            self.e
        } else if key == KEY_O {
            self.o
        } else {
            self.d
        }
    }

    /// These slots with the position of `key` replaced.
    pub open spec fn set(self, key: u8, slot: Option<usize>) -> PairSlots {
        if key == KEY_A {
            PairSlots { a: slot, ..self }
        } else if key == KEY_E {
            PairSlots { e: slot, ..self }
        } else if key == KEY_O {
            PairSlots { o: slot, ..self }
        } else {
            PairSlots { d: slot, ..self }
        }
    }

    /// These slots after a key was spliced in at `at`.
    pub open spec fn shifted(self, at: usize) -> PairSlots {
        PairSlots {
            a: shift_slot(self.a, at),
            e: shift_slot(self.e, at),
            o: shift_slot(self.o, at),
            d: shift_slot(self.d, at),
        }
    }

    /// Every tracked position lies below `n`.
    pub open spec fn below(self, n: int) -> bool {
        slot_below(self.a, n) && slot_below(self.e, n) && slot_below(self.o, n) && slot_below(
            self.d,
            n,
        )
    }

    fn lookup(&self, key: u8) -> (slot: Option<usize>)
        ensures
            slot == self.get(key),
    {
        if key == KEY_A {
            self.a
        } else if key == KEY_E {
            self.e
        } else if key == KEY_O {
            self.o
        } else {
            self.d
        }
    }

    fn store(&mut self, key: u8, slot: Option<usize>)
        ensures
            *final(self) == old(self).set(key, slot),
    {
        if key == KEY_A {
            self.a = slot;
        } else if key == KEY_E {
            self.e = slot;
        } else if key == KEY_O {
            self.o = slot;
        } else {
            self.d = slot;
        }
    }

    fn shift(&mut self, at: usize)
        requires
            old(self).below(usize::MAX as int),
        ensures
            *final(self) == old(self).shifted(at),
    {
        self.a = shift_one(self.a, at);
        self.e = shift_one(self.e, at);
        self.o = shift_one(self.o, at);
        self.d = shift_one(self.d, at);
    }
}

fn shift_one(slot: Option<usize>, at: usize) -> (moved: Option<usize>)
    requires
        slot_below(slot, usize::MAX as int),
    ensures
        moved == shift_slot(slot, at),
{
    match slot {
        Some(p) => if p >= at {
            Some(p + 1)
        } else {
            slot
        },
        None => None,
    }
}

/// The output of the pairing pass when it stands at position `i` of `src`
/// with `out` written so far and `slots` tracked.
pub open spec fn pair_from(src: Seq<u8>, i: int, out: Seq<u8>, slots: PairSlots) -> Seq<u8>
    decreases src.len() - i,
{
    if i < 0 || i >= src.len() {
        out
    } else if src[i] == KEY_W {
        if i + 1 < src.len() && src[i + 1] == KEY_W {
            pair_from(src, i + 2, out.push(W_LITERAL), slots)
        } else {
            pair_from(src, i + 1, out.push(KEY_W), slots)
        }
    } else if is_doubling_key(src[i]) {
        match slots.get(src[i]) {
            Some(p) => pair_from(
                src,
                i + 1,
                out.insert(p + 1, src[i]),
                slots.set(src[i], None).shifted((p + 1) as usize),
            ),
            None => pair_from(
                src,
                i + 1,
                out.push(src[i]),
                slots.set(src[i], Some(out.len() as usize)),
            ),
        }
    } else {
        pair_from(src, i + 1, out.push(src[i]), slots)
    }
}

/// The keys after the pairing pass: every second `a`, `e`, `o`, `d` stands
/// right behind its first, and every `ww` has become a literal `w`.
pub open spec fn paired(src: Seq<u8>) -> Seq<u8> {
    pair_from(src, 0, Seq::empty(), PairSlots::none())
}

/// The output of the `w` pass when it stands at position `i` of `src` with
/// `out` written so far and the latest letter that can take a `w` at
/// `anchor`.
pub open spec fn attach_from(
    mode: Mode,
    src: Seq<u8>,
    i: int,
    out: Seq<u8>,
    anchor: Option<usize>,
) -> Seq<u8>
    decreases src.len() - i,
{
    if i < 0 || i >= src.len() {
        out
    } else if src[i] == KEY_W {
        match anchor {
            Some(p) => attach_from(mode, src, i + 1, out.insert(p + 1, KEY_W), anchor),
            None => attach_from(mode, src, i + 1, out.push(KEY_W), anchor),
        }
    } else {
        attach_from(
            mode,
            src,
            i + 1,
            out.push(src[i]),
            if w_anchor(mode.method, src[i]) {
                Some(out.len() as usize)
            } else {
                anchor
            },
        )
    }
}

/// The keys after the `w` pass: every `w` stands right behind the nearest
/// letter before it that can take one, or where it was if there is none.
pub open spec fn attached(mode: Mode, src: Seq<u8>) -> Seq<u8> {
    attach_from(mode, src, 0, Seq::empty(), None)
}

/// The keys after modifier bubbling: both passes where the mode asks for
/// bubbling, the keys as they were where it does not.
pub open spec fn bubbled(mode: Mode, src: Seq<u8>) -> Seq<u8> {
    if mode.enable_modifier_bubbling {
        attached(mode, paired(src))
    } else {
        src
    }
}

/// Runs the pairing pass over `src`.
pub fn pair_modifiers(src: &Vec<u8>) -> (out: Vec<u8>)
    ensures
        out@ == paired(src@),
        out@.len() <= src@.len(),
{
    let mut out: Vec<u8> = Vec::new();
    let mut slots = PairSlots { a: None, e: None, o: None, d: None };
    let mut i: usize = 0;
    while i < src.len()
        invariant
            i <= src.len(),
            out@.len() <= i,
            slots.below(out@.len() as int),
            pair_from(src@, i as int, out@, slots) == paired(src@),
        decreases src.len() - i,
    {
        let c = src[i];
        if c == KEY_W {
            if i + 1 < src.len() && src[i + 1] == KEY_W {
                out.push(W_LITERAL);
                i = i + 2;
            } else {
                out.push(c);
                i = i + 1;
            }
        } else if c == KEY_A || c == KEY_E || c == KEY_O || c == KEY_D {
            match slots.lookup(c) {
                Some(p) => {
                    out.insert(p + 1, c);
                    slots.store(c, None);
                    slots.shift(p + 1);
                },
                None => {
                    slots.store(c, Some(out.len()));
                    out.push(c);
                },
            }
            i = i + 1;
        } else {
            out.push(c);
            i = i + 1;
        }
    }
    out
}

/// Runs the `w` pass over `src`.
pub fn attach_w(mode: &Mode, src: &Vec<u8>) -> (out: Vec<u8>)
    ensures
        out@ == attached(*mode, src@),
        out@.len() == src@.len(),
{
    let mut out: Vec<u8> = Vec::new();
    let mut anchor: Option<usize> = None;
    let mut i: usize = 0;
    while i < src.len()
        invariant
            i <= src.len(),
            out@.len() == i,
            slot_below(anchor, out@.len() as int),
            attach_from(*mode, src@, i as int, out@, anchor) == attached(*mode, src@),
        decreases src.len() - i,
    {
        let c = src[i];
        if c == KEY_W {
            match anchor {
                Some(p) => {
                    out.insert(p + 1, c);
                },
                None => {
                    out.push(c);
                },
            }
        } else {
            if mode.w_target(c) {
                anchor = Some(out.len());
            }
            out.push(c);
        }
        i = i + 1;
    }
    out
}

/// Moves late modifier keys back to their letters where the mode asks for
/// it, and hands the keys back unchanged where it does not.
pub fn bubble_modifiers(mode: &Mode, keys: Vec<u8>) -> (out: Vec<u8>)
    ensures
        out@ == bubbled(*mode, keys@),
        out@.len() <= keys@.len(),
{
    if mode.enable_modifier_bubbling {
        let paired_keys = pair_modifiers(&keys);
        attach_w(mode, &paired_keys)
    } else {
        keys
    }
}

} // verus!
