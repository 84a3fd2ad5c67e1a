//! Tone extraction and triple collapse.
//!
//! The typed keys are walked once from left to right. Tone keys are taken
//! out and remembered (the last one wins, a tone key typed twice in a row
//! cancels the tone for the rest of the syllable), and a third `a`, `e`,
//! `o` or `d` in a row undoes the pair before it.

use vstd::prelude::*;
use crate::modes::{
    is_doubling_key, is_tone_key, Mode, KEY_A, KEY_B, KEY_C, KEY_D, KEY_E, KEY_F, KEY_G, KEY_K,
    KEY_O, KEY_P, KEY_R, KEY_T,
};

verus! {

/// What the walk has found after some prefix of the typed keys.
pub struct Extraction {
    /// The keys that stay in the syllable, in order.
    pub kept: Seq<u8>,
    /// The tone key that is remembered, if any.
    pub tone_key: Option<u8>,
    /// Whether the tone was cancelled by a tone key typed twice.
    pub cancelled: bool,
    /// The key of the current run of equal keys (0 before the first key).
    pub run_key: u8,
    /// The length of the current run.
    pub run_len: nat,
}

/// After one of these letters an `r` continues a consonant cluster and is
/// no tone key.
pub open spec fn is_cluster_lead(b: u8) -> bool {
    b == KEY_T || b == KEY_P || b == KEY_F || b == KEY_C || b == KEY_B || b == KEY_D || b == KEY_G
        || b == KEY_K
}

/// The state before any key.
pub open spec fn extract_start() -> Extraction {
    Extraction { kept: Seq::empty(), tone_key: None, cancelled: false, run_key: 0, run_len: 0 }
}

/// A tone key at position `i` of `raw` is kept as a letter: it is the first
/// key, or an `r` right after a cluster lead.
pub open spec fn tone_key_is_literal(raw: Seq<u8>, i: int) -> bool {
    i == 0 || (raw[i] == KEY_R && is_cluster_lead(raw[i - 1]))
}

/// The state after the key at position `i` of `raw`, given the state `st`
/// before it.
pub open spec fn extract_step(mode: Mode, st: Extraction, raw: Seq<u8>, i: int) -> Extraction {
    let b = raw[i];
    if is_tone_key(mode.method, b) {
        if tone_key_is_literal(raw, i) {
            Extraction { kept: st.kept.push(b), run_key: b, run_len: 1, ..st }
        } else if st.tone_key == Some(b) {
            Extraction { kept: st.kept.push(b), tone_key: None, cancelled: true, ..st }
        } else if st.cancelled {
            Extraction { kept: st.kept.push(b), ..st }
        } else {
            Extraction { tone_key: Some(b), ..st }
        }
    } else if b == st.run_key {
        if st.run_len == 2 && is_doubling_key(b) {
            Extraction { kept: st.kept.drop_last(), run_len: 1, ..st }
        } else {
            Extraction { kept: st.kept.push(b), run_len: st.run_len + 1, ..st }
        }
    } else {
        Extraction { kept: st.kept.push(b), run_key: b, run_len: 1, ..st }
    }
}

/// The state after the first `n` keys of `raw`.
pub open spec fn extract_upto(mode: Mode, raw: Seq<u8>, n: nat) -> Extraction
    decreases n,
{
    if n == 0 {
        extract_start()
    } else {
        extract_step(mode, extract_upto(mode, raw, (n - 1) as nat), raw, n - 1)
    }
}

/// The state after all keys of `raw`.
pub open spec fn extracted(mode: Mode, raw: Seq<u8>) -> Extraction {
    extract_upto(mode, raw, raw.len())
}

/// A run is never longer than what was kept, and no more is kept than was
/// typed.
pub proof fn lemma_extract_bounds(mode: Mode, raw: Seq<u8>, n: nat)
    requires
        n <= raw.len(),
    ensures
        extract_upto(mode, raw, n).run_len <= extract_upto(mode, raw, n).kept.len() <= n,
        extract_upto(mode, raw, n).cancelled ==> extract_upto(mode, raw, n).tone_key.is_none(),
    decreases n,
{
    if n > 0 {
        lemma_extract_bounds(mode, raw, (n - 1) as nat);
    }
}

/// Result of the extraction walk.
pub struct Extracted {
    /// The keys that stay in the syllable.
    pub kept: Vec<u8>,
    /// The tone key that is remembered, if any.
    pub tone_key: Option<u8>,
}

fn is_cluster_lead_key(b: u8) -> (lead: bool)
    ensures
        lead == is_cluster_lead(b),
{
    b == KEY_T || b == KEY_P || b == KEY_F || b == KEY_C || b == KEY_B || b == KEY_D || b == KEY_G
        || b == KEY_K
}

/// Takes the tone keys out of `raw` and collapses triples: the result holds
/// the keys that stay and the tone key that is remembered at the end.
pub fn extract_tone(mode: &Mode, raw: &[u8]) -> (found: Extracted)
    ensures
        found.kept@ == extracted(*mode, raw@).kept,
        found.tone_key == extracted(*mode, raw@).tone_key,
        found.kept@.len() <= raw@.len(),
{
    let mut kept: Vec<u8> = Vec::new();
    let mut tone_key: Option<u8> = None;
    let mut cancelled = false;
    let mut run_key: u8 = 0;
    let mut run_len: usize = 0;
    let mut i: usize = 0;
    while i < raw.len()
        invariant
            i <= raw.len(),
            extract_upto(*mode, raw@, i as nat) == (Extraction {
                kept: kept@,
                tone_key,
                cancelled,
                run_key,
                run_len: run_len as nat,
            }),
        decreases raw.len() - i,
    {
        proof {
            lemma_extract_bounds(*mode, raw@, i as nat);
        }
        let b = raw[i];
        if mode.is_tone_key(b) {
            if i == 0 || (b == KEY_R && is_cluster_lead_key(raw[i - 1])) {
                kept.push(b);
                run_key = b;
                run_len = 1;
            } else if tone_key == Some(b) {
                kept.push(b);
                tone_key = None;
                cancelled = true;
            } else if cancelled {
                kept.push(b);
            } else {
                tone_key = Some(b);
            }
        } else if b == run_key {
            if run_len == 2 && (b == KEY_A || b == KEY_E || b == KEY_O || b == KEY_D) {
                kept.pop();
                run_len = 1;
            } else {
                kept.push(b);
                run_len = run_len + 1;
            }
        } else {
            kept.push(b);
            run_key = b;
            run_len = 1;
        }
        i = i + 1;
    }
    proof {
        lemma_extract_bounds(*mode, raw@, raw@.len());
    }
    Extracted { kept, tone_key }
}

} // verus!
