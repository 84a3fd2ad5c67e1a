//! The dispatcher: the engine that a caller feeds keystrokes.

use vstd::prelude::*;
use vstd::string::StringSliceAdditionalSpecFns;
use vstd::utf8::encode_utf8;
use crate::buffers::{
    char_len, clear_out, clear_raw, lemma_char_len_bounds, lemma_stored_len_empty,
    lemma_stored_len_push, new_out_buffer, new_raw_buffer, out_as_str, out_text,
    push_char_or_drop, push_key_or_drop, push_str_or_drop, raw_as_str, raw_text, stored_len,
    OutBuffer, RawBuffer, RAW_CAPACITY,
};
use crate::modes::{mode_for, mode_of, InputMethod, Mode};
use crate::render::{render, render_syllable};
use crate::resolve::letters_small;

verus! {

/// Whether a character has the Unicode property `White_Space`.
pub uninterp spec fn white_space(c: char) -> bool;

/// Trusted: `char::is_whitespace` tells whether `c` has the Unicode
/// property `White_Space`.
#[verifier::external_body]
pub(crate) fn is_whitespace(c: char) -> (ws: bool)
    ensures
        ws == white_space(c),
{
    c.is_whitespace()
}

/// The lower-case form of an ASCII capital letter; every other character
/// is its own.
pub open spec fn ascii_lower(c: char) -> char {
    if 'A' <= c && c <= 'Z' {
        ((c as u8) + 32) as char
    } else {
        c
    }
}

/// Maps the ASCII capital letters to their lower-case forms and leaves
/// every other character as it is.
pub fn to_ascii_lowercase(c: char) -> (lower: char)
    ensures
        lower == ascii_lower(c),
{
    if 'A' <= c && c <= 'Z' {
        ((c as u8) + 32) as char
    } else {
        c
    }
}

/// The text shown for the typed keys `typed`: the rendering of their bytes
/// as a syllable, or the keys themselves where that rendering is given up.
pub open spec fn rendering(mode: Mode, typed: Seq<char>) -> Seq<char> {
    match render_syllable(mode, encode_utf8(typed)) {
        Some(letters) => letters,
        None => typed,
    }
}

/// The typed keys after the key `key`, which is no whitespace: its
/// lower-case form is appended if it still fits, and dropped if not.
pub open spec fn typed_after(typed: Seq<char>, key: char) -> Seq<char> {
    if stored_len(typed) + char_len(ascii_lower(key)) <= RAW_CAPACITY {
        typed.push(ascii_lower(key))
    } else {
        typed
    }
}

/// What an engine holds, as far as its caller can tell.
pub struct Session {
    /// The mode in which keys are read.
    pub mode: Mode,
    /// The keys typed since the last flush.
    pub typed: Seq<char>,
    /// The text that is shown.
    pub shown: Seq<char>,
}

/// The session of an engine that was just made and set to `mode`.
pub open spec fn fresh(mode: Mode) -> Session {
    Session { mode, typed: Seq::empty(), shown: Seq::empty() }
}

/// The session after one keystroke. A whitespace shows the last rendering
/// of the typed keys and itself after it, and empties the typed keys; any
/// other key joins the typed keys, whose rendering is then shown.
pub open spec fn after_key(s: Session, key: char) -> Session {
    if white_space(key) {
        Session { mode: s.mode, typed: Seq::empty(), shown: rendering(s.mode, s.typed).push(key) }
    } else {
        Session {
            mode: s.mode,
            typed: typed_after(s.typed, key),
            shown: rendering(s.mode, typed_after(s.typed, key)),
        }
    }
}

/// The session after the keystrokes `keys`, in order.
pub open spec fn after_keys(s: Session, keys: Seq<char>) -> Session
    decreases keys.len(),
{
    if keys.len() == 0 {
        s
    } else {
        after_key(after_keys(s, keys.drop_last()), keys.last())
    }
}

/// An incremental Vietnamese input-method engine for one syllable at a
/// time.
pub struct UltraFastViEngine {
    raw_buffer: RawBuffer,
    out_buffer: OutBuffer,
    mode: Mode,
}

impl UltraFastViEngine {
    /// The keys typed since the last flush.
    pub closed spec fn typed(&self) -> Seq<char> {
        raw_text(self.raw_buffer)
    }

    /// The text that the engine shows.
    pub closed spec fn shown(&self) -> Seq<char> {
        out_text(self.out_buffer)
    }

    /// The mode in which keys are read.
    pub closed spec fn mode(&self) -> Mode {
        self.mode
    }

    /// The session that this engine is in.
    pub open spec fn session(&self) -> Session {
        Session { mode: self.mode(), typed: self.typed(), shown: self.shown() }
    }

    /// Makes an engine with nothing typed, nothing shown, in Telex mode.
    pub fn new() -> (engine: Self)
        ensures
            engine.typed() == Seq::<char>::empty(),
            engine.shown() == Seq::<char>::empty(),
            engine.mode() == mode_of(InputMethod::Telex),
            engine.session() == fresh(mode_of(InputMethod::Telex)),
    {
        UltraFastViEngine {
            raw_buffer: new_raw_buffer(),
            out_buffer: new_out_buffer(),
            mode: mode_for(InputMethod::Telex),
        }
    }

    /// Forgets what was typed and what is shown; the mode stays.
    pub fn clear(&mut self)
        ensures
            final(self).typed() == Seq::<char>::empty(),
            final(self).shown() == Seq::<char>::empty(),
            final(self).mode() == old(self).mode(),
    {
        clear_raw(&mut self.raw_buffer);
        clear_out(&mut self.out_buffer);
    }

    /// Selects the input method for the keys to come. What was typed and
    /// what is shown stay as they are.
    pub fn set_input_method(&mut self, method: InputMethod)
        ensures
            final(self).mode() == mode_of(method),
            final(self).typed() == old(self).typed(),
            final(self).shown() == old(self).shown(),
    {
        self.mode = mode_for(method);
    }

    /// The input method that is selected.
    pub fn input_method(&self) -> (method: InputMethod)
        ensures
            method == self.mode().method,
    {
        self.mode.method
    }

    /// The text that the engine shows.
    pub fn output(&self) -> (text: &str)
        ensures
            text@ == self.shown(),
    {
        out_as_str(&self.out_buffer)
    }

    /// Renders the typed keys again and shows the result.
    pub fn render_str(&mut self)
        ensures
            final(self).shown() == rendering(old(self).mode(), old(self).typed()),
            final(self).typed() == old(self).typed(),
            final(self).mode() == old(self).mode(),
            stored_len(final(self).shown()) <= 96,
    {
        let typed = raw_as_str(&self.raw_buffer);
        let rendered = render(&self.mode, typed.as_bytes());
        clear_out(&mut self.out_buffer);
        proof {
            lemma_stored_len_empty();
        }
        match rendered {
            None => {
                let pushed = push_str_or_drop(&mut self.out_buffer, typed);
                assert(pushed);
                assert(Seq::<char>::empty() + typed@ =~= typed@);
            },
            Some(letters) => {
                let mut i: usize = 0;
                while i < letters.len()
                    invariant
                        i <= letters.len(),
                        letters@.len() <= 32,
                        letters_small(letters@),
                        out_text(self.out_buffer) == letters@.take(i as int),
                        stored_len(out_text(self.out_buffer)) <= 3 * i,
                        raw_text(self.raw_buffer) == raw_text(old(self).raw_buffer),
                        self.mode == old(self).mode,
                    decreases letters.len() - i,
                {
                    let c = letters[i];
                    proof {
                        lemma_char_len_bounds(c);
                        lemma_stored_len_push(letters@.take(i as int), c);
                        assert(letters@.take(i as int).push(c) =~= letters@.take(i + 1));
                    }
                    let pushed = push_char_or_drop(&mut self.out_buffer, c);
                    assert(pushed);
                    i = i + 1;
                }
                assert(letters@.take(i as int) =~= letters@);
            },
        }
    }

    /// Takes the whitespace `key`: the typed keys are rendered one last
    /// time, the whitespace is shown after them, and a new syllable begins.
    pub fn flush(&mut self, key: char)
        ensures
            final(self).typed() == Seq::<char>::empty(),
            final(self).shown() == rendering(old(self).mode(), old(self).typed()).push(key),
            final(self).mode() == old(self).mode(),
    {
        self.render_str();
        clear_raw(&mut self.raw_buffer);
        proof {
            lemma_char_len_bounds(key);
        }
        let pushed = push_char_or_drop(&mut self.out_buffer, key);
        assert(pushed);
    }

    /// Takes the key `key`, which is no whitespace: its lower-case form is
    /// appended to the typed keys, or dropped when they are full, and the
    /// typed keys are rendered again.
    pub fn type_key(&mut self, key: char)
        ensures
            final(self).typed() == typed_after(old(self).typed(), key),
            final(self).shown() == rendering(old(self).mode(), final(self).typed()),
            final(self).mode() == old(self).mode(),
    {
        let _ = push_key_or_drop(&mut self.raw_buffer, to_ascii_lowercase(key));
        self.render_str();
    }

    /// Takes one keystroke and returns the text to show. A whitespace ends
    /// the syllable: the result is its last rendering followed by the
    /// whitespace. Every other key is added to the syllable, and the result
    /// is the rendering of the syllable so far.
    pub fn feed(&mut self, key: char) -> (text: &str)
        ensures
            text@ == final(self).shown(),
            final(self).session() == after_key(old(self).session(), key),
            final(self).mode() == old(self).mode(),
            white_space(key) ==> final(self).typed() == Seq::<char>::empty(),
            white_space(key) ==> final(self).shown() == rendering(
                old(self).mode(),
                old(self).typed(),
            ).push(key),
            !white_space(key) ==> final(self).typed() == typed_after(old(self).typed(), key),
            !white_space(key) ==> final(self).shown() == rendering(
                old(self).mode(),
                final(self).typed(),
            ),
    {
        if is_whitespace(key) {
            self.flush(key);
        } else {
            self.type_key(key);
        }
        out_as_str(&self.out_buffer)
    }
}

} // verus!
