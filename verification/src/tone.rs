//! The table of Vietnamese vowels and their toned forms.
//!
//! Twelve base vowels (`a ă â e ê i o ô ơ u ư y`, numbered 0 to 11) each
//! come in six forms: bare (tone 0), acute (1), grave (2), hook above (3),
//! tilde (4) and dot below (5). Every form is one precomposed code point.

use vstd::prelude::*;

verus! {

/// Number of base vowels.
pub const BASE_COUNT: u8 = 12;

/// The highest tone id.
pub const MAX_TONE: u8 = 5;

/// The entry of a six-entry row that belongs to `tone`.
pub open spec fn pick_tone(tone: u8, t0: char, t1: char, t2: char, t3: char, t4: char, t5: char) -> char {
    if tone == 0 {
        t0
    } else if tone == 1 {
        t1
    } else if tone == 2 {
        t2
    } else if tone == 3 {
        t3
    } else if tone == 4 {
        t4
    } else {
        t5
    }
}

/// The precomposed code point of base vowel `base` carrying `tone`.
pub open spec fn precomposed(base: u8, tone: u8) -> char
    recommends
        base < BASE_COUNT,
        tone <= MAX_TONE,
{
    if base == 0 {
        pick_tone(tone, 'a', 'á', 'à', 'ả', 'ã', 'ạ')
    } else if base == 1 {
        pick_tone(tone, 'ă', 'ắ', 'ằ', 'ẳ', 'ẵ', 'ặ')
    } else if base == 2 {
        pick_tone(tone, 'â', 'ấ', 'ầ', 'ẩ', 'ẫ', 'ậ')
    } else if base == 3 {
        pick_tone(tone, 'e', 'é', 'è', 'ẻ', 'ẽ', 'ẹ')
    } else if base == 4 {
        pick_tone(tone, 'ê', 'ế', 'ề', 'ể', 'ễ', 'ệ')
    } else if base == 5 {
        pick_tone(tone, 'i', 'í', 'ì', 'ỉ', 'ĩ', 'ị')
    } else if base == 6 {
        pick_tone(tone, 'o', 'ó', 'ò', 'ỏ', 'õ', 'ọ')
    } else if base == 7 {
        pick_tone(tone, 'ô', 'ố', 'ồ', 'ổ', 'ỗ', 'ộ')
    } else if base == 8 {
        pick_tone(tone, 'ơ', 'ớ', 'ờ', 'ở', 'ỡ', 'ợ')
    } else if base == 9 {
        pick_tone(tone, 'u', 'ú', 'ù', 'ủ', 'ũ', 'ụ')
    } else if base == 10 {
        pick_tone(tone, 'ư', 'ứ', 'ừ', 'ử', 'ữ', 'ự')
    } else {
        pick_tone(tone, 'y', 'ý', 'ỳ', 'ỷ', 'ỹ', 'ỵ')
    }
}

/// The base vowel and tone that `c` is the precomposed form of, if any.
pub open spec fn vowel_slot(c: char) -> Option<(u8, u8)> {
    match c {
        'a' => Some((0u8, 0u8)),
        'á' => Some((0u8, 1u8)),
        'à' => Some((0u8, 2u8)),
        'ả' => Some((0u8, 3u8)),
        'ã' => Some((0u8, 4u8)),
        'ạ' => Some((0u8, 5u8)),
        'ă' => Some((1u8, 0u8)),
        'ắ' => Some((1u8, 1u8)),
        'ằ' => Some((1u8, 2u8)),
        'ẳ' => Some((1u8, 3u8)),
        'ẵ' => Some((1u8, 4u8)),
        'ặ' => Some((1u8, 5u8)),
        'â' => Some((2u8, 0u8)),
        'ấ' => Some((2u8, 1u8)),
        'ầ' => Some((2u8, 2u8)),
        'ẩ' => Some((2u8, 3u8)),
        'ẫ' => Some((2u8, 4u8)),
        'ậ' => Some((2u8, 5u8)),
        'e' => Some((3u8, 0u8)),
        'é' => Some((3u8, 1u8)),
        'è' => Some((3u8, 2u8)),
        'ẻ' => Some((3u8, 3u8)),
        'ẽ' => Some((3u8, 4u8)),
        'ẹ' => Some((3u8, 5u8)),
        'ê' => Some((4u8, 0u8)),
        'ế' => Some((4u8, 1u8)),
        'ề' => Some((4u8, 2u8)),
        'ể' => Some((4u8, 3u8)),
        'ễ' => Some((4u8, 4u8)),
        'ệ' => Some((4u8, 5u8)),
        'i' => Some((5u8, 0u8)),
        'í' => Some((5u8, 1u8)),
        'ì' => Some((5u8, 2u8)),
        'ỉ' => Some((5u8, 3u8)),
        'ĩ' => Some((5u8, 4u8)),
        'ị' => Some((5u8, 5u8)),
        'o' => Some((6u8, 0u8)),
        'ó' => Some((6u8, 1u8)),
        'ò' => Some((6u8, 2u8)),
        'ỏ' => Some((6u8, 3u8)),
        'õ' => Some((6u8, 4u8)),
        'ọ' => Some((6u8, 5u8)),
        'ô' => Some((7u8, 0u8)),
        'ố' => Some((7u8, 1u8)),
        'ồ' => Some((7u8, 2u8)),
        'ổ' => Some((7u8, 3u8)),
        'ỗ' => Some((7u8, 4u8)),
        'ộ' => Some((7u8, 5u8)),
        'ơ' => Some((8u8, 0u8)),
        'ớ' => Some((8u8, 1u8)),
        'ờ' => Some((8u8, 2u8)),
        'ở' => Some((8u8, 3u8)),
        'ỡ' => Some((8u8, 4u8)),
        'ợ' => Some((8u8, 5u8)),
        'u' => Some((9u8, 0u8)),
        'ú' => Some((9u8, 1u8)),
        'ù' => Some((9u8, 2u8)),
        'ủ' => Some((9u8, 3u8)),
        'ũ' => Some((9u8, 4u8)),
        'ụ' => Some((9u8, 5u8)),
        'ư' => Some((10u8, 0u8)),
        'ứ' => Some((10u8, 1u8)),
        'ừ' => Some((10u8, 2u8)),
        'ử' => Some((10u8, 3u8)),
        'ữ' => Some((10u8, 4u8)),
        'ự' => Some((10u8, 5u8)),
        'y' => Some((11u8, 0u8)),
        'ý' => Some((11u8, 1u8)),
        'ỳ' => Some((11u8, 2u8)),
        'ỷ' => Some((11u8, 3u8)),
        'ỹ' => Some((11u8, 4u8)),
        'ỵ' => Some((11u8, 5u8)),
        _ => None,
    }
}

/// `c` is one of the twelve base vowels, carrying no tone.
pub open spec fn is_base_vowel(c: char) -> bool {
    c == 'a' || c == 'ă' || c == 'â' || c == 'e' || c == 'ê' || c == 'i' || c == 'o' || c == 'ô' || c == 'ơ' || c == 'u' || c == 'ư' || c == 'y'
}

/// `c` is one of the five base vowels that carry a circumflex, a breve or a
/// horn and draw the tone to themselves.
pub open spec fn is_modified_vowel(c: char) -> bool {
    c == 'ơ' || c == 'ô' || c == 'ê' || c == 'â' || c == 'ă'
}

/// `c` is one of the six plain vowel letters.
pub open spec fn is_plain_vowel(c: char) -> bool {
    c == 'a' || c == 'e' || c == 'i' || c == 'o' || c == 'u' || c == 'y'
}

/// The letter `c` with its tone replaced by `tone`. A character that is no
/// vowel stays as it is, and so does every character when `tone` is no tone
/// id.
pub open spec fn with_tone(c: char, tone: u8) -> char {
    if tone > MAX_TONE {
        c
    } else {
        match vowel_slot(c) {
            Some((base, _)) => precomposed(base, tone),
            None => c,
        }
    }
}

fn choose_tone(tone: u8, t0: char, t1: char, t2: char, t3: char, t4: char, t5: char) -> (c: char)
    ensures
        c == pick_tone(tone, t0, t1, t2, t3, t4, t5),
{
    if tone == 0 {
        t0
    } else if tone == 1 {
        t1
    } else if tone == 2 {
        t2
    } else if tone == 3 {
        t3
    } else if tone == 4 {
        t4
    } else {
        t5
    }
}

/// Looks up the precomposed code point of a base vowel under a tone.
pub fn precomposed_vowel(base: u8, tone: u8) -> (c: char)
    requires
        base < BASE_COUNT,
        tone <= MAX_TONE,
    ensures
        c == precomposed(base, tone),
        vowel_slot(c) == Some((base, tone)),
{
    proof {
        lemma_slot_of_precomposed(base, tone);
    }
    match base {
        0 => choose_tone(tone, 'a', 'á', 'à', 'ả', 'ã', 'ạ'),
        1 => choose_tone(tone, 'ă', 'ắ', 'ằ', 'ẳ', 'ẵ', 'ặ'),
        2 => choose_tone(tone, 'â', 'ấ', 'ầ', 'ẩ', 'ẫ', 'ậ'),
        3 => choose_tone(tone, 'e', 'é', 'è', 'ẻ', 'ẽ', 'ẹ'),
        4 => choose_tone(tone, 'ê', 'ế', 'ề', 'ể', 'ễ', 'ệ'),
        5 => choose_tone(tone, 'i', 'í', 'ì', 'ỉ', 'ĩ', 'ị'),
        6 => choose_tone(tone, 'o', 'ó', 'ò', 'ỏ', 'õ', 'ọ'),
        7 => choose_tone(tone, 'ô', 'ố', 'ồ', 'ổ', 'ỗ', 'ộ'),
        8 => choose_tone(tone, 'ơ', 'ớ', 'ờ', 'ở', 'ỡ', 'ợ'),
        9 => choose_tone(tone, 'u', 'ú', 'ù', 'ủ', 'ũ', 'ụ'),
        10 => choose_tone(tone, 'ư', 'ứ', 'ừ', 'ử', 'ữ', 'ự'),
        _ => choose_tone(tone, 'y', 'ý', 'ỳ', 'ỷ', 'ỹ', 'ỵ'),
    }
}

/// Finds the base vowel and the tone of a precomposed code point; `None`
/// for every character outside the table.
pub fn split_vowel(c: char) -> (slot: Option<(u8, u8)>)
    ensures
        slot == vowel_slot(c),
        slot matches Some((base, tone)) ==> base < BASE_COUNT && tone <= MAX_TONE && precomposed(
            base,
            tone,
        ) == c,
{
    proof {
        lemma_precomposed_of_slot(c);
    }
    match c {
        'a' => Some((0u8, 0u8)),
        'á' => Some((0u8, 1u8)),
        'à' => Some((0u8, 2u8)),
        'ả' => Some((0u8, 3u8)),
        'ã' => Some((0u8, 4u8)),
        'ạ' => Some((0u8, 5u8)),
        'ă' => Some((1u8, 0u8)),
        'ắ' => Some((1u8, 1u8)),
        'ằ' => Some((1u8, 2u8)),
        'ẳ' => Some((1u8, 3u8)),
        'ẵ' => Some((1u8, 4u8)),
        'ặ' => Some((1u8, 5u8)),
        'â' => Some((2u8, 0u8)),
        'ấ' => Some((2u8, 1u8)),
        'ầ' => Some((2u8, 2u8)),
        'ẩ' => Some((2u8, 3u8)),
        'ẫ' => Some((2u8, 4u8)),
        'ậ' => Some((2u8, 5u8)),
        'e' => Some((3u8, 0u8)),
        'é' => Some((3u8, 1u8)),
        'è' => Some((3u8, 2u8)),
        'ẻ' => Some((3u8, 3u8)),
        'ẽ' => Some((3u8, 4u8)),
        'ẹ' => Some((3u8, 5u8)),
        'ê' => Some((4u8, 0u8)),
        'ế' => Some((4u8, 1u8)),
        'ề' => Some((4u8, 2u8)),
        'ể' => Some((4u8, 3u8)),
        'ễ' => Some((4u8, 4u8)),
        'ệ' => Some((4u8, 5u8)),
        'i' => Some((5u8, 0u8)),
        'í' => Some((5u8, 1u8)),
        'ì' => Some((5u8, 2u8)),
        'ỉ' => Some((5u8, 3u8)),
        'ĩ' => Some((5u8, 4u8)),
        'ị' => Some((5u8, 5u8)),
        'o' => Some((6u8, 0u8)),
        'ó' => Some((6u8, 1u8)),
        'ò' => Some((6u8, 2u8)),
        'ỏ' => Some((6u8, 3u8)),
        'õ' => Some((6u8, 4u8)),
        'ọ' => Some((6u8, 5u8)),
        'ô' => Some((7u8, 0u8)),
        'ố' => Some((7u8, 1u8)),
        'ồ' => Some((7u8, 2u8)),
        'ổ' => Some((7u8, 3u8)),
        'ỗ' => Some((7u8, 4u8)),
        'ộ' => Some((7u8, 5u8)),
        'ơ' => Some((8u8, 0u8)),
        'ớ' => Some((8u8, 1u8)),
        'ờ' => Some((8u8, 2u8)),
        'ở' => Some((8u8, 3u8)),
        'ỡ' => Some((8u8, 4u8)),
        'ợ' => Some((8u8, 5u8)),
        'u' => Some((9u8, 0u8)),
        'ú' => Some((9u8, 1u8)),
        'ù' => Some((9u8, 2u8)),
        'ủ' => Some((9u8, 3u8)),
        'ũ' => Some((9u8, 4u8)),
        'ụ' => Some((9u8, 5u8)),
        'ư' => Some((10u8, 0u8)),
        'ứ' => Some((10u8, 1u8)),
        'ừ' => Some((10u8, 2u8)),
        'ử' => Some((10u8, 3u8)),
        'ữ' => Some((10u8, 4u8)),
        'ự' => Some((10u8, 5u8)),
        'y' => Some((11u8, 0u8)),
        'ý' => Some((11u8, 1u8)),
        'ỳ' => Some((11u8, 2u8)),
        'ỷ' => Some((11u8, 3u8)),
        'ỹ' => Some((11u8, 4u8)),
        'ỵ' => Some((11u8, 5u8)),
        _ => None,
    }
}

/// Whether `c` is one of the twelve base vowels `a ă â e ê i o ô ơ u ư y`.
pub fn is_vowel_unicode(c: char) -> (vowel: bool)
    ensures
        vowel == is_base_vowel(c),
{
    match c {
        'a' | 'ă' | 'â' | 'e' | 'ê' | 'i' | 'o' | 'ô' | 'ơ' | 'u' | 'ư' | 'y' => true,
        _ => false,
    }
}

/// Replaces the tone of a vowel: the result is the same base vowel carrying
/// `tone`, the bare vowel when `tone` is 0. A character that is no vowel is
/// returned unchanged, and so is every character when `tone` is above 5.
pub fn map_vowel_with_tone(c: char, tone: u8) -> (toned: char)
    ensures
        toned == with_tone(c, tone),
{
    if tone > MAX_TONE {
        return c;
    }
    match split_vowel(c) {
        Some((base, _)) => precomposed_vowel(base, tone),
        None => c,
    }
}

/// Looking a table entry up by its code point gives back the row and the
/// column it stands in.
pub proof fn lemma_slot_of_precomposed(base: u8, tone: u8)
    requires
        base < BASE_COUNT,
        tone <= MAX_TONE,
    ensures
        vowel_slot(precomposed(base, tone)) == Some((base, tone)),
{
}

/// A code point that the table knows stands at the row and column that the
/// lookup reports.
pub proof fn lemma_precomposed_of_slot(c: char)
    ensures
        vowel_slot(c) matches Some((base, tone)) ==> base < BASE_COUNT && tone <= MAX_TONE
            && precomposed(base, tone) == c,
{
}

/// Setting a tone twice is the same as setting the second tone alone.
pub proof fn lemma_with_tone_overrides(c: char, first: u8, second: u8)
    requires
        first <= MAX_TONE,
        second <= MAX_TONE,
    ensures
        with_tone(with_tone(c, first), second) == with_tone(c, second),
{
    lemma_precomposed_of_slot(c);
    match vowel_slot(c) {
        Some((base, _)) => {
            lemma_slot_of_precomposed(base, first);
        },
        None => {},
    }
}

/// Every character that `with_tone` gives for a Latin-1 or table character
/// lies below U+2000.
pub proof fn lemma_with_tone_bound(c: char, tone: u8)
    requires
        (c as u32) < 0x2000,
    ensures
        (with_tone(c, tone) as u32) < 0x2000,
{
}

} // verus!
