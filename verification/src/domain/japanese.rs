//! Telling Japanese script apart: hiragana, katakana and kanji.

use vstd::prelude::*;

verus! {

/// `c` lies in the hiragana block, U+3040 to U+309F.
pub open spec fn hiragana(c: char) -> bool {
    0x3040 <= c as u32 <= 0x309F
}

/// `c` lies in the katakana block, U+30A0 to U+30FF.
pub open spec fn katakana(c: char) -> bool {
    0x30A0 <= c as u32 <= 0x30FF
}

/// `c` is a CJK unified ideograph: U+4E00 to U+9FFF, extension A (U+3400 to
/// U+4DBF) or extension B (U+20000 to U+2A6DF).
pub open spec fn kanji(c: char) -> bool {
    ||| 0x4E00 <= c as u32 <= 0x9FFF
    ||| 0x3400 <= c as u32 <= 0x4DBF
    ||| 0x20000 <= c as u32 <= 0x2A6DF
}

/// `c` is hiragana, katakana or kanji.
pub open spec fn japanese(c: char) -> bool {
    hiragana(c) || katakana(c) || kanji(c)
}

/// Every character of `text` is Japanese. True of the empty text.
pub open spec fn all_japanese(text: Seq<char>) -> bool {
    forall|i: int| 0 <= i < text.len() ==> japanese(#[trigger] text[i])
}

/// Some character of `text` is Japanese.
pub open spec fn some_japanese(text: Seq<char>) -> bool {
    exists|i: int| 0 <= i < text.len() && japanese(#[trigger] text[i])
}

/// Some character of `text` is a kanji.
pub open spec fn some_kanji(text: Seq<char>) -> bool {
    exists|i: int| 0 <= i < text.len() && kanji(#[trigger] text[i])
}

/// The script a character belongs to.
pub trait JapaneseChar {
    fn is_japanese(&self) -> bool;

    fn is_hiragana(&self) -> bool;

    fn is_katakana(&self) -> bool;

    fn is_kanji(&self) -> bool;
}

impl JapaneseChar for char {
    fn is_japanese(&self) -> (yes: bool)
        ensures
            yes == japanese(*self),
    {
        self.is_hiragana() || self.is_katakana() || self.is_kanji()
    }

    fn is_hiragana(&self) -> (yes: bool)
        ensures
            yes == hiragana(*self),
    {
        let code = *self as u32;
        0x3040 <= code && code <= 0x309F
    }

    fn is_katakana(&self) -> (yes: bool)
        ensures
            yes == katakana(*self),
    {
        let code = *self as u32;
        0x30A0 <= code && code <= 0x30FF
    }

    fn is_kanji(&self) -> (yes: bool)
        ensures
            yes == kanji(*self),
    {
        let code = *self as u32;
        (0x4E00 <= code && code <= 0x9FFF) || (0x3400 <= code && code <= 0x4DBF) || (0x20000
            <= code && code <= 0x2A6DF)
    }
}

/// What a text is written in.
pub trait JapaneseText {
    fn is_japanese(&self) -> bool;

    fn contains_japanese(&self) -> bool;

    fn contains_kanji(&self) -> bool;
}

impl JapaneseText for str {
    fn is_japanese(&self) -> (yes: bool)
        ensures
            yes == all_japanese(self@),
    {
        for c in it: self.chars()
            invariant
                it.seq() == self@,
                forall|k: int| 0 <= k < it.index() ==> japanese(#[trigger] self@[k]),
        {
            if !c.is_japanese() {
                return false;
            }
        }
        true
    }

    fn contains_japanese(&self) -> (yes: bool)
        ensures
            yes == some_japanese(self@),
    {
        for c in it: self.chars()
            invariant
                it.seq() == self@,
                forall|k: int| 0 <= k < it.index() ==> !japanese(#[trigger] self@[k]),
        {
            if c.is_japanese() {
                return true;
            }
        }
        false
    }

    fn contains_kanji(&self) -> (yes: bool)
        ensures
            yes == some_kanji(self@),
    {
        for c in it: self.chars()
            invariant
                it.seq() == self@,
                forall|k: int| 0 <= k < it.index() ==> !kanji(#[trigger] self@[k]),
        {
            if c.is_kanji() {
                return true;
            }
        }
        false
    }
}

/// Whether a text has a reading of its own: its furigana form differs from
/// the text itself.
pub fn reading_differs(text: &str, furigana: &str) -> (differs: bool)
    ensures
        differs == (furigana@ != text@),
{
    !same_text(furigana, text)
}

/// Whether two texts are read alike: their furigana forms are the same.
pub fn same_reading(left_furigana: &str, right_furigana: &str) -> (same: bool)
    ensures
        same == (left_furigana@ == right_furigana@),
{
    same_text(left_furigana, right_furigana)
}

/// Whether two texts are the same, character for character.
fn same_text(left: &str, right: &str) -> (same: bool)
    ensures
        same == (left@ == right@),
{
    left.to_owned() == right.to_owned()
}

} // verus!
