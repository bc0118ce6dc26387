//! The kanji reference: what is known of each character, and look-ups in it.

use vstd::prelude::*;
use vstd::string::StringExecFns;
use crate::domain::error::KeikakuError;
use crate::domain::value_objects::JapaneseLevel;

verus! {

/// What the entry of a kanji holds.
pub struct KanjiInfoView {
    pub kanji: Seq<char>,
    pub description: Seq<char>,
    pub jlpt: JapaneseLevel,
    pub stroke_count: u8,
}

/// What the reference knows of one kanji.
#[derive(Debug, PartialEq, Eq)]
pub struct KanjiInfo {
    kanji: String,
    description: String,
    jlpt: JapaneseLevel,
    stroke_count: u8,
}

impl View for KanjiInfo {
    type V = KanjiInfoView;

    closed spec fn view(&self) -> KanjiInfoView {
        KanjiInfoView {
            kanji: self.kanji@,
            description: self.description@,
            jlpt: self.jlpt,
            stroke_count: self.stroke_count,
        }
    }
}

impl Clone for KanjiInfo {
    fn clone(&self) -> (copy: KanjiInfo)
        ensures
            copy@ == self@,
    {
        KanjiInfo {
            kanji: self.kanji.clone(),
            description: self.description.clone(),
            jlpt: self.jlpt,
            stroke_count: self.stroke_count,
        }
    }
}

impl KanjiInfo {
    pub fn new(kanji: String, description: String, jlpt: JapaneseLevel, stroke_count: u8) -> (info:
        KanjiInfo)
        ensures
            info@ == (KanjiInfoView {
                kanji: kanji@,
                description: description@,
                jlpt,
                stroke_count,
            }),
    {
        KanjiInfo { kanji, description, jlpt, stroke_count }
    }

    pub fn kanji(&self) -> (kanji: &str)
        ensures
            kanji@ == self@.kanji,
    {
        self.kanji.as_str()
    }

    pub fn description(&self) -> (description: &str)
        ensures
            description@ == self@.description,
    {
        self.description.as_str()
    }

    pub fn jlpt(&self) -> (jlpt: &JapaneseLevel)
        ensures
            *jlpt == self@.jlpt,
    {
        &self.jlpt
    }

    pub fn stroke_count(&self) -> (stroke_count: u8)
        ensures
            stroke_count == self@.stroke_count,
    {
        self.stroke_count
    }
}

/// The views of a list of entries, in order.
pub open spec fn kanji_views(entries: Seq<KanjiInfo>) -> Seq<KanjiInfoView> {
    entries.map_values(|k: KanjiInfo| k@)
}

/// The views of a list of borrowed entries, in order.
pub open spec fn borrowed_kanji_views(entries: Seq<&KanjiInfo>) -> Seq<KanjiInfoView> {
    entries.map_values(|k: &KanjiInfo| k@)
}

/// Some entry of `entries` is about `kanji`.
pub open spec fn knows(entries: Seq<KanjiInfoView>, kanji: Seq<char>) -> bool {
    exists|i: int| 0 <= i < entries.len() && (#[trigger] entries[i]).kanji == kanji
}

/// Where the first entry about `kanji` stands in `entries`.
pub open spec fn first_entry(entries: Seq<KanjiInfoView>, kanji: Seq<char>) -> int {
    choose|i: int|
        0 <= i < entries.len() && (#[trigger] entries[i]).kanji == kanji && forall|k: int|
            0 <= k < i ==> (#[trigger] entries[k]).kanji != kanji
}

/// The reason given when the reference has no entry about `kanji`.
pub open spec fn unknown_kanji_reason(kanji: Seq<char>) -> Seq<char> {
    "Kanji not found: "@ + kanji
}

/// Whether `error` is the error of a look-up of `kanji` that found nothing:
/// a `KradfileError` whose reason names the kanji.
pub open spec fn is_unknown_kanji(error: KeikakuError, kanji: Seq<char>) -> bool {
    error matches KeikakuError::KradfileError { reason } && reason@ == unknown_kanji_reason(kanji)
}

/// The entries of `entries` that belong to `level`, in their order.
pub open spec fn of_level(entries: Seq<KanjiInfoView>, level: JapaneseLevel) -> Seq<KanjiInfoView> {
    entries.filter(|k: KanjiInfoView| k.jlpt == level)
}

/// The kanji reference.
#[derive(Debug, PartialEq, Eq)]
pub struct KanjiDictionary {
    entries: Vec<KanjiInfo>,
}

impl View for KanjiDictionary {
    type V = Seq<KanjiInfoView>;

    closed spec fn view(&self) -> Seq<KanjiInfoView> {
        kanji_views(self.entries@)
    }
}

impl KanjiDictionary {
    pub fn new(entries: Vec<KanjiInfo>) -> (dictionary: KanjiDictionary)
        ensures
            dictionary@ == kanji_views(entries@),
    {
        KanjiDictionary { entries }
    }

    /// The first entry about `kanji`.
    ///
    /// Fails with `KradfileError` when the reference has no entry about it;
    /// the reason then names the kanji.
    pub fn get_kanji_info(&self, kanji: &str) -> (found: Result<&KanjiInfo, KeikakuError>)
        ensures
            knows(self@, kanji@) ==> (found matches Ok(info) && info@ == self@[first_entry(
                self@,
                kanji@,
            )]),
            !knows(self@, kanji@) ==> (found matches Err(error) && is_unknown_kanji(
                error,
                kanji@,
            )),
    {
        let wanted = String::from_str(kanji);
        let mut i: usize = 0;
        while i < self.entries.len()
            invariant
                i <= self.entries.len(),
                wanted@ == kanji@,
                forall|k: int| 0 <= k < i ==> (#[trigger] self@[k]).kanji != kanji@,
            decreases self.entries.len() - i,
        {
            assert(self@[i as int] == self.entries[i as int]@);
            if self.entries[i].kanji == wanted {
                proof {
                    let j = first_entry(self@, kanji@);
                    if j < i {
                        assert(self@[j].kanji != kanji@);
                    }
                    assert(j == i);
                }
                return Ok(&self.entries[i]);
            }
            i = i + 1;
        }
        let mut reason = String::from_str("Kanji not found: ");
        reason.append(kanji);
        Err(KeikakuError::KradfileError { reason })
    }

    /// The entries of the level `level`, in the order of the reference.
    pub fn get_kanji_list(&self, level: &JapaneseLevel) -> (list: Vec<&KanjiInfo>)
        ensures
            borrowed_kanji_views(list@) == of_level(self@, *level),
    {
        let ghost wanted = |k: KanjiInfoView| k.jlpt == *level;
        let mut list: Vec<&KanjiInfo> = Vec::new();
        let mut i: usize = 0;
        proof {
            reveal(Seq::filter);
            assert(self@.take(0) =~= Seq::<KanjiInfoView>::empty());
            assert(borrowed_kanji_views(list@) =~= Seq::<KanjiInfoView>::empty());
        }
        while i < self.entries.len()
            invariant
                i <= self.entries.len(),
                wanted == (|k: KanjiInfoView| k.jlpt == *level),
                borrowed_kanji_views(list@) == self@.take(i as int).filter(wanted),
            decreases self.entries.len() - i,
        {
            proof {
                reveal(Seq::filter);
                assert(self@[i as int] == self.entries[i as int]@);
                assert(self@.take(i + 1).drop_last() == self@.take(i as int));
                assert(self@.take(i + 1).last() == self@[i as int]);
            }
            let ghost before = list@;
            if self.entries[i].jlpt == *level {
                list.push(&self.entries[i]);
                assert(borrowed_kanji_views(list@) =~= borrowed_kanji_views(before).push(
                    self@[i as int],
                ));
            }
            i = i + 1;
        }
        assert(self@.take(self.entries.len() as int) == self@);
        list
    }
}

} // verus!
