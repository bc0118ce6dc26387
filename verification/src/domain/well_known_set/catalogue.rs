//! The names of the word lists that come with the application.

use vstd::prelude::*;
use crate::domain::value_objects::JapaneseLevel;

verus! {

/// The name of a word list: the JLPT list of a level, or one lesson of the
/// Migii course of a level. Lessons are numbered from 1.
#[derive(Debug, Clone, Copy, PartialEq, Eq, Hash, Structural)]
pub enum WellKnownSets {
    Jlpt { level: JapaneseLevel },
    Migii { level: JapaneseLevel, lesson: u8 },
}

/// How many lessons the Migii course of `level` has.
pub open spec fn migii_lessons(level: JapaneseLevel) -> u8 {
    match level {
        JapaneseLevel::N5 => 20,
        JapaneseLevel::N4 => 11,
        JapaneseLevel::N3 => 31,
        JapaneseLevel::N2 => 30,
        JapaneseLevel::N1 => 56,
    }
}

/// The five JLPT lists, from the easiest level to the hardest.
pub open spec fn jlpt_sets() -> Seq<WellKnownSets> {
    seq![
        WellKnownSets::Jlpt { level: JapaneseLevel::N5 },
        WellKnownSets::Jlpt { level: JapaneseLevel::N4 },
        WellKnownSets::Jlpt { level: JapaneseLevel::N3 },
        WellKnownSets::Jlpt { level: JapaneseLevel::N2 },
        WellKnownSets::Jlpt { level: JapaneseLevel::N1 },
    ]
}

/// The lessons of the Migii course of `level`, in order.
pub open spec fn migii_sets(level: JapaneseLevel) -> Seq<WellKnownSets> {
    Seq::new(
        migii_lessons(level) as nat,
        |i: int| WellKnownSets::Migii { level, lesson: (i + 1) as u8 },
    )
}

/// Every word list there is: the JLPT lists, then the Migii lessons, each
/// from the easiest level to the hardest.
pub open spec fn all_sets() -> Seq<WellKnownSets> {
    jlpt_sets() + migii_sets(JapaneseLevel::N5) + migii_sets(JapaneseLevel::N4) + migii_sets(
        JapaneseLevel::N3,
    ) + migii_sets(JapaneseLevel::N2) + migii_sets(JapaneseLevel::N1)
}

impl WellKnownSets {
    /// The name stands for a list that exists.
    pub open spec fn is_offered_spec(&self) -> bool {
        match self {
            WellKnownSets::Jlpt { .. } => true,
            WellKnownSets::Migii { level, lesson } => 1 <= *lesson <= migii_lessons(*level),
        }
    }

    /// The level of the list.
    pub open spec fn level_spec(&self) -> JapaneseLevel {
        match self {
            WellKnownSets::Jlpt { level } => *level,
            WellKnownSets::Migii { level, .. } => *level,
        }
    }

    #[verifier::when_used_as_spec(is_offered_spec)]
    pub fn is_offered(&self) -> (yes: bool)
        ensures
            yes == self.is_offered_spec(),
    {
        match self {
            WellKnownSets::Jlpt { .. } => true,
            WellKnownSets::Migii { level, lesson } => 1 <= *lesson && *lesson <= migii_lesson_count(
                *level,
            ),
        }
    }

    #[verifier::when_used_as_spec(level_spec)]
    pub fn level(&self) -> (level: JapaneseLevel)
        ensures
            level == self.level_spec(),
    {
        match self {
            WellKnownSets::Jlpt { level } => *level,
            WellKnownSets::Migii { level, .. } => *level,
        }
    }
}

/// How many lessons the Migii course of `level` has.
pub fn migii_lesson_count(level: JapaneseLevel) -> (count: u8)
    ensures
        count == migii_lessons(level),
{
    match level {
        JapaneseLevel::N5 => 20,
        JapaneseLevel::N4 => 11,
        JapaneseLevel::N3 => 31,
        JapaneseLevel::N2 => 30,
        JapaneseLevel::N1 => 56,
    }
}

fn push_migii_sets(sets: &mut Vec<WellKnownSets>, level: JapaneseLevel)
    ensures
        final(sets)@ == old(sets)@ + migii_sets(level),
{
    let count = migii_lesson_count(level);
    let ghost before = sets@;
    let mut lesson: u8 = 0;
    while lesson < count
        invariant
            lesson <= count,
            count == migii_lessons(level),
            sets@ == before + migii_sets(level).take(lesson as int),
        decreases count - lesson,
    {
        lesson = lesson + 1;
        sets.push(WellKnownSets::Migii { level, lesson });
        assert(migii_sets(level).take(lesson as int) == migii_sets(level).take(lesson - 1).push(
            WellKnownSets::Migii { level, lesson },
        ));
    }
    assert(migii_sets(level).take(count as int) == migii_sets(level));
}

/// Every word list there is, in the order in which they are offered.
pub fn get_all_sets() -> (sets: Vec<WellKnownSets>)
    ensures
        sets@ == all_sets(),
{
    let mut sets: Vec<WellKnownSets> = Vec::new();
    sets.push(WellKnownSets::Jlpt { level: JapaneseLevel::N5 });
    sets.push(WellKnownSets::Jlpt { level: JapaneseLevel::N4 });
    sets.push(WellKnownSets::Jlpt { level: JapaneseLevel::N3 });
    sets.push(WellKnownSets::Jlpt { level: JapaneseLevel::N2 });
    sets.push(WellKnownSets::Jlpt { level: JapaneseLevel::N1 });
    assert(sets@ == jlpt_sets());
    push_migii_sets(&mut sets, JapaneseLevel::N5);
    push_migii_sets(&mut sets, JapaneseLevel::N4);
    push_migii_sets(&mut sets, JapaneseLevel::N3);
    push_migii_sets(&mut sets, JapaneseLevel::N2);
    push_migii_sets(&mut sets, JapaneseLevel::N1);
    sets
}

/// There are 153 word lists, each of them exists, and none is listed twice.
pub proof fn law_all_sets_complete()
    ensures
        all_sets().len() == 153,
        forall|i: int| 0 <= i < all_sets().len() ==> (#[trigger] all_sets()[i]).is_offered_spec(),
        all_sets().no_duplicates(),
        forall|set: WellKnownSets| set.is_offered_spec() ==> all_sets().contains(set),
{
    let n5 = migii_sets(JapaneseLevel::N5);
    let n4 = migii_sets(JapaneseLevel::N4);
    let n3 = migii_sets(JapaneseLevel::N3);
    let n2 = migii_sets(JapaneseLevel::N2);
    let n1 = migii_sets(JapaneseLevel::N1);
    let all = all_sets();
    assert(all.len() == 153);
    assert forall|i: int| 0 <= i < all.len() implies #[trigger] all[i] == (if i < 5 {
        jlpt_sets()[i]
    } else if i < 25 {
        n5[i - 5]
    } else if i < 36 {
        n4[i - 25]
    } else if i < 67 {
        n3[i - 36]
    } else if i < 97 {
        n2[i - 67]
    } else {
        n1[i - 97]
    }) by {}
    assert forall|i: int, j: int| 0 <= i < j < all.len() implies all[i] != all[j] by {}
    assert forall|set: WellKnownSets| set.is_offered_spec() implies all.contains(set) by {
        match set {
            WellKnownSets::Jlpt { level } => {
                let i: int = 5 - level.number_spec();
                assert(all[i] == set);
            },
            WellKnownSets::Migii { level, lesson } => {
                let base: int = match level {
                    JapaneseLevel::N5 => 5,
                    JapaneseLevel::N4 => 25,
                    JapaneseLevel::N3 => 36,
                    JapaneseLevel::N2 => 67,
                    JapaneseLevel::N1 => 97,
                };
                assert(all[base + lesson - 1] == set);
            },
        }
    }
}

} // verus!
