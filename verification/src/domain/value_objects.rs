//! Small validated values: the two sides of a card, and the learner's levels.

use vstd::prelude::*;
use vstd::string::StringExecFns;
use crate::domain::error::KeikakuError;

verus! {

/// The side of a card that is shown first. Never empty.
///
/// Two questions are the same question when their text is the same, character
/// for character.
#[derive(Debug, PartialEq, Eq)]
pub struct Question {
    text: String,
}

impl View for Question {
    type V = Seq<char>;

    closed spec fn view(&self) -> Seq<char> {
        self.text@
    }
}

impl Clone for Question {
    fn clone(&self) -> (copy: Question)
        ensures
            copy@ == self@,
            copy.wf(),
    {
        proof {
            use_type_invariant(self);
        }
        Question { text: self.text.clone() }
    }
}

impl Question {
    /// Whether `text` can be a question.
    pub open spec fn valid(text: Seq<char>) -> bool {
        text.len() > 0
    }

    /// What holds of every question there is: its text is not empty.
    pub open spec fn wf(&self) -> bool {
        Self::valid(self@)
    }

    /// The invariant of the type: no question is ever built, or left, with an
    /// empty text.
    #[verifier::type_invariant]
    pub closed spec fn text_is_not_empty(&self) -> bool {
        self.text@.len() > 0
    }

    /// What the invariant says in terms of the view.
    pub proof fn lemma_invariant_is_wf(&self)
        requires
            self.text_is_not_empty(),
        ensures
            self.wf(),
    {
    }

    /// Accepts any text but the empty one.
    pub fn new(text: String) -> (made: Result<Question, KeikakuError>)
        ensures
            Self::valid(text@) ==> (made matches Ok(q) && q@ == text@ && q.wf()),
            !Self::valid(text@) ==> (made matches Err(KeikakuError::InvalidQuestion { reason })
                && reason@ == "question must not be empty"@),
    {
        if text.as_str().is_empty() {
            Err(
                KeikakuError::InvalidQuestion {
                    reason: String::from_str("question must not be empty"),
                },
            )
        } else {
            Ok(Question { text })
        }
    }

    /// The text, which is never empty.
    pub fn text(&self) -> (text: &str)
        ensures
            text@ == self@,
            text@.len() > 0,
            self.wf(),
    {
        proof {
            use_type_invariant(self);
        }
        self.text.as_str()
    }

    /// Whether both are the same question.
    pub fn same_as(&self, other: &Question) -> (same: bool)
        ensures
            same == (self@ == other@),
    {
        self.text == other.text
    }
}

/// The side of a card that is revealed. Never empty.
#[derive(Debug, PartialEq, Eq)]
pub struct Answer {
    text: String,
}

impl View for Answer {
    type V = Seq<char>;

    closed spec fn view(&self) -> Seq<char> {
        self.text@
    }
}

impl Clone for Answer {
    fn clone(&self) -> (copy: Answer)
        ensures
            copy@ == self@,
            copy.wf(),
    {
        proof {
            use_type_invariant(self);
        }
        Answer { text: self.text.clone() }
    }
}

impl Answer {
    /// Whether `text` can be an answer.
    pub open spec fn valid(text: Seq<char>) -> bool {
        text.len() > 0
    }

    /// What holds of every answer there is: its text is not empty.
    pub open spec fn wf(&self) -> bool {
        Self::valid(self@)
    }

    /// The invariant of the type: no answer is ever built, or left, with an
    /// empty text.
    #[verifier::type_invariant]
    pub closed spec fn text_is_not_empty(&self) -> bool {
        self.text@.len() > 0
    }

    /// What the invariant says in terms of the view.
    pub proof fn lemma_invariant_is_wf(&self)
        requires
            self.text_is_not_empty(),
        ensures
            self.wf(),
    {
    }

    /// Accepts any text but the empty one.
    pub fn new(text: String) -> (made: Result<Answer, KeikakuError>)
        ensures
            Self::valid(text@) ==> (made matches Ok(a) && a@ == text@ && a.wf()),
            !Self::valid(text@) ==> (made matches Err(KeikakuError::InvalidAnswer { reason })
                && reason@ == "answer must not be empty"@),
    {
        if text.as_str().is_empty() {
            Err(
                KeikakuError::InvalidAnswer {
                    reason: String::from_str("answer must not be empty"),
                },
            )
        } else {
            Ok(Answer { text })
        }
    }

    /// The text, which is never empty.
    pub fn text(&self) -> (text: &str)
        ensures
            text@ == self@,
            text@.len() > 0,
            self.wf(),
    {
        proof {
            use_type_invariant(self);
        }
        self.text.as_str()
    }
}

/// A level of the Japanese-Language Proficiency Test, from the easiest, N5,
/// to the hardest, N1.
#[derive(Debug, Clone, Copy, PartialEq, Eq, Hash, Structural)]
pub enum JapaneseLevel {
    N5,
    N4,
    N3,
    N2,
    N1,
}

impl JapaneseLevel {
    /// The level's number: 5 for N5 down to 1 for N1.
    pub open spec fn number_spec(&self) -> u8 {
        match self {
            JapaneseLevel::N5 => 5,
            JapaneseLevel::N4 => 4,
            JapaneseLevel::N3 => 3,
            JapaneseLevel::N2 => 2,
            JapaneseLevel::N1 => 1,
        }
    }

    #[verifier::when_used_as_spec(number_spec)]
    pub fn number(&self) -> (number: u8)
        ensures
            number == self.number_spec(),
    {
        match self {
            JapaneseLevel::N5 => 5,
            JapaneseLevel::N4 => 4,
            JapaneseLevel::N3 => 3,
            JapaneseLevel::N2 => 2,
            JapaneseLevel::N1 => 1,
        }
    }
}

/// The language in which meanings and explanations are given.
#[derive(Debug, Clone, Copy, PartialEq, Eq, Hash, Structural)]
pub enum NativeLanguage {
    English,
    Russian,
}

} // verus!
