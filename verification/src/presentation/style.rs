//! How figures and choices are dressed: colours, stars, class names and
//! labels.

use vstd::prelude::*;
use vstd::string::StringExecFns;

verus! {

/// The colour of a difficulty given in percent: green up to 20, then light
/// green, yellow, light red, and dark red up to 100; grey beyond.
pub open spec fn difficulty_color_of(difficulty: u32) -> Seq<char> {
    if difficulty <= 20 {
        "#5a8c5a"@
    } else if difficulty <= 40 {
        "#66a182"@
    } else if difficulty <= 60 {
        "#b08d57"@
    } else if difficulty <= 80 {
        "#b85450"@
    } else if difficulty <= 100 {
        "#8b2635"@
    } else {
        "#666666"@
    }
}

pub fn get_difficulty_color(difficulty: u32) -> (color: &'static str)
    ensures
        color@ == difficulty_color_of(difficulty),
{
    if difficulty <= 20 {
        "#5a8c5a"
    } else if difficulty <= 40 {
        "#66a182"
    } else if difficulty <= 60 {
        "#b08d57"
    } else if difficulty <= 80 {
        "#b85450"
    } else if difficulty <= 100 {
        "#8b2635"
    } else {
        "#666666"
    }
}

/// The colour of a stability given in percent: red up to 20, then yellow,
/// blue, light green, and green up to 100; grey beyond.
pub open spec fn stability_color_of(stability: u32) -> Seq<char> {
    if stability <= 20 {
        "#b85450"@
    } else if stability <= 40 {
        "#b08d57"@
    } else if stability <= 60 {
        "#4a6fa5"@
    } else if stability <= 80 {
        "#66a182"@
    } else if stability <= 100 {
        "#5a8c5a"@
    } else {
        "#666666"@
    }
}

pub fn get_stability_color(stability: u32) -> (color: &'static str)
    ensures
        color@ == stability_color_of(stability),
{
    if stability <= 20 {
        "#b85450"
    } else if stability <= 40 {
        "#b08d57"
    } else if stability <= 60 {
        "#4a6fa5"
    } else if stability <= 80 {
        "#66a182"
    } else if stability <= 100 {
        "#5a8c5a"
    } else {
        "#666666"
    }
}

/// One star for each started fifth of a difficulty given in percent, one at
/// least and five at most.
pub open spec fn star_count(difficulty: u32) -> nat {
    if difficulty <= 20 {
        1
    } else if difficulty <= 40 {
        2
    } else if difficulty <= 60 {
        3
    } else if difficulty <= 80 {
        4
    } else {
        5
    }
}

/// `count` stars in a row.
pub open spec fn stars(count: nat) -> Seq<char> {
    Seq::new(count, |i: int| '⭐')
}

pub fn render_difficulty_stars(difficulty: u32) -> (text: String)
    ensures
        text@ == stars(star_count(difficulty)),
{
    let count: u8 = if difficulty <= 20 {
        1
    } else if difficulty <= 40 {
        2
    } else if difficulty <= 60 {
        3
    } else if difficulty <= 80 {
        4
    } else {
        5
    };
    proof {
        reveal_strlit("⭐");
    }
    let mut text = String::new();
    let mut i: u8 = 0;
    while i < count
        invariant
            i <= count,
            text@ == stars(i as nat),
            "⭐"@ == seq!['⭐'],
        decreases count - i,
    {
        text.append("⭐");
        i = i + 1;
        assert(text@ =~= stars(i as nat));
    }
    text
}

/// A level of the JLPT as the filters show it.
#[derive(Debug, Clone, Copy, PartialEq, Eq, Hash, Structural)]
pub enum JlptLevel {
    N5,
    N4,
    N3,
    N2,
    N1,
}

impl JlptLevel {
    pub open spec fn name(self) -> Seq<char> {
        match self {
            JlptLevel::N5 => "N5"@,
            JlptLevel::N4 => "N4"@,
            JlptLevel::N3 => "N3"@,
            JlptLevel::N2 => "N2"@,
            JlptLevel::N1 => "N1"@,
        }
    }

    pub open spec fn description_text(self) -> Seq<char> {
        match self {
            JlptLevel::N5 => "Базовый уровень (самый простой)"@,
            JlptLevel::N4 => "Начальный уровень"@,
            JlptLevel::N3 => "Средний уровень"@,
            JlptLevel::N2 => "Продвинутый уровень"@,
            JlptLevel::N1 => "Экспертный уровень (самый сложный)"@,
        }
    }

    pub open spec fn color(self) -> Seq<char> {
        match self {
            JlptLevel::N5 => "#5a8c5a"@,
            JlptLevel::N4 => "#66a182"@,
            JlptLevel::N3 => "#b08d57"@,
            JlptLevel::N2 => "#b85450"@,
            JlptLevel::N1 => "#8b2635"@,
        }
    }

    /// The level a name stands for, if it is the name of a level.
    pub open spec fn named(text: Seq<char>) -> Option<JlptLevel> {
        if text == "N5"@ {
            Some(JlptLevel::N5)
        } else if text == "N4"@ {
            Some(JlptLevel::N4)
        } else if text == "N3"@ {
            Some(JlptLevel::N3)
        } else if text == "N2"@ {
            Some(JlptLevel::N2)
        } else if text == "N1"@ {
            Some(JlptLevel::N1)
        } else {
            None
        }
    }

    /// All levels, from the easiest to the hardest.
    pub fn all_levels() -> (levels: [JlptLevel; 5])
        ensures
            levels@ == seq![
                JlptLevel::N5,
                JlptLevel::N4,
                JlptLevel::N3,
                JlptLevel::N2,
                JlptLevel::N1,
            ],
    {
        [JlptLevel::N5, JlptLevel::N4, JlptLevel::N3, JlptLevel::N2, JlptLevel::N1]
    }

    pub fn to_string(&self) -> (name: &'static str)
        ensures
            name@ == self.name(),
    {
        match self {
            JlptLevel::N5 => "N5",
            JlptLevel::N4 => "N4",
            JlptLevel::N3 => "N3",
            JlptLevel::N2 => "N2",
            JlptLevel::N1 => "N1",
        }
    }

    pub fn description(&self) -> (description: &'static str)
        ensures
            description@ == self.description_text(),
    {
        match self {
            JlptLevel::N5 => "Базовый уровень (самый простой)",
            JlptLevel::N4 => "Начальный уровень",
            JlptLevel::N3 => "Средний уровень",
            JlptLevel::N2 => "Продвинутый уровень",
            JlptLevel::N1 => "Экспертный уровень (самый сложный)",
        }
    }

    pub fn difficulty_color(&self) -> (color: &'static str)
        ensures
            color@ == self.color(),
    {
        match self {
            JlptLevel::N5 => "#5a8c5a",
            JlptLevel::N4 => "#66a182",
            JlptLevel::N3 => "#b08d57",
            JlptLevel::N2 => "#b85450",
            JlptLevel::N1 => "#8b2635",
        }
    }

    /// Reads the name of a level; anything else is refused.
    pub fn from_str(s: &str) -> (level: Result<JlptLevel, ()>)
        ensures
            match Self::named(s@) {
                Some(named) => level == Ok::<JlptLevel, ()>(named),
                None => level is Err,
            },
    {
        let text = String::from_str(s);
        if text == String::from_str("N5") {
            Ok(JlptLevel::N5)
        } else if text == String::from_str("N4") {
            Ok(JlptLevel::N4)
        } else if text == String::from_str("N3") {
            Ok(JlptLevel::N3)
        } else if text == String::from_str("N2") {
            Ok(JlptLevel::N2)
        } else if text == String::from_str("N1") {
            Ok(JlptLevel::N1)
        } else {
            Err(())
        }
    }
}

/// Reading the name of a level gives the level back.
pub proof fn law_level_name_round_trip(level: JlptLevel)
    ensures
        JlptLevel::named(level.name()) == Some(level),
{
    reveal_strlit("N5");
    reveal_strlit("N4");
    reveal_strlit("N3");
    reveal_strlit("N2");
    reveal_strlit("N1");
    assert("N5"@[1] != "N4"@[1]);
    assert("N5"@[1] != "N3"@[1]);
    assert("N5"@[1] != "N2"@[1]);
    assert("N5"@[1] != "N1"@[1]);
    assert("N4"@[1] != "N3"@[1]);
    assert("N4"@[1] != "N2"@[1]);
    assert("N4"@[1] != "N1"@[1]);
    assert("N3"@[1] != "N2"@[1]);
    assert("N3"@[1] != "N1"@[1]);
    assert("N2"@[1] != "N1"@[1]);
}

pub fn level_to_color(level: JlptLevel) -> (color: &'static str)
    ensures
        color@ == level.color(),
{
    level.difficulty_color()
}

/// How large a dialog is.
#[derive(Debug, Clone, Copy, PartialEq, Eq, Structural)]
pub enum ModalSize {
    Small,
    Medium,
    Large,
    Full,
}

impl ModalSize {
    pub open spec fn class(self) -> Seq<char> {
        match self {
            ModalSize::Small => "modal-small"@,
            ModalSize::Medium => "modal-medium"@,
            ModalSize::Large => "modal-large"@,
            ModalSize::Full => "modal-full"@,
        }
    }

    pub fn to_class(&self) -> (class: &'static str)
        ensures
            class@ == self.class(),
    {
        match self {
            ModalSize::Small => "modal-small",
            ModalSize::Medium => "modal-medium",
            ModalSize::Large => "modal-large",
            ModalSize::Full => "modal-full",
        }
    }
}

/// The corner a floating button sits in.
#[derive(Debug, Clone, Copy, PartialEq, Eq, Structural)]
pub enum FloatingPosition {
    BottomRight,
    BottomLeft,
    TopRight,
    TopLeft,
}

impl FloatingPosition {
    pub open spec fn class(self) -> Seq<char> {
        match self {
            FloatingPosition::BottomRight => "floating-bottom-right"@,
            FloatingPosition::BottomLeft => "floating-bottom-left"@,
            FloatingPosition::TopRight => "floating-top-right"@,
            FloatingPosition::TopLeft => "floating-top-left"@,
        }
    }

    pub fn to_class(&self) -> (class: &'static str)
        ensures
            class@ == self.class(),
    {
        match self {
            FloatingPosition::BottomRight => "floating-bottom-right",
            FloatingPosition::BottomLeft => "floating-bottom-left",
            FloatingPosition::TopRight => "floating-top-right",
            FloatingPosition::TopLeft => "floating-top-left",
        }
    }
}

/// The look of a floating button.
#[derive(Debug, Clone, Copy, PartialEq, Eq, Structural)]
pub enum FabVariant {
    Primary,
    Secondary,
    Success,
    Error,
}

impl FabVariant {
    pub open spec fn class(self) -> Seq<char> {
        match self {
            FabVariant::Primary => "fab-primary"@,
            FabVariant::Secondary => "fab-secondary"@,
            FabVariant::Success => "fab-success"@,
            FabVariant::Error => "fab-error"@,
        }
    }

    pub fn to_class(&self) -> (class: &'static str)
        ensures
            class@ == self.class(),
    {
        match self {
            FabVariant::Primary => "fab-primary",
            FabVariant::Secondary => "fab-secondary",
            FabVariant::Success => "fab-success",
            FabVariant::Error => "fab-error",
        }
    }
}

/// The look of the button that leads to the next card.
#[derive(Debug, Clone, Copy, PartialEq, Eq, Structural)]
pub enum NextVariant {
    Primary,
    Secondary,
    Success,
    Warning,
}

impl Default for NextVariant {
    fn default() -> (variant: NextVariant)
        ensures
            variant == NextVariant::Primary,
    {
        NextVariant::Primary
    }
}

impl NextVariant {
    pub open spec fn class(self) -> Seq<char> {
        match self {
            NextVariant::Primary => "next-primary"@,
            NextVariant::Secondary => "next-secondary"@,
            NextVariant::Success => "next-success"@,
            NextVariant::Warning => "next-warning"@,
        }
    }

    pub fn to_class(&self) -> (class: &'static str)
        ensures
            class@ == self.class(),
    {
        match self {
            NextVariant::Primary => "next-primary",
            NextVariant::Secondary => "next-secondary",
            NextVariant::Success => "next-success",
            NextVariant::Warning => "next-warning",
        }
    }
}

/// The mood in which a state is shown.
#[derive(Debug, Clone, Copy, PartialEq, Eq, Structural)]
pub enum StateTone {
    Neutral,
    Info,
    Success,
    Warning,
}

/// Where an import stands.
#[derive(Debug, PartialEq, Eq)]
pub enum OperationStatus {
    Idle,
    Loading,
    Success(String),
    Error(String),
}

impl OperationStatus {
    pub open spec fn pill_text(self) -> Seq<char> {
        match self {
            OperationStatus::Idle => "Готово"@,
            OperationStatus::Loading => "Выполняется..."@,
            OperationStatus::Success(message) => "Успешно: "@ + message@,
            OperationStatus::Error(message) => "Ошибка: "@ + message@,
        }
    }

    pub open spec fn tone(self) -> StateTone {
        match self {
            OperationStatus::Idle => StateTone::Neutral,
            OperationStatus::Loading => StateTone::Info,
            OperationStatus::Success(_) => StateTone::Success,
            OperationStatus::Error(_) => StateTone::Warning,
        }
    }

    pub fn to_pill_text(&self) -> (text: String)
        ensures
            text@ == self.pill_text(),
    {
        match self {
            OperationStatus::Idle => String::from_str("Готово"),
            OperationStatus::Loading => String::from_str("Выполняется..."),
            OperationStatus::Success(message) => {
                let mut text = String::from_str("Успешно: ");
                text.append(message.as_str());
                text
            },
            OperationStatus::Error(message) => {
                let mut text = String::from_str("Ошибка: ");
                text.append(message.as_str());
                text
            },
        }
    }

    pub fn to_tone(&self) -> (tone: StateTone)
        ensures
            tone == self.tone(),
    {
        match self {
            OperationStatus::Idle => StateTone::Neutral,
            OperationStatus::Loading => StateTone::Info,
            OperationStatus::Success(_) => StateTone::Success,
            OperationStatus::Error(_) => StateTone::Warning,
        }
    }
}

/// A choice in a row of chips.
#[derive(Debug, PartialEq, Eq)]
pub struct ChipItem {
    pub id: String,
    pub label: String,
    pub count: Option<u32>,
    pub active: bool,
    pub color: &'static str,
    pub icon: Option<String>,
    pub class: Option<&'static str>,
}

impl ChipItem {
    /// A chip that is not chosen, without count, icon or class.
    pub fn new(id: &str, label: &str, color: &'static str) -> (chip: ChipItem)
        ensures
            chip.id@ == id@,
            chip.label@ == label@,
            chip.count is None,
            !chip.active,
            chip.color@ == color@,
            chip.icon is None,
            chip.class is None,
    {
        ChipItem {
            id: String::from_str(id),
            label: String::from_str(label),
            count: None,
            active: false,
            color,
            icon: None,
            class: None,
        }
    }

    pub fn with_count(self, count: u32) -> (chip: ChipItem)
        ensures
            chip == (ChipItem { count: Some(count), ..self }),
    {
        let mut chip = self;
        chip.count = Some(count);
        chip
    }

    pub fn with_icon(self, icon: String) -> (chip: ChipItem)
        ensures
            chip == (ChipItem { icon: Some(icon), ..self }),
    {
        let mut chip = self;
        chip.icon = Some(icon);
        chip
    }

    pub fn with_class(self, class: &'static str) -> (chip: ChipItem)
        ensures
            chip == (ChipItem { class: Some(class), ..self }),
    {
        let mut chip = self;
        chip.class = Some(class);
        chip
    }

    pub fn active(self, active: bool) -> (chip: ChipItem)
        ensures
            chip == (ChipItem { active, ..self }),
    {
        let mut chip = self;
        chip.active = active;
        chip
    }
}

/// A filter offered under a search bar.
#[derive(Debug, PartialEq, Eq)]
pub struct FilterChip {
    pub value: String,
    pub label: String,
    pub icon: &'static str,
    pub count: Option<u32>,
}

impl FilterChip {
    pub fn new(value: &str, label: &str, icon: &'static str) -> (chip: FilterChip)
        ensures
            chip.value@ == value@,
            chip.label@ == label@,
            chip.icon@ == icon@,
            chip.count is None,
    {
        FilterChip {
            value: String::from_str(value),
            label: String::from_str(label),
            icon,
            count: None,
        }
    }

    pub fn with_count(self, count: u32) -> (chip: FilterChip)
        ensures
            chip == (FilterChip { count: Some(count), ..self }),
    {
        let mut chip = self;
        chip.count = Some(count);
        chip
    }
}

/// How far off a review is, as a card says it.
#[derive(Debug, Clone, Copy, PartialEq, Eq, Structural)]
pub enum ReviewDue {
    /// Due on this day.
    Today,
    /// Due on the next day.
    Tomorrow,
    /// Due in two to seven days.
    InDays { days: i64 },
    /// Due in eight to thirty days.
    InManyDays { days: i64 },
    /// Due in thirty-one days to a year, told in months of thirty days.
    InMonths { months: i64 },
    /// Overdue, or due in more than a year: told by its date.
    OnDate,
}

/// How a review that is due `days` days from today is told.
pub open spec fn review_due_of(days: i64) -> ReviewDue {
    if days == 0 {
        ReviewDue::Today
    } else if days == 1 {
        ReviewDue::Tomorrow
    } else if 2 <= days <= 7 {
        ReviewDue::InDays { days }
    } else if 8 <= days <= 30 {
        ReviewDue::InManyDays { days }
    } else if 31 <= days <= 365 {
        ReviewDue::InMonths { months: (days / 30) as i64 }
    } else {
        ReviewDue::OnDate
    }
}

pub fn review_due(days: i64) -> (due: ReviewDue)
    ensures
        due == review_due_of(days),
{
    if days == 0 {
        ReviewDue::Today
    } else if days == 1 {
        ReviewDue::Tomorrow
    } else if 2 <= days && days <= 7 {
        ReviewDue::InDays { days }
    } else if 8 <= days && days <= 30 {
        ReviewDue::InManyDays { days }
    } else if 31 <= days && days <= 365 {
        ReviewDue::InMonths { months: days / 30 }
    } else {
        ReviewDue::OnDate
    }
}

/// How large a round progress indicator is.
#[derive(Debug, Clone, Copy, PartialEq, Eq, Structural)]
pub enum CircularSize {
    Small,
    Medium,
    Large,
}

impl Default for CircularSize {
    fn default() -> (size: CircularSize)
        ensures
            size == CircularSize::Medium,
    {
        CircularSize::Medium
    }
}

/// What an input field takes.
#[derive(Debug, Clone, Copy, PartialEq, Eq, Structural)]
pub enum InputType {
    Text,
    Email,
    Password,
    Number,
    Tel,
    Url,
}

impl Default for InputType {
    fn default() -> (input: InputType)
        ensures
            input == InputType::Text,
    {
        InputType::Text
    }
}

/// Which kind of study a button starts.
#[derive(Debug, Clone, Copy, PartialEq, Eq, Structural)]
pub enum StudyButtonType {
    Lesson,
    Fixation,
}

} // verus!
