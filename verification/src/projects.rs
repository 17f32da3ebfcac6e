//! Projects, and the builder that makes them.

use crate::allocation::{Allocation, AllocationView, DEFAULT_LENGTH_DAYS};
use crate::date::{Date, Duration};
use crate::text::{project_string, project_text};
use crate::traits::Contribution;
use vstd::prelude::*;

verus! {

/// Why a project could not be built.
#[derive(PartialEq, Eq, Debug, Structural)]
pub enum ProjectBuilderError {
    /// The project would last no time at all.
    ZeroLengthDuration,
}

impl ProjectBuilderError {
    /// The error in words.
    pub fn to_string(&self) -> (text: String)
        ensures
            text@ == "Project has no duration."@,
    {
        match self {
            ProjectBuilderError::ZeroLengthDuration => String::from_str("Project has no duration."),
        }
    }
}

/// What a project holds, and a builder while it makes one.
pub struct ProjectView {
    pub name: Seq<char>,
    pub value: nat,
    pub allocation: AllocationView,
}

impl ProjectView {
    /// What a builder holds before anything is set, and a project that is
    /// built from it: the default name and value, and a first window that
    /// the system clock has placed.
    pub open spec fn is_default(self) -> bool {
        &&& self.name == "New Project"@
        &&& self.value == 20000
        &&& self.allocation.is_default()
    }

    /// The same with the name `name`.
    pub open spec fn with_name(self, name: Seq<char>) -> ProjectView {
        ProjectView { name, ..self }
    }

    /// The same with the value `value`.
    pub open spec fn with_value(self, value: nat) -> ProjectView {
        ProjectView { value, ..self }
    }

    /// The same, moved to start on `day`: the duration stays.
    pub open spec fn with_start_date(self, day: int) -> ProjectView {
        ProjectView { allocation: self.allocation.moved_to(day), ..self }
    }

    /// The same, made to last `days` days: the start stays.
    pub open spec fn with_duration(self, days: int) -> ProjectView {
        ProjectView { allocation: self.allocation.lasting(days), ..self }
    }

    /// What the project contributes on `day`: its value while its allocation
    /// is active, nothing otherwise.
    pub open spec fn contribution_on(self, day: int) -> nat {
        if self.allocation.is_active_on(day) {
            self.value
        } else {
            0
        }
    }

    /// The project as it is written out: its name, its allocation in
    /// brackets, its value.
    pub open spec fn text(self) -> Seq<char> {
        project_text(self.name, self.allocation.text(), self.value)
    }
}

/// Constructs projects.
///
/// Every setter takes the builder and returns it with one thing changed;
/// `build` ends the chain.
#[derive(PartialEq, Debug)]
pub struct ProjectBuilder {
    allocation: Allocation,
    name: String,
    value: u32,
}

impl View for ProjectBuilder {
    type V = ProjectView;

    closed spec fn view(&self) -> ProjectView {
        ProjectView { name: self.name@, value: self.value as nat, allocation: self.allocation@ }
    }
}

impl Default for ProjectBuilder {
    /// A builder for a project named `New Project`, worth 20000, that starts
    /// three weeks after the current day and lasts four weeks.
    fn default() -> (builder: ProjectBuilder)
        ensures
            builder@.is_default(),
    {
        ProjectBuilder {
            allocation: Allocation::default(),
            name: String::from_str("New Project"),
            value: 20000,
        }
    }
}

impl ProjectBuilder {
    /// Sets the day on which the project starts. The project lasts as long
    /// as before, so its end moves with its start.
    pub fn start_date(self, date: &Date) -> (builder: ProjectBuilder)
        requires
            i32::MIN <= date@ + self@.allocation.duration() <= i32::MAX,
        ensures
            builder@ == self@.with_start_date(date@),
            builder@.allocation.duration() == self@.allocation.duration(),
    {
        let mut builder = self;
        let duration = builder.allocation.duration();
        builder.allocation = Allocation { start_date: *date, end_date: date.plus(&duration) };
        builder
    }

    /// Sets the project's value.
    pub fn value(self, value: u32) -> (builder: ProjectBuilder)
        ensures
            builder@ == self@.with_value(value as nat),
    {
        let mut builder = self;
        builder.value = value;
        builder
    }

    /// Sets the project's name.
    pub fn name(self, name: &str) -> (builder: ProjectBuilder)
        ensures
            builder@ == self@.with_name(name@),
    {
        let mut builder = self;
        builder.name = String::from_str(name);
        builder
    }

    /// Sets the time that the project lasts, in weeks. The project starts
    /// when it did before.
    pub fn duration_weeks(self, num_of_weeks: i64) -> (builder: ProjectBuilder)
        requires
            i32::MIN <= self@.allocation.start_date + 7 * num_of_weeks <= i32::MAX,
        ensures
            builder@ == self@.with_duration(7 * num_of_weeks),
            builder@.allocation.start_date == self@.allocation.start_date,
    {
        self.duration(&Duration::weeks(num_of_weeks))
    }

    /// Sets the time that the project lasts. The project starts when it did
    /// before, and ends that much later.
    pub fn duration(self, duration: &Duration) -> (builder: ProjectBuilder)
        requires
            i32::MIN <= self@.allocation.start_date + duration@ <= i32::MAX,
        ensures
            builder@ == self@.with_duration(duration@),
            builder@.allocation.start_date == self@.allocation.start_date,
    {
        let mut builder = self;
        let start_date = builder.allocation.start_date;
        builder.allocation = Allocation { start_date, end_date: start_date.plus(duration) };
        builder
    }

    /// Builds the project. Use at the end of the call chain.
    pub fn build(self) -> (project: Project)
        ensures
            project@ == self@,
    {
        Project { allocation: self.allocation, approx_value: self.value, name: self.name }
    }
}

/// A piece of work that may be done in the future. All its values are
/// approximate.
#[derive(PartialEq, Debug)]
pub struct Project {
    allocation: Allocation,
    pub name: String,
    approx_value: u32,
}

impl View for Project {
    type V = ProjectView;

    closed spec fn view(&self) -> ProjectView {
        ProjectView {
            name: self.name@,
            value: self.approx_value as nat,
            allocation: self.allocation@,
        }
    }
}

impl Default for Project {
    /// A project named `New Project`, worth 20000, that starts three weeks
    /// after the current day and lasts four weeks.
    fn default() -> (project: Project)
        ensures
            project@.is_default(),
    {
        Project {
            allocation: Allocation::default(),
            approx_value: 20000,
            name: String::from_str("New Project"),
        }
    }
}

impl Project {
    /// Returns the project's name, which the field `name` holds.
    pub fn name(&self) -> (name: &str)
        ensures
            name@ == self@.name,
    {
        self.name.as_str()
    }

    /// Returns the project's approximate duration.
    pub fn duration(&self) -> (span: Duration)
        ensures
            span@ == self@.allocation.duration(),
    {
        self.allocation.duration()
    }

    /// Returns the project's approximate value.
    pub fn value(&self) -> (value: u32)
        ensures
            value == self@.value,
    {
        self.approx_value
    }

    /// Returns the project's allocation.
    pub fn allocation(&self) -> (allocation: Allocation)
        ensures
            allocation@ == self@.allocation,
    {
        self.allocation
    }

    /// Whether the project's allocation lies within the calendar, so that
    /// the project can be written out.
    pub fn in_calendar(&self) -> (within: bool)
        ensures
            within == self@.allocation.in_calendar(),
    {
        self.allocation.in_calendar()
    }

    /// Writes the project out, as in
    /// `Orchard (2014-07-08UTC to 2014-07-29UTC) 20000`.
    pub fn to_string(&self) -> (text: String)
        requires
            self@.allocation.in_calendar(),
        ensures
            text@ == self@.text(),
    {
        let allocation = self.allocation.to_string();
        project_string(self.name.as_str(), allocation.as_str(), self.approx_value)
    }
}

impl Contribution for Project {
    open spec fn spec_contribution_on(&self, date: Date) -> nat {
        self@.contribution_on(date@)
    }

    /// Returns what the project contributes on a day: its value on the days
    /// on which its allocation is active, nothing on the others.
    fn get_contribution_on(&self, date: &Date) -> (amount: u32) {
        match self.allocation.is_active_on(date) {
            true => self.approx_value,
            false => 0_u32,
        }
    }
}

/// What a setter sets is what the project holds once it is built, and a
/// setter changes nothing else: the name and the value leave the rest alone,
/// a new start keeps the duration, a new duration keeps the start.
pub proof fn lemma_setters_read_back(
    held: ProjectView,
    name: Seq<char>,
    value: nat,
    day: int,
    days: int,
)
    ensures
        held.with_name(name).name == name,
        held.with_name(name).value == held.value,
        held.with_name(name).allocation == held.allocation,
        held.with_value(value).value == value,
        held.with_value(value).name == held.name,
        held.with_value(value).allocation == held.allocation,
        held.with_start_date(day).allocation.start_date == day,
        held.with_start_date(day).allocation.duration() == held.allocation.duration(),
        held.with_start_date(day).name == held.name,
        held.with_start_date(day).value == held.value,
        held.with_duration(days).allocation.duration() == days,
        held.with_duration(days).allocation.start_date == held.allocation.start_date,
        held.with_duration(days).allocation.end_date == held.allocation.start_date + days,
        held.with_duration(days).name == held.name,
        held.with_duration(days).value == held.value,
{
}

/// Where a setter is called twice, the second call decides: the builder is
/// as if the first had not been made.
pub proof fn lemma_later_setter_wins(
    held: ProjectView,
    first_name: Seq<char>,
    name: Seq<char>,
    first_value: nat,
    value: nat,
    first_day: int,
    day: int,
    first_days: int,
    days: int,
)
    ensures
        held.with_name(first_name).with_name(name) == held.with_name(name),
        held.with_value(first_value).with_value(value) == held.with_value(value),
        held.with_start_date(first_day).with_start_date(day) == held.with_start_date(day),
        held.with_duration(first_days).with_duration(days) == held.with_duration(days),
{
}

/// A builder to which nothing was given but a start builds a project that
/// lasts four weeks, whatever the system clock said and whatever the start.
pub proof fn lemma_default_duration(held: ProjectView, day: int)
    requires
        held.is_default(),
    ensures
        held.allocation.duration() == DEFAULT_LENGTH_DAYS,
        held.with_start_date(day).allocation.duration() == DEFAULT_LENGTH_DAYS,
{
}

/// A project contributes its value on the days after its start up to and
/// with its end, and nothing on its start or on any other day.
pub proof fn lemma_contribution_within_window(held: ProjectView, day: int)
    ensures
        held.allocation.start_date < day <= held.allocation.end_date ==> held.contribution_on(day)
            == held.value,
        day <= held.allocation.start_date || day > held.allocation.end_date
            ==> held.contribution_on(day) == 0,
{
}

} // verus!
