use chrono::{Datelike, NaiveDate, Utc};
use hallo::allocation::Allocation;
use hallo::date::{Date, Duration};
use hallo::projects::{Project, ProjectBuilder, ProjectBuilderError};
use hallo::traits::{Contribution, TimeBound};

fn ymd(year: i32, month: u32, day: u32) -> Date {
    let date = NaiveDate::from_ymd_opt(year, month, day).unwrap();
    Date::from_num_days_from_ce(date.num_days_from_ce())
}

fn clock_day() -> i32 {
    Utc::now().date_naive().num_days_from_ce()
}

#[test]
fn default_duration() {
    let p = Project::default();
    assert_eq!(p.duration(), Duration::weeks(4))
}

#[test]
fn default_builder_duration() {
    let p = ProjectBuilder::default().build();
    assert_eq!(p.duration(), Duration::weeks(4))
}

#[test]
fn builder_set_date_duration() {
    let p = ProjectBuilder::default().start_date(&ymd(2014, 7, 10)).build();
    assert_eq!(p.duration(), Duration::weeks(4))
}

#[test]
fn dynamic_date() {
    let new_date = ymd(2014, 7, 10).plus(&Duration::weeks(2));
    let p = ProjectBuilder::default().start_date(&new_date).build();
    assert_eq!(p.duration(), Duration::weeks(4))
}

#[test]
fn builder_sets_the_start_date() {
    let date = ymd(2022, 8, 16);
    let project = ProjectBuilder::default().start_date(&date).build();
    assert_eq!(project.allocation().start_date(), &date)
}

#[test]
fn builder_sets_the_value() {
    let project = ProjectBuilder::default().value(10000).build();
    assert_eq!(project.value(), 10000)
}

#[test]
fn builder_sets_the_name() {
    let project = ProjectBuilder::default().name("My New Project".into()).build();
    assert_eq!(project.name, "My New Project".to_string())
}

#[test]
fn builder_sets_the_duration_in_weeks() {
    let duration = Duration::weeks(33);
    let project = ProjectBuilder::default().duration_weeks(33).build();
    assert_eq!(project.duration(), duration)
}

#[test]
fn builder_sets_the_duration() {
    let duration = Duration::weeks(8);
    let project = ProjectBuilder::default().duration(&duration).build();
    assert_eq!(project.duration(), duration)
}

#[test]
fn default_project_value() {
    let approx_value: u32 = 20000;
    let p = Project::default();
    assert_eq!(p.value(), approx_value)
}

#[test]
fn default_project_is_the_default_builder_built() {
    let before = clock_day();
    let p = Project::default();
    let b = ProjectBuilder::default().build();
    let after = clock_day();
    assert_eq!(p.name, "New Project");
    assert_eq!(b.name, "New Project");
    assert_eq!(p.name(), "New Project");
    assert_eq!(b.value(), 20000);
    for project in [&p, &b] {
        let start = project.allocation().start_date.num_days_from_ce();
        assert!(before + 21 <= start && start <= after + 21);
        assert_eq!(project.allocation().end_date.num_days_from_ce(), start + 28);
    }
    if before == after {
        assert_eq!(p, b);
    }
}

#[test]
fn default_project_contributes_nothing_in_the_past() {
    let p = Project::default();
    assert_eq!(p.get_contribution_on(&ymd(2014, 7, 8)), 0);
}

#[test]
fn start_date_keeps_the_duration() {
    let builder = ProjectBuilder::default().duration(&Duration::days(10));
    let p = builder.start_date(&ymd(2014, 7, 10)).build();
    assert_eq!(p.duration(), Duration::days(10));
    assert_eq!(p.allocation(), Allocation { start_date: ymd(2014, 7, 10), end_date: ymd(2014, 7, 20) });
    let q = ProjectBuilder::default()
        .duration(&Duration::days(-3))
        .start_date(&ymd(2014, 7, 10))
        .build();
    assert_eq!(q.duration(), Duration::days(-3));
    assert_eq!(q.allocation().end_date, ymd(2014, 7, 7));
}

#[test]
fn duration_keeps_the_start_date() {
    let start = ymd(2014, 7, 10);
    let p = ProjectBuilder::default().start_date(&start).duration(&Duration::days(5)).build();
    assert_eq!(p.allocation().start_date, start);
    assert_eq!(p.allocation().end_date, ymd(2014, 7, 15));
    let q = ProjectBuilder::default().start_date(&start).duration_weeks(3).build();
    assert_eq!(q.allocation().start_date, start);
    assert_eq!(q.allocation().end_date, ymd(2014, 7, 31));
    assert_eq!(q.duration(), Duration::days(21));
}

#[test]
fn zero_duration_project_is_built() {
    let start = ymd(2014, 7, 10);
    let p = ProjectBuilder::default().start_date(&start).duration(&Duration::days(0)).build();
    assert_eq!(p.duration(), Duration::days(0));
    assert_eq!(p.allocation(), Allocation { start_date: start, end_date: start });
    assert_eq!(p.get_contribution_on(&start), 0);
    let q = ProjectBuilder::default().duration_weeks(0).build();
    assert_eq!(q.duration(), Duration::weeks(0));
}

#[test]
fn contribution_inside_and_outside_the_window() {
    let before = clock_day();
    let p = ProjectBuilder::default().name("p1").duration_weeks(3).build();
    let after = clock_day();
    assert_eq!(p.name, "p1");
    assert_eq!(p.duration(), Duration::weeks(3));
    let allocation = p.allocation();
    let start = allocation.start_date.num_days_from_ce();
    assert!(before + 21 <= start && start <= after + 21);
    assert_eq!(allocation.end_date.num_days_from_ce(), start + 21);
    let day = |n: i32| Date::from_num_days_from_ce(n);
    assert_eq!(p.get_contribution_on(&day(start + 1)), 20000);
    assert_eq!(p.get_contribution_on(&day(start + 10)), 20000);
    assert_eq!(p.get_contribution_on(&day(start + 21)), 20000);
    assert_eq!(p.get_contribution_on(&day(start)), 0);
    assert_eq!(p.get_contribution_on(&day(start - 1)), 0);
    assert_eq!(p.get_contribution_on(&day(start + 22)), 0);
    assert_eq!(p.get_contribution_on(&ymd(2014, 7, 8)), 0);
}

#[test]
fn contribution_is_the_value_or_nothing() {
    let p = ProjectBuilder::default()
        .value(1234)
        .start_date(&ymd(2014, 7, 8))
        .duration(&Duration::days(2))
        .build();
    assert_eq!(p.get_contribution_on(&ymd(2014, 7, 7)), 0);
    assert_eq!(p.get_contribution_on(&ymd(2014, 7, 8)), 0);
    assert_eq!(p.get_contribution_on(&ymd(2014, 7, 9)), 1234);
    assert_eq!(p.get_contribution_on(&ymd(2014, 7, 10)), 1234);
    assert_eq!(p.get_contribution_on(&ymd(2014, 7, 11)), 0);
}

#[test]
fn contribution_of_a_worthless_project() {
    let p = ProjectBuilder::default()
        .value(0)
        .start_date(&ymd(2014, 7, 8))
        .build();
    assert_eq!(p.value(), 0);
    assert_eq!(p.get_contribution_on(&ymd(2014, 7, 9)), 0);
}

#[test]
fn contribution_of_a_backwards_project() {
    let p = ProjectBuilder::default()
        .start_date(&ymd(2014, 7, 8))
        .duration(&Duration::days(-2))
        .build();
    assert_eq!(p.duration(), Duration::days(-2));
    for day in 1..=12 {
        assert_eq!(p.get_contribution_on(&ymd(2014, 7, day)), 0);
    }
}

#[test]
fn built_project_holds_what_was_set() {
    let start = ymd(2014, 7, 8);
    let p = ProjectBuilder::default()
        .name("p1")
        .value(42)
        .start_date(&start)
        .duration_weeks(3)
        .build();
    assert_eq!(p.name, "p1");
    assert_eq!(p.name(), "p1");
    assert_eq!(p.value(), 42);
    assert_eq!(p.allocation(), Allocation { start_date: start, end_date: ymd(2014, 7, 29) });
    assert_eq!(p.duration(), Duration::weeks(3));
}

#[test]
fn later_setter_overrides_the_earlier() {
    let p = ProjectBuilder::default()
        .name("first")
        .value(1)
        .start_date(&ymd(2000, 1, 1))
        .duration_weeks(1)
        .name("second")
        .value(2)
        .duration(&Duration::days(3))
        .start_date(&ymd(2014, 7, 8))
        .build();
    assert_eq!(p.name, "second");
    assert_eq!(p.value(), 2);
    assert_eq!(p.allocation(), Allocation { start_date: ymd(2014, 7, 8), end_date: ymd(2014, 7, 11) });
}

#[test]
fn empty_name_is_accepted() {
    let p = ProjectBuilder::default().name("").build();
    assert_eq!(p.name, "");
    assert_eq!(p.value(), 20000);
}

#[test]
fn largest_value_is_accepted() {
    let p = ProjectBuilder::default().value(u32::MAX).start_date(&ymd(2014, 7, 8)).build();
    assert_eq!(p.value(), u32::MAX);
    assert_eq!(p.get_contribution_on(&ymd(2014, 7, 9)), u32::MAX);
}

#[test]
fn builders_with_the_same_settings_are_equal() {
    let a = ProjectBuilder::default().name("p").start_date(&ymd(2014, 7, 8));
    let b = ProjectBuilder::default().name("p").start_date(&ymd(2014, 7, 8));
    assert_eq!(a, b);
    assert_ne!(a, b.value(1));
}

#[test]
fn project_written_out() {
    let p = ProjectBuilder::default()
        .name("p1")
        .duration_weeks(3)
        .start_date(&ymd(2014, 7, 8))
        .build();
    assert!(p.in_calendar());
    assert_eq!(p.to_string(), "p1 (2014-07-08UTC to 2014-07-29UTC) 20000");
}

#[test]
fn project_outside_the_calendar_is_built() {
    let last = Date::from_num_days_from_ce(hallo::date::CALENDAR_LAST_DAY);
    let p = ProjectBuilder::default().start_date(&last).build();
    assert_eq!(p.duration(), Duration::weeks(4));
    assert!(!p.in_calendar());
    assert!(ProjectBuilder::default().build().in_calendar());
}

#[test]
fn project_builder_error_in_words() {
    assert_eq!(ProjectBuilderError::ZeroLengthDuration.to_string(), "Project has no duration.");
    assert_eq!(ProjectBuilderError::ZeroLengthDuration, ProjectBuilderError::ZeroLengthDuration);
}
