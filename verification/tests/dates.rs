use todo_checker::annotation::read_date;
use todo_checker::date::{Date, Moment};
use todo_checker::text::chars_of;

#[test]
fn date_exists_only_for_days_of_the_calendar() {
    assert_eq!(Date::new(2024, 2, 29), Some(Date { year: 2024, month: 2, day: 29 }));
    assert_eq!(Date::new(2023, 2, 29), None);
    assert_eq!(Date::new(2100, 2, 29), None);
    assert_eq!(Date::new(2000, 2, 29), Some(Date { year: 2000, month: 2, day: 29 }));
    assert_eq!(Date::new(2024, 4, 30), Some(Date { year: 2024, month: 4, day: 30 }));
    assert_eq!(Date::new(2024, 4, 31), None);
    assert_eq!(Date::new(2024, 12, 31), Some(Date { year: 2024, month: 12, day: 31 }));
    assert_eq!(Date::new(2024, 0, 1), None);
    assert_eq!(Date::new(2024, 13, 1), None);
    assert_eq!(Date::new(2024, 1, 0), None);
    assert_eq!(Date::new(2024, 1, 32), None);
    assert_eq!(Date::new(-1, 1, 1), None);
    assert_eq!(Date::new(10_000, 1, 1), None);
    assert_eq!(Date::new(0, 1, 1), Some(Date { year: 0, month: 1, day: 1 }));
    assert_eq!(Date::new(9999, 12, 31), Some(Date { year: 9999, month: 12, day: 31 }));
}

#[test]
fn day_numbers_count_from_the_first_day_of_year_one() {
    assert_eq!(Date::new(1, 1, 1).unwrap().days_from_ce(), 1);
    assert_eq!(Date::new(1, 12, 31).unwrap().days_from_ce(), 365);
    assert_eq!(Date::new(2, 1, 1).unwrap().days_from_ce(), 366);
    assert_eq!(Date::new(0, 12, 31).unwrap().days_from_ce(), 0);
    assert_eq!(Date::new(0, 1, 1).unwrap().days_from_ce(), -365);
    assert_eq!(Date::new(1970, 1, 1).unwrap().days_from_ce(), 719_163);
    assert_eq!(Date::new(2024, 2, 29).unwrap().days_from_ce(), 738_945);
    assert_eq!(Date::new(2024, 3, 1).unwrap().days_from_ce(), 738_946);
    assert_eq!(Date::new(9999, 12, 31).unwrap().days_from_ce(), 3_652_059);
}

#[test]
fn dates_render_with_padding() {
    assert_eq!(Date::new(2024, 1, 1).unwrap().render(), "2024-01-01");
    assert_eq!(Date::new(2999, 12, 31).unwrap().render(), "2999-12-31");
    assert_eq!(Date::new(987, 6, 5).unwrap().render(), "0987-06-05");
    assert_eq!(Date::new(0, 1, 1).unwrap().render(), "0000-01-01");
    assert_eq!(Date::new(9999, 10, 20).unwrap().render(), "9999-10-20");
}

#[test]
fn rendered_date_reads_back() {
    for (year, month, day) in
        [(0, 1, 1), (1, 2, 3), (999, 9, 9), (1970, 1, 1), (2024, 2, 29), (9999, 12, 31)]
    {
        let date = Date::new(year, month, day).unwrap();
        let text = chars_of(&date.render());
        assert_eq!(read_date(&text, 0), Some(date));
    }
}

#[test]
fn moment_takes_a_day_and_a_time_of_day() {
    let date = Date::new(2025, 6, 1).unwrap();
    assert_eq!(
        Moment::at(date, 0, 0, 0),
        Some(Moment { day: 739_403, second: 0, nanosecond: 0 })
    );
    assert_eq!(
        Moment::at(date, 13, 14, 15),
        Some(Moment { day: 739_403, second: 47_655, nanosecond: 0 })
    );
    assert_eq!(
        Moment::at(date, 23, 59, 59),
        Some(Moment { day: 739_403, second: 86_399, nanosecond: 0 })
    );
    assert_eq!(Moment::at(date, 24, 0, 0), None);
    assert_eq!(Moment::at(date, 0, 60, 0), None);
    assert_eq!(Moment::at(date, 0, 0, 60), None);
    assert_eq!(Moment::at(Date { year: 2025, month: 2, day: 29 }, 0, 0, 0), None);
}

#[test]
fn clock_gives_a_time_of_day() {
    let now = Moment::now();
    assert!(now.second < 86_400);
    assert!(now.nanosecond < 2_000_000_000);
    assert!(now.day > 719_163);
}
