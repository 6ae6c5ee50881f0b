use workweek::calendar::CalendarDate;
use workweek::week::calculate_work_week;
use workweek::week::first_sunday;
use workweek::week::first_sunday_ordinal;
use workweek::week::week_from_ordinal;
use workweek::week::InvalidDateError;
use workweek::weekday::Weekday;
use workweek::weekday::MAX_YEAR;
use workweek::weekday::MIN_YEAR;

fn date(year: i32, month: u32, day: u32) -> CalendarDate {
    CalendarDate::from_ymd_opt(year, month, day).unwrap()
}

#[test]
fn date_on_the_anchor_is_week_one() {
    assert_eq!(calculate_work_week(date(2024, 1, 7)), Ok(1));
}

#[test]
fn a_week_after_the_anchor_is_week_two() {
    assert_eq!(calculate_work_week(date(2024, 1, 14)), Ok(2));
}

#[test]
fn year_that_begins_on_a_sunday() {
    assert_eq!(first_sunday(2023), Ok(date(2023, 1, 1)));
    assert_eq!(calculate_work_week(date(2023, 1, 1)), Ok(1));
    assert_eq!(calculate_work_week(date(2023, 1, 7)), Ok(1));
    assert_eq!(calculate_work_week(date(2023, 1, 8)), Ok(2));
}

#[test]
fn days_before_the_anchor_are_week_zero() {
    assert_eq!(calculate_work_week(date(2024, 1, 1)), Ok(0));
    assert_eq!(calculate_work_week(date(2024, 1, 6)), Ok(0));
    assert_eq!(calculate_work_week(date(2022, 1, 1)), Ok(0));
    assert_eq!(calculate_work_week(date(2022, 1, 2)), Ok(1));
}

#[test]
fn last_days_of_the_year() {
    assert_eq!(calculate_work_week(date(2024, 12, 31)), Ok(52));
    assert_eq!(calculate_work_week(date(2023, 12, 31)), Ok(53));
    assert_eq!(calculate_work_week(date(2023, 12, 30)), Ok(52));
    assert_eq!(calculate_work_week(date(2012, 12, 30)), Ok(53));
}

#[test]
fn week_changes_on_sunday() {
    assert_eq!(calculate_work_week(date(2024, 3, 9)), Ok(9));
    assert_eq!(calculate_work_week(date(2024, 3, 10)), Ok(10));
    assert_eq!(calculate_work_week(date(2024, 3, 16)), Ok(10));
    assert_eq!(calculate_work_week(date(2024, 3, 17)), Ok(11));
}

#[test]
fn first_sunday_of_known_years() {
    assert_eq!(first_sunday(2024), Ok(date(2024, 1, 7)));
    assert_eq!(first_sunday(2022), Ok(date(2022, 1, 2)));
    assert_eq!(first_sunday(2021), Ok(date(2021, 1, 3)));
    assert_eq!(first_sunday(2020), Ok(date(2020, 1, 5)));
    assert_eq!(first_sunday(2019), Ok(date(2019, 1, 6)));
    assert_eq!(first_sunday(2026), Ok(date(2026, 1, 4)));
    assert_eq!(first_sunday(2000), Ok(date(2000, 1, 2)));
    assert_eq!(first_sunday(1), Ok(date(1, 1, 7)));
}

#[test]
fn first_sunday_is_week_one_in_every_year() {
    for year in 1583..=2400 {
        let anchor = first_sunday(year).unwrap();
        assert_eq!(anchor.year(), year);
        assert_eq!(anchor.month(), 1);
        assert!(anchor.day() >= 1 && anchor.day() <= 7);
        assert_eq!(calculate_work_week(anchor), Ok(1));
    }
}

#[test]
fn first_sunday_is_week_one_at_the_ends_of_the_range() {
    for year in [MIN_YEAR, MIN_YEAR + 1, -1, 0, 1, MAX_YEAR - 1, MAX_YEAR] {
        let anchor = first_sunday(year).unwrap();
        assert_eq!(calculate_work_week(anchor), Ok(1));
    }
}

#[test]
fn seven_days_later_is_the_next_week() {
    for year in [2023, 2024, 2025] {
        let anchor = first_sunday(year).unwrap().ordinal();
        let mut dates: Vec<CalendarDate> = Vec::new();
        for month in 1..=12 {
            for day in 1..=31 {
                if let Some(d) = CalendarDate::from_ymd_opt(year, month, day) {
                    dates.push(d);
                }
            }
        }
        for i in 0..dates.len() - 7 {
            let earlier = dates[i];
            let later = dates[i + 7];
            assert_eq!(later.ordinal(), earlier.ordinal() + 7);
            if earlier.ordinal() >= anchor {
                let week = calculate_work_week(earlier).unwrap();
                assert_eq!(calculate_work_week(later), Ok(week + 1));
            }
        }
    }
}

#[test]
fn same_date_gives_the_same_week() {
    let d = date(2024, 7, 4);
    assert_eq!(calculate_work_week(d), calculate_work_week(d));
    assert_eq!(calculate_work_week(d), Ok(26));
}

#[test]
fn year_outside_the_range_is_refused() {
    assert_eq!(
        calculate_work_week(date(300000, 1, 1)),
        Err(InvalidDateError { year: 300000 })
    );
    assert_eq!(
        calculate_work_week(date(MAX_YEAR + 1, 6, 15)),
        Err(InvalidDateError { year: 262143 })
    );
    assert_eq!(
        calculate_work_week(date(MIN_YEAR - 1, 12, 31)),
        Err(InvalidDateError { year: -262144 })
    );
    assert_eq!(first_sunday(i32::MAX), Err(InvalidDateError { year: i32::MAX }));
    assert_eq!(first_sunday(i32::MIN), Err(InvalidDateError { year: i32::MIN }));
}

#[test]
fn years_at_the_ends_of_the_range_are_accepted() {
    assert!(calculate_work_week(date(MAX_YEAR, 12, 31)).is_ok());
    assert!(calculate_work_week(date(MIN_YEAR, 1, 1)).is_ok());
}

#[test]
fn anchor_position_for_each_weekday() {
    assert_eq!(first_sunday_ordinal(Weekday::Sunday), 1);
    assert_eq!(first_sunday_ordinal(Weekday::Monday), 7);
    assert_eq!(first_sunday_ordinal(Weekday::Tuesday), 6);
    assert_eq!(first_sunday_ordinal(Weekday::Wednesday), 5);
    assert_eq!(first_sunday_ordinal(Weekday::Thursday), 4);
    assert_eq!(first_sunday_ordinal(Weekday::Friday), 3);
    assert_eq!(first_sunday_ordinal(Weekday::Saturday), 2);
}

#[test]
fn week_from_position_and_first_weekday() {
    assert_eq!(week_from_ordinal(1, Weekday::Sunday), 1);
    assert_eq!(week_from_ordinal(7, Weekday::Sunday), 1);
    assert_eq!(week_from_ordinal(8, Weekday::Sunday), 2);
    assert_eq!(week_from_ordinal(365, Weekday::Sunday), 53);
    assert_eq!(week_from_ordinal(1, Weekday::Monday), 0);
    assert_eq!(week_from_ordinal(6, Weekday::Monday), 0);
    assert_eq!(week_from_ordinal(7, Weekday::Monday), 1);
    assert_eq!(week_from_ordinal(366, Weekday::Monday), 52);
    assert_eq!(week_from_ordinal(0, Weekday::Sunday), 0);
    assert_eq!(week_from_ordinal(u32::MAX, Weekday::Sunday), 613566757);
}

#[test]
fn weekday_numbers() {
    assert_eq!(Weekday::Sunday.num_days_from_sunday(), 0);
    assert_eq!(Weekday::Monday.num_days_from_sunday(), 1);
    assert_eq!(Weekday::Saturday.num_days_from_sunday(), 6);
    assert_eq!(Weekday::Sunday.days_until_sunday(), 0);
    assert_eq!(Weekday::Monday.days_until_sunday(), 6);
    assert_eq!(Weekday::Wednesday.days_until_sunday(), 4);
    assert_eq!(Weekday::Saturday.days_until_sunday(), 1);
}
