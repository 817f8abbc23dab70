use todo_md_rs::date::{Date, MAX_YEAR, MIN_YEAR};

fn iso(year: i32, month: u32, day: u32) -> String {
    Date::from_ymd(year, month, day).unwrap().to_iso()
}

#[test]
fn days_of_the_calendar_make_dates() {
    let date = Date::from_ymd(2024, 1, 31).unwrap();
    assert_eq!(date.year(), 2024);
    assert_eq!(date.month(), 1);
    assert_eq!(date.day(), 31);
    assert!(Date::from_ymd(2024, 4, 30).is_some());
    assert!(Date::from_ymd(2024, 12, 31).is_some());
    assert!(Date::from_ymd(0, 1, 1).is_some());
    assert!(Date::from_ymd(-4, 2, 29).is_some());
}

#[test]
fn days_that_do_not_exist_make_none() {
    assert_eq!(Date::from_ymd(2024, 0, 1), None);
    assert_eq!(Date::from_ymd(2024, 13, 1), None);
    assert_eq!(Date::from_ymd(2024, 1, 0), None);
    assert_eq!(Date::from_ymd(2024, 1, 32), None);
    assert_eq!(Date::from_ymd(2024, 4, 31), None);
    assert_eq!(Date::from_ymd(2024, 6, 31), None);
    assert_eq!(Date::from_ymd(2024, 9, 31), None);
    assert_eq!(Date::from_ymd(2024, 11, 31), None);
    assert_eq!(Date::from_ymd(2024, 2, 30), None);
}

#[test]
fn february_follows_the_leap_years() {
    assert!(Date::from_ymd(2024, 2, 29).is_some());
    assert!(Date::from_ymd(2000, 2, 29).is_some());
    assert!(Date::from_ymd(2400, 2, 29).is_some());
    assert_eq!(Date::from_ymd(2023, 2, 29), None);
    assert_eq!(Date::from_ymd(1900, 2, 29), None);
    assert_eq!(Date::from_ymd(2100, 2, 29), None);
    assert_eq!(Date::from_ymd(-1, 2, 29), None);
    assert!(Date::from_ymd(2023, 2, 28).is_some());
}

#[test]
fn years_have_a_first_and_a_last() {
    assert_eq!(MIN_YEAR, -262143);
    assert_eq!(MAX_YEAR, 262142);
    assert!(Date::from_ymd(MIN_YEAR, 1, 1).is_some());
    assert!(Date::from_ymd(MAX_YEAR, 12, 31).is_some());
    assert_eq!(Date::from_ymd(MIN_YEAR - 1, 12, 31), None);
    assert_eq!(Date::from_ymd(MAX_YEAR + 1, 1, 1), None);
    assert_eq!(Date::from_ymd(i32::MAX, 1, 1), None);
    assert_eq!(Date::from_ymd(i32::MIN, 1, 1), None);
}

#[test]
fn dates_are_read_from_text() {
    assert_eq!(Date::parse("2024-01-01"), Date::from_ymd(2024, 1, 1));
    assert_eq!(Date::parse(" 2024-01-01 "), Date::from_ymd(2024, 1, 1));
    assert_eq!(Date::parse("\t1999-12-31"), Date::from_ymd(1999, 12, 31));
    assert_eq!(Date::parse("0001-02-03"), Date::from_ymd(1, 2, 3));
    assert_eq!(Date::parse("+12345-6-7"), Date::from_ymd(12345, 6, 7));
}

#[test]
fn text_that_holds_no_day_reads_as_none() {
    assert_eq!(Date::parse(""), None);
    assert_eq!(Date::parse("foo"), None);
    assert_eq!(Date::parse("2024-02-30"), None);
    assert_eq!(Date::parse("2024-13-01"), None);
    assert_eq!(Date::parse("2024-00-01"), None);
    assert_eq!(Date::parse("2024-01-00"), None);
    assert_eq!(Date::parse("2024-01-01 x"), None);
    assert_eq!(Date::parse("2024/01/01"), None);
    assert_eq!(Date::parse("\u{664}\u{664}\u{664}\u{664}-01-01"), None);
}

#[test]
fn dates_are_written_in_iso_form() {
    assert_eq!(iso(2024, 1, 1), "2024-01-01");
    assert_eq!(iso(2015, 9, 5), "2015-09-05");
    assert_eq!(iso(1999, 12, 31), "1999-12-31");
    assert_eq!(iso(987, 10, 20), "0987-10-20");
    assert_eq!(iso(45, 6, 7), "0045-06-07");
    assert_eq!(iso(5, 3, 9), "0005-03-09");
    assert_eq!(iso(0, 1, 1), "0000-01-01");
    assert_eq!(iso(9999, 12, 31), "9999-12-31");
}

#[test]
fn years_outside_four_digits_carry_a_sign() {
    assert_eq!(iso(10000, 12, 31), "+10000-12-31");
    assert_eq!(iso(12345, 6, 7), "+12345-06-07");
    assert_eq!(iso(262142, 12, 31), "+262142-12-31");
    assert_eq!(iso(-1, 1, 1), "-0001-01-01");
    assert_eq!(iso(-45, 1, 1), "-0045-01-01");
    assert_eq!(iso(-9999, 1, 1), "-9999-01-01");
    assert_eq!(iso(-10000, 1, 1), "-10000-01-01");
    assert_eq!(iso(-262143, 1, 1), "-262143-01-01");
}

#[test]
fn a_written_date_reads_back() {
    let days = [(2024, 2, 29), (1, 1, 1), (9999, 12, 31), (10000, 1, 1), (-1, 12, 31)];
    for (year, month, day) in days {
        let date = Date::from_ymd(year, month, day).unwrap();
        assert_eq!(Date::parse(&date.to_iso()), Some(date));
    }
}

#[test]
fn dates_compare_by_their_fields() {
    assert_eq!(Date::from_ymd(2024, 1, 2), Date::from_ymd(2024, 1, 2));
    assert_ne!(Date::from_ymd(2024, 1, 2), Date::from_ymd(2024, 2, 1));
    let date = Date::from_ymd(2024, 1, 2).unwrap();
    let copy = date;
    assert_eq!(date, copy);
}
