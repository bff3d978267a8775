use trace_stream_rs::common::data_utils::{
    date_to_string, diff_days, to_day_str, to_naive_date, to_previous_day, to_previous_day_from,
    Date,
};

fn ymd(year: i32, month: u32, day: u32) -> Date {
    Date { year, month, day }
}

#[test]
fn compare_date() {
    let date_str = "2024-02-21";
    let date = to_naive_date(date_str).unwrap();
    let today = to_naive_date(&to_day_str()).unwrap();
    println!("days: {}", diff_days(&date, &today));
    assert!(diff_days(&date, &today) > 0);
}

#[test]
fn main2() {
    let date_str = "2024-02-22";
    match to_naive_date(date_str) {
        Some(parsed_date) => {
            let current_date = to_naive_date(&to_day_str()).unwrap();
            let diff = diff_days(&parsed_date, &current_date);
            if diff < 0 {
                println!("the date '{}' is after the current date", date_str);
            } else if diff > 0 {
                println!("the date '{}' is before the current date", date_str);
            } else {
                println!("the date '{}' is the current date", date_str);
            }
            assert!(diff > 0);
        }
        None => panic!("date did not parse"),
    }
}

#[test]
fn parse_day_strings() {
    assert_eq!(to_naive_date("2024-02-21"), Some(ymd(2024, 2, 21)));
    assert_eq!(to_naive_date("2024-02-30"), None);
    assert_eq!(to_naive_date("2023-02-29"), None);
    assert_eq!(to_naive_date("not a date"), None);
    assert_eq!(to_naive_date(""), None);
}

#[test]
fn previous_days() {
    assert_eq!(to_previous_day("2024-02-22"), Some(ymd(2024, 2, 21)));
    assert_eq!(to_previous_day("2024-03-01"), Some(ymd(2024, 2, 29)));
    assert_eq!(to_previous_day("2023-03-01"), Some(ymd(2023, 2, 28)));
    assert_eq!(to_previous_day("2024-01-01"), Some(ymd(2023, 12, 31)));
    assert_eq!(to_previous_day("1900-03-01"), Some(ymd(1900, 2, 28)));
    assert_eq!(to_previous_day("2000-03-01"), Some(ymd(2000, 2, 29)));
    assert_eq!(to_previous_day("2024-05-01"), Some(ymd(2024, 4, 30)));
}

#[test]
fn previous_day_of_unparsable_day_uses_today() {
    let today = ymd(2024, 7, 1);
    assert_eq!(to_previous_day_from("garbage", &today), Some(ymd(2024, 6, 30)));
    assert_eq!(to_previous_day_from("2024-07-10", &today), Some(ymd(2024, 7, 9)));
    assert!(to_previous_day("garbage").is_some());
}

#[test]
fn first_date_has_no_previous_day() {
    let first = ymd(-262143, 1, 1);
    assert_eq!(to_previous_day_from("garbage", &first), None);
}

#[test]
fn day_differences() {
    assert_eq!(diff_days(&ymd(2024, 2, 21), &ymd(2024, 2, 22)), 1);
    assert_eq!(diff_days(&ymd(2024, 2, 22), &ymd(2024, 2, 21)), -1);
    assert_eq!(diff_days(&ymd(2024, 1, 1), &ymd(2025, 1, 1)), 366);
    assert_eq!(diff_days(&ymd(2023, 1, 1), &ymd(2024, 1, 1)), 365);
    assert_eq!(diff_days(&ymd(1, 1, 1), &ymd(1970, 1, 1)), 719162);
    assert_eq!(diff_days(&ymd(2005, 9, 10), &ymd(2005, 9, 10)), 0);
}

#[test]
fn previous_day_is_one_day_earlier() {
    for s in ["2024-03-01", "2024-01-01", "2100-03-01", "2000-01-01", "1999-12-01"] {
        let d = to_naive_date(s).unwrap();
        let p = to_previous_day(s).unwrap();
        assert_eq!(diff_days(&p, &d), 1);
    }
}

#[test]
fn printed_dates() {
    assert_eq!(date_to_string(&ymd(2024, 2, 21)), "2024-02-21");
    assert_eq!(date_to_string(&ymd(7, 1, 5)), "0007-01-05");
    assert_eq!(date_to_string(&ymd(12345, 12, 31)), "+12345-12-31");
    assert_eq!(date_to_string(&ymd(-5, 3, 9)), "-0005-03-09");
    let today = to_day_str();
    assert_eq!(today.len(), 10);
    assert!(to_naive_date(&today).is_some());
}
