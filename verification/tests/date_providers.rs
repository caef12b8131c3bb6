use chrono::Datelike;
use fakelake::parameters::date::{DEFAULT_AFTER_DAYS, DEFAULT_BEFORE_DAYS};
use fakelake::parameters::datetime::{DEFAULT_AFTER_SECS, DEFAULT_BEFORE_SECS};
use fakelake::providers::provider::Value;
use fakelake::providers::random_date::{DateProvider, DatetimeProvider};
use fakelake::raw::{RawColumn, RawValue};

fn date_column(
    format: Option<&str>,
    after: Option<&str>,
    before: Option<&str>,
) -> RawColumn {
    let mut params: Vec<(String, RawValue)> = Vec::new();
    if let Some(f) = format {
        params.push(("format".to_string(), RawValue::Str(f.to_string())));
    }
    if let Some(a) = after {
        params.push(("after".to_string(), RawValue::Str(a.to_string())));
    }
    if let Some(b) = before {
        params.push(("before".to_string(), RawValue::Str(b.to_string())));
    }
    RawColumn {
        name: "created_at".to_string(),
        params,
    }
}

fn get_day_since_year0(date: &str, format: &str) -> i32 {
    chrono::NaiveDate::parse_from_str(date, format)
        .unwrap()
        .num_days_from_ce()
}

#[test]
fn given_nothing_should_return_date_kind() {
    let provider = DateProvider::new_from_raw(&date_column(None, None, None));
    match provider.value(0) {
        Value::Date(_, _) => (),
        _ => panic!(),
    };
}

#[test]
fn given_no_params_should_give_default() {
    let provider = DateProvider::new_from_raw(&date_column(None, None, None));
    assert_eq!(provider.format, "%Y-%m-%d");
    assert_eq!(provider.after, DEFAULT_AFTER_DAYS);
    assert_eq!(provider.before, DEFAULT_BEFORE_DAYS);
}

#[test]
fn given_every_params_should_give_same_timestamps() {
    let format = "%d-%m-%Y";
    let after = "17-01-2000";
    let before = "17-01-2020";
    let provider = DateProvider::new_from_raw(&date_column(Some(format), Some(after), Some(before)));
    assert_eq!(provider.format, format);
    assert_eq!(provider.before, get_day_since_year0(before, format));
    assert_eq!(provider.after, get_day_since_year0(after, format));
}

#[test]
fn given_provider_should_return_between_after_inclusive_and_before_exclusive() {
    let provider = DateProvider {
        format: "%Y-%m-%d".to_string(),
        after: DEFAULT_AFTER_DAYS,
        before: DEFAULT_BEFORE_DAYS,
    };
    for value in 1..100 {
        match provider.value(value) {
            Value::Date(days, _) => {
                assert!(days >= provider.after);
                assert!(days < provider.before);
            }
            _ => panic!(),
        }
    }
}

#[test]
fn given_one_day_range_should_return_always_same_date() {
    let day = get_day_since_year0("2020-05-18", "%Y-%m-%d");
    let provider = DateProvider {
        format: "%Y-%m-%d".to_string(),
        after: day,
        before: day + 1,
    };
    for value in 1..100 {
        match provider.value(value) {
            Value::Date(days, _) => assert_eq!(days, day),
            _ => panic!(),
        }
    }
}

#[test]
fn given_provider_should_corrupted_return_random_date() {
    let provider = DateProvider {
        format: "%Y-%m-%d".to_string(),
        after: DEFAULT_AFTER_DAYS,
        before: DEFAULT_BEFORE_DAYS,
    };
    let mut count_random_date = 0;
    for value in 1..100 {
        match provider.corrupted_value(value) {
            Value::Date(days, _) => {
                if days < provider.after || days >= provider.before {
                    count_random_date += 1;
                }
            }
            _ => panic!(),
        }
    }
    assert!(count_random_date >= 98);
}

#[test]
fn datetime_given_no_params_should_give_default() {
    let provider = DatetimeProvider::new_from_raw(&RawColumn {
        name: "created_at".to_string(),
        params: Vec::new(),
    });
    assert_eq!(provider.format, "%Y-%m-%d %H:%M:%S");
    assert_eq!(provider.after, DEFAULT_AFTER_SECS);
    assert_eq!(provider.before, DEFAULT_BEFORE_SECS);
}

#[test]
fn datetime_values_stay_between_the_bounds() {
    let provider = DatetimeProvider {
        format: "%Y-%m-%d %H:%M:%S".to_string(),
        after: DEFAULT_AFTER_SECS,
        before: DEFAULT_BEFORE_SECS,
    };
    for value in 1..200 {
        match provider.value(value) {
            Value::Timestamp(secs, _) => {
                assert!(secs >= provider.after);
                assert!(secs < provider.before);
            }
            _ => panic!(),
        }
    }
}

#[test]
fn datetime_single_second_range_always_returns_it() {
    let provider = DatetimeProvider {
        format: "%Y-%m-%d %H:%M:%S".to_string(),
        after: DEFAULT_AFTER_SECS,
        before: DEFAULT_AFTER_SECS + 1,
    };
    for value in 1..100 {
        match provider.value(value) {
            Value::Timestamp(secs, _) => assert_eq!(secs, DEFAULT_AFTER_SECS),
            _ => panic!(),
        }
    }
}
