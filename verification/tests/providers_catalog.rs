use fakelake::providers::increment::{IncrementIntegerProvider, DEFAULT_START, DEFAULT_STEP};
use fakelake::providers::provider::{
    corruption_draw, Corpora, CorruptedProvider, Provider, ProviderBuilder, Value, ValueKind,
};
use fakelake::providers::random_bool::BoolProvider;
use fakelake::providers::random_number::{I32Provider, DEFAULT_MAX, DEFAULT_MIN};
use fakelake::providers::random_string::AlphanumericProvider;
use fakelake::providers::email::EmailProvider;
use fakelake::providers::constant::ConstantStringProvider;
use fakelake::parameters::percentage::PERCENT_SCALE;
use fakelake::raw::{RawColumn, RawValue};

fn column_with(params: Vec<(&str, RawValue)>) -> RawColumn {
    RawColumn {
        name: "id".to_string(),
        params: params
            .into_iter()
            .map(|(k, v)| (k.to_string(), v))
            .collect(),
    }
}

fn small_corpora() -> Corpora {
    Corpora {
        first_names: vec!["Ada".to_string(), "Grace".to_string()],
        last_names: vec!["Lovelace".to_string()],
    }
}

// Sequential integer provider

#[test]
fn given_yaml_should_give_integer_provider() {
    let provider = IncrementIntegerProvider::new_from_raw(&column_with(vec![
        ("start", RawValue::Int(10)),
        ("step", RawValue::Int(2)),
    ]));
    assert_eq!(provider.start, 10);
    assert_eq!(provider.step, 2);
}

#[test]
fn given_no_start_and_no_step_in_yaml_should_give_defaults() {
    let provider = IncrementIntegerProvider::new_from_raw(&column_with(vec![]));
    assert_eq!(provider.start, DEFAULT_START);
    assert_eq!(provider.step, DEFAULT_STEP);
}

#[test]
fn given_badvalue_for_start_and_step_in_yaml_should_give_defaults() {
    let provider = IncrementIntegerProvider::new_from_raw(&column_with(vec![
        ("start", RawValue::Str("BadValue".to_string())),
        ("step", RawValue::Str("BadValue".to_string())),
    ]));
    assert_eq!(provider.start, DEFAULT_START);
    assert_eq!(provider.step, DEFAULT_STEP);
}

#[test]
fn given_i64_for_start_and_step_in_yaml_should_give_defaults() {
    let provider = IncrementIntegerProvider::new_from_raw(&column_with(vec![
        ("start", RawValue::Int(i64::MIN)),
        ("step", RawValue::Int(i64::MAX)),
    ]));
    assert_eq!(provider.start, DEFAULT_START);
    assert_eq!(provider.step, DEFAULT_STEP);
}

#[test]
fn given_x_for_start_and_y_for_step_in_yaml_should_give_start_x_and_step_y() {
    let start_to_check = [-14, 0, 4, 50];
    let step_to_check = [-10, 0, 1, 3, 20];
    for start in start_to_check {
        for step in step_to_check {
            let provider = IncrementIntegerProvider::new_from_raw(&column_with(vec![
                ("start", RawValue::Int(start)),
                ("step", RawValue::Int(step)),
            ]));
            assert_eq!(provider.start as i64, start);
            assert_eq!(provider.step as i64, step);
        }
    }
}

#[test]
fn given_start_0_and_index_x_and_step_1_should_return_x() {
    let provider = IncrementIntegerProvider { start: 0, step: 1 };
    let values_to_check = [0, 4, 50];
    for value in values_to_check {
        let calculated = provider.value(value);
        assert_eq!(calculated, Value::Int32(value as i32));
    }
}

#[test]
fn given_start_x_and_index_y_and_step_1_should_return_x_plus_y() {
    let start_to_check = [-14, 12, 17, 23];
    let values_to_check = [0, 4, 50];
    for start in start_to_check {
        let provider = IncrementIntegerProvider { start, step: 1 };
        for value in values_to_check {
            let calculated = provider.value(value);
            assert_eq!(calculated, Value::Int32(start + value as i32));
        }
    }
}

#[test]
fn given_start_x_and_index_y_and_step_z_should_return_x_plus_y_multiply_z() {
    let start_to_check = [-14, 12, 17, 23];
    let step_to_check = [-4, -1, 0, 1, 2, 3, 5];
    let values_to_check = [0, 4, 50];
    for start in start_to_check {
        for step in step_to_check {
            let provider = IncrementIntegerProvider { start, step };
            for value in values_to_check {
                let calculated = provider.value(value);
                assert_eq!(calculated, Value::Int32(start + (value as i32 * step)));
            }
        }
    }
}

#[test]
fn given_increment_integer_provider_should_corrupted_return_random_int() {
    let provider = IncrementIntegerProvider { start: 0, step: 1 };
    for i in 0..100 {
        match provider.corrupted_value(i) {
            Value::Int32(_) => (),
            _ => panic!("Should not happen"),
        }
    }
}

// Bounded random integer provider

#[test]
fn given_no_params_should_use_default() {
    let provider = I32Provider::new_from_raw(&column_with(vec![]));
    assert_eq!(provider.min, DEFAULT_MIN);
    assert_eq!(provider.max, DEFAULT_MAX);
}

#[test]
fn given_normal_params_should_use_params() {
    let provider = I32Provider::new_from_raw(&column_with(vec![
        ("min", RawValue::Int(-100)),
        ("max", RawValue::Int(100)),
    ]));
    assert_eq!(provider.min, -100);
    assert_eq!(provider.max, 100);
}

#[test]
fn given_inverted_min_max_params_should_use_default() {
    let provider = I32Provider::new_from_raw(&column_with(vec![
        ("min", RawValue::Int(100)),
        ("max", RawValue::Int(-100)),
    ]));
    assert_eq!(provider.min, DEFAULT_MIN);
    assert_eq!(provider.max, DEFAULT_MAX);
}

#[test]
fn bounded_int_every_draw_is_in_range() {
    let provider = I32Provider { min: -3, max: 17 };
    for i in 0..1000 {
        match provider.value(i) {
            Value::Int32(v) => assert!(-3 <= v && v < 17),
            _ => panic!(),
        }
    }
}

#[test]
fn bounded_int_single_element_range_always_returns_min() {
    let provider = I32Provider { min: 42, max: 43 };
    for i in 0..1000 {
        assert_eq!(provider.value(i), Value::Int32(42));
    }
}

#[test]
fn given_small_interval_should_corrupted_return_random() {
    let provider = I32Provider { min: -100, max: 100 };
    let mut count_random_int = 0;
    for i in 0..100 {
        let value = match provider.corrupted_value(i) {
            Value::Int32(res) => res,
            _ => panic!("Should not happen"),
        };
        if !(-100..=100).contains(&value) {
            count_random_int += 1;
        }
    }
    assert!(count_random_int >= 99);
}

// Boolean provider

#[test]
fn given_nothing_should_return_bool_type() {
    let provider = BoolProvider {};
    match provider.value(0) {
        Value::Bool(_) => (),
        _ => panic!(),
    }
}

#[test]
fn given_provider_should_corrupted_return_default() {
    let provider = BoolProvider {};
    for i in 0..100 {
        match provider.corrupted_value(i) {
            Value::Bool(_) => continue,
            _ => panic!("Should not happen"),
        };
    }
}

// Random text provider

#[test]
fn alphanumeric_lengths_stay_in_range() {
    let provider = AlphanumericProvider {
        min_length: 4,
        max_length: 9,
    };
    for i in 0..500 {
        match provider.value(i) {
            Value::Str(s) => {
                let len = s.chars().count();
                assert!(4 <= len && len < 9);
                assert!(s.chars().all(|c| c.is_ascii_alphanumeric()));
            }
            _ => panic!(),
        }
    }
}

#[test]
fn alphanumeric_from_raw_uses_length_range() {
    let provider = AlphanumericProvider::new_from_raw(&column_with(vec![(
        "length",
        RawValue::Str("5..12".to_string()),
    )]));
    assert_eq!(provider.min_length, 5);
    assert_eq!(provider.max_length, 12);
}

// Email provider

#[test]
fn given_no_domain_in_yaml_should_give_domain_examplecom() {
    let provider = EmailProvider::new_from_raw(&column_with(vec![]));
    assert_eq!(provider.domain, "example.com");
}

#[test]
fn given_x_for_domain_in_yaml_should_give_domain_x() {
    let values_to_check = ["test.com", "domain.org", "test.this"];
    for value in values_to_check {
        let provider = EmailProvider::new_from_raw(&column_with(vec![(
            "domain",
            RawValue::Str(value.to_string()),
        )]));
        assert_eq!(provider.domain, value);
    }
}

#[test]
fn email_value_joins_local_part_and_domain() {
    let provider = EmailProvider {
        domain: "example.com".to_string(),
    };
    for i in 0..50 {
        match provider.value(i) {
            Value::Str(s) => {
                let chars: Vec<char> = s.chars().collect();
                assert_eq!(chars.len(), 11 + "example.com".chars().count());
                assert_eq!(chars[10], '@');
                assert!(chars[..10].iter().all(|c| c.is_ascii_alphanumeric()));
                let domain: String = chars[11..].iter().collect();
                assert_eq!(domain, "example.com");
            }
            _ => panic!(),
        }
    }
}

// Corruption composition

#[test]
fn corruption_draw_is_never_taken_at_zero_and_always_at_one() {
    for _ in 0..1000 {
        assert!(!corruption_draw(0));
        assert!(corruption_draw(PERCENT_SCALE));
    }
}

fn constant_column(corrupted: u32) -> CorruptedProvider {
    CorruptedProvider {
        provider: Provider::ConstantString(ConstantStringProvider {
            data: "x".to_string(),
        }),
        corrupted,
    }
}

#[test]
fn given_0_corrupted_should_not_call_corrupt() {
    let corr = constant_column(0);
    for i in 0..1000 {
        // The constant is one char; a corrupted substitute has ten.
        assert_eq!(corr.value(i), Value::Str("x".to_string()));
    }
}

#[test]
fn given_1_corrupted_should_only_call_corrupt() {
    let corr = constant_column(PERCENT_SCALE);
    for i in 0..1000 {
        match corr.value(i) {
            Value::Str(s) => assert_eq!(s.chars().count(), 10),
            _ => panic!(),
        }
    }
}

#[test]
fn given_0_5_corrupted_should_call_corrupt() {
    let corr = constant_column(PERCENT_SCALE / 2);
    let mut plain = 0;
    let mut corrupted = 0;
    for i in 0..1000 {
        match corr.value(i) {
            Value::Str(s) => {
                if s == "x" {
                    plain += 1;
                } else {
                    corrupted += 1;
                }
            }
            _ => panic!(),
        }
    }
    assert!((450..550).contains(&plain));
    assert!((450..550).contains(&corrupted));
}

#[test]
fn corruption_preserves_the_value_kind() {
    let columns: Vec<CorruptedProvider> = vec![
        CorruptedProvider {
            provider: Provider::IncrementInteger(IncrementIntegerProvider { start: 0, step: 1 }),
            corrupted: PERCENT_SCALE / 2,
        },
        CorruptedProvider {
            provider: Provider::RandomBool(BoolProvider {}),
            corrupted: PERCENT_SCALE / 2,
        },
        constant_column(PERCENT_SCALE / 2),
    ];
    for provider in &columns {
        let kind = provider.kind();
        for i in 0..200 {
            assert_eq!(provider.value(i).kind(), kind);
            assert_eq!(provider.corrupted_value(i).kind(), kind);
        }
    }
}

// The registry

#[test]
fn given_increment_should_return_provider() {
    let provider_name = "increment.integer";
    let column = column_with(vec![]);
    match ProviderBuilder::get_corresponding_provider(provider_name, &column, &small_corpora()) {
        Ok(_) => (),
        _ => panic!(),
    }
}

#[test]
fn given_person_should_return_provider() {
    let provider_name = "person.email";
    let column = column_with(vec![]);
    match ProviderBuilder::get_corresponding_provider(provider_name, &column, &small_corpora()) {
        Ok(_) => (),
        _ => panic!(),
    }
}

#[test]
fn given_random_should_return_provider() {
    let provider_name = "random.string.alphanumeric";
    let column = column_with(vec![]);
    match ProviderBuilder::get_corresponding_provider(provider_name, &column, &small_corpora()) {
        Ok(_) => (),
        _ => panic!(),
    }
}

#[test]
fn given_wrong_provider_should_return_error() {
    let provider_name = "not_a_provider";
    let column = column_with(vec![]);
    match ProviderBuilder::get_corresponding_provider(provider_name, &column, &small_corpora()) {
        Err(_) => (),
        _ => panic!(),
    }
}

#[test]
fn registry_folds_case_and_picks_families() {
    let column = column_with(vec![]);
    let corpora = small_corpora();
    let built =
        ProviderBuilder::get_corresponding_provider("Random.Number.I32", &column, &corpora)
            .unwrap();
    assert_eq!(built.kind(), ValueKind::Int32);
    let built = ProviderBuilder::get_corresponding_provider("person.fname", &column, &corpora)
        .unwrap();
    match built {
        Provider::ListString(p) => assert_eq!(p.data, corpora.first_names),
        _ => panic!(),
    }
}

#[test]
fn given_no_max_param_should_use_default() {
    let provider = I32Provider::new_from_raw(&column_with(vec![("min", RawValue::Int(-100))]));
    assert_eq!(provider.min, -100);
    assert_eq!(provider.max, DEFAULT_MAX);
}

#[test]
fn given_no_min_param_should_use_default() {
    let provider = I32Provider::new_from_raw(&column_with(vec![("max", RawValue::Int(100))]));
    assert_eq!(provider.min, DEFAULT_MIN);
    assert_eq!(provider.max, 100);
}

#[test]
fn given_too_small_min_param_should_use_default() {
    let provider = I32Provider::new_from_raw(&column_with(vec![
        ("min", RawValue::Int(i64::MIN)),
        ("max", RawValue::Int(100)),
    ]));
    assert_eq!(provider.min, DEFAULT_MIN);
    assert_eq!(provider.max, 100);
}

#[test]
fn given_too_big_max_param_should_use_default() {
    let provider = I32Provider::new_from_raw(&column_with(vec![
        ("min", RawValue::Int(-100)),
        ("max", RawValue::Int(i64::MAX)),
    ]));
    assert_eq!(provider.min, -100);
    assert_eq!(provider.max, DEFAULT_MAX);
}

#[test]
fn given_nothing_should_return_parquet_type() {
    let provider = IncrementIntegerProvider::new_from_raw(&column_with(vec![]));
    match provider.value(0) {
        Value::Int32(_) => (),
        _ => panic!(),
    };
}

#[test]
fn alphanumeric_default_length_is_ten() {
    let provider = AlphanumericProvider::new_from_raw(&column_with(vec![]));
    assert_eq!(provider.min_length, 10);
    assert_eq!(provider.max_length, 11);
}

#[test]
fn every_provider_keeps_its_kind_across_rows() {
    // The logical type learned for a column holds for every row, both for
    // plain and for corrupted emissions.
    let corpora = small_corpora();
    let column = column_with(vec![]);
    let ids = [
        "increment.integer",
        "person.email",
        "person.fname",
        "random.bool",
        "random.date.date",
        "random.date.datetime",
        "random.number.i32",
        "random.string.alphanumeric",
        "constant.string",
    ];
    for id in ids {
        let provider =
            ProviderBuilder::get_corresponding_provider(id, &column, &corpora).unwrap();
        let kind = provider.kind();
        for i in 0..50 {
            assert_eq!(provider.value(i).kind(), kind);
            assert_eq!(provider.corrupted_value(i).kind(), kind);
        }
    }
}
