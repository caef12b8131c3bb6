use fakelake::parameters::percentage::PERCENT_SCALE;
use fakelake::presence::{new_from_raw, Presence};
use fakelake::raw::{RawColumn, RawValue};

fn column_with(param_name: &str, value: Option<RawValue>) -> RawColumn {
    let mut params: Vec<(String, RawValue)> = Vec::new();
    if let Some(v) = value {
        params.push((param_name.to_string(), v));
    }
    RawColumn {
        name: "id".to_string(),
        params,
    }
}

fn generate_presence(presence: Option<RawValue>) -> Presence {
    new_from_raw(&column_with("presence", presence))
}

fn check_always_present(presence: Presence) -> bool {
    !presence.can_be_null()
}

fn check_never_present(presence: Presence) -> bool {
    if !presence.can_be_null() {
        return false;
    }
    for _ in 0..10 {
        if presence.is_next_present() {
            return false;
        }
    }
    true
}

fn check_sometimes_present(presence: Presence) -> bool {
    if !presence.can_be_null() {
        return false;
    }
    let first_run = presence.is_next_present();
    for _ in 0..100 {
        if presence.is_next_present() != first_run {
            return true;
        }
    }
    false
}

#[test]
fn given_0_int_presence_should_give_never_present() {
    let presence = generate_presence(Some(RawValue::Int(0)));
    assert!(check_never_present(presence));
}

#[test]
fn given_1_int_presence_should_give_always_present() {
    let presence = generate_presence(Some(RawValue::Int(1)));
    assert!(check_always_present(presence));
}

#[test]
fn given_between_0_and_1_presence_should_give_sometimes_present() {
    let presence = generate_presence(Some(RawValue::Real("0.3".to_string())));
    assert!(check_sometimes_present(presence));
}

#[test]
fn given_no_presence_should_give_always_present() {
    let presence = generate_presence(None);
    assert!(check_always_present(presence));
}

#[test]
fn given_0_float_presence_should_give_never_present() {
    let presence = generate_presence(Some(RawValue::Real("0.0".to_string())));
    assert!(check_never_present(presence));
}

#[test]
fn given_less_than_0_int_presence_should_give_never_present() {
    let presence = generate_presence(Some(RawValue::Int(-5)));
    assert!(check_never_present(presence));
}

#[test]
fn given_more_than_1_int_presence_should_give_always_present() {
    let presence = generate_presence(Some(RawValue::Int(5)));
    assert!(check_always_present(presence));
}

#[test]
fn presence_given_always_should_return_true() {
    let presence = Presence::AlwaysPresent;
    assert!(!presence.can_be_null());
    for _ in 1..100 {
        assert!(presence.is_next_present());
    }
}

#[test]
fn presence_given_never_should_return_false() {
    let presence = Presence::NeverPresent;
    assert!(presence.can_be_null());
    for _ in 1..100 {
        assert!(!presence.is_next_present());
    }
}

#[test]
fn presence_option_given_always_should_return_true() {
    let presence = Presence::AlwaysPresent;
    assert!(!presence.can_be_null());
    for _ in 1..100 {
        assert!(presence.is_next_present());
    }
}

#[test]
fn presence_option_given_never_should_return_false() {
    let presence = Presence::NeverPresent;
    assert!(presence.can_be_null());
    for _ in 1..100 {
        assert!(!presence.is_next_present());
    }
}

#[test]
fn given_sometimes_should_return_random() {
    let presence = Presence::SometimesPresent(PERCENT_SCALE / 2);
    assert!(presence.can_be_null());

    let mut count: i64 = 0;
    for _ in 1..10000 {
        match presence.is_next_present() {
            false => count -= 1,
            true => count += 1,
        };
    }
    assert!(count < 500);
}

#[test]
fn sometimes_present_fraction_tracks_probability() {
    let p = 0.3_f64;
    let presence = generate_presence(Some(RawValue::Real("0.3".to_string())));
    assert!(presence.can_be_null());

    let draws = 10_000;
    let mut hits: u32 = 0;
    for _ in 0..draws {
        if presence.is_next_present() {
            hits += 1;
        }
    }
    let fraction = hits as f64 / draws as f64;
    assert!((fraction - p).abs() < 0.05);
}
