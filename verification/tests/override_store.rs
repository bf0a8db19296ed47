use color_support::{color_support_get, color_support_override_set, ColorSupport, OverrideStore};

fn one_cycle(store: &mut OverrideStore) {
    color_support_override_set(store, ColorSupport::Ansi256);
    assert_eq!(color_support_get(store), ColorSupport::Ansi256);

    color_support_override_set(store, ColorSupport::Truecolor);
    assert_eq!(color_support_get(store), ColorSupport::Truecolor);

    color_support_override_set(store, ColorSupport::NoColor);
    assert_eq!(color_support_get(store), ColorSupport::NoColor);

    color_support_override_set(store, ColorSupport::NotSet);
    assert_eq!(color_support_get(store), ColorSupport::NotSet);
}

#[test]
fn set_works() {
    let mut store = OverrideStore::new();
    for _ in 0..10 {
        one_cycle(&mut store);
    }
}

#[test]
fn default_state_is_not_set() {
    let store = OverrideStore::new();
    assert_eq!(color_support_get(&store), ColorSupport::NotSet);
    let default_store = OverrideStore::default();
    assert_eq!(color_support_get(&default_store), ColorSupport::NotSet);
}

#[test]
fn override_wins_until_cleared() {
    let mut store = OverrideStore::new();
    color_support_override_set(&mut store, ColorSupport::Ansi256);
    assert_eq!(color_support_get(&store), ColorSupport::Ansi256);
    assert_eq!(color_support_get(&store), ColorSupport::Ansi256);
    color_support_override_set(&mut store, ColorSupport::NotSet);
    assert_eq!(color_support_get(&store), ColorSupport::NotSet);
}

#[test]
fn code_conversions_are_exact() {
    assert_eq!(i8::from(ColorSupport::Ansi256), 1);
    assert_eq!(i8::from(ColorSupport::Truecolor), 2);
    assert_eq!(i8::from(ColorSupport::NoColor), 3);
    assert_eq!(i8::from(ColorSupport::NotSet), -1);

    assert_eq!(ColorSupport::from(1i8), ColorSupport::Ansi256);
    assert_eq!(ColorSupport::from(2i8), ColorSupport::Truecolor);
    assert_eq!(ColorSupport::from(3i8), ColorSupport::NoColor);
    assert_eq!(ColorSupport::from(-1i8), ColorSupport::NotSet);
}

#[test]
fn unknown_codes_decode_to_not_set() {
    assert_eq!(ColorSupport::from(0i8), ColorSupport::NotSet);
    assert_eq!(ColorSupport::from(4i8), ColorSupport::NotSet);
    assert_eq!(ColorSupport::from(-128i8), ColorSupport::NotSet);
    assert_eq!(ColorSupport::from(127i8), ColorSupport::NotSet);
}

#[test]
fn code_round_trip() {
    let all = [
        ColorSupport::Ansi256,
        ColorSupport::Truecolor,
        ColorSupport::NoColor,
        ColorSupport::NotSet,
    ];
    for v in all {
        assert_eq!(ColorSupport::from(i8::from(v)), v);
    }
}
