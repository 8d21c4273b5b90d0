use taskbar_weather::location::{resolve, ConfigurationError, Location};

fn some(text: &str) -> Option<String> {
    Some(text.to_string())
}

#[test]
fn command_line_city_wins_over_configuration() {
    let location = resolve(some("Helsinki"), None, some("Oulu"), some("FI")).unwrap();
    assert_eq!(location.city, "Helsinki");
    assert_eq!(location.country, "FI");
}

#[test]
fn command_line_country_wins_over_configuration() {
    let location = resolve(None, some("se"), some("Oulu"), some("FI")).unwrap();
    assert_eq!(location.city, "Oulu");
    assert_eq!(location.country, "SE");
}

#[test]
fn command_line_alone_settles_the_location() {
    let location = resolve(some("Turku"), some("fi"), None, None).unwrap();
    assert_eq!(location, Location { city: "Turku".to_string(), country: "FI".to_string() });
}

#[test]
fn configuration_alone_settles_the_location() {
    let location = resolve(None, None, some("Oulu"), some("fi")).unwrap();
    assert_eq!(location, Location { city: "Oulu".to_string(), country: "FI".to_string() });
}

#[test]
fn city_and_country_are_settled_independently() {
    let location = resolve(some("Kemi"), None, None, some("Fi")).unwrap();
    assert_eq!(location.city, "Kemi");
    assert_eq!(location.country, "FI");
    let location = resolve(None, some("no"), some("Oslo"), None).unwrap();
    assert_eq!(location.city, "Oslo");
    assert_eq!(location.country, "NO");
}

#[test]
fn city_keeps_its_case() {
    let location = resolve(some("oulu"), some("fi"), None, None).unwrap();
    assert_eq!(location.city, "oulu");
}

#[test]
fn country_from_configuration_is_upper_cased() {
    let location = resolve(some("Oulu"), None, None, some("finland")).unwrap();
    assert_eq!(location.country, "FINLAND");
}

#[test]
fn upper_casing_touches_ascii_letters_only() {
    let location = resolve(some("Oulu"), some("\u{e5}l-1z"), None, None).unwrap();
    assert_eq!(location.country, "\u{e5}L-1Z");
    assert_eq!(location.country, "\u{e5}l-1z".to_ascii_uppercase());
}

#[test]
fn upper_casing_agrees_with_the_standard_library() {
    let all: String = (0u8..128).map(|b| b as char).collect();
    let location = resolve(some("x"), Some(all.clone()), None, None).unwrap();
    assert_eq!(location.country, all.to_ascii_uppercase());
}

#[test]
fn an_empty_value_is_a_value() {
    let location = resolve(some(""), some(""), some("Oulu"), some("FI")).unwrap();
    assert_eq!(location.city, "");
    assert_eq!(location.country, "");
}

#[test]
fn missing_city_fails() {
    assert_eq!(resolve(None, some("FI"), None, some("FI")), Err(ConfigurationError::LocationMissing));
}

#[test]
fn missing_country_fails() {
    assert_eq!(
        resolve(some("Oulu"), None, some("Oulu"), None),
        Err(ConfigurationError::LocationMissing)
    );
}

#[test]
fn nothing_given_fails() {
    assert_eq!(resolve(None, None, None, None), Err(ConfigurationError::LocationMissing));
}

#[test]
fn a_clone_is_equal() {
    let location = resolve(some("Oulu"), some("fi"), None, None).unwrap();
    assert_eq!(location.clone(), location);
}
