use gr_playground::params::{is_mass_field, mass_field};

#[test]
fn tag_alone_is_mass_field() {
    assert!(is_mass_field("SpacetimeParamsM"));
}

#[test]
fn tag_inside_a_longer_name() {
    assert!(is_mass_field("panel/SpacetimeParamsMass"));
    assert!(is_mass_field("xSpacetimeParamsM"));
}

#[test]
fn other_names_are_not_mass_fields() {
    assert!(!is_mass_field(""));
    assert!(!is_mass_field("SpacetimeParams"));
    assert!(!is_mass_field("spacetimeparamsm"));
    assert!(!is_mass_field("SpacetimeParamsQ"));
    assert!(!is_mass_field("Größe SpacetimeParams M"));
}

#[test]
fn tag_after_non_ascii_text() {
    assert!(is_mass_field("Größe·SpacetimeParamsM"));
}

#[test]
fn mass_field_picks_the_tagged_input() {
    let names = vec!["SpacetimeParamsA".to_string(), "SpacetimeParamsM".to_string(), "Other".to_string()];
    assert_eq!(mass_field(&names), Some(1));
}

#[test]
fn mass_field_last_tagged_input_wins() {
    let names = vec!["SpacetimeParamsM".to_string(), "x".to_string(), "SpacetimeParamsM2".to_string()];
    assert_eq!(mass_field(&names), Some(2));
}

#[test]
fn mass_field_absent() {
    assert_eq!(mass_field(&vec!["TODO".to_string(), "".to_string()]), None);
    assert_eq!(mass_field(&Vec::new()), None);
}
