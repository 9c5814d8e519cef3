use event_derive::naming::{naming_arms, variant_identifier, NamingArm, VariantInput};

fn variant(name: &str, rename: Option<&str>) -> VariantInput {
    VariantInput { ident: name.to_string(), rename: rename.map(|r| r.to_string()) }
}

#[test]
fn plain_variant_keeps_its_name() {
    assert_eq!(variant_identifier(&None, &variant("EventB", None)), "EventB");
}

#[test]
fn empty_prefix_keeps_the_name() {
    assert_eq!(variant_identifier(&Some(String::new()), &variant("EventB", None)), "EventB");
}

#[test]
fn prefix_goes_before_the_name() {
    assert_eq!(variant_identifier(&Some("abc".to_string()), &variant("EventB", None)), "abcEventB");
}

#[test]
fn rename_overrides_the_prefix() {
    assert_eq!(
        variant_identifier(&Some("abc".to_string()), &variant("EventA", Some("event_a"))),
        "event_a"
    );
    assert_eq!(variant_identifier(&None, &variant("EventA", Some("event_a"))), "event_a");
}

#[test]
fn arms_for_prefixed_declaration() {
    let vs = vec![
        variant("VariantA", Some("event_a")),
        variant("VariantB", None),
        variant("VariantC", None),
    ];
    let arms = naming_arms(&Some("abc".to_string()), &vs);
    let expected = vec![
        NamingArm { variant: "VariantA".to_string(), identifier: "event_a".to_string() },
        NamingArm { variant: "VariantB".to_string(), identifier: "abcVariantB".to_string() },
        NamingArm { variant: "VariantC".to_string(), identifier: "abcVariantC".to_string() },
    ];
    assert_eq!(arms, expected);
}

#[test]
fn arms_for_no_variants() {
    assert!(naming_arms(&Some("abc".to_string()), &Vec::new()).is_empty());
}

#[test]
fn duplicate_identifiers_are_kept() {
    let vs = vec![variant("A", Some("same")), variant("B", Some("same"))];
    let arms = naming_arms(&None, &vs);
    assert_eq!(arms[0].identifier, "same");
    assert_eq!(arms[1].identifier, "same");
}
