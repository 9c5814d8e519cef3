use event_derive::expand::{expand, DeclData, ExpandError, Input, SyntheticParams};
use event_derive::generics::{Param, ParamKind};
use event_derive::naming::VariantInput;

fn p(kind: ParamKind, value: u32) -> Param<u32> {
    Param { kind, value }
}

fn synthetic() -> SyntheticParams<u32> {
    SyntheticParams { event_type: 100, frame_lifetime: 101, bp_lifetime: 102, holder_lifetime: 103 }
}

fn input(generics: Vec<Param<u32>>) -> Input<u32> {
    Input {
        ident: "MyEvents".to_string(),
        generics,
        data: DeclData::Enum(vec![
            VariantInput { ident: "VariantA".to_string(), rename: Some("event_a".to_string()) },
            VariantInput { ident: "VariantB".to_string(), rename: None },
            VariantInput { ident: "VariantC".to_string(), rename: None },
        ]),
        prefix: Some("abc".to_string()),
    }
}

#[test]
fn struct_is_refused() {
    let i = Input::<u32> { ident: "S".to_string(), generics: vec![], data: DeclData::Struct, prefix: None };
    assert_eq!(expand(i, synthetic()), Err(ExpandError::Shape));
}

#[test]
fn empty_generics_are_extended() {
    let e = expand(input(vec![]), synthetic()).unwrap();
    assert_eq!(e.ident, "MyEvents");
    assert!(e.naming_generics.is_empty());
    assert_eq!(
        e.publish_generics,
        vec![p(ParamKind::Lifetime, 101), p(ParamKind::Lifetime, 102), p(ParamKind::Type, 100)]
    );
    assert_eq!(e.downcast_generics, vec![p(ParamKind::Lifetime, 103)]);
}

#[test]
fn mixed_generics_are_extended_in_order() {
    let g = vec![p(ParamKind::Lifetime, 1), p(ParamKind::Type, 2), p(ParamKind::Const, 3)];
    let e = expand(input(g.clone()), synthetic()).unwrap();
    assert_eq!(e.naming_generics, g);
    assert_eq!(
        e.publish_generics,
        vec![
            p(ParamKind::Lifetime, 1),
            p(ParamKind::Lifetime, 101),
            p(ParamKind::Lifetime, 102),
            p(ParamKind::Type, 2),
            p(ParamKind::Type, 100),
            p(ParamKind::Const, 3),
        ]
    );
    assert_eq!(
        e.downcast_generics,
        vec![p(ParamKind::Lifetime, 1), p(ParamKind::Lifetime, 103), p(ParamKind::Type, 2), p(ParamKind::Const, 3)]
    );
}

#[test]
fn arms_follow_prefix_and_renames() {
    let e = expand(input(vec![]), synthetic()).unwrap();
    let ids: Vec<&str> = e.arms.iter().map(|a| a.identifier.as_str()).collect();
    assert_eq!(ids, vec!["event_a", "abcVariantB", "abcVariantC"]);
    let names: Vec<&str> = e.arms.iter().map(|a| a.variant.as_str()).collect();
    assert_eq!(names, vec!["VariantA", "VariantB", "VariantC"]);
}

#[test]
fn expanding_twice_gives_the_same_output() {
    let g = vec![p(ParamKind::Type, 2), p(ParamKind::Const, 3)];
    let a = expand(input(g.clone()), synthetic());
    let b = expand(input(g), synthetic());
    assert_eq!(a, b);
}
