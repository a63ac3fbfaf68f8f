use builder::ast::{FieldDecl, TypeRef};
use builder::model::{plan_of, BuilderState, SlotPlan};

#[derive(Clone, Copy, Debug, PartialEq, Eq)]
enum Val {
    I(i64),
    S(&'static str),
}

fn plan(names: &[(&str, bool)]) -> Vec<SlotPlan> {
    names
        .iter()
        .map(|(name, required)| SlotPlan { name: name.to_string(), required: *required })
        .collect()
}

#[test]
fn plan_of_classifies_fields() {
    let fields = vec![
        FieldDecl {
            name: "id".to_string(),
            ty: TypeRef::Other { text: "u64".to_string() },
        },
        FieldDecl {
            name: "nickname".to_string(),
            ty: TypeRef::Applied {
                name: "Option".to_string(),
                args: vec!["String".to_string()],
            },
        },
    ];
    let plan = plan_of(&fields);
    assert_eq!(plan.len(), 2);
    assert_eq!(plan[0].name, "id");
    assert!(plan[0].required);
    assert_eq!(plan[1].name, "nickname");
    assert!(!plan[1].required);
}

#[test]
fn required_field_gating() {
    // Required fields a and b, optional field c: a fresh builder fails on
    // exactly "a"; after a, on exactly "b"; after a and b, it succeeds with
    // c absent.
    let mut b: BuilderState<Val> =
        BuilderState::new_fresh(plan(&[("a", true), ("b", true), ("c", false)]));
    let e = b.build().expect_err("a unset");
    assert_eq!(e.field, "a");
    assert_eq!(e.message(), "field a is not set");
    b.set_field(0, Val::I(1));
    let e = b.build().expect_err("b unset");
    assert_eq!(e.field, "b");
    b.set_field(1, Val::I(2));
    let v = b.build().expect("all required set");
    assert_eq!(v, vec![Some(Val::I(1)), Some(Val::I(2)), None]);
}

#[test]
fn optional_passthrough() {
    let p = plan(&[("a", true), ("c", false)]);
    let mut b: BuilderState<Val> = BuilderState::new_fresh(p);
    b.set_field(0, Val::I(1));
    assert_eq!(b.build().expect("ok"), vec![Some(Val::I(1)), None]);
    b.set_field(1, Val::S("x"));
    assert_eq!(b.build().expect("ok"), vec![Some(Val::I(1)), Some(Val::S("x"))]);
}

#[test]
fn last_write_wins() {
    let mut b: BuilderState<Val> = BuilderState::new_fresh(plan(&[("a", true)]));
    b.set_field(0, Val::S("first"));
    b.set_field(0, Val::S("second"));
    assert_eq!(b.build().expect("ok"), vec![Some(Val::S("second"))]);
}

#[test]
fn setter_order_does_not_matter() {
    let names = [("a", true), ("b", true), ("c", false)];
    let mut forward: BuilderState<Val> = BuilderState::new_fresh(plan(&names));
    forward.set_field(0, Val::I(10));
    forward.set_field(1, Val::I(20));
    forward.set_field(2, Val::I(30));
    let mut backward: BuilderState<Val> = BuilderState::new_fresh(plan(&names));
    backward.set_field(2, Val::I(30));
    backward.set_field(0, Val::I(10));
    backward.set_field(1, Val::I(20));
    assert_eq!(forward.build().expect("ok"), backward.build().expect("ok"));
}

#[test]
fn finalize_is_an_idempotent_query() {
    let mut b: BuilderState<Val> = BuilderState::new_fresh(plan(&[("a", true), ("c", false)]));
    let first = b.build();
    let second = b.build();
    assert_eq!(first.expect_err("a unset").field, second.expect_err("a unset").field);
    b.set_field(0, Val::I(5));
    let first = b.build().expect("ok");
    let second = b.build().expect("ok");
    assert_eq!(first, second);
    // The builder stays usable after a successful finalize.
    b.set_field(1, Val::I(6));
    assert_eq!(b.build().expect("ok"), vec![Some(Val::I(5)), Some(Val::I(6))]);
}

#[test]
fn round_trip() {
    // A record value of the planned shape, fed through the setters field by
    // field, comes back from finalize unchanged.
    let value = vec![Some(Val::I(7)), Some(Val::S("Alice")), None];
    let mut b: BuilderState<Val> =
        BuilderState::new_fresh(plan(&[("id", true), ("name", true), ("nickname", false)]));
    for (i, slot) in value.iter().enumerate() {
        if let Some(v) = slot {
            b.set_field(i, *v);
        }
    }
    assert_eq!(b.build().expect("ok"), value);
}

#[test]
fn user_scenario() {
    let p = plan(&[("id", true), ("name", true), ("nickname", false)]);
    let mut b: BuilderState<Val> = BuilderState::new_fresh(p);
    let e = b.build().expect_err("id unset");
    assert_eq!(e.message(), "field id is not set");
    b.set_field(0, Val::I(7));
    b.set_field(1, Val::S("Alice"));
    assert_eq!(
        b.build().expect("ok"),
        vec![Some(Val::I(7)), Some(Val::S("Alice")), None]
    );
    b.set_field(2, Val::S("Al"));
    assert_eq!(
        b.build().expect("ok"),
        vec![Some(Val::I(7)), Some(Val::S("Alice")), Some(Val::S("Al"))]
    );
}
