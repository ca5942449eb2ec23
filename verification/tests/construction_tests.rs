use std::rc::Rc;

use ators::errors::Error;
use ators::errors::Expected;
use ators::host::HostCallable;
use ators::host::HostCalls;
use ators::member::MemberBuilder;
use ators::meta::create_ators_subclass;
use ators::meta::get_member;
use ators::meta::get_members_by_tag;
use ators::meta::init_ators;
use ators::validators::Coercer;
use ators::validators::TypeValidator;
use ators::value::Value;
use ators::value::value_eq;

struct NoHost;

impl HostCalls for NoHost {
    fn call_callable(&mut self, _target: &HostCallable, _args: Vec<Value>) -> Result<Value, Error> {
        Err(Error::HostFailure { detail: String::from("no host") })
    }

    fn call_method(&mut self, _meth_name: &String, _args: Vec<Value>) -> Result<Value, Error> {
        Err(Error::HostFailure { detail: String::from("no host") })
    }

    fn construct(
        &mut self,
        _class_id: u64,
        _args: &Vec<Value>,
        _kwargs: &Vec<(String, Value)>,
    ) -> Result<Value, Error> {
        Err(Error::HostFailure { detail: String::from("no host") })
    }

    fn construct_primitive(
        &mut self,
        _target: ators::host::PrimitiveTarget,
        _value: &Value,
    ) -> Result<Value, Error> {
        Err(Error::HostFailure { detail: String::from("no host") })
    }
}

fn int_builder(name: &str) -> (String, MemberBuilder) {
    let mut b = MemberBuilder::new();
    b.set_type_validator(TypeValidator::Int);
    (String::from(name), b)
}

fn base_with_one_int(type_id: u64, tname: &str, attr: &str) -> Rc<ators::meta::AtorsType> {
    let t = create_ators_subclass(
        type_id,
        String::from(tname),
        Vec::new(),
        vec![int_builder(attr)],
        Vec::new(),
        false,
    )
    .unwrap();
    Rc::new(t)
}

#[test]
fn colliding_indexes_are_repaired_in_the_subtype_only() {
    // Two unrelated base types each place their only attribute at index 0.
    let a = base_with_one_int(1, "Left", "left_val");
    let b = base_with_one_int(2, "Right", "right_val");
    let la = get_member(&a, &String::from("left_val")).unwrap().index();
    let rb = get_member(&b, &String::from("right_val")).unwrap().index();
    assert_eq!(la, 0);
    assert_eq!(rb, 0);
    // A subtype declaring nothing of its own resolves the collision.
    let sub = create_ators_subclass(
        3,
        String::from("Both"),
        vec![a.clone(), b.clone()],
        Vec::new(),
        Vec::new(),
        false,
    )
    .unwrap();
    let li = get_member(&sub, &String::from("left_val")).unwrap().index();
    let ri = get_member(&sub, &String::from("right_val")).unwrap().index();
    assert_ne!(li, ri);
    // Each base still reports its original index.
    assert_eq!(get_member(&a, &String::from("left_val")).unwrap().index(), 0);
    assert_eq!(get_member(&b, &String::from("right_val")).unwrap().index(), 0);
}

#[test]
fn non_frozen_subtype_of_frozen_base_fails() {
    let frozen_base = Rc::new(
        create_ators_subclass(
            1,
            String::from("Sealed"),
            Vec::new(),
            vec![int_builder("value")],
            Vec::new(),
            true,
        )
        .unwrap(),
    );
    match create_ators_subclass(
        2,
        String::from("Open"),
        vec![frozen_base.clone()],
        Vec::new(),
        Vec::new(),
        false,
    ) {
        Err(Error::FrozenBase { base, sub }) => {
            assert_eq!(base, String::from("Sealed"));
            assert_eq!(sub, String::from("Open"));
        },
        _ => panic!("expected a frozen-base report"),
    }
    // A frozen subtype of a frozen base is fine.
    assert!(
        create_ators_subclass(
            3,
            String::from("AlsoSealed"),
            vec![frozen_base],
            Vec::new(),
            Vec::new(),
            true,
        )
        .is_ok()
    );
}

#[test]
fn overriding_attribute_reuses_the_inherited_index() {
    let base = base_with_one_int(1, "Base", "value");
    let sub = create_ators_subclass(
        2,
        String::from("Sub"),
        vec![base.clone()],
        vec![int_builder("value")],
        Vec::new(),
        false,
    )
    .unwrap();
    assert_eq!(
        get_member(&sub, &String::from("value")).unwrap().index(),
        get_member(&base, &String::from("value")).unwrap().index(),
    );
}

#[test]
fn unknown_hook_method_rejects_construction() {
    let mut b = MemberBuilder::new();
    b.set_type_validator(TypeValidator::Int);
    b.preget(ators::member::PreGetattrBehavior::ObjectMethod {
        meth_name: String::from("observe"),
    });
    match create_ators_subclass(
        1,
        String::from("Watched"),
        Vec::new(),
        vec![(String::from("value"), b)],
        Vec::new(),
        false,
    ) {
        Err(Error::UnknownMethod { member, behavior, meth }) => {
            assert_eq!(member, String::from("value"));
            assert_eq!(behavior, String::from("pre_getattr"));
            assert_eq!(meth, String::from("observe"));
        },
        _ => panic!("expected an unknown-method report"),
    }
    // The same hook resolves once the method is declared on the type.
    let mut b = MemberBuilder::new();
    b.set_type_validator(TypeValidator::Int);
    b.preget(ators::member::PreGetattrBehavior::ObjectMethod {
        meth_name: String::from("observe"),
    });
    assert!(
        create_ators_subclass(
            2,
            String::from("Watched"),
            Vec::new(),
            vec![(String::from("value"), b)],
            vec![String::from("observe")],
            false,
        )
        .is_ok()
    );
}

#[test]
fn metadata_tags_select_members() {
    let mut tagged = MemberBuilder::new();
    tagged.set_type_validator(TypeValidator::Int);
    tagged.tag(vec![(String::from("kind"), Value::Str(String::from("size")))]);
    let plain = int_builder("other");
    let t = create_ators_subclass(
        1,
        String::from("Tagged"),
        Vec::new(),
        vec![(String::from("width"), tagged), plain],
        Vec::new(),
        false,
    )
    .unwrap();
    let hits = get_members_by_tag(&t, &String::from("kind"));
    assert_eq!(hits.len(), 1);
    assert_eq!(hits[0].0, String::from("width"));
    assert!(value_eq(&hits[0].2, &Value::Str(String::from("size"))));
}

#[test]
fn init_rejects_unknown_member_names() {
    let base = base_with_one_int(1, "Holder", "count");
    let mut obj = base.new_instance().unwrap();
    let mut host = NoHost;
    match init_ators(
        &base,
        &mut obj,
        &vec![(String::from("missing"), Value::Int(1))],
        &mut host,
    ) {
        Err(Error::UnknownMember { name }) => assert_eq!(name, String::from("missing")),
        _ => panic!("expected an unknown-member report"),
    }
}

#[test]
fn point_end_to_end() {
    // Declare Point{x: Int, y: Int}.
    let point = create_ators_subclass(
        1,
        String::from("Point"),
        Vec::new(),
        vec![int_builder("x"), int_builder("y")],
        Vec::new(),
        false,
    )
    .unwrap();
    let mut obj = point.new_instance().unwrap();
    let mut host = NoHost;
    // Instantiate with x=1, y=2.
    init_ators(
        &point,
        &mut obj,
        &vec![
            (String::from("x"), Value::Int(1)),
            (String::from("y"), Value::Int(2)),
        ],
        &mut host,
    )
    .unwrap();
    // Reading x returns 1.
    let mx = get_member(&point, &String::from("x")).unwrap().clone();
    let read = mx.read(&mut obj, &mut host).unwrap();
    assert!(value_eq(&read, &Value::Int(1)));
    // Writing x=3.5 fails type validation (no coercer configured) with a
    // report naming x and Point.
    match mx.write(&mut obj, Value::Float(0x400C000000000000), &mut host) {
        Err(Error::Mismatch { expected: Expected::Int, ctx, .. }) => {
            let ctx = ctx.unwrap();
            assert_eq!(ctx.member, String::from("x"));
            assert_eq!(ctx.owner, String::from("Point"));
        },
        _ => panic!("expected a mismatch naming the attribute and its owner"),
    }
    // With a coercer configured, writing x="3" succeeds and stores 3.
    let mut xb = MemberBuilder::new();
    xb.set_type_validator(TypeValidator::Int);
    xb.coerce(Some(Coercer::TypeInferred));
    let coercing_point = create_ators_subclass(
        2,
        String::from("Point"),
        Vec::new(),
        vec![(String::from("x"), xb), int_builder("y")],
        Vec::new(),
        false,
    )
    .unwrap();
    let mut obj2 = coercing_point.new_instance().unwrap();
    let mx2 = get_member(&coercing_point, &String::from("x")).unwrap().clone();
    mx2.write(&mut obj2, Value::Str(String::from("3")), &mut host).unwrap();
    let read = mx2.read(&mut obj2, &mut host).unwrap();
    assert!(value_eq(&read, &Value::Int(3)));
}

#[test]
fn builder_without_name_or_slot_fails_to_build() {
    let b = MemberBuilder::new();
    match b.build(&String::from("Holder")) {
        Err(Error::MissingMemberName { owner }) => assert_eq!(owner, String::from("Holder")),
        _ => panic!("expected a missing-name report"),
    }
    let mut b = MemberBuilder::new();
    b.name = Some(String::from("x"));
    match b.build(&String::from("Holder")) {
        Err(Error::MissingSlotIndex { member, owner }) => {
            assert_eq!(member, String::from("x"));
            assert_eq!(owner, String::from("Holder"));
        },
        _ => panic!("expected a missing-slot report"),
    }
}

#[test]
fn union_members_inherit_requested_structural_coercion() {
    let mut b = MemberBuilder::new();
    b.name = Some(String::from("mixed"));
    b.slot_index = Some(0);
    b.set_type_validator(TypeValidator::Union {
        members: vec![
            ators::validators::Validator::new(TypeValidator::Int, None, None, None),
            ators::validators::Validator::new(TypeValidator::Bool, None, None, None),
        ],
    });
    b.coerce(Some(Coercer::TypeInferred));
    let m = b.build(&String::from("Holder")).unwrap();
    let mut obj = ators::instance::AtorsBase::new(String::from("Holder"), 1).unwrap();
    let mut host = NoHost;
    // The numeral coerces through the union's first member.
    m.write(&mut obj, Value::Str(String::from("12")), &mut host).unwrap();
    let r = m.read(&mut obj, &mut host).unwrap();
    assert!(value_eq(&r, &Value::Int(12)));
}

#[test]
fn cloned_member_keeps_everything_but_the_index() {
    let base = base_with_one_int(1, "Holder", "count");
    let m = get_member(&base, &String::from("count")).unwrap();
    let twin = m.clone_with_index(9);
    assert_eq!(twin.name(), &String::from("count"));
    assert_eq!(twin.index(), 9);
    assert_eq!(m.index(), 0);
}

#[test]
fn metadata_tag_and_value_selects_exact_matches() {
    let mut small = MemberBuilder::new();
    small.set_type_validator(TypeValidator::Int);
    small.tag(vec![(String::from("kind"), Value::Str(String::from("size")))]);
    let mut other = MemberBuilder::new();
    other.set_type_validator(TypeValidator::Int);
    other.tag(vec![(String::from("kind"), Value::Str(String::from("color")))]);
    let t = create_ators_subclass(
        1,
        String::from("Tagged"),
        Vec::new(),
        vec![(String::from("width"), small), (String::from("hue"), other)],
        Vec::new(),
        false,
    )
    .unwrap();
    let (hits, _, _) = ators::meta::get_members_by_tag_and_value(
        &t,
        &String::from("kind"),
        &Value::Str(String::from("color")),
    );
    assert_eq!(hits.len(), 1);
    assert_eq!(hits[0].0, String::from("hue"));
}

#[test]
fn init_falls_back_to_the_init_coercer() {
    let mut b = MemberBuilder::new();
    b.set_type_validator(TypeValidator::Int);
    b.coerce_init(Some(Coercer::TypeInferred));
    let t = create_ators_subclass(
        1,
        String::from("Holder"),
        Vec::new(),
        vec![(String::from("count"), b)],
        Vec::new(),
        false,
    )
    .unwrap();
    let mut obj = t.new_instance().unwrap();
    let mut host = NoHost;
    // The numeral fails ordinary assignment but the initialization-time
    // coercer repairs it.
    init_ators(
        &t,
        &mut obj,
        &vec![(String::from("count"), Value::Str(String::from("8")))],
        &mut host,
    )
    .unwrap();
    let m = get_member(&t, &String::from("count")).unwrap().clone();
    let r = m.read(&mut obj, &mut host).unwrap();
    assert!(value_eq(&r, &Value::Int(8)));
}

#[test]
fn more_attributes_than_slots_fail_at_construction() {
    let mut wide: Vec<(String, MemberBuilder)> = Vec::new();
    for i in 0..255 {
        let mut b = MemberBuilder::new();
        b.set_type_validator(TypeValidator::Int);
        wide.push((format!("a{}", i), b));
    }
    assert!(
        create_ators_subclass(1, String::from("Wide"), Vec::new(), wide, Vec::new(), false).is_ok()
    );
    let mut too_wide: Vec<(String, MemberBuilder)> = Vec::new();
    for i in 0..256 {
        let mut b = MemberBuilder::new();
        b.set_type_validator(TypeValidator::Int);
        too_wide.push((format!("a{}", i), b));
    }
    match create_ators_subclass(
        2,
        String::from("TooWide"),
        Vec::new(),
        too_wide,
        Vec::new(),
        false,
    ) {
        Err(Error::SlotsExhausted { owner }) => assert_eq!(owner, String::from("TooWide")),
        _ => panic!("expected construction to reject the oversized type"),
    }
}
