use ators::errors::ErrCtx;
use ators::errors::Error;
use ators::errors::Expected;
use ators::host::HostCallable;
use ators::host::HostCalls;
use ators::instance::AtorsBase;
use ators::member::DefaultBehavior;
use ators::member::DelattrBehavior;
use ators::member::MemberBuilder;
use ators::member::PreGetattrBehavior;
use ators::member::PreSetattrBehavior;
use ators::validators::Coercer;
use ators::validators::LateResolvedValidator;
use ators::validators::TypeValidator;
use ators::validators::Validator;
use ators::validators::ValueValidator;
use ators::validators::parse_int;
use ators::validators::truthy;
use ators::value::Value;
use ators::value::value_eq;

struct NoHost;

impl HostCalls for NoHost {
    fn call_callable(&mut self, _target: &HostCallable, _args: Vec<Value>) -> Result<Value, Error> {
        Err(Error::HostFailure { detail: String::from("no host") })
    }

    fn call_method(&mut self, _meth_name: &String, _args: Vec<Value>) -> Result<Value, Error> {
        Err(Error::HostFailure { detail: String::from("no host") })
    }

    fn construct(
        &mut self,
        _class_id: u64,
        _args: &Vec<Value>,
        _kwargs: &Vec<(String, Value)>,
    ) -> Result<Value, Error> {
        Err(Error::HostFailure { detail: String::from("no host") })
    }

    fn construct_primitive(
        &mut self,
        _target: ators::host::PrimitiveTarget,
        _value: &Value,
    ) -> Result<Value, Error> {
        Err(Error::HostFailure { detail: String::from("no host") })
    }
}

fn no_ctx() -> Option<ErrCtx> {
    None
}

fn int_validator() -> Validator {
    Validator::new(TypeValidator::Int, None, None, None)
}

#[test]
fn primitive_validate_accepts_and_is_idempotent() {
    let v = int_validator();
    let mut host = NoHost;
    let r1 = v.validate(&no_ctx(), &Value::Int(7), &mut host).unwrap();
    assert!(value_eq(&r1, &Value::Int(7)));
    let r2 = v.validate(&no_ctx(), &r1, &mut host).unwrap();
    assert!(value_eq(&r2, &r1));
}

#[test]
fn primitive_validate_rejects_wrong_kind() {
    let v = int_validator();
    let mut host = NoHost;
    let r = v.validate(&no_ctx(), &Value::Str(String::from("5")), &mut host);
    match r {
        Err(Error::Mismatch { expected: Expected::Int, value, ctx }) => {
            assert!(value_eq(&value, &Value::Str(String::from("5"))));
            assert!(ctx.is_none());
        },
        _ => panic!("expected an integer mismatch"),
    }
}

#[test]
fn container_identity_fast_path() {
    let v = Validator::new(
        TypeValidator::VarTuple { item: Some(Box::new(int_validator())) },
        None,
        None,
        None,
    );
    let mut host = NoHost;
    let value = Value::Tuple(vec![Value::Int(1), Value::Int(2), Value::Int(3)]);
    let r = v.validate(&no_ctx(), &value, &mut host).unwrap();
    assert!(value_eq(&r, &value));
}

#[test]
fn tuple_wrong_arity_cites_both_lengths() {
    let v = Validator::new(
        TypeValidator::Tuple { items: vec![int_validator(), int_validator()] },
        None,
        None,
        None,
    );
    let mut host = NoHost;
    let value = Value::Tuple(vec![Value::Int(1), Value::Int(2), Value::Int(3)]);
    match v.validate(&no_ctx(), &value, &mut host) {
        Err(Error::WrongArity { expected, actual, .. }) => {
            assert_eq!(expected, 2);
            assert_eq!(actual, 3);
        },
        _ => panic!("expected an arity report"),
    }
}

#[test]
fn tuple_fails_at_first_invalid_position() {
    let v = Validator::new(
        TypeValidator::Tuple { items: vec![int_validator(), int_validator()] },
        None,
        None,
        None,
    );
    let mut host = NoHost;
    let value = Value::Tuple(vec![Value::Int(1), Value::Bool(true)]);
    match v.validate(&no_ctx(), &value, &mut host) {
        Err(Error::ItemInvalid { index, cause, .. }) => {
            assert_eq!(index, 1);
            match *cause {
                Error::Mismatch { expected: Expected::Int, .. } => {},
                _ => panic!("expected the inner mismatch"),
            }
        },
        _ => panic!("expected a positional report"),
    }
}

#[test]
fn union_first_success_wins() {
    // Any accepts everything; Int would too for this value.  The first
    // member's semantics must apply: Any returns the value unchanged.
    let v = Validator::new(
        TypeValidator::Union {
            members: vec![
                Validator::new(TypeValidator::Any, None, None, None),
                int_validator(),
            ],
        },
        None,
        None,
        None,
    );
    let mut host = NoHost;
    let r = v.validate(&no_ctx(), &Value::Bool(true), &mut host).unwrap();
    assert!(value_eq(&r, &Value::Bool(true)));
}

#[test]
fn union_failure_keeps_every_reason_in_order() {
    let v = Validator::new(
        TypeValidator::Union {
            members: vec![
                int_validator(),
                Validator::new(TypeValidator::Str, None, None, None),
            ],
        },
        None,
        None,
        None,
    );
    let mut host = NoHost;
    match v.validate(&no_ctx(), &Value::NoneValue, &mut host) {
        Err(Error::UnionMismatch { causes, .. }) => {
            assert_eq!(causes.len(), 2);
            match &causes[0] {
                Error::Mismatch { expected: Expected::Int, .. } => {},
                _ => panic!("expected the integer reason first"),
            }
            match &causes[1] {
                Error::Mismatch { expected: Expected::Str, .. } => {},
                _ => panic!("expected the text reason second"),
            }
        },
        _ => panic!("expected an aggregate report"),
    }
}

#[test]
fn values_membership_is_enforced() {
    let v = Validator::new(
        TypeValidator::Int,
        Some(vec![ValueValidator::Values { values: vec![Value::Int(1), Value::Int(2)] }]),
        None,
        None,
    );
    let mut host = NoHost;
    assert!(v.validate(&no_ctx(), &Value::Int(2), &mut host).is_ok());
    match v.validate(&no_ctx(), &Value::Int(3), &mut host) {
        Err(Error::NotPermitted { value, .. }) => {
            assert!(value_eq(&value, &Value::Int(3)));
        },
        _ => panic!("expected a membership report"),
    }
}

#[test]
fn coercion_runs_only_after_strict_failure() {
    let v = Validator::new(TypeValidator::Int, None, Some(Coercer::TypeInferred), None);
    let mut host = NoHost;
    // Strict validation succeeds: the value passes through untouched.
    let r = v.validate(&no_ctx(), &Value::Int(9), &mut host).unwrap();
    assert!(value_eq(&r, &Value::Int(9)));
    // Strict validation fails: the structural coercer parses the numeral.
    let r = v.validate(&no_ctx(), &Value::Str(String::from("-42")), &mut host).unwrap();
    assert!(value_eq(&r, &Value::Int(-42)));
    // No structural conversion exists: the failure is reported.
    assert!(v.validate(&no_ctx(), &Value::Str(String::from("4x")), &mut host).is_err());
}

#[test]
fn coercion_to_bool_uses_truthiness() {
    let v = Validator::new(TypeValidator::Bool, None, Some(Coercer::TypeInferred), None);
    let mut host = NoHost;
    let r = v.validate(&no_ctx(), &Value::Str(String::from("x")), &mut host).unwrap();
    assert!(value_eq(&r, &Value::Bool(true)));
    let r = v.validate(&no_ctx(), &Value::Str(String::new()), &mut host).unwrap();
    assert!(value_eq(&r, &Value::Bool(false)));
    assert!(truthy(&Value::Int(0)) == false);
    assert!(truthy(&Value::Tuple(vec![Value::NoneValue])));
}

#[test]
fn frozen_set_coerces_from_tuple() {
    let v = Validator::new(
        TypeValidator::FrozenSet { item: Some(Box::new(int_validator())) },
        None,
        Some(Coercer::TypeInferred),
        None,
    );
    let mut host = NoHost;
    let r = v
        .validate(&no_ctx(), &Value::Tuple(vec![Value::Int(1), Value::Int(2)]), &mut host)
        .unwrap();
    assert!(value_eq(&r, &Value::FrozenSet(vec![Value::Int(1), Value::Int(2)])));
}

#[test]
fn parse_int_handles_signs_zeros_and_limits() {
    assert_eq!(parse_int(&String::from("0")), Some(0));
    assert_eq!(parse_int(&String::from("-7")), Some(-7));
    assert_eq!(parse_int(&String::from("000123")), Some(123));
    assert_eq!(parse_int(&String::from("9223372036854775807")), Some(i64::MAX));
    assert_eq!(parse_int(&String::from("-9223372036854775808")), Some(i64::MIN));
    assert_eq!(parse_int(&String::from("9223372036854775808")), None);
    assert_eq!(parse_int(&String::from("")), None);
    assert_eq!(parse_int(&String::from("-")), None);
    assert_eq!(parse_int(&String::from("1 2")), None);
}

#[test]
fn forward_contract_resolves_exactly_once() {
    let mut late = LateResolvedValidator::new(String::from("x"), String::from("Int"));
    // Unresolved: validation asks the host to resolve.
    let tv = TypeValidator::ForwardValidator { late_validator: late };
    let mut host = NoHost;
    match tv.validate_type(&no_ctx(), &Value::Int(1), &mut host) {
        Err(Error::UnresolvedForward { name }) => assert_eq!(name, String::from("Int")),
        _ => panic!("expected an unresolved report"),
    }
    // Resolve once; a second resolution must not replace the memo.
    let mut late = LateResolvedValidator::new(String::from("x"), String::from("Int"));
    late.resolve(Ok(TypeValidator::Int));
    late.resolve(Ok(TypeValidator::Str));
    let tv = TypeValidator::ForwardValidator { late_validator: late };
    assert!(tv.validate_type(&no_ctx(), &Value::Int(1), &mut host).is_ok());
    assert!(tv.validate_type(&no_ctx(), &Value::Str(String::from("s")), &mut host).is_err());
    // A cached failure is replayed.
    let mut late = LateResolvedValidator::new(String::from("x"), String::from("Nope"));
    late.resolve(Err(Error::HostFailure { detail: String::from("unknown name") }));
    late.resolve(Ok(TypeValidator::Int));
    let tv = TypeValidator::ForwardValidator { late_validator: late };
    match tv.validate_type(&no_ctx(), &Value::Int(1), &mut host) {
        Err(Error::HostFailure { detail }) => assert_eq!(detail, String::from("unknown name")),
        _ => panic!("expected the cached failure"),
    }
}

#[test]
fn registration_checks_callable_arity() {
    let wrong = HostCallable { id: 1, arity: 5 };
    match PreGetattrBehavior::call_member_object(wrong) {
        Err(Error::WrongCallableArity { expected, actual }) => {
            assert_eq!(expected, 2);
            assert_eq!(actual, 5);
        },
        _ => panic!("expected an arity report"),
    }
    let right = HostCallable { id: 1, arity: 2 };
    assert!(PreGetattrBehavior::call_member_object(right).is_ok());
}

fn int_member(name: &str, index: u8) -> ators::member::Member {
    let mut b = MemberBuilder::new();
    b.name = Some(String::from(name));
    b.slot_index = Some(index);
    b.set_type_validator(TypeValidator::Int);
    b.build(&String::from("Holder")).unwrap()
}

#[test]
fn read_of_unset_slot_without_default_fails() {
    let m = int_member("count", 0);
    let mut obj = AtorsBase::new(String::from("Holder"), 1).unwrap();
    let mut host = NoHost;
    match m.read(&mut obj, &mut host) {
        Err(Error::MissingValue { ctx }) => {
            assert_eq!(ctx.member, String::from("count"));
            assert_eq!(ctx.owner, String::from("Holder"));
        },
        _ => panic!("expected a missing-value report"),
    }
}

#[test]
fn static_default_materializes_once_and_stays() {
    let mut b = MemberBuilder::new();
    b.name = Some(String::from("count"));
    b.slot_index = Some(0);
    b.set_type_validator(TypeValidator::Int);
    b.set_default(DefaultBehavior::Static { value: Value::Int(41) });
    let m = b.build(&String::from("Holder")).unwrap();
    let mut obj = AtorsBase::new(String::from("Holder"), 1).unwrap();
    let mut host = NoHost;
    let first = m.read(&mut obj, &mut host).unwrap();
    assert!(value_eq(&first, &Value::Int(41)));
    // The slot now holds the materialized value; later reads return it.
    let second = m.read(&mut obj, &mut host).unwrap();
    assert!(value_eq(&second, &Value::Int(41)));
    assert!(obj.get_slot(0).is_some());
}

#[test]
fn read_only_member_accepts_one_write() {
    let mut b = MemberBuilder::new();
    b.name = Some(String::from("seal"));
    b.slot_index = Some(0);
    b.set_type_validator(TypeValidator::Int);
    b.set_pre_setattr(PreSetattrBehavior::ReadOnly);
    b.set_delattr(DelattrBehavior::Undeletable);
    let m = b.build(&String::from("Holder")).unwrap();
    let mut obj = AtorsBase::new(String::from("Holder"), 1).unwrap();
    let mut host = NoHost;
    assert!(m.write(&mut obj, Value::Int(5), &mut host).is_ok());
    match m.write(&mut obj, Value::Int(6), &mut host) {
        Err(Error::ReadOnlyMember { .. }) => {},
        _ => panic!("expected a read-only report"),
    }
    // A rejected delete does not reset the already-set condition.
    match m.delete(&mut obj) {
        Err(Error::Undeletable { .. }) => {},
        _ => panic!("expected an undeletable report"),
    }
    match m.write(&mut obj, Value::Int(7), &mut host) {
        Err(Error::ReadOnlyMember { .. }) => {},
        _ => panic!("expected a read-only report after the rejected delete"),
    }
    let r = m.read(&mut obj, &mut host).unwrap();
    assert!(value_eq(&r, &Value::Int(5)));
}

#[test]
fn constant_member_rejects_every_write() {
    let mut b = MemberBuilder::new();
    b.name = Some(String::from("pi_ish"));
    b.slot_index = Some(0);
    b.set_type_validator(TypeValidator::Int);
    b.constant();
    let m = b.build(&String::from("Holder")).unwrap();
    let mut obj = AtorsBase::new(String::from("Holder"), 1).unwrap();
    let mut host = NoHost;
    match m.write(&mut obj, Value::Int(3), &mut host) {
        Err(Error::ConstantMember { .. }) => {},
        _ => panic!("expected a constant-member report"),
    }
}

#[test]
fn frozen_instance_rejects_writes() {
    let m = int_member("count", 0);
    let mut obj = AtorsBase::new(String::from("Holder"), 1).unwrap();
    let mut host = NoHost;
    assert!(m.write(&mut obj, Value::Int(1), &mut host).is_ok());
    ators::instance::freeze(&mut obj);
    assert!(ators::instance::is_frozen(&obj));
    match m.write(&mut obj, Value::Int(2), &mut host) {
        Err(Error::FrozenInstance { .. }) => {},
        _ => panic!("expected a frozen-instance report"),
    }
    // Reads still work on a frozen instance.
    let r = m.read(&mut obj, &mut host).unwrap();
    assert!(value_eq(&r, &Value::Int(1)));
}

#[test]
fn delete_clears_a_deletable_slot() {
    let m = int_member("count", 0);
    let mut obj = AtorsBase::new(String::from("Holder"), 1).unwrap();
    let mut host = NoHost;
    assert!(m.write(&mut obj, Value::Int(1), &mut host).is_ok());
    assert!(m.delete(&mut obj).is_ok());
    assert!(obj.get_slot(0).is_none());
}

#[test]
fn coercion_to_text_renders_integers_and_truth_values() {
    let v = Validator::new(TypeValidator::Str, None, Some(Coercer::TypeInferred), None);
    let mut host = NoHost;
    let r = v.validate(&no_ctx(), &Value::Int(-42), &mut host).unwrap();
    assert!(value_eq(&r, &Value::Str(String::from("-42"))));
    let r = v.validate(&no_ctx(), &Value::Int(0), &mut host).unwrap();
    assert!(value_eq(&r, &Value::Str(String::from("0"))));
    let r = v.validate(&no_ctx(), &Value::Bool(true), &mut host).unwrap();
    assert!(value_eq(&r, &Value::Str(String::from("True"))));
    let r = v.validate(&no_ctx(), &Value::Bool(false), &mut host).unwrap();
    assert!(value_eq(&r, &Value::Str(String::from("False"))));
}

#[test]
fn coercion_to_bytes_zero_fills_from_a_count() {
    let v = Validator::new(TypeValidator::Bytes, None, Some(Coercer::TypeInferred), None);
    let mut host = NoHost;
    let r = v.validate(&no_ctx(), &Value::Int(3), &mut host).unwrap();
    assert!(value_eq(&r, &Value::Bytes(vec![0u8, 0u8, 0u8])));
    assert!(v.validate(&no_ctx(), &Value::Int(-1), &mut host).is_err());
}

#[test]
fn host_backed_coercion_fails_without_a_host() {
    // Conversions the model cannot state are the host constructors'
    // business; with no host they fail.
    let v = Validator::new(TypeValidator::Float, None, Some(Coercer::TypeInferred), None);
    let mut host = NoHost;
    match v.validate(&no_ctx(), &Value::Int(7), &mut host) {
        Err(Error::HostFailure { .. }) => {},
        _ => panic!("expected the host's failure to pass through"),
    }
}

#[test]
fn pre_write_hook_decides_before_the_frozen_check() {
    // A constant member rejects as constant even on a frozen instance: the
    // pre-write hook runs with the current value before the frozen check.
    let mut b = MemberBuilder::new();
    b.name = Some(String::from("sealed"));
    b.slot_index = Some(0);
    b.set_type_validator(TypeValidator::Int);
    b.constant();
    let m = b.build(&String::from("Holder")).unwrap();
    let mut obj = AtorsBase::new(String::from("Holder"), 1).unwrap();
    ators::instance::freeze(&mut obj);
    let mut host = NoHost;
    match m.write(&mut obj, Value::Int(1), &mut host) {
        Err(Error::ConstantMember { .. }) => {},
        _ => panic!("expected the constant rejection to come first"),
    }
}
