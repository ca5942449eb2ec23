use ators::errors::Error;
use ators::errors::Expected;
use ators::host::HostCallable;
use ators::host::HostCalls;
use ators::instance::AtorsBase;
use ators::validators::TypeValidator;
use ators::validators::Validator;
use ators::validators::ValueValidator;
use ators::value::Value;
use ators::value::value_eq;

struct NoHost;

impl HostCalls for NoHost {
    fn call_callable(&mut self, _target: &HostCallable, _args: Vec<Value>) -> Result<Value, Error> {
        Err(Error::HostFailure { detail: String::from("no host") })
    }

    fn call_method(&mut self, _meth_name: &String, _args: Vec<Value>) -> Result<Value, Error> {
        Err(Error::HostFailure { detail: String::from("no host") })
    }

    fn construct(
        &mut self,
        _class_id: u64,
        _args: &Vec<Value>,
        _kwargs: &Vec<(String, Value)>,
    ) -> Result<Value, Error> {
        Err(Error::HostFailure { detail: String::from("no host") })
    }

    fn construct_primitive(
        &mut self,
        _target: ators::host::PrimitiveTarget,
        _value: &Value,
    ) -> Result<Value, Error> {
        Err(Error::HostFailure { detail: String::from("no host") })
    }
}

#[test]
fn value_equality_is_structural() {
    let a = Value::Dict(vec![(Value::Str(String::from("k")), Value::Int(1))]);
    let b = Value::Dict(vec![(Value::Str(String::from("k")), Value::Int(1))]);
    let c = Value::Dict(vec![(Value::Str(String::from("k")), Value::Int(2))]);
    assert!(value_eq(&a, &b));
    assert!(!value_eq(&a, &c));
    assert!(!value_eq(&Value::Int(1), &Value::Bool(true)));
    assert!(value_eq(&Value::NoneValue, &Value::NoneValue));
}

#[test]
fn empty_tuple_validates_against_empty_contract() {
    let v = Validator::new(TypeValidator::Tuple { items: Vec::new() }, None, None, None);
    let mut host = NoHost;
    let r = v.validate(&None, &Value::Tuple(Vec::new()), &mut host).unwrap();
    assert!(value_eq(&r, &Value::Tuple(Vec::new())));
    assert!(v.validate(&None, &Value::Tuple(vec![Value::Int(1)]), &mut host).is_err());
}

#[test]
fn dict_contract_checks_keys_and_values() {
    let v = Validator::new(
        TypeValidator::Dict {
            items: Some((
                Box::new(Validator::new(TypeValidator::Str, None, None, None)),
                Box::new(Validator::new(TypeValidator::Int, None, None, None)),
            )),
        },
        None,
        None,
        None,
    );
    let mut host = NoHost;
    let good = Value::Dict(vec![(Value::Str(String::from("k")), Value::Int(1))]);
    assert!(value_eq(&v.validate(&None, &good, &mut host).unwrap(), &good));
    let bad_key = Value::Dict(vec![(Value::Int(9), Value::Int(1))]);
    match v.validate(&None, &bad_key, &mut host) {
        Err(Error::KeyInvalid { key, .. }) => assert!(value_eq(&key, &Value::Int(9))),
        _ => panic!("expected a key report"),
    }
    let bad_val = Value::Dict(vec![(Value::Str(String::from("k")), Value::NoneValue)]);
    match v.validate(&None, &bad_val, &mut host) {
        Err(Error::EntryInvalid { key, .. }) => {
            assert!(value_eq(&key, &Value::Str(String::from("k"))));
        },
        _ => panic!("expected an entry report"),
    }
}

#[test]
fn nominal_checks_use_class_identity() {
    let exact = Validator::new(TypeValidator::Typed { class_id: 7 }, None, None, None);
    let any_of = Validator::new(
        TypeValidator::Instance { class_ids: vec![3, 9] },
        None,
        None,
        None,
    );
    let mut host = NoHost;
    let obj = Value::Obj { class_id: 7, ancestors: vec![3], attrs: Vec::new() };
    assert!(exact.validate(&None, &obj, &mut host).is_ok());
    // The instance check accepts through an ancestor class.
    assert!(any_of.validate(&None, &obj, &mut host).is_ok());
    let stranger = Value::Obj { class_id: 8, ancestors: vec![5], attrs: Vec::new() };
    match exact.validate(&None, &stranger, &mut host) {
        Err(Error::Mismatch { expected: Expected::Class(7), .. }) => {},
        _ => panic!("expected a class mismatch"),
    }
    match any_of.validate(&None, &stranger, &mut host) {
        Err(Error::Mismatch { expected: Expected::OneOfClasses(ids), .. }) => {
            assert_eq!(ids, vec![3, 9]);
        },
        _ => panic!("expected a class-set mismatch"),
    }
}

#[test]
fn structural_generics_check_named_attributes_strictly() {
    let v = Validator::new(
        TypeValidator::GenericAttributes {
            class_id: 4,
            attributes: vec![(
                String::from("size"),
                Validator::new(TypeValidator::Int, None, None, None),
            )],
        },
        None,
        None,
        None,
    );
    let mut host = NoHost;
    let good = Value::Obj {
        class_id: 4,
        ancestors: Vec::new(),
        attrs: vec![(String::from("size"), Value::Int(10))],
    };
    assert!(v.validate(&None, &good, &mut host).is_ok());
    let bad = Value::Obj {
        class_id: 4,
        ancestors: Vec::new(),
        attrs: vec![(String::from("size"), Value::Str(String::from("big")))],
    };
    match v.validate(&None, &bad, &mut host) {
        Err(Error::AttrInvalid { attr, .. }) => assert_eq!(attr, String::from("size")),
        _ => panic!("expected an attribute report"),
    }
    let missing = Value::Obj { class_id: 4, ancestors: Vec::new(), attrs: Vec::new() };
    match v.validate(&None, &missing, &mut host) {
        Err(Error::MissingAttr { attr, .. }) => assert_eq!(attr, String::from("size")),
        _ => panic!("expected a missing-attribute report"),
    }
}

#[test]
fn sequence_constraints_report_the_failing_position() {
    let v = Validator::new(
        TypeValidator::VarTuple {
            item: Some(Box::new(Validator::new(TypeValidator::Int, None, None, None))),
        },
        Some(vec![ValueValidator::SequenceItems {
            item: vec![ValueValidator::Values {
                values: vec![Value::Int(1), Value::Int(2)],
            }],
        }]),
        None,
        None,
    );
    let mut host = NoHost;
    let good = Value::Tuple(vec![Value::Int(1), Value::Int(2)]);
    assert!(v.validate(&None, &good, &mut host).is_ok());
    let bad = Value::Tuple(vec![Value::Int(1), Value::Int(5)]);
    match v.validate(&None, &bad, &mut host) {
        Err(Error::ItemInvalid { index, .. }) => assert_eq!(index, 1),
        _ => panic!("expected a positional report"),
    }
}

#[test]
fn instance_allocation_enforces_the_slot_cap() {
    assert!(AtorsBase::new(String::from("Wide"), 255).is_ok());
    match AtorsBase::new(String::from("TooWide"), 256) {
        Err(Error::SlotsExhausted { owner }) => assert_eq!(owner, String::from("TooWide")),
        _ => panic!("expected a slot-space report"),
    }
}

#[test]
fn mutable_set_validation_rebuilds_from_validated_elements() {
    let v = Validator::new(
        TypeValidator::MutableSet {
            item: Some(Box::new(Validator::new(TypeValidator::Int, None, None, None))),
        },
        None,
        None,
        None,
    );
    let mut host = NoHost;
    let good = Value::MutableSet(vec![Value::Int(1), Value::Int(2)]);
    assert!(value_eq(&v.validate(&None, &good, &mut host).unwrap(), &good));
    let bad = Value::MutableSet(vec![Value::Int(1), Value::NoneValue]);
    match v.validate(&None, &bad, &mut host) {
        Err(Error::ItemInvalid { index, .. }) => assert_eq!(index, 1),
        _ => panic!("expected a positional report"),
    }
}
