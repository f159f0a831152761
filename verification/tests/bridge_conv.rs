use minijinja_bridge::bridge::{attr_retry_allowed, marshal_arguments, to_minijinja_value, to_python_value};
use minijinja_bridge::error::EngineErrorKind;
use minijinja_bridge::value::{DynamicObject, EngineValue, Enumerator, HostOrdering, ObjectShape};

use pyo3::types::{PyAny, PyAnyMethods, PyDict, PyDictMethods, PyList, PyListMethods, PyTuple};
use pyo3::{Bound, IntoPyObjectExt, Py, Python};

/// Builds a class through the host's own `type(name, bases, dict)`.
fn py_class<'py>(
    py: Python<'py>,
    name: &str,
    base: Bound<'py, PyAny>,
    attrs: Vec<(&str, Bound<'py, PyAny>)>,
) -> Bound<'py, PyAny> {
    let builtins = py.import("builtins").unwrap();
    let typ = builtins.getattr("type").unwrap();
    let bases = PyTuple::new(py, [base]).unwrap();
    let dict = PyDict::new(py);
    for (k, v) in attrs {
        dict.set_item(k, v).unwrap();
    }
    typ.call1((name, bases, dict)).unwrap()
}

/// A callable with no self-binding behaviour, through `functools.partial`.
fn py_partial<'py>(py: Python<'py>, f: Bound<'py, PyAny>) -> Bound<'py, PyAny> {
    let functools = py.import("functools").unwrap();
    functools.getattr("partial").unwrap().call1((f,)).unwrap()
}

fn namespace<'py>(py: Python<'py>, attrs: Vec<(&str, i64)>) -> Bound<'py, PyAny> {
    let types = py.import("types").unwrap();
    let cls = types.getattr("SimpleNamespace").unwrap();
    let kwargs = PyDict::new(py);
    for (k, v) in attrs {
        kwargs.set_item(k, v).unwrap();
    }
    cls.call(PyTuple::empty(py), Some(&kwargs)).unwrap()
}

#[test]
fn round_trip_identity_returns_the_same_host_object() {
    Python::attach(|py| {
        let dict = PyDict::new(py);
        dict.set_item("a", 1i64).unwrap();
        let obj: Py<PyAny> = dict.clone().into_any().unbind();
        let value = to_minijinja_value(&obj);
        assert!(matches!(value, EngineValue::Dynamic(_)));
        let back = to_python_value(&value).unwrap();
        assert!(back.bind(py).is(&dict));
    });
}

#[test]
fn scalars_convert_by_value_toward_engine() {
    Python::attach(|py| {
        let none = py.None();
        assert!(matches!(to_minijinja_value(&none), EngineValue::Null));

        let t = true.into_py_any(py).unwrap();
        assert!(matches!(to_minijinja_value(&t), EngineValue::Bool(true)));

        let n = 42i64.into_py_any(py).unwrap();
        assert!(matches!(to_minijinja_value(&n), EngineValue::Int(42)));

        let f = 2.5f64.into_py_any(py).unwrap();
        match to_minijinja_value(&f) {
            EngineValue::FloatBits(bits) => assert_eq!(f64::from_bits(bits), 2.5),
            other => panic!("expected a float, got {:?}", kind_name(&other)),
        }

        let s = "hello".into_py_any(py).unwrap();
        match to_minijinja_value(&s) {
            EngineValue::Str { text, safe } => {
                assert_eq!(text, "hello");
                assert!(!safe);
            }
            other => panic!("expected a string, got {:?}", kind_name(&other)),
        }
    });
}

fn kind_name(v: &EngineValue) -> &'static str {
    match v {
        EngineValue::Undefined => "undefined",
        EngineValue::Null => "null",
        EngineValue::Bool(_) => "bool",
        EngineValue::Int(_) => "int",
        EngineValue::UInt(_) => "uint",
        EngineValue::FloatBits(_) => "float",
        EngineValue::Str { .. } => "string",
        EngineValue::Bytes(_) => "bytes",
        EngineValue::Dynamic(_) => "dynamic",
        EngineValue::PlainObject(_) => "plain object",
        EngineValue::SeqObject(_) => "seq object",
        EngineValue::MapObject(_) => "map object",
        EngineValue::Kwargs(_) => "kwargs",
        EngineValue::Invalid(_) => "invalid",
    }
}

#[test]
fn markup_capable_string_is_marked_safe_and_plain_string_is_not() {
    Python::attach(|py| {
        let rendered = "<b>ok</b>".into_py_any(py).unwrap();
        let html_fn = py_partial(py, rendered.bind(py).getattr("format").unwrap());
        let builtins = py.import("builtins").unwrap();
        let str_base = builtins.getattr("str").unwrap();
        let cls = py_class(py, "MarkupString", str_base, vec![("__html__", html_fn)]);
        let inst = cls.call1(("ignored text",)).unwrap().unbind();
        match to_minijinja_value(&inst) {
            EngineValue::Str { text, safe } => {
                assert_eq!(text, "<b>ok</b>");
                assert!(safe);
            }
            other => panic!("expected a string, got {:?}", kind_name(&other)),
        }

        let plain = "ignored text".into_py_any(py).unwrap();
        match to_minijinja_value(&plain) {
            EngineValue::Str { safe, .. } => assert!(!safe),
            other => panic!("expected a string, got {:?}", kind_name(&other)),
        }
    });
}

#[test]
fn sequence_of_three_enumerates_three_values_in_order() {
    Python::attach(|py| {
        let list = PyList::new(py, [10i64, 20, 30]).unwrap();
        let obj = DynamicObject::new(list.into_any().unbind());
        assert_eq!(obj.repr(), ObjectShape::Sequence);
        match obj.enumerate() {
            Enumerator::SeqLen(n) => assert_eq!(n, 3),
            _ => panic!("expected a length-based enumerator"),
        }
        for (i, expected) in [(0i64, 10i64), (1, 20), (2, 30)] {
            let got = obj.get_value(&EngineValue::Int(i)).unwrap();
            assert!(matches!(got, EngineValue::Int(v) if v == expected));
        }
    });
}

#[test]
fn mapping_keeps_its_key_set_and_plain_object_cannot_be_enumerated() {
    Python::attach(|py| {
        let dict = PyDict::new(py);
        dict.set_item("a", 1i64).unwrap();
        dict.set_item("b", 2i64).unwrap();
        let obj = DynamicObject::new(dict.clone().into_any().unbind());
        assert_eq!(obj.repr(), ObjectShape::Mapping);
        let back = to_python_value(&EngineValue::Dynamic(obj)).unwrap();
        let back_dict = back.bind(py).cast::<PyDict>().unwrap();
        assert_eq!(back_dict.len(), 2);
        assert!(back_dict.contains("a").unwrap());
        assert!(back_dict.contains("b").unwrap());

        let builtins = py.import("builtins").unwrap();
        let plain = builtins.getattr("object").unwrap().call0().unwrap();
        let plain_obj = DynamicObject::new(plain.unbind());
        assert_eq!(plain_obj.repr(), ObjectShape::Plain);
        assert!(matches!(plain_obj.enumerate(), Enumerator::NonEnumerable));
    });
}

#[test]
fn iterable_shape_drains_one_pass() {
    Python::attach(|py| {
        let builtins = py.import("builtins").unwrap();
        let list = PyList::new(py, [1i64, 2]).unwrap();
        let it = builtins.getattr("iter").unwrap().call1((list,)).unwrap();
        let obj = DynamicObject::new(it.unbind());
        match obj.enumerate() {
            Enumerator::Values(vals) => {
                assert_eq!(vals.len(), 2);
                assert!(matches!(vals[0], EngineValue::Int(1)));
                assert!(matches!(vals[1], EngineValue::Int(2)));
            }
            _ => panic!("expected drained values"),
        }
    });
}

#[test]
fn private_method_call_fails_before_reaching_the_host() {
    Python::attach(|py| {
        let list = PyList::new(py, [1i64]).unwrap();
        let obj = DynamicObject::new(list.into_any().unbind());
        // `__len__` exists on the host object, yet the policy rejects it
        // before any host call.
        let r = obj.call_method(None, "__len__", &Vec::new());
        match r {
            Err(e) => {
                assert_eq!(e.kind, EngineErrorKind::InvalidOperation);
                assert_eq!(e.detail, Some(String::from("insecure method call")));
            }
            Ok(_) => panic!("a private-marked method must be rejected"),
        }
    });
}

#[test]
fn private_attribute_lookup_never_reaches_the_host() {
    Python::attach(|py| {
        let ns = namespace(py, vec![("_private", 5)]);
        let obj = DynamicObject::new(ns.unbind());
        // The attribute exists on the host object; the policy still blocks
        // the fallback, so the lookup reports "no value".
        let r = obj.get_value(&EngineValue::Str { text: String::from("_private"), safe: false });
        assert!(r.is_none());
    });
}

#[test]
fn safe_attribute_fallback_reaches_the_host() {
    Python::attach(|py| {
        let ns = namespace(py, vec![("x", 7)]);
        let obj = DynamicObject::new(ns.unbind());
        let r = obj.get_value(&EngineValue::Str { text: String::from("x"), safe: false });
        assert!(matches!(r, Some(EngineValue::Int(7))));
    });
}

#[test]
fn genuinely_missing_key_is_absence_not_error() {
    Python::attach(|py| {
        let dict = PyDict::new(py);
        dict.set_item("present", 1i64).unwrap();
        let obj = DynamicObject::new(dict.into_any().unbind());
        let r = obj.get_value(&EngineValue::Str { text: String::from("missing"), safe: false });
        assert!(r.is_none());
    });
}

#[test]
fn unrelated_host_failure_surfaces_with_its_cause() {
    Python::attach(|py| {
        // A subscript that divides one by the key: C()[0] raises the host's
        // division-by-zero error, which is no "missing" condition.
        let one = 1i64.into_py_any(py).unwrap();
        let getitem = py_partial(py, one.bind(py).getattr("__truediv__").unwrap());
        let builtins = py.import("builtins").unwrap();
        let base = builtins.getattr("object").unwrap();
        let cls = py_class(py, "Dividing", base, vec![("__getitem__", getitem)]);
        let inst = cls.call0().unwrap();
        let obj = DynamicObject::new(inst.unbind());
        match obj.get_value(&EngineValue::Int(0)) {
            Some(EngineValue::Invalid(e)) => {
                assert_eq!(e.kind, EngineErrorKind::InvalidOperation);
                assert_eq!(e.causes.len(), 1);
                assert!(e.causes[0].message.contains("division by zero"));
            }
            _ => panic!("a non-missing host failure must surface as an error"),
        }
    });
}

#[test]
fn keyword_bag_splits_into_positionals_and_mapping() {
    Python::attach(|py| {
        let args = vec![
            EngineValue::Int(1),
            EngineValue::Int(2),
            EngineValue::Kwargs(vec![(String::from("x"), EngineValue::Int(3))]),
        ];
        let (pos, kw) = marshal_arguments(None, &args).unwrap();
        assert_eq!(pos.len(), 2);
        assert_eq!(pos[0].bind(py).extract::<i64>().unwrap(), 1);
        assert_eq!(pos[1].bind(py).extract::<i64>().unwrap(), 2);
        let kw = kw.expect("one keyword bag must produce a mapping");
        let kw = kw.bind(py);
        assert_eq!(kw.len(), 1);
        assert_eq!(kw.get_item("x").unwrap().unwrap().extract::<i64>().unwrap(), 3);
    });
}

#[test]
fn no_keyword_bag_means_no_mapping_at_all() {
    Python::attach(|py| {
        let _ = py;
        let args = vec![EngineValue::Int(1)];
        let (pos, kw) = marshal_arguments(None, &args).unwrap();
        assert_eq!(pos.len(), 1);
        assert!(kw.is_none());
    });
}

#[test]
fn wrapped_callable_is_called_with_converted_arguments() {
    Python::attach(|py| {
        let builtins = py.import("builtins").unwrap();
        let len_fn = DynamicObject::new(builtins.getattr("len").unwrap().unbind());
        let list = PyList::new(py, [1i64, 2, 3]).unwrap();
        let arg = to_minijinja_value(&list.into_any().unbind());
        let r = len_fn.call(None, &vec![arg]).unwrap();
        assert!(matches!(r, EngineValue::Int(3)));
    });
}

#[test]
fn toward_host_materializes_scalars_and_containers() {
    Python::attach(|py| {
        assert!(to_python_value(&EngineValue::Null).unwrap().bind(py).is_none());
        assert!(to_python_value(&EngineValue::Undefined).unwrap().bind(py).is_none());
        assert_eq!(
            to_python_value(&EngineValue::Bool(true)).unwrap().bind(py).extract::<bool>().unwrap(),
            true
        );
        assert_eq!(
            to_python_value(&EngineValue::Int(-5)).unwrap().bind(py).extract::<i64>().unwrap(),
            -5
        );
        assert_eq!(
            to_python_value(&EngineValue::UInt(u64::MAX))
                .unwrap()
                .bind(py)
                .extract::<u64>()
                .unwrap(),
            u64::MAX
        );
        let f = to_python_value(&EngineValue::FloatBits(2.5f64.to_bits())).unwrap();
        assert_eq!(f.bind(py).extract::<f64>().unwrap(), 2.5);
        let b = to_python_value(&EngineValue::Bytes(vec![1, 2, 3])).unwrap();
        assert_eq!(b.bind(py).extract::<Vec<u8>>().unwrap(), vec![1, 2, 3]);
        let s = to_python_value(&EngineValue::Str { text: String::from("hi"), safe: false })
            .unwrap();
        assert_eq!(s.bind(py).extract::<String>().unwrap(), "hi");
        let p = to_python_value(&EngineValue::PlainObject(String::from("shown"))).unwrap();
        assert_eq!(p.bind(py).extract::<String>().unwrap(), "shown");

        let m = to_python_value(&EngineValue::MapObject(vec![(
            EngineValue::Str { text: String::from("k"), safe: false },
            EngineValue::Int(9),
        )]))
        .unwrap();
        let m = m.bind(py).cast::<PyDict>().unwrap();
        assert_eq!(m.len(), 1);
        assert_eq!(m.get_item("k").unwrap().unwrap().extract::<i64>().unwrap(), 9);

        let l = to_python_value(&EngineValue::SeqObject(vec![
            EngineValue::Int(1),
            EngineValue::Str { text: String::from("two"), safe: false },
        ]))
        .unwrap();
        let l = l.bind(py).cast::<PyList>().unwrap();
        assert_eq!(l.len(), 2);
        assert_eq!(l.get_item(0).unwrap().extract::<i64>().unwrap(), 1);
    });
}

#[test]
fn invalid_value_cannot_roundtrip_toward_host() {
    Python::attach(|py| {
        let _ = py;
        let inner = minijinja_bridge::error::BridgeError::new(
            EngineErrorKind::UnknownMethod,
            "no such method",
        );
        match to_python_value(&EngineValue::Invalid(inner)) {
            Err(e) => {
                assert_eq!(e.kind, EngineErrorKind::InvalidOperation);
                assert_eq!(
                    e.detail,
                    Some(String::from("object invalid value cannot roundtrip"))
                );
            }
            Ok(_) => panic!("an invalid value must not roundtrip"),
        }
    });
}

#[test]
fn comparison_delegates_and_declines_gracefully() {
    Python::attach(|py| {
        let a = DynamicObject::new(PyList::new(py, [1i64]).unwrap().into_any().unbind());
        let b = DynamicObject::new(PyList::new(py, [2i64]).unwrap().into_any().unbind());
        assert_eq!(a.custom_cmp(&b), Some(HostOrdering::Less));
        assert_eq!(b.custom_cmp(&a), Some(HostOrdering::Greater));
        assert_eq!(a.custom_cmp(&a), Some(HostOrdering::Equal));

        let d = DynamicObject::new(PyDict::new(py).into_any().unbind());
        assert_eq!(a.custom_cmp(&d), None);
    });
}

#[test]
fn truthiness_delegates_to_the_host() {
    Python::attach(|py| {
        let empty = DynamicObject::new(PyList::empty(py).into_any().unbind());
        assert!(!empty.is_true());
        let full = DynamicObject::new(PyList::new(py, [1i64]).unwrap().into_any().unbind());
        assert!(full.is_true());
    });
}

#[test]
fn render_matches_the_host_string_conversion() {
    Python::attach(|py| {
        let list = PyList::new(py, [1i64, 2]).unwrap();
        let obj = DynamicObject::new(list.into_any().unbind());
        assert_eq!(obj.render(), "[1, 2]");
    });
}

#[test]
fn attribute_safety_policy_on_names() {
    assert!(minijinja_bridge::bridge::is_safe_attr("items"));
    assert!(minijinja_bridge::bridge::is_safe_attr(""));
    assert!(!minijinja_bridge::bridge::is_safe_attr("_private"));
    assert!(!minijinja_bridge::bridge::is_safe_attr("__class__"));
}

#[test]
fn attribute_retry_policy_needs_missing_error_and_safe_string_key() {
    let safe = EngineValue::Str { text: String::from("x"), safe: false };
    let unsafe_key = EngineValue::Str { text: String::from("_x"), safe: false };
    assert!(attr_retry_allowed(true, &safe));
    assert!(!attr_retry_allowed(false, &safe));
    assert!(!attr_retry_allowed(true, &unsafe_key));
    assert!(!attr_retry_allowed(true, &EngineValue::Int(0)));
}

#[test]
fn kwargs_marker_is_recognized() {
    assert!(EngineValue::Kwargs(vec![]).is_kwargs());
    assert!(!EngineValue::Int(1).is_kwargs());
    assert_eq!(
        EngineValue::Str { text: String::from("k"), safe: false }.as_str(),
        Some(&String::from("k"))
    );
    assert_eq!(EngineValue::Null.as_str(), None);
}

#[test]
fn state_aware_callee_gets_the_state_prepended() {
    Python::attach(|py| {
        let aware = namespace(py, vec![("__minijinja_pass_state__", 1)]);
        let state = 99i64.into_py_any(py).unwrap();
        let args = vec![EngineValue::Int(7)];
        let (pos, kw) = minijinja_bridge::bridge::to_python_args(
            &aware.unbind(),
            Some(state),
            &args,
        )
        .unwrap();
        assert_eq!(pos.len(), 2);
        assert_eq!(pos[0].bind(py).extract::<i64>().unwrap(), 99);
        assert_eq!(pos[1].bind(py).extract::<i64>().unwrap(), 7);
        assert!(kw.is_none());

        let unaware = namespace(py, vec![]);
        let state = 99i64.into_py_any(py).unwrap();
        let (pos, _) = minijinja_bridge::bridge::to_python_args(
            &unaware.unbind(),
            Some(state),
            &args,
        )
        .unwrap();
        assert_eq!(pos.len(), 1);
        assert_eq!(pos[0].bind(py).extract::<i64>().unwrap(), 7);
    });
}

#[test]
fn truthiness_failure_defaults_to_true() {
    Python::attach(|py| {
        // A __bool__ that raises: the probe fails and the bridge fails open.
        let one = 1i64.into_py_any(py).unwrap();
        let bad_bool = py_partial(py, one.bind(py).getattr("__truediv__").unwrap());
        let builtins = py.import("builtins").unwrap();
        let base = builtins.getattr("object").unwrap();
        let cls = py_class(py, "Unjudgeable", base, vec![("__bool__", bad_bool)]);
        let inst = cls.call0().unwrap();
        let obj = DynamicObject::new(inst.unbind());
        assert!(obj.is_true());
    });
}

#[test]
fn failed_length_query_degrades_to_empty_sequence() {
    Python::attach(|py| {
        // Subscriptable (so sequence-shaped) but with a __len__ that raises.
        let one = 1i64.into_py_any(py).unwrap();
        let bad_len = py_partial(py, one.bind(py).getattr("__truediv__").unwrap());
        let getitem = py_partial(py, one.bind(py).getattr("__add__").unwrap());
        let builtins = py.import("builtins").unwrap();
        let base = builtins.getattr("object").unwrap();
        let cls = py_class(
            py,
            "LyingSequence",
            base,
            vec![("__getitem__", getitem), ("__len__", bad_len)],
        );
        let inst = cls.call0().unwrap();
        let obj = DynamicObject::new(inst.unbind());
        if obj.repr() == ObjectShape::Sequence {
            assert!(matches!(obj.enumerate(), Enumerator::SeqLen(0)));
        }
    });
}

#[test]
fn float_coercible_objects_convert_by_value() {
    Python::attach(|py| {
        let decimal = py.import("decimal").unwrap();
        let d = decimal.getattr("Decimal").unwrap().call1(("2.5",)).unwrap();
        match to_minijinja_value(&d.unbind()) {
            EngineValue::FloatBits(bits) => assert_eq!(f64::from_bits(bits), 2.5),
            other => panic!("expected a float, got {:?}", kind_name(&other)),
        }
        // An integer beyond 64 bits takes the same coercion the host offers.
        let two = 2i64.into_py_any(py).unwrap();
        let big = two.bind(py).getattr("__pow__").unwrap().call1((100i64,)).unwrap();
        match to_minijinja_value(&big.unbind()) {
            EngineValue::FloatBits(bits) => {
                assert_eq!(f64::from_bits(bits), 1267650600228229401496703205376.0)
            }
            other => panic!("expected a float, got {:?}", kind_name(&other)),
        }
    });
}

#[test]
fn unrepresentable_argument_fails_a_call_before_it_is_made() {
    Python::attach(|py| {
        let builtins = py.import("builtins").unwrap();
        let len_fn = DynamicObject::new(builtins.getattr("len").unwrap().unbind());
        let bad = EngineValue::SeqObject(vec![EngineValue::Invalid(
            minijinja_bridge::error::BridgeError::new(EngineErrorKind::UndefinedError, "gone"),
        )]);
        match len_fn.call(None, &vec![bad]) {
            Err(e) => assert_eq!(e.kind, EngineErrorKind::InvalidOperation),
            Ok(_) => panic!("an unconvertible argument must fail the call"),
        }
    });
}

#[test]
fn mapping_probe_asks_for_both_capabilities() {
    Python::attach(|py| {
        let dict = PyDict::new(py).into_any().unbind();
        assert!(minijinja_bridge::bridge::is_dictish(&dict));
        let list = PyList::empty(py).into_any().unbind();
        assert!(!minijinja_bridge::bridge::is_dictish(&list));
    });
}
