//! The bidirectional value bridge. Toward the engine, a host object becomes
//! an engine value without copying: scalars by value, everything else as a
//! lazily bridged wrapped object answering the engine's capability protocol.
//! Toward the host, an engine value becomes a host object eagerly, and a
//! wrapped host object short-circuits back to the original host reference.

use vstd::prelude::*;
use vstd::string::StrSliceExecFns;

use pyo3::types::{PyAny, PyDict};
use pyo3::{Py, PyErr};

use crate::error::{BridgeError, EngineErrorKind};
use crate::pyffi::{
    host_call, host_call0, host_call_method, host_clone_ref, host_compare, host_dict_into_any,
    host_dict_set, host_display, host_err_is_attribute_error, host_err_is_lookup_error,
    host_err_is_type_error, host_err_message, host_extract_bool, host_extract_float_bits, host_extract_i64,
    host_extract_string, host_float_from_bits, host_from_bool, host_from_bytes, host_from_i64,
    host_from_str, host_from_u64, host_get_item, host_getattr, host_hasattr, host_is_callable,
    host_is_none, host_is_sequence, host_is_truthy, host_iter_next, host_len, host_list_append,
    host_list_into_any, host_new_dict, host_new_list, host_none, host_try_iter, mark_string_safe,
};
use crate::value::{
    has_kwargs, plainly_convertible, positional_count, representable, DynamicObject, EngineValue,
    Enumerator, HostOrdering, ObjectShape,
};

verus! {

/// The attribute safety policy: a name is reachable through the bridge's
/// attribute fallback and method-call paths only if it does not begin with
/// the host convention's private/internal marker.
pub open spec fn safe_attr_name(name: Seq<char>) -> bool {
    !(name.len() > 0 && name[0] == '_')
}

/// Whether the attribute safety policy admits the name.
pub fn is_safe_attr(name: &str) -> (r: bool)
    ensures
        r == safe_attr_name(name@),
{
    if name.unicode_len() == 0 {
        true
    } else {
        name.get_char(0) != '_'
    }
}

/// Whether a failed host item lookup may be retried as host attribute
/// access: only when the host failure is of the "missing" class and the key
/// is a string the attribute safety policy admits. A name the policy rejects
/// never reaches the host's attribute protocol.
pub fn attr_retry_allowed(err_is_missing: bool, key: &EngineValue) -> (r: bool)
    ensures
        r == (err_is_missing && (key matches EngineValue::Str { text, .. } && safe_attr_name(
            text@,
        ))),
{
    if !err_is_missing {
        return false;
    }
    match key.as_str() {
        Some(text) => is_safe_attr(text.as_str()),
        None => false,
    }
}

/// Wraps a host exception into an engine error: kind `InvalidOperation`,
/// the exception's rendering as detail and as the one entry of the cause
/// chain.
pub fn error_from_host_exception(err: &PyErr) -> (r: BridgeError)
    ensures
        r.kind == EngineErrorKind::InvalidOperation,
        r.causes@.len() == 1,
        r.detail matches Some(d) && d@ == r.causes@[0].message@,
{
    let message = host_err_message(err);
    BridgeError::from_host_exception(message.as_str())
}

/// Whether the host object exposes both item lookup and a keys/items
/// enumeration capability — the probe behind the `Mapping` shape.
pub fn is_dictish(val: &Py<PyAny>) -> bool {
    host_hasattr(val, "__getitem__") && host_hasattr(val, "items")
}

/// Whether a host failure belongs to the class that means absence rather
/// than a genuine error: the host's missing-attribute, missing-key/index,
/// or wrong-type exception.
fn failure_means_absence(err: &PyErr) -> bool {
    host_err_is_attribute_error(err) || host_err_is_lookup_error(err) || host_err_is_type_error(
        err,
    )
}

/// The string-finalization decision of the toward-engine conversion: a
/// successful "render as markup" probe yields a pre-escaped string, any
/// other string-like scalar a plain one. The safety flag is set on no other
/// path.
pub fn finalize_string(plain: String, rendered: Option<String>) -> (r: EngineValue)
    ensures
        rendered matches Some(m) ==> r == (EngineValue::Str { text: m, safe: true }),
        rendered is None ==> r == (EngineValue::Str { text: plain, safe: false }),
{
    match rendered {
        Some(m) => EngineValue::Str { text: m, safe: true },
        None => EngineValue::Str { text: plain, safe: false },
    }
}

/// The scalar fast path's decision, over the four simple probe answers in
/// priority order: the host's null, else a boolean, else a 64-bit signed
/// integer, else a double-precision float (as its bit pattern); `None`
/// leaves the value to the string probe and the wrapping fallback.
pub open spec fn simple_scalar_of(
    is_none: bool,
    truth: Option<bool>,
    integer: Option<i64>,
    float_bits: Option<u64>,
) -> Option<EngineValue> {
    if is_none {
        Some(EngineValue::Null)
    } else if truth is Some {
        Some(EngineValue::Bool(truth->0))
    } else if integer is Some {
        Some(EngineValue::Int(integer->0))
    } else if float_bits is Some {
        Some(EngineValue::FloatBits(float_bits->0))
    } else {
        None
    }
}

pub fn classify_simple_scalar(
    is_none: bool,
    truth: Option<bool>,
    integer: Option<i64>,
    float_bits: Option<u64>,
) -> (r: Option<EngineValue>)
    ensures
        r == simple_scalar_of(is_none, truth, integer, float_bits),
{
    if is_none {
        Some(EngineValue::Null)
    } else if let Some(b) = truth {
        Some(EngineValue::Bool(b))
    } else if let Some(n) = integer {
        Some(EngineValue::Int(n))
    } else if let Some(bits) = float_bits {
        Some(EngineValue::FloatBits(bits))
    } else {
        None
    }
}

/// The shape decision over the four live probe answers: the sequence
/// protocol wins; else item lookup together with a keys/items capability
/// makes a mapping; else generic iteration; else plain.
pub open spec fn shape_of_probes(
    seq_like: bool,
    has_item_lookup: bool,
    has_items_listing: bool,
    iterable: bool,
) -> ObjectShape {
    if seq_like {
        ObjectShape::Sequence
    } else if has_item_lookup && has_items_listing {
        ObjectShape::Mapping
    } else if iterable {
        ObjectShape::Iterable
    } else {
        ObjectShape::Plain
    }
}

pub fn classify_shape(
    seq_like: bool,
    has_item_lookup: bool,
    has_items_listing: bool,
    iterable: bool,
) -> (r: ObjectShape)
    ensures
        r == shape_of_probes(seq_like, has_item_lookup, has_items_listing, iterable),
{
    if seq_like {
        ObjectShape::Sequence
    } else if has_item_lookup && has_items_listing {
        ObjectShape::Mapping
    } else if iterable {
        ObjectShape::Iterable
    } else {
        ObjectShape::Plain
    }
}

/// The enumerator decision: a sequence-shaped object is enumerated by index
/// up to its length, a failed length query degrading to length 0, never to
/// an error; an iterable one by its drained values; anything else cannot be
/// enumerated.
pub open spec fn enumerator_of(
    seq_like: bool,
    length: Option<usize>,
    drained: Option<Vec<EngineValue>>,
) -> Enumerator {
    if seq_like {
        Enumerator::SeqLen(
            match length {
                Some(n) => n,
                None => 0usize,
            },
        )
    } else {
        match drained {
            Some(values) => Enumerator::Values(values),
            None => Enumerator::NonEnumerable,
        }
    }
}

pub fn classify_enumerator(
    seq_like: bool,
    length: Option<usize>,
    drained: Option<Vec<EngineValue>>,
) -> (r: Enumerator)
    ensures
        r == enumerator_of(seq_like, length, drained),
{
    if seq_like {
        Enumerator::SeqLen(
            match length {
                Some(n) => n,
                None => 0,
            },
        )
    } else {
        match drained {
            Some(values) => Enumerator::Values(values),
            None => Enumerator::NonEnumerable,
        }
    }
}

/// The truthiness decision: the host's answer where it gave one, true where
/// it failed to decide — fail open, never an error.
pub open spec fn truthiness_of(answer: Option<bool>) -> bool {
    match answer {
        Some(b) => b,
        None => true,
    }
}

pub fn truthiness_or_fail_open(answer: Option<bool>) -> (r: bool)
    ensures
        r == truthiness_of(answer),
{
    match answer {
        Some(b) => b,
        None => true,
    }
}

/// The absence-versus-error rule after a failed host lookup that the
/// attribute retry did not rescue: a "missing"-class failure is absence
/// ("no value", never an error); any other failure surfaces as an
/// error-carrying value wrapping the host exception.
pub fn absence_or_error(err_is_missing: bool, err: &PyErr) -> (r: Option<EngineValue>)
    ensures
        err_is_missing <==> r is None,
        r matches Some(v) ==> (v matches EngineValue::Invalid(e) && e.kind
            == EngineErrorKind::InvalidOperation && e.causes@.len() == 1),
{
    if err_is_missing {
        None
    } else {
        Some(EngineValue::Invalid(error_from_host_exception(err)))
    }
}

/// The "render as markup" probe: a zero-argument `__html__` capability
/// whose call returns a string-like scalar. Failures at any step simply
/// decline the probe.
fn probe_markup(value: &Py<PyAny>) -> Option<String> {
    match host_getattr(value, "__html__") {
        Ok(to_html) => {
            if host_is_callable(&to_html) {
                match host_call0(&to_html) {
                    Ok(html) => host_extract_string(&html),
                    Err(_) => None,
                }
            } else {
                None
            }
        },
        Err(_) => None,
    }
}

/// Toward-engine conversion. Total: a host value none of the fast paths
/// recognizes degrades to a wrapped object, never to an error. The simple
/// scalars convert by value through the contracted classifier; a
/// string-like scalar then probes the "render as markup" capability and,
/// when it answers, is marked pre-escaped. A wrapped result retains exactly
/// the given host object, so converting it back toward the host returns the
/// original reference.
pub fn to_minijinja_value(value: &Py<PyAny>) -> (r: EngineValue)
    ensures
        r matches EngineValue::Dynamic(d) ==> d.inner == *value,
        representable(r),
        r is Null || r is Bool || r is Int || r is FloatBits || (r matches EngineValue::Str {
            ..
        }) || r is Dynamic,
{
    let scalar = classify_simple_scalar(
        host_is_none(value),
        host_extract_bool(value),
        host_extract_i64(value),
        host_extract_float_bits(value),
    );
    if let Some(v) = scalar {
        return v;
    }
    if let Some(text) = host_extract_string(value) {
        return finalize_string(text, probe_markup(value));
    }
    EngineValue::Dynamic(DynamicObject::new(host_clone_ref(value)))
}

/// Toward-host conversion, eagerly materializing containers. A wrapped host
/// object short-circuits to the original host reference — this is what makes
/// the bridge bidirectional rather than one-way lossy.
pub fn to_python_value(value: &EngineValue) -> (r: Result<Py<PyAny>, BridgeError>)
    ensures
        value matches EngineValue::Dynamic(d) ==> r matches Ok(p) && p == d.inner,
        plainly_convertible(*value) ==> r is Ok,
        !representable(*value) ==> r is Err,
        r matches Err(e) ==> e.kind == EngineErrorKind::InvalidOperation,
{
    to_python_value_impl(value)
}

/// The toward-host conversion body. Success is owed on every value that
/// needs no host-side failure-prone step: null/undefined, booleans, both
/// integer widths, plain strings, bytes, plain-shaped native objects and
/// wrapped host objects. Conversion fails on its own account exactly on the
/// values `representable` rejects — an error-carrying value at any depth —
/// signaling the unconvertible kind.
pub fn to_python_value_impl(value: &EngineValue) -> (r: Result<Py<PyAny>, BridgeError>)
    ensures
        value matches EngineValue::Dynamic(d) ==> r matches Ok(p) && p == d.inner,
        plainly_convertible(*value) ==> r is Ok,
        !representable(*value) ==> r is Err,
        value matches EngineValue::Invalid(_) ==> (r matches Err(e) && e.kind
            == EngineErrorKind::InvalidOperation && (e.detail matches Some(d) && d@
            == "object invalid value cannot roundtrip"@)),
        r matches Err(e) ==> e.kind == EngineErrorKind::InvalidOperation,
    decreases *value,
{
    match value {
        EngineValue::Dynamic(d) => Ok(host_clone_ref(&d.inner)),
        EngineValue::PlainObject(s) => Ok(host_from_str(s.as_str())),
        EngineValue::MapObject(pairs) => {
            let d = host_new_dict();
            let mut i: usize = 0;
            while i < pairs.len()
                invariant
                    i <= pairs@.len(),
                    *value == EngineValue::MapObject(*pairs),
                    forall|j: int|
                        0 <= j < i ==> representable((#[trigger] pairs@[j]).0) && representable(
                            pairs@[j].1,
                        ),
                decreases pairs@.len() - i,
            {
                proof {
                    assert(decreases_to!(*value => value->MapObject_0));
                    assert(decreases_to!(value->MapObject_0 => value->MapObject_0@));
                    assert(decreases_to!(value->MapObject_0@ => value->MapObject_0@[i as int]));
                    assert(decreases_to!(pairs@[i as int] => pairs@[i as int].0));
                    assert(decreases_to!(pairs@[i as int] => pairs@[i as int].1));
                }
                let k = match to_python_value_impl(&pairs[i].0) {
                    Ok(k) => k,
                    Err(e) => return Err(e),
                };
                let v = match to_python_value_impl(&pairs[i].1) {
                    Ok(v) => v,
                    Err(e) => return Err(e),
                };
                if let Err(he) = host_dict_set(&d, &k, &v) {
                    return Err(error_from_host_exception(&he));
                }
                proof {
                    assert(representable(pairs@[i as int].0));
                    assert(representable(pairs@[i as int].1));
                    assert forall|j: int| 0 <= j < i + 1 implies representable(
                        (#[trigger] pairs@[j]).0,
                    ) && representable(pairs@[j].1) by {
                        if j < i {
                            assert(representable(pairs@[j].0) && representable(pairs@[j].1));
                        }
                    }
                }
                i = i + 1;
            }
            proof {
                assert(representable(*value));
            }
            Ok(host_dict_into_any(d))
        },
        EngineValue::SeqObject(items) => {
            let l = host_new_list();
            let mut i: usize = 0;
            while i < items.len()
                invariant
                    i <= items@.len(),
                    *value == EngineValue::SeqObject(*items),
                    forall|j: int| 0 <= j < i ==> representable(#[trigger] items@[j]),
                decreases items@.len() - i,
            {
                proof {
                    assert(decreases_to!(*value => value->SeqObject_0));
                    assert(decreases_to!(value->SeqObject_0 => value->SeqObject_0@));
                    assert(decreases_to!(value->SeqObject_0@ => value->SeqObject_0@[i as int]));
                }
                let v = match to_python_value_impl(&items[i]) {
                    Ok(v) => v,
                    Err(e) => return Err(e),
                };
                if let Err(he) = host_list_append(&l, &v) {
                    return Err(error_from_host_exception(&he));
                }
                proof {
                    assert(representable(items@[i as int]));
                }
                i = i + 1;
            }
            proof {
                assert(representable(*value));
            }
            Ok(host_list_into_any(l))
        },
        EngineValue::Kwargs(pairs) => {
            let d = host_new_dict();
            let mut i: usize = 0;
            while i < pairs.len()
                invariant
                    i <= pairs@.len(),
                    *value == EngineValue::Kwargs(*pairs),
                    forall|j: int| 0 <= j < i ==> representable(#[trigger] pairs@[j].1),
                decreases pairs@.len() - i,
            {
                proof {
                    assert(decreases_to!(*value => value->Kwargs_0));
                    assert(decreases_to!(value->Kwargs_0 => value->Kwargs_0@));
                    assert(decreases_to!(value->Kwargs_0@ => value->Kwargs_0@[i as int]));
                    assert(decreases_to!(pairs@[i as int] => pairs@[i as int].1));
                }
                let k = host_from_str(pairs[i].0.as_str());
                let v = match to_python_value_impl(&pairs[i].1) {
                    Ok(v) => v,
                    Err(e) => return Err(e),
                };
                if let Err(he) = host_dict_set(&d, &k, &v) {
                    return Err(error_from_host_exception(&he));
                }
                proof {
                    assert(representable(pairs@[i as int].1));
                }
                i = i + 1;
            }
            proof {
                assert(representable(*value));
            }
            Ok(host_dict_into_any(d))
        },
        EngineValue::Undefined => Ok(host_none()),
        EngineValue::Null => Ok(host_none()),
        EngineValue::Bool(b) => Ok(host_from_bool(*b)),
        EngineValue::Int(v) => Ok(host_from_i64(*v)),
        EngineValue::UInt(v) => Ok(host_from_u64(*v)),
        EngineValue::FloatBits(bits) => match host_float_from_bits(*bits) {
            Ok(p) => Ok(p),
            Err(e) => Err(error_from_host_exception(&e)),
        },
        EngineValue::Str { text, safe } => {
            if *safe {
                match mark_string_safe(text.as_str()) {
                    Ok(p) => Ok(p),
                    Err(e) => Err(error_from_host_exception(&e)),
                }
            } else {
                Ok(host_from_str(text.as_str()))
            }
        },
        EngineValue::Bytes(b) => Ok(host_from_bytes(b.as_slice())),
        EngineValue::Invalid(_) => Err(
            BridgeError::new(
                EngineErrorKind::InvalidOperation,
                "object invalid value cannot roundtrip",
            ),
        ),
    }
}

/// Whether the callee asked to be handed the evaluation state: a truthy
/// state-awareness marker attribute.
fn probe_pass_state(callback: &Py<PyAny>) -> bool {
    match host_getattr(callback, "__minijinja_pass_state__") {
        Ok(flag) => match host_is_truthy(&flag) {
            Some(b) => b,
            None => false,
        },
        Err(_) => false,
    }
}

/// Argument marshaling: walks the engine arguments in order; a
/// keyword-argument marker merges its pairs into a lazily created keyword
/// mapping, every other argument appends positionally through the
/// toward-host conversion. The keyword mapping exists exactly when at least
/// one keyword-argument marker occurred; positional order is preserved, a
/// supplied state handle standing first; success is owed when every
/// argument converts without a failure-prone host step.
pub fn marshal_arguments(state_arg: Option<Py<PyAny>>, args: &Vec<EngineValue>) -> (r: Result<
    (Vec<Py<PyAny>>, Option<Py<PyDict>>),
    BridgeError,
>)
    ensures
        r matches Ok((pos, kw)) ==> pos@.len() == (if state_arg is Some {
            1int
        } else {
            0int
        }) + positional_count(args@),
        r matches Ok((pos, kw)) ==> (state_arg matches Some(s) ==> pos@.len() >= 1 && pos@[0]
            == s),
        r matches Ok((pos, kw)) ==> (kw is Some <==> has_kwargs(args@)),
        r matches Ok(_) ==> (forall|i: int|
            0 <= i < args@.len() ==> representable(#[trigger] args@[i])),
        (forall|i: int| 0 <= i < args@.len() ==> plainly_convertible(#[trigger] args@[i]))
            ==> r is Ok,
        r matches Err(e) ==> e.kind == EngineErrorKind::InvalidOperation,
{
    let ghost base: int = if state_arg is Some {
        1int
    } else {
        0int
    };
    let mut py_args: Vec<Py<PyAny>> = Vec::new();
    let mut py_kwargs: Option<Py<PyDict>> = None;
    if let Some(s) = state_arg {
        py_args.push(s);
    }
    let mut i: usize = 0;
    while i < args.len()
        invariant
            i <= args@.len(),
            py_args@.len() == base + positional_count(args@.take(i as int)),
            state_arg matches Some(s) ==> py_args@.len() >= 1 && py_args@[0] == s,
            py_kwargs is Some <==> has_kwargs(args@.take(i as int)),
            forall|j: int| 0 <= j < i ==> representable(#[trigger] args@[j]),
        decreases args@.len() - i,
    {
        let ghost prefix = args@.take(i as int);
        let arg = &args[i];
        match arg {
            EngineValue::Kwargs(pairs) => {
                if py_kwargs.is_none() {
                    py_kwargs = Some(host_new_dict());
                }
                let d = py_kwargs.as_ref().unwrap();
                let mut j: usize = 0;
                while j < pairs.len()
                    invariant
                        j <= pairs@.len(),
                        i < args@.len(),
                        args@[i as int] == EngineValue::Kwargs(*pairs),
                        forall|jj: int|
                            0 <= jj < j ==> representable((#[trigger] pairs@[jj]).1),
                    decreases pairs@.len() - j,
                {
                    let k = host_from_str(pairs[j].0.as_str());
                    let v = match to_python_value_impl(&pairs[j].1) {
                        Ok(v) => v,
                        Err(e) => return Err(e),
                    };
                    if let Err(he) = host_dict_set(d, &k, &v) {
                        return Err(error_from_host_exception(&he));
                    }
                    proof {
                        assert(representable(pairs@[j as int].1));
                    }
                    j = j + 1;
                }
                proof {
                    assert(representable(args@[i as int]));
                }
            },
            _ => {
                let v = match to_python_value_impl(arg) {
                    Ok(v) => v,
                    Err(e) => return Err(e),
                };
                py_args.push(v);
                proof {
                    assert(representable(args@[i as int]));
                }
            },
        }
        proof {
            let stepped = args@.take(i + 1);
            assert(stepped.drop_last() =~= prefix);
            assert(stepped.last() == args@[i as int]);
            if args@[i as int] is Kwargs {
                assert(has_kwargs(stepped));
            } else {
                assert(has_kwargs(stepped) <==> has_kwargs(prefix)) by {
                    if has_kwargs(stepped) && !has_kwargs(prefix) {
                        let w = choose|w: int|
                            0 <= w < stepped.len() && stepped[w] is Kwargs;
                        assert(w == i || (0 <= w < prefix.len() && prefix[w] is Kwargs));
                    }
                    if has_kwargs(prefix) {
                        let w = choose|w: int|
                            0 <= w < prefix.len() && prefix[w] is Kwargs;
                        assert(0 <= w < stepped.len() && stepped[w] is Kwargs);
                    }
                }
            }
        }
        i = i + 1;
    }
    proof {
        assert(args@.take(args@.len() as int) =~= args@);
    }
    Ok((py_args, py_kwargs))
}

/// Translates an ordered list of engine call arguments into the host calling
/// convention. When the callee is marked state-aware and an evaluation-state
/// object was supplied, it is prepended as one synthetic positional argument
/// standing before any user argument.
pub fn to_python_args(
    callback: &Py<PyAny>,
    state_obj: Option<Py<PyAny>>,
    args: &Vec<EngineValue>,
) -> (r: Result<(Vec<Py<PyAny>>, Option<Py<PyDict>>), BridgeError>)
    ensures
        r matches Ok((pos, kw)) ==> (kw is Some <==> has_kwargs(args@)),
        r matches Ok((pos, kw)) ==> pos@.len() == positional_count(args@) || pos@.len()
            == positional_count(args@) + 1,
        r matches Ok((pos, kw)) ==> (pos@.len() == positional_count(args@) + 1 ==> (
        state_obj matches Some(s) && pos@[0] == s)),
        r matches Ok(_) ==> (forall|i: int|
            0 <= i < args@.len() ==> representable(#[trigger] args@[i])),
        (forall|i: int| 0 <= i < args@.len() ==> plainly_convertible(#[trigger] args@[i]))
            ==> r is Ok,
        r matches Err(e) ==> e.kind == EngineErrorKind::InvalidOperation,
{
    let state = if probe_pass_state(callback) {
        state_obj
    } else {
        None
    };
    marshal_arguments(state, args)
}

impl DynamicObject {
    /// Shape query, re-derived from the live host object on every call: the
    /// four protocol probes are taken fresh and handed to the contracted
    /// shape decision.
    pub fn repr(&self) -> ObjectShape {
        classify_shape(
            host_is_sequence(&self.inner),
            host_hasattr(&self.inner, "__getitem__"),
            host_hasattr(&self.inner, "items"),
            host_try_iter(&self.inner).is_ok(),
        )
    }

    /// Render: the host object's own string conversion.
    pub fn render(&self) -> String {
        host_display(&self.inner)
    }

    /// Call: forwards to the host's call protocol with marshaled arguments.
    /// An argument that cannot cross toward the host fails the call before
    /// it is made; every failure surfaces as an engine error wrapping the
    /// host exception.
    pub fn call(&self, state_obj: Option<Py<PyAny>>, args: &Vec<EngineValue>) -> (r: Result<
        EngineValue,
        BridgeError,
    >)
        ensures
            (exists|i: int| 0 <= i < args@.len() && !representable(#[trigger] args@[i]))
                ==> r is Err,
            r matches Ok(v) ==> representable(v),
            r matches Err(e) ==> e.kind == EngineErrorKind::InvalidOperation,
    {
        let (py_args, py_kwargs) = match to_python_args(&self.inner, state_obj, args) {
            Ok(p) => p,
            Err(e) => return Err(e),
        };
        match host_call(&self.inner, &py_args, py_kwargs.as_ref()) {
            Ok(v) => Ok(to_minijinja_value(&v)),
            Err(e) => Err(error_from_host_exception(&e)),
        }
    }

    /// Named method call. A method name the attribute safety policy rejects
    /// fails before any host call is attempted, with the security-policy
    /// error; an argument that cannot cross toward the host fails the call
    /// before it is made; every other failure surfaces as an engine error
    /// wrapping the host exception.
    pub fn call_method(
        &self,
        state_obj: Option<Py<PyAny>>,
        name: &str,
        args: &Vec<EngineValue>,
    ) -> (r: Result<EngineValue, BridgeError>)
        ensures
            !safe_attr_name(name@) ==> (r matches Err(e) && e.kind
                == EngineErrorKind::InvalidOperation && (e.detail matches Some(d) && d@
                == "insecure method call"@)),
            safe_attr_name(name@) && (exists|i: int|
                0 <= i < args@.len() && !representable(#[trigger] args@[i])) ==> r is Err,
            r matches Ok(v) ==> representable(v),
            r matches Err(e) ==> e.kind == EngineErrorKind::InvalidOperation,
    {
        if !is_safe_attr(name) {
            return Err(
                BridgeError::new(EngineErrorKind::InvalidOperation, "insecure method call"),
            );
        }
        let (py_args, py_kwargs) = match to_python_args(&self.inner, state_obj, args) {
            Ok(p) => p,
            Err(e) => return Err(e),
        };
        match host_call_method(&self.inner, name, &py_args, py_kwargs.as_ref()) {
            Ok(v) => Ok(to_minijinja_value(&v)),
            Err(e) => Err(error_from_host_exception(&e)),
        }
    }

    /// Indexed/attribute get. Host item lookup first; when that fails with a
    /// "missing"-class host error and the key is a string the safety policy
    /// admits, retried as host attribute access. Absence — from either path —
    /// is "no value", not an error; any other host failure surfaces as an
    /// engine error value wrapping the host exception. A key that cannot
    /// itself cross toward the host reports absence.
    pub fn get_value(&self, key: &EngineValue) -> (r: Option<EngineValue>)
        ensures
            !representable(*key) ==> r is None,
            r matches Some(v) ==> (v matches EngineValue::Invalid(e) ==> e.kind
                == EngineErrorKind::InvalidOperation && e.causes@.len() == 1),
    {
        let py_key = match to_python_value_impl(key) {
            Ok(k) => k,
            Err(_) => return None,
        };
        match host_get_item(&self.inner, &py_key) {
            Ok(v) => Some(to_minijinja_value(&v)),
            Err(err) => {
                let missing = failure_means_absence(&err);
                if attr_retry_allowed(missing, key) {
                    if let Some(attr) = key.as_str() {
                        match host_getattr(&self.inner, attr.as_str()) {
                            Ok(rv) => {
                                return Some(to_minijinja_value(&rv));
                            },
                            Err(attr_err) => {
                                if !host_err_is_attribute_error(&attr_err) {
                                    return Some(
                                        EngineValue::Invalid(error_from_host_exception(&attr_err)),
                                    );
                                }
                            },
                        }
                    }
                }
                absence_or_error(missing, &err)
            },
        }
    }

    /// Comparison: best-effort delegation to the host's rich comparison
    /// between two wrapped host objects; "incomparable" when the host
    /// declines. No total order is promised — the host comparison may
    /// violate one.
    pub fn custom_cmp(&self, other: &DynamicObject) -> Option<HostOrdering> {
        host_compare(&self.inner, &other.inner)
    }

    /// Truthiness: delegates to the host through the contracted fail-open
    /// decision, so a truthiness check never aborts evaluation.
    pub fn is_true(&self) -> bool {
        truthiness_or_fail_open(host_is_truthy(&self.inner))
    }

    /// Enumeration, through the contracted enumerator decision: a
    /// length-based enumerator for sequence-shaped objects (length 0 when
    /// the host length query fails); one eagerly drained pass for anything
    /// iterable, skipping elements whose host-side step failed; "cannot be
    /// enumerated" otherwise.
    pub fn enumerate(&self) -> (r: Enumerator)
        ensures
            r matches Enumerator::Values(vs) ==> forall|i: int|
                0 <= i < vs@.len() ==> representable(#[trigger] vs@[i]),
    {
        if host_is_sequence(&self.inner) {
            classify_enumerator(true, host_len(&self.inner), None)
        } else {
            match host_try_iter(&self.inner) {
                Ok(it) => classify_enumerator(false, None, Some(drain_host_iterator(&it))),
                Err(_) => classify_enumerator(false, None, None),
            }
        }
    }
}

/// One full pass over a live host iterator, each element converted toward
/// the engine; an element whose host-side iteration step fails is skipped,
/// preferring partial enumeration over total failure. Every value that comes
/// out went through the toward-engine conversion.
fn drain_host_iterator(it: &Py<PyAny>) -> (r: Vec<EngineValue>)
    ensures
        forall|i: int| 0 <= i < r@.len() ==> representable(#[trigger] r@[i]),
{
    let mut out: Vec<EngineValue> = Vec::new();
    // The host iterator owes no finiteness; the pass is capped at one step
    // per addressable byte, a bound memory exhausts long before the loop.
    let mut budget: usize = usize::MAX;
    while budget > 0
        invariant
            forall|i: int| 0 <= i < out@.len() ==> representable(#[trigger] out@[i]),
        decreases budget,
    {
        match host_iter_next(it) {
            None => {
                return out;
            },
            Some(Ok(v)) => {
                out.push(to_minijinja_value(&v));
            },
            Some(Err(_)) => {},
        }
        budget = budget - 1;
    }
    out
}

} // verus!
