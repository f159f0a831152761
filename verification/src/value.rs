//! The engine's value type as the bridge holds it: a tagged union of plain
//! scalars, native containers, a keyword-argument marker, and a wrapped host
//! object. Containers are plain vectors, a float is carried as its IEEE-754
//! bit pattern, and a string carries its safety flag ("pre-escaped" against
//! "needs escaping").

use vstd::prelude::*;

use pyo3::types::PyAny;
use pyo3::Py;

use crate::error::BridgeError;

verus! {

/// A foreign object handle: one retained reference to a live host object.
/// Identity is the host object's identity; the host-side reference is
/// released exactly once, when the handle is dropped.
pub struct DynamicObject {
    pub inner: Py<PyAny>,
}

impl DynamicObject {
    pub fn new(inner: Py<PyAny>) -> (r: DynamicObject)
        ensures
            r.inner == inner,
    {
        DynamicObject { inner }
    }
}

/// Classification of an object's iteration/access behaviour, re-derived from
/// the live host object each time it matters, never cached.
#[derive(Clone, Copy, Debug, PartialEq, Eq, Structural)]
pub enum ObjectShape {
    Plain,
    Sequence,
    Mapping,
    Iterable,
}

/// The outcome of the host's rich comparison, as the bridge reports it.
#[derive(Clone, Copy, Debug, PartialEq, Eq, Structural)]
pub enum HostOrdering {
    Less,
    Equal,
    Greater,
}

/// How a wrapped object asks to be enumerated: by index up to a length, by an
/// eagerly drained list of values, or not at all.
pub enum Enumerator {
    SeqLen(usize),
    Values(Vec<EngineValue>),
    NonEnumerable,
}

/// An engine value crossing the bridge.
pub enum EngineValue {
    Undefined,
    Null,
    Bool(bool),
    Int(i64),
    UInt(u64),
    /// A double-precision float, carried as its IEEE-754 bit pattern.
    FloatBits(u64),
    /// A string; `safe` marks it pre-escaped, never to be escaped again.
    Str { text: String, safe: bool },
    Bytes(Vec<u8>),
    /// A wrapped host object, bridged lazily through the capability protocol.
    Dynamic(DynamicObject),
    /// A native engine object of plain shape: all the bridge reads of it is
    /// its display string.
    PlainObject(String),
    /// A native engine object of sequence or iterable shape, as its drained
    /// values.
    SeqObject(Vec<EngineValue>),
    /// A native engine object of map shape, as its key/value pairs in
    /// declared order.
    MapObject(Vec<(EngineValue, EngineValue)>),
    /// The marker carrying trailing keyword-style call arguments.
    Kwargs(Vec<(String, EngineValue)>),
    /// An engine value carrying a pending error.
    Invalid(BridgeError),
}

impl EngineValue {
    /// The string contents, for a string value.
    pub fn as_str(&self) -> (r: Option<&String>)
        ensures
            r matches Some(s) ==> self matches EngineValue::Str { text, .. } && s == text,
            r is None <==> !(self matches EngineValue::Str { .. }),
    {
        match self {
            EngineValue::Str { text, .. } => Some(text),
            _ => None,
        }
    }

    /// Whether this value is the keyword-argument marker.
    pub fn is_kwargs(&self) -> (r: bool)
        ensures
            r == self is Kwargs,
    {
        match self {
            EngineValue::Kwargs(_) => true,
            _ => false,
        }
    }
}

/// How many of the call arguments are plain positional arguments, that is,
/// not keyword-argument markers.
pub open spec fn positional_count(args: Seq<EngineValue>) -> nat
    decreases args.len(),
{
    if args.len() == 0 {
        0
    } else {
        positional_count(args.drop_last()) + (if args.last() is Kwargs {
            0nat
        } else {
            1nat
        })
    }
}

/// Whether at least one argument is a keyword-argument marker.
pub open spec fn has_kwargs(args: Seq<EngineValue>) -> bool {
    exists|i: int| 0 <= i < args.len() && args[i] is Kwargs
}

/// Whether a value has a host representation at every level: everything but
/// an error-carrying value, looked for through native containers and through
/// the values of a keyword bag. Conversion toward the host fails on its own
/// account exactly on values this predicate rejects.
pub open spec fn representable(v: EngineValue) -> bool
    decreases v,
{
    match v {
        EngineValue::Invalid(_) => false,
        EngineValue::SeqObject(items) => forall|i: int|
            0 <= i < items@.len() ==> representable(#[trigger] items@[i]),
        EngineValue::MapObject(pairs) => forall|i: int|
            0 <= i < pairs@.len() ==> representable(#[trigger] pairs@[i].0) && representable(
                pairs@[i].1,
            ),
        EngineValue::Kwargs(pairs) => forall|i: int|
            0 <= i < pairs@.len() ==> representable(#[trigger] pairs@[i].1),
        _ => true,
    }
}

/// The values whose toward-host conversion involves no failure-prone host
/// step, so success is owed outright.
pub open spec fn plainly_convertible(v: EngineValue) -> bool {
    v is Undefined || v is Null || v is Bool || v is Int || v is UInt || (
    v matches EngineValue::Str { safe, .. } && safe == false) || v is Bytes || v is PlainObject
}

} // verus!
