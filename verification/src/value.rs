//! The tagged universal value, its kind descriptor, and the opaque content
//! identifier carried by link values.
use std::collections::BTreeMap;
use vstd::prelude::*;

verus! {

/// An opaque content identifier.
///
/// The conversion layer only moves, clones and compares identifiers; it
/// never inspects or fabricates their contents. The view is the byte
/// string that the identifier was built from.
#[derive(Debug, PartialEq, Eq)]
pub struct Cid {
    bytes: Vec<u8>,
}

impl View for Cid {
    type V = Seq<u8>;

    closed spec fn view(&self) -> Seq<u8> {
        self.bytes@
    }
}

impl Cid {
    /// Wraps a byte string as a content identifier.
    pub fn new(bytes: Vec<u8>) -> (c: Cid)
        ensures
            c@ == bytes@,
    {
        Cid { bytes }
    }
}

impl Clone for Cid {
    fn clone(&self) -> (c: Self)
        ensures
            c@ == self@,
    {
        Cid { bytes: vstd::slice::slice_to_vec(self.bytes.as_slice()) }
    }
}

/// The tag of a [`Value`]: which case of the union an instance is.
///
/// A `Kind` is a compact classification with no payload, so a diagnostic
/// built from it never retains the (possibly large) value it describes.
#[derive(Clone, Copy, Debug, PartialEq, Eq, Structural)]
pub enum Kind {
    Absence,
    Boolean,
    Integer,
    Float,
    Text,
    Bytes,
    List,
    SortedMap,
    Link,
}

/// A self-describing value: a closed tagged union.
///
/// Every instance carries exactly one variant and the payload that variant
/// implies. All native integer widths collapse onto the single wide
/// `Integer` representation. The `Float` payload is the IEEE 754 bit
/// pattern of a 64-bit float, so that the numeric policy around it can be
/// stated and checked without floating-point arithmetic; the float-typed
/// entry points live with the unverified callers.
#[derive(Debug, PartialEq)]
pub enum Value {
    /// No value.
    Absence,
    /// A boolean.
    Boolean(bool),
    /// The canonical wide integer representation.
    Integer(i128),
    /// The bit pattern of a 64-bit IEEE 754 float.
    Float(u64),
    /// Owned text.
    Text(String),
    /// An owned byte sequence.
    Bytes(Vec<u8>),
    /// An ordered sequence of values.
    List(Vec<Value>),
    /// A key-sorted, key-unique mapping from text to values.
    SortedMap(BTreeMap<String, Value>),
    /// A link to other content, by content identifier.
    Link(Cid),
}

/// The tag of a value: each variant maps to exactly one kind.
pub open spec fn kind_of(v: Value) -> Kind {
    match v {
        Value::Absence => Kind::Absence,
        Value::Boolean(_) => Kind::Boolean,
        Value::Integer(_) => Kind::Integer,
        Value::Float(_) => Kind::Float,
        Value::Text(_) => Kind::Text,
        Value::Bytes(_) => Kind::Bytes,
        Value::List(_) => Kind::List,
        Value::SortedMap(_) => Kind::SortedMap,
        Value::Link(_) => Kind::Link,
    }
}

impl Value {
    /// The kind of this value: a cheap projection of the tag alone.
    pub fn kind(&self) -> (k: Kind)
        ensures
            k == kind_of(*self),
    {
        match self {
            Value::Absence => Kind::Absence,
            Value::Boolean(_) => Kind::Boolean,
            Value::Integer(_) => Kind::Integer,
            Value::Float(_) => Kind::Float,
            Value::Text(_) => Kind::Text,
            Value::Bytes(_) => Kind::Bytes,
            Value::List(_) => Kind::List,
            Value::SortedMap(_) => Kind::SortedMap,
            Value::Link(_) => Kind::Link,
        }
    }
}

} // verus!
