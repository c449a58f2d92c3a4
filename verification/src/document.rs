//! Plain-value model of a parsed document: attribute values, property
//! nodes, object records, connections, and the document that owns them.

use vstd::prelude::*;

verus! {

/// A raw attribute value attached to a tree node.
///
/// Floating-point attributes are stored as IEEE 754 bit patterns so that
/// the surrounding logic stays in integer arithmetic; callers convert with
/// `f32::from_bits` / `f64::from_bits` at the boundary.
#[derive(Clone, Debug, PartialEq, Eq)]
pub enum AttrValue {
    /// Boolean.
    Bool(bool),
    /// 16-bit signed integer.
    I16(i16),
    /// 32-bit signed integer.
    I32(i32),
    /// 64-bit signed integer.
    I64(i64),
    /// 32-bit float, as its IEEE 754 bit pattern.
    F32(u32),
    /// 64-bit float, as its IEEE 754 bit pattern.
    F64(u64),
    /// String.
    Str(String),
    /// Raw binary blob.
    Bin(Vec<u8>),
    /// Array of booleans.
    ArrBool(Vec<bool>),
    /// Array of 32-bit signed integers.
    ArrI32(Vec<i32>),
    /// Array of 64-bit signed integers.
    ArrI64(Vec<i64>),
    /// Array of 32-bit floats, as their IEEE 754 bit patterns.
    ArrF32(Vec<u32>),
    /// Array of 64-bit floats, as their IEEE 754 bit patterns.
    ArrF64(Vec<u64>),
}

/// The kind of an attribute value, used in diagnostics.
#[derive(Clone, Copy, Debug, PartialEq, Eq, Structural)]
pub enum AttrKind {
    /// Boolean.
    Bool,
    /// 16-bit signed integer.
    I16,
    /// 32-bit signed integer.
    I32,
    /// 64-bit signed integer.
    I64,
    /// 32-bit float.
    F32,
    /// 64-bit float.
    F64,
    /// String.
    Str,
    /// Raw binary blob.
    Bin,
    /// Array of booleans.
    ArrBool,
    /// Array of 32-bit signed integers.
    ArrI32,
    /// Array of 64-bit signed integers.
    ArrI64,
    /// Array of 32-bit floats.
    ArrF32,
    /// Array of 64-bit floats.
    ArrF64,
}

/// The kind of an attribute value.
pub open spec fn kind_of(a: AttrValue) -> AttrKind {
    match a {
        AttrValue::Bool(_) => AttrKind::Bool,
        AttrValue::I16(_) => AttrKind::I16,
        AttrValue::I32(_) => AttrKind::I32,
        AttrValue::I64(_) => AttrKind::I64,
        AttrValue::F32(_) => AttrKind::F32,
        AttrValue::F64(_) => AttrKind::F64,
        AttrValue::Str(_) => AttrKind::Str,
        AttrValue::Bin(_) => AttrKind::Bin,
        AttrValue::ArrBool(_) => AttrKind::ArrBool,
        AttrValue::ArrI32(_) => AttrKind::ArrI32,
        AttrValue::ArrI64(_) => AttrKind::ArrI64,
        AttrValue::ArrF32(_) => AttrKind::ArrF32,
        AttrValue::ArrF64(_) => AttrKind::ArrF64,
    }
}

/// Returns the kind of an attribute value.
pub fn attr_kind(a: &AttrValue) -> (k: AttrKind)
    ensures
        k == kind_of(*a),
{
    match a {
        AttrValue::Bool(_) => AttrKind::Bool,
        AttrValue::I16(_) => AttrKind::I16,
        AttrValue::I32(_) => AttrKind::I32,
        AttrValue::I64(_) => AttrKind::I64,
        AttrValue::F32(_) => AttrKind::F32,
        AttrValue::F64(_) => AttrKind::F64,
        AttrValue::Str(_) => AttrKind::Str,
        AttrValue::Bin(_) => AttrKind::Bin,
        AttrValue::ArrBool(_) => AttrKind::ArrBool,
        AttrValue::ArrI32(_) => AttrKind::ArrI32,
        AttrValue::ArrI64(_) => AttrKind::ArrI64,
        AttrValue::ArrF32(_) => AttrKind::ArrF32,
        AttrValue::ArrF64(_) => AttrKind::ArrF64,
    }
}

/// One property node of a property container: the node's identifier and its
/// ordered attribute list.  By convention the first four attributes are
/// metadata (name, type, label, flags); the remainder is the value part.
#[derive(Clone)]
pub struct PropertyNode {
    /// Identifier of the tree node that defines the property.
    pub node_id: i64,
    /// The node's ordered attribute list, metadata included.
    pub attrs: Vec<AttrValue>,
}

/// An object record: a scene entity with a document-unique 64-bit
/// identifier, a class / subclass pair, and its directly authored
/// property container.
#[derive(Clone)]
pub struct ObjectRecord {
    /// Document-unique object identifier.
    pub id: i64,
    /// Class name.
    pub class: String,
    /// Subclass name.
    pub subclass: String,
    /// Properties authored directly on the object.
    pub properties: Vec<PropertyNode>,
}

/// A directed connection between two object identifiers, optionally
/// labeled.  Unlabeled connections carry the primary structural relation
/// (parent / child); labeled ones are auxiliary bindings.
#[derive(Clone)]
pub struct Connection {
    /// Source object identifier (the child side of the structural relation).
    pub source: i64,
    /// Destination object identifier (the parent side).
    pub dest: i64,
    /// Optional label; `None` marks the primary structural relation.
    pub label: Option<String>,
}

/// A native-type default template: the shared property container consulted
/// when an object omits a property.
#[derive(Clone)]
pub struct Template {
    /// The native type name the template is registered under.
    pub native_type: String,
    /// The template's property container.
    pub properties: Vec<PropertyNode>,
}

/// An immutable, fully loaded document: objects, connections in their
/// original (insertion) order, and native-type templates.
#[derive(Clone)]
pub struct Document {
    /// All object records.
    pub objects: Vec<ObjectRecord>,
    /// All connections, in insertion order.
    pub connections: Vec<Connection>,
    /// Native-type default templates.
    pub templates: Vec<Template>,
}

/// The document's identity invariant: object identifiers are unique
/// within one loaded document.
pub open spec fn ids_unique(doc: Document) -> bool {
    forall|i: int, j: int|
        0 <= i < j < doc.objects@.len() ==> #[trigger] doc.objects@[i].id != #[trigger] doc.objects@[j].id
}

/// Index of the first object record carrying `id`, scanning the prefix
/// `objects[..k]` of the object list.
pub open spec fn object_index_upto(doc: Document, id: i64, k: int) -> Option<int>
    decreases k,
{
    if k <= 0 {
        None
    } else {
        match object_index_upto(doc, id, k - 1) {
            Option::Some(i) => Option::Some(i),
            Option::None => {
                if doc.objects@[k - 1].id == id {
                    Option::Some(k - 1)
                } else {
                    Option::None
                }
            },
        }
    }
}

/// Index of the first object record carrying `id`, if any.
pub open spec fn object_index_of(doc: Document, id: i64) -> Option<int> {
    object_index_upto(doc, id, doc.objects@.len() as int)
}

/// A found index is in bounds, carries the looked-up id, and no earlier
/// record does.
pub proof fn lemma_object_index_upto_found(doc: Document, id: i64, k: int)
    requires
        0 <= k <= doc.objects@.len(),
    ensures
        match object_index_upto(doc, id, k) {
            Option::Some(i) => 0 <= i < k && doc.objects@[i].id == id && (forall|j: int|
                0 <= j < i ==> doc.objects@[j].id != id),
            Option::None => forall|j: int| 0 <= j < k ==> doc.objects@[j].id != id,
        },
    decreases k,
{
    if k > 0 {
        lemma_object_index_upto_found(doc, id, k - 1);
    }
}

/// Equality of two strings, as a verified helper over their views.
pub fn str_eq(a: &str, b: &str) -> (r: bool)
    ensures
        r == (a@ == b@),
{
    let ao: String = a.to_owned();
    let bo: String = b.to_owned();
    ao == bo
}

impl Document {
    /// Looks up the object record with the given identifier, returning the
    /// index of the first match.
    pub fn object_index(&self, id: i64) -> (r: Option<usize>)
        ensures
            match r {
                Option::Some(i) => object_index_of(*self, id) == Option::Some(i as int) && i
                    < self.objects@.len() && self.objects@[i as int].id == id,
                Option::None => object_index_of(*self, id) is None,
            },
    {
        let n = self.objects.len();
        for k in 0..n
            invariant
                n == self.objects@.len(),
                object_index_upto(*self, id, k as int) is None,
        {
            if self.objects[k].id == id {
                proof {
                    lemma_object_index_upto_monotone(*self, id, k + 1, n as int);
                }
                return Option::Some(k);
            }
        }
        Option::None
    }
}

/// Once a prefix scan has found an index, longer scans agree.
pub proof fn lemma_object_index_upto_monotone(doc: Document, id: i64, k: int, m: int)
    requires
        0 <= k <= m,
        object_index_upto(doc, id, k) is Some,
    ensures
        object_index_upto(doc, id, m) == object_index_upto(doc, id, k),
    decreases m - k,
{
    if m > k {
        lemma_object_index_upto_monotone(doc, id, k, m - 1);
    }
}

} // verus!
