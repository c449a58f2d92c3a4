//! Named property lookup with native-type fallback.
//!
//! A property is looked up first in the container authored directly on the
//! object; when absent there, in the default template registered for the
//! object's native type name; when absent in both, the lookup reports "no
//! such property", which is a normal optional-value signal, not an error.

use vstd::prelude::*;
use vstd::slice::slice_subrange;
use crate::document::{str_eq, AttrValue, Document, PropertyNode};
use crate::object::ObjectHandle;

verus! {

/// A reference to one property node inside a resolved container.
#[derive(Clone, Copy)]
pub struct PropertyHandle<'a> {
    /// The property node addressed by this handle.
    pub node: &'a PropertyNode,
}

/// A property-container view of one object, configured with the two-tier
/// fallback chain: the object's own container first, then the default
/// template of the given native type name.
pub struct ObjectProperties<'a> {
    /// The object whose properties are addressed.
    pub object: ObjectHandle<'a>,
    /// The native type name whose template serves as fallback.
    pub native_type: String,
}

/// The value part of a property node: the attributes after the four
/// leading metadata attributes (name, type, label, flags).  A node with
/// fewer than four attributes has an empty value part.
pub open spec fn value_part(node: PropertyNode) -> Seq<AttrValue> {
    if node.attrs@.len() >= 4 {
        node.attrs@.subrange(4, node.attrs@.len() as int)
    } else {
        Seq::empty()
    }
}

/// The property node carries `name`: its first attribute is a string
/// attribute equal to `name`.
pub open spec fn prop_has_name(node: PropertyNode, name: Seq<char>) -> bool {
    &&& node.attrs@.len() > 0
    &&& match node.attrs@[0] {
        AttrValue::Str(s) => s@ == name,
        _ => false,
    }
}

/// Index of the first property named `name` among the first `k` nodes of
/// a container.
pub open spec fn find_prop_upto(props: Seq<PropertyNode>, name: Seq<char>, k: int) -> Option<int>
    decreases k,
{
    if k <= 0 {
        None
    } else {
        match find_prop_upto(props, name, k - 1) {
            Option::Some(i) => Option::Some(i),
            Option::None => {
                if prop_has_name(props[k - 1], name) {
                    Option::Some(k - 1)
                } else {
                    Option::None
                }
            },
        }
    }
}

/// Index of the first property named `name` in a container, if any.
pub open spec fn find_prop(props: Seq<PropertyNode>, name: Seq<char>) -> Option<int> {
    find_prop_upto(props, name, props.len() as int)
}

/// Index of the first template registered under `native`, scanning the
/// first `k` templates.
pub open spec fn find_template_upto(doc: Document, native: Seq<char>, k: int) -> Option<int>
    decreases k,
{
    if k <= 0 {
        None
    } else {
        match find_template_upto(doc, native, k - 1) {
            Option::Some(i) => Option::Some(i),
            Option::None => {
                if doc.templates@[k - 1].native_type@ == native {
                    Option::Some(k - 1)
                } else {
                    Option::None
                }
            },
        }
    }
}

/// Index of the first template registered under `native`, if any.
pub open spec fn find_template(doc: Document, native: Seq<char>) -> Option<int> {
    find_template_upto(doc, native, doc.templates@.len() as int)
}

/// The property node that a two-tier lookup of `name` resolves to for the
/// object at `idx`: the object's own container first, then the default
/// template registered under `native`.
pub open spec fn resolved_prop(doc: Document, idx: int, native: Seq<char>, name: Seq<char>) -> Option<
    PropertyNode,
> {
    let direct = doc.objects@[idx].properties@;
    match find_prop(direct, name) {
        Option::Some(i) => Option::Some(direct[i]),
        Option::None => match find_template(doc, native) {
            Option::Some(t) => {
                let tprops = doc.templates@[t].properties@;
                match find_prop(tprops, name) {
                    Option::Some(j) => Option::Some(tprops[j]),
                    Option::None => Option::None,
                }
            },
            Option::None => Option::None,
        },
    }
}

/// Once a prefix scan has found a property, longer scans agree.
pub proof fn lemma_find_prop_upto_monotone(
    props: Seq<PropertyNode>,
    name: Seq<char>,
    k: int,
    m: int,
)
    requires
        0 <= k <= m,
        find_prop_upto(props, name, k) is Some,
    ensures
        find_prop_upto(props, name, m) == find_prop_upto(props, name, k),
    decreases m - k,
{
    if m > k {
        lemma_find_prop_upto_monotone(props, name, k, m - 1);
    }
}

/// Once a prefix scan has found a template, longer scans agree.
pub proof fn lemma_find_template_upto_monotone(doc: Document, native: Seq<char>, k: int, m: int)
    requires
        0 <= k <= m,
        find_template_upto(doc, native, k) is Some,
    ensures
        find_template_upto(doc, native, m) == find_template_upto(doc, native, k),
    decreases m - k,
{
    if m > k {
        lemma_find_template_upto_monotone(doc, native, k, m - 1);
    }
}

/// A found property index is in bounds and names the property.
pub proof fn lemma_find_prop_upto_found(props: Seq<PropertyNode>, name: Seq<char>, k: int)
    requires
        0 <= k <= props.len(),
    ensures
        match find_prop_upto(props, name, k) {
            Option::Some(i) => 0 <= i < k && prop_has_name(props[i], name),
            Option::None => forall|j: int| 0 <= j < k ==> !prop_has_name(props[j], name),
        },
    decreases k,
{
    if k > 0 {
        lemma_find_prop_upto_found(props, name, k - 1);
    }
}

/// Two-tier fallback: when the object's own container omits the property
/// but the native-type template defines it, the lookup resolves to the
/// template's node; when both tiers omit it, the lookup reports no value.
pub proof fn lemma_resolution_fallback(doc: Document, idx: int, native: Seq<char>, name: Seq<char>)
    ensures
        (match (find_prop(doc.objects@[idx].properties@, name), find_template(doc, native)) {
            (Option::None, Option::Some(t)) => resolved_prop(doc, idx, native, name) == (match
                find_prop(doc.templates@[t].properties@, name) {
                Option::Some(j) => Option::Some(doc.templates@[t].properties@[j]),
                Option::None => Option::None::<PropertyNode>,
            }),
            (Option::None, Option::None) => resolved_prop(doc, idx, native, name) is None,
            _ => true,
        }),
{
}

/// Searches a property container for the first node named `name`.
fn find_property_in(props: &Vec<PropertyNode>, name: &str) -> (r: Option<usize>)
    ensures
        match r {
            Option::Some(i) => find_prop(props@, name@) == Option::Some(i as int) && i
                < props@.len(),
            Option::None => find_prop(props@, name@) is None,
        },
{
    let n = props.len();
    for k in 0..n
        invariant
            n == props@.len(),
            find_prop_upto(props@, name@, k as int) is None,
    {
        let p = &props[k];
        if p.attrs.len() > 0 {
            match &p.attrs[0] {
                AttrValue::Str(s) => {
                    if str_eq(s.as_str(), name) {
                        proof {
                            assert(prop_has_name(props@[k as int], name@));
                            lemma_find_prop_upto_monotone(props@, name@, k + 1, n as int);
                        }
                        return Option::Some(k);
                    }
                },
                _ => {},
            }
        }
        proof {
            assert(!prop_has_name(props@[k as int], name@));
        }
    }
    Option::None
}

impl<'a> PropertyHandle<'a> {
    /// Returns the identifier of the node that defines the property.
    pub fn node_id(&self) -> (r: i64)
        ensures
            r == self.node.node_id,
    {
        self.node.node_id
    }

    /// Returns the number of attributes in the value part.
    pub fn value_part_len(&self) -> (r: usize)
        ensures
            r == value_part(*self.node).len(),
    {
        let n = self.node.attrs.len();
        if n >= 4 {
            n - 4
        } else {
            0
        }
    }

    /// Returns the value part: the attributes after the four leading
    /// metadata attributes.
    pub fn value_part(&self) -> (r: &'a [AttrValue])
        ensures
            r@ == value_part(*self.node),
    {
        let n = self.node.attrs.len();
        if n >= 4 {
            slice_subrange(self.node.attrs.as_slice(), 4, n)
        } else {
            let empty = slice_subrange(self.node.attrs.as_slice(), 0, 0);
            proof {
                assert(empty@ =~= value_part(*self.node));
            }
            empty
        }
    }

    /// Returns the value-part attribute at `i`.
    pub fn value_attr(&self, i: usize) -> (r: &'a AttrValue)
        requires
            i < value_part(*self.node).len(),
        ensures
            *r == value_part(*self.node)[i as int],
    {
        let n = self.node.attrs.len();
        assert(i + 4 < n);
        &self.node.attrs[i + 4]
    }
}

impl<'a> ObjectHandle<'a> {
    /// Returns a property-container view of this object whose lookups
    /// fall back to the default template registered under `name`.
    pub fn properties_by_native_typename(&self, name: &str) -> (r: ObjectProperties<'a>)
        requires
            self.wf(),
        ensures
            r.object == *self,
            r.native_type@ == name@,
    {
        ObjectProperties { object: *self, native_type: name.to_owned() }
    }
}

impl<'a> ObjectProperties<'a> {
    /// Looks up the property named `name`: first in the object's own
    /// container, then in the native-type default template.  Returns
    /// `None` when both tiers omit the property.
    pub fn get_property(&self, name: &str) -> (r: Option<PropertyHandle<'a>>)
        requires
            self.object.wf(),
        ensures
            match resolved_prop(
                *self.object.doc,
                self.object.index as int,
                self.native_type@,
                name@,
            ) {
                Option::Some(node) => match r {
                    Option::Some(h) => *h.node == node && prop_has_name(*h.node, name@),
                    Option::None => false,
                },
                Option::None => r is None,
            },
    {
        let doc = self.object.doc;
        let record = &doc.objects[self.object.index];
        match find_property_in(&record.properties, name) {
            Option::Some(i) => {
                proof {
                    lemma_find_prop_upto_found(
                        record.properties@,
                        name@,
                        record.properties@.len() as int,
                    );
                }
                return Option::Some(PropertyHandle { node: &record.properties[i] });
            },
            Option::None => {},
        }
        let nt = doc.templates.len();
        for t in 0..nt
            invariant
                doc == self.object.doc,
                self.object.wf(),
                nt == doc.templates@.len(),
                find_template_upto(*doc, self.native_type@, t as int) is None,
                find_prop(doc.objects@[self.object.index as int].properties@, name@) is None,
        {
            let tmpl = &doc.templates[t];
            if str_eq(tmpl.native_type.as_str(), self.native_type.as_str()) {
                proof {
                    lemma_find_template_upto_monotone(*doc, self.native_type@, t + 1, nt as int);
                }
                match find_property_in(&tmpl.properties, name) {
                    Option::Some(j) => {
                        proof {
                            lemma_find_prop_upto_found(
                                tmpl.properties@,
                                name@,
                                tmpl.properties@.len() as int,
                            );
                        }
                        return Option::Some(PropertyHandle { node: &tmpl.properties[j] });
                    },
                    Option::None => {
                        return Option::None;
                    },
                }
            }
        }
        Option::None
    }
}

} // verus!
