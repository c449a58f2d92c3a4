//! Scene-hierarchy navigation for `Model` objects.
//!
//! Unlabeled connections carry the structural parent / child relation:
//! an unlabeled connection from A to B makes B a parent candidate of A.
//! Among several candidates the first in connection order wins.

use vstd::prelude::*;
use crate::document::{object_index_of, str_eq, Connection, Document};
use crate::loaders::{f64_slots_err, f64_slots_ok, LoadTarget, PropertyLoadError, Vector3, Vector3Loader};
use crate::object::{typed_model_of, ModelHandle, ObjectHandle, TypedModelHandle};
use crate::property::resolved_prop;

verus! {

/// The outcome a transform-property accessor owes for the property named
/// `name` of the object at `idx`: `Ok(None)` when neither resolution tier
/// defines the property, the loaded 3-component vector when it resolves
/// and loads, and the load error of a present-but-malformed property.
pub open spec fn transform_prop_result(
    doc: Document,
    idx: int,
    name: Seq<char>,
    r: Result<Option<Vector3>, PropertyLoadError>,
) -> bool {
    match resolved_prop(doc, idx, "FbxNode"@, name) {
        Option::None => r == Result::<Option<Vector3>, PropertyLoadError>::Ok(Option::None),
        Option::Some(node) => match r {
            Result::Ok(Option::Some(v)) => f64_slots_ok(node, 3, seq![v.x, v.y, v.z]),
            Result::Ok(Option::None) => false,
            Result::Err(e) => f64_slots_err(node, 3, LoadTarget::Vector3, e),
        },
    }
}

/// The connection at `k` is a parent link for the object with identifier
/// `id`: it leaves `id`, is unlabeled, and its destination resolves to a
/// Model-class object.
pub open spec fn parent_link_at(doc: Document, id: i64, k: int) -> bool {
    let c = doc.connections@[k];
    &&& c.source == id
    &&& c.label is None
    &&& match object_index_of(doc, c.dest) {
        Option::Some(i) => doc.objects@[i].class@ == "Model"@,
        Option::None => false,
    }
}

/// Object index the connection at `k` points to, assuming it resolves.
pub open spec fn link_dest_index(doc: Document, k: int) -> int {
    match object_index_of(doc, doc.connections@[k].dest) {
        Option::Some(i) => i,
        Option::None => 0,
    }
}

/// The connection at `k` is a child link for the object with identifier
/// `id`: it arrives at `id`, is unlabeled, and its source resolves to a
/// Model-class object.
pub open spec fn child_link_at(doc: Document, id: i64, k: int) -> bool {
    let c = doc.connections@[k];
    &&& c.dest == id
    &&& c.label is None
    &&& match object_index_of(doc, c.source) {
        Option::Some(i) => doc.objects@[i].class@ == "Model"@,
        Option::None => false,
    }
}

/// Object index the connection at `k` comes from, assuming it resolves.
pub open spec fn link_source_index(doc: Document, k: int) -> int {
    match object_index_of(doc, doc.connections@[k].source) {
        Option::Some(i) => i,
        Option::None => 0,
    }
}

/// Object index of the parent of `id` found among the first `k`
/// connections: the first parent link wins.
pub open spec fn parent_upto(doc: Document, id: i64, k: int) -> Option<int>
    decreases k,
{
    if k <= 0 {
        None
    } else {
        match parent_upto(doc, id, k - 1) {
            Option::Some(p) => Option::Some(p),
            Option::None => {
                if parent_link_at(doc, id, k - 1) {
                    Option::Some(link_dest_index(doc, k - 1))
                } else {
                    Option::None
                }
            },
        }
    }
}

/// Object index of the parent model of the object with identifier `id`,
/// if any: the destination of the first unlabeled connection leaving `id`
/// that resolves to a Model-class object.
pub open spec fn parent_of(doc: Document, id: i64) -> Option<int> {
    parent_upto(doc, id, doc.connections@.len() as int)
}

/// Object indices of the child models of `id` found among the first `k`
/// connections, in connection order.
pub open spec fn children_upto(doc: Document, id: i64, k: int) -> Seq<int>
    decreases k,
{
    if k <= 0 {
        Seq::empty()
    } else {
        children_upto(doc, id, k - 1) + (if child_link_at(doc, id, k - 1) {
            seq![link_source_index(doc, k - 1)]
        } else {
            Seq::empty()
        })
    }
}

/// Object indices of the child models of the object with identifier `id`,
/// in connection order.
pub open spec fn children_of(doc: Document, id: i64) -> Seq<int> {
    children_upto(doc, id, doc.connections@.len() as int)
}

/// Object index reached from `idx` by following parent links at most
/// `fuel` times, stopping at the first object without a parent.
pub open spec fn root_from(doc: Document, idx: int, fuel: nat) -> int
    decreases fuel,
{
    if fuel == 0 {
        idx
    } else {
        match parent_of(doc, doc.objects@[idx].id) {
            Option::Some(p) => root_from(doc, p, (fuel - 1) as nat),
            Option::None => idx,
        }
    }
}

/// The typed Model handle of the object at index `i` of `doc`.
pub open spec fn model_at<'a>(doc: &'a Document, i: int) -> TypedModelHandle<'a> {
    typed_model_of(ModelHandle { object: (ObjectHandle { doc, index: i as usize }) })
}

/// The sequence of typed child-model handles of the object with
/// identifier `id`, in connection order.
pub open spec fn child_models_view<'a>(doc: &'a Document, id: i64) -> Seq<TypedModelHandle<'a>> {
    Seq::new(children_of(*doc, id).len(), |i: int| model_at(doc, children_of(*doc, id)[i]))
}

/// Connections leaving the object with identifier `id`, among the first
/// `k` connections, in connection order.
pub open spec fn outgoing_upto(doc: Document, id: i64, k: int) -> Seq<Connection>
    decreases k,
{
    if k <= 0 {
        Seq::empty()
    } else {
        outgoing_upto(doc, id, k - 1) + (if doc.connections@[k - 1].source == id {
            seq![doc.connections@[k - 1]]
        } else {
            Seq::empty()
        })
    }
}

/// Connections arriving at the object with identifier `id`, among the
/// first `k` connections, in connection order.
pub open spec fn incoming_upto(doc: Document, id: i64, k: int) -> Seq<Connection>
    decreases k,
{
    if k <= 0 {
        Seq::empty()
    } else {
        incoming_upto(doc, id, k - 1) + (if doc.connections@[k - 1].dest == id {
            seq![doc.connections@[k - 1]]
        } else {
            Seq::empty()
        })
    }
}

impl<'a> ObjectHandle<'a> {
    /// Returns the connections this object points through (outgoing,
    /// "destination" side of this object's relations), in connection
    /// order.  Each call performs a fresh traversal.
    pub fn outgoing_connections(&self) -> (r: Vec<Connection>)
        requires
            self.wf(),
        ensures
            r@ == outgoing_upto(*self.doc, self.id_spec(), self.doc.connections@.len() as int),
    {
        let doc = self.doc;
        let id = self.id();
        let n = doc.connections.len();
        let mut out: Vec<Connection> = Vec::new();
        for k in 0..n
            invariant
                doc == self.doc,
                n == doc.connections@.len(),
                id == self.id_spec(),
                out@ =~= outgoing_upto(*doc, id, k as int),
        {
            let c = &doc.connections[k];
            if c.source == id {
                let copied = Connection {
                    source: c.source,
                    dest: c.dest,
                    label: match &c.label {
                        Option::Some(s) => Option::Some(s.clone()),
                        Option::None => Option::None,
                    },
                };
                proof {
                    assert(copied == doc.connections@[k as int]);
                }
                out.push(copied);
            }
        }
        out
    }

    /// Returns the connections pointing at this object (incoming,
    /// "source" side of this object's relations), in connection order.
    /// Each call performs a fresh traversal.
    pub fn incoming_connections(&self) -> (r: Vec<Connection>)
        requires
            self.wf(),
        ensures
            r@ == incoming_upto(*self.doc, self.id_spec(), self.doc.connections@.len() as int),
    {
        let doc = self.doc;
        let id = self.id();
        let n = doc.connections.len();
        let mut out: Vec<Connection> = Vec::new();
        for k in 0..n
            invariant
                doc == self.doc,
                n == doc.connections@.len(),
                id == self.id_spec(),
                out@ =~= incoming_upto(*doc, id, k as int),
        {
            let c = &doc.connections[k];
            if c.dest == id {
                let copied = Connection {
                    source: c.source,
                    dest: c.dest,
                    label: match &c.label {
                        Option::Some(s) => Option::Some(s.clone()),
                        Option::None => Option::None,
                    },
                };
                proof {
                    assert(copied == doc.connections@[k as int]);
                }
                out.push(copied);
            }
        }
        out
    }
}

/// Once a prefix scan has found a parent, longer scans agree.
pub proof fn lemma_parent_upto_monotone(doc: Document, id: i64, k: int, m: int)
    requires
        0 <= k <= m,
        parent_upto(doc, id, k) is Some,
    ensures
        parent_upto(doc, id, m) == parent_upto(doc, id, k),
    decreases m - k,
{
    if m > k {
        lemma_parent_upto_monotone(doc, id, k, m - 1);
    }
}

/// A found parent comes from some parent link among the first `k`
/// connections; a `None` means no such link exists there.
pub proof fn lemma_parent_upto_found(doc: Document, id: i64, k: int)
    requires
        0 <= k <= doc.connections@.len(),
    ensures
        match parent_upto(doc, id, k) {
            Option::Some(p) => exists|j: int|
                0 <= j < k && #[trigger] parent_link_at(doc, id, j) && link_dest_index(doc, j)
                    == p,
            Option::None => forall|j: int| 0 <= j < k ==> !parent_link_at(doc, id, j),
        },
    decreases k,
{
    if k > 0 {
        lemma_parent_upto_found(doc, id, k - 1);
    }
}

/// A parent index found by the scan is in bounds and names a Model-class
/// object.
pub proof fn lemma_parent_of_valid(doc: Document, id: i64)
    requires
        parent_of(doc, id) is Some,
    ensures
        match parent_of(doc, id) {
            Option::Some(p) => 0 <= p < doc.objects@.len() && doc.objects@[p].class@ == "Model"@,
            Option::None => true,
        },
{
    lemma_parent_upto_found(doc, id, doc.connections@.len() as int);
    let p = parent_of(doc, id)->Some_0;
    let j = choose|j: int|
        0 <= j < doc.connections@.len() && #[trigger] parent_link_at(doc, id, j)
            && link_dest_index(doc, j) == p;
    crate::document::lemma_object_index_upto_found(
        doc,
        doc.connections@[j].dest,
        doc.objects@.len() as int,
    );
}

impl<'a> ModelHandle<'a> {
    /// Returns the parent model if available: the first unlabeled outgoing
    /// connection whose destination is a Model-class object, in
    /// connection order.
    pub fn parent_model(&self) -> (r: Option<TypedModelHandle<'a>>)
        requires
            self.wf(),
        ensures
            match parent_of(*self.object.doc, self.object.id_spec()) {
                Option::Some(p) => r == Option::Some(model_at(self.object.doc, p)),
                Option::None => r is None,
            },
    {
        let doc = self.object.doc;
        let id = self.object.id();
        let n = doc.connections.len();
        for k in 0..n
            invariant
                doc == self.object.doc,
                n == doc.connections@.len(),
                id == self.object.id_spec(),
                parent_upto(*doc, id, k as int) is None,
        {
            let c = &doc.connections[k];
            if c.source == id && c.label.is_none() {
                match doc.object_index(c.dest) {
                    Option::Some(i) => {
                        let obj = ObjectHandle::new(doc, i);
                        if str_eq(obj.class(), "Model") {
                            let model = ModelHandle { object: obj };
                            proof {
                                assert(parent_link_at(*doc, id, k as int));
                                assert(parent_upto(*doc, id, k + 1) == Option::Some(i as int));
                                lemma_parent_upto_monotone(*doc, id, k + 1, n as int);
                                assert(model_at(doc, i as int) == typed_model_of(model));
                            }
                            return Option::Some(model.get_typed_model());
                        }
                    },
                    Option::None => {},
                }
            }
        }
        Option::None
    }

    /// Returns the child models: objects pointing at this one through an
    /// unlabeled connection and classifying as Model, in connection
    /// order.  Each call performs a fresh traversal of the immutable
    /// connection graph.
    pub fn child_models(&self) -> (r: Vec<TypedModelHandle<'a>>)
        requires
            self.wf(),
        ensures
            r@ == child_models_view(self.object.doc, self.object.id_spec()),
    {
        let doc = self.object.doc;
        let id = self.object.id();
        let n = doc.connections.len();
        let mut out: Vec<TypedModelHandle<'a>> = Vec::new();
        for k in 0..n
            invariant
                doc == self.object.doc,
                n == doc.connections@.len(),
                id == self.object.id_spec(),
                out@.len() == children_upto(*doc, id, k as int).len(),
                forall|i: int|
                    0 <= i < out@.len() ==> out@[i] == model_at(
                        doc,
                        children_upto(*doc, id, k as int)[i],
                    ),
        {
            let c = &doc.connections[k];
            if c.dest == id && c.label.is_none() {
                match doc.object_index(c.source) {
                    Option::Some(i) => {
                        let obj = ObjectHandle::new(doc, i);
                        if str_eq(obj.class(), "Model") {
                            proof {
                                assert(child_link_at(*doc, id, k as int));
                                assert(children_upto(*doc, id, k + 1) == children_upto(
                                    *doc,
                                    id,
                                    k as int,
                                ) + seq![i as int]);
                            }
                            let model = ModelHandle { object: obj };
                            out.push(model.get_typed_model());
                        } else {
                            proof {
                                assert(!child_link_at(*doc, id, k as int));
                                assert(children_upto(*doc, id, k + 1) =~= children_upto(
                                    *doc,
                                    id,
                                    k as int,
                                ));
                            }
                        }
                    },
                    Option::None => {
                        proof {
                            assert(!child_link_at(*doc, id, k as int));
                            assert(children_upto(*doc, id, k + 1) =~= children_upto(
                                *doc,
                                id,
                                k as int,
                            ));
                        }
                    },
                }
            } else {
                proof {
                    assert(!child_link_at(*doc, id, k as int));
                    assert(children_upto(*doc, id, k + 1) =~= children_upto(*doc, id, k as int));
                }
            }
        }
        proof {
            assert(out@ =~= child_models_view(self.object.doc, self.object.id_spec()));
        }
        out
    }

    /// Returns the root-most model ancestor of this object in the scene
    /// hierarchy: the parentless object the parent walk reaches.
    ///
    /// If this object has no parent models, returns this object.  There
    /// may be multiple root models in a single scene.  The walk is
    /// bounded by the number of objects in the document, which covers
    /// every acyclic hierarchy; on a malformed document whose parent
    /// chain closes a cycle, no parentless ancestor exists and the walk
    /// fails with a cyclic-hierarchy error instead of looping forever.
    pub fn root_model(&self) -> (r: Result<TypedModelHandle<'a>, HierarchyError>)
        requires
            self.wf(),
        ensures
            ({
                let doc = *self.object.doc;
                let root = root_from(
                    doc,
                    self.object.index as int,
                    doc.objects@.len() as nat,
                );
                match r {
                    Result::Ok(m) => parent_of(doc, doc.objects@[root].id) is None && m
                        == model_at(self.object.doc, root),
                    Result::Err(e) => parent_of(doc, doc.objects@[root].id) is Some && e
                        == (HierarchyError::CyclicHierarchy { id: self.object.id_spec() }),
                }
            }),
    {
        let doc = self.object.doc;
        let mut cur: ModelHandle<'a> = *self;
        let mut fuel: usize = doc.objects.len();
        loop
            invariant
                cur.wf(),
                cur.object.doc == doc,
                doc == self.object.doc,
                self.wf(),
                doc.objects@.len() <= usize::MAX,
                root_from(*doc, self.object.index as int, doc.objects@.len() as nat) == root_from(
                    *doc,
                    cur.object.index as int,
                    fuel as nat,
                ),
            ensures
                cur.wf(),
                cur.object.doc == doc,
                root_from(*doc, self.object.index as int, doc.objects@.len() as nat)
                    == cur.object.index as int,
            decreases fuel,
        {
            if fuel == 0 {
                break;
            }
            match cur.parent_model() {
                Option::Some(m) => {
                    let ghost p = parent_of(*doc, cur.object.id_spec())->Some_0;
                    proof {
                        lemma_parent_of_valid(*doc, cur.object.id_spec());
                        lemma_typed_model_keeps_handle(
                            ModelHandle { object: (ObjectHandle { doc, index: p as usize }) },
                        );
                        assert(m == model_at(doc, p));
                        assert(root_from(*doc, cur.object.index as int, fuel as nat) == root_from(
                            *doc,
                            p,
                            (fuel - 1) as nat,
                        ));
                    }
                    cur = m.model();
                    fuel = fuel - 1;
                },
                Option::None => {
                    break;
                },
            }
        }
        match cur.parent_model() {
            Option::None => Result::Ok(cur.get_typed_model()),
            Option::Some(_) => Result::Err(
                HierarchyError::CyclicHierarchy { id: self.object.id() },
            ),
        }
    }
}

/// A structural inconsistency found while navigating the scene
/// hierarchy.
#[derive(Clone, Copy, Debug, PartialEq, Eq, Structural)]
pub enum HierarchyError {
    /// The parent chain from the given object closes a cycle instead of
    /// reaching a parentless root.
    CyclicHierarchy {
        /// Identifier of the object the walk started from.
        id: i64,
    },
}

/// The root of a root is itself: the parent walk from a parentless
/// object returns that object, whatever the step bound.  Together with
/// `root_model`'s contract — a successful walk ends at a parentless
/// object — this gives that feeding a returned root back into
/// `root_model` returns it unchanged.
pub proof fn lemma_root_of_root(doc: Document, idx: int, fuel: nat)
    requires
        parent_of(doc, doc.objects@[idx].id) is None,
    ensures
        root_from(doc, idx, fuel) == idx,
{
}

impl<'a> ModelHandle<'a> {
    /// Loads the transform property named `name` through the two-tier
    /// resolution chain with native type name `"FbxNode"`, the template
    /// identifier of Model objects.
    pub fn load_transform_property(&self, name: &str) -> (r: Result<
        Option<Vector3>,
        PropertyLoadError,
    >)
        requires
            self.wf(),
        ensures
            transform_prop_result(*self.object.doc, self.object.index as int, name@, r),
    {
        let props = self.object.properties_by_native_typename("FbxNode");
        match props.get_property(name) {
            Option::None => Result::Ok(Option::None),
            Option::Some(prop) => match Vector3Loader::load(&prop) {
                Result::Ok(v) => Result::Ok(Option::Some(v)),
                Result::Err(e) => Result::Err(e),
            },
        }
    }

    /// Returns the local translation (`Lcl Translation`) of this model
    /// object, if one is present under either resolution tier.
    pub fn local_translation(&self) -> (r: Result<Option<Vector3>, PropertyLoadError>)
        requires
            self.wf(),
        ensures
            transform_prop_result(
                *self.object.doc,
                self.object.index as int,
                "Lcl Translation"@,
                r,
            ),
    {
        self.load_transform_property("Lcl Translation")
    }

    /// Returns the local rotation (`Lcl Rotation`) of this model object,
    /// if one is present under either resolution tier.
    pub fn local_rotation(&self) -> (r: Result<Option<Vector3>, PropertyLoadError>)
        requires
            self.wf(),
        ensures
            transform_prop_result(*self.object.doc, self.object.index as int, "Lcl Rotation"@, r),
    {
        self.load_transform_property("Lcl Rotation")
    }

    /// Returns the pre-rotation (`PreRotation`) of this model object, if
    /// one is present under either resolution tier.
    pub fn pre_rotation(&self) -> (r: Result<Option<Vector3>, PropertyLoadError>)
        requires
            self.wf(),
        ensures
            transform_prop_result(*self.object.doc, self.object.index as int, "PreRotation"@, r),
    {
        self.load_transform_property("PreRotation")
    }

    /// Returns the local scale (`Lcl Scaling`) of this model object, if
    /// one is present under either resolution tier.
    pub fn local_scaling(&self) -> (r: Result<Option<Vector3>, PropertyLoadError>)
        requires
            self.wf(),
        ensures
            transform_prop_result(*self.object.doc, self.object.index as int, "Lcl Scaling"@, r),
    {
        self.load_transform_property("Lcl Scaling")
    }
}

impl<'a> TypedModelHandle<'a> {
    /// The underlying Model handle of any typed Model variant.
    pub open spec fn model_spec(self) -> ModelHandle<'a> {
        match self {
            TypedModelHandle::Camera(h) => h.model,
            TypedModelHandle::Light(h) => h.model,
            TypedModelHandle::LimbNode(h) => h.model,
            TypedModelHandle::Mesh(h) => h.model,
            TypedModelHandle::Null(h) => h.model,
            TypedModelHandle::Unknown(m) => m,
        }
    }

    /// Returns the underlying Model handle.
    pub fn model(&self) -> (r: ModelHandle<'a>)
        ensures
            r == self.model_spec(),
    {
        match self {
            TypedModelHandle::Camera(h) => h.model,
            TypedModelHandle::Light(h) => h.model,
            TypedModelHandle::LimbNode(h) => h.model,
            TypedModelHandle::Mesh(h) => h.model,
            TypedModelHandle::Null(h) => h.model,
            TypedModelHandle::Unknown(m) => *m,
        }
    }
}

/// Classifying a Model handle never loses the handle: the typed variant
/// always carries the original Model handle.
pub proof fn lemma_typed_model_keeps_handle(m: ModelHandle)
    ensures
        typed_model_of(m).model_spec() == m,
{
}

/// An object with no unlabeled outgoing connections has no parent model,
/// and is its own root however much fuel the walk is given.
pub proof fn lemma_no_unlabeled_outgoing_is_root(doc: Document, idx: int, fuel: nat)
    requires
        0 <= idx < doc.objects@.len(),
        forall|k: int|
            0 <= k < doc.connections@.len() && (#[trigger] doc.connections@[k]).source
                == doc.objects@[idx].id ==> doc.connections@[k].label is Some,
    ensures
        parent_of(doc, doc.objects@[idx].id) is None,
        root_from(doc, idx, fuel) == idx,
{
    let id = doc.objects@[idx].id;
    lemma_parent_upto_found(doc, id, doc.connections@.len() as int);
    if parent_upto(doc, id, doc.connections@.len() as int) is Some {
        let j = choose|j: int|
            0 <= j < doc.connections@.len() && #[trigger] parent_link_at(doc, id, j)
                && link_dest_index(doc, j) == parent_of(doc, id)->Some_0;
        assert(doc.connections@[j].source == id);
        assert(false);
    }
}

/// Following a two-step parent chain A to B to C, where C itself has no
/// parent, the root walk from A reaches C, given at least two steps of
/// fuel.
pub proof fn lemma_chain_root(doc: Document, a: int, b: int, c: int, fuel: nat)
    requires
        0 <= a < doc.objects@.len(),
        0 <= b < doc.objects@.len(),
        0 <= c < doc.objects@.len(),
        parent_of(doc, doc.objects@[a].id) == Option::Some(b),
        parent_of(doc, doc.objects@[b].id) == Option::Some(c),
        parent_of(doc, doc.objects@[c].id) is None,
        fuel >= 2,
    ensures
        root_from(doc, a, fuel) == c,
{
    assert(root_from(doc, a, fuel) == root_from(doc, b, (fuel - 1) as nat));
    assert(root_from(doc, b, (fuel - 1) as nat) == root_from(doc, c, (fuel - 2) as nat));
    assert(root_from(doc, c, (fuel - 2) as nat) == c);
}

/// A matching child link among the first `k` connections puts its source
/// object into the child sequence.
pub proof fn lemma_children_upto_contains(doc: Document, id: i64, j: int, k: int)
    requires
        0 <= j < k <= doc.connections@.len(),
        child_link_at(doc, id, j),
    ensures
        children_upto(doc, id, k).contains(link_source_index(doc, j)),
    decreases k,
{
    if k == j + 1 {
        let s = children_upto(doc, id, j) + seq![link_source_index(doc, j)];
        assert(s[s.len() - 1] == link_source_index(doc, j));
    } else {
        lemma_children_upto_contains(doc, id, j, k - 1);
        let s1 = children_upto(doc, id, k - 1);
        let i = choose|i: int| 0 <= i < s1.len() && s1[i] == link_source_index(doc, j);
        assert(children_upto(doc, id, k)[i] == link_source_index(doc, j));
    }
}

/// If B is A's parent model, then A appears among B's child models,
/// provided A's record is the one its identifier resolves to and A itself
/// is a Model-class object.
pub proof fn lemma_parent_is_child(doc: Document, a: int, b: int)
    requires
        0 <= a < doc.objects@.len(),
        0 <= b < doc.objects@.len(),
        object_index_of(doc, doc.objects@[a].id) == Option::Some(a),
        doc.objects@[a].class@ == "Model"@,
        parent_of(doc, doc.objects@[a].id) == Option::Some(b),
    ensures
        children_of(doc, doc.objects@[b].id).contains(a),
{
    let ida = doc.objects@[a].id;
    lemma_parent_upto_found(doc, ida, doc.connections@.len() as int);
    let j = choose|j: int|
        0 <= j < doc.connections@.len() && #[trigger] parent_link_at(doc, ida, j)
            && link_dest_index(doc, j) == b;
    crate::document::lemma_object_index_upto_found(
        doc,
        doc.connections@[j].dest,
        doc.objects@.len() as int,
    );
    assert(doc.connections@[j].dest == doc.objects@[b].id);
    assert(child_link_at(doc, doc.objects@[b].id, j));
    assert(link_source_index(doc, j) == a);
    lemma_children_upto_contains(doc, doc.objects@[b].id, j, doc.connections@.len() as int);
}

/// Repeated child-model traversals of an unchanged document yield
/// sequences with identical elements in identical order.
pub proof fn lemma_child_models_idempotent<'a>(
    doc: &'a Document,
    id: i64,
    r1: Seq<TypedModelHandle<'a>>,
    r2: Seq<TypedModelHandle<'a>>,
)
    requires
        r1 == child_models_view(doc, id),
        r2 == child_models_view(doc, id),
    ensures
        r1 == r2,
{
}

} // verus!
