//! Object handles and their classification into typed handles.
//!
//! Classification is total: every (class, subclass) pair maps to exactly
//! one variant of the typed handle, with a catch-all variant for pairs the
//! registry does not know.

use vstd::prelude::*;
use crate::document::{str_eq, Document};

verus! {

/// A lightweight borrowed view of one object record inside a document.
///
/// Two handles with equal identifier into the same document denote the
/// same object.
#[derive(Clone, Copy)]
pub struct ObjectHandle<'a> {
    /// The owning document.
    pub doc: &'a Document,
    /// Index of the object record inside `doc.objects`.
    pub index: usize,
}

/// Typed classification of an object handle by its (class, subclass) pair.
pub enum TypedObjectHandle<'a> {
    /// A transform-bearing scene-graph node (class `"Model"`).
    Model(TypedModelHandle<'a>),
    /// Any object whose class the registry does not know.
    Unknown(ObjectHandle<'a>),
}

/// A `Model`-class object handle.
///
/// Values of this type are only constructed from objects already known to
/// classify as the Model family.
#[derive(Clone, Copy)]
pub struct ModelHandle<'a> {
    /// The underlying object handle.
    pub object: ObjectHandle<'a>,
}

/// Typed classification of a Model-class object by its subclass.
pub enum TypedModelHandle<'a> {
    /// Camera.
    Camera(CameraHandle<'a>),
    /// Light.
    Light(LightHandle<'a>),
    /// Skeleton limb node.
    LimbNode(LimbNodeHandle<'a>),
    /// Mesh.
    Mesh(MeshHandle<'a>),
    /// Null object.
    Null(NullHandle<'a>),
    /// A Model whose subclass the registry does not know.
    Unknown(ModelHandle<'a>),
}

/// Camera model handle.
#[derive(Clone, Copy)]
pub struct CameraHandle<'a> {
    /// The underlying model handle.
    pub model: ModelHandle<'a>,
}

/// Light model handle.
#[derive(Clone, Copy)]
pub struct LightHandle<'a> {
    /// The underlying model handle.
    pub model: ModelHandle<'a>,
}

/// Skeleton limb node model handle.
#[derive(Clone, Copy)]
pub struct LimbNodeHandle<'a> {
    /// The underlying model handle.
    pub model: ModelHandle<'a>,
}

/// Mesh model handle.
#[derive(Clone, Copy)]
pub struct MeshHandle<'a> {
    /// The underlying model handle.
    pub model: ModelHandle<'a>,
}

/// Null object model handle.
#[derive(Clone, Copy)]
pub struct NullHandle<'a> {
    /// The underlying model handle.
    pub model: ModelHandle<'a>,
}

impl<'a> ObjectHandle<'a> {
    /// The handle points at an existing object record.
    pub open spec fn wf(self) -> bool {
        self.index < self.doc.objects@.len()
    }

    /// The object's class name.
    pub open spec fn class_spec(self) -> Seq<char> {
        self.doc.objects@[self.index as int].class@
    }

    /// The object's subclass name.
    pub open spec fn subclass_spec(self) -> Seq<char> {
        self.doc.objects@[self.index as int].subclass@
    }

    /// The object's identifier.
    pub open spec fn id_spec(self) -> i64 {
        self.doc.objects@[self.index as int].id
    }

    /// Constructs a handle to the object at `index` of `doc`.
    pub fn new(doc: &'a Document, index: usize) -> (r: ObjectHandle<'a>)
        requires
            index < doc.objects@.len(),
        ensures
            r == (ObjectHandle { doc, index }),
            r.wf(),
    {
        ObjectHandle { doc, index }
    }

    /// Returns the object's identifier.
    pub fn id(&self) -> (r: i64)
        requires
            self.wf(),
        ensures
            r == self.id_spec(),
    {
        self.doc.objects[self.index].id
    }

    /// Returns the object's class name.
    pub fn class(&self) -> (r: &'a str)
        requires
            self.wf(),
        ensures
            r@ == self.class_spec(),
    {
        self.doc.objects[self.index].class.as_str()
    }

    /// Returns the object's subclass name.
    pub fn subclass(&self) -> (r: &'a str)
        requires
            self.wf(),
        ensures
            r@ == self.subclass_spec(),
    {
        self.doc.objects[self.index].subclass.as_str()
    }

    /// Classifies this object by its (class, subclass) pair.
    ///
    /// Classification is total: unregistered pairs yield the catch-all
    /// variant, never an error.
    pub fn get_typed(&self) -> (r: TypedObjectHandle<'a>)
        requires
            self.wf(),
        ensures
            r == typed_of(*self),
    {
        if str_eq(self.class(), "Model") {
            let model = ModelHandle { object: *self };
            TypedObjectHandle::Model(model.get_typed_model())
        } else {
            TypedObjectHandle::Unknown(*self)
        }
    }
}

impl<'a> ModelHandle<'a> {
    /// The underlying object exists and classifies as the Model family.
    pub open spec fn wf(self) -> bool {
        &&& self.object.wf()
        &&& self.object.class_spec() == "Model"@
    }

    /// Constructs a Model handle from an object handle.
    ///
    /// Constructing one from an object whose live classification is not
    /// Model is a caller bug, so that input is excluded by contract.
    pub fn new(object: ObjectHandle<'a>) -> (r: ModelHandle<'a>)
        requires
            object.wf(),
            object.class_spec() == "Model"@,
        ensures
            r.object == object,
            r.wf(),
    {
        ModelHandle { object }
    }

    /// Classifies this Model-class object by its subclass.
    pub fn get_typed_model(&self) -> (r: TypedModelHandle<'a>)
        requires
            self.object.wf(),
        ensures
            r == typed_model_of(*self),
    {
        let subclass = self.object.subclass();
        if str_eq(subclass, "Camera") {
            TypedModelHandle::Camera(CameraHandle { model: *self })
        } else if str_eq(subclass, "Light") {
            TypedModelHandle::Light(LightHandle { model: *self })
        } else if str_eq(subclass, "LimbNode") {
            TypedModelHandle::LimbNode(LimbNodeHandle { model: *self })
        } else if str_eq(subclass, "Mesh") {
            TypedModelHandle::Mesh(MeshHandle { model: *self })
        } else if str_eq(subclass, "Null") {
            TypedModelHandle::Null(NullHandle { model: *self })
        } else {
            TypedModelHandle::Unknown(*self)
        }
    }
}

impl Document {
    /// Constructs a handle to the object carrying the given identifier,
    /// if the document holds one.
    pub fn object_by_id(&self, id: i64) -> (r: Option<ObjectHandle<'_>>)
        ensures
            match r {
                Option::Some(h) => h.doc == self && h.wf()
                    && crate::document::object_index_of(*self, id) == Option::Some(
                    h.index as int,
                ),
                Option::None => crate::document::object_index_of(*self, id) is None,
            },
    {
        match self.object_index(id) {
            Option::Some(i) => Option::Some(ObjectHandle::new(self, i)),
            Option::None => Option::None,
        }
    }
}

/// The one typed handle an object classifies as, chosen by exact match of
/// its (class, subclass) pair against the registry.
pub open spec fn typed_of(obj: ObjectHandle) -> TypedObjectHandle {
    if obj.class_spec() == "Model"@ {
        TypedObjectHandle::Model(typed_model_of(ModelHandle { object: obj }))
    } else {
        TypedObjectHandle::Unknown(obj)
    }
}

/// The one typed Model handle a Model-class object classifies as, chosen
/// by exact match of its subclass.
pub open spec fn typed_model_of(m: ModelHandle) -> TypedModelHandle {
    if m.object.subclass_spec() == "Camera"@ {
        TypedModelHandle::Camera(CameraHandle { model: m })
    } else if m.object.subclass_spec() == "Light"@ {
        TypedModelHandle::Light(LightHandle { model: m })
    } else if m.object.subclass_spec() == "LimbNode"@ {
        TypedModelHandle::LimbNode(LimbNodeHandle { model: m })
    } else if m.object.subclass_spec() == "Mesh"@ {
        TypedModelHandle::Mesh(MeshHandle { model: m })
    } else if m.object.subclass_spec() == "Null"@ {
        TypedModelHandle::Null(NullHandle { model: m })
    } else {
        TypedModelHandle::Unknown(m)
    }
}

/// Two handles into one document with equal identifier denote the same
/// object, under the document's identity invariant.
pub proof fn lemma_equal_id_same_object(a: ObjectHandle, b: ObjectHandle)
    requires
        a.doc == b.doc,
        crate::document::ids_unique(*a.doc),
        a.wf(),
        b.wf(),
        a.id_spec() == b.id_spec(),
    ensures
        a.index == b.index,
{
    if a.index < b.index {
        assert(a.doc.objects@[a.index as int].id != a.doc.objects@[b.index as int].id);
    } else if b.index < a.index {
        assert(a.doc.objects@[b.index as int].id != a.doc.objects@[a.index as int].id);
    }
}

/// Classification is total, and an unregistered class always yields the
/// catch-all variant carrying the original handle, never an error.
pub proof fn lemma_classification_total(obj: ObjectHandle)
    ensures
        obj.class_spec() == "Model"@ ==> typed_of(obj) == TypedObjectHandle::Model(
            typed_model_of(ModelHandle { object: obj }),
        ),
        obj.class_spec() != "Model"@ ==> typed_of(obj) == TypedObjectHandle::Unknown(obj),
{
}

/// A Model-class object with an unregistered subclass always classifies
/// as the catch-all Model variant, never an error.
pub proof fn lemma_model_classification_catch_all(m: ModelHandle)
    requires
        m.object.subclass_spec() != "Camera"@,
        m.object.subclass_spec() != "Light"@,
        m.object.subclass_spec() != "LimbNode"@,
        m.object.subclass_spec() != "Mesh"@,
        m.object.subclass_spec() != "Null"@,
    ensures
        typed_model_of(m) == TypedModelHandle::Unknown(m),
{
}

} // verus!
