//! Classification of objects into typed handles.

use fbx_dom::document::{Connection, Document, ObjectRecord, PropertyNode};
use fbx_dom::object::{ObjectHandle, TypedModelHandle, TypedObjectHandle};

fn classify_doc() -> Document {
    let mk = |id: i64, class: &str, subclass: &str| ObjectRecord {
        id,
        class: class.to_string(),
        subclass: subclass.to_string(),
        properties: Vec::<PropertyNode>::new(),
    };
    Document {
        objects: vec![
            mk(1, "Model", "Camera"),
            mk(2, "Model", "Light"),
            mk(3, "Model", "LimbNode"),
            mk(4, "Model", "Mesh"),
            mk(5, "Model", "Null"),
            mk(6, "Model", "SomethingElse"),
            mk(7, "Geometry", "Mesh"),
            mk(8, "", ""),
        ],
        connections: Vec::<Connection>::new(),
        templates: Vec::new(),
    }
}

#[test]
fn model_subclasses_map_to_their_variants() {
    let doc = classify_doc();
    let typed = |idx: usize| ObjectHandle::new(&doc, idx).get_typed();
    assert!(matches!(
        typed(0),
        TypedObjectHandle::Model(TypedModelHandle::Camera(_))
    ));
    assert!(matches!(
        typed(1),
        TypedObjectHandle::Model(TypedModelHandle::Light(_))
    ));
    assert!(matches!(
        typed(2),
        TypedObjectHandle::Model(TypedModelHandle::LimbNode(_))
    ));
    assert!(matches!(
        typed(3),
        TypedObjectHandle::Model(TypedModelHandle::Mesh(_))
    ));
    assert!(matches!(
        typed(4),
        TypedObjectHandle::Model(TypedModelHandle::Null(_))
    ));
}

#[test]
fn unregistered_subclass_maps_to_model_catch_all() {
    let doc = classify_doc();
    match ObjectHandle::new(&doc, 5).get_typed() {
        TypedObjectHandle::Model(TypedModelHandle::Unknown(m)) => {
            assert_eq!(m.object.index, 5);
        }
        _ => panic!("expected the catch-all Model variant"),
    }
}

#[test]
fn unregistered_class_maps_to_catch_all() {
    let doc = classify_doc();
    match ObjectHandle::new(&doc, 6).get_typed() {
        TypedObjectHandle::Unknown(o) => assert_eq!(o.index, 6),
        _ => panic!("expected the catch-all variant"),
    }
    match ObjectHandle::new(&doc, 7).get_typed() {
        TypedObjectHandle::Unknown(o) => assert_eq!(o.index, 7),
        _ => panic!("expected the catch-all variant"),
    }
}

#[test]
fn object_lookup_by_identifier() {
    let doc = classify_doc();
    assert_eq!(doc.object_index(3), Some(2));
    assert_eq!(doc.object_index(8), Some(7));
    assert_eq!(doc.object_index(99), None);
    let h = ObjectHandle::new(&doc, 2);
    assert_eq!(h.id(), 3);
    assert_eq!(h.class(), "Model");
    assert_eq!(h.subclass(), "LimbNode");

    let by_id = doc.object_by_id(3).expect("identifier 3 exists");
    assert_eq!(by_id.index, 2);
    assert!(doc.object_by_id(99).is_none());
}
