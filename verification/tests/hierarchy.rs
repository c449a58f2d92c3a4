//! Parent / child / root navigation over unlabeled connections.

use fbx_dom::document::{Connection, Document, ObjectRecord, PropertyNode};
use fbx_dom::model::HierarchyError;
use fbx_dom::object::{ModelHandle, ObjectHandle, TypedModelHandle};

fn model(id: i64, subclass: &str) -> ObjectRecord {
    ObjectRecord {
        id,
        class: "Model".to_string(),
        subclass: subclass.to_string(),
        properties: Vec::<PropertyNode>::new(),
    }
}

fn conn(source: i64, dest: i64) -> Connection {
    Connection { source, dest, label: None }
}

fn labeled(source: i64, dest: i64, label: &str) -> Connection {
    Connection { source, dest, label: Some(label.to_string()) }
}

/// A chain: object 10 is a child of 20, which is a child of 30.
fn chain_doc() -> Document {
    Document {
        objects: vec![model(10, "Mesh"), model(20, "Null"), model(30, "Null")],
        connections: vec![conn(10, 20), conn(20, 30)],
        templates: Vec::new(),
    }
}

fn model_at(doc: &Document, idx: usize) -> ModelHandle<'_> {
    ModelHandle::new(ObjectHandle::new(doc, idx))
}

#[test]
fn parent_of_chain_links() {
    let doc = chain_doc();
    let a = model_at(&doc, 0);
    let b = model_at(&doc, 1);
    let c = model_at(&doc, 2);
    let pa = a.parent_model().expect("A has a parent");
    assert_eq!(pa.model().object.index, 1);
    let pb = b.parent_model().expect("B has a parent");
    assert_eq!(pb.model().object.index, 2);
    assert!(c.parent_model().is_none());
}

#[test]
fn root_of_chain_is_last_ancestor() {
    let doc = chain_doc();
    let a = model_at(&doc, 0);
    let root = a.root_model().expect("the chain is acyclic");
    assert_eq!(root.model().object.index, 2);
    assert!(matches!(root, TypedModelHandle::Null(_)));
}

#[test]
fn root_of_root_is_itself() {
    let doc = chain_doc();
    let a = model_at(&doc, 0);
    let root = a.root_model().expect("the chain is acyclic");
    assert!(root.model().parent_model().is_none());
    let again = root.model().root_model().expect("a root stays a root");
    assert_eq!(again.model().object.index, root.model().object.index);
}

#[test]
fn children_along_chain() {
    let doc = chain_doc();
    let b = model_at(&doc, 1);
    let c = model_at(&doc, 2);
    let cb = b.child_models();
    assert_eq!(cb.len(), 1);
    assert_eq!(cb[0].model().object.index, 0);
    let cc = c.child_models();
    assert_eq!(cc.len(), 1);
    assert_eq!(cc[0].model().object.index, 1);
}

#[test]
fn object_without_connections_is_its_own_root() {
    let doc = Document {
        objects: vec![model(5, "Null")],
        connections: Vec::new(),
        templates: Vec::new(),
    };
    let m = model_at(&doc, 0);
    assert!(m.parent_model().is_none());
    assert_eq!(m.root_model().unwrap().model().object.index, 0);
    assert!(m.child_models().is_empty());
}

#[test]
fn labeled_connections_are_excluded_from_hierarchy() {
    let doc = Document {
        objects: vec![model(1, "Mesh"), model(2, "Null")],
        connections: vec![labeled(1, 2, "DiffuseColor")],
        templates: Vec::new(),
    };
    let a = model_at(&doc, 0);
    let b = model_at(&doc, 1);
    assert!(a.parent_model().is_none());
    assert_eq!(a.root_model().unwrap().model().object.index, 0);
    assert!(b.child_models().is_empty());
}

#[test]
fn non_model_destinations_are_skipped() {
    let other = ObjectRecord {
        id: 7,
        class: "Geometry".to_string(),
        subclass: "Mesh".to_string(),
        properties: Vec::new(),
    };
    let doc = Document {
        objects: vec![model(1, "Mesh"), other, model(3, "Null")],
        connections: vec![conn(1, 7), conn(1, 3)],
        templates: Vec::new(),
    };
    let a = model_at(&doc, 0);
    let p = a.parent_model().expect("the second connection resolves");
    assert_eq!(p.model().object.index, 2);
}

#[test]
fn first_unlabeled_connection_wins() {
    let doc = Document {
        objects: vec![model(1, "Mesh"), model(2, "Null"), model(3, "Null")],
        connections: vec![conn(1, 2), conn(1, 3)],
        templates: Vec::new(),
    };
    let a = model_at(&doc, 0);
    let p = a.parent_model().expect("A has parents");
    assert_eq!(p.model().object.index, 1);
}

#[test]
fn repeated_child_traversals_agree() {
    let doc = Document {
        objects: vec![
            model(1, "Null"),
            model(2, "Mesh"),
            model(3, "Camera"),
            model(4, "Light"),
        ],
        connections: vec![conn(2, 1), conn(3, 1), conn(4, 1)],
        templates: Vec::new(),
    };
    let root = model_at(&doc, 0);
    let first = root.child_models();
    let second = root.child_models();
    assert_eq!(first.len(), 3);
    assert_eq!(first.len(), second.len());
    for (x, y) in first.iter().zip(second.iter()) {
        assert_eq!(x.model().object.index, y.model().object.index);
    }
    let indices: Vec<usize> = first.iter().map(|m| m.model().object.index).collect();
    assert_eq!(indices, vec![1, 2, 3]);
}

#[test]
fn connection_views_follow_direction_and_order() {
    let doc = Document {
        objects: vec![model(1, "Mesh"), model(2, "Null")],
        connections: vec![conn(1, 2), labeled(1, 2, "DiffuseColor"), conn(2, 1)],
        templates: Vec::new(),
    };
    let a = ObjectHandle::new(&doc, 0);
    let outgoing = a.outgoing_connections();
    assert_eq!(outgoing.len(), 2);
    assert_eq!(outgoing[0].label, None);
    assert_eq!(outgoing[1].label, Some("DiffuseColor".to_string()));
    let incoming = a.incoming_connections();
    assert_eq!(incoming.len(), 1);
    assert_eq!(incoming[0].source, 2);
}

#[test]
fn cyclic_hierarchy_is_an_error() {
    let doc = Document {
        objects: vec![model(1, "Null"), model(2, "Null")],
        connections: vec![conn(1, 2), conn(2, 1)],
        templates: Vec::new(),
    };
    let a = model_at(&doc, 0);
    match a.root_model() {
        Err(e) => assert_eq!(e, HierarchyError::CyclicHierarchy { id: 1 }),
        Ok(_) => panic!("expected a cyclic-hierarchy error"),
    }
    let b = model_at(&doc, 1);
    match b.root_model() {
        Err(e) => assert_eq!(e, HierarchyError::CyclicHierarchy { id: 2 }),
        Ok(_) => panic!("expected a cyclic-hierarchy error"),
    }
}
