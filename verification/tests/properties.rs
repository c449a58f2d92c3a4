//! Named property lookup with native-type fallback, and the transform
//! accessors built on it.

use fbx_dom::document::{AttrValue, Connection, Document, ObjectRecord, PropertyNode, Template};
use fbx_dom::loaders::Vector3;
use fbx_dom::object::{ModelHandle, ObjectHandle};

fn prop(node_id: i64, name: &str, values: Vec<AttrValue>) -> PropertyNode {
    let mut attrs = vec![
        AttrValue::Str(name.to_string()),
        AttrValue::Str("type".to_string()),
        AttrValue::Str("label".to_string()),
        AttrValue::Str("".to_string()),
    ];
    attrs.extend(values);
    PropertyNode { node_id, attrs }
}

fn vec3_values(x: f64, y: f64, z: f64) -> Vec<AttrValue> {
    vec![
        AttrValue::F64(x.to_bits()),
        AttrValue::F64(y.to_bits()),
        AttrValue::F64(z.to_bits()),
    ]
}

fn doc_with(direct: Vec<PropertyNode>, template: Vec<PropertyNode>) -> Document {
    Document {
        objects: vec![ObjectRecord {
            id: 1,
            class: "Model".to_string(),
            subclass: "Mesh".to_string(),
            properties: direct,
        }],
        connections: Vec::<Connection>::new(),
        templates: vec![Template {
            native_type: "FbxNode".to_string(),
            properties: template,
        }],
    }
}

#[test]
fn direct_property_is_found() {
    let doc = doc_with(
        vec![prop(100, "Lcl Translation", vec3_values(4.0, 5.0, 6.0))],
        Vec::new(),
    );
    let obj = ObjectHandle::new(&doc, 0);
    let view = obj.properties_by_native_typename("FbxNode");
    let h = view.get_property("Lcl Translation").expect("authored directly");
    assert_eq!(h.node_id(), 100);
    assert_eq!(h.value_part_len(), 3);
}

#[test]
fn fallback_to_native_type_template() {
    let doc = doc_with(
        Vec::new(),
        vec![prop(200, "Lcl Scaling", vec3_values(1.0, 1.0, 1.0))],
    );
    let m = ModelHandle::new(ObjectHandle::new(&doc, 0));
    let loaded = m.local_scaling().expect("well-formed template property");
    assert_eq!(
        loaded,
        Some(Vector3 {
            x: 1.0f64.to_bits(),
            y: 1.0f64.to_bits(),
            z: 1.0f64.to_bits(),
        })
    );
}

#[test]
fn absent_in_both_tiers_is_no_value() {
    let doc = doc_with(Vec::new(), Vec::new());
    let m = ModelHandle::new(ObjectHandle::new(&doc, 0));
    assert_eq!(m.local_scaling(), Ok(None));
    assert_eq!(m.local_translation(), Ok(None));
    assert_eq!(m.local_rotation(), Ok(None));
    assert_eq!(m.pre_rotation(), Ok(None));
    let obj = ObjectHandle::new(&doc, 0);
    let view = obj.properties_by_native_typename("FbxNode");
    assert!(view.get_property("Lcl Scaling").is_none());
}

#[test]
fn direct_property_shadows_template() {
    let doc = doc_with(
        vec![prop(10, "Lcl Scaling", vec3_values(2.0, 2.0, 2.0))],
        vec![prop(20, "Lcl Scaling", vec3_values(1.0, 1.0, 1.0))],
    );
    let m = ModelHandle::new(ObjectHandle::new(&doc, 0));
    let loaded = m.local_scaling().expect("authored directly");
    assert_eq!(
        loaded,
        Some(Vector3 {
            x: 2.0f64.to_bits(),
            y: 2.0f64.to_bits(),
            z: 2.0f64.to_bits(),
        })
    );
}

#[test]
fn template_of_other_native_type_is_ignored() {
    let mut doc = doc_with(Vec::new(), Vec::new());
    doc.templates = vec![Template {
        native_type: "FbxSurfaceMaterial".to_string(),
        properties: vec![prop(30, "Lcl Scaling", vec3_values(1.0, 1.0, 1.0))],
    }];
    let m = ModelHandle::new(ObjectHandle::new(&doc, 0));
    assert_eq!(m.local_scaling(), Ok(None));
}

#[test]
fn transform_accessors_read_their_own_names() {
    let doc = doc_with(
        vec![
            prop(1, "Lcl Translation", vec3_values(1.0, 2.0, 3.0)),
            prop(2, "Lcl Rotation", vec3_values(10.0, 20.0, 30.0)),
            prop(3, "PreRotation", vec3_values(-90.0, 0.0, 0.0)),
        ],
        Vec::new(),
    );
    let m = ModelHandle::new(ObjectHandle::new(&doc, 0));
    assert_eq!(
        m.local_translation().unwrap(),
        Some(Vector3 {
            x: 1.0f64.to_bits(),
            y: 2.0f64.to_bits(),
            z: 3.0f64.to_bits(),
        })
    );
    assert_eq!(
        m.local_rotation().unwrap(),
        Some(Vector3 {
            x: 10.0f64.to_bits(),
            y: 20.0f64.to_bits(),
            z: 30.0f64.to_bits(),
        })
    );
    assert_eq!(
        m.pre_rotation().unwrap(),
        Some(Vector3 {
            x: (-90.0f64).to_bits(),
            y: 0.0f64.to_bits(),
            z: 0.0f64.to_bits(),
        })
    );
    assert_eq!(m.local_scaling(), Ok(None));
}
