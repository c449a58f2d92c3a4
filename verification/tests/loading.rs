//! Typed property loaders: arity validation, kind validation, and the
//! loaded values.

use fbx_dom::document::{AttrKind, AttrValue, PropertyNode};
use fbx_dom::loaders::{
    check_attrs_len, BorrowedBinaryLoader, BorrowedStringLoader, F64Arr16Loader, F64Arr2Loader,
    F64Arr3Loader, F64Arr4Loader, LenientF64Loader, LoadTarget, OwnedBinaryLoader,
    OwnedStringLoader, PrimitiveLoader, PropertyLoadError, Rgb, RgbLoader, StrictF32Loader,
    StrictF64Loader, Vector3, Vector3Loader,
};
use fbx_dom::property::PropertyHandle;

fn node_with(node_id: i64, values: Vec<AttrValue>) -> PropertyNode {
    let mut attrs = vec![
        AttrValue::Str("P".to_string()),
        AttrValue::Str("type".to_string()),
        AttrValue::Str("label".to_string()),
        AttrValue::Str("".to_string()),
    ];
    attrs.extend(values);
    PropertyNode { node_id, attrs }
}

fn f64s(values: &[f64]) -> Vec<AttrValue> {
    values.iter().map(|v| AttrValue::F64(v.to_bits())).collect()
}

#[test]
fn attrs_len_check_rejects_too_few_and_too_many() {
    let short = node_with(7, f64s(&[1.0, 2.0]));
    let h = PropertyHandle { node: &short };
    assert_eq!(
        check_attrs_len(&h, 3, LoadTarget::Vector3),
        Err(PropertyLoadError::TooFewAttributes {
            target: LoadTarget::Vector3,
            node_id: 7,
            expected: 3,
            got: 2,
        })
    );

    let long = node_with(8, f64s(&[1.0, 2.0, 3.0, 4.0]));
    let h = PropertyHandle { node: &long };
    assert_eq!(
        check_attrs_len(&h, 3, LoadTarget::Vector3),
        Err(PropertyLoadError::TooManyAttributes {
            target: LoadTarget::Vector3,
            node_id: 8,
            expected: 3,
            got: 4,
        })
    );

    let exact = node_with(9, f64s(&[1.0, 2.0, 3.0]));
    let h = PropertyHandle { node: &exact };
    let value_part = check_attrs_len(&h, 3, LoadTarget::Vector3).expect("exact length");
    assert_eq!(value_part.len(), 3);
}

#[test]
fn arity_errors_name_the_target_type() {
    let short = node_with(7, f64s(&[1.0, 2.0]));
    let h = PropertyHandle { node: &short };
    match check_attrs_len(&h, 3, LoadTarget::Rgb) {
        Err(PropertyLoadError::TooFewAttributes { target, .. }) => {
            assert_eq!(target, LoadTarget::Rgb);
            assert_eq!(target.name(), "RGB color");
        }
        other => panic!("expected a too-few error, got {:?}", other),
    }
    match F64Arr16Loader::load(&h) {
        Err(PropertyLoadError::TooFewAttributes { target, .. }) => {
            assert_eq!(target, LoadTarget::F64Arr16);
            assert_eq!(target.name(), "[f64; 16]");
        }
        other => panic!("expected a too-few error, got {:?}", other),
    }
}

#[test]
fn vector3_load_succeeds_on_three_doubles() {
    let node = node_with(1, f64s(&[1.0, 2.0, 3.0]));
    let h = PropertyHandle { node: &node };
    let v = Vector3Loader::load(&h).expect("three doubles");
    assert_eq!(
        v,
        Vector3 { x: 1.0f64.to_bits(), y: 2.0f64.to_bits(), z: 3.0f64.to_bits() }
    );
}

#[test]
fn vector3_load_rejects_string_component() {
    let node = node_with(2, vec![
        AttrValue::F64(1.0f64.to_bits()),
        AttrValue::Str("two".to_string()),
        AttrValue::F64(3.0f64.to_bits()),
    ]);
    let h = PropertyHandle { node: &node };
    assert_eq!(
        Vector3Loader::load(&h),
        Err(PropertyLoadError::AttributeKindMismatch {
            target: LoadTarget::Vector3,
            node_id: 2,
            index: 1,
            expected: AttrKind::F64,
            got: AttrKind::Str,
        })
    );
}

#[test]
fn strict_scalar_loaders_check_the_width() {
    let node = node_with(3, f64s(&[2.5]));
    let h = PropertyHandle { node: &node };
    assert_eq!(StrictF64Loader::load(&h), Ok(2.5f64.to_bits()));
    assert_eq!(
        StrictF32Loader::load(&h),
        Err(PropertyLoadError::AttributeKindMismatch {
            target: LoadTarget::F32,
            node_id: 3,
            index: 0,
            expected: AttrKind::F32,
            got: AttrKind::F64,
        })
    );

    let narrow = node_with(4, vec![AttrValue::F32(2.5f32.to_bits())]);
    let h = PropertyHandle { node: &narrow };
    assert_eq!(StrictF32Loader::load(&h), Ok(2.5f32.to_bits()));
    assert_eq!(
        StrictF64Loader::load(&h),
        Err(PropertyLoadError::AttributeKindMismatch {
            target: LoadTarget::F64,
            node_id: 4,
            index: 0,
            expected: AttrKind::F64,
            got: AttrKind::F32,
        })
    );
}

#[test]
fn lenient_integer_loader_widens() {
    let n16 = node_with(5, vec![AttrValue::I16(-3)]);
    assert_eq!(PrimitiveLoader::load(&PropertyHandle { node: &n16 }), Ok(-3));
    let n32 = node_with(5, vec![AttrValue::I32(70000)]);
    assert_eq!(PrimitiveLoader::load(&PropertyHandle { node: &n32 }), Ok(70000));
    let n64 = node_with(5, vec![AttrValue::I64(1 << 40)]);
    assert_eq!(PrimitiveLoader::load(&PropertyHandle { node: &n64 }), Ok(1 << 40));
    let bad = node_with(5, f64s(&[1.0]));
    assert_eq!(
        PrimitiveLoader::load(&PropertyHandle { node: &bad }),
        Err(PropertyLoadError::AttributeKindMismatch {
            target: LoadTarget::I64,
            node_id: 5,
            index: 0,
            expected: AttrKind::I64,
            got: AttrKind::F64,
        })
    );
}

#[test]
fn fixed_length_array_loaders() {
    let n2 = node_with(6, f64s(&[1.0, 2.0]));
    assert_eq!(
        F64Arr2Loader::load(&PropertyHandle { node: &n2 }),
        Ok([1.0f64.to_bits(), 2.0f64.to_bits()])
    );

    let n3 = node_with(6, f64s(&[1.0, 2.0, 3.0]));
    assert_eq!(
        F64Arr3Loader::load(&PropertyHandle { node: &n3 }),
        Ok([1.0f64.to_bits(), 2.0f64.to_bits(), 3.0f64.to_bits()])
    );

    let n4 = node_with(6, f64s(&[1.0, 2.0, 3.0, 4.0]));
    assert_eq!(
        F64Arr4Loader::load(&PropertyHandle { node: &n4 }),
        Ok([
            1.0f64.to_bits(),
            2.0f64.to_bits(),
            3.0f64.to_bits(),
            4.0f64.to_bits()
        ])
    );

    let values: Vec<f64> = (0..16).map(|i| i as f64).collect();
    let n16 = node_with(6, f64s(&values));
    let loaded = F64Arr16Loader::load(&PropertyHandle { node: &n16 }).expect("16 doubles");
    for (i, b) in loaded.iter().enumerate() {
        assert_eq!(*b, (i as f64).to_bits());
    }

    let wrong = node_with(6, f64s(&[1.0, 2.0, 3.0]));
    assert_eq!(
        F64Arr16Loader::load(&PropertyHandle { node: &wrong }),
        Err(PropertyLoadError::TooFewAttributes {
            target: LoadTarget::F64Arr16,
            node_id: 6,
            expected: 16,
            got: 3,
        })
    );
}

#[test]
fn string_loaders_owned_and_borrowed() {
    let node = node_with(11, vec![AttrValue::Str("hello".to_string())]);
    let h = PropertyHandle { node: &node };
    assert_eq!(BorrowedStringLoader::load(&h), Ok("hello"));
    assert_eq!(OwnedStringLoader::load(&h), Ok("hello".to_string()));

    let bin = node_with(12, vec![AttrValue::Bin(vec![1, 2, 3])]);
    let h = PropertyHandle { node: &bin };
    assert_eq!(
        OwnedStringLoader::load(&h),
        Err(PropertyLoadError::AttributeKindMismatch {
            target: LoadTarget::Str,
            node_id: 12,
            index: 0,
            expected: AttrKind::Str,
            got: AttrKind::Bin,
        })
    );
}

#[test]
fn binary_loaders_owned_and_borrowed() {
    let node = node_with(13, vec![AttrValue::Bin(vec![9, 8, 7])]);
    let h = PropertyHandle { node: &node };
    assert_eq!(BorrowedBinaryLoader::load(&h), Ok(&[9u8, 8, 7][..]));
    assert_eq!(OwnedBinaryLoader::load(&h), Ok(vec![9u8, 8, 7]));

    let s = node_with(14, vec![AttrValue::Str("text".to_string())]);
    let h = PropertyHandle { node: &s };
    assert_eq!(
        BorrowedBinaryLoader::load(&h),
        Err(PropertyLoadError::AttributeKindMismatch {
            target: LoadTarget::Bin,
            node_id: 14,
            index: 0,
            expected: AttrKind::Bin,
            got: AttrKind::Str,
        })
    );
}

#[test]
fn rgb_loader_accepts_unit_interval_components() {
    let node = node_with(15, f64s(&[0.25, 0.5, 1.0]));
    let h = PropertyHandle { node: &node };
    assert_eq!(
        RgbLoader::load(&h),
        Ok(Rgb {
            r: 0.25f64.to_bits(),
            g: 0.5f64.to_bits(),
            b: 1.0f64.to_bits(),
        })
    );
}

#[test]
fn rgb_loader_converts_numeric_components_leniently() {
    let node = node_with(30, vec![
        AttrValue::F32(0.5f32.to_bits()),
        AttrValue::I32(1),
        AttrValue::I16(0),
    ]);
    let h = PropertyHandle { node: &node };
    assert_eq!(
        RgbLoader::load(&h),
        Ok(Rgb {
            r: (0.5f32 as f64).to_bits(),
            g: 1.0f64.to_bits(),
            b: 0.0f64.to_bits(),
        })
    );

    let wide = node_with(31, vec![
        AttrValue::I64(2),
        AttrValue::F64(0.5f64.to_bits()),
        AttrValue::F64(0.5f64.to_bits()),
    ]);
    let h = PropertyHandle { node: &wide };
    assert_eq!(
        RgbLoader::load(&h),
        Err(PropertyLoadError::ComponentOutOfRange {
            target: LoadTarget::Rgb,
            node_id: 31,
            index: 0,
        })
    );
}

#[test]
fn rgb_loader_accepts_negative_zero() {
    let node = node_with(32, f64s(&[-0.0, 0.5, 1.0]));
    let h = PropertyHandle { node: &node };
    assert_eq!(
        RgbLoader::load(&h),
        Ok(Rgb {
            r: (-0.0f64).to_bits(),
            g: 0.5f64.to_bits(),
            b: 1.0f64.to_bits(),
        })
    );
}

#[test]
fn rgb_loader_rejects_out_of_range_components() {
    let too_big = node_with(16, f64s(&[0.25, 1.5, 0.5]));
    let h = PropertyHandle { node: &too_big };
    assert_eq!(
        RgbLoader::load(&h),
        Err(PropertyLoadError::ComponentOutOfRange {
            target: LoadTarget::Rgb,
            node_id: 16,
            index: 1,
        })
    );

    let negative = node_with(17, f64s(&[-0.1, 0.5, 0.5]));
    let h = PropertyHandle { node: &negative };
    assert_eq!(
        RgbLoader::load(&h),
        Err(PropertyLoadError::ComponentOutOfRange {
            target: LoadTarget::Rgb,
            node_id: 17,
            index: 0,
        })
    );

    let not_numeric = node_with(18, vec![
        AttrValue::Str("red".to_string()),
        AttrValue::F64(0.5f64.to_bits()),
        AttrValue::F64(0.5f64.to_bits()),
    ]);
    let h = PropertyHandle { node: &not_numeric };
    assert_eq!(
        RgbLoader::load(&h),
        Err(PropertyLoadError::AttributeKindMismatch {
            target: LoadTarget::Rgb,
            node_id: 18,
            index: 0,
            expected: AttrKind::F64,
            got: AttrKind::Str,
        })
    );
}

#[test]
fn lenient_float_loader_accepts_both_widths() {
    let wide = node_with(20, f64s(&[2.5]));
    assert_eq!(
        LenientF64Loader::load(&PropertyHandle { node: &wide }),
        Ok(2.5f64.to_bits())
    );

    let narrow = node_with(21, vec![AttrValue::F32(2.5f32.to_bits())]);
    assert_eq!(
        LenientF64Loader::load(&PropertyHandle { node: &narrow }),
        Ok(2.5f64.to_bits())
    );
}

#[test]
fn lenient_float_loader_widens_exactly_like_a_cast() {
    let samples: Vec<f32> = vec![
        0.0,
        -0.0,
        1.0,
        -1.5,
        3.1415927,
        f32::MAX,
        f32::MIN_POSITIVE,
        f32::INFINITY,
        f32::NEG_INFINITY,
        f32::from_bits(1),          // smallest positive subnormal
        f32::from_bits(0x007F_FFFF), // largest subnormal
        f32::from_bits(0x8000_0001), // smallest negative subnormal
        f32::from_bits(0x0000_1234),
    ];
    for v in samples {
        let node = node_with(22, vec![AttrValue::F32(v.to_bits())]);
        let loaded = LenientF64Loader::load(&PropertyHandle { node: &node }).unwrap();
        assert_eq!(loaded, (v as f64).to_bits(), "widening {:?}", v);
    }
}

#[test]
fn lenient_float_loader_encodes_integers_exactly() {
    let ints16: Vec<i16> = vec![0, 1, -1, -3, 12345, i16::MIN, i16::MAX];
    for x in ints16 {
        let node = node_with(23, vec![AttrValue::I16(x)]);
        let loaded = LenientF64Loader::load(&PropertyHandle { node: &node }).unwrap();
        assert_eq!(loaded, (x as f64).to_bits(), "encoding {}", x);
    }
    let ints32: Vec<i32> = vec![0, 7, -7, 70000, i32::MIN, i32::MAX];
    for x in ints32 {
        let node = node_with(24, vec![AttrValue::I32(x)]);
        let loaded = LenientF64Loader::load(&PropertyHandle { node: &node }).unwrap();
        assert_eq!(loaded, (x as f64).to_bits(), "encoding {}", x);
    }
}

#[test]
fn lenient_float_loader_rounds_wide_integers_like_a_cast() {
    let samples: Vec<i64> = vec![
        0,
        1,
        -1,
        1 << 40,
        (1 << 53) - 1,        // largest exactly representable odd value
        (1 << 53) + 1,        // ties to even, rounds down
        (1 << 53) + 3,        // ties to even, rounds up
        (1 << 60) + 12345,
        i64::MAX,
        i64::MIN,
        -((1 << 53) + 1),
        -((1 << 60) + 98765),
    ];
    for x in samples {
        let node = node_with(25, vec![AttrValue::I64(x)]);
        let loaded = LenientF64Loader::load(&PropertyHandle { node: &node }).unwrap();
        assert_eq!(loaded, (x as f64).to_bits(), "rounding {}", x);
    }
}

#[test]
fn lenient_float_loader_rejects_non_numeric_kinds() {
    let flag = node_with(26, vec![AttrValue::Bool(true)]);
    assert_eq!(
        LenientF64Loader::load(&PropertyHandle { node: &flag }),
        Err(PropertyLoadError::AttributeKindMismatch {
            target: LoadTarget::F64,
            node_id: 26,
            index: 0,
            expected: AttrKind::F64,
            got: AttrKind::Bool,
        })
    );
    let arr = node_with(27, vec![AttrValue::ArrF64(vec![1.0f64.to_bits()])]);
    assert_eq!(
        LenientF64Loader::load(&PropertyHandle { node: &arr }),
        Err(PropertyLoadError::AttributeKindMismatch {
            target: LoadTarget::F64,
            node_id: 27,
            index: 0,
            expected: AttrKind::F64,
            got: AttrKind::ArrF64,
        })
    );
}

#[test]
fn array_attribute_is_a_kind_mismatch_not_an_absence() {
    let node = node_with(28, vec![
        AttrValue::ArrF64(vec![1.0f64.to_bits(), 2.0f64.to_bits(), 3.0f64.to_bits()]),
        AttrValue::F64(2.0f64.to_bits()),
        AttrValue::F64(3.0f64.to_bits()),
    ]);
    assert_eq!(
        Vector3Loader::load(&PropertyHandle { node: &node }),
        Err(PropertyLoadError::AttributeKindMismatch {
            target: LoadTarget::Vector3,
            node_id: 28,
            index: 0,
            expected: AttrKind::F64,
            got: AttrKind::ArrF64,
        })
    );
}

#[test]
fn empty_value_part_on_short_metadata() {
    let node = PropertyNode {
        node_id: 19,
        attrs: vec![AttrValue::Str("P".to_string())],
    };
    let h = PropertyHandle { node: &node };
    assert_eq!(h.value_part_len(), 0);
    assert_eq!(
        StrictF64Loader::load(&h),
        Err(PropertyLoadError::TooFewAttributes {
            target: LoadTarget::F64,
            node_id: 19,
            expected: 1,
            got: 0,
        })
    );
}
