//! Typed property loaders.
//!
//! Each loader is a stateless strategy converting a property's value-part
//! attributes into one target type, validating attribute count and
//! attribute kind.  All failures are recoverable values carrying the
//! defining node's identifier and the expected-versus-actual counts or
//! kinds; no loader mutates the document.

use vstd::prelude::*;
use crate::document::{kind_of, AttrKind, AttrValue, PropertyNode};
use crate::property::{value_part, PropertyHandle};

verus! {

/// Raw bit pattern of 1.0 as a 64-bit float: the upper bound of the unit
/// interval used by the color loader.
pub const UNIT_ONE_BITS: u64 = 0x3FF0000000000000;

/// The target type a loader was converting to when it failed, carried in
/// every property-conversion error so diagnostics can name it.
#[derive(Clone, Copy, Debug, PartialEq, Eq, Structural)]
pub enum LoadTarget {
    /// 32-bit float scalar.
    F32,
    /// 64-bit float scalar.
    F64,
    /// 64-bit integer scalar.
    I64,
    /// Array of 2 64-bit floats.
    F64Arr2,
    /// Array of 3 64-bit floats.
    F64Arr3,
    /// Array of 4 64-bit floats.
    F64Arr4,
    /// Array of 16 64-bit floats.
    F64Arr16,
    /// Named 3-component vector.
    Vector3,
    /// RGB color.
    Rgb,
    /// String.
    Str,
    /// Binary blob.
    Bin,
}

impl LoadTarget {
    /// Returns the conventional name of the target type, for diagnostics.
    pub fn name(&self) -> (r: &'static str)
        ensures
            match *self {
                LoadTarget::F32 => r@ == "f32"@,
                LoadTarget::F64 => r@ == "f64"@,
                LoadTarget::I64 => r@ == "i64"@,
                LoadTarget::F64Arr2 => r@ == "[f64; 2]"@,
                LoadTarget::F64Arr3 => r@ == "[f64; 3]"@,
                LoadTarget::F64Arr4 => r@ == "[f64; 4]"@,
                LoadTarget::F64Arr16 => r@ == "[f64; 16]"@,
                LoadTarget::Vector3 => r@ == "Vector3"@,
                LoadTarget::Rgb => r@ == "RGB color"@,
                LoadTarget::Str => r@ == "string"@,
                LoadTarget::Bin => r@ == "binary"@,
            },
    {
        match self {
            LoadTarget::F32 => "f32",
            LoadTarget::F64 => "f64",
            LoadTarget::I64 => "i64",
            LoadTarget::F64Arr2 => "[f64; 2]",
            LoadTarget::F64Arr3 => "[f64; 3]",
            LoadTarget::F64Arr4 => "[f64; 4]",
            LoadTarget::F64Arr16 => "[f64; 16]",
            LoadTarget::Vector3 => "Vector3",
            LoadTarget::Rgb => "RGB color",
            LoadTarget::Str => "string",
            LoadTarget::Bin => "binary",
        }
    }
}

/// A recoverable property-conversion error.  Every variant names the
/// target type being loaded, the defining node, and what was expected
/// versus found.
#[derive(Clone, Copy, Debug, PartialEq, Eq, Structural)]
pub enum PropertyLoadError {
    /// The value part has fewer attributes than the target type expects.
    TooFewAttributes {
        /// The target type being loaded.
        target: LoadTarget,
        /// Identifier of the defining node.
        node_id: i64,
        /// Expected attribute count.
        expected: usize,
        /// Actual attribute count.
        got: usize,
    },
    /// The value part has more attributes than the target type expects.
    TooManyAttributes {
        /// The target type being loaded.
        target: LoadTarget,
        /// Identifier of the defining node.
        node_id: i64,
        /// Expected attribute count.
        expected: usize,
        /// Actual attribute count.
        got: usize,
    },
    /// An attribute's kind does not fit the target type.
    AttributeKindMismatch {
        /// The target type being loaded.
        target: LoadTarget,
        /// Identifier of the defining node.
        node_id: i64,
        /// Index of the offending attribute within the value part.
        index: usize,
        /// The kind the target type expects.
        expected: AttrKind,
        /// The kind actually present.
        got: AttrKind,
    },
    /// A color component falls outside the unit interval.
    ComponentOutOfRange {
        /// The target type being loaded.
        target: LoadTarget,
        /// Identifier of the defining node.
        node_id: i64,
        /// Index of the offending attribute within the value part.
        index: usize,
    },
}

/// A 3-component vector of 64-bit floats, carried as IEEE 754 bit
/// patterns.
#[derive(Clone, Copy, Debug, PartialEq, Eq, Structural)]
pub struct Vector3 {
    /// First component, as an IEEE 754 bit pattern.
    pub x: u64,
    /// Second component, as an IEEE 754 bit pattern.
    pub y: u64,
    /// Third component, as an IEEE 754 bit pattern.
    pub z: u64,
}

/// An RGB color whose components are 64-bit floats within the unit
/// interval, carried as IEEE 754 bit patterns.
#[derive(Clone, Copy, Debug, PartialEq, Eq, Structural)]
pub struct Rgb {
    /// Red component, as an IEEE 754 bit pattern.
    pub r: u64,
    /// Green component, as an IEEE 754 bit pattern.
    pub g: u64,
    /// Blue component, as an IEEE 754 bit pattern.
    pub b: u64,
}

/// The arity error reported when the value part of `node` does not hold
/// exactly `expected` attributes while loading `target`.
pub open spec fn arity_error(node: PropertyNode, expected: usize, target: LoadTarget) -> PropertyLoadError {
    if value_part(node).len() < expected {
        PropertyLoadError::TooFewAttributes {
            target,
            node_id: node.node_id,
            expected,
            got: value_part(node).len() as usize,
        }
    } else {
        PropertyLoadError::TooManyAttributes {
            target,
            node_id: node.node_id,
            expected,
            got: value_part(node).len() as usize,
        }
    }
}

/// The kind-mismatch error reported for the value-part attribute of
/// `node` at `index`, which was expected to be of kind `expected` while
/// loading `target`.
pub open spec fn kind_error(
    node: PropertyNode,
    index: int,
    expected: AttrKind,
    target: LoadTarget,
) -> PropertyLoadError {
    PropertyLoadError::AttributeKindMismatch {
        target,
        node_id: node.node_id,
        index: index as usize,
        expected,
        got: kind_of(value_part(node)[index]),
    }
}

/// Index of the first attribute among the first `k` of `vp` whose kind is
/// not `expected`.
pub open spec fn first_bad_kind(vp: Seq<AttrValue>, expected: AttrKind, k: int) -> Option<int>
    decreases k,
{
    if k <= 0 {
        None
    } else {
        match first_bad_kind(vp, expected, k - 1) {
            Option::Some(i) => Option::Some(i),
            Option::None => {
                if kind_of(vp[k - 1]) != expected {
                    Option::Some(k - 1)
                } else {
                    Option::None
                }
            },
        }
    }
}

/// Once a prefix scan has found a bad kind, longer scans agree.
pub proof fn lemma_first_bad_kind_monotone(vp: Seq<AttrValue>, expected: AttrKind, k: int, m: int)
    requires
        0 <= k <= m,
        first_bad_kind(vp, expected, k) is Some,
    ensures
        first_bad_kind(vp, expected, m) == first_bad_kind(vp, expected, k),
    decreases m - k,
{
    if m > k {
        lemma_first_bad_kind_monotone(vp, expected, k, m - 1);
    }
}

/// The value part of `node` holds exactly `expected` attributes, all
/// 64-bit floats, whose bit patterns are `vs`.
pub open spec fn f64_slots_ok(node: PropertyNode, expected: usize, vs: Seq<u64>) -> bool {
    &&& value_part(node).len() == expected
    &&& vs.len() == expected
    &&& forall|j: int| 0 <= j < expected ==> value_part(node)[j] == AttrValue::F64(vs[j])
}

/// The error a load of `expected` 64-bit floats into `target` from
/// `node` reports: the arity error when the count is off, else the
/// kind-mismatch error for the first attribute that is not a 64-bit
/// float.
pub open spec fn f64_slots_err(
    node: PropertyNode,
    expected: usize,
    target: LoadTarget,
    e: PropertyLoadError,
) -> bool {
    if value_part(node).len() != expected {
        e == arity_error(node, expected, target)
    } else {
        match first_bad_kind(value_part(node), AttrKind::F64, expected as int) {
            Option::Some(i) => e == kind_error(node, i, AttrKind::F64, target),
            Option::None => false,
        }
    }
}

/// Returns the value part exactly when it holds `expected_len`
/// attributes; otherwise the arity error naming the target type and
/// saying whether too few or too many are present, with both counts.
pub fn check_attrs_len<'a>(
    node: &PropertyHandle<'a>,
    expected_len: usize,
    target: LoadTarget,
) -> (r: Result<&'a [AttrValue], PropertyLoadError>)
    ensures
        value_part(*node.node).len() == expected_len ==> match r {
            Result::Ok(vp) => vp@ == value_part(*node.node),
            Result::Err(_) => false,
        },
        value_part(*node.node).len() != expected_len ==> r == Result::<
            &[AttrValue],
            PropertyLoadError,
        >::Err(arity_error(*node.node, expected_len, target)),
{
    let len = node.value_part_len();
    if len < expected_len {
        Result::Err(
            PropertyLoadError::TooFewAttributes {
                target,
                node_id: node.node_id(),
                expected: expected_len,
                got: len,
            },
        )
    } else if len > expected_len {
        Result::Err(
            PropertyLoadError::TooManyAttributes {
                target,
                node_id: node.node_id(),
                expected: expected_len,
                got: len,
            },
        )
    } else {
        Result::Ok(node.value_part())
    }
}

/// Loads `expected_len` 64-bit-float attributes from the value part,
/// returning their bit patterns in order.
fn load_f64_values(node: &PropertyHandle, expected_len: usize, target: LoadTarget) -> (r: Result<
    Vec<u64>,
    PropertyLoadError,
>)
    ensures
        match r {
            Result::Ok(vs) => f64_slots_ok(*node.node, expected_len, vs@),
            Result::Err(e) => f64_slots_err(*node.node, expected_len, target, e),
        },
{
    match check_attrs_len(node, expected_len, target) {
        Result::Ok(_) => {},
        Result::Err(e) => {
            return Result::Err(e);
        },
    }
    let mut vs: Vec<u64> = Vec::new();
    for i in 0..expected_len
        invariant
            value_part(*node.node).len() == expected_len,
            first_bad_kind(value_part(*node.node), AttrKind::F64, i as int) is None,
            vs@.len() == i,
            forall|j: int|
                0 <= j < i ==> value_part(*node.node)[j] == AttrValue::F64(vs@[j]),
    {
        let a = node.value_attr(i);
        match a {
            AttrValue::F64(bits) => {
                vs.push(*bits);
            },
            _ => {
                proof {
                    assert(first_bad_kind(value_part(*node.node), AttrKind::F64, i + 1)
                        == Option::Some(i as int));
                    lemma_first_bad_kind_monotone(
                        value_part(*node.node),
                        AttrKind::F64,
                        i + 1,
                        expected_len as int,
                    );
                }
                return Result::Err(
                    PropertyLoadError::AttributeKindMismatch {
                        target,
                        node_id: node.node_id(),
                        index: i,
                        expected: AttrKind::F64,
                        got: crate::document::attr_kind(a),
                    },
                );
            },
        }
    }
    Result::Ok(vs)
}

/// Strict scalar loader for 64-bit floats: exactly one attribute, whose
/// kind must be a 64-bit float; the result is its bit pattern.
pub struct StrictF64Loader;

impl StrictF64Loader {
    /// Loads the single 64-bit-float attribute of the property.
    pub fn load(node: &PropertyHandle) -> (r: Result<u64, PropertyLoadError>)
        ensures
            match r {
                Result::Ok(b) => f64_slots_ok(*node.node, 1, seq![b]),
                Result::Err(e) => f64_slots_err(*node.node, 1, LoadTarget::F64, e),
            },
    {
        match load_f64_values(node, 1, LoadTarget::F64) {
            Result::Ok(vs) => {
                proof {
                    assert(vs@ =~= seq![vs@[0]]);
                }
                Result::Ok(vs[0])
            },
            Result::Err(e) => Result::Err(e),
        }
    }
}

/// Strict scalar loader for 32-bit floats: exactly one attribute, whose
/// kind must be a 32-bit float; the result is its bit pattern.
pub struct StrictF32Loader;

impl StrictF32Loader {
    /// Loads the single 32-bit-float attribute of the property.
    pub fn load(node: &PropertyHandle) -> (r: Result<u32, PropertyLoadError>)
        ensures
            match r {
                Result::Ok(b) => value_part(*node.node).len() == 1 && value_part(*node.node)[0]
                    == AttrValue::F32(b),
                Result::Err(e) => {
                    if value_part(*node.node).len() != 1 {
                        e == arity_error(*node.node, 1, LoadTarget::F32)
                    } else {
                        !(value_part(*node.node)[0] is F32) && e == kind_error(
                            *node.node,
                            0,
                            AttrKind::F32,
                            LoadTarget::F32,
                        )
                    }
                },
            },
    {
        match check_attrs_len(node, 1, LoadTarget::F32) {
            Result::Ok(_) => {},
            Result::Err(e) => {
                return Result::Err(e);
            },
        }
        let a = node.value_attr(0);
        match a {
            AttrValue::F32(bits) => Result::Ok(*bits),
            _ => Result::Err(
                PropertyLoadError::AttributeKindMismatch {
                    target: LoadTarget::F32,
                    node_id: node.node_id(),
                    index: 0,
                    expected: AttrKind::F32,
                    got: crate::document::attr_kind(a),
                },
            ),
        }
    }
}

/// Lenient scalar integer loader: exactly one attribute of any signed
/// integer kind, widened to 64 bits.
pub struct PrimitiveLoader;

impl PrimitiveLoader {
    /// Loads the single integer attribute of the property, widened.
    pub fn load(node: &PropertyHandle) -> (r: Result<i64, PropertyLoadError>)
        ensures
            match r {
                Result::Ok(v) => value_part(*node.node).len() == 1 && match value_part(
                    *node.node,
                )[0] {
                    AttrValue::I16(x) => v == x as i64,
                    AttrValue::I32(x) => v == x as i64,
                    AttrValue::I64(x) => v == x,
                    _ => false,
                },
                Result::Err(e) => {
                    if value_part(*node.node).len() != 1 {
                        e == arity_error(*node.node, 1, LoadTarget::I64)
                    } else {
                        match value_part(*node.node)[0] {
                            AttrValue::I16(_) => false,
                            AttrValue::I32(_) => false,
                            AttrValue::I64(_) => false,
                            _ => e == kind_error(*node.node, 0, AttrKind::I64, LoadTarget::I64),
                        }
                    }
                },
            },
    {
        match check_attrs_len(node, 1, LoadTarget::I64) {
            Result::Ok(_) => {},
            Result::Err(e) => {
                return Result::Err(e);
            },
        }
        let a = node.value_attr(0);
        match a {
            AttrValue::I16(x) => Result::Ok(*x as i64),
            AttrValue::I32(x) => Result::Ok(*x as i64),
            AttrValue::I64(x) => Result::Ok(*x),
            _ => Result::Err(
                PropertyLoadError::AttributeKindMismatch {
                    target: LoadTarget::I64,
                    node_id: node.node_id(),
                    index: 0,
                    expected: AttrKind::I64,
                    got: crate::document::attr_kind(a),
                },
            ),
        }
    }
}

/// Fixed-length loader for 2 64-bit floats.
pub struct F64Arr2Loader;

impl F64Arr2Loader {
    /// Loads exactly 2 64-bit-float attributes as an array of bit
    /// patterns.
    pub fn load(node: &PropertyHandle) -> (r: Result<[u64; 2], PropertyLoadError>)
        ensures
            match r {
                Result::Ok(a) => f64_slots_ok(*node.node, 2, a@),
                Result::Err(e) => f64_slots_err(*node.node, 2, LoadTarget::F64Arr2, e),
            },
    {
        match load_f64_values(node, 2, LoadTarget::F64Arr2) {
            Result::Ok(vs) => {
                let a = [vs[0], vs[1]];
                proof {
                    assert(a@ =~= vs@);
                }
                Result::Ok(a)
            },
            Result::Err(e) => Result::Err(e),
        }
    }
}

/// Fixed-length loader for 3 64-bit floats.
pub struct F64Arr3Loader;

impl F64Arr3Loader {
    /// Loads exactly 3 64-bit-float attributes as an array of bit
    /// patterns.
    pub fn load(node: &PropertyHandle) -> (r: Result<[u64; 3], PropertyLoadError>)
        ensures
            match r {
                Result::Ok(a) => f64_slots_ok(*node.node, 3, a@),
                Result::Err(e) => f64_slots_err(*node.node, 3, LoadTarget::F64Arr3, e),
            },
    {
        match load_f64_values(node, 3, LoadTarget::F64Arr3) {
            Result::Ok(vs) => {
                let a = [vs[0], vs[1], vs[2]];
                proof {
                    assert(a@ =~= vs@);
                }
                Result::Ok(a)
            },
            Result::Err(e) => Result::Err(e),
        }
    }
}

/// Fixed-length loader for 4 64-bit floats.
pub struct F64Arr4Loader;

impl F64Arr4Loader {
    /// Loads exactly 4 64-bit-float attributes as an array of bit
    /// patterns.
    pub fn load(node: &PropertyHandle) -> (r: Result<[u64; 4], PropertyLoadError>)
        ensures
            match r {
                Result::Ok(a) => f64_slots_ok(*node.node, 4, a@),
                Result::Err(e) => f64_slots_err(*node.node, 4, LoadTarget::F64Arr4, e),
            },
    {
        match load_f64_values(node, 4, LoadTarget::F64Arr4) {
            Result::Ok(vs) => {
                let a = [vs[0], vs[1], vs[2], vs[3]];
                proof {
                    assert(a@ =~= vs@);
                }
                Result::Ok(a)
            },
            Result::Err(e) => Result::Err(e),
        }
    }
}

/// Fixed-length loader for 16 64-bit floats, e.g. transform matrices.
pub struct F64Arr16Loader;

impl F64Arr16Loader {
    /// Loads exactly 16 64-bit-float attributes as an array of bit
    /// patterns.
    pub fn load(node: &PropertyHandle) -> (r: Result<[u64; 16], PropertyLoadError>)
        ensures
            match r {
                Result::Ok(a) => f64_slots_ok(*node.node, 16, a@),
                Result::Err(e) => f64_slots_err(*node.node, 16, LoadTarget::F64Arr16, e),
            },
    {
        match load_f64_values(node, 16, LoadTarget::F64Arr16) {
            Result::Ok(vs) => {
                let a = [
                    vs[0],
                    vs[1],
                    vs[2],
                    vs[3],
                    vs[4],
                    vs[5],
                    vs[6],
                    vs[7],
                    vs[8],
                    vs[9],
                    vs[10],
                    vs[11],
                    vs[12],
                    vs[13],
                    vs[14],
                    vs[15],
                ];
                proof {
                    assert(a@ =~= vs@);
                }
                Result::Ok(a)
            },
            Result::Err(e) => Result::Err(e),
        }
    }
}

/// IEEE 754 encoding of a normalized magnitude: scans for the highest
/// set bit of `m` at or below position `k`; a set bit at position `j`
/// yields sign `s`, biased exponent `j + bias` and the remaining bits of
/// `m` aligned to the top of the 52-bit mantissa field.  A zero `m`
/// yields the signed zero.
pub open spec fn encode_normalized(s: u64, m: u64, k: u64, bias: u64) -> u64
    decreases k,
{
    if (m >> k) & 1 == 1 {
        (s << 63) | (((k + bias) as u64) << 52) | ((m ^ (1u64 << k)) << ((52 - k) as u64))
    } else if k == 0 {
        s << 63
    } else {
        encode_normalized(s, m, (k - 1) as u64, bias)
    }
}

/// The 64-bit float bit pattern denoting exactly the value of the 32-bit
/// float bit pattern `b`: sign and mantissa carry over, the exponent is
/// rebiased, subnormals are normalized (every 32-bit subnormal is a
/// 64-bit normal), and infinities and NaNs keep their class.
pub open spec fn widen_f32_bits(b: u32) -> u64 {
    let s = ((b >> 31) & 1) as u64;
    let e = ((b >> 23) & 0xFF) as u64;
    let m = (b & 0x7FFFFF) as u64;
    if e == 0xFF {
        (s << 63) | (0x7FFu64 << 52) | (m << 29)
    } else if e == 0 {
        encode_normalized(s, m, 22, 874)
    } else {
        (s << 63) | (((e + 896) as u64) << 52) | (m << 29)
    }
}

/// Position of the highest set bit of `m` at or below position `k`;
/// 0 when no bit is set there.
pub open spec fn msb_from(m: u64, k: u64) -> u64
    decreases k,
{
    if (m >> k) & 1 == 1 {
        k
    } else if k == 0 {
        0
    } else {
        msb_from(m, (k - 1) as u64)
    }
}

/// IEEE 754 encoding of the magnitude `m` with sign `s`, where `j` is
/// the position of the highest set bit of `m`: biased exponent
/// `j + 1023`, and the bits of `m` below the leading one as the
/// mantissa.  A magnitude of at most 53 bits is encoded exactly; a wider
/// one keeps its top 53 bits and rounds on the rest, ties to the even
/// mantissa, carrying into the exponent when rounding overflows the
/// mantissa field.
pub open spec fn round_to_f64_bits(s: u64, m: u64, j: u64) -> u64 {
    if j <= 52 {
        (s << 63) | (((j + 1023) as u64) << 52) | ((m ^ (1u64 << j)) << ((52 - j) as u64))
    } else {
        let shift = (j - 52) as u64;
        let q = m >> shift;
        let rem = m & (((1u64 << shift) - 1) as u64);
        let half = 1u64 << ((shift - 1) as u64);
        let q2 = if rem > half || (rem == half && q & 1 == 1) {
            (q + 1) as u64
        } else {
            q
        };
        if q2 == 1u64 << 53 {
            (s << 63) | (((j + 1024) as u64) << 52)
        } else {
            (s << 63) | (((j + 1023) as u64) << 52) | (q2 ^ (1u64 << 52))
        }
    }
}

/// The 64-bit float bit pattern nearest to the integer `x`, ties to the
/// even mantissa: exact for magnitudes of at most 53 bits, rounded
/// beyond.
pub open spec fn int_to_f64_bits(x: int) -> u64 {
    let s: u64 = if x < 0 {
        1
    } else {
        0
    };
    let m: u64 = (if x < 0 {
        -x
    } else {
        x
    }) as u64;
    if m == 0 {
        0
    } else {
        round_to_f64_bits(s, m, msb_from(m, 63))
    }
}

/// Finds the highest set bit of `m`, as `msb_from` describes.
fn msb64(m: u64) -> (r: u64)
    ensures
        r == msb_from(m, 63),
        r <= 63,
{
    let mut k: u64 = 63;
    while k > 0 && (m >> k) & 1 == 0
        invariant
            k <= 63,
            msb_from(m, 63) == msb_from(m, k),
        decreases k,
    {
        k = k - 1;
    }
    proof {
        assert((m >> k) & 1 == 0 || (m >> k) & 1 == 1) by (bit_vector);
    }
    k
}

/// Rounds a magnitude to a 64-bit float bit pattern, as
/// `round_to_f64_bits` describes.
fn round_to_f64_exec(s: u64, m: u64, j: u64) -> (r: u64)
    requires
        j <= 63,
    ensures
        r == round_to_f64_bits(s, m, j),
{
    if j <= 52 {
        (s << 63) | ((j + 1023) << 52) | ((m ^ (1u64 << j)) << (52 - j))
    } else {
        let shift: u64 = j - 52;
        let q: u64 = m >> shift;
        proof {
            assert(1u64 << shift >= 1u64) by (bit_vector)
                requires
                    shift < 64u64,
            ;
            assert(m >> shift <= 0x7FFFFFFFFFFFFFFFu64) by (bit_vector)
                requires
                    1u64 <= shift < 64u64,
            ;
        }
        let rem: u64 = m & ((1u64 << shift) - 1);
        let half: u64 = 1u64 << (shift - 1);
        let q2: u64 = if rem > half || (rem == half && q & 1 == 1) {
            q + 1
        } else {
            q
        };
        if q2 == 1u64 << 53 {
            (s << 63) | ((j + 1024) << 52)
        } else {
            (s << 63) | ((j + 1023) << 52) | (q2 ^ (1u64 << 52))
        }
    }
}

/// Encodes an integer as the nearest 64-bit float bit pattern, as
/// `int_to_f64_bits` describes.
fn int_to_f64_exec(x: i64) -> (r: u64)
    ensures
        r == int_to_f64_bits(x as int),
{
    let s: u64 = if x < 0 {
        1
    } else {
        0
    };
    let m: u64 = if x < 0 {
        (-(x as i128)) as u64
    } else {
        x as u64
    };
    if m == 0 {
        0
    } else {
        let j = msb64(m);
        round_to_f64_exec(s, m, j)
    }
}

/// Encodes a normalized magnitude as `encode_normalized` describes.
fn encode_normalized_exec(s: u64, m: u64, k_start: u64, bias: u64) -> (r: u64)
    requires
        k_start <= 52,
        bias <= 1023,
    ensures
        r == encode_normalized(s, m, k_start, bias),
{
    let mut k: u64 = k_start;
    while k > 0 && (m >> k) & 1 == 0
        invariant
            k <= k_start,
            k_start <= 52,
            bias <= 1023,
            encode_normalized(s, m, k_start, bias) == encode_normalized(s, m, k, bias),
        decreases k,
    {
        k = k - 1;
    }
    proof {
        assert((m >> k) & 1 == 0 || (m >> k) & 1 == 1) by (bit_vector);
    }
    if (m >> k) & 1 == 1 {
        (s << 63) | ((k + bias) << 52) | ((m ^ (1u64 << k)) << (52 - k))
    } else {
        s << 63
    }
}

/// Widens a 32-bit float bit pattern to the 64-bit pattern of the same
/// value, as `widen_f32_bits` describes.
pub fn widen_f32_bits_exec(b: u32) -> (r: u64)
    ensures
        r == widen_f32_bits(b),
{
    let s: u64 = ((b >> 31) & 1) as u64;
    let e: u64 = ((b >> 23) & 0xFF) as u64;
    let m: u64 = (b & 0x7FFFFF) as u64;
    if e == 0xFF {
        (s << 63) | (0x7FFu64 << 52) | (m << 29)
    } else if e == 0 {
        encode_normalized_exec(s, m, 22, 874)
    } else {
        (s << 63) | ((e + 896) << 52) | (m << 29)
    }
}

/// The 64-bit float bit pattern a lenient numeric conversion gives the
/// attribute: a 64-bit float passes through, a 32-bit float widens
/// exactly, and an integer of any width encodes to the nearest 64-bit
/// float (exact up to 53-bit magnitudes).  A non-numeric attribute has
/// no conversion.
pub open spec fn lenient_f64_of(a: AttrValue) -> Option<u64> {
    match a {
        AttrValue::F64(x) => Option::Some(x),
        AttrValue::F32(x) => Option::Some(widen_f32_bits(x)),
        AttrValue::I16(x) => Option::Some(int_to_f64_bits(x as int)),
        AttrValue::I32(x) => Option::Some(int_to_f64_bits(x as int)),
        AttrValue::I64(x) => Option::Some(int_to_f64_bits(x as int)),
        _ => Option::None,
    }
}

/// Converts a numeric attribute to a 64-bit float bit pattern, as
/// `lenient_f64_of` describes.
fn lenient_attr_f64(a: &AttrValue) -> (r: Option<u64>)
    ensures
        r == lenient_f64_of(*a),
{
    match a {
        AttrValue::F64(x) => Option::Some(*x),
        AttrValue::F32(x) => Option::Some(widen_f32_bits_exec(*x)),
        AttrValue::I16(x) => Option::Some(int_to_f64_exec(*x as i64)),
        AttrValue::I32(x) => Option::Some(int_to_f64_exec(*x as i64)),
        AttrValue::I64(x) => Option::Some(int_to_f64_exec(*x)),
        _ => Option::None,
    }
}

/// Lenient scalar loader for 64-bit floats: exactly one attribute of
/// any numeric kind, converted as `lenient_f64_of` describes — floats
/// pass through or widen exactly, integers round to the nearest
/// representable value.
pub struct LenientF64Loader;

impl LenientF64Loader {
    /// Loads the single numeric attribute of the property as a 64-bit
    /// float bit pattern.
    pub fn load(node: &PropertyHandle) -> (r: Result<u64, PropertyLoadError>)
        ensures
            match r {
                Result::Ok(b) => value_part(*node.node).len() == 1 && lenient_f64_of(
                    value_part(*node.node)[0],
                ) == Option::Some(b),
                Result::Err(e) => {
                    if value_part(*node.node).len() != 1 {
                        e == arity_error(*node.node, 1, LoadTarget::F64)
                    } else {
                        &&& lenient_f64_of(value_part(*node.node)[0]) is None
                        &&& e == kind_error(*node.node, 0, AttrKind::F64, LoadTarget::F64)
                    }
                },
            },
    {
        match check_attrs_len(node, 1, LoadTarget::F64) {
            Result::Ok(_) => {},
            Result::Err(e) => {
                return Result::Err(e);
            },
        }
        let a = node.value_attr(0);
        match lenient_attr_f64(a) {
            Option::Some(b) => Result::Ok(b),
            Option::None => Result::Err(
                PropertyLoadError::AttributeKindMismatch {
                    target: LoadTarget::F64,
                    node_id: node.node_id(),
                    index: 0,
                    expected: AttrKind::F64,
                    got: crate::document::attr_kind(a),
                },
            ),
        }
    }
}

/// The single value-part attribute of `node` is a string equal to `s`.
pub open spec fn string_slot_ok(node: PropertyNode, s: Seq<char>) -> bool {
    &&& value_part(node).len() == 1
    &&& match value_part(node)[0] {
        AttrValue::Str(s0) => s0@ == s,
        _ => false,
    }
}

/// The single value-part attribute of `node` is a binary blob equal to
/// `b`.
pub open spec fn binary_slot_ok(node: PropertyNode, b: Seq<u8>) -> bool {
    &&& value_part(node).len() == 1
    &&& match value_part(node)[0] {
        AttrValue::Bin(b0) => b0@ == b,
        _ => false,
    }
}

/// The error a single-attribute load of kind `expected` into `target`
/// from `node` reports.
pub open spec fn single_slot_err(
    node: PropertyNode,
    expected: AttrKind,
    target: LoadTarget,
    e: PropertyLoadError,
) -> bool {
    if value_part(node).len() != 1 {
        e == arity_error(node, 1, target)
    } else {
        &&& kind_of(value_part(node)[0]) != expected
        &&& e == kind_error(node, 0, expected, target)
    }
}

/// Borrowed string loader: exactly one string attribute, returned as a
/// view bound to the document's lifetime.
pub struct BorrowedStringLoader;

impl BorrowedStringLoader {
    /// Loads the single string attribute of the property without copying.
    pub fn load<'a>(node: &PropertyHandle<'a>) -> (r: Result<&'a str, PropertyLoadError>)
        ensures
            match r {
                Result::Ok(s) => string_slot_ok(*node.node, s@),
                Result::Err(e) => single_slot_err(*node.node, AttrKind::Str, LoadTarget::Str, e),
            },
    {
        match check_attrs_len(node, 1, LoadTarget::Str) {
            Result::Ok(_) => {},
            Result::Err(e) => {
                return Result::Err(e);
            },
        }
        let a = node.value_attr(0);
        match a {
            AttrValue::Str(s) => Result::Ok(s.as_str()),
            _ => Result::Err(
                PropertyLoadError::AttributeKindMismatch {
                    target: LoadTarget::Str,
                    node_id: node.node_id(),
                    index: 0,
                    expected: AttrKind::Str,
                    got: crate::document::attr_kind(a),
                },
            ),
        }
    }
}

/// Owned string loader: exactly one string attribute, returned as an
/// independent copy.
pub struct OwnedStringLoader;

impl OwnedStringLoader {
    /// Loads the single string attribute of the property as a copy.
    pub fn load(node: &PropertyHandle) -> (r: Result<String, PropertyLoadError>)
        ensures
            match r {
                Result::Ok(s) => string_slot_ok(*node.node, s@),
                Result::Err(e) => single_slot_err(*node.node, AttrKind::Str, LoadTarget::Str, e),
            },
    {
        match BorrowedStringLoader::load(node) {
            Result::Ok(s) => Result::Ok(s.to_owned()),
            Result::Err(e) => Result::Err(e),
        }
    }
}

/// Borrowed binary loader: exactly one binary attribute, returned as a
/// view bound to the document's lifetime.
pub struct BorrowedBinaryLoader;

impl BorrowedBinaryLoader {
    /// Loads the single binary attribute of the property without copying.
    pub fn load<'a>(node: &PropertyHandle<'a>) -> (r: Result<&'a [u8], PropertyLoadError>)
        ensures
            match r {
                Result::Ok(b) => binary_slot_ok(*node.node, b@),
                Result::Err(e) => single_slot_err(*node.node, AttrKind::Bin, LoadTarget::Bin, e),
            },
    {
        match check_attrs_len(node, 1, LoadTarget::Bin) {
            Result::Ok(_) => {},
            Result::Err(e) => {
                return Result::Err(e);
            },
        }
        let a = node.value_attr(0);
        match a {
            AttrValue::Bin(b) => Result::Ok(b.as_slice()),
            _ => Result::Err(
                PropertyLoadError::AttributeKindMismatch {
                    target: LoadTarget::Bin,
                    node_id: node.node_id(),
                    index: 0,
                    expected: AttrKind::Bin,
                    got: crate::document::attr_kind(a),
                },
            ),
        }
    }
}

/// Owned binary loader: exactly one binary attribute, returned as an
/// independent copy.
pub struct OwnedBinaryLoader;

impl OwnedBinaryLoader {
    /// Loads the single binary attribute of the property as a copy.
    pub fn load(node: &PropertyHandle) -> (r: Result<Vec<u8>, PropertyLoadError>)
        ensures
            match r {
                Result::Ok(b) => binary_slot_ok(*node.node, b@),
                Result::Err(e) => single_slot_err(*node.node, AttrKind::Bin, LoadTarget::Bin, e),
            },
    {
        match BorrowedBinaryLoader::load(node) {
            Result::Ok(b) => {
                let mut out: Vec<u8> = Vec::new();
                let n = b.len();
                for i in 0..n
                    invariant
                        n == b@.len(),
                        out@.len() == i,
                        forall|j: int| 0 <= j < i ==> out@[j] == b@[j],
                {
                    out.push(b[i]);
                }
                proof {
                    assert(out@ =~= b@);
                }
                Result::Ok(out)
            },
            Result::Err(e) => Result::Err(e),
        }
    }
}

/// Raw bit pattern of negative zero as a 64-bit float, whose value 0.0
/// lies within the unit interval.
pub const NEG_ZERO_BITS: u64 = 0x8000000000000000;

/// The bit pattern denotes a 64-bit float whose value lies within the
/// unit interval [0.0, 1.0].  For bit patterns with a clear sign bit,
/// IEEE 754 ordering agrees with unsigned integer ordering, so the
/// comparison against the pattern of 1.0 is exact and excludes
/// infinities and NaNs; negative zero is the one set-sign pattern in
/// range.
pub open spec fn unit_interval_bits(b: u64) -> bool {
    b <= UNIT_ONE_BITS || b == NEG_ZERO_BITS
}

/// Index of the first bit pattern among the first `k` of `vs` that falls
/// outside the unit interval.
pub open spec fn first_out_of_range(vs: Seq<u64>, k: int) -> Option<int>
    decreases k,
{
    if k <= 0 {
        None
    } else {
        match first_out_of_range(vs, k - 1) {
            Option::Some(i) => Option::Some(i),
            Option::None => {
                if !unit_interval_bits(vs[k - 1]) {
                    Option::Some(k - 1)
                } else {
                    Option::None
                }
            },
        }
    }
}

/// Once a prefix scan has found an out-of-range component, longer scans
/// agree.
pub proof fn lemma_first_out_of_range_monotone(vs: Seq<u64>, k: int, m: int)
    requires
        0 <= k <= m,
        first_out_of_range(vs, k) is Some,
    ensures
        first_out_of_range(vs, m) == first_out_of_range(vs, k),
    decreases m - k,
{
    if m > k {
        lemma_first_out_of_range_monotone(vs, k, m - 1);
    }
}

/// Index of the first attribute among the first `k` of `vp` that has no
/// lenient numeric conversion.
pub open spec fn first_non_numeric(vp: Seq<AttrValue>, k: int) -> Option<int>
    decreases k,
{
    if k <= 0 {
        None
    } else {
        match first_non_numeric(vp, k - 1) {
            Option::Some(i) => Option::Some(i),
            Option::None => {
                if lenient_f64_of(vp[k - 1]) is None {
                    Option::Some(k - 1)
                } else {
                    Option::None
                }
            },
        }
    }
}

/// Once a prefix scan has found a non-numeric attribute, longer scans
/// agree.
pub proof fn lemma_first_non_numeric_monotone(vp: Seq<AttrValue>, k: int, m: int)
    requires
        0 <= k <= m,
        first_non_numeric(vp, k) is Some,
    ensures
        first_non_numeric(vp, m) == first_non_numeric(vp, k),
    decreases m - k,
{
    if m > k {
        lemma_first_non_numeric_monotone(vp, k, m - 1);
    }
}

/// The leniently converted components of a color property whose three
/// attributes are all numeric.
pub open spec fn rgb_components(node: PropertyNode) -> Seq<u64> {
    Seq::new(3, |i: int| lenient_f64_of(value_part(node)[i])->Some_0)
}

/// What a successful color load returns: three numeric attributes, each
/// converted leniently, each within the unit interval.
pub open spec fn rgb_ok(node: PropertyNode, c: Rgb) -> bool {
    &&& value_part(node).len() == 3
    &&& lenient_f64_of(value_part(node)[0]) == Option::Some(c.r)
    &&& lenient_f64_of(value_part(node)[1]) == Option::Some(c.g)
    &&& lenient_f64_of(value_part(node)[2]) == Option::Some(c.b)
    &&& unit_interval_bits(c.r)
    &&& unit_interval_bits(c.g)
    &&& unit_interval_bits(c.b)
}

/// The error a color load reports: the arity error when the count is
/// off; else the kind-mismatch error for the first non-numeric
/// attribute; else the out-of-range error for the first converted
/// component outside the unit interval.
pub open spec fn rgb_err(node: PropertyNode, e: PropertyLoadError) -> bool {
    if value_part(node).len() != 3 {
        e == arity_error(node, 3, LoadTarget::Rgb)
    } else {
        match first_non_numeric(value_part(node), 3) {
            Option::Some(i) => e == kind_error(node, i, AttrKind::F64, LoadTarget::Rgb),
            Option::None => match first_out_of_range(rgb_components(node), 3) {
                Option::Some(i) => e == (PropertyLoadError::ComponentOutOfRange {
                    target: LoadTarget::Rgb,
                    node_id: node.node_id,
                    index: i as usize,
                }),
                Option::None => false,
            },
        }
    }
}

/// Color loader: exactly 3 numeric attributes, each converted leniently
/// to a 64-bit float and required to lie within the unit interval.
pub struct RgbLoader;

impl RgbLoader {
    /// Loads exactly 3 numeric attributes as an RGB color of bit
    /// patterns, rejecting non-numeric attributes and components outside
    /// the unit interval.
    pub fn load(node: &PropertyHandle) -> (r: Result<Rgb, PropertyLoadError>)
        ensures
            match r {
                Result::Ok(c) => rgb_ok(*node.node, c),
                Result::Err(e) => rgb_err(*node.node, e),
            },
    {
        match check_attrs_len(node, 3, LoadTarget::Rgb) {
            Result::Ok(_) => {},
            Result::Err(e) => {
                return Result::Err(e);
            },
        }
        let mut vs: Vec<u64> = Vec::new();
        for i in 0..3usize
            invariant
                value_part(*node.node).len() == 3,
                first_non_numeric(value_part(*node.node), i as int) is None,
                vs@.len() == i,
                forall|j: int|
                    0 <= j < i ==> lenient_f64_of(value_part(*node.node)[j]) == Option::Some(
                        vs@[j],
                    ),
        {
            let a = node.value_attr(i);
            match lenient_attr_f64(a) {
                Option::Some(b) => {
                    vs.push(b);
                },
                Option::None => {
                    proof {
                        assert(first_non_numeric(value_part(*node.node), i + 1) == Option::Some(
                            i as int,
                        ));
                        lemma_first_non_numeric_monotone(value_part(*node.node), i + 1, 3);
                    }
                    return Result::Err(
                        PropertyLoadError::AttributeKindMismatch {
                            target: LoadTarget::Rgb,
                            node_id: node.node_id(),
                            index: i,
                            expected: AttrKind::F64,
                            got: crate::document::attr_kind(a),
                        },
                    );
                },
            }
        }
        proof {
            assert(vs@ =~= rgb_components(*node.node));
        }
        for i in 0..3usize
            invariant
                value_part(*node.node).len() == 3,
                first_non_numeric(value_part(*node.node), 3) is None,
                vs@.len() == 3,
                vs@ == rgb_components(*node.node),
                forall|j: int|
                    0 <= j < 3 ==> lenient_f64_of(value_part(*node.node)[j]) == Option::Some(
                        vs@[j],
                    ),
                first_out_of_range(vs@, i as int) is None,
        {
            if vs[i] > UNIT_ONE_BITS && vs[i] != NEG_ZERO_BITS {
                proof {
                    assert(first_out_of_range(vs@, i + 1) == Option::Some(i as int));
                    lemma_first_out_of_range_monotone(vs@, i + 1, 3);
                }
                return Result::Err(
                    PropertyLoadError::ComponentOutOfRange {
                        target: LoadTarget::Rgb,
                        node_id: node.node_id(),
                        index: i,
                    },
                );
            }
        }
        let c = Rgb { r: vs[0], g: vs[1], b: vs[2] };
        proof {
            assert(first_out_of_range(vs@, 3) is None);
            assert(first_out_of_range(vs@, 2) is None);
            assert(first_out_of_range(vs@, 1) is None);
            assert(unit_interval_bits(vs@[2]));
            assert(unit_interval_bits(vs@[1]));
            assert(unit_interval_bits(vs@[0]));
        }
        Result::Ok(c)
    }
}

/// Loader producing the named 3-component vector value type.
pub struct Vector3Loader;

impl Vector3Loader {
    /// Loads exactly 3 64-bit-float attributes as a vector of bit
    /// patterns.
    pub fn load(node: &PropertyHandle) -> (r: Result<Vector3, PropertyLoadError>)
        ensures
            match r {
                Result::Ok(v) => f64_slots_ok(*node.node, 3, seq![v.x, v.y, v.z]),
                Result::Err(e) => f64_slots_err(*node.node, 3, LoadTarget::Vector3, e),
            },
    {
        match load_f64_values(node, 3, LoadTarget::Vector3) {
            Result::Ok(vs) => {
                let v = Vector3 { x: vs[0], y: vs[1], z: vs[2] };
                proof {
                    assert(seq![v.x, v.y, v.z] =~= vs@);
                }
                Result::Ok(v)
            },
            Result::Err(e) => Result::Err(e),
        }
    }
}

} // verus!
