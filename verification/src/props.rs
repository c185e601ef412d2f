use vstd::prelude::*;

use crate::error::Error;
use crate::{contains_nul, is_boundary_safe};

verus! {

// Scalar property payloads are IEEE 754 binary32 values, carried here as
// their raw 32-bit patterns so that the domain checks are exact. For the
// domains below only these facts about the encoding are used:
//  - for non-negative finite values the bit pattern is monotone in the value,
//    so `0.0 <= x <= hi` is `bits(x) <= bits(hi)` when the sign bit is clear;
//  - negative zero is the single pattern with the sign bit set that still
//    compares equal to zero;
//  - a pattern whose magnitude exceeds the infinity pattern is a NaN, which
//    compares neither below nor above any bound.

/// Bit pattern of negative zero: sign bit set, all else clear.
pub const F32_BITS_NEG_ZERO: u32 = 0x8000_0000;

/// Bit pattern of positive infinity; any greater magnitude is a NaN.
pub const F32_BITS_INFINITY: u32 = 0x7F80_0000;

/// Bit pattern of 1.0, the upper bound of a color channel.
pub const F32_BITS_ONE: u32 = 0x3F80_0000;

/// Bit pattern of 100.0, the upper bound of opacities and scale components.
pub const F32_BITS_HUNDRED: u32 = 0x42C8_0000;

/// Bit pattern of 360.0, the upper bound of a rotation in degrees.
pub const F32_BITS_THREE_SIXTY: u32 = 0x43B4_0000;

/// True when the value with pattern `bits` lies in the closed interval from
/// zero to the non-negative value with pattern `hi` (at most the infinity
/// pattern, so the interval may be all of zero to infinity).
///
/// Non-negative patterns, infinity included, are ordered as the values they
/// encode, so the comparison with `hi` settles them; negative zero is the
/// one pattern above `F32_BITS_NEG_ZERO` that still belongs to the interval.
/// NaN patterns and negative values exceed both bounds and are excluded.
pub open spec fn bits_in_zero_to(bits: u32, hi: u32) -> bool {
    bits <= hi || bits == F32_BITS_NEG_ZERO
}

fn in_zero_to(bits: u32, hi: u32) -> (r: bool)
    ensures
        r == bits_in_zero_to(bits, hi),
{
    bits <= hi || bits == F32_BITS_NEG_ZERO
}

/// A typed override value, validated on construction.
///
/// Scalar payloads hold the bit pattern of the IEEE 754 binary32 value they
/// stand for; `TransformPosition` holds a plain integer pair.
#[derive(Clone, Copy, Debug, PartialEq, Eq, Structural)]
pub enum PropertyValue {
    FillColor { r: u32, g: u32, b: u32 },
    FillOpacity(u32),
    StrokeColor { r: u32, g: u32, b: u32 },
    StrokeOpacity(u32),
    StrokeWidth(u32),
    TransformAnchor(i32),
    TransformPosition { x: i32, y: i32 },
    TransformScale { width: u32, height: u32 },
    TransformRotation(u32),
    TransformOpacity(u32),
}

/// The numeric tag under which the engine files an override of this variant,
/// mirroring the engine's own property enumeration order.
pub open spec fn tag_of(v: PropertyValue) -> u32 {
    match v {
        PropertyValue::FillColor { .. } => 0,
        PropertyValue::FillOpacity(..) => 1,
        PropertyValue::StrokeColor { .. } => 2,
        PropertyValue::StrokeOpacity(..) => 3,
        PropertyValue::StrokeWidth(..) => 4,
        PropertyValue::TransformAnchor(..) => 5,
        PropertyValue::TransformPosition { .. } => 6,
        PropertyValue::TransformScale { .. } => 7,
        PropertyValue::TransformRotation(..) => 8,
        PropertyValue::TransformOpacity(..) => 9,
    }
}

/// True for the variants that this layer is able to route to the engine.
///
/// Anchor and opacity transforms are explicitly unsupported: rather than risk
/// mapping them onto an adjacent tag, every path that would reach the engine
/// refuses them.
pub open spec fn supported(v: PropertyValue) -> bool {
    !(v is TransformAnchor) && !(v is TransformOpacity)
}

/// A validated override value paired with the tag derivation that maps it
/// onto the engine's calling convention.
#[derive(Clone, Debug)]
pub struct Property(pub(crate) PropertyValue);

impl Property {
    /// The validated value this property carries.
    pub closed spec fn value(&self) -> PropertyValue {
        self.0
    }

    /// Borrows the carried value.
    pub fn val(&self) -> (r: &PropertyValue)
        ensures
            *r == self.value(),
    {
        &self.0
    }

    /// The numeric tag for the engine's override entry point; a pure
    /// function of the variant.
    pub fn ffi_type(&self) -> (t: u32)
        ensures
            t == tag_of(self.value()),
    {
        match self.0 {
            PropertyValue::FillColor { .. } => 0,
            PropertyValue::FillOpacity(..) => 1,
            PropertyValue::StrokeColor { .. } => 2,
            PropertyValue::StrokeOpacity(..) => 3,
            PropertyValue::StrokeWidth(..) => 4,
            PropertyValue::TransformAnchor(..) => 5,
            PropertyValue::TransformPosition { .. } => 6,
            PropertyValue::TransformScale { .. } => 7,
            PropertyValue::TransformRotation(..) => 8,
            PropertyValue::TransformOpacity(..) => 9,
        }
    }

    /// A fill color; each channel must lie in zero to one.
    pub fn fill_color(r: u32, g: u32, b: u32) -> (res: Option<Property>)
        ensures
            (bits_in_zero_to(r, F32_BITS_ONE) && bits_in_zero_to(g, F32_BITS_ONE)
                && bits_in_zero_to(b, F32_BITS_ONE)) ==> (res matches Some(p) && p.value()
                == (PropertyValue::FillColor { r, g, b })),
            !(bits_in_zero_to(r, F32_BITS_ONE) && bits_in_zero_to(g, F32_BITS_ONE)
                && bits_in_zero_to(b, F32_BITS_ONE)) ==> res is None,
    {
        if in_zero_to(r, F32_BITS_ONE) && in_zero_to(g, F32_BITS_ONE) && in_zero_to(
            b,
            F32_BITS_ONE,
        ) {
            Some(Property(PropertyValue::FillColor { r, g, b }))
        } else {
            None
        }
    }

    /// A fill opacity in zero to one hundred.
    pub fn fill_opacity(opacity: u32) -> (res: Option<Property>)
        ensures
            bits_in_zero_to(opacity, F32_BITS_HUNDRED) ==> (res matches Some(p) && p.value()
                == PropertyValue::FillOpacity(opacity)),
            !bits_in_zero_to(opacity, F32_BITS_HUNDRED) ==> res is None,
    {
        if in_zero_to(opacity, F32_BITS_HUNDRED) {
            Some(Property(PropertyValue::FillOpacity(opacity)))
        } else {
            None
        }
    }

    /// A stroke color; each channel must lie in zero to one.
    pub fn stroke_color(r: u32, g: u32, b: u32) -> (res: Option<Property>)
        ensures
            (bits_in_zero_to(r, F32_BITS_ONE) && bits_in_zero_to(g, F32_BITS_ONE)
                && bits_in_zero_to(b, F32_BITS_ONE)) ==> (res matches Some(p) && p.value()
                == (PropertyValue::StrokeColor { r, g, b })),
            !(bits_in_zero_to(r, F32_BITS_ONE) && bits_in_zero_to(g, F32_BITS_ONE)
                && bits_in_zero_to(b, F32_BITS_ONE)) ==> res is None,
    {
        if in_zero_to(r, F32_BITS_ONE) && in_zero_to(g, F32_BITS_ONE) && in_zero_to(
            b,
            F32_BITS_ONE,
        ) {
            Some(Property(PropertyValue::StrokeColor { r, g, b }))
        } else {
            None
        }
    }

    /// A stroke opacity in zero to one hundred.
    pub fn stroke_opacity(opacity: u32) -> (res: Option<Property>)
        ensures
            bits_in_zero_to(opacity, F32_BITS_HUNDRED) ==> (res matches Some(p) && p.value()
                == PropertyValue::StrokeOpacity(opacity)),
            !bits_in_zero_to(opacity, F32_BITS_HUNDRED) ==> res is None,
    {
        if in_zero_to(opacity, F32_BITS_HUNDRED) {
            Some(Property(PropertyValue::StrokeOpacity(opacity)))
        } else {
            None
        }
    }

    /// A stroke width, accepted whenever it is zero or greater, with no
    /// upper bound; a NaN satisfies no bound and is rejected.
    pub fn stroke_width(width: u32) -> (res: Option<Property>)
        ensures
            bits_in_zero_to(width, F32_BITS_INFINITY) ==> (res matches Some(p) && p.value()
                == PropertyValue::StrokeWidth(width)),
            !bits_in_zero_to(width, F32_BITS_INFINITY) ==> res is None,
    {
        if in_zero_to(width, F32_BITS_INFINITY) {
            Some(Property(PropertyValue::StrokeWidth(width)))
        } else {
            None
        }
    }

    /// An anchor transform is not supported by this layer: construction
    /// never succeeds, so the variant can never be routed to the engine.
    pub fn transform_anchor(anchor: i32) -> (res: Option<Property>)
        ensures
            res is None,
    {
        None
    }

    /// A position transform; the integer pair is unconstrained.
    pub fn transform_position(x: i32, y: i32) -> (res: Property)
        ensures
            res.value() == (PropertyValue::TransformPosition { x, y }),
    {
        Property(PropertyValue::TransformPosition { x, y })
    }

    /// A scale transform; each component must lie in zero to one hundred.
    pub fn transform_scale(width: u32, height: u32) -> (res: Option<Property>)
        ensures
            (bits_in_zero_to(width, F32_BITS_HUNDRED) && bits_in_zero_to(height, F32_BITS_HUNDRED))
                ==> (res matches Some(p) && p.value() == (PropertyValue::TransformScale {
                width,
                height,
            })),
            !(bits_in_zero_to(width, F32_BITS_HUNDRED) && bits_in_zero_to(height, F32_BITS_HUNDRED))
                ==> res is None,
    {
        if in_zero_to(width, F32_BITS_HUNDRED) && in_zero_to(height, F32_BITS_HUNDRED) {
            Some(Property(PropertyValue::TransformScale { width, height }))
        } else {
            None
        }
    }

    /// A rotation in degrees, in zero to three hundred sixty.
    pub fn transform_rotation(degrees: u32) -> (res: Option<Property>)
        ensures
            bits_in_zero_to(degrees, F32_BITS_THREE_SIXTY) ==> (res matches Some(p) && p.value()
                == PropertyValue::TransformRotation(degrees)),
            !bits_in_zero_to(degrees, F32_BITS_THREE_SIXTY) ==> res is None,
    {
        if in_zero_to(degrees, F32_BITS_THREE_SIXTY) {
            Some(Property(PropertyValue::TransformRotation(degrees)))
        } else {
            None
        }
    }

    /// An opacity transform in zero to one hundred. The value is validated
    /// and carried, but the variant is not supported by the override path:
    /// `set_prop` refuses it rather than risk a wrong tag.
    pub fn transform_opacity(opacity: u32) -> (res: Option<Property>)
        ensures
            bits_in_zero_to(opacity, F32_BITS_HUNDRED) ==> (res matches Some(p) && p.value()
                == PropertyValue::TransformOpacity(opacity)),
            !bits_in_zero_to(opacity, F32_BITS_HUNDRED) ==> res is None,
    {
        if in_zero_to(opacity, F32_BITS_HUNDRED) {
            Some(Property(PropertyValue::TransformOpacity(opacity)))
        } else {
            None
        }
    }
}

/// An owned path string addressing a node (or node pattern) in the
/// animation's layer tree.
///
/// Construction guarantees the string is boundary-safe: it holds no embedded
/// terminator character, so it can cross the native call boundary without
/// truncation. No structural validation is performed; resolution against the
/// tree is entirely the engine's concern.
#[derive(Clone, Debug)]
pub struct KeyPath(String);

impl View for KeyPath {
    type V = Seq<char>;

    closed spec fn view(&self) -> Seq<char> {
        self.0@
    }
}

impl KeyPath {
    /// The construction invariant: the path holds no embedded terminator.
    pub open spec fn wf(&self) -> bool {
        !contains_nul(self@)
    }

    /// Wraps a path string, failing exactly when it holds an embedded
    /// terminator character.
    pub fn try_from(keypath: &str) -> (r: Result<KeyPath, Error>)
        ensures
            r is Ok <==> !contains_nul(keypath@),
            r matches Ok(k) ==> k@ == keypath@ && k.wf(),
            r matches Err(e) ==> e matches Error::FFI(_),
    {
        if is_boundary_safe(keypath) {
            Ok(KeyPath(keypath.to_owned()))
        } else {
            Err(Error::FFI("keypath contains an embedded terminator byte".to_owned()))
        }
    }

    /// Borrows the path text.
    pub fn as_str(&self) -> (r: &str)
        ensures
            r@ == self@,
    {
        self.0.as_str()
    }
}

} // verus!
