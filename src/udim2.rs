use vstd::prelude::*;

use crate::float32::Float32;
use crate::text::{decimal_text, field_separator, push_separator};
use crate::udim::{wrap_i32, UDim};
use crate::variant::{projection, DatatypeError, Variant, VariantType};

verus! {

/// A two-dimensional user-interface size or position: two independent
/// offset-and-scale axes.
#[derive(Clone, Copy, Debug, PartialEq, Eq, Structural)]
pub struct UDim2 {
    pub x: UDim,
    pub y: UDim,
}

/// The float in an optional argument, zero when it is absent.
pub open spec fn scale_or_zero(v: Option<Float32>) -> Float32 {
    match v {
        Some(s) => s,
        None => Float32 { bits: 0 },
    }
}

/// The integer in an optional argument, zero when it is absent.
pub open spec fn offset_or_zero(v: Option<i32>) -> i32 {
    match v {
        Some(o) => o,
        None => 0,
    }
}

fn unwrap_scale(v: Option<Float32>) -> (r: Float32)
    ensures
        r == scale_or_zero(v),
{
    match v {
        Some(s) => s,
        None => Float32::zero(),
    }
}

fn unwrap_offset(v: Option<i32>) -> (r: i32)
    ensures
        r == offset_or_zero(v),
{
    match v {
        Some(o) => o,
        None => 0,
    }
}

impl UDim2 {
    /// The value with the given axes.
    pub fn from_udims(x: UDim, y: UDim) -> (r: UDim2)
        ensures
            r == (UDim2 { x, y }),
    {
        UDim2 { x, y }
    }

    pub open spec fn spec_zero() -> UDim2 {
        UDim2 { x: UDim::spec_zero(), y: UDim::spec_zero() }
    }

    /// Both axes zero.
    pub fn zero() -> (r: UDim2)
        ensures
            r == UDim2::spec_zero(),
    {
        UDim2 { x: UDim::zero(), y: UDim::zero() }
    }

    /// Scales only; absent ones and both offsets are zero.
    pub fn from_scale(x: Option<Float32>, y: Option<Float32>) -> (r: UDim2)
        ensures
            r == (UDim2 {
                x: UDim { scale: scale_or_zero(x), offset: 0 },
                y: UDim { scale: scale_or_zero(y), offset: 0 },
            }),
    {
        UDim2 {
            x: UDim { scale: unwrap_scale(x), offset: 0 },
            y: UDim { scale: unwrap_scale(y), offset: 0 },
        }
    }

    /// Offsets only; absent ones and both scales are zero.
    pub fn from_offset(x: Option<i32>, y: Option<i32>) -> (r: UDim2)
        ensures
            r == (UDim2 {
                x: UDim { scale: Float32 { bits: 0 }, offset: offset_or_zero(x) },
                y: UDim { scale: Float32 { bits: 0 }, offset: offset_or_zero(y) },
            }),
    {
        UDim2 {
            x: UDim { scale: Float32::zero(), offset: unwrap_offset(x) },
            y: UDim { scale: Float32::zero(), offset: unwrap_offset(y) },
        }
    }

    /// The horizontal axis.
    pub fn x(&self) -> (r: UDim)
        ensures
            r == self.x,
    {
        self.x
    }

    /// The vertical axis.
    pub fn y(&self) -> (r: UDim)
        ensures
            r == self.y,
    {
        self.y
    }

    /// The horizontal axis, under its other name.
    pub fn width(&self) -> (r: UDim)
        ensures
            r == self.x,
    {
        self.x
    }

    /// The vertical axis, under its other name.
    pub fn height(&self) -> (r: UDim)
        ensures
            r == self.y,
    {
        self.y
    }

    pub open spec fn spec_neg(self) -> UDim2 {
        UDim2 { x: self.x.spec_neg(), y: self.y.spec_neg() }
    }

    /// Negates every component.
    pub fn neg(self) -> (r: UDim2)
        ensures
            r == self.spec_neg(),
    {
        UDim2 { x: self.x.neg(), y: self.y.neg() }
    }

    /// The string form `"{scale}, {offset}, {scale}, {offset}"`, given the
    /// texts of the two scales.
    pub fn to_text(&self, scale_x_text: &str, scale_y_text: &str) -> (r: String)
        ensures
            r@ == scale_x_text@ + field_separator() + decimal_text(self.x.offset as int)
                + field_separator() + scale_y_text@ + field_separator() + decimal_text(
                self.y.offset as int,
            ),
    {
        let mut s = self.x.to_text(scale_x_text);
        push_separator(&mut s);
        let t = self.y.to_text(scale_y_text);
        s.append(t.as_str());
        s
    }

    pub open spec fn spec_from_variant(v: Variant) -> Result<UDim2, DatatypeError> {
        match v {
            Variant::UDim2(u) => Ok(u),
            _ => Err(
                DatatypeError::MismatchedSource { from: v.spec_kind(), to: VariantType::UDim2 },
            ),
        }
    }

    /// The value that a tagged value holds, when it is tagged as this type.
    pub fn from_variant(v: &Variant) -> (r: Result<UDim2, DatatypeError>)
        ensures
            r == UDim2::spec_from_variant(*v),
    {
        match v {
            Variant::UDim2(u) => Ok(*u),
            _ => Err(DatatypeError::MismatchedSource { from: v.kind(), to: VariantType::UDim2 }),
        }
    }

    pub open spec fn spec_to_variant(self, desired: Option<VariantType>) -> Result<
        Variant,
        DatatypeError,
    > {
        projection(VariantType::UDim2, desired, Variant::UDim2(self))
    }

    /// This value as a tagged value; it fails when another kind is asked for.
    pub fn to_variant(&self, desired: Option<VariantType>) -> (r: Result<Variant, DatatypeError>)
        ensures
            r == self.spec_to_variant(desired),
    {
        match desired {
            None => Ok(Variant::UDim2(*self)),
            Some(VariantType::UDim2) => Ok(Variant::UDim2(*self)),
            Some(k) => Err(DatatypeError::UnsupportedTarget { from: VariantType::UDim2, to: k }),
        }
    }

    /// Projecting a value into a tagged value and reading it back gives the
    /// same value.
    pub proof fn lemma_round_trip(v: UDim2)
        ensures
            v.spec_to_variant(None) == Ok::<Variant, DatatypeError>(Variant::UDim2(v)),
            UDim2::spec_from_variant(Variant::UDim2(v)) == Ok::<UDim2, DatatypeError>(v),
    {
    }

    /// A tagged value of any other kind is refused, with both kinds named.
    pub proof fn lemma_rejects_other_kinds(t: Variant)
        requires
            t.spec_kind() != VariantType::UDim2,
        ensures
            UDim2::spec_from_variant(t) == Err::<UDim2, DatatypeError>(
                DatatypeError::MismatchedSource { from: t.spec_kind(), to: VariantType::UDim2 },
            ),
    {
    }

    /// Negating twice gives the value back.
    pub proof fn lemma_neg_involutive(v: UDim2)
        ensures
            v.spec_neg().spec_neg() == v,
    {
        v.x.scale.lemma_neg_involutive();
        v.y.scale.lemma_neg_involutive();
    }
}

} // verus!
