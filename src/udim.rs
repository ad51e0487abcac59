use vstd::prelude::*;

use crate::float32::Float32;
use crate::text::{decimal_text, field_separator, int_text, push_separator};
use crate::variant::{projection, DatatypeError, Variant, VariantType};

verus! {

/// `x` brought into the range of `i32` by two's-complement wraparound, for
/// `x` within one turn of that range.
pub open spec fn wrap_i32(x: int) -> int {
    if x > i32::MAX {
        x - 0x1_0000_0000
    } else if x < i32::MIN {
        x + 0x1_0000_0000
    } else {
        x
    }
}

/// The sum of two offsets, wrapping around on overflow.
pub fn offset_add(a: i32, b: i32) -> (r: i32)
    ensures
        r == wrap_i32(a + b),
{
    let s: i64 = a as i64 + b as i64;
    if s > i32::MAX as i64 {
        (s - 0x1_0000_0000i64) as i32
    } else if s < i32::MIN as i64 {
        (s + 0x1_0000_0000i64) as i32
    } else {
        s as i32
    }
}

/// The difference of two offsets, wrapping around on overflow.
pub fn offset_sub(a: i32, b: i32) -> (r: i32)
    ensures
        r == wrap_i32(a - b),
{
    let s: i64 = a as i64 - b as i64;
    if s > i32::MAX as i64 {
        (s - 0x1_0000_0000i64) as i32
    } else if s < i32::MIN as i64 {
        (s + 0x1_0000_0000i64) as i32
    } else {
        s as i32
    }
}

/// The negation of an offset, wrapping around on overflow (the negation of
/// `i32::MIN` is itself).
pub fn offset_neg(a: i32) -> (r: i32)
    ensures
        r == wrap_i32(-a),
{
    if a == i32::MIN {
        a
    } else {
        -a
    }
}

/// Adding zero to an offset leaves it unchanged, and adding its negation
/// gives zero, overflow included.
pub proof fn lemma_offset_additive_identity(a: i32)
    ensures
        wrap_i32(a + 0) == a,
        wrap_i32(a + wrap_i32(-a)) == 0,
        wrap_i32(a - a) == 0,
{
}

/// Subtracting an offset is adding its negation.
pub proof fn lemma_offset_sub_is_add_neg(a: i32, b: i32)
    ensures
        wrap_i32(a - b) == wrap_i32(a + wrap_i32(-b)),
{
}

/// One axis of a user-interface dimension: a fraction of the parent's size
/// (`scale`) plus a number of pixels (`offset`).
#[derive(Clone, Copy, Debug, PartialEq, Eq, Structural)]
pub struct UDim {
    pub scale: Float32,
    pub offset: i32,
}

impl UDim {
    pub fn new(scale: Float32, offset: i32) -> (r: UDim)
        ensures
            r == (UDim { scale, offset }),
    {
        UDim { scale, offset }
    }

    /// Zero scale and zero offset.
    pub open spec fn spec_zero() -> UDim {
        UDim { scale: Float32 { bits: 0 }, offset: 0 }
    }

    /// Zero scale and zero offset, the value that absent arguments default to.
    pub fn zero() -> (r: UDim)
        ensures
            r == UDim::spec_zero(),
    {
        UDim { scale: Float32::zero(), offset: 0 }
    }

    pub open spec fn spec_neg(self) -> UDim {
        UDim { scale: self.scale.spec_neg(), offset: wrap_i32(-self.offset) as i32 }
    }

    /// Negates both components.
    pub fn neg(self) -> (r: UDim)
        ensures
            r == self.spec_neg(),
    {
        UDim { scale: self.scale.neg(), offset: offset_neg(self.offset) }
    }

    /// The string form `"{scale}, {offset}"`, given the text of the scale.
    pub fn to_text(&self, scale_text: &str) -> (r: String)
        ensures
            r@ == scale_text@ + field_separator() + decimal_text(self.offset as int),
    {
        let mut s = String::from_str(scale_text);
        push_separator(&mut s);
        let o = int_text(self.offset);
        s.append(o.as_str());
        s
    }

    pub open spec fn spec_from_variant(v: Variant) -> Result<UDim, DatatypeError> {
        match v {
            Variant::UDim(u) => Ok(u),
            _ => Err(DatatypeError::MismatchedSource { from: v.spec_kind(), to: VariantType::UDim }),
        }
    }

    /// The value that a tagged value holds, when it is tagged as this type.
    pub fn from_variant(v: &Variant) -> (r: Result<UDim, DatatypeError>)
        ensures
            r == UDim::spec_from_variant(*v),
    {
        match v {
            Variant::UDim(u) => Ok(*u),
            _ => Err(DatatypeError::MismatchedSource { from: v.kind(), to: VariantType::UDim }),
        }
    }

    pub open spec fn spec_to_variant(self, desired: Option<VariantType>) -> Result<
        Variant,
        DatatypeError,
    > {
        projection(VariantType::UDim, desired, Variant::UDim(self))
    }

    /// This value as a tagged value; it fails when another kind is asked for.
    pub fn to_variant(&self, desired: Option<VariantType>) -> (r: Result<Variant, DatatypeError>)
        ensures
            r == self.spec_to_variant(desired),
    {
        match desired {
            None => Ok(Variant::UDim(*self)),
            Some(VariantType::UDim) => Ok(Variant::UDim(*self)),
            Some(k) => Err(DatatypeError::UnsupportedTarget { from: VariantType::UDim, to: k }),
        }
    }

    /// Projecting a value into a tagged value and reading it back gives the
    /// same value.
    pub proof fn lemma_round_trip(v: UDim)
        ensures
            v.spec_to_variant(None) == Ok::<Variant, DatatypeError>(Variant::UDim(v)),
            UDim::spec_from_variant(Variant::UDim(v)) == Ok::<UDim, DatatypeError>(v),
    {
    }

    /// A tagged value of any other kind is refused, with both kinds named.
    pub proof fn lemma_rejects_other_kinds(t: Variant)
        requires
            t.spec_kind() != VariantType::UDim,
        ensures
            UDim::spec_from_variant(t) == Err::<UDim, DatatypeError>(
                DatatypeError::MismatchedSource { from: t.spec_kind(), to: VariantType::UDim },
            ),
    {
    }
}

} // verus!
