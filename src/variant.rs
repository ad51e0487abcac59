use vstd::prelude::*;

use crate::color::{Color3, ColorSequence};
use crate::udim::UDim;
use crate::udim2::UDim2;

verus! {

/// The discriminant of a tagged engine value: one per datatype of this
/// library, and `Other` for every kind of value that it does not handle.
#[derive(Clone, Copy, Debug, PartialEq, Eq, Structural)]
pub enum VariantType {
    UDim,
    UDim2,
    Color3,
    ColorSequence,
    Other,
}

/// A tagged engine value.
#[derive(Debug)]
pub enum Variant {
    UDim(UDim),
    UDim2(UDim2),
    Color3(Color3),
    ColorSequence(ColorSequence),
    /// A value of a kind that this library does not handle.
    Other,
}

impl Variant {
    pub open spec fn spec_kind(self) -> VariantType {
        match self {
            Variant::UDim(_) => VariantType::UDim,
            Variant::UDim2(_) => VariantType::UDim2,
            Variant::Color3(_) => VariantType::Color3,
            Variant::ColorSequence(_) => VariantType::ColorSequence,
            Variant::Other => VariantType::Other,
        }
    }

    /// The discriminant of this value.
    pub fn kind(&self) -> (r: VariantType)
        ensures
            r == self.spec_kind(),
    {
        match self {
            Variant::UDim(_) => VariantType::UDim,
            Variant::UDim2(_) => VariantType::UDim2,
            Variant::Color3(_) => VariantType::Color3,
            Variant::ColorSequence(_) => VariantType::ColorSequence,
            Variant::Other => VariantType::Other,
        }
    }
}

/// Why a datatype could not be built or converted.
#[derive(Clone, Copy, Debug, PartialEq, Eq, Structural)]
pub enum DatatypeError {
    /// No accepted argument shape of a constructor matched its arguments.
    InvalidConstructorArguments,
    /// A tagged value of kind `from` was read as a datatype of kind `to`.
    MismatchedSource { from: VariantType, to: VariantType },
    /// A datatype of kind `from` was asked to become a tagged value of kind `to`.
    UnsupportedTarget { from: VariantType, to: VariantType },
}

/// The result of projecting a value of kind `own` into a tagged value,
/// `tagged` being that projection: it succeeds when no kind or `own` itself
/// is asked for.
pub open spec fn projection(
    own: VariantType,
    desired: Option<VariantType>,
    tagged: Variant,
) -> Result<Variant, DatatypeError> {
    match desired {
        None => Ok(tagged),
        Some(k) => if k == own {
            Ok(tagged)
        } else {
            Err(DatatypeError::UnsupportedTarget { from: own, to: k })
        },
    }
}

} // verus!
