use vstd::prelude::*;

use crate::float32::{Float32, ONE_BITS, SIGN_BIT};
use crate::variant::{projection, DatatypeError, Variant, VariantType};

verus! {

/// A color with three floating-point channels, none of them clamped.
#[derive(Clone, Copy, Debug, PartialEq, Eq, Structural)]
pub struct Color3 {
    pub r: Float32,
    pub g: Float32,
    pub b: Float32,
}

impl Color3 {
    pub fn new(r: Float32, g: Float32, b: Float32) -> (c: Color3)
        ensures
            c == (Color3 { r, g, b }),
    {
        Color3 { r, g, b }
    }

    pub open spec fn spec_from_variant(v: Variant) -> Result<Color3, DatatypeError> {
        match v {
            Variant::Color3(c) => Ok(c),
            _ => Err(DatatypeError::MismatchedSource { from: v.spec_kind(), to: VariantType::Color3 }),
        }
    }

    /// The value that a tagged value holds, when it is tagged as this type.
    pub fn from_variant(v: &Variant) -> (r: Result<Color3, DatatypeError>)
        ensures
            r == Color3::spec_from_variant(*v),
    {
        match v {
            Variant::Color3(c) => Ok(*c),
            _ => Err(DatatypeError::MismatchedSource { from: v.kind(), to: VariantType::Color3 }),
        }
    }

    pub open spec fn spec_to_variant(self, desired: Option<VariantType>) -> Result<
        Variant,
        DatatypeError,
    > {
        projection(VariantType::Color3, desired, Variant::Color3(self))
    }

    /// This value as a tagged value; it fails when another kind is asked for.
    pub fn to_variant(&self, desired: Option<VariantType>) -> (r: Result<Variant, DatatypeError>)
        ensures
            r == self.spec_to_variant(desired),
    {
        match desired {
            None => Ok(Variant::Color3(*self)),
            Some(VariantType::Color3) => Ok(Variant::Color3(*self)),
            Some(k) => Err(DatatypeError::UnsupportedTarget { from: VariantType::Color3, to: k }),
        }
    }

    /// Projecting a value into a tagged value and reading it back gives the
    /// same value.
    pub proof fn lemma_round_trip(v: Color3)
        ensures
            v.spec_to_variant(None) == Ok::<Variant, DatatypeError>(Variant::Color3(v)),
            Color3::spec_from_variant(Variant::Color3(v)) == Ok::<Color3, DatatypeError>(v),
    {
    }

    /// A tagged value of any other kind is refused, with both kinds named.
    pub proof fn lemma_rejects_other_kinds(t: Variant)
        requires
            t.spec_kind() != VariantType::Color3,
        ensures
            Color3::spec_from_variant(t) == Err::<Color3, DatatypeError>(
                DatatypeError::MismatchedSource { from: t.spec_kind(), to: VariantType::Color3 },
            ),
    {
    }
}

/// One point of a color ramp: a color at a time between 0 and 1.
#[derive(Clone, Copy, Debug, PartialEq, Eq, Structural)]
pub struct ColorSequenceKeypoint {
    pub time: Float32,
    pub color: Color3,
}

impl ColorSequenceKeypoint {
    pub fn new(time: Float32, color: Color3) -> (k: ColorSequenceKeypoint)
        ensures
            k == (ColorSequenceKeypoint { time, color }),
    {
        ColorSequenceKeypoint { time, color }
    }
}

/// Whether `t` is a float between 0 and 1, both included (negative zero
/// counts as zero).
pub open spec fn is_unit_time(t: Float32) -> bool {
    t.bits <= ONE_BITS || t.bits == SIGN_BIT
}

/// The position of a time between 0 and 1 in the order of values. For
/// floats from 0 to 1 that order is the order of their bit patterns; both
/// zeros come first.
pub open spec fn time_rank(t: Float32) -> int {
    if t.bits == SIGN_BIT {
        0
    } else {
        t.bits as int
    }
}

/// Whether `ks` makes a color ramp: at least one point, every time between 0
/// and 1, times in order, the first one 0 and the last one 1.
pub open spec fn valid_keypoints(ks: Seq<ColorSequenceKeypoint>) -> bool {
    &&& ks.len() >= 1
    &&& forall|i: int| 0 <= i < ks.len() ==> is_unit_time(#[trigger] ks[i].time)
    &&& forall|i: int|
        0 <= i < ks.len() - 1 ==> time_rank(#[trigger] ks[i].time) <= time_rank(ks[i + 1].time)
    &&& ks[0].time.is_zero()
    &&& ks[ks.len() - 1].time.bits == ONE_BITS
}

/// A color ramp: keypoints ordered by time, from time 0 to time 1.
#[derive(Debug)]
pub struct ColorSequence {
    keypoints: Vec<ColorSequenceKeypoint>,
}

impl View for ColorSequence {
    type V = Seq<ColorSequenceKeypoint>;

    closed spec fn view(&self) -> Seq<ColorSequenceKeypoint> {
        self.keypoints@
    }
}

fn unit_time(t: Float32) -> (r: bool)
    ensures
        r == is_unit_time(t),
{
    t.bits <= ONE_BITS || t.bits == SIGN_BIT
}

fn rank(t: Float32) -> (r: u32)
    ensures
        r == time_rank(t),
{
    if t.bits == SIGN_BIT {
        0
    } else {
        t.bits
    }
}

fn copy_keypoints(ks: &Vec<ColorSequenceKeypoint>) -> (r: Vec<ColorSequenceKeypoint>)
    ensures
        r@ == ks@,
{
    let mut out: Vec<ColorSequenceKeypoint> = Vec::new();
    let mut i: usize = 0;
    while i < ks.len()
        invariant
            i <= ks@.len(),
            out@ == ks@.subrange(0, i as int),
        decreases ks.len() - i,
    {
        out.push(ks[i]);
        i = i + 1;
        assert(out@ =~= ks@.subrange(0, i as int));
    }
    assert(out@ =~= ks@);
    out
}

impl ColorSequence {
    #[verifier::type_invariant]
    spec fn inv(&self) -> bool {
        valid_keypoints(self.keypoints@)
    }

    /// The ramp through `keypoints`; it is refused unless they are ordered by
    /// time, lie between 0 and 1, and start at time 0 and end at time 1.
    pub fn new(keypoints: Vec<ColorSequenceKeypoint>) -> (r: Result<ColorSequence, DatatypeError>)
        ensures
            r is Ok <==> valid_keypoints(keypoints@),
            r matches Ok(s) ==> s@ == keypoints@,
            r is Err ==> r == Err::<ColorSequence, DatatypeError>(
                DatatypeError::InvalidConstructorArguments,
            ),
    {
        let n = keypoints.len();
        if n == 0 {
            return Err(DatatypeError::InvalidConstructorArguments);
        }
        let mut i: usize = 0;
        while i < n
            invariant
                n == keypoints@.len(),
                i <= n,
                forall|j: int| 0 <= j < i ==> is_unit_time(#[trigger] keypoints@[j].time),
                forall|j: int|
                    0 <= j < i && j < n - 1 ==> time_rank(#[trigger] keypoints@[j].time)
                        <= time_rank(keypoints@[j + 1].time),
            decreases n - i,
        {
            if !unit_time(keypoints[i].time) {
                return Err(DatatypeError::InvalidConstructorArguments);
            }
            if i + 1 < n && rank(keypoints[i].time) > rank(keypoints[i + 1].time) {
                return Err(DatatypeError::InvalidConstructorArguments);
            }
            i = i + 1;
        }
        let first = keypoints[0].time.bits;
        if !(first == 0 || first == SIGN_BIT) || keypoints[n - 1].time.bits != ONE_BITS {
            return Err(DatatypeError::InvalidConstructorArguments);
        }
        Ok(ColorSequence { keypoints })
    }

    /// The keypoints, in order of time.
    pub fn keypoints(&self) -> (r: &[ColorSequenceKeypoint])
        ensures
            r@ == self@,
    {
        self.keypoints.as_slice()
    }

    fn duplicate(&self) -> (r: ColorSequence)
        ensures
            r@ == self@,
    {
        proof {
            use_type_invariant(self);
        }
        ColorSequence { keypoints: copy_keypoints(&self.keypoints) }
    }

    /// The value that a tagged value holds, when it is tagged as this type.
    pub fn from_variant(v: &Variant) -> (r: Result<ColorSequence, DatatypeError>)
        ensures
            match *v {
                Variant::ColorSequence(s) => r matches Ok(t) && t@ == s@,
                _ => r == Err::<ColorSequence, DatatypeError>(
                    DatatypeError::MismatchedSource {
                        from: v.spec_kind(),
                        to: VariantType::ColorSequence,
                    },
                ),
            },
    {
        match v {
            Variant::ColorSequence(s) => Ok(s.duplicate()),
            _ => Err(
                DatatypeError::MismatchedSource { from: v.kind(), to: VariantType::ColorSequence },
            ),
        }
    }

    /// This value as a tagged value; it fails when another kind is asked for.
    pub fn to_variant(&self, desired: Option<VariantType>) -> (r: Result<Variant, DatatypeError>)
        ensures
            match desired {
                None => r matches Ok(Variant::ColorSequence(s)) && s@ == self@,
                Some(k) => if k == VariantType::ColorSequence {
                    r matches Ok(Variant::ColorSequence(s)) && s@ == self@
                } else {
                    r == Err::<Variant, DatatypeError>(
                        DatatypeError::UnsupportedTarget { from: VariantType::ColorSequence, to: k },
                    )
                },
            },
    {
        match desired {
            None => Ok(Variant::ColorSequence(self.duplicate())),
            Some(VariantType::ColorSequence) => Ok(Variant::ColorSequence(self.duplicate())),
            Some(k) => Err(
                DatatypeError::UnsupportedTarget { from: VariantType::ColorSequence, to: k },
            ),
        }
    }
}

} // verus!
