use vstd::prelude::*;

use crate::float32::Float32;
use crate::udim::UDim;
use crate::udim2::{offset_or_zero, scale_or_zero, UDim2};
use crate::variant::DatatypeError;

verus! {

/// One argument of a host-runtime constructor call, as the host could
/// convert it.
#[derive(Clone, Copy, Debug, PartialEq, Eq, Structural)]
pub enum Arg {
    /// The host's nil: it fills any optional slot, as an absent argument.
    Nil,
    /// Any other value, with what it converts to where it does convert.
    Value { udim: Option<UDim>, scale: Option<Float32>, offset: Option<i32> },
}

/// Whether `a` fills a slot that takes an optional axis.
pub open spec fn fills_udim(a: Arg) -> bool {
    match a {
        Arg::Nil => true,
        Arg::Value { udim, .. } => udim is Some,
    }
}

/// Whether `a` fills a slot that takes an optional scale.
pub open spec fn fills_scale(a: Arg) -> bool {
    match a {
        Arg::Nil => true,
        Arg::Value { scale, .. } => scale is Some,
    }
}

/// Whether `a` fills a slot that takes an optional offset.
pub open spec fn fills_offset(a: Arg) -> bool {
    match a {
        Arg::Nil => true,
        Arg::Value { offset, .. } => offset is Some,
    }
}

/// The axis in slot `i`, zero when the slot is empty or nil.
pub open spec fn udim_at(args: Seq<Arg>, i: int) -> UDim {
    if 0 <= i < args.len() {
        match args[i] {
            Arg::Value { udim: Some(u), .. } => u,
            _ => UDim::spec_zero(),
        }
    } else {
        UDim::spec_zero()
    }
}

/// The scale in slot `i`, zero when the slot is empty or nil.
pub open spec fn scale_at(args: Seq<Arg>, i: int) -> Float32 {
    if 0 <= i < args.len() {
        match args[i] {
            Arg::Value { scale, .. } => scale_or_zero(scale),
            Arg::Nil => Float32 { bits: 0 },
        }
    } else {
        Float32 { bits: 0 }
    }
}

/// The offset in slot `i`, zero when the slot is empty or nil.
pub open spec fn offset_at(args: Seq<Arg>, i: int) -> i32 {
    if 0 <= i < args.len() {
        match args[i] {
            Arg::Value { offset, .. } => offset_or_zero(offset),
            Arg::Nil => 0,
        }
    } else {
        0
    }
}

/// The shape `(x: UDim?, y: UDim?)` takes every argument.
pub open spec fn matches_udims(args: Seq<Arg>) -> bool {
    args.len() <= 2 && forall|i: int| 0 <= i < args.len() ==> fills_udim(#[trigger] args[i])
}

/// The shape `(scaleX: number?, offsetX: int?, scaleY: number?, offsetY: int?)`
/// takes every argument.
pub open spec fn matches_numbers(args: Seq<Arg>) -> bool {
    &&& args.len() <= 4
    &&& forall|i: int|
        0 <= i < args.len() && i % 2 == 0 ==> fills_scale(#[trigger] args[i])
    &&& forall|i: int|
        0 <= i < args.len() && i % 2 == 1 ==> fills_offset(#[trigger] args[i])
}

/// What the overloaded constructor gives for `args`: the first shape, in
/// order, that takes all of them, or an error when none does.
pub open spec fn resolve_udim2(args: Seq<Arg>) -> Result<UDim2, DatatypeError> {
    if args.len() == 0 {
        Ok(UDim2::spec_zero())
    } else if matches_udims(args) {
        Ok(UDim2 { x: udim_at(args, 0), y: udim_at(args, 1) })
    } else if matches_numbers(args) {
        Ok(
            UDim2 {
                x: UDim { scale: scale_at(args, 0), offset: offset_at(args, 1) },
                y: UDim { scale: scale_at(args, 2), offset: offset_at(args, 3) },
            },
        )
    } else {
        Err(DatatypeError::InvalidConstructorArguments)
    }
}

fn takes_udims(args: &[Arg]) -> (r: bool)
    ensures
        r == matches_udims(args@),
{
    if args.len() > 2 {
        return false;
    }
    let mut i: usize = 0;
    while i < args.len()
        invariant
            i <= args@.len(),
            forall|j: int| 0 <= j < i ==> fills_udim(#[trigger] args@[j]),
        decreases args.len() - i,
    {
        let ok = match args[i] {
            Arg::Nil => true,
            Arg::Value { udim, .. } => udim.is_some(),
        };
        if !ok {
            return false;
        }
        i = i + 1;
    }
    true
}

fn takes_numbers(args: &[Arg]) -> (r: bool)
    ensures
        r == matches_numbers(args@),
{
    if args.len() > 4 {
        return false;
    }
    let mut i: usize = 0;
    while i < args.len()
        invariant
            i <= args@.len(),
            forall|j: int| 0 <= j < i && j % 2 == 0 ==> fills_scale(#[trigger] args@[j]),
            forall|j: int| 0 <= j < i && j % 2 == 1 ==> fills_offset(#[trigger] args@[j]),
        decreases args.len() - i,
    {
        let ok = match args[i] {
            Arg::Nil => true,
            Arg::Value { scale, offset, .. } => if i % 2 == 0 {
                scale.is_some()
            } else {
                offset.is_some()
            },
        };
        if !ok {
            return false;
        }
        i = i + 1;
    }
    true
}

fn udim_in(args: &[Arg], i: usize) -> (r: UDim)
    ensures
        r == udim_at(args@, i as int),
{
    if i < args.len() {
        match args[i] {
            Arg::Value { udim: Some(u), .. } => u,
            _ => UDim::zero(),
        }
    } else {
        UDim::zero()
    }
}

fn scale_in(args: &[Arg], i: usize) -> (r: Float32)
    ensures
        r == scale_at(args@, i as int),
{
    if i < args.len() {
        match args[i] {
            Arg::Value { scale: Some(s), .. } => s,
            _ => Float32::zero(),
        }
    } else {
        Float32::zero()
    }
}

fn offset_in(args: &[Arg], i: usize) -> (r: i32)
    ensures
        r == offset_at(args@, i as int),
{
    if i < args.len() {
        match args[i] {
            Arg::Value { offset: Some(o), .. } => o,
            _ => 0,
        }
    } else {
        0
    }
}

impl UDim2 {
    /// The overloaded constructor. Its shapes, tried in order: no argument;
    /// two optional axes; an optional scale and offset for each axis. A shape
    /// matches only when it takes every argument; a missing or nil one is zero.
    pub fn new(args: &[Arg]) -> (r: Result<UDim2, DatatypeError>)
        ensures
            r == resolve_udim2(args@),
    {
        if args.len() == 0 {
            Ok(UDim2::zero())
        } else if takes_udims(args) {
            Ok(UDim2 { x: udim_in(args, 0), y: udim_in(args, 1) })
        } else if takes_numbers(args) {
            Ok(
                UDim2 {
                    x: UDim { scale: scale_in(args, 0), offset: offset_in(args, 1) },
                    y: UDim { scale: scale_in(args, 2), offset: offset_in(args, 3) },
                },
            )
        } else {
            Err(DatatypeError::InvalidConstructorArguments)
        }
    }
}

} // verus!
