//! `UIStepper`.
//!
//! Value, bounds and step are `f64`s, kept as their bit patterns; clamping
//! the value to the bounds on `setValue:` is floating-point work the
//! runtime does.

use vstd::prelude::*;
use crate::guest::{Id, NIL, RefOp, decoded_or, nonnil_or, release_unless_nil, retain_unless_nil, replace_retained};

verus! {

/// Bit pattern of the `f64` 100.0.
pub const F64_100_BITS: u64 = 0x4059000000000000;
/// Bit pattern of the `f64` 1.0.
pub const F64_ONE_BITS: u64 = 0x3ff0000000000000;

pub struct UIStepperHostObject {
    /// Bit pattern of the `f64` value.
    pub value_bits: u64,
    /// Bit pattern of the `f64` minimum value.
    pub minimum_value_bits: u64,
    /// Bit pattern of the `f64` maximum value.
    pub maximum_value_bits: u64,
    /// Bit pattern of the `f64` step value.
    pub step_value_bits: u64,
    pub continuous: bool,
    pub autorepeat: bool,
    pub wraps: bool,
    /// `UIColor*`
    pub tint_color: Id,
}

impl Default for UIStepperHostObject {
    fn default() -> (h: Self)
        ensures
            h.value_bits == 0,
            h.minimum_value_bits == 0,
            h.maximum_value_bits == F64_100_BITS,
            h.step_value_bits == F64_ONE_BITS,
            h.continuous,
            h.autorepeat,
            !h.wraps,
            h.tint_color == NIL,
    {
        UIStepperHostObject {
            value_bits: 0,
            minimum_value_bits: 0,
            maximum_value_bits: F64_100_BITS,
            step_value_bits: F64_ONE_BITS,
            continuous: true,
            autorepeat: true,
            wraps: false,
            tint_color: NIL,
        }
    }
}

impl UIStepperHostObject {
    /// `initWithCoder:` given the values present in the archive and the tint
    /// color (nil if absent; retained otherwise).
    pub fn init_with_coder(
        &mut self,
        value_bits: Option<u64>,
        minimum_value_bits: Option<u64>,
        maximum_value_bits: Option<u64>,
        step_value_bits: Option<u64>,
        continuous: Option<bool>,
        autorepeat: Option<bool>,
        wraps: Option<bool>,
        tint_color: Id,
    ) -> (ops: Vec<RefOp>)
        ensures
            ops@ == retain_unless_nil(tint_color),
            *final(self) == (UIStepperHostObject {
                value_bits: decoded_or(value_bits, old(self).value_bits),
                minimum_value_bits: decoded_or(minimum_value_bits, old(self).minimum_value_bits),
                maximum_value_bits: decoded_or(maximum_value_bits, old(self).maximum_value_bits),
                step_value_bits: decoded_or(step_value_bits, old(self).step_value_bits),
                continuous: decoded_or(continuous, old(self).continuous),
                autorepeat: decoded_or(autorepeat, old(self).autorepeat),
                wraps: decoded_or(wraps, old(self).wraps),
                tint_color: nonnil_or(tint_color, old(self).tint_color),
            }),
    {
        if let Some(v) = value_bits {
            self.value_bits = v;
        }
        if let Some(v) = minimum_value_bits {
            self.minimum_value_bits = v;
        }
        if let Some(v) = maximum_value_bits {
            self.maximum_value_bits = v;
        }
        if let Some(v) = step_value_bits {
            self.step_value_bits = v;
        }
        if let Some(c) = continuous {
            self.continuous = c;
        }
        if let Some(a) = autorepeat {
            self.autorepeat = a;
        }
        if let Some(w) = wraps {
            self.wraps = w;
        }
        let mut ops: Vec<RefOp> = Vec::new();
        if tint_color != NIL {
            ops.push(RefOp::Retain(tint_color));
            self.tint_color = tint_color;
        }
        proof {
            assert(ops@ =~= retain_unless_nil(tint_color));
        }
        ops
    }

    /// `setTintColor:` (retained).
    pub fn set_tint_color(&mut self, color: Id) -> (ops: Vec<RefOp>)
        ensures
            *final(self) == (UIStepperHostObject { tint_color: color, ..*old(self) }),
            ops@ == release_unless_nil(old(self).tint_color) + retain_unless_nil(color),
    {
        replace_retained(&mut self.tint_color, color)
    }

    /// What `dealloc` releases: the tint color (unless nil).
    pub fn dealloc_releases(&self) -> (ops: Vec<RefOp>)
        ensures
            ops@ == release_unless_nil(self.tint_color),
    {
        let mut ops: Vec<RefOp> = Vec::new();
        if self.tint_color != NIL {
            ops.push(RefOp::Release(self.tint_color));
        }
        proof {
            assert(ops@ =~= release_unless_nil(self.tint_color));
        }
        ops
    }
}

} // verus!
