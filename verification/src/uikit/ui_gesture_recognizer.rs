//! `UIGestureRecognizer` and common gesture recognizers.
//!
//! Points and scalars are `CGFloat`s (`f32` on the guest); the recognizers
//! only store them, so they are kept as their IEEE-754 bit patterns.

use vstd::prelude::*;
use crate::guest::{Id, NIL, NSInteger, Sel, decoded_or};

verus! {

// UIGestureRecognizerState
pub type UIGestureRecognizerState = NSInteger;
pub const UI_GESTURE_RECOGNIZER_STATE_POSSIBLE: UIGestureRecognizerState = 0;
pub const UI_GESTURE_RECOGNIZER_STATE_BEGAN: UIGestureRecognizerState = 1;
pub const UI_GESTURE_RECOGNIZER_STATE_CHANGED: UIGestureRecognizerState = 2;
pub const UI_GESTURE_RECOGNIZER_STATE_ENDED: UIGestureRecognizerState = 3;
pub const UI_GESTURE_RECOGNIZER_STATE_CANCELLED: UIGestureRecognizerState = 4;
pub const UI_GESTURE_RECOGNIZER_STATE_FAILED: UIGestureRecognizerState = 5;

/// Bit pattern of the `f32` 1.0.
pub const F32_ONE_BITS: u32 = 0x3f800000;

pub struct UIGestureRecognizerHostObject {
    /// weak reference
    pub target: Id,
    pub action: Option<Sel>,
    /// `UIView*` (weak)
    pub view: Id,
    pub state: UIGestureRecognizerState,
    pub enabled: bool,
    pub cancels_touches_in_view: bool,
    pub delays_touches_began: bool,
    pub delays_touches_ended: bool,
}

/// The state of a freshly allocated recognizer.
pub open spec fn is_default_recognizer(h: UIGestureRecognizerHostObject) -> bool {
    &&& h.target == NIL
    &&& h.action is None
    &&& h.view == NIL
    &&& h.state == UI_GESTURE_RECOGNIZER_STATE_POSSIBLE
    &&& h.enabled
    &&& h.cancels_touches_in_view
    &&& !h.delays_touches_began
    &&& h.delays_touches_ended
}

impl Default for UIGestureRecognizerHostObject {
    fn default() -> (h: Self)
        ensures
            is_default_recognizer(h),
    {
        UIGestureRecognizerHostObject {
            target: NIL,
            action: None,
            view: NIL,
            state: UI_GESTURE_RECOGNIZER_STATE_POSSIBLE,
            enabled: true,
            cancels_touches_in_view: true,
            delays_touches_began: false,
            delays_touches_ended: true,
        }
    }
}

/// A selector as stored: a null selector is no action.
pub open spec fn action_of(action: Sel) -> Option<Sel> {
    if action == 0 { None } else { Some(action) }
}

impl UIGestureRecognizerHostObject {
    /// `initWithTarget:action:` and `addTarget:action:`: the (weak) target
    /// and the action, none for a null selector.
    pub fn add_target(&mut self, target: Id, action: Sel)
        ensures
            *final(self) == (UIGestureRecognizerHostObject {
                target,
                action: action_of(action),
                ..*old(self)
            }),
    {
        self.target = target;
        self.action = if action == 0 {
            None
        } else {
            Some(action)
        };
    }

    /// `removeTarget:action:`: the recognizer has no target or action left.
    pub fn remove_target(&mut self)
        ensures
            *final(self) == (UIGestureRecognizerHostObject {
                target: NIL,
                action: None,
                ..*old(self)
            }),
    {
        self.target = NIL;
        self.action = None;
    }

    /// `initWithCoder:` given the flags present in the archive.
    pub fn init_with_coder(
        &mut self,
        enabled: Option<bool>,
        cancels_touches_in_view: Option<bool>,
        delays_touches_began: Option<bool>,
        delays_touches_ended: Option<bool>,
    )
        ensures
            *final(self) == (UIGestureRecognizerHostObject {
                enabled: decoded_or(enabled, old(self).enabled),
                cancels_touches_in_view: decoded_or(
                    cancels_touches_in_view,
                    old(self).cancels_touches_in_view,
                ),
                delays_touches_began: decoded_or(delays_touches_began, old(self).delays_touches_began),
                delays_touches_ended: decoded_or(delays_touches_ended, old(self).delays_touches_ended),
                ..*old(self)
            }),
    {
        if let Some(e) = enabled {
            self.enabled = e;
        }
        if let Some(c) = cancels_touches_in_view {
            self.cancels_touches_in_view = c;
        }
        if let Some(d) = delays_touches_began {
            self.delays_touches_began = d;
        }
        if let Some(d) = delays_touches_ended {
            self.delays_touches_ended = d;
        }
    }
}

pub struct UITapGestureRecognizerHostObject {
    pub gesture_recognizer: UIGestureRecognizerHostObject,
    pub number_of_taps_required: NSInteger,
    pub number_of_touches_required: NSInteger,
}

impl Default for UITapGestureRecognizerHostObject {
    fn default() -> (h: Self)
        ensures
            is_default_recognizer(h.gesture_recognizer),
            h.number_of_taps_required == 1,
            h.number_of_touches_required == 1,
    {
        UITapGestureRecognizerHostObject {
            gesture_recognizer: UIGestureRecognizerHostObject::default(),
            number_of_taps_required: 1,
            number_of_touches_required: 1,
        }
    }
}

impl UITapGestureRecognizerHostObject {
    /// `initWithCoder:` (after the generic recognizer's decoding) given the
    /// counts present in the archive.
    pub fn init_with_coder(&mut self, taps: Option<NSInteger>, touches: Option<NSInteger>)
        ensures
            final(self).gesture_recognizer == old(self).gesture_recognizer,
            final(self).number_of_taps_required == decoded_or(taps, old(self).number_of_taps_required),
            final(self).number_of_touches_required == decoded_or(
                touches,
                old(self).number_of_touches_required,
            ),
    {
        if let Some(t) = taps {
            self.number_of_taps_required = t;
        }
        if let Some(t) = touches {
            self.number_of_touches_required = t;
        }
    }
}

pub struct UISwipeGestureRecognizerHostObject {
    pub gesture_recognizer: UIGestureRecognizerHostObject,
    /// UISwipeGestureRecognizerDirection
    pub direction: NSInteger,
    pub number_of_touches_required: NSInteger,
}

/// UISwipeGestureRecognizerDirectionRight
pub const UI_SWIPE_GESTURE_RECOGNIZER_DIRECTION_RIGHT: NSInteger = 1;

impl Default for UISwipeGestureRecognizerHostObject {
    fn default() -> (h: Self)
        ensures
            is_default_recognizer(h.gesture_recognizer),
            h.direction == UI_SWIPE_GESTURE_RECOGNIZER_DIRECTION_RIGHT,
            h.number_of_touches_required == 1,
    {
        UISwipeGestureRecognizerHostObject {
            gesture_recognizer: UIGestureRecognizerHostObject::default(),
            direction: UI_SWIPE_GESTURE_RECOGNIZER_DIRECTION_RIGHT,
            number_of_touches_required: 1,
        }
    }
}

impl UISwipeGestureRecognizerHostObject {
    /// `initWithCoder:` (after the generic recognizer's decoding) given the
    /// values present in the archive.
    pub fn init_with_coder(&mut self, direction: Option<NSInteger>, touches: Option<NSInteger>)
        ensures
            final(self).gesture_recognizer == old(self).gesture_recognizer,
            final(self).direction == decoded_or(direction, old(self).direction),
            final(self).number_of_touches_required == decoded_or(
                touches,
                old(self).number_of_touches_required,
            ),
    {
        if let Some(d) = direction {
            self.direction = d;
        }
        if let Some(t) = touches {
            self.number_of_touches_required = t;
        }
    }
}

/// Also the host object of `UIRotationGestureRecognizer`, whose rotation is
/// kept in `scale`.
pub struct UIPinchGestureRecognizerHostObject {
    pub gesture_recognizer: UIGestureRecognizerHostObject,
    /// Bit pattern of the `f32` scale.
    pub scale_bits: u32,
    /// Bit pattern of the `f32` velocity.
    pub velocity_bits: u32,
}

impl Default for UIPinchGestureRecognizerHostObject {
    fn default() -> (h: Self)
        ensures
            is_default_recognizer(h.gesture_recognizer),
            h.scale_bits == F32_ONE_BITS,
            h.velocity_bits == 0,
    {
        UIPinchGestureRecognizerHostObject {
            gesture_recognizer: UIGestureRecognizerHostObject::default(),
            scale_bits: F32_ONE_BITS,
            velocity_bits: 0,
        }
    }
}

pub struct UIPanGestureRecognizerHostObject {
    pub gesture_recognizer: UIGestureRecognizerHostObject,
    /// Bit patterns of the translation's `f32` x and y.
    pub translation_bits: (u32, u32),
    /// Bit patterns of the velocity's `f32` x and y.
    pub velocity_bits: (u32, u32),
    pub minimum_number_of_touches: NSInteger,
    pub maximum_number_of_touches: NSInteger,
}

impl Default for UIPanGestureRecognizerHostObject {
    fn default() -> (h: Self)
        ensures
            is_default_recognizer(h.gesture_recognizer),
            h.translation_bits == (0u32, 0u32),
            h.velocity_bits == (0u32, 0u32),
            h.minimum_number_of_touches == 1,
            h.maximum_number_of_touches == i32::MAX,
    {
        UIPanGestureRecognizerHostObject {
            gesture_recognizer: UIGestureRecognizerHostObject::default(),
            translation_bits: (0, 0),
            velocity_bits: (0, 0),
            minimum_number_of_touches: 1,
            maximum_number_of_touches: i32::MAX,
        }
    }
}

impl UIPanGestureRecognizerHostObject {
    /// `initWithCoder:` (after the generic recognizer's decoding) given the
    /// touch counts present in the archive.
    pub fn init_with_coder(&mut self, min: Option<NSInteger>, max: Option<NSInteger>)
        ensures
            final(self).gesture_recognizer == old(self).gesture_recognizer,
            final(self).translation_bits == old(self).translation_bits,
            final(self).velocity_bits == old(self).velocity_bits,
            final(self).minimum_number_of_touches == decoded_or(min, old(self).minimum_number_of_touches),
            final(self).maximum_number_of_touches == decoded_or(max, old(self).maximum_number_of_touches),
    {
        if let Some(m) = min {
            self.minimum_number_of_touches = m;
        }
        if let Some(m) = max {
            self.maximum_number_of_touches = m;
        }
    }
}

/// Removing the target after adding one gives the recognizer back its
/// target-less state, whatever target and action were added.
pub proof fn lemma_remove_undoes_add(h: UIGestureRecognizerHostObject, target: Id, action: Sel)
    requires
        h.target == NIL,
        h.action is None,
    ensures
        (UIGestureRecognizerHostObject {
            target: NIL,
            action: None,
            ..(UIGestureRecognizerHostObject { target, action: action_of(action), ..h })
        }) == h,
{
}

} // verus!
