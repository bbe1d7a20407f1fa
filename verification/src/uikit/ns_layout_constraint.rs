//! `NSLayoutConstraint`, as loaded from NIBs (constraints are stored, not
//! applied).
//!
//! Multiplier, constant and priority are `f32`s that are only stored, kept
//! as their bit patterns.

use vstd::prelude::*;
use crate::guest::{Id, NIL, NSInteger, decoded_or};

verus! {

// NSLayoutRelation
pub type NSLayoutRelation = NSInteger;
pub const NS_LAYOUT_RELATION_LESS_THAN_OR_EQUAL: NSLayoutRelation = -1;
pub const NS_LAYOUT_RELATION_EQUAL: NSLayoutRelation = 0;
pub const NS_LAYOUT_RELATION_GREATER_THAN_OR_EQUAL: NSLayoutRelation = 1;

// NSLayoutAttribute
pub type NSLayoutAttribute = NSInteger;
pub const NS_LAYOUT_ATTRIBUTE_LEFT: NSLayoutAttribute = 1;
pub const NS_LAYOUT_ATTRIBUTE_RIGHT: NSLayoutAttribute = 2;
pub const NS_LAYOUT_ATTRIBUTE_TOP: NSLayoutAttribute = 3;
pub const NS_LAYOUT_ATTRIBUTE_BOTTOM: NSLayoutAttribute = 4;
pub const NS_LAYOUT_ATTRIBUTE_LEADING: NSLayoutAttribute = 5;
pub const NS_LAYOUT_ATTRIBUTE_TRAILING: NSLayoutAttribute = 6;
pub const NS_LAYOUT_ATTRIBUTE_WIDTH: NSLayoutAttribute = 7;
pub const NS_LAYOUT_ATTRIBUTE_HEIGHT: NSLayoutAttribute = 8;
pub const NS_LAYOUT_ATTRIBUTE_CENTER_X: NSLayoutAttribute = 9;
pub const NS_LAYOUT_ATTRIBUTE_CENTER_Y: NSLayoutAttribute = 10;
pub const NS_LAYOUT_ATTRIBUTE_BASELINE: NSLayoutAttribute = 11;
pub const NS_LAYOUT_ATTRIBUTE_NOT_AN_ATTRIBUTE: NSLayoutAttribute = 0;

/// Bit pattern of the `f32` 1000.0, `UILayoutPriorityRequired`.
pub const UI_LAYOUT_PRIORITY_REQUIRED_BITS: u32 = 0x447a0000;
/// Bit pattern of the `f32` 1.0.
pub const MULTIPLIER_ONE_BITS: u32 = 0x3f800000;

pub struct NSLayoutConstraintHostObject {
    /// `UIView*` (weak)
    pub first_item: Id,
    pub first_attribute: NSLayoutAttribute,
    pub relation: NSLayoutRelation,
    /// `UIView*` (weak)
    pub second_item: Id,
    pub second_attribute: NSLayoutAttribute,
    /// Bit pattern of the `f32` multiplier.
    pub multiplier_bits: u32,
    /// Bit pattern of the `f32` constant.
    pub constant_bits: u32,
    /// Bit pattern of the `f32` priority.
    pub priority_bits: u32,
    pub should_be_archived: bool,
    pub active: bool,
}

impl Default for NSLayoutConstraintHostObject {
    fn default() -> (h: Self)
        ensures
            h.first_item == NIL,
            h.first_attribute == NS_LAYOUT_ATTRIBUTE_NOT_AN_ATTRIBUTE,
            h.relation == NS_LAYOUT_RELATION_EQUAL,
            h.second_item == NIL,
            h.second_attribute == NS_LAYOUT_ATTRIBUTE_NOT_AN_ATTRIBUTE,
            h.multiplier_bits == MULTIPLIER_ONE_BITS,
            h.constant_bits == 0,
            h.priority_bits == UI_LAYOUT_PRIORITY_REQUIRED_BITS,
            h.should_be_archived,
            !h.active,
    {
        NSLayoutConstraintHostObject {
            first_item: NIL,
            first_attribute: NS_LAYOUT_ATTRIBUTE_NOT_AN_ATTRIBUTE,
            relation: NS_LAYOUT_RELATION_EQUAL,
            second_item: NIL,
            second_attribute: NS_LAYOUT_ATTRIBUTE_NOT_AN_ATTRIBUTE,
            multiplier_bits: MULTIPLIER_ONE_BITS,
            constant_bits: 0,
            priority_bits: UI_LAYOUT_PRIORITY_REQUIRED_BITS,
            should_be_archived: true,
            active: false,
        }
    }
}

impl NSLayoutConstraintHostObject {
    /// `initWithCoder:` given the decoded values: the two items (weak; nil
    /// if absent, stored either way) and the attributes, relation,
    /// multiplier, constant and priority present in the archive.
    pub fn init_with_coder(
        &mut self,
        first_item: Id,
        first_attribute: Option<NSLayoutAttribute>,
        relation: Option<NSLayoutRelation>,
        second_item: Id,
        second_attribute: Option<NSLayoutAttribute>,
        multiplier_bits: Option<u32>,
        constant_bits: Option<u32>,
        priority_bits: Option<u32>,
    )
        ensures
            *final(self) == (NSLayoutConstraintHostObject {
                first_item,
                first_attribute: decoded_or(first_attribute, old(self).first_attribute),
                relation: decoded_or(relation, old(self).relation),
                second_item,
                second_attribute: decoded_or(second_attribute, old(self).second_attribute),
                multiplier_bits: decoded_or(multiplier_bits, old(self).multiplier_bits),
                constant_bits: decoded_or(constant_bits, old(self).constant_bits),
                priority_bits: decoded_or(priority_bits, old(self).priority_bits),
                ..*old(self)
            }),
    {
        self.first_item = first_item;
        if let Some(a) = first_attribute {
            self.first_attribute = a;
        }
        if let Some(r) = relation {
            self.relation = r;
        }
        self.second_item = second_item;
        if let Some(a) = second_attribute {
            self.second_attribute = a;
        }
        if let Some(m) = multiplier_bits {
            self.multiplier_bits = m;
        }
        if let Some(c) = constant_bits {
            self.constant_bits = c;
        }
        if let Some(p) = priority_bits {
            self.priority_bits = p;
        }
    }
}

} // verus!
