//! `UIScrollView`.
//!
//! The content offset and size are `CGFloat` pairs (`f32` on the guest);
//! the view only stores them here, so they are kept as bit patterns. The
//! scrolling arithmetic on them is the runtime's.

use vstd::prelude::*;
use crate::guest::{Id, NIL};

verus! {

pub struct UIScrollViewHostObject {
    /// UIScrollViewDelegate, weak reference
    pub delegate: Id,
    pub scroll_enabled: bool,
    /// Bit patterns of the offset's `f32` x and y.
    pub content_offset_bits: (u32, u32),
    /// Bit patterns of the size's `f32` width and height.
    pub content_size_bits: (u32, u32),
}

impl Default for UIScrollViewHostObject {
    fn default() -> (h: Self)
        ensures
            h.delegate == NIL,
            h.scroll_enabled,
            h.content_offset_bits == (0u32, 0u32),
            h.content_size_bits == (0u32, 0u32),
    {
        UIScrollViewHostObject {
            delegate: NIL,
            scroll_enabled: true,
            content_offset_bits: (0, 0),
            content_size_bits: (0, 0),
        }
    }
}

impl UIScrollViewHostObject {
    /// `initWithCoder:` given the decoded content size and offset (present
    /// if the archive holds them) and the `UIScrollDisabled` flag (false if
    /// absent). Returns whether the content offset was set, which also moves
    /// the view's bounds origin (the runtime's part).
    pub fn init_with_coder(
        &mut self,
        content_size_bits: Option<(u32, u32)>,
        content_offset_bits: Option<(u32, u32)>,
        scroll_disabled: bool,
    ) -> (offset_set: bool)
        ensures
            offset_set == content_offset_bits is Some,
            final(self).content_size_bits == (match content_size_bits {
                Some(s) => s,
                None => old(self).content_size_bits,
            }),
            final(self).content_offset_bits == (match content_offset_bits {
                Some(o) => o,
                None => old(self).content_offset_bits,
            }),
            final(self).scroll_enabled == !scroll_disabled,
            final(self).delegate == old(self).delegate,
    {
        if let Some(s) = content_size_bits {
            self.content_size_bits = s;
        }
        let offset_set = match content_offset_bits {
            Some(o) => {
                self.content_offset_bits = o;
                true
            },
            None => false,
        };
        self.scroll_enabled = !scroll_disabled;
        offset_set
    }
}

} // verus!
