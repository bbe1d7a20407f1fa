//! `UIProgressView`.
//!
//! The progress is an `f32`, kept as its bit pattern; clamping it to 0..=1
//! on `setProgress:` is floating-point work the runtime does.

use vstd::prelude::*;
use crate::guest::{Id, NIL, NSInteger, RefOp, decoded_or, nonnil_or, release_unless_nil, retain_unless_nil, replace_retained};

verus! {

// UIProgressViewStyle
pub type UIProgressViewStyle = NSInteger;
pub const UI_PROGRESS_VIEW_STYLE_DEFAULT: UIProgressViewStyle = 0;
pub const UI_PROGRESS_VIEW_STYLE_BAR: UIProgressViewStyle = 1;

pub struct UIProgressViewHostObject {
    pub style: UIProgressViewStyle,
    /// Bit pattern of the `f32` progress.
    pub progress_bits: u32,
    /// `UIColor*`
    pub progress_tint_color: Id,
    /// `UIColor*`
    pub track_tint_color: Id,
}

impl Default for UIProgressViewHostObject {
    fn default() -> (h: Self)
        ensures
            h.style == UI_PROGRESS_VIEW_STYLE_DEFAULT,
            h.progress_bits == 0,
            h.progress_tint_color == NIL,
            h.track_tint_color == NIL,
    {
        UIProgressViewHostObject {
            style: UI_PROGRESS_VIEW_STYLE_DEFAULT,
            progress_bits: 0,
            progress_tint_color: NIL,
            track_tint_color: NIL,
        }
    }
}

impl UIProgressViewHostObject {
    /// `initWithProgressViewStyle:` (the view gets a 150x9 frame from the
    /// runtime).
    pub fn init_with_progress_view_style(&mut self, style: UIProgressViewStyle)
        ensures
            *final(self) == (UIProgressViewHostObject { style, ..*old(self) }),
    {
        self.style = style;
    }

    /// `initWithCoder:` given the style and progress present in the archive
    /// and the tint colors (nil if absent; retained otherwise).
    pub fn init_with_coder(
        &mut self,
        style: Option<UIProgressViewStyle>,
        progress_bits: Option<u32>,
        progress_tint: Id,
        track_tint: Id,
    ) -> (ops: Vec<RefOp>)
        ensures
            ops@ == retain_unless_nil(progress_tint) + retain_unless_nil(track_tint),
            *final(self) == (UIProgressViewHostObject {
                style: decoded_or(style, old(self).style),
                progress_bits: decoded_or(progress_bits, old(self).progress_bits),
                progress_tint_color: nonnil_or(progress_tint, old(self).progress_tint_color),
                track_tint_color: nonnil_or(track_tint, old(self).track_tint_color),
            }),
    {
        if let Some(s) = style {
            self.style = s;
        }
        if let Some(p) = progress_bits {
            self.progress_bits = p;
        }
        let mut ops: Vec<RefOp> = Vec::new();
        if progress_tint != NIL {
            ops.push(RefOp::Retain(progress_tint));
            self.progress_tint_color = progress_tint;
        }
        if track_tint != NIL {
            ops.push(RefOp::Retain(track_tint));
            self.track_tint_color = track_tint;
        }
        proof {
            assert(ops@ =~= retain_unless_nil(progress_tint) + retain_unless_nil(track_tint));
        }
        ops
    }

    /// `setProgressTintColor:` (retained).
    pub fn set_progress_tint_color(&mut self, color: Id) -> (ops: Vec<RefOp>)
        ensures
            *final(self) == (UIProgressViewHostObject { progress_tint_color: color, ..*old(self) }),
            ops@ == release_unless_nil(old(self).progress_tint_color) + retain_unless_nil(color),
    {
        replace_retained(&mut self.progress_tint_color, color)
    }

    /// `setTrackTintColor:` (retained).
    pub fn set_track_tint_color(&mut self, color: Id) -> (ops: Vec<RefOp>)
        ensures
            *final(self) == (UIProgressViewHostObject { track_tint_color: color, ..*old(self) }),
            ops@ == release_unless_nil(old(self).track_tint_color) + retain_unless_nil(color),
    {
        replace_retained(&mut self.track_tint_color, color)
    }

    /// What `dealloc` releases: both tint colors (nil ones skipped).
    pub fn dealloc_releases(&self) -> (ops: Vec<RefOp>)
        ensures
            ops@ == release_unless_nil(self.progress_tint_color) + release_unless_nil(
                self.track_tint_color,
            ),
    {
        let mut ops: Vec<RefOp> = Vec::new();
        if self.progress_tint_color != NIL {
            ops.push(RefOp::Release(self.progress_tint_color));
        }
        if self.track_tint_color != NIL {
            ops.push(RefOp::Release(self.track_tint_color));
        }
        proof {
            assert(ops@ =~= release_unless_nil(self.progress_tint_color) + release_unless_nil(
                self.track_tint_color,
            ));
        }
        ops
    }
}

} // verus!
