//! `UIActivityIndicatorView`.

use vstd::prelude::*;
use crate::guest::{NSInteger, decoded_or};

verus! {

pub type UIActivityIndicatorViewStyle = NSInteger;
pub const UI_ACTIVITY_INDICATOR_VIEW_STYLE_WHITE_LARGE: UIActivityIndicatorViewStyle = 0;
pub const UI_ACTIVITY_INDICATOR_VIEW_STYLE_WHITE: UIActivityIndicatorViewStyle = 1;
pub const UI_ACTIVITY_INDICATOR_VIEW_STYLE_GRAY: UIActivityIndicatorViewStyle = 2;

pub struct UIActivityIndicatorViewHostObject {
    pub style: UIActivityIndicatorViewStyle,
    pub animating: bool,
    pub hides_when_stopped: bool,
}

impl Default for UIActivityIndicatorViewHostObject {
    fn default() -> (h: Self)
        ensures
            h.style == UI_ACTIVITY_INDICATOR_VIEW_STYLE_WHITE,
            !h.animating,
            h.hides_when_stopped,
    {
        UIActivityIndicatorViewHostObject {
            style: UI_ACTIVITY_INDICATOR_VIEW_STYLE_WHITE,
            animating: false,
            hides_when_stopped: true,
        }
    }
}

impl UIActivityIndicatorViewHostObject {
    /// `initWithActivityIndicatorStyle:` (the view itself gets a 20x20
    /// frame from the runtime).
    pub fn init_with_activity_indicator_style(&mut self, style: UIActivityIndicatorViewStyle)
        ensures
            final(self).style == style,
            final(self).animating == old(self).animating,
            final(self).hides_when_stopped == old(self).hides_when_stopped,
    {
        self.style = style;
    }

    /// `initWithCoder:` given the values present in the archive.
    pub fn init_with_coder(
        &mut self,
        style: Option<UIActivityIndicatorViewStyle>,
        hides_when_stopped: Option<bool>,
        animating: Option<bool>,
    )
        ensures
            final(self).style == decoded_or(style, old(self).style),
            final(self).hides_when_stopped == decoded_or(
                hides_when_stopped,
                old(self).hides_when_stopped,
            ),
            final(self).animating == decoded_or(animating, old(self).animating),
    {
        if let Some(s) = style {
            self.style = s;
        }
        if let Some(h) = hides_when_stopped {
            self.hides_when_stopped = h;
        }
        if let Some(a) = animating {
            self.animating = a;
        }
    }

    /// `startAnimating`.
    pub fn start_animating(&mut self)
        ensures
            final(self).animating,
            final(self).style == old(self).style,
            final(self).hides_when_stopped == old(self).hides_when_stopped,
    {
        self.animating = true;
    }

    /// `stopAnimating`.
    pub fn stop_animating(&mut self)
        ensures
            !final(self).animating,
            final(self).style == old(self).style,
            final(self).hides_when_stopped == old(self).hides_when_stopped,
    {
        self.animating = false;
    }
}

} // verus!
