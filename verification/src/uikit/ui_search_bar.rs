//! `UISearchBar`.

use vstd::prelude::*;
use crate::guest::{
    Id, NIL, RefOp, decoded_or, nonnil_or, release_unless_nil, retain_unless_nil, replace_retained,
};

verus! {

// UIBarStyle
pub type UIBarStyle = i32;
pub const UI_BAR_STYLE_DEFAULT: UIBarStyle = 0;
pub const UI_BAR_STYLE_BLACK: UIBarStyle = 1;

pub struct UISearchBarHostObject {
    pub bar_style: UIBarStyle,
    /// `NSString*`
    pub text: Id,
    /// `NSString*`
    pub placeholder: Id,
    /// `NSString*`
    pub prompt: Id,
    /// weak reference
    pub delegate: Id,
    /// `UIColor*`
    pub tint_color: Id,
    pub shows_cancel_button: bool,
    pub shows_search_results_button: bool,
    pub translucent: bool,
}

impl Default for UISearchBarHostObject {
    fn default() -> (h: Self)
        ensures
            h.bar_style == UI_BAR_STYLE_DEFAULT,
            h.text == NIL,
            h.placeholder == NIL,
            h.prompt == NIL,
            h.delegate == NIL,
            h.tint_color == NIL,
            !h.shows_cancel_button,
            !h.shows_search_results_button,
            !h.translucent,
    {
        UISearchBarHostObject {
            bar_style: UI_BAR_STYLE_DEFAULT,
            text: NIL,
            placeholder: NIL,
            prompt: NIL,
            delegate: NIL,
            tint_color: NIL,
            shows_cancel_button: false,
            shows_search_results_button: false,
            translucent: false,
        }
    }
}

/// Which retained string or color property of a search bar a setter sets.
#[derive(Clone, Copy, Debug, PartialEq, Eq, Structural)]
pub enum SearchBarObjectProperty {
    Text,
    Placeholder,
    Prompt,
    TintColor,
}

/// The search bar's value of a retained property.
pub open spec fn property_of(h: &UISearchBarHostObject, p: SearchBarObjectProperty) -> Id {
    match p {
        SearchBarObjectProperty::Text => h.text,
        SearchBarObjectProperty::Placeholder => h.placeholder,
        SearchBarObjectProperty::Prompt => h.prompt,
        SearchBarObjectProperty::TintColor => h.tint_color,
    }
}

impl UISearchBarHostObject {
    /// `initWithCoder:` given the decoded values: bar style and "shows
    /// cancel button" present in the archive, and the text, placeholder,
    /// prompt and tint color objects (nil if absent; retained otherwise).
    pub fn init_with_coder(
        &mut self,
        bar_style: Option<UIBarStyle>,
        text: Id,
        placeholder: Id,
        prompt: Id,
        tint_color: Id,
        shows_cancel: Option<bool>,
    ) -> (ops: Vec<RefOp>)
        ensures
            ops@ == retain_unless_nil(text) + retain_unless_nil(placeholder) + retain_unless_nil(
                prompt,
            ) + retain_unless_nil(tint_color),
            final(self).bar_style == decoded_or(bar_style, old(self).bar_style),
            final(self).text == nonnil_or(text, old(self).text),
            final(self).placeholder == nonnil_or(placeholder, old(self).placeholder),
            final(self).prompt == nonnil_or(prompt, old(self).prompt),
            final(self).tint_color == nonnil_or(tint_color, old(self).tint_color),
            final(self).shows_cancel_button == decoded_or(shows_cancel, old(self).shows_cancel_button),
            final(self).delegate == old(self).delegate,
            final(self).shows_search_results_button == old(self).shows_search_results_button,
            final(self).translucent == old(self).translucent,
    {
        if let Some(s) = bar_style {
            self.bar_style = s;
        }
        let mut ops: Vec<RefOp> = Vec::new();
        if text != NIL {
            ops.push(RefOp::Retain(text));
            self.text = text;
        }
        if placeholder != NIL {
            ops.push(RefOp::Retain(placeholder));
            self.placeholder = placeholder;
        }
        if prompt != NIL {
            ops.push(RefOp::Retain(prompt));
            self.prompt = prompt;
        }
        if tint_color != NIL {
            ops.push(RefOp::Retain(tint_color));
            self.tint_color = tint_color;
        }
        if let Some(s) = shows_cancel {
            self.shows_cancel_button = s;
        }
        proof {
            assert(ops@ =~= retain_unless_nil(text) + retain_unless_nil(placeholder)
                + retain_unless_nil(prompt) + retain_unless_nil(tint_color));
        }
        ops
    }

    /// `setText:`, `setPlaceholder:`, `setPrompt:` and `setTintColor:`: the
    /// new value is retained, the old one released; the other properties
    /// keep their values.
    pub fn set_object_property(&mut self, property: SearchBarObjectProperty, value: Id) -> (ops: Vec<
        RefOp,
    >)
        ensures
            property_of(final(self), property) == value,
            ops@ == release_unless_nil(property_of(old(self), property)) + retain_unless_nil(value),
            forall|p: SearchBarObjectProperty|
                p != property ==> property_of(final(self), p) == property_of(old(self), p),
            final(self).bar_style == old(self).bar_style,
            final(self).delegate == old(self).delegate,
            final(self).shows_cancel_button == old(self).shows_cancel_button,
            final(self).shows_search_results_button == old(self).shows_search_results_button,
            final(self).translucent == old(self).translucent,
    {
        match property {
            SearchBarObjectProperty::Text => replace_retained(&mut self.text, value),
            SearchBarObjectProperty::Placeholder => replace_retained(&mut self.placeholder, value),
            SearchBarObjectProperty::Prompt => replace_retained(&mut self.prompt, value),
            SearchBarObjectProperty::TintColor => replace_retained(&mut self.tint_color, value),
        }
    }

    /// What `dealloc` releases: text, placeholder, prompt, tint color (nil
    /// ones skipped).
    pub fn dealloc_releases(&self) -> (ops: Vec<RefOp>)
        ensures
            ops@ == release_unless_nil(self.text) + release_unless_nil(self.placeholder)
                + release_unless_nil(self.prompt) + release_unless_nil(self.tint_color),
    {
        let mut ops: Vec<RefOp> = Vec::new();
        if self.text != NIL {
            ops.push(RefOp::Release(self.text));
        }
        if self.placeholder != NIL {
            ops.push(RefOp::Release(self.placeholder));
        }
        if self.prompt != NIL {
            ops.push(RefOp::Release(self.prompt));
        }
        if self.tint_color != NIL {
            ops.push(RefOp::Release(self.tint_color));
        }
        proof {
            assert(ops@ =~= release_unless_nil(self.text) + release_unless_nil(self.placeholder)
                + release_unless_nil(self.prompt) + release_unless_nil(self.tint_color));
        }
        ops
    }
}

} // verus!
