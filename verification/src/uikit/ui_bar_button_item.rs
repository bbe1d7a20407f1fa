//! `UIBarButtonItem`.
//!
//! The item's width is a `CGFloat` (`f32` on the guest) that it only
//! stores, kept as its bit pattern.

use vstd::prelude::*;
use crate::guest::{
    Id, NIL, NSInteger, RefOp, Sel, decoded_or, nonnil_or, release_unless_nil, retain_unless_nil,
    replace_retained,
};
use crate::uikit::ui_gesture_recognizer::action_of;

verus! {

// UIBarButtonItemStyle
pub type UIBarButtonItemStyle = NSInteger;
pub const UI_BAR_BUTTON_ITEM_STYLE_PLAIN: UIBarButtonItemStyle = 0;
pub const UI_BAR_BUTTON_ITEM_STYLE_BORDERED: UIBarButtonItemStyle = 1;
pub const UI_BAR_BUTTON_ITEM_STYLE_DONE: UIBarButtonItemStyle = 2;

// UIBarButtonSystemItem
pub type UIBarButtonSystemItem = NSInteger;
pub const UI_BAR_BUTTON_SYSTEM_ITEM_DONE: UIBarButtonSystemItem = 0;
pub const UI_BAR_BUTTON_SYSTEM_ITEM_CANCEL: UIBarButtonSystemItem = 1;
pub const UI_BAR_BUTTON_SYSTEM_ITEM_EDIT: UIBarButtonSystemItem = 2;
pub const UI_BAR_BUTTON_SYSTEM_ITEM_SAVE: UIBarButtonSystemItem = 3;
pub const UI_BAR_BUTTON_SYSTEM_ITEM_ADD: UIBarButtonSystemItem = 4;
pub const UI_BAR_BUTTON_SYSTEM_ITEM_FLEXIBLE_SPACE: UIBarButtonSystemItem = 5;
pub const UI_BAR_BUTTON_SYSTEM_ITEM_FIXED_SPACE: UIBarButtonSystemItem = 6;
pub const UI_BAR_BUTTON_SYSTEM_ITEM_COMPOSE: UIBarButtonSystemItem = 7;
pub const UI_BAR_BUTTON_SYSTEM_ITEM_REPLY: UIBarButtonSystemItem = 8;
pub const UI_BAR_BUTTON_SYSTEM_ITEM_ACTION: UIBarButtonSystemItem = 9;
pub const UI_BAR_BUTTON_SYSTEM_ITEM_ORGANIZE: UIBarButtonSystemItem = 10;
pub const UI_BAR_BUTTON_SYSTEM_ITEM_BOOKMARKS: UIBarButtonSystemItem = 11;
pub const UI_BAR_BUTTON_SYSTEM_ITEM_SEARCH: UIBarButtonSystemItem = 12;
pub const UI_BAR_BUTTON_SYSTEM_ITEM_REFRESH: UIBarButtonSystemItem = 13;
pub const UI_BAR_BUTTON_SYSTEM_ITEM_STOP: UIBarButtonSystemItem = 14;
pub const UI_BAR_BUTTON_SYSTEM_ITEM_CAMERA: UIBarButtonSystemItem = 15;
pub const UI_BAR_BUTTON_SYSTEM_ITEM_TRASH: UIBarButtonSystemItem = 16;
pub const UI_BAR_BUTTON_SYSTEM_ITEM_PLAY: UIBarButtonSystemItem = 17;
pub const UI_BAR_BUTTON_SYSTEM_ITEM_PAUSE: UIBarButtonSystemItem = 18;
pub const UI_BAR_BUTTON_SYSTEM_ITEM_REWIND: UIBarButtonSystemItem = 19;
pub const UI_BAR_BUTTON_SYSTEM_ITEM_FAST_FORWARD: UIBarButtonSystemItem = 20;
pub const UI_BAR_BUTTON_SYSTEM_ITEM_UNDO: UIBarButtonSystemItem = 21;
pub const UI_BAR_BUTTON_SYSTEM_ITEM_REDO: UIBarButtonSystemItem = 22;
pub const UI_BAR_BUTTON_SYSTEM_ITEM_PAGE_CURL: UIBarButtonSystemItem = 23;

pub struct UIBarButtonItemHostObject {
    /// `NSString*`
    pub title: Id,
    /// `UIImage*`
    pub image: Id,
    /// `UIView*`
    pub custom_view: Id,
    /// weak reference
    pub target: Id,
    pub action: Option<Sel>,
    pub style: UIBarButtonItemStyle,
    /// Bit pattern of the `f32` width.
    pub width_bits: u32,
    pub enabled: bool,
    /// `UIColor*`
    pub tint_color: Id,
    pub system_item: Option<UIBarButtonSystemItem>,
}

impl Default for UIBarButtonItemHostObject {
    fn default() -> (h: Self)
        ensures
            h.title == NIL,
            h.image == NIL,
            h.custom_view == NIL,
            h.target == NIL,
            h.action is None,
            h.style == UI_BAR_BUTTON_ITEM_STYLE_PLAIN,
            h.width_bits == 0,
            h.enabled,
            h.tint_color == NIL,
            h.system_item is None,
    {
        UIBarButtonItemHostObject {
            title: NIL,
            image: NIL,
            custom_view: NIL,
            target: NIL,
            action: None,
            style: UI_BAR_BUTTON_ITEM_STYLE_PLAIN,
            width_bits: 0,
            enabled: true,
            tint_color: NIL,
            system_item: None,
        }
    }
}

/// The default title of a system bar button item (empty for the items shown
/// as icons or spaces).
pub open spec fn spec_bar_system_item_title(system_item: UIBarButtonSystemItem) -> Seq<char> {
    if system_item == UI_BAR_BUTTON_SYSTEM_ITEM_DONE {
        "Done"@
    } else if system_item == UI_BAR_BUTTON_SYSTEM_ITEM_CANCEL {
        "Cancel"@
    } else if system_item == UI_BAR_BUTTON_SYSTEM_ITEM_EDIT {
        "Edit"@
    } else if system_item == UI_BAR_BUTTON_SYSTEM_ITEM_SAVE {
        "Save"@
    } else if system_item == UI_BAR_BUTTON_SYSTEM_ITEM_ADD {
        "+"@
    } else if system_item == UI_BAR_BUTTON_SYSTEM_ITEM_UNDO {
        "Undo"@
    } else if system_item == UI_BAR_BUTTON_SYSTEM_ITEM_REDO {
        "Redo"@
    } else {
        ""@
    }
}

/// Whether a system bar button item has a default title.
pub open spec fn has_bar_system_item_title(system_item: UIBarButtonSystemItem) -> bool {
    ||| UI_BAR_BUTTON_SYSTEM_ITEM_DONE <= system_item <= UI_BAR_BUTTON_SYSTEM_ITEM_ADD
    ||| system_item == UI_BAR_BUTTON_SYSTEM_ITEM_UNDO
    ||| system_item == UI_BAR_BUTTON_SYSTEM_ITEM_REDO
}

/// The default title of a system bar button item (empty for the items shown
/// as icons or spaces).
pub fn bar_system_item_title(system_item: UIBarButtonSystemItem) -> (s: &'static str)
    ensures
        s@ == spec_bar_system_item_title(system_item),
{
    match system_item {
        UI_BAR_BUTTON_SYSTEM_ITEM_DONE => "Done",
        UI_BAR_BUTTON_SYSTEM_ITEM_CANCEL => "Cancel",
        UI_BAR_BUTTON_SYSTEM_ITEM_EDIT => "Edit",
        UI_BAR_BUTTON_SYSTEM_ITEM_SAVE => "Save",
        UI_BAR_BUTTON_SYSTEM_ITEM_ADD => "+",
        UI_BAR_BUTTON_SYSTEM_ITEM_UNDO => "Undo",
        UI_BAR_BUTTON_SYSTEM_ITEM_REDO => "Redo",
        _ => "",
    }
}

impl UIBarButtonItemHostObject {
    /// `initWithTitle:style:target:action:` (a non-nil title is retained;
    /// a null action is no action).
    pub fn init_with_title(&mut self, title: Id, style: UIBarButtonItemStyle, target: Id, action: Sel) -> (ops:
        Vec<RefOp>)
        ensures
            ops@ == retain_unless_nil(title),
            *final(self) == (UIBarButtonItemHostObject {
                title,
                style,
                target,
                action: action_of(action),
                ..*old(self)
            }),
    {
        let mut ops: Vec<RefOp> = Vec::new();
        if title != NIL {
            ops.push(RefOp::Retain(title));
        }
        self.title = title;
        self.style = style;
        self.target = target;
        self.action = if action == 0 {
            None
        } else {
            Some(action)
        };
        proof {
            assert(ops@ =~= retain_unless_nil(title));
        }
        ops
    }

    /// `initWithImage:style:target:action:` (a non-nil image is retained).
    pub fn init_with_image(&mut self, image: Id, style: UIBarButtonItemStyle, target: Id, action: Sel) -> (ops:
        Vec<RefOp>)
        ensures
            ops@ == retain_unless_nil(image),
            *final(self) == (UIBarButtonItemHostObject {
                image,
                style,
                target,
                action: action_of(action),
                ..*old(self)
            }),
    {
        let mut ops: Vec<RefOp> = Vec::new();
        if image != NIL {
            ops.push(RefOp::Retain(image));
        }
        self.image = image;
        self.style = style;
        self.target = target;
        self.action = if action == 0 {
            None
        } else {
            Some(action)
        };
        proof {
            assert(ops@ =~= retain_unless_nil(image));
        }
        ops
    }

    /// `initWithBarButtonSystemItem:target:action:`: records the system
    /// item, target and action, and returns the default title the runtime is
    /// to create as a string (None when the item has none); see
    /// `adopt_title`.
    pub fn init_with_bar_button_system_item(
        &mut self,
        system_item: UIBarButtonSystemItem,
        target: Id,
        action: Sel,
    ) -> (title: Option<&'static str>)
        ensures
            *final(self) == (UIBarButtonItemHostObject {
                system_item: Some(system_item),
                target,
                action: action_of(action),
                ..*old(self)
            }),
            has_bar_system_item_title(system_item) ==> (title matches Some(t) && t@
                == spec_bar_system_item_title(system_item)),
            !has_bar_system_item_title(system_item) ==> title is None,
    {
        self.system_item = Some(system_item);
        self.target = target;
        self.action = if action == 0 {
            None
        } else {
            Some(action)
        };
        let title_str = bar_system_item_title(system_item);
        if (UI_BAR_BUTTON_SYSTEM_ITEM_DONE <= system_item && system_item <= UI_BAR_BUTTON_SYSTEM_ITEM_ADD)
            || system_item == UI_BAR_BUTTON_SYSTEM_ITEM_UNDO || system_item == UI_BAR_BUTTON_SYSTEM_ITEM_REDO {
            Some(title_str)
        } else {
            None
        }
    }

    /// Stores the title string the runtime created for a system item (the
    /// item owns the new string).
    pub fn adopt_title(&mut self, title: Id)
        ensures
            *final(self) == (UIBarButtonItemHostObject { title, ..*old(self) }),
    {
        self.title = title;
    }

    /// `initWithCustomView:` (a non-nil view is retained and stored).
    pub fn init_with_custom_view(&mut self, custom_view: Id) -> (ops: Vec<RefOp>)
        ensures
            ops@ == retain_unless_nil(custom_view),
            *final(self) == (UIBarButtonItemHostObject {
                custom_view: nonnil_or(custom_view, old(self).custom_view),
                ..*old(self)
            }),
    {
        let mut ops: Vec<RefOp> = Vec::new();
        if custom_view != NIL {
            ops.push(RefOp::Retain(custom_view));
            self.custom_view = custom_view;
        }
        proof {
            assert(ops@ =~= retain_unless_nil(custom_view));
        }
        ops
    }

    /// `initWithCoder:` given the decoded objects (nil if absent; retained
    /// otherwise) and the style, width and enabled flag present in the
    /// archive.
    pub fn init_with_coder(
        &mut self,
        title: Id,
        image: Id,
        custom_view: Id,
        style: Option<UIBarButtonItemStyle>,
        width_bits: Option<u32>,
        enabled: Option<bool>,
    ) -> (ops: Vec<RefOp>)
        ensures
            ops@ == retain_unless_nil(title) + retain_unless_nil(image) + retain_unless_nil(
                custom_view,
            ),
            *final(self) == (UIBarButtonItemHostObject {
                title: nonnil_or(title, old(self).title),
                image: nonnil_or(image, old(self).image),
                custom_view: nonnil_or(custom_view, old(self).custom_view),
                style: decoded_or(style, old(self).style),
                width_bits: decoded_or(width_bits, old(self).width_bits),
                enabled: decoded_or(enabled, old(self).enabled),
                ..*old(self)
            }),
    {
        let mut ops: Vec<RefOp> = Vec::new();
        if title != NIL {
            ops.push(RefOp::Retain(title));
            self.title = title;
        }
        if image != NIL {
            ops.push(RefOp::Retain(image));
            self.image = image;
        }
        if custom_view != NIL {
            ops.push(RefOp::Retain(custom_view));
            self.custom_view = custom_view;
        }
        if let Some(s) = style {
            self.style = s;
        }
        if let Some(w) = width_bits {
            self.width_bits = w;
        }
        if let Some(e) = enabled {
            self.enabled = e;
        }
        proof {
            assert(ops@ =~= retain_unless_nil(title) + retain_unless_nil(image) + retain_unless_nil(
                custom_view,
            ));
        }
        ops
    }

    /// `setAction:` (a null selector is no action).
    pub fn set_action(&mut self, action: Sel)
        ensures
            *final(self) == (UIBarButtonItemHostObject { action: action_of(action), ..*old(self) }),
    {
        self.action = if action == 0 {
            None
        } else {
            Some(action)
        };
    }

    /// `action`: the stored selector, null for none.
    pub fn action(&self) -> (a: Sel)
        ensures
            a == (match self.action {
                Some(s) => s,
                None => 0,
            }),
    {
        match self.action {
            Some(s) => s,
            None => 0,
        }
    }

    /// `setTitle:` (retained).
    pub fn set_title(&mut self, title: Id) -> (ops: Vec<RefOp>)
        ensures
            *final(self) == (UIBarButtonItemHostObject { title, ..*old(self) }),
            ops@ == release_unless_nil(old(self).title) + retain_unless_nil(title),
    {
        replace_retained(&mut self.title, title)
    }

    /// `setImage:` (retained).
    pub fn set_image(&mut self, image: Id) -> (ops: Vec<RefOp>)
        ensures
            *final(self) == (UIBarButtonItemHostObject { image, ..*old(self) }),
            ops@ == release_unless_nil(old(self).image) + retain_unless_nil(image),
    {
        replace_retained(&mut self.image, image)
    }

    /// `setCustomView:` (retained).
    pub fn set_custom_view(&mut self, view: Id) -> (ops: Vec<RefOp>)
        ensures
            *final(self) == (UIBarButtonItemHostObject { custom_view: view, ..*old(self) }),
            ops@ == release_unless_nil(old(self).custom_view) + retain_unless_nil(view),
    {
        replace_retained(&mut self.custom_view, view)
    }

    /// `setTintColor:` (retained).
    pub fn set_tint_color(&mut self, color: Id) -> (ops: Vec<RefOp>)
        ensures
            *final(self) == (UIBarButtonItemHostObject { tint_color: color, ..*old(self) }),
            ops@ == release_unless_nil(old(self).tint_color) + retain_unless_nil(color),
    {
        replace_retained(&mut self.tint_color, color)
    }

    /// What `dealloc` releases: title, image, custom view, tint color (nil
    /// ones skipped).
    pub fn dealloc_releases(&self) -> (ops: Vec<RefOp>)
        ensures
            ops@ == release_unless_nil(self.title) + release_unless_nil(self.image)
                + release_unless_nil(self.custom_view) + release_unless_nil(self.tint_color),
    {
        let mut ops: Vec<RefOp> = Vec::new();
        if self.title != NIL {
            ops.push(RefOp::Release(self.title));
        }
        if self.image != NIL {
            ops.push(RefOp::Release(self.image));
        }
        if self.custom_view != NIL {
            ops.push(RefOp::Release(self.custom_view));
        }
        if self.tint_color != NIL {
            ops.push(RefOp::Release(self.tint_color));
        }
        proof {
            assert(ops@ =~= release_unless_nil(self.title) + release_unless_nil(self.image)
                + release_unless_nil(self.custom_view) + release_unless_nil(self.tint_color));
        }
        ops
    }
}

/// `action` gives back what `setAction:` stored: the selector itself, with
/// the null selector standing for no action.
pub proof fn lemma_action_round_trip(action: Sel)
    ensures
        (match action_of(action) {
            Some(s) => s,
            None => 0,
        }) == action,
{
}


/// Each titled system bar button item is titled with its own name: Done
/// "Done", Cancel "Cancel", Edit "Edit", Save "Save", Add "+", Undo "Undo",
/// Redo "Redo". No two of them share a title, and every other item has an
/// empty title.
pub proof fn lemma_bar_system_item_titles()
    ensures
        spec_bar_system_item_title(UI_BAR_BUTTON_SYSTEM_ITEM_DONE) == "Done"@,
        spec_bar_system_item_title(UI_BAR_BUTTON_SYSTEM_ITEM_CANCEL) == "Cancel"@,
        spec_bar_system_item_title(UI_BAR_BUTTON_SYSTEM_ITEM_EDIT) == "Edit"@,
        spec_bar_system_item_title(UI_BAR_BUTTON_SYSTEM_ITEM_SAVE) == "Save"@,
        spec_bar_system_item_title(UI_BAR_BUTTON_SYSTEM_ITEM_ADD) == "+"@,
        spec_bar_system_item_title(UI_BAR_BUTTON_SYSTEM_ITEM_UNDO) == "Undo"@,
        spec_bar_system_item_title(UI_BAR_BUTTON_SYSTEM_ITEM_REDO) == "Redo"@,
        forall|a: UIBarButtonSystemItem, b: UIBarButtonSystemItem|
            has_bar_system_item_title(a) && has_bar_system_item_title(b) && a != b
                ==> spec_bar_system_item_title(a) != spec_bar_system_item_title(b),
        forall|a: UIBarButtonSystemItem|
            !has_bar_system_item_title(a) ==> spec_bar_system_item_title(a) == ""@,
{
    reveal_strlit("Done");
    reveal_strlit("Cancel");
    reveal_strlit("Edit");
    reveal_strlit("Save");
    reveal_strlit("+");
    reveal_strlit("Undo");
    reveal_strlit("Redo");
    assert forall|a: UIBarButtonSystemItem, b: UIBarButtonSystemItem|
        has_bar_system_item_title(a) && has_bar_system_item_title(b) && a != b implies
            spec_bar_system_item_title(a) != spec_bar_system_item_title(b) by {
        let ta = spec_bar_system_item_title(a);
        let tb = spec_bar_system_item_title(b);
        if ta == tb {
            assert(ta.len() == tb.len());
            assert(ta[0] == tb[0]);
        }
    }
}

} // verus!
