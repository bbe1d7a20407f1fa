//! `UINavigationBar` and `UINavigationItem`.

use vstd::prelude::*;
use crate::guest::{
    Id, NIL, RefOp, release_each, release_unless_nil, retain_each, retain_unless_nil,
    replace_retained, list_or_empty, replace_retained_list, push_release_each,
};

verus! {

// UIBarStyle
pub type UIBarStyle = i32;
pub const UI_BAR_STYLE_DEFAULT: UIBarStyle = 0;
pub const UI_BAR_STYLE_BLACK: UIBarStyle = 1;
pub const UI_BAR_STYLE_BLACK_OPAQUE: UIBarStyle = 1;
pub const UI_BAR_STYLE_BLACK_TRANSLUCENT: UIBarStyle = 2;

pub struct UINavigationBarHostObject {
    pub bar_style: UIBarStyle,
    /// The navigation stack of `UINavigationItem*`, top last.
    pub items: Vec<Id>,
    /// weak reference
    pub delegate: Id,
    /// `UIColor*`
    pub tint_color: Id,
    pub translucent: bool,
}

impl Default for UINavigationBarHostObject {
    fn default() -> (h: Self)
        ensures
            h.bar_style == UI_BAR_STYLE_DEFAULT,
            h.items@ == Seq::<Id>::empty(),
            h.delegate == NIL,
            h.tint_color == NIL,
            !h.translucent,
    {
        UINavigationBarHostObject {
            bar_style: UI_BAR_STYLE_DEFAULT,
            items: Vec::new(),
            delegate: NIL,
            tint_color: NIL,
            translucent: false,
        }
    }
}

/// The top of a navigation stack (nil if empty).
pub open spec fn spec_top(items: Seq<Id>) -> Id {
    if items.len() > 0 { items.last() } else { NIL }
}

/// The item below the top of a navigation stack (nil if there is none).
pub open spec fn spec_back(items: Seq<Id>) -> Id {
    if items.len() >= 2 { items[items.len() - 2] } else { NIL }
}

impl UINavigationBarHostObject {
    /// `initWithCoder:` given the decoded values: the bar style and the
    /// translucency present in the archive, and the tint color (nil if
    /// absent or nil; retained otherwise).
    pub fn init_with_coder(
        &mut self,
        bar_style: Option<UIBarStyle>,
        translucent: Option<bool>,
        tint_color: Id,
    ) -> (ops: Vec<RefOp>)
        ensures
            ops@ == retain_unless_nil(tint_color),
            final(self).bar_style == (match bar_style {
                Some(s) => s,
                None => old(self).bar_style,
            }),
            final(self).translucent == (match translucent {
                Some(t) => t,
                None => old(self).translucent,
            }),
            final(self).tint_color == (if tint_color != NIL { tint_color } else { old(self).tint_color }),
            final(self).items@ == old(self).items@,
            final(self).delegate == old(self).delegate,
    {
        if let Some(s) = bar_style {
            self.bar_style = s;
        }
        if let Some(t) = translucent {
            self.translucent = t;
        }
        let mut ops: Vec<RefOp> = Vec::new();
        if tint_color != NIL {
            ops.push(RefOp::Retain(tint_color));
            self.tint_color = tint_color;
        }
        proof {
            assert(ops@ =~= retain_unless_nil(tint_color));
        }
        ops
    }

    /// `setTintColor:` (the color is retained).
    pub fn set_tint_color(&mut self, color: Id) -> (ops: Vec<RefOp>)
        ensures
            final(self).tint_color == color,
            ops@ == release_unless_nil(old(self).tint_color) + retain_unless_nil(color),
            final(self).items@ == old(self).items@,
            final(self).bar_style == old(self).bar_style,
    {
        replace_retained(&mut self.tint_color, color)
    }

    /// `pushNavigationItem:animated:`: a nil item is ignored; otherwise it is
    /// retained and becomes the top item.
    pub fn push_navigation_item(&mut self, item: Id) -> (ops: Vec<RefOp>)
        ensures
            item == NIL ==> final(self).items@ == old(self).items@ && ops@ == Seq::<RefOp>::empty(),
            item != NIL ==> final(self).items@ == old(self).items@.push(item) && ops@ == seq![
                RefOp::Retain(item),
            ],
            final(self).tint_color == old(self).tint_color,
            final(self).bar_style == old(self).bar_style,
    {
        if item == NIL {
            return Vec::new();
        }
        self.items.push(item);
        vec![RefOp::Retain(item)]
    }

    /// `popNavigationItemAnimated:`: removes and returns the top item (nil if
    /// the stack is empty); the caller takes over the stack's reference.
    pub fn pop_navigation_item(&mut self) -> (item: Id)
        ensures
            item == spec_top(old(self).items@),
            final(self).items@ == (if old(self).items@.len() > 0 {
                old(self).items@.drop_last()
            } else {
                old(self).items@
            }),
            final(self).tint_color == old(self).tint_color,
            final(self).bar_style == old(self).bar_style,
    {
        match self.items.pop() {
            Some(item) => item,
            None => NIL,
        }
    }

    /// `setItems:animated:`: releases the old stack, then retains and stacks
    /// each item of the given array (None: nil array).
    pub fn set_items(&mut self, items: Option<Vec<Id>>) -> (ops: Vec<RefOp>)
        ensures
            final(self).items@ == list_or_empty(items),
            ops@ == release_each(old(self).items@) + retain_each(list_or_empty(items)),
            final(self).tint_color == old(self).tint_color,
            final(self).bar_style == old(self).bar_style,
    {
        replace_retained_list(&mut self.items, items)
    }

    /// `topItem`.
    pub fn top_item(&self) -> (item: Id)
        ensures
            item == spec_top(self.items@),
    {
        let len = self.items.len();
        if len > 0 {
            self.items[len - 1]
        } else {
            NIL
        }
    }

    /// `backItem`.
    pub fn back_item(&self) -> (item: Id)
        ensures
            item == spec_back(self.items@),
    {
        let len = self.items.len();
        if len >= 2 {
            self.items[len - 2]
        } else {
            NIL
        }
    }

    /// What `dealloc` releases: every stacked item, then the tint color.
    pub fn dealloc_releases(&self) -> (ops: Vec<RefOp>)
        ensures
            ops@ == release_each(self.items@) + release_unless_nil(self.tint_color),
    {
        let mut ops: Vec<RefOp> = Vec::new();
        push_release_each(&mut ops, &self.items);
        if self.tint_color != NIL {
            ops.push(RefOp::Release(self.tint_color));
        }
        proof {
            assert(ops@ =~= release_each(self.items@) + release_unless_nil(self.tint_color));
        }
        ops
    }
}

/// Pushing a (non-nil) item makes it the top item, puts the former top item
/// right below it, and popping then gives the item back and restores the
/// stack.
pub proof fn lemma_push_then_pop(items: Seq<Id>, item: Id)
    requires
        item != NIL,
    ensures
        spec_top(items.push(item)) == item,
        spec_back(items.push(item)) == spec_top(items),
        items.push(item).drop_last() == items,
{
    assert(items.push(item).drop_last() =~= items);
}

pub struct UINavigationItemHostObject {
    /// `NSString*`
    pub title: Id,
    /// `UIView*`
    pub title_view: Id,
    /// `UIBarButtonItem*`
    pub left_bar_button_item: Id,
    /// `UIBarButtonItem*`
    pub right_bar_button_item: Id,
    /// `UIBarButtonItem*`
    pub back_bar_button_item: Id,
    /// `NSString*`
    pub prompt: Id,
    pub hides_back_button: bool,
}

impl Default for UINavigationItemHostObject {
    fn default() -> (h: Self)
        ensures
            h.title == NIL,
            h.title_view == NIL,
            h.left_bar_button_item == NIL,
            h.right_bar_button_item == NIL,
            h.back_bar_button_item == NIL,
            h.prompt == NIL,
            !h.hides_back_button,
    {
        UINavigationItemHostObject {
            title: NIL,
            title_view: NIL,
            left_bar_button_item: NIL,
            right_bar_button_item: NIL,
            back_bar_button_item: NIL,
            prompt: NIL,
            hides_back_button: false,
        }
    }
}

impl UINavigationItemHostObject {
    /// `initWithTitle:` (a non-nil title is retained).
    pub fn init_with_title(&mut self, title: Id) -> (ops: Vec<RefOp>)
        ensures
            ops@ == retain_unless_nil(title),
            final(self).title == (if title != NIL { title } else { old(self).title }),
            final(self).title_view == old(self).title_view,
            final(self).left_bar_button_item == old(self).left_bar_button_item,
            final(self).right_bar_button_item == old(self).right_bar_button_item,
            final(self).back_bar_button_item == old(self).back_bar_button_item,
    {
        let mut ops: Vec<RefOp> = Vec::new();
        if title != NIL {
            ops.push(RefOp::Retain(title));
            self.title = title;
        }
        proof {
            assert(ops@ =~= retain_unless_nil(title));
        }
        ops
    }

    /// `initWithCoder:` given the decoded objects (nil if absent); each
    /// non-nil one is retained and stored.
    pub fn init_with_coder(&mut self, title: Id, title_view: Id, left_item: Id, right_item: Id) -> (ops:
        Vec<RefOp>)
        ensures
            ops@ == retain_unless_nil(title) + retain_unless_nil(title_view) + retain_unless_nil(
                left_item,
            ) + retain_unless_nil(right_item),
            final(self).title == (if title != NIL { title } else { old(self).title }),
            final(self).title_view == (if title_view != NIL {
                title_view
            } else {
                old(self).title_view
            }),
            final(self).left_bar_button_item == (if left_item != NIL {
                left_item
            } else {
                old(self).left_bar_button_item
            }),
            final(self).right_bar_button_item == (if right_item != NIL {
                right_item
            } else {
                old(self).right_bar_button_item
            }),
            final(self).back_bar_button_item == old(self).back_bar_button_item,
    {
        let mut ops: Vec<RefOp> = Vec::new();
        if title != NIL {
            ops.push(RefOp::Retain(title));
            self.title = title;
        }
        if title_view != NIL {
            ops.push(RefOp::Retain(title_view));
            self.title_view = title_view;
        }
        if left_item != NIL {
            ops.push(RefOp::Retain(left_item));
            self.left_bar_button_item = left_item;
        }
        if right_item != NIL {
            ops.push(RefOp::Retain(right_item));
            self.right_bar_button_item = right_item;
        }
        proof {
            assert(ops@ =~= retain_unless_nil(title) + retain_unless_nil(title_view)
                + retain_unless_nil(left_item) + retain_unless_nil(right_item));
        }
        ops
    }

    /// `setTitle:` (the new value is retained, the old one released).
    pub fn set_title(&mut self, value: Id) -> (ops: Vec<RefOp>)
        ensures
            final(self).title == value,
            ops@ == release_unless_nil(old(self).title) + retain_unless_nil(value),
            final(self).title_view == old(self).title_view,
            final(self).left_bar_button_item == old(self).left_bar_button_item,
            final(self).right_bar_button_item == old(self).right_bar_button_item,
            final(self).back_bar_button_item == old(self).back_bar_button_item,
    {
        replace_retained(&mut self.title, value)
    }

    /// `setTitleView:` (the new value is retained, the old one released).
    pub fn set_title_view(&mut self, value: Id) -> (ops: Vec<RefOp>)
        ensures
            final(self).title_view == value,
            ops@ == release_unless_nil(old(self).title_view) + retain_unless_nil(value),
            final(self).title == old(self).title,
            final(self).left_bar_button_item == old(self).left_bar_button_item,
            final(self).right_bar_button_item == old(self).right_bar_button_item,
            final(self).back_bar_button_item == old(self).back_bar_button_item,
    {
        replace_retained(&mut self.title_view, value)
    }

    /// `setLeftBarButtonItem:` (the new value is retained, the old one released).
    pub fn set_left_bar_button_item(&mut self, value: Id) -> (ops: Vec<RefOp>)
        ensures
            final(self).left_bar_button_item == value,
            ops@ == release_unless_nil(old(self).left_bar_button_item) + retain_unless_nil(value),
            final(self).title == old(self).title,
            final(self).title_view == old(self).title_view,
            final(self).right_bar_button_item == old(self).right_bar_button_item,
            final(self).back_bar_button_item == old(self).back_bar_button_item,
    {
        replace_retained(&mut self.left_bar_button_item, value)
    }

    /// `setRightBarButtonItem:` (the new value is retained, the old one released).
    pub fn set_right_bar_button_item(&mut self, value: Id) -> (ops: Vec<RefOp>)
        ensures
            final(self).right_bar_button_item == value,
            ops@ == release_unless_nil(old(self).right_bar_button_item) + retain_unless_nil(value),
            final(self).title == old(self).title,
            final(self).title_view == old(self).title_view,
            final(self).left_bar_button_item == old(self).left_bar_button_item,
            final(self).back_bar_button_item == old(self).back_bar_button_item,
    {
        replace_retained(&mut self.right_bar_button_item, value)
    }

    /// `setBackBarButtonItem:` (the new value is retained, the old one released).
    pub fn set_back_bar_button_item(&mut self, value: Id) -> (ops: Vec<RefOp>)
        ensures
            final(self).back_bar_button_item == value,
            ops@ == release_unless_nil(old(self).back_bar_button_item) + retain_unless_nil(value),
            final(self).title == old(self).title,
            final(self).title_view == old(self).title_view,
            final(self).left_bar_button_item == old(self).left_bar_button_item,
            final(self).right_bar_button_item == old(self).right_bar_button_item,
    {
        replace_retained(&mut self.back_bar_button_item, value)
    }

    /// What `dealloc` releases: title, title view, then the left, right and
    /// back bar button items (nil ones skipped).
    pub fn dealloc_releases(&self) -> (ops: Vec<RefOp>)
        ensures
            ops@ == release_unless_nil(self.title) + release_unless_nil(self.title_view)
                + release_unless_nil(self.left_bar_button_item) + release_unless_nil(
                self.right_bar_button_item,
            ) + release_unless_nil(self.back_bar_button_item),
    {
        let mut ops: Vec<RefOp> = Vec::new();
        if self.title != NIL {
            ops.push(RefOp::Release(self.title));
        }
        if self.title_view != NIL {
            ops.push(RefOp::Release(self.title_view));
        }
        if self.left_bar_button_item != NIL {
            ops.push(RefOp::Release(self.left_bar_button_item));
        }
        if self.right_bar_button_item != NIL {
            ops.push(RefOp::Release(self.right_bar_button_item));
        }
        if self.back_bar_button_item != NIL {
            ops.push(RefOp::Release(self.back_bar_button_item));
        }
        proof {
            assert(ops@ =~= release_unless_nil(self.title) + release_unless_nil(self.title_view)
                + release_unless_nil(self.left_bar_button_item) + release_unless_nil(
                self.right_bar_button_item,
            ) + release_unless_nil(self.back_bar_button_item));
        }
        ops
    }
}

} // verus!
