//! `UIToolbar`.

use vstd::prelude::*;
use crate::guest::{
    Id, NIL, RefOp, decoded_or, nonnil_or, list_or_empty, release_each, release_unless_nil,
    retain_each, retain_unless_nil, replace_retained, replace_retained_list, push_release_each,
    push_retained_each,
};

verus! {

// UIBarStyle (reused from navigation bar)
pub type UIBarStyle = i32;
pub const UI_BAR_STYLE_DEFAULT: UIBarStyle = 0;
pub const UI_BAR_STYLE_BLACK: UIBarStyle = 1;
pub const UI_BAR_STYLE_BLACK_OPAQUE: UIBarStyle = 1;
pub const UI_BAR_STYLE_BLACK_TRANSLUCENT: UIBarStyle = 2;

pub struct UIToolbarHostObject {
    pub bar_style: UIBarStyle,
    /// `UIBarButtonItem*`s
    pub items: Vec<Id>,
    /// `UIColor*`
    pub tint_color: Id,
    pub translucent: bool,
}

impl Default for UIToolbarHostObject {
    fn default() -> (h: Self)
        ensures
            h.bar_style == UI_BAR_STYLE_DEFAULT,
            h.items@ == Seq::<Id>::empty(),
            h.tint_color == NIL,
            !h.translucent,
    {
        UIToolbarHostObject {
            bar_style: UI_BAR_STYLE_DEFAULT,
            items: Vec::new(),
            tint_color: NIL,
            translucent: false,
        }
    }
}

impl UIToolbarHostObject {
    /// `initWithCoder:` given the decoded values: bar style and translucency
    /// present in the archive, the tint color (nil if absent; retained
    /// otherwise) and the items array (appended, each retained).
    pub fn init_with_coder(
        &mut self,
        bar_style: Option<UIBarStyle>,
        translucent: Option<bool>,
        tint_color: Id,
        items: Option<Vec<Id>>,
    ) -> (ops: Vec<RefOp>)
        ensures
            final(self).bar_style == decoded_or(bar_style, old(self).bar_style),
            final(self).translucent == decoded_or(translucent, old(self).translucent),
            final(self).tint_color == nonnil_or(tint_color, old(self).tint_color),
            final(self).items@ == old(self).items@ + list_or_empty(items),
            ops@ == retain_unless_nil(tint_color) + retain_each(list_or_empty(items)),
    {
        if let Some(s) = bar_style {
            self.bar_style = s;
        }
        if let Some(t) = translucent {
            self.translucent = t;
        }
        let mut ops: Vec<RefOp> = Vec::new();
        if tint_color != NIL {
            ops.push(RefOp::Retain(tint_color));
            self.tint_color = tint_color;
        }
        proof {
            assert(ops@ =~= retain_unless_nil(tint_color));
        }
        if let Some(v) = items {
            push_retained_each(&mut self.items, &mut ops, &v);
        }
        proof {
            assert(self.items@ =~= old(self).items@ + list_or_empty(items));
            assert(ops@ =~= retain_unless_nil(tint_color) + retain_each(list_or_empty(items)));
        }
        ops
    }

    /// `setTintColor:` (retained).
    pub fn set_tint_color(&mut self, color: Id) -> (ops: Vec<RefOp>)
        ensures
            final(self).tint_color == color,
            ops@ == release_unless_nil(old(self).tint_color) + retain_unless_nil(color),
            final(self).items@ == old(self).items@,
            final(self).bar_style == old(self).bar_style,
            final(self).translucent == old(self).translucent,
    {
        replace_retained(&mut self.tint_color, color)
    }

    /// `setItems:animated:` / `setItems:`.
    pub fn set_items(&mut self, items: Option<Vec<Id>>) -> (ops: Vec<RefOp>)
        ensures
            final(self).items@ == list_or_empty(items),
            ops@ == release_each(old(self).items@) + retain_each(list_or_empty(items)),
            final(self).tint_color == old(self).tint_color,
            final(self).bar_style == old(self).bar_style,
            final(self).translucent == old(self).translucent,
    {
        replace_retained_list(&mut self.items, items)
    }

    /// What `dealloc` releases: every item, then the tint color.
    pub fn dealloc_releases(&self) -> (ops: Vec<RefOp>)
        ensures
            ops@ == release_each(self.items@) + release_unless_nil(self.tint_color),
    {
        let mut ops: Vec<RefOp> = Vec::new();
        push_release_each(&mut ops, &self.items);
        if self.tint_color != NIL {
            ops.push(RefOp::Release(self.tint_color));
        }
        proof {
            assert(ops@ =~= release_each(self.items@) + release_unless_nil(self.tint_color));
        }
        ops
    }
}

/// Replacing a toolbar's items releases exactly the items it held and
/// retains exactly the new ones: every item it holds afterwards was
/// retained once by the replacement.
pub proof fn lemma_set_items_balances(old_items: Seq<Id>, new_items: Seq<Id>)
    ensures
        (release_each(old_items) + retain_each(new_items)).len() == old_items.len()
            + new_items.len(),
        forall|i: int|
            0 <= i < new_items.len() ==> (release_each(old_items) + retain_each(new_items))[old_items.len()
                + i] == RefOp::Retain(new_items[i]),
        forall|i: int|
            0 <= i < old_items.len() ==> (release_each(old_items) + retain_each(new_items))[i]
                == RefOp::Release(old_items[i]),
{
}

} // verus!
