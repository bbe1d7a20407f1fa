//! `UIActionSheet`.
#![allow(non_upper_case_globals)]

use vstd::prelude::*;
use crate::guest::{Id, NIL, NSInteger, RefOp, release_each, release_unless_nil, retain_unless_nil, replace_retained, push_release_each};

verus! {

// UIActionSheetStyle
pub type UIActionSheetStyle = NSInteger;
pub const UI_ACTION_SHEET_STYLE_AUTOMATIC: UIActionSheetStyle = -1;
pub const UI_ACTION_SHEET_STYLE_DEFAULT: UIActionSheetStyle = 0;
pub const UI_ACTION_SHEET_STYLE_BLACK_TRANSLUCENT: UIActionSheetStyle = 1;
pub const UI_ACTION_SHEET_STYLE_BLACK_OPAQUE: UIActionSheetStyle = 2;

pub struct UIActionSheetHostObject {
    /// `NSString*`
    pub title: Id,
    /// weak reference
    pub delegate: Id,
    /// Array of `NSString*`
    pub button_titles: Vec<Id>,
    pub cancel_button_index: NSInteger,
    pub destructive_button_index: NSInteger,
    pub first_other_button_index: NSInteger,
    pub action_sheet_style: UIActionSheetStyle,
    pub visible: bool,
}

impl Default for UIActionSheetHostObject {
    fn default() -> (h: Self)
        ensures
            h.title == NIL,
            h.delegate == NIL,
            h.button_titles@ == Seq::<Id>::empty(),
            h.cancel_button_index == -1,
            h.destructive_button_index == -1,
            h.first_other_button_index == -1,
            h.action_sheet_style == UI_ACTION_SHEET_STYLE_AUTOMATIC,
            !h.visible,
    {
        UIActionSheetHostObject {
            title: NIL,
            delegate: NIL,
            button_titles: Vec::new(),
            cancel_button_index: -1,
            destructive_button_index: -1,
            first_other_button_index: -1,
            action_sheet_style: UI_ACTION_SHEET_STYLE_AUTOMATIC,
            visible: false,
        }
    }
}

/// `[x]` unless `x` is nil.
pub open spec fn unless_nil(x: Id) -> Seq<Id> {
    if x != NIL { seq![x] } else { seq![] }
}

/// 1 unless `x` is nil.
pub open spec fn count_unless_nil(x: Id) -> int {
    if x != NIL { 1 } else { 0 }
}

impl UIActionSheetHostObject {
    /// `initWithTitle:delegate:cancelButtonTitle:destructiveButtonTitle:
    /// otherButtonTitles:` with the first other button title: the buttons
    /// are numbered from 0 in the order destructive, other, cancel, each
    /// present only if its title is not nil.
    pub fn init_with_title(
        &mut self,
        title: Id,
        delegate: Id,
        cancel_title: Id,
        destructive_title: Id,
        other_titles: Id,
    ) -> (ops: Vec<RefOp>)
        ensures
            ops@ == retain_unless_nil(title) + retain_unless_nil(destructive_title)
                + retain_unless_nil(other_titles) + retain_unless_nil(cancel_title),
            final(self).title == title,
            final(self).delegate == delegate,
            final(self).button_titles@ == old(self).button_titles@ + unless_nil(destructive_title)
                + unless_nil(other_titles) + unless_nil(cancel_title),
            final(self).destructive_button_index == (if destructive_title != NIL {
                0
            } else {
                old(self).destructive_button_index
            }),
            final(self).first_other_button_index == (if other_titles != NIL
                && old(self).first_other_button_index == -1 {
                count_unless_nil(destructive_title) as i32
            } else {
                old(self).first_other_button_index
            }),
            final(self).cancel_button_index == (if cancel_title != NIL {
                (count_unless_nil(destructive_title) + count_unless_nil(other_titles)) as i32
            } else {
                old(self).cancel_button_index
            }),
            final(self).action_sheet_style == old(self).action_sheet_style,
            final(self).visible == old(self).visible,
    {
        let mut ops: Vec<RefOp> = Vec::new();
        if title != NIL {
            ops.push(RefOp::Retain(title));
        }
        self.title = title;
        self.delegate = delegate;

        let mut button_index: NSInteger = 0;

        // Add destructive button if provided
        if destructive_title != NIL {
            ops.push(RefOp::Retain(destructive_title));
            self.button_titles.push(destructive_title);
            self.destructive_button_index = button_index;
            button_index += 1;
        }
        // Add other buttons if provided
        if other_titles != NIL {
            ops.push(RefOp::Retain(other_titles));
            self.button_titles.push(other_titles);
            if self.first_other_button_index == -1 {
                self.first_other_button_index = button_index;
            }
            button_index += 1;
        }
        // Add cancel button if provided
        if cancel_title != NIL {
            ops.push(RefOp::Retain(cancel_title));
            self.button_titles.push(cancel_title);
            self.cancel_button_index = button_index;
        }
        proof {
            assert(ops@ =~= retain_unless_nil(title) + retain_unless_nil(destructive_title)
                + retain_unless_nil(other_titles) + retain_unless_nil(cancel_title));
            assert(self.button_titles@ =~= old(self).button_titles@ + unless_nil(destructive_title)
                + unless_nil(other_titles) + unless_nil(cancel_title));
        }
        ops
    }

    /// `initWithCoder:` given the decoded values: the title object (nil if
    /// absent, retained otherwise) and the style and button indices present
    /// in the archive.
    pub fn init_with_coder(
        &mut self,
        title: Id,
        style: Option<UIActionSheetStyle>,
        cancel_index: Option<NSInteger>,
        destructive_index: Option<NSInteger>,
    ) -> (ops: Vec<RefOp>)
        ensures
            ops@ == retain_unless_nil(title),
            final(self).title == (if title != NIL { title } else { old(self).title }),
            final(self).action_sheet_style == (match style {
                Some(s) => s,
                None => old(self).action_sheet_style,
            }),
            final(self).cancel_button_index == (match cancel_index {
                Some(i) => i,
                None => old(self).cancel_button_index,
            }),
            final(self).destructive_button_index == (match destructive_index {
                Some(i) => i,
                None => old(self).destructive_button_index,
            }),
            final(self).delegate == old(self).delegate,
            final(self).button_titles@ == old(self).button_titles@,
            final(self).first_other_button_index == old(self).first_other_button_index,
            final(self).visible == old(self).visible,
    {
        let mut ops: Vec<RefOp> = Vec::new();
        if title != NIL {
            ops.push(RefOp::Retain(title));
            self.title = title;
        }
        if let Some(s) = style {
            self.action_sheet_style = s;
        }
        if let Some(i) = cancel_index {
            self.cancel_button_index = i;
        }
        if let Some(i) = destructive_index {
            self.destructive_button_index = i;
        }
        proof {
            assert(ops@ =~= retain_unless_nil(title));
        }
        ops
    }

    /// `setTitle:` (the title is retained).
    pub fn set_title(&mut self, title: Id) -> (ops: Vec<RefOp>)
        ensures
            final(self).title == title,
            ops@ == release_unless_nil(old(self).title) + retain_unless_nil(title),
            final(self).button_titles@ == old(self).button_titles@,
            final(self).delegate == old(self).delegate,
    {
        replace_retained(&mut self.title, title)
    }

    /// `addButtonWithTitle:`: the index of the new button, or -1 (and no
    /// button) for a nil title.
    pub fn add_button_with_title(&mut self, title: Id) -> (r: (NSInteger, Vec<RefOp>))
        ensures
            title == NIL ==> r.0 == -1 && r.1@ == Seq::<RefOp>::empty() && final(self).button_titles@
                == old(self).button_titles@,
            title != NIL ==> r.0 == old(self).button_titles@.len() as i32 && r.1@ == seq![
                RefOp::Retain(title),
            ] && final(self).button_titles@ == old(self).button_titles@.push(title),
            final(self).title == old(self).title,
            final(self).cancel_button_index == old(self).cancel_button_index,
            final(self).destructive_button_index == old(self).destructive_button_index,
            final(self).first_other_button_index == old(self).first_other_button_index,
    {
        if title == NIL {
            return (-1, Vec::new());
        }
        self.button_titles.push(title);
        ((self.button_titles.len() - 1) as NSInteger, vec![RefOp::Retain(title)])
    }

    /// `numberOfButtons`.
    pub fn number_of_buttons(&self) -> (n: NSInteger)
        ensures
            n == self.button_titles@.len() as i32,
    {
        self.button_titles.len() as NSInteger
    }

    /// `buttonTitleAtIndex:`: nil out of range.
    pub fn button_title_at_index(&self, index: NSInteger) -> (t: Id)
        ensures
            0 <= index < self.button_titles@.len() ==> t == self.button_titles@[index as int],
            !(0 <= index < self.button_titles@.len()) ==> t == NIL,
    {
        if index >= 0 && (index as usize) < self.button_titles.len() {
            self.button_titles[index as usize]
        } else {
            NIL
        }
    }

    /// `showInView:` (the sheet is not drawn).
    pub fn show_in_view(&mut self)
        ensures
            final(self).visible,
    {
        self.visible = true;
    }

    /// `dismissWithClickedButtonIndex:animated:`.
    pub fn dismiss(&mut self)
        ensures
            !final(self).visible,
    {
        self.visible = false;
    }

    /// What `dealloc` releases: the title, then every button title.
    pub fn dealloc_releases(&self) -> (ops: Vec<RefOp>)
        ensures
            ops@ == release_unless_nil(self.title) + release_each(self.button_titles@),
    {
        let mut ops: Vec<RefOp> = Vec::new();
        if self.title != NIL {
            ops.push(RefOp::Release(self.title));
        }
        proof {
            assert(ops@ =~= release_unless_nil(self.title));
        }
        push_release_each(&mut ops, &self.button_titles);
        ops
    }
}

/// A button added with a title can be looked up by the index it was given,
/// and the button count grows by one.
pub proof fn lemma_added_button_is_found(titles: Seq<Id>, title: Id)
    requires
        title != NIL,
        titles.len() < i32::MAX,
    ensures
        ({
            let index = titles.len() as i32;
            let after = titles.push(title);
            &&& 0 <= index < after.len()
            &&& after[index as int] == title
            &&& after.len() as i32 == index + 1
        }),
{
}

} // verus!
