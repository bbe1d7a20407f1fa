//! `UITabBarController`.

use vstd::prelude::*;
use crate::guest::{
    Id, NIL, NSUInteger, RefOp, decoded_or, nonnil_or, list_or_empty, release_each,
    release_unless_nil, retain_each, retain_unless_nil, replace_retained, replace_retained_list,
    push_release_each, push_retained_each,
};

verus! {

pub struct UITabBarControllerHostObject {
    /// `UIViewController*`s
    pub view_controllers: Vec<Id>,
    pub selected_view_controller: Id,
    pub selected_index: NSUInteger,
    /// `UITabBar*`
    pub tab_bar: Id,
    /// weak reference
    pub delegate: Id,
    pub more_navigation_controller: Id,
    pub customizable_view_controllers: Vec<Id>,
}

impl Default for UITabBarControllerHostObject {
    fn default() -> (h: Self)
        ensures
            h.view_controllers@ == Seq::<Id>::empty(),
            h.selected_view_controller == NIL,
            h.selected_index == 0,
            h.tab_bar == NIL,
            h.delegate == NIL,
            h.more_navigation_controller == NIL,
            h.customizable_view_controllers@ == Seq::<Id>::empty(),
    {
        UITabBarControllerHostObject {
            view_controllers: Vec::new(),
            selected_view_controller: NIL,
            selected_index: 0,
            tab_bar: NIL,
            delegate: NIL,
            more_navigation_controller: NIL,
            customizable_view_controllers: Vec::new(),
        }
    }
}

/// What `setSelectedIndex:` makes the selected view controller.
pub open spec fn selected_after(vcs: Seq<Id>, selected: Id, index: NSUInteger) -> Id {
    if index < vcs.len() { vcs[index as int] } else { selected }
}

impl UITabBarControllerHostObject {
    /// `init`: keeps (and retains) the tab bar the runtime created for it.
    pub fn adopt_tab_bar(&mut self, tab_bar: Id) -> (ops: Vec<RefOp>)
        ensures
            final(self).tab_bar == tab_bar,
            ops@ == seq![RefOp::Retain(tab_bar)],
            final(self).view_controllers@ == old(self).view_controllers@,
            final(self).selected_view_controller == old(self).selected_view_controller,
            final(self).selected_index == old(self).selected_index,
    {
        self.tab_bar = tab_bar;
        vec![RefOp::Retain(tab_bar)]
    }

    /// `initWithCoder:` given the decoded view controllers (appended, each
    /// retained), the selected index present in the archive (an `int`,
    /// reinterpreted as unsigned) and the tab bar (nil if absent; retained
    /// otherwise).
    pub fn init_with_coder(&mut self, vcs: Option<Vec<Id>>, selected_index: Option<i32>, tab_bar: Id) -> (ops:
        Vec<RefOp>)
        ensures
            final(self).view_controllers@ == old(self).view_controllers@ + list_or_empty(vcs),
            final(self).selected_index == (match selected_index {
                Some(i) => i as u32,
                None => old(self).selected_index,
            }),
            final(self).tab_bar == nonnil_or(tab_bar, old(self).tab_bar),
            final(self).selected_view_controller == old(self).selected_view_controller,
            ops@ == retain_each(list_or_empty(vcs)) + retain_unless_nil(tab_bar),
    {
        let mut ops: Vec<RefOp> = Vec::new();
        if let Some(v) = vcs {
            push_retained_each(&mut self.view_controllers, &mut ops, &v);
        }
        proof {
            assert(self.view_controllers@ =~= old(self).view_controllers@ + list_or_empty(vcs));
            assert(ops@ =~= retain_each(list_or_empty(vcs)));
        }
        if let Some(i) = selected_index {
            self.selected_index = i as NSUInteger;
        }
        if tab_bar != NIL {
            ops.push(RefOp::Retain(tab_bar));
            self.tab_bar = tab_bar;
        }
        proof {
            assert(ops@ =~= retain_each(list_or_empty(vcs)) + retain_unless_nil(tab_bar));
        }
        ops
    }

    /// `setViewControllers:animated:` / `setViewControllers:`.
    pub fn set_view_controllers(&mut self, vcs: Option<Vec<Id>>) -> (ops: Vec<RefOp>)
        ensures
            final(self).view_controllers@ == list_or_empty(vcs),
            ops@ == release_each(old(self).view_controllers@) + retain_each(list_or_empty(vcs)),
            final(self).selected_view_controller == old(self).selected_view_controller,
            final(self).selected_index == old(self).selected_index,
            final(self).tab_bar == old(self).tab_bar,
    {
        replace_retained_list(&mut self.view_controllers, vcs)
    }

    /// `setSelectedViewController:` (retained).
    pub fn set_selected_view_controller(&mut self, vc: Id) -> (ops: Vec<RefOp>)
        ensures
            final(self).selected_view_controller == vc,
            ops@ == release_unless_nil(old(self).selected_view_controller) + retain_unless_nil(vc),
            final(self).view_controllers@ == old(self).view_controllers@,
            final(self).selected_index == old(self).selected_index,
    {
        replace_retained(&mut self.selected_view_controller, vc)
    }

    /// `setSelectedIndex:`: records the index and, if it names a view
    /// controller, selects it (retaining it and releasing the previous
    /// selection, unless it is already selected).
    pub fn set_selected_index(&mut self, index: NSUInteger) -> (ops: Vec<RefOp>)
        ensures
            final(self).selected_index == index,
            final(self).selected_view_controller == selected_after(
                old(self).view_controllers@,
                old(self).selected_view_controller,
                index,
            ),
            ops@ == (if index < old(self).view_controllers@.len()
                && old(self).view_controllers@[index as int] != old(self).selected_view_controller {
                release_unless_nil(old(self).selected_view_controller) + seq![
                    RefOp::Retain(old(self).view_controllers@[index as int]),
                ]
            } else {
                Seq::<RefOp>::empty()
            }),
            final(self).view_controllers@ == old(self).view_controllers@,
            final(self).tab_bar == old(self).tab_bar,
    {
        self.selected_index = index;
        let mut ops: Vec<RefOp> = Vec::new();
        // Update selected view controller
        if (index as usize) < self.view_controllers.len() {
            let vc = self.view_controllers[index as usize];
            if self.selected_view_controller != vc {
                if self.selected_view_controller != NIL {
                    ops.push(RefOp::Release(self.selected_view_controller));
                }
                ops.push(RefOp::Retain(vc));
                self.selected_view_controller = vc;
            }
        }
        proof {
            if index < old(self).view_controllers@.len()
                && old(self).view_controllers@[index as int] != old(self).selected_view_controller {
                assert(ops@ =~= release_unless_nil(old(self).selected_view_controller) + seq![
                    RefOp::Retain(old(self).view_controllers@[index as int]),
                ]);
            } else {
                assert(ops@ =~= Seq::<RefOp>::empty());
            }
        }
        ops
    }

    /// What `dealloc` releases: every view controller, then the selected
    /// view controller, the tab bar and the "More" navigation controller
    /// (nil ones skipped).
    pub fn dealloc_releases(&self) -> (ops: Vec<RefOp>)
        ensures
            ops@ == release_each(self.view_controllers@) + release_unless_nil(
                self.selected_view_controller,
            ) + release_unless_nil(self.tab_bar) + release_unless_nil(
                self.more_navigation_controller,
            ),
    {
        let mut ops: Vec<RefOp> = Vec::new();
        push_release_each(&mut ops, &self.view_controllers);
        if self.selected_view_controller != NIL {
            ops.push(RefOp::Release(self.selected_view_controller));
        }
        if self.tab_bar != NIL {
            ops.push(RefOp::Release(self.tab_bar));
        }
        if self.more_navigation_controller != NIL {
            ops.push(RefOp::Release(self.more_navigation_controller));
        }
        proof {
            assert(ops@ =~= release_each(self.view_controllers@) + release_unless_nil(
                self.selected_view_controller,
            ) + release_unless_nil(self.tab_bar) + release_unless_nil(
                self.more_navigation_controller,
            ));
        }
        ops
    }
}

/// Selecting an index that names a view controller selects that view
/// controller; selecting it again asks for no retain or release.
pub proof fn lemma_select_index_selects(vcs: Seq<Id>, selected: Id, index: NSUInteger)
    requires
        index < vcs.len(),
    ensures
        selected_after(vcs, selected, index) == vcs[index as int],
        selected_after(vcs, selected_after(vcs, selected, index), index) == selected_after(
            vcs,
            selected,
            index,
        ),
{
}

} // verus!
