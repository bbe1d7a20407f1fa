//! `UITabBar` and `UITabBarItem`.

use vstd::prelude::*;
use crate::guest::{
    Id, NIL, NSInteger, RefOp, decoded_or, nonnil_or, list_or_empty, release_each,
    release_unless_nil, retain_each, retain_unless_nil, replace_retained, replace_retained_list,
    push_release_each, push_retained_each,
};

verus! {

// UITabBarSystemItem
pub type UITabBarSystemItem = NSInteger;
pub const UI_TAB_BAR_SYSTEM_ITEM_MORE: UITabBarSystemItem = 0;
pub const UI_TAB_BAR_SYSTEM_ITEM_FAVORITES: UITabBarSystemItem = 1;
pub const UI_TAB_BAR_SYSTEM_ITEM_FEATURED: UITabBarSystemItem = 2;
pub const UI_TAB_BAR_SYSTEM_ITEM_TOP_RATED: UITabBarSystemItem = 3;
pub const UI_TAB_BAR_SYSTEM_ITEM_RECENTS: UITabBarSystemItem = 4;
pub const UI_TAB_BAR_SYSTEM_ITEM_CONTACTS: UITabBarSystemItem = 5;
pub const UI_TAB_BAR_SYSTEM_ITEM_HISTORY: UITabBarSystemItem = 6;
pub const UI_TAB_BAR_SYSTEM_ITEM_BOOKMARKS: UITabBarSystemItem = 7;
pub const UI_TAB_BAR_SYSTEM_ITEM_SEARCH: UITabBarSystemItem = 8;
pub const UI_TAB_BAR_SYSTEM_ITEM_DOWNLOADS: UITabBarSystemItem = 9;
pub const UI_TAB_BAR_SYSTEM_ITEM_MOST_RECENT: UITabBarSystemItem = 10;
pub const UI_TAB_BAR_SYSTEM_ITEM_MOST_VIEWED: UITabBarSystemItem = 11;

pub struct UITabBarHostObject {
    /// `UITabBarItem*`s
    pub items: Vec<Id>,
    /// `UITabBarItem*`
    pub selected_item: Id,
    /// weak reference
    pub delegate: Id,
    /// `UIColor*`
    pub tint_color: Id,
}

impl Default for UITabBarHostObject {
    fn default() -> (h: Self)
        ensures
            h.items@ == Seq::<Id>::empty(),
            h.selected_item == NIL,
            h.delegate == NIL,
            h.tint_color == NIL,
    {
        UITabBarHostObject { items: Vec::new(), selected_item: NIL, delegate: NIL, tint_color: NIL }
    }
}

impl UITabBarHostObject {
    /// `initWithCoder:` given the decoded items array (appended, each
    /// retained), selected item and tint color (nil if absent; retained
    /// otherwise).
    pub fn init_with_coder(&mut self, items: Option<Vec<Id>>, selected: Id, tint_color: Id) -> (ops:
        Vec<RefOp>)
        ensures
            final(self).items@ == old(self).items@ + list_or_empty(items),
            final(self).selected_item == nonnil_or(selected, old(self).selected_item),
            final(self).tint_color == nonnil_or(tint_color, old(self).tint_color),
            final(self).delegate == old(self).delegate,
            ops@ == retain_each(list_or_empty(items)) + retain_unless_nil(selected)
                + retain_unless_nil(tint_color),
    {
        let mut ops: Vec<RefOp> = Vec::new();
        if let Some(v) = items {
            push_retained_each(&mut self.items, &mut ops, &v);
        }
        proof {
            assert(self.items@ =~= old(self).items@ + list_or_empty(items));
            assert(ops@ =~= retain_each(list_or_empty(items)));
        }
        if selected != NIL {
            ops.push(RefOp::Retain(selected));
            self.selected_item = selected;
        }
        if tint_color != NIL {
            ops.push(RefOp::Retain(tint_color));
            self.tint_color = tint_color;
        }
        proof {
            assert(ops@ =~= retain_each(list_or_empty(items)) + retain_unless_nil(selected)
                + retain_unless_nil(tint_color));
        }
        ops
    }

    /// `setItems:animated:` / `setItems:`.
    pub fn set_items(&mut self, items: Option<Vec<Id>>) -> (ops: Vec<RefOp>)
        ensures
            final(self).items@ == list_or_empty(items),
            ops@ == release_each(old(self).items@) + retain_each(list_or_empty(items)),
            final(self).selected_item == old(self).selected_item,
            final(self).tint_color == old(self).tint_color,
            final(self).delegate == old(self).delegate,
    {
        replace_retained_list(&mut self.items, items)
    }

    /// `setSelectedItem:` (retained).
    pub fn set_selected_item(&mut self, item: Id) -> (ops: Vec<RefOp>)
        ensures
            final(self).selected_item == item,
            ops@ == release_unless_nil(old(self).selected_item) + retain_unless_nil(item),
            final(self).items@ == old(self).items@,
            final(self).tint_color == old(self).tint_color,
    {
        replace_retained(&mut self.selected_item, item)
    }

    /// `setTintColor:` (retained).
    pub fn set_tint_color(&mut self, color: Id) -> (ops: Vec<RefOp>)
        ensures
            final(self).tint_color == color,
            ops@ == release_unless_nil(old(self).tint_color) + retain_unless_nil(color),
            final(self).items@ == old(self).items@,
            final(self).selected_item == old(self).selected_item,
    {
        replace_retained(&mut self.tint_color, color)
    }

    /// What `dealloc` releases: every item, the selected item, the tint
    /// color.
    pub fn dealloc_releases(&self) -> (ops: Vec<RefOp>)
        ensures
            ops@ == release_each(self.items@) + release_unless_nil(self.selected_item)
                + release_unless_nil(self.tint_color),
    {
        let mut ops: Vec<RefOp> = Vec::new();
        push_release_each(&mut ops, &self.items);
        if self.selected_item != NIL {
            ops.push(RefOp::Release(self.selected_item));
        }
        if self.tint_color != NIL {
            ops.push(RefOp::Release(self.tint_color));
        }
        proof {
            assert(ops@ =~= release_each(self.items@) + release_unless_nil(self.selected_item)
                + release_unless_nil(self.tint_color));
        }
        ops
    }
}

pub struct UITabBarItemHostObject {
    /// `NSString*`
    pub title: Id,
    /// `UIImage*`
    pub image: Id,
    /// `NSString*`
    pub badge_value: Id,
    pub tag: NSInteger,
    pub enabled: bool,
    pub system_item: Option<UITabBarSystemItem>,
}

impl Default for UITabBarItemHostObject {
    fn default() -> (h: Self)
        ensures
            h.title == NIL,
            h.image == NIL,
            h.badge_value == NIL,
            h.tag == 0,
            h.enabled,
            h.system_item is None,
    {
        UITabBarItemHostObject {
            title: NIL,
            image: NIL,
            badge_value: NIL,
            tag: 0,
            enabled: true,
            system_item: None,
        }
    }
}

/// The default title of a system tab bar item (empty for an unknown one).
pub open spec fn spec_system_item_title(system_item: UITabBarSystemItem) -> Seq<char> {
    if system_item == UI_TAB_BAR_SYSTEM_ITEM_MORE {
        "More"@
    } else if system_item == UI_TAB_BAR_SYSTEM_ITEM_FAVORITES {
        "Favorites"@
    } else if system_item == UI_TAB_BAR_SYSTEM_ITEM_FEATURED {
        "Featured"@
    } else if system_item == UI_TAB_BAR_SYSTEM_ITEM_TOP_RATED {
        "Top Rated"@
    } else if system_item == UI_TAB_BAR_SYSTEM_ITEM_RECENTS {
        "Recents"@
    } else if system_item == UI_TAB_BAR_SYSTEM_ITEM_CONTACTS {
        "Contacts"@
    } else if system_item == UI_TAB_BAR_SYSTEM_ITEM_HISTORY {
        "History"@
    } else if system_item == UI_TAB_BAR_SYSTEM_ITEM_BOOKMARKS {
        "Bookmarks"@
    } else if system_item == UI_TAB_BAR_SYSTEM_ITEM_SEARCH {
        "Search"@
    } else if system_item == UI_TAB_BAR_SYSTEM_ITEM_DOWNLOADS {
        "Downloads"@
    } else if system_item == UI_TAB_BAR_SYSTEM_ITEM_MOST_RECENT {
        "Most Recent"@
    } else if system_item == UI_TAB_BAR_SYSTEM_ITEM_MOST_VIEWED {
        "Most Viewed"@
    } else {
        ""@
    }
}

/// Whether `system_item` is one of the known system items.
pub open spec fn is_known_system_item(system_item: UITabBarSystemItem) -> bool {
    UI_TAB_BAR_SYSTEM_ITEM_MORE <= system_item <= UI_TAB_BAR_SYSTEM_ITEM_MOST_VIEWED
}

/// The default title of a system tab bar item (empty for an unknown one).
pub fn system_item_title(system_item: UITabBarSystemItem) -> (s: &'static str)
    ensures
        s@ == spec_system_item_title(system_item),
{
    match system_item {
        UI_TAB_BAR_SYSTEM_ITEM_MORE => "More",
        UI_TAB_BAR_SYSTEM_ITEM_FAVORITES => "Favorites",
        UI_TAB_BAR_SYSTEM_ITEM_FEATURED => "Featured",
        UI_TAB_BAR_SYSTEM_ITEM_TOP_RATED => "Top Rated",
        UI_TAB_BAR_SYSTEM_ITEM_RECENTS => "Recents",
        UI_TAB_BAR_SYSTEM_ITEM_CONTACTS => "Contacts",
        UI_TAB_BAR_SYSTEM_ITEM_HISTORY => "History",
        UI_TAB_BAR_SYSTEM_ITEM_BOOKMARKS => "Bookmarks",
        UI_TAB_BAR_SYSTEM_ITEM_SEARCH => "Search",
        UI_TAB_BAR_SYSTEM_ITEM_DOWNLOADS => "Downloads",
        UI_TAB_BAR_SYSTEM_ITEM_MOST_RECENT => "Most Recent",
        UI_TAB_BAR_SYSTEM_ITEM_MOST_VIEWED => "Most Viewed",
        _ => "",
    }
}

impl UITabBarItemHostObject {
    /// `initWithTitle:image:tag:` (non-nil title and image are retained).
    pub fn init_with_title(&mut self, title: Id, image: Id, tag: NSInteger) -> (ops: Vec<RefOp>)
        ensures
            ops@ == retain_unless_nil(title) + retain_unless_nil(image),
            final(self).title == title,
            final(self).image == image,
            final(self).tag == tag,
            final(self).badge_value == old(self).badge_value,
            final(self).enabled == old(self).enabled,
            final(self).system_item == old(self).system_item,
    {
        let mut ops: Vec<RefOp> = Vec::new();
        if title != NIL {
            ops.push(RefOp::Retain(title));
        }
        if image != NIL {
            ops.push(RefOp::Retain(image));
        }
        self.title = title;
        self.image = image;
        self.tag = tag;
        proof {
            assert(ops@ =~= retain_unless_nil(title) + retain_unless_nil(image));
        }
        ops
    }

    /// `initWithTabBarSystemItem:tag:`: records the system item and tag, and
    /// returns the default title the runtime is to create as a string (None
    /// when the item has none); see `adopt_title`.
    pub fn init_with_tab_bar_system_item(&mut self, system_item: UITabBarSystemItem, tag: NSInteger) -> (title:
        Option<&'static str>)
        ensures
            final(self).system_item == Some(system_item),
            final(self).tag == tag,
            is_known_system_item(system_item) ==> (title matches Some(t) && t@
                == spec_system_item_title(system_item)),
            !is_known_system_item(system_item) ==> title is None,
            final(self).title == old(self).title,
            final(self).image == old(self).image,
            final(self).badge_value == old(self).badge_value,
            final(self).enabled == old(self).enabled,
    {
        self.system_item = Some(system_item);
        self.tag = tag;
        let title_str = system_item_title(system_item);
        if UI_TAB_BAR_SYSTEM_ITEM_MORE <= system_item && system_item <= UI_TAB_BAR_SYSTEM_ITEM_MOST_VIEWED {
            Some(title_str)
        } else {
            None
        }
    }

    /// Stores the title string the runtime created for a system item (the
    /// item owns the new string).
    pub fn adopt_title(&mut self, title: Id)
        ensures
            final(self).title == title,
            final(self).image == old(self).image,
            final(self).badge_value == old(self).badge_value,
            final(self).tag == old(self).tag,
            final(self).enabled == old(self).enabled,
            final(self).system_item == old(self).system_item,
    {
        self.title = title;
    }

    /// `initWithCoder:` given the decoded objects (nil if absent; retained
    /// otherwise) and the tag and enabled flag present in the archive.
    pub fn init_with_coder(
        &mut self,
        title: Id,
        image: Id,
        badge: Id,
        tag: Option<NSInteger>,
        enabled: Option<bool>,
    ) -> (ops: Vec<RefOp>)
        ensures
            ops@ == retain_unless_nil(title) + retain_unless_nil(image) + retain_unless_nil(badge),
            final(self).title == nonnil_or(title, old(self).title),
            final(self).image == nonnil_or(image, old(self).image),
            final(self).badge_value == nonnil_or(badge, old(self).badge_value),
            final(self).tag == decoded_or(tag, old(self).tag),
            final(self).enabled == decoded_or(enabled, old(self).enabled),
            final(self).system_item == old(self).system_item,
    {
        let mut ops: Vec<RefOp> = Vec::new();
        if title != NIL {
            ops.push(RefOp::Retain(title));
            self.title = title;
        }
        if image != NIL {
            ops.push(RefOp::Retain(image));
            self.image = image;
        }
        if badge != NIL {
            ops.push(RefOp::Retain(badge));
            self.badge_value = badge;
        }
        if let Some(t) = tag {
            self.tag = t;
        }
        if let Some(e) = enabled {
            self.enabled = e;
        }
        proof {
            assert(ops@ =~= retain_unless_nil(title) + retain_unless_nil(image) + retain_unless_nil(
                badge,
            ));
        }
        ops
    }

    /// `setTitle:` (retained).
    pub fn set_title(&mut self, title: Id) -> (ops: Vec<RefOp>)
        ensures
            final(self).title == title,
            ops@ == release_unless_nil(old(self).title) + retain_unless_nil(title),
            final(self).image == old(self).image,
            final(self).badge_value == old(self).badge_value,
    {
        replace_retained(&mut self.title, title)
    }

    /// `setImage:` (retained).
    pub fn set_image(&mut self, image: Id) -> (ops: Vec<RefOp>)
        ensures
            final(self).image == image,
            ops@ == release_unless_nil(old(self).image) + retain_unless_nil(image),
            final(self).title == old(self).title,
            final(self).badge_value == old(self).badge_value,
    {
        replace_retained(&mut self.image, image)
    }

    /// `setBadgeValue:` (retained).
    pub fn set_badge_value(&mut self, badge: Id) -> (ops: Vec<RefOp>)
        ensures
            final(self).badge_value == badge,
            ops@ == release_unless_nil(old(self).badge_value) + retain_unless_nil(badge),
            final(self).title == old(self).title,
            final(self).image == old(self).image,
    {
        replace_retained(&mut self.badge_value, badge)
    }

    /// What `dealloc` releases: title, image, badge value (nil ones
    /// skipped).
    pub fn dealloc_releases(&self) -> (ops: Vec<RefOp>)
        ensures
            ops@ == release_unless_nil(self.title) + release_unless_nil(self.image)
                + release_unless_nil(self.badge_value),
    {
        let mut ops: Vec<RefOp> = Vec::new();
        if self.title != NIL {
            ops.push(RefOp::Release(self.title));
        }
        if self.image != NIL {
            ops.push(RefOp::Release(self.image));
        }
        if self.badge_value != NIL {
            ops.push(RefOp::Release(self.badge_value));
        }
        proof {
            assert(ops@ =~= release_unless_nil(self.title) + release_unless_nil(self.image)
                + release_unless_nil(self.badge_value));
        }
        ops
    }
}


/// Each known system tab bar item is titled with its own name (More,
/// Favorites, Featured, Top Rated, Recents, Contacts, History, Bookmarks,
/// Search, Downloads, Most Recent, Most Viewed), so no two known items share
/// a title; an unknown item has an empty title.
pub proof fn lemma_system_item_titles()
    ensures
        spec_system_item_title(UI_TAB_BAR_SYSTEM_ITEM_MORE) == "More"@,
        spec_system_item_title(UI_TAB_BAR_SYSTEM_ITEM_FAVORITES) == "Favorites"@,
        spec_system_item_title(UI_TAB_BAR_SYSTEM_ITEM_FEATURED) == "Featured"@,
        spec_system_item_title(UI_TAB_BAR_SYSTEM_ITEM_TOP_RATED) == "Top Rated"@,
        spec_system_item_title(UI_TAB_BAR_SYSTEM_ITEM_RECENTS) == "Recents"@,
        spec_system_item_title(UI_TAB_BAR_SYSTEM_ITEM_CONTACTS) == "Contacts"@,
        spec_system_item_title(UI_TAB_BAR_SYSTEM_ITEM_HISTORY) == "History"@,
        spec_system_item_title(UI_TAB_BAR_SYSTEM_ITEM_BOOKMARKS) == "Bookmarks"@,
        spec_system_item_title(UI_TAB_BAR_SYSTEM_ITEM_SEARCH) == "Search"@,
        spec_system_item_title(UI_TAB_BAR_SYSTEM_ITEM_DOWNLOADS) == "Downloads"@,
        spec_system_item_title(UI_TAB_BAR_SYSTEM_ITEM_MOST_RECENT) == "Most Recent"@,
        spec_system_item_title(UI_TAB_BAR_SYSTEM_ITEM_MOST_VIEWED) == "Most Viewed"@,
        forall|a: UITabBarSystemItem, b: UITabBarSystemItem|
            is_known_system_item(a) && is_known_system_item(b) && a != b ==> spec_system_item_title(a)
                != spec_system_item_title(b),
        forall|a: UITabBarSystemItem| !is_known_system_item(a) ==> spec_system_item_title(a) == ""@,
{
    reveal_strlit("More");
    reveal_strlit("Favorites");
    reveal_strlit("Featured");
    reveal_strlit("Top Rated");
    reveal_strlit("Recents");
    reveal_strlit("Contacts");
    reveal_strlit("History");
    reveal_strlit("Bookmarks");
    reveal_strlit("Search");
    reveal_strlit("Downloads");
    reveal_strlit("Most Recent");
    reveal_strlit("Most Viewed");
    assert forall|a: UITabBarSystemItem, b: UITabBarSystemItem|
        is_known_system_item(a) && is_known_system_item(b) && a != b implies spec_system_item_title(a)
            != spec_system_item_title(b) by {
        let ta = spec_system_item_title(a);
        let tb = spec_system_item_title(b);
        if ta == tb {
            assert(ta.len() == tb.len());
            assert(ta[0] == tb[0]);
            assert(ta[5] == tb[5]);
        }
    }
}

} // verus!
