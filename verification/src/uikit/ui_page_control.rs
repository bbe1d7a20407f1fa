//! `UIPageControl`.

use vstd::prelude::*;
use crate::guest::{Id, NIL, NSInteger, RefOp, release_unless_nil, retain_unless_nil, replace_retained};

verus! {

pub struct UIPageControlHostObject {
    pub number_of_pages: NSInteger,
    pub current_page: NSInteger,
    pub hides_for_single_page: bool,
    pub defers_current_page_display: bool,
    /// `UIColor*`
    pub page_indicator_tint_color: Id,
    /// `UIColor*`
    pub current_page_indicator_tint_color: Id,
}

impl Default for UIPageControlHostObject {
    fn default() -> (h: Self)
        ensures
            h.number_of_pages == 0,
            h.current_page == 0,
            !h.hides_for_single_page,
            !h.defers_current_page_display,
            h.page_indicator_tint_color == NIL,
            h.current_page_indicator_tint_color == NIL,
    {
        UIPageControlHostObject {
            number_of_pages: 0,
            current_page: 0,
            hides_for_single_page: false,
            defers_current_page_display: false,
            page_indicator_tint_color: NIL,
            current_page_indicator_tint_color: NIL,
        }
    }
}

/// The last page of `n` pages (0 when there are none).
pub open spec fn last_page(n: int) -> int {
    if n >= 1 { n - 1 } else { 0 }
}

/// `page` clamped to the pages `0..=last_page(n)`.
pub open spec fn clamp_page(page: int, n: int) -> int {
    if page < 0 {
        0
    } else if page > last_page(n) {
        last_page(n)
    } else {
        page
    }
}

fn last_page_exec(n: NSInteger) -> (r: NSInteger)
    ensures
        r == last_page(n as int),
{
    if n >= 1 {
        n - 1
    } else {
        0
    }
}

impl UIPageControlHostObject {
    /// `initWithCoder:` given the decoded values present in the archive
    /// (stored as they are) and the tint colors (nil if absent; retained
    /// otherwise).
    pub fn init_with_coder(
        &mut self,
        pages: Option<NSInteger>,
        current: Option<NSInteger>,
        hides: Option<bool>,
        defers: Option<bool>,
        page_tint: Id,
        current_tint: Id,
    ) -> (ops: Vec<RefOp>)
        ensures
            ops@ == retain_unless_nil(page_tint) + retain_unless_nil(current_tint),
            final(self).number_of_pages == (match pages {
                Some(p) => p,
                None => old(self).number_of_pages,
            }),
            final(self).current_page == (match current {
                Some(c) => c,
                None => old(self).current_page,
            }),
            final(self).hides_for_single_page == (match hides {
                Some(h) => h,
                None => old(self).hides_for_single_page,
            }),
            final(self).defers_current_page_display == (match defers {
                Some(d) => d,
                None => old(self).defers_current_page_display,
            }),
            final(self).page_indicator_tint_color == (if page_tint != NIL {
                page_tint
            } else {
                old(self).page_indicator_tint_color
            }),
            final(self).current_page_indicator_tint_color == (if current_tint != NIL {
                current_tint
            } else {
                old(self).current_page_indicator_tint_color
            }),
    {
        if let Some(p) = pages {
            self.number_of_pages = p;
        }
        if let Some(c) = current {
            self.current_page = c;
        }
        if let Some(h) = hides {
            self.hides_for_single_page = h;
        }
        if let Some(d) = defers {
            self.defers_current_page_display = d;
        }
        let mut ops: Vec<RefOp> = Vec::new();
        if page_tint != NIL {
            ops.push(RefOp::Retain(page_tint));
            self.page_indicator_tint_color = page_tint;
        }
        if current_tint != NIL {
            ops.push(RefOp::Retain(current_tint));
            self.current_page_indicator_tint_color = current_tint;
        }
        proof {
            assert(ops@ =~= retain_unless_nil(page_tint) + retain_unless_nil(current_tint));
        }
        ops
    }

    /// `setNumberOfPages:`: a current page that is no longer a page moves to
    /// the last page.
    pub fn set_number_of_pages(&mut self, pages: NSInteger)
        ensures
            final(self).number_of_pages == pages,
            final(self).current_page == (if old(self).current_page >= pages {
                last_page(pages as int) as i32
            } else {
                old(self).current_page
            }),
            final(self).page_indicator_tint_color == old(self).page_indicator_tint_color,
            final(self).current_page_indicator_tint_color == old(
                self,
            ).current_page_indicator_tint_color,
            final(self).hides_for_single_page == old(self).hides_for_single_page,
            final(self).defers_current_page_display == old(self).defers_current_page_display,
    {
        self.number_of_pages = pages;
        // Adjust current page if out of bounds
        if self.current_page >= pages {
            self.current_page = last_page_exec(pages);
        }
    }

    /// `setCurrentPage:`: the page is clamped to the existing pages.
    pub fn set_current_page(&mut self, page: NSInteger)
        ensures
            final(self).current_page == clamp_page(page as int, old(self).number_of_pages as int),
            final(self).number_of_pages == old(self).number_of_pages,
            final(self).page_indicator_tint_color == old(self).page_indicator_tint_color,
            final(self).current_page_indicator_tint_color == old(
                self,
            ).current_page_indicator_tint_color,
            final(self).hides_for_single_page == old(self).hides_for_single_page,
            final(self).defers_current_page_display == old(self).defers_current_page_display,
    {
        let max = last_page_exec(self.number_of_pages);
        let clamped = if page < 0 {
            0
        } else if page > max {
            max
        } else {
            page
        };
        self.current_page = clamped;
    }

    /// `setPageIndicatorTintColor:` (retained).
    pub fn set_page_indicator_tint_color(&mut self, color: Id) -> (ops: Vec<RefOp>)
        ensures
            final(self).page_indicator_tint_color == color,
            ops@ == release_unless_nil(old(self).page_indicator_tint_color) + retain_unless_nil(
                color,
            ),
            final(self).current_page_indicator_tint_color == old(
                self,
            ).current_page_indicator_tint_color,
            final(self).number_of_pages == old(self).number_of_pages,
            final(self).current_page == old(self).current_page,
    {
        replace_retained(&mut self.page_indicator_tint_color, color)
    }

    /// `setCurrentPageIndicatorTintColor:` (retained).
    pub fn set_current_page_indicator_tint_color(&mut self, color: Id) -> (ops: Vec<RefOp>)
        ensures
            final(self).current_page_indicator_tint_color == color,
            ops@ == release_unless_nil(old(self).current_page_indicator_tint_color)
                + retain_unless_nil(color),
            final(self).page_indicator_tint_color == old(self).page_indicator_tint_color,
            final(self).number_of_pages == old(self).number_of_pages,
            final(self).current_page == old(self).current_page,
    {
        replace_retained(&mut self.current_page_indicator_tint_color, color)
    }

    /// What `dealloc` releases: both tint colors (nil ones skipped).
    pub fn dealloc_releases(&self) -> (ops: Vec<RefOp>)
        ensures
            ops@ == release_unless_nil(self.page_indicator_tint_color) + release_unless_nil(
                self.current_page_indicator_tint_color,
            ),
    {
        let mut ops: Vec<RefOp> = Vec::new();
        if self.page_indicator_tint_color != NIL {
            ops.push(RefOp::Release(self.page_indicator_tint_color));
        }
        if self.current_page_indicator_tint_color != NIL {
            ops.push(RefOp::Release(self.current_page_indicator_tint_color));
        }
        proof {
            assert(ops@ =~= release_unless_nil(self.page_indicator_tint_color) + release_unless_nil(
                self.current_page_indicator_tint_color,
            ));
        }
        ops
    }
}

/// The page `setCurrentPage:` settles on is always an existing page (page 0
/// when there are none), a page that exists is taken as it is, and setting
/// the page it settled on again changes nothing.
pub proof fn lemma_current_page_in_range(page: int, n: int)
    ensures
        0 <= clamp_page(page, n) <= last_page(n),
        n >= 1 ==> clamp_page(page, n) < n,
        0 <= page < n ==> clamp_page(page, n) == page,
        clamp_page(clamp_page(page, n), n) == clamp_page(page, n),
{
}

/// After `setNumberOfPages:` a current page that was an existing page
/// stays one: if it is not below the new count it moves to the last page.
pub proof fn lemma_pages_shrink_keeps_page_valid(current: int, n: int)
    requires
        current >= 0,
    ensures
        ({
            let c = if current >= n { last_page(n) } else { current };
            &&& 0 <= c
            &&& n >= 1 ==> c < n
        }),
{
}

} // verus!
