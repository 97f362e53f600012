//! Pages of results and the walk over all pages of a listing.
use vstd::prelude::*;

verus! {

/// A paginated response from a provider API.
#[derive(Debug, Clone)]
pub struct PaginatedResponse<T> {
    /// Current page number (1-indexed).
    pub page: u32,
    /// Items on this page.
    pub results: Vec<T>,
    /// Total number of pages available.
    pub total_pages: u32,
    /// Total number of results across all pages.
    pub total_results: u32,
}

impl<T> PaginatedResponse<T> {
    /// Returns `true` if there are more pages after this one.
    pub fn has_next_page(&self) -> (b: bool)
        ensures
            b == (self.page < self.total_pages),
    {
        self.page < self.total_pages
    }

    /// Returns the next page number, or `None` if this is the last page.
    pub fn next_page(&self) -> (r: Option<u32>)
        ensures
            r == (if self.page < self.total_pages { Some((self.page + 1) as u32) } else { None::<u32> }),
    {
        if self.has_next_page() { Some(self.page + 1) } else { None }
    }
}

/// One step of a page walk: after the response to page `p`, the walk goes on
/// with page `p + 1` when that response has a next page, and ends otherwise.
pub open spec fn walk_step(next: Option<u32>, has_next: bool) -> Option<u32> {
    match next {
        Some(p) => if has_next { Some((p + 1) as u32) } else { None },
        None => None,
    }
}

/// Where a walk stands after the responses whose next-page flags are `flags`.
pub open spec fn walk_after(flags: Seq<bool>) -> Option<u32>
    decreases flags.len(),
{
    if flags.len() == 0 {
        Some(1u32)
    } else {
        walk_step(walk_after(flags.drop_last()), flags.last())
    }
}

/// The walk over all pages of a listing: pages are requested one after the
/// other from page 1, and the walk stops after the first response that has
/// no next page.
#[derive(Debug, Clone, Copy, PartialEq, Eq, Structural)]
pub struct PageWalk {
    /// The page to request next, or `None` once the walk is over.
    pub next: Option<u32>,
}

impl PageWalk {
    /// A walk that starts at page 1.
    pub fn start() -> (w: PageWalk)
        ensures
            w.next == Some(1u32),
    {
        PageWalk { next: Some(1) }
    }

    /// Records the response to the page that was requested last: the walk goes
    /// on with the following page when that response has a next page, and ends
    /// otherwise.
    pub fn record(&mut self, has_next: bool)
        requires
            old(self).next is Some,
            has_next ==> old(self).next->0 < u32::MAX,
        ensures
            final(self).next == walk_step(old(self).next, has_next),
    {
        match self.next {
            Some(p) => {
                if has_next {
                    self.next = Some(p + 1);
                } else {
                    self.next = None;
                }
            },
            None => {},
        }
    }
}

} // verus!
