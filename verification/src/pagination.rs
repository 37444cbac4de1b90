//! The cursor-pagination reader: a collector that follows a server-supplied
//! next-page pointer until it is absent, accumulating the items of each page
//! in order. One-time query parameters are carried by the first request only,
//! so that following the next-page pointer does not duplicate them.

use vstd::prelude::*;

verus! {

/// Page size requested from the remote API.
pub const PAGE_LIMIT_VALUE: &'static str = "50";

/// Pagination fields the remote API must include in a field-scoped response
/// so that the next-page pointer survives the field selection.
pub const PAGINATION_FIELDS: &'static str = "href,next,previous,limit,offset,total,";

/// One page of a cursor-paged listing.
#[derive(Debug)]
pub struct PaginatedResponse<T> {
    pub limit: u32,
    pub offset: u32,
    pub total: u32,
    pub href: String,
    /// Where the next page is, if there is one.
    pub next: Option<String>,
    pub previous: Option<String>,
    pub items: Vec<T>,
}

/// Accumulates a complete listing out of successive pages. A fresh collector
/// re-fetches from scratch: nothing of an earlier walk survives into a new
/// one.
#[derive(Debug)]
pub struct PageCollector<T> {
    /// Items of all absorbed pages, in order.
    pub items: Vec<T>,
    /// Address of the next page to request; none when the walk is complete.
    pub next_url: Option<String>,
    /// Whether the first request has been made; later requests must not
    /// repeat the one-time query parameters.
    pub started: bool,
}

impl<T> PageCollector<T> {
    /// Begin a walk at `start_url`.
    pub fn new(start_url: String) -> (r: PageCollector<T>)
        ensures
            r.items@ == Seq::<T>::empty(),
            r.next_url matches Some(u) && u == start_url,
            !r.started,
    {
        PageCollector { items: Vec::new(), next_url: Some(start_url), started: false }
    }

    /// The address the collector wants fetched next, if the walk is not yet
    /// complete, and whether that request must carry the one-time query
    /// parameters: only the first request does.
    pub fn pending_fetch(&self) -> (r: Option<(String, bool)>)
        ensures
            match r {
                Some(p) => (self.next_url matches Some(u) && p.0 == u) && p.1 == !self.started,
                None => self.next_url is None,
            },
    {
        match &self.next_url {
            Some(u) => Some((u.clone(), !self.started)),
            None => None,
        }
    }

    /// Absorb one fetched page: its items are appended in order and the
    /// server's next-page pointer replaces the current address.
    pub fn absorb_page(&mut self, page: PaginatedResponse<T>)
        requires
            old(self).next_url is Some,
        ensures
            final(self).items@ == old(self).items@ + page.items@,
            final(self).next_url == page.next,
            final(self).started,
    {
        let mut incoming = page.items;
        self.items.append(&mut incoming);
        self.next_url = page.next;
        self.started = true;
    }

    /// The complete listing, once no next page remains.
    pub fn into_items(self) -> (r: Vec<T>)
        requires
            self.next_url is None,
        ensures
            r@ == self.items@,
    {
        self.items
    }
}

/// The query parameters of one page request. The first request carries the
/// page limit and, when the listing is field-scoped, a field selection that
/// keeps the pagination fields; every later request follows the next-page
/// pointer bare, so one-time parameters are never duplicated.
pub fn page_query(first_request: bool, fields: &Option<String>) -> (r: Vec<(String, String)>)
    ensures
        !first_request ==> r@.len() == 0,
        first_request ==> ({
            &&& r@.len() >= 1
            &&& r@[0].0@ == "limit"@
            &&& r@[0].1@ == "50"@
            &&& match fields {
                None => r@.len() == 1,
                Some(f) => r@.len() == 2 && r@[1].0@ == "fields"@ && r@[1].1@
                    == "href,next,previous,limit,offset,total,"@ + f@,
            }
        }),
{
    let mut q: Vec<(String, String)> = Vec::new();
    if !first_request {
        return q;
    }
    q.push((String::from_str("limit"), String::from_str(PAGE_LIMIT_VALUE)));
    match fields {
        Some(f) => {
            let scoped = String::from_str(PAGINATION_FIELDS).concat(f.as_str());
            q.push((String::from_str("fields"), scoped));
        },
        None => {},
    }
    q
}

} // verus!
