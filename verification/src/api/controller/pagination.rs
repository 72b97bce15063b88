//! The paging and single sort a client asks of a product list.

use vstd::prelude::*;

verus! {

pub const DEFAULT_PAGE: i64 = 0;
pub const DEFAULT_PAGE_SIZE: i64 = 20;
pub const MIN_PAGE_SIZE: i64 = 1;
pub const MAX_PAGE_SIZE: i64 = 2000;
pub const DEFAULT_SORT: &'static str = "id,asc";

/// The page, page size and sort a client asks for; each may be absent.
pub struct Pagination {
    pub page: Option<i64>,
    pub size: Option<i64>,
    pub sort: Option<String>,
}

impl Pagination {
    /// The page number that is used: the one asked for, the first when none
    /// is, and negative pages counted as the first.
    pub open spec fn spec_page(&self) -> i64 {
        match self.page {
            Some(p) => if p < DEFAULT_PAGE { DEFAULT_PAGE } else { p },
            None => DEFAULT_PAGE,
        }
    }

    /// The page size that is used: the default for none or sizes of zero or
    /// less, otherwise the size capped at the maximum.
    pub open spec fn spec_size(&self) -> i64 {
        match self.size {
            Some(s) => if s <= 0 {
                DEFAULT_PAGE_SIZE
            } else if s > MAX_PAGE_SIZE {
                MAX_PAGE_SIZE
            } else {
                s
            },
            None => DEFAULT_PAGE_SIZE,
        }
    }

    pub fn default() -> (p: Pagination)
        ensures
            p.page.is_none(),
            p.size.is_none(),
            p.sort.is_none(),
    {
        Pagination { page: None, size: None, sort: None }
    }

    pub fn get_page(&self) -> (r: i64)
        ensures
            r == self.spec_page(),
    {
        let page = match self.page {
            Some(p) => p,
            None => DEFAULT_PAGE,
        };
        if DEFAULT_PAGE > page { DEFAULT_PAGE } else { page }
    }

    pub fn get_size(&self) -> (r: i64)
        ensures
            r == self.spec_size(),
    {
        let mut size = match self.size {
            Some(s) => s,
            None => DEFAULT_PAGE_SIZE,
        };
        if size <= 0 {
            size = DEFAULT_PAGE_SIZE;
        }
        let at_least_min = if size > MIN_PAGE_SIZE { size } else { MIN_PAGE_SIZE };
        if MAX_PAGE_SIZE < at_least_min { MAX_PAGE_SIZE } else { at_least_min }
    }

    /// The sort asked for, as given, or the default sort.
    pub fn get_unsanitized_sort(&self) -> (r: &str)
        ensures
            r@ == match self.sort {
                Some(s) => s@,
                None => DEFAULT_SORT@,
            },
    {
        match &self.sort {
            Some(s) => s.as_str(),
            None => DEFAULT_SORT,
        }
    }
}

/// The page size used always lies between the minimum and the maximum, and
/// the page used is never negative.
pub proof fn lemma_pagination_bounds(p: Pagination)
    ensures
        MIN_PAGE_SIZE <= p.spec_size() <= MAX_PAGE_SIZE,
        p.spec_page() >= DEFAULT_PAGE,
{
}

} // verus!
