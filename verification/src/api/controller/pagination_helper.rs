//! The paging and sorting a client asks of a product list.

use vstd::prelude::*;
use crate::text::{str_views, int_decimal, seq_join, string_views};

verus! {

pub const DEFAULT_PAGE: i64 = 0;
pub const DEFAULT_PAGE_SIZE: i64 = 20;
pub const MIN_PAGE_SIZE: i64 = 1;
pub const MAX_PAGE_SIZE: i64 = 2000;
pub const DEFAULT_SORT: &'static str = "id,asc";

/// The page, page size and sorts a client asks for; each may be absent.
pub struct Pagination {
    pub page: Option<i64>,
    pub size: Option<i64>,
    pub sort: Option<Vec<String>>,
}

/// The page size used for a requested one: the default for sizes of zero or
/// less, otherwise the size capped at the maximum.
pub open spec fn sanitize_size(size: i64) -> i64 {
    if size <= 0 {
        DEFAULT_PAGE_SIZE
    } else if size > MAX_PAGE_SIZE {
        MAX_PAGE_SIZE
    } else {
        size
    }
}

/// The page used for a requested one: negative pages count as the first.
pub open spec fn sanitize_page(page: i64) -> i64 {
    if page < DEFAULT_PAGE {
        DEFAULT_PAGE
    } else {
        page
    }
}

fn sanitized_size(size: i64) -> (r: i64)
    ensures
        r == sanitize_size(size),
{
    let mut size = size;
    if size <= 0 {
        size = DEFAULT_PAGE_SIZE;
    }
    let at_least_min = if size > MIN_PAGE_SIZE { size } else { MIN_PAGE_SIZE };
    if MAX_PAGE_SIZE < at_least_min { MAX_PAGE_SIZE } else { at_least_min }
}

impl Pagination {
    /// The page number that is used.
    pub open spec fn spec_page(&self) -> i64 {
        sanitize_page(
            match self.page {
                Some(p) => p,
                None => DEFAULT_PAGE,
            },
        )
    }

    /// The page size that is used.
    pub open spec fn spec_size(&self) -> i64 {
        sanitize_size(
            match self.size {
                Some(s) => s,
                None => DEFAULT_PAGE_SIZE,
            },
        )
    }

    /// The sorts asked for, or the default sort when none is given.
    pub open spec fn spec_sorts(&self) -> Seq<Seq<char>> {
        match self.sort {
            Some(v) => string_views(v@),
            None => seq![DEFAULT_SORT@],
        }
    }

    /// The query string that asks for this paging again.
    pub open spec fn spec_query(&self) -> Seq<char> {
        "page="@ + int_decimal(
            match self.page {
                Some(p) => p as int,
                None => DEFAULT_PAGE as int,
            },
        ) + "&size="@ + int_decimal(
            match self.size {
                Some(s) => s as int,
                None => DEFAULT_PAGE_SIZE as int,
            },
        ) + match self.sort {
            Some(v) => "&sort="@ + seq_join(string_views(v@), ","@),
            None => Seq::empty(),
        }
    }

    /// Nothing asked for: the first page of the default size, default sort.
    pub fn default() -> (p: Pagination)
        ensures
            p.page.is_none(),
            p.size.is_none(),
            p.sort.is_none(),
    {
        Pagination { page: None, size: None, sort: None }
    }

    /// Asks for pages of the given size, as the page size is used.
    pub fn set_size(&mut self, size: i64)
        ensures
            final(self).size == Some(sanitize_size(size)),
            final(self).page == old(self).page,
            final(self).sort == old(self).sort,
    {
        self.size = Some(sanitized_size(size));
    }

    pub fn get_page(&self) -> (r: i64)
        ensures
            r == self.spec_page(),
    {
        let page = match self.page {
            Some(p) => p,
            None => DEFAULT_PAGE,
        };
        if DEFAULT_PAGE > page { DEFAULT_PAGE } else { page }
    }

    pub fn get_size(&self) -> (r: i64)
        ensures
            r == self.spec_size(),
    {
        let size = match self.size {
            Some(s) => s,
            None => DEFAULT_PAGE_SIZE,
        };
        sanitized_size(size)
    }

    /// The sorts asked for, as given, or the default sort.
    pub fn get_unsanitized_sorts(&self) -> (r: Vec<&str>)
        ensures
            str_views(r@) == self.spec_sorts(),
    {
        match &self.sort {
            Some(sorts) => {
                let mut r: Vec<&str> = Vec::new();
                let mut i: usize = 0;
                while i < sorts.len()
                    invariant
                        i <= sorts.len(),
                        r@.len() == i,
                        str_views(r@) == string_views(sorts@).take(i as int),
                    decreases sorts.len() - i,
                {
                    let ghost before = r@;
                    let x = sorts[i].as_str();
                    r.push(x);
                    proof {
                        assert(r@ == before.push(x));
                        assert(x@ == sorts@[i as int]@);
                        assert(str_views(r@).len() == i + 1);
                        assert(str_views(r@)[i as int] == x@);
                        assert(string_views(sorts@).take(i + 1 as int)[i as int] == sorts@[i as int]@);
                        assert forall|j: int| 0 <= j < i + 1 implies #[trigger] str_views(r@)[j]
                            == string_views(sorts@).take(i + 1 as int)[j] by {
                            if j < i {
                                assert(before.map_values(|s: &str| s@)[j] == string_views(
                                    sorts@,
                                ).take(i as int)[j]);
                            }
                        }
                        assert(str_views(r@) =~= string_views(sorts@).take(
                            i + 1 as int,
                        ));
                    }
                    i = i + 1;
                }
                assert(string_views(sorts@).take(sorts.len() as int) =~= string_views(sorts@));
                r
            },
            None => {
                let r = vec![DEFAULT_SORT];
                assert(str_views(r@) =~= seq![DEFAULT_SORT@]);
                r
            },
        }
    }

    /// The query string that asks for this paging again: page and size as
    /// given (or their defaults) and the sorts, if any, joined by commas.
    pub fn as_str(&self) -> (q: String)
        ensures
            q@ == self.spec_query(),
    {
        let mut query = crate::text::to_owned_string("page=");
        let page = match self.page {
            Some(p) => p,
            None => DEFAULT_PAGE,
        };
        let page_s = crate::text::i64_to_string(page);
        crate::text::push_str(&mut query, page_s.as_str());
        crate::text::push_str(&mut query, "&size=");
        let size = match self.size {
            Some(s) => s,
            None => DEFAULT_PAGE_SIZE,
        };
        let size_s = crate::text::i64_to_string(size);
        crate::text::push_str(&mut query, size_s.as_str());
        if let Some(sorts) = &self.sort {
            crate::text::push_str(&mut query, "&sort=");
            let joined = crate::text::join_strings(sorts, ",");
            crate::text::push_str(&mut query, joined.as_str());
        }
        assert(query@ =~= self.spec_query());
        query
    }
}

/// The page size used always lies between the minimum and the maximum, and
/// the page used is never negative.
pub proof fn lemma_pagination_bounds(p: Pagination)
    ensures
        MIN_PAGE_SIZE <= p.spec_size() <= MAX_PAGE_SIZE,
        p.spec_page() >= DEFAULT_PAGE,
{
}

/// After a page size is set, the size used is that size made valid; setting
/// the size used again changes nothing.
pub proof fn lemma_set_size_then_get_size(size: i64)
    ensures
        (Pagination { page: None, size: Some(sanitize_size(size)), sort: None }).spec_size()
            == sanitize_size(size),
        sanitize_size(sanitize_size(size)) == sanitize_size(size),
        MIN_PAGE_SIZE <= size <= MAX_PAGE_SIZE ==> sanitize_size(size) == size,
{
}

} // verus!
