//! Pages of the article list: page `p` holds the articles numbered
//! `10p - 9` to `10p`.
use vstd::prelude::*;

verus! {

/// Articles on one page.
pub const PAGE_SIZE: u32 = 10;

/// The highest page whose last number fits in a `u32`.
pub const LAST_PAGE: u32 = 429496729;

/// The number of the first article on page `page`.
pub open spec fn first_id(page: int) -> int {
    page * 10 - 9
}

/// The number of the last article on page `page`.
pub open spec fn last_id(page: int) -> int {
    page * 10
}

/// The numbers of the first and the last article on page `page`.
pub fn page_bounds(page: u32) -> (res: (u32, u32))
    requires
        1 <= page <= LAST_PAGE,
    ensures
        res.0 == first_id(page as int),
        res.1 == last_id(page as int),
{
    (page * PAGE_SIZE - 9, page * PAGE_SIZE)
}

/// A page holds ten numbers, and the page after it starts right after its
/// last one: pages neither overlap nor leave gaps.
pub proof fn lemma_pages_tile(page: int)
    requires
        page >= 1,
    ensures
        last_id(page) - first_id(page) + 1 == 10,
        first_id(page) >= 1,
        first_id(page + 1) == last_id(page) + 1,
{
}

/// Two different pages share no article number.
pub proof fn lemma_pages_disjoint(p: int, q: int, id: int)
    requires
        1 <= p,
        1 <= q,
        p != q,
        first_id(p) <= id <= last_id(p),
    ensures
        !(first_id(q) <= id <= last_id(q)),
{
}

/// The page an article number lies on.
pub open spec fn page_of(id: int) -> int {
    (id + 9) / 10
}

/// Every article number from 1 on lies on a page, `page_of(id)`; with
/// `lemma_pages_disjoint` the pages split the numbers among them, each on
/// exactly one page.
pub proof fn lemma_pages_cover(id: int)
    requires
        id >= 1,
    ensures
        page_of(id) >= 1,
        first_id(page_of(id)) <= id <= last_id(page_of(id)),
{
    assert(page_of(id) >= 1 && page_of(id) * 10 - 9 <= id <= page_of(id) * 10) by (nonlinear_arith)
        requires
            id >= 1,
    {
        assert((id + 9) / 10 * 10 <= id + 9 < (id + 9) / 10 * 10 + 10);
    }
}

} // verus!
