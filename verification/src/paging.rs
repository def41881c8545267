//! Pages of a listing. A page is cut out of the rows in their order by a
//! limit and an offset; the laws here say that pages cut this way cover
//! the rows once.

use crate::query::page_offset;
use vstd::prelude::*;

verus! {

/// A position clipped to the rows that there are.
pub open spec fn clipped(position: int, rows: nat) -> int {
    if position < 0 {
        0
    } else if position > rows {
        rows as int
    } else {
        position
    }
}

/// The rows of one page, out of all rows in their order: the rows that
/// follow the first [`page_offset`] rows, up to `limit` of them.
pub open spec fn page_rows<T>(all: Seq<T>, page: int, limit: int) -> Seq<T> {
    let start = clipped(page_offset(page, limit), all.len());
    let end = clipped(start + limit, all.len());
    all.subrange(start, end)
}

/// The pages from the first to page `last`, one after the other.
pub open spec fn pages_through<T>(all: Seq<T>, last: int, limit: int) -> Seq<T>
    decreases last,
{
    if last <= 0 {
        Seq::empty()
    } else {
        pages_through(all, last - 1, limit) + page_rows(all, last, limit)
    }
}

/// The first page starts with the first row, and each page starts where
/// the one before it ends.
pub proof fn law_pages_follow_each_other(page: int, limit: int)
    ensures
        page_offset(1, limit) == 0,
        page_offset(page + 1, limit) == page_offset(page, limit) + limit,
{
    assert((page + 1 - 1) * limit == (page - 1) * limit + limit) by (nonlinear_arith);
}

/// Stepped by one limit, the pages follow each other without a gap and
/// without an overlap: the first `last` pages are the first `last * limit`
/// rows, each row once and in order. So the pages up to one that reaches
/// the end are all the rows.
pub proof fn law_pages_tile<T>(all: Seq<T>, last: int, limit: int)
    requires
        limit >= 1,
        last >= 0,
    ensures
        pages_through(all, last, limit) == all.take(clipped(last * limit, all.len())),
        last * limit >= all.len() ==> pages_through(all, last, limit) == all,
    decreases last,
{
    let rows = all.len() as int;
    let covered = last * limit;
    if last == 0 {
        assert(covered == 0) by (nonlinear_arith)
            requires
                covered == last * limit,
                last == 0,
        ;
        assert(all.take(0) =~= Seq::<T>::empty());
    } else {
        law_pages_tile(all, last - 1, limit);
        law_pages_follow_each_other(last - 1, limit);
        let before = page_offset(last, limit);
        assert(before == (last - 1) * limit);
        assert(before >= 0 && covered == before + limit) by (nonlinear_arith)
            requires
                before == (last - 1) * limit,
                covered == last * limit,
                last >= 1,
                limit >= 1,
        ;
        let start = clipped(before, all.len());
        let end = clipped(start + limit, all.len());
        if before >= rows {
            assert(start == rows && end == rows);
        } else {
            assert(start == before && start + limit == covered);
        }
        assert(end == clipped(covered, all.len()));
        assert(pages_through(all, last - 1, limit) == all.take(start));
        assert(page_rows(all, last, limit) == all.subrange(start, end));
        assert(all.take(start) + all.subrange(start, end) =~= all.take(end));
    }
    if covered >= rows {
        assert(all.take(rows) =~= all);
    }
}

} // verus!
