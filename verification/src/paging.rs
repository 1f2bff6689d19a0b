use vstd::prelude::*;
use vstd::slice::slice_subrange;

verus! {

/// Number of articles shown on one page of the article index.
pub const PAGE_SIZE: usize = 10;

/// The smaller of two numbers.
pub open spec fn least(a: nat, b: nat) -> nat {
    if a <= b {
        a
    } else {
        b
    }
}

/// Where page `index` begins in a list of `len` items cut into pages of
/// `size`: at `index * size`, or at the end of the list if that lies beyond.
pub open spec fn page_start(len: nat, index: nat, size: nat) -> nat {
    least(index * size, len)
}

/// Where page `index` ends: `size` items behind its beginning, or at the
/// end of the list if fewer are left.
pub open spec fn page_end(len: nat, index: nat, size: nat) -> nat {
    least(page_start(len, index, size) + size, len)
}

/// Page `index` of the list `s` cut into pages of `size`, counted from 0.
pub open spec fn page_of<T>(s: Seq<T>, index: nat, size: nat) -> Seq<T> {
    s.subrange(page_start(s.len(), index, size) as int, page_end(s.len(), index, size) as int)
}

/// How many pages of `size` the first `total` items fill. Items left over
/// behind the last full page are not counted as a page.
pub open spec fn full_pages(total: nat, size: nat) -> nat
    recommends
        size > 0,
{
    total / size
}

/// Cuts page `page_index` out of `ordered`: the items from position
/// `page_index * page_size` on, `page_size` of them or as many as are left.
/// A page beyond the end of the list is empty.
pub fn paginate<'a, T>(ordered: &'a [T], page_index: u16, page_size: usize) -> (page: &'a [T])
    ensures
        page@ == page_of(ordered@, page_index as nat, page_size as nat),
        page@.len() <= page_size,
        page_index * page_size >= ordered@.len() ==> page@.len() == 0,
{
    let len: usize = ordered.len();
    assert(page_index as u128 * page_size as u128 <= 0xffff * 0xffff_ffff_ffff_ffff)
        by (nonlinear_arith)
        requires
            page_index <= 0xffff,
            page_size <= 0xffff_ffff_ffff_ffff,
    ;
    let offset: u128 = page_index as u128 * page_size as u128;
    let start: usize = if offset < len as u128 {
        offset as usize
    } else {
        len
    };
    let end: usize = if page_size < len - start {
        start + page_size
    } else {
        len
    };
    slice_subrange(ordered, start, end)
}

/// Counts the full pages that `total` items fill, `page_size` to a page.
/// The division rounds down: 25 items in pages of 10 count as 2 pages,
/// though 5 items stand on a third.
pub fn page_count(total: usize, page_size: usize) -> (pages: u16)
    requires
        page_size > 0,
        total / page_size <= u16::MAX,
    ensures
        pages == full_pages(total as nat, page_size as nat),
{
    let pages: usize = total / page_size;
    pages as u16
}

/// The pages of a list, one behind the other, are the list: nothing is
/// shown twice and nothing is left out up to the end of page `index`.
pub proof fn lemma_pages_join<T>(s: Seq<T>, index: nat, size: nat)
    ensures
        s.take(page_start(s.len(), index, size) as int) + page_of(s, index, size) == s.take(
            page_end(s.len(), index, size) as int,
        ),
        page_end(s.len(), index, size) == page_start(s.len(), index + 1, size),
{
    assert((index + 1) * size == index * size + size) by (nonlinear_arith);
    assert(s.take(page_start(s.len(), index, size) as int) + page_of(s, index, size) =~= s.take(
        page_end(s.len(), index, size) as int,
    ));
}

} // verus!
