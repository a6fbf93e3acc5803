//! Splitting a bookmark listing into pages whose reply stays under a byte
//! ceiling.
use crate::database::BukuDatabase;
use crate::response::{bool_text, bookmark_bytes, bookmark_text, join, page_bytes, page_text, text, views};
use crate::server::Server;
use crate::types::SavedBookmark;
use vstd::prelude::*;

verus! {

#[derive(Debug, PartialEq, Eq, Structural)]
pub enum BookmarksSplitError {
    /// The first record to list does not fit under the ceiling even alone.
    BookmarkLargerThanMaxPayloadSize,
}

/// Where a page starts.
#[derive(Clone, Copy, Debug, PartialEq, Eq, Structural)]
pub enum BookmarksSplitOffset {
    Offset(usize),
    Unset,
}

/// The ceiling on a page's reply, in bytes.
#[derive(Clone, Copy, Debug, PartialEq, Eq, Structural)]
pub enum BookmarksSplitPayloadSize {
    Limited(usize),
    Unlimited,
}

impl BookmarksSplitOffset {
    pub open spec fn spec_unwrap_or(self, v: usize) -> usize {
        match self {
            BookmarksSplitOffset::Offset(offset) => offset,
            BookmarksSplitOffset::Unset => v,
        }
    }

    /// The offset, or `v` when none was given.
    pub fn unwrap_or(&self, v: usize) -> (r: usize)
        ensures
            r == self.spec_unwrap_or(v),
    {
        match self {
            BookmarksSplitOffset::Offset(offset) => *offset,
            BookmarksSplitOffset::Unset => v,
        }
    }
}

/// The sum of the sizes.
pub open spec fn total(sizes: Seq<nat>) -> nat
    decreases sizes.len(),
{
    if sizes.len() == 0 {
        0
    } else {
        total(sizes.drop_last()) + sizes.last()
    }
}

/// The size of a reply that lists the first `k` items: the envelope, each
/// item, and a comma between each two.
pub open spec fn cost(sizes: Seq<nat>, k: nat, overhead: nat) -> nat {
    if k == 0 {
        overhead
    } else {
        overhead + total(sizes.take(k as int)) + (k - 1) as nat
    }
}

/// How many leading items fit: the longest prefix whose every non-empty
/// prefix costs less than the ceiling.
pub open spec fn fitting(sizes: Seq<nat>, overhead: nat, ceiling: nat) -> nat
    decreases sizes.len(),
{
    if sizes.len() == 0 {
        0
    } else {
        let k = fitting(sizes.drop_last(), overhead, ceiling);
        if k == sizes.len() - 1 && cost(sizes, sizes.len(), overhead) < ceiling {
            sizes.len()
        } else {
            k
        }
    }
}

/// The JSON text of each bookmark.
pub open spec fn texts(bms: Seq<SavedBookmark>) -> Seq<Seq<u8>> {
    bms.map_values(|b: SavedBookmark| bookmark_text(b))
}

/// The encoded size of each bookmark.
pub open spec fn sizes(bms: Seq<SavedBookmark>) -> Seq<nat> {
    bms.map_values(|b: SavedBookmark| bookmark_text(b).len())
}

/// The size of the envelope alone: the reply that lists nothing.
pub open spec fn envelope_size() -> nat {
    page_text(Seq::empty(), false).len()
}

/// Where a page that was asked to start at `offset` does start.
pub open spec fn start_of(len: nat, offset: nat) -> nat {
    if offset < len {
        offset
    } else {
        len
    }
}

/// How many records the page that starts at `offset` holds, and whether more
/// follow; or that the first of them cannot fit.
pub open spec fn plan(bms: Seq<SavedBookmark>, offset: nat, ceiling: nat) -> Result<
    (nat, bool),
    BookmarksSplitError,
> {
    let rest = bms.skip(start_of(bms.len(), offset) as int);
    if rest.len() == 0 {
        Ok((0, false))
    } else {
        let k = fitting(sizes(rest), envelope_size(), ceiling);
        if k == 0 {
            Err(BookmarksSplitError::BookmarkLargerThanMaxPayloadSize)
        } else {
            Ok((k, k < rest.len()))
        }
    }
}

/// The reply that lists the page of `bms` starting at `offset`.
pub open spec fn split_spec(
    bms: Seq<SavedBookmark>,
    offset: BookmarksSplitOffset,
    limit: BookmarksSplitPayloadSize,
) -> Result<Seq<u8>, BookmarksSplitError> {
    let start = start_of(bms.len(), offset.spec_unwrap_or(0) as nat);
    let rest = bms.skip(start as int);
    match limit {
        BookmarksSplitPayloadSize::Unlimited => Ok(page_text(texts(rest), false)),
        BookmarksSplitPayloadSize::Limited(max) => match plan(bms, start, max as nat) {
            Ok((k, more)) => Ok(page_text(texts(rest.take(k as int)), more)),
            Err(e) => Err(e),
        },
    }
}

proof fn lemma_total_step(sizes: Seq<nat>, j: int)
    requires
        0 <= j < sizes.len(),
    ensures
        total(sizes.take(j + 1)) == total(sizes.take(j)) + sizes[j],
{
    assert(sizes.take(j + 1).drop_last() == sizes.take(j));
}

/// Each further item makes the reply larger.
proof fn lemma_cost_grows(sizes: Seq<nat>, k: nat, overhead: nat)
    requires
        k < sizes.len(),
    ensures
        cost(sizes, k + 1, overhead) == cost(sizes, k, overhead) + sizes[k as int] + if k == 0 {
            0nat
        } else {
            1nat
        },
{
    lemma_total_step(sizes, k as int);
    assert(sizes.take(0) == Seq::<nat>::empty());
}

/// The count of fitting items is the one place where the items before it fit
/// and the next one would not.
proof fn lemma_fitting_unique(sizes: Seq<nat>, overhead: nat, ceiling: nat, k: nat)
    requires
        k <= sizes.len(),
        k >= 1 ==> cost(sizes, k, overhead) < ceiling,
        k < sizes.len() ==> cost(sizes, k + 1, overhead) >= ceiling,
    ensures
        fitting(sizes, overhead, ceiling) == k,
    decreases sizes.len(),
{
    if sizes.len() > 0 {
        let n = sizes.len();
        let shorter = sizes.drop_last();
        assert forall|j: nat| j <= n - 1 implies cost(shorter, j, overhead) == cost(
            sizes,
            j,
            overhead,
        ) by {
            assert(shorter.take(j as int) == sizes.take(j as int));
        }
        if k == n {
            if n >= 2 {
                lemma_cost_grows(sizes, (n - 1) as nat, overhead);
            }
            lemma_fitting_unique(shorter, overhead, ceiling, (n - 1) as nat);
        } else {
            lemma_fitting_unique(shorter, overhead, ceiling, k);
        }
    }
}

/// The count of fitting items is one where the items before it fit and the
/// next one would not.
proof fn lemma_fitting_bounds(sizes: Seq<nat>, overhead: nat, ceiling: nat)
    ensures
        fitting(sizes, overhead, ceiling) <= sizes.len(),
        fitting(sizes, overhead, ceiling) >= 1 ==> cost(
            sizes,
            fitting(sizes, overhead, ceiling),
            overhead,
        ) < ceiling,
        fitting(sizes, overhead, ceiling) < sizes.len() ==> cost(
            sizes,
            fitting(sizes, overhead, ceiling) + 1,
            overhead,
        ) >= ceiling,
    decreases sizes.len(),
{
    if sizes.len() > 0 {
        let n = sizes.len();
        let shorter = sizes.drop_last();
        lemma_fitting_bounds(shorter, overhead, ceiling);
        assert forall|j: nat| j <= n - 1 implies cost(shorter, j, overhead) == cost(
            sizes,
            j,
            overhead,
        ) by {
            assert(shorter.take(j as int) == sizes.take(j as int));
        }
    }
}

/// The records that repeated calls collect: list the page that starts at
/// `offset`, then go on from where it ended while more are available.
pub open spec fn collect_pages(bms: Seq<SavedBookmark>, offset: nat, ceiling: nat) -> Seq<
    SavedBookmark,
>
    decreases bms.len() - offset,
{
    if offset >= bms.len() {
        Seq::empty()
    } else {
        match plan(bms, offset, ceiling) {
            Ok((k, more)) => if more && k > 0 && offset + k <= bms.len() {
                bms.subrange(offset as int, (offset + k) as int) + collect_pages(bms, offset + k, ceiling)
            } else {
                bms.subrange(offset as int, start_of(bms.len(), offset + k) as int)
            },
            Err(_) => Seq::empty(),
        }
    }
}

/// When the ceiling leaves room for the envelope and any one record, every
/// call lists at least one record, from exactly where it was asked to start;
/// more are reported available exactly when records remain after the page;
/// and calling again from the end of each page lists every record once, in
/// order.
pub proof fn lemma_pagination_complete(bms: Seq<SavedBookmark>, ceiling: nat)
    requires
        bms.len() > 0,
        forall|i: int|
            0 <= i < bms.len() ==> envelope_size() + #[trigger] bookmark_text(bms[i]).len()
                < ceiling,
    ensures
        forall|offset: nat|
            offset < bms.len() ==> (#[trigger] plan(bms, offset, ceiling) matches Ok((k, more)) && 1
                <= k && offset + k <= bms.len() && more == (offset + k < bms.len())),
        collect_pages(bms, 0, ceiling) == bms,
{
    assert forall|offset: nat| offset < bms.len() implies (#[trigger] plan(
        bms,
        offset,
        ceiling,
    ) matches Ok((k, more)) && 1 <= k && offset + k <= bms.len() && more == (offset + k
        < bms.len())) by {
        lemma_page_step(bms, offset, ceiling);
    }
    lemma_collect_from(bms, 0, ceiling);
    assert(bms.subrange(0, bms.len() as int) == bms);
}

proof fn lemma_page_step(bms: Seq<SavedBookmark>, offset: nat, ceiling: nat)
    requires
        offset < bms.len(),
        forall|i: int|
            0 <= i < bms.len() ==> envelope_size() + #[trigger] bookmark_text(bms[i]).len()
                < ceiling,
    ensures
        plan(bms, offset, ceiling) matches Ok((k, more)) && 1 <= k && offset + k <= bms.len()
            && more == (offset + k < bms.len()),
{
    let rest = bms.skip(offset as int);
    let s = sizes(rest);
    lemma_fitting_bounds(s, envelope_size(), ceiling);
    lemma_cost_grows(s, 0, envelope_size());
    assert(s[0] == bookmark_text(bms[offset as int]).len());
}

proof fn lemma_collect_from(bms: Seq<SavedBookmark>, offset: nat, ceiling: nat)
    requires
        offset <= bms.len(),
        forall|i: int|
            0 <= i < bms.len() ==> envelope_size() + #[trigger] bookmark_text(bms[i]).len()
                < ceiling,
    ensures
        collect_pages(bms, offset, ceiling) == bms.subrange(offset as int, bms.len() as int),
    decreases bms.len() - offset,
{
    if offset < bms.len() {
        lemma_page_step(bms, offset, ceiling);
        let k = plan(bms, offset, ceiling)->Ok_0.0;
        if offset + k < bms.len() {
            lemma_collect_from(bms, offset + k, ceiling);
            assert(bms.subrange(offset as int, (offset + k) as int) + bms.subrange(
                (offset + k) as int,
                bms.len() as int,
            ) == bms.subrange(offset as int, bms.len() as int));
        }
    } else {
        assert(bms.subrange(offset as int, bms.len() as int) == Seq::<SavedBookmark>::empty());
    }
}

/// A ceiling below the envelope plus the smallest record leaves room for no
/// record at all: the first page cannot be listed.
pub proof fn lemma_capacity_failure(bms: Seq<SavedBookmark>, ceiling: usize)
    requires
        bms.len() > 0,
        forall|i: int|
            0 <= i < bms.len() ==> ceiling < envelope_size() + #[trigger] bookmark_text(
                bms[i],
            ).len(),
    ensures
        split_spec(
            bms,
            BookmarksSplitOffset::Unset,
            BookmarksSplitPayloadSize::Limited(ceiling),
        ) == Err::<Seq<u8>, BookmarksSplitError>(
            BookmarksSplitError::BookmarkLargerThanMaxPayloadSize,
        ),
{
    let s = sizes(bms.skip(0));
    assert(bms.skip(0) == bms);
    lemma_cost_grows(s, 0, envelope_size());
    assert(s[0] == bookmark_text(bms[0]).len());
    lemma_fitting_unique(s, envelope_size(), ceiling as nat, 0);
}

/// The length of each item.
pub open spec fn lengths(items: Seq<Seq<u8>>) -> Seq<nat> {
    items.map_values(|b: Seq<u8>| b.len())
}

proof fn lemma_join_len(items: Seq<Seq<u8>>)
    requires
        items.len() >= 1,
    ensures
        join(items).len() == total(lengths(items)) + items.len() - 1,
    decreases items.len(),
{
    assert(lengths(items).drop_last() =~= lengths(items.drop_last()));
    if items.len() >= 2 {
        lemma_join_len(items.drop_last());
    } else {
        assert(lengths(items).drop_last() =~= Seq::<nat>::empty());
    }
}

proof fn lemma_bool_text_len()
    ensures
        bool_text(true).len() == 4,
        bool_text(false).len() == 5,
{
    reveal_strlit("true");
    reveal_strlit("false");
    vstd::string::is_ascii_spec_bytes("true");
    vstd::string::is_ascii_spec_bytes("false");
}

/// A page that lists at least one record is smaller than the ceiling it was
/// cut for, so its frame is never refused when the ceiling is the browser's
/// limit.
pub proof fn lemma_page_within_ceiling(bms: Seq<SavedBookmark>, offset: nat, ceiling: nat)
    requires
        plan(bms, offset, ceiling) matches Ok((k, _)) && k >= 1,
    ensures
        ({
            let (k, more) = plan(bms, offset, ceiling)->Ok_0;
            page_text(texts(bms.skip(start_of(bms.len(), offset) as int).take(k as int)), more).len()
                < ceiling
        }),
{
    let rest = bms.skip(start_of(bms.len(), offset) as int);
    let s = sizes(rest);
    let (k, more) = plan(bms, offset, ceiling)->Ok_0;
    let items = texts(rest.take(k as int));
    lemma_fitting_bounds(s, envelope_size(), ceiling);
    lemma_join_len(items);
    assert(lengths(items) =~= s.take(k as int));
    assert(join(Seq::<Seq<u8>>::empty()) =~= Seq::<u8>::empty());
    lemma_bool_text_len();
}

/// Appending the text of the next record extends the texts of a prefix.
proof fn lemma_texts_push(rest: Seq<SavedBookmark>, k: int, page: Seq<Vec<u8>>, enc: Vec<u8>)
    requires
        0 <= k < rest.len(),
        page.len() == k,
        views(page) =~= texts(rest.take(k)),
        enc@ == bookmark_text(rest[k]),
    ensures
        views(page.push(enc)) =~= texts(rest.take(k + 1)),
{
    assert forall|j: int| 0 <= j < k + 1 implies #[trigger] views(page.push(enc))[j] == texts(
        rest.take(k + 1),
    )[j] by {
        if j < k {
            assert(views(page)[j] == texts(rest.take(k))[j]);
        }
    }
}

/// The texts of every record from `start` on.
fn encode_from(all_bms: &Vec<SavedBookmark>, start: usize) -> (r: Vec<Vec<u8>>)
    requires
        start <= all_bms@.len(),
    ensures
        views(r@) =~= texts(all_bms@.skip(start as int)),
{
    let n = all_bms.len();
    let ghost rest = all_bms@.skip(start as int);
    let mut page: Vec<Vec<u8>> = Vec::new();
    let mut i: usize = start;
    while i < n
        invariant
            start <= i <= n == all_bms@.len(),
            rest == all_bms@.skip(start as int),
            page@.len() == i - start,
            views(page@) =~= texts(rest.take(i - start)),
        decreases n - i,
    {
        let enc = bookmark_bytes(&all_bms[i]);
        proof {
            assert(rest[i - start] == all_bms@[i as int]);
            lemma_texts_push(rest, i - start, page@, enc);
        }
        page.push(enc);
        i += 1;
    }
    assert(rest.take(n - start) == rest);
    page
}

/// The texts of the records that fit on the page that starts at `start`, and
/// whether more follow.
fn fill_page(all_bms: &Vec<SavedBookmark>, start: usize, max_size: usize) -> (r: Result<
    (Vec<Vec<u8>>, bool),
    BookmarksSplitError,
>)
    requires
        start <= all_bms@.len(),
    ensures
        match r {
            Ok((page, more)) => {
                &&& plan(all_bms@, start as nat, max_size as nat) == Ok::<
                    (nat, bool),
                    BookmarksSplitError,
                >((page@.len(), more))
                &&& views(page@) =~= texts(all_bms@.skip(start as int).take(page@.len() as int))
            },
            Err(e) => plan(all_bms@, start as nat, max_size as nat) == Err::<
                (nat, bool),
                BookmarksSplitError,
            >(e),
        },
{
    let n = all_bms.len();
    let ghost rest = all_bms@.skip(start as int);
    let ghost s = sizes(rest);
    let mut page: Vec<Vec<u8>> = Vec::new();
    let overhead = page_bytes(&Vec::new(), false).len();
    assert(views(Seq::<Vec<u8>>::empty()) =~= Seq::<Seq<u8>>::empty());
    let mut size_so_far: usize = overhead;
    let mut i: usize = start;
    while i < n
        invariant
            start <= i <= n == all_bms@.len(),
            rest == all_bms@.skip(start as int),
            s == sizes(rest),
            overhead == envelope_size(),
            page@.len() == i - start,
            views(page@) =~= texts(rest.take(i - start)),
            size_so_far == cost(s, (i - start) as nat, overhead as nat),
            i > start ==> size_so_far < max_size,
        decreases n - i,
    {
        let enc = bookmark_bytes(&all_bms[i]);
        let k: usize = i - start;
        let sep: usize = if k == 0 {
            0
        } else {
            1
        };
        proof {
            assert(rest[k as int] == all_bms@[i as int]);
            assert(s[k as int] == enc@.len());
            lemma_cost_grows(s, k as nat, overhead as nat);
        }
        if size_so_far >= max_size || enc.len() >= max_size - size_so_far - sep {
            proof {
                lemma_fitting_unique(s, overhead as nat, max_size as nat, k as nat);
            }
            if k == 0 {
                return Err(BookmarksSplitError::BookmarkLargerThanMaxPayloadSize);
            }
            return Ok((page, true));
        }
        proof {
            lemma_texts_push(rest, k as int, page@, enc);
        }
        size_so_far = size_so_far + enc.len() + sep;
        page.push(enc);
        i += 1;
    }
    proof {
        lemma_fitting_unique(s, overhead as nat, max_size as nat, (n - start) as nat);
    }
    Ok((page, false))
}

impl<T: BukuDatabase> Server<T> {
    /// The reply that lists the page of `all_bms` that starts at the offset,
    /// holding as many records as fit under the ceiling.
    pub fn split_bookmarks_subset(
        &self,
        all_bms: &Vec<SavedBookmark>,
        bms_offset: BookmarksSplitOffset,
        max_page_size_bytes: BookmarksSplitPayloadSize,
    ) -> (r: Result<Vec<u8>, BookmarksSplitError>)
        ensures
            match r {
                Ok(b) => split_spec(all_bms@, bms_offset, max_page_size_bytes) == Ok::<
                    Seq<u8>,
                    BookmarksSplitError,
                >(b@),
                Err(e) => split_spec(all_bms@, bms_offset, max_page_size_bytes) == Err::<
                    Seq<u8>,
                    BookmarksSplitError,
                >(e),
            },
    {
        let n = all_bms.len();
        let offset = bms_offset.unwrap_or(0);
        let start: usize = if offset < n {
            offset
        } else {
            n
        };
        match max_page_size_bytes {
            BookmarksSplitPayloadSize::Unlimited => {
                let page = encode_from(all_bms, start);
                Ok(page_bytes(&page, false))
            },
            BookmarksSplitPayloadSize::Limited(max_size) => match fill_page(
                all_bms,
                start,
                max_size,
            ) {
                Ok((page, more)) => Ok(page_bytes(&page, more)),
                Err(e) => Err(e),
            },
        }
    }
}

} // verus!
