//! Pagination value objects, reusable by any entity that lists results
//! page by page.

use vstd::prelude::*;

verus! {

/// Page size used when the client does not give one.
pub const DEFAULT_PAGE_SIZE: i64 = 20;

/// Largest page size allowed, so that no query returns a whole table.
pub const MAX_PAGE_SIZE: i64 = 100;

/// Pagination parameters, already validated and normalised:
/// `page >= 1` and `1 <= page_size <= MAX_PAGE_SIZE`.
#[derive(Debug, Clone, Copy)]
pub struct Pagination {
    page: i64,
    page_size: i64,
}

/// The page a request asks for once defaults and limits are applied.
pub open spec fn normalized_page(page: Option<i64>) -> int {
    match page {
        Some(p) => if p < 1 { 1 } else { p as int },
        None => 1,
    }
}

/// The page size a request gets once defaults and limits are applied.
pub open spec fn normalized_page_size(page_size: Option<i64>) -> int {
    let s = match page_size {
        Some(s) => s as int,
        None => DEFAULT_PAGE_SIZE as int,
    };
    if s < 1 {
        1
    } else if s > MAX_PAGE_SIZE {
        MAX_PAGE_SIZE as int
    } else {
        s
    }
}

/// Number of items that come before page `page` (1-based) when pages
/// hold `page_size` items.
pub open spec fn offset_for(page: int, page_size: int) -> int {
    (page - 1) * page_size
}

/// Integer division rounding toward zero, as Rust's `/` on signed
/// integers does (for a positive divisor).
pub open spec fn div_toward_zero(a: int, b: int) -> int {
    if a >= 0 {
        a / b
    } else {
        -((-a) / b)
    }
}

/// Number of pages needed to show `total_items` items, `page_size` at a
/// time: the ceiling of the quotient (zero pages for zero items).
pub open spec fn pages_for(total_items: int, page_size: int) -> int {
    if total_items == 0 {
        0
    } else {
        div_toward_zero(total_items + page_size - 1, page_size)
    }
}

/// What a request's page becomes: no page is page 1, a page below 1 is
/// raised to 1, and any page from 1 on is kept as asked.
pub proof fn lemma_requested_page_kept(p: i64)
    ensures
        normalized_page(None) == 1,
        normalized_page(Some(p)) >= 1,
        p >= 1 ==> normalized_page(Some(p)) == p,
        p < 1 ==> normalized_page(Some(p)) == 1,
{
}

/// What a request's page size becomes: no size is `DEFAULT_PAGE_SIZE`; a
/// size within `1..=MAX_PAGE_SIZE` is kept exactly as asked; one below is
/// raised to 1 and one above is lowered to `MAX_PAGE_SIZE`. So the size
/// is the request clamped to `[1, MAX_PAGE_SIZE]`, and a larger request
/// never gets a smaller page.
pub proof fn lemma_requested_page_size_clamped(s: i64, t: i64)
    ensures
        normalized_page_size(None) == DEFAULT_PAGE_SIZE,
        1 <= normalized_page_size(Some(s)) <= MAX_PAGE_SIZE,
        1 <= s <= MAX_PAGE_SIZE ==> normalized_page_size(Some(s)) == s,
        s < 1 ==> normalized_page_size(Some(s)) == 1,
        s > MAX_PAGE_SIZE ==> normalized_page_size(Some(s)) == MAX_PAGE_SIZE,
        s <= t ==> normalized_page_size(Some(s)) <= normalized_page_size(Some(t)),
{
}

impl Pagination {
    /// The page number (1-based).
    pub closed spec fn page_spec(self) -> int {
        self.page as int
    }

    /// The number of items per page.
    pub closed spec fn page_size_spec(self) -> int {
        self.page_size as int
    }

    #[verifier::type_invariant]
    closed spec fn is_normalized(self) -> bool {
        &&& self.page >= 1
        &&& 1 <= self.page_size <= MAX_PAGE_SIZE
    }

    /// Builds a valid pagination from the optional values a client sent,
    /// applying defaults and limits. It never fails: it always
    /// normalises to something valid.
    pub fn new(page: Option<i64>, page_size: Option<i64>) -> (p: Self)
        ensures
            p.page_spec() == normalized_page(page),
            p.page_size_spec() == normalized_page_size(page_size),
    {
        let page = match page {
            Some(p) => if p < 1 { 1 } else { p },
            None => 1,
        };
        let requested = match page_size {
            Some(s) => s,
            None => DEFAULT_PAGE_SIZE,
        };
        let page_size = if requested < 1 {
            1
        } else if requested > MAX_PAGE_SIZE {
            MAX_PAGE_SIZE
        } else {
            requested
        };
        Pagination { page, page_size }
    }

    pub fn page(&self) -> (r: i64)
        ensures
            r == self.page_spec(),
            r >= 1,
    {
        proof { use_type_invariant(self); }
        self.page
    }

    pub fn page_size(&self) -> (r: i64)
        ensures
            r == self.page_size_spec(),
            1 <= r <= MAX_PAGE_SIZE,
    {
        proof { use_type_invariant(self); }
        self.page_size
    }

    /// `LIMIT` to use in the SQL query.
    pub fn limit(&self) -> (r: i64)
        ensures
            r == self.page_size_spec(),
            1 <= r <= MAX_PAGE_SIZE,
    {
        proof { use_type_invariant(self); }
        self.page_size
    }

    /// `OFFSET` to use in the SQL query.
    pub fn offset(&self) -> (r: i64)
        requires
            offset_for(self.page_spec(), self.page_size_spec()) <= i64::MAX,
        ensures
            r == offset_for(self.page_spec(), self.page_size_spec()),
    {
        proof {
            use_type_invariant(self);
            assert(0 <= (self.page - 1) * self.page_size) by (nonlinear_arith)
                requires self.page >= 1, self.page_size >= 1;
        }
        (self.page - 1) * self.page_size
    }
}

/// A generic paginated result: one page of `items` plus what the client
/// needs to keep navigating.
#[derive(Debug, Clone)]
pub struct PaginatedResult<T> {
    pub items: Vec<T>,
    pub page: i64,
    pub page_size: i64,
    pub total_items: i64,
    pub total_pages: i64,
}

/// `pages_for` is the ceiling of `total_items / page_size`: the pages
/// hold every item, and one page fewer would not.
pub proof fn lemma_pages_cover_items(total_items: int, page_size: int)
    requires
        total_items >= 0,
        page_size >= 1,
    ensures
        pages_for(total_items, page_size) >= 0,
        pages_for(total_items, page_size) * page_size >= total_items,
        total_items > 0 ==> (pages_for(total_items, page_size) - 1) * page_size < total_items,
        total_items == 0 <==> pages_for(total_items, page_size) == 0,
{
    if total_items > 0 {
        let q = (total_items + page_size - 1) / page_size;
        let r = (total_items + page_size - 1) % page_size;
        assert(q * page_size + r == total_items + page_size - 1 && 0 <= r < page_size) by (nonlinear_arith)
            requires page_size >= 1, q == (total_items + page_size - 1) / page_size,
                r == (total_items + page_size - 1) % page_size;
        assert(q >= 1) by (nonlinear_arith)
            requires q * page_size + r == total_items + page_size - 1, 0 <= r < page_size, total_items > 0, page_size >= 1;
        assert((q - 1) * page_size == q * page_size - page_size) by (nonlinear_arith);
    }
}

/// Pages tile the listing: page `page + 1` starts exactly where page
/// `page` ends, so consecutive pages neither overlap nor leave gaps, and
/// the first page starts at the first item.
pub proof fn lemma_pages_tile(page: int, page_size: int)
    requires
        page >= 1,
        page_size >= 1,
    ensures
        offset_for(1, page_size) == 0,
        offset_for(page + 1, page_size) == offset_for(page, page_size) + page_size,
        offset_for(page, page_size) >= 0,
{
    assert(page * page_size == (page - 1) * page_size + page_size) by (nonlinear_arith);
    assert((page - 1) * page_size >= 0) by (nonlinear_arith)
        requires page >= 1, page_size >= 1;
}

/// The page number of every page a listing has lies in
/// `1..=pages_for(total)`, and exactly those pages start before the end
/// of the listing.
pub proof fn lemma_pages_start_inside(total_items: int, page_size: int, page: int)
    requires
        total_items >= 0,
        page_size >= 1,
        page >= 1,
    ensures
        page <= pages_for(total_items, page_size) <==> offset_for(page, page_size) < total_items,
{
    lemma_pages_cover_items(total_items, page_size);
    let n = pages_for(total_items, page_size);
    if page <= n {
        assert((page - 1) * page_size <= (n - 1) * page_size) by (nonlinear_arith)
            requires page <= n, page_size >= 1;
    } else {
        assert((page - 1) * page_size >= n * page_size) by (nonlinear_arith)
            requires page - 1 >= n, page_size >= 1;
    }
}

/// `out` is `page` with each item passed through `f`, in order, and the
/// pagination metadata kept: what `PaginatedResult::map` returns.
pub open spec fn mapped_by<T, U, F: Fn(T) -> U>(page: PaginatedResult<T>, f: F, out: PaginatedResult<U>) -> bool {
    &&& out.items@.len() == page.items@.len()
    &&& forall|i: int| 0 <= i < page.items@.len() ==> f.ensures((page.items@[i],), #[trigger] out.items@[i])
    &&& out.page == page.page
    &&& out.page_size == page.page_size
    &&& out.total_items == page.total_items
    &&& out.total_pages == page.total_pages
}

/// Mapping with a function that gives back its argument leaves the page
/// as it was.
pub proof fn lemma_map_identity<T, F: Fn(T) -> T>(page: PaginatedResult<T>, f: F, out: PaginatedResult<T>)
    requires
        mapped_by(page, f, out),
        forall|x: T, y: T| #[trigger] f.ensures((x,), y) ==> y == x,
    ensures
        out.items@ == page.items@,
        out.page == page.page,
        out.page_size == page.page_size,
        out.total_items == page.total_items,
        out.total_pages == page.total_pages,
{
    assert forall|i: int| 0 <= i < page.items@.len() implies out.items@[i] == page.items@[i] by {
        assert(f.ensures((page.items@[i],), out.items@[i]));
    }
    assert(out.items@ =~= page.items@);
}

/// Mapping with `f` and then with `g` gives the same page as mapping once
/// with a function `h` that does what `g` does after `f`, when `h` is
/// deterministic.
pub proof fn lemma_map_compose<T, U, V, F: Fn(T) -> U, G: Fn(U) -> V, H: Fn(T) -> V>(
    page: PaginatedResult<T>,
    f: F,
    g: G,
    h: H,
    mid: PaginatedResult<U>,
    twice: PaginatedResult<V>,
    once: PaginatedResult<V>,
)
    requires
        mapped_by(page, f, mid),
        mapped_by(mid, g, twice),
        mapped_by(page, h, once),
        forall|x: T, y: U, z: V| #[trigger] f.ensures((x,), y) && #[trigger] g.ensures((y,), z) ==> h.ensures((x,), z),
        forall|x: T, z1: V, z2: V| #[trigger] h.ensures((x,), z1) && #[trigger] h.ensures((x,), z2) ==> z1 == z2,
    ensures
        twice.items@ == once.items@,
        twice.page == once.page,
        twice.page_size == once.page_size,
        twice.total_items == once.total_items,
        twice.total_pages == once.total_pages,
{
    assert forall|i: int| 0 <= i < page.items@.len() implies twice.items@[i] == once.items@[i] by {
        assert(f.ensures((page.items@[i],), mid.items@[i]));
        assert(g.ensures((mid.items@[i],), twice.items@[i]));
        assert(h.ensures((page.items@[i],), twice.items@[i]));
        assert(h.ensures((page.items@[i],), once.items@[i]));
    }
    assert(twice.items@ =~= once.items@);
}

impl<T> PaginatedResult<T> {
    pub fn new(items: Vec<T>, pagination: Pagination, total_items: i64) -> (r: Self)
        requires
            total_items + pagination.page_size_spec() - 1 <= i64::MAX,
        ensures
            r.items@ == items@,
            r.page == pagination.page_spec(),
            r.page_size == pagination.page_size_spec(),
            r.total_items == total_items,
            r.total_pages == pages_for(total_items as int, pagination.page_size_spec()),
    {
        let page_size = pagination.page_size();
        let total_pages = if total_items == 0 {
            0
        } else {
            (total_items + (page_size - 1)) / page_size
        };
        PaginatedResult {
            items,
            page: pagination.page(),
            page_size,
            total_items,
            total_pages,
        }
    }

    /// Transforms each item while keeping the pagination metadata, e.g.
    /// to map domain entities to response DTOs.
    pub fn map<U, F: Fn(T) -> U>(self, f: F) -> (r: PaginatedResult<U>)
        requires
            forall|i: int| 0 <= i < self.items@.len() ==> f.requires((#[trigger] self.items@[i],)),
        ensures
            r.items@.len() == self.items@.len(),
            forall|i: int| 0 <= i < self.items@.len()
                ==> f.ensures((self.items@[i],), #[trigger] r.items@[i]),
            r.page == self.page,
            r.page_size == self.page_size,
            r.total_items == self.total_items,
            r.total_pages == self.total_pages,
            mapped_by(self, f, r),
    {
        let ghost source = self.items@;
        let mut mapped: Vec<U> = Vec::new();
        for item in it: self.items
            invariant
                source == it.seq(),
                mapped@.len() == it.index(),
                forall|i: int| 0 <= i < source.len() ==> f.requires((#[trigger] source[i],)),
                forall|i: int| 0 <= i < mapped@.len() ==> f.ensures((source[i],), #[trigger] mapped@[i]),
        {
            mapped.push(f(item));
        }
        PaginatedResult {
            items: mapped,
            page: self.page,
            page_size: self.page_size,
            total_items: self.total_items,
            total_pages: self.total_pages,
        }
    }
}

/// A listing whose page of items has been fetched and whose total count
/// is still to come. Every paginated use case goes through it: fetch the
/// page, then count, then assemble.
pub struct PendingPage<T> {
    items: Vec<T>,
    pagination: Pagination,
}

impl<T> PendingPage<T> {
    /// The items of the page.
    pub closed spec fn items_spec(self) -> Seq<T> {
        self.items@
    }

    /// The pagination the page was fetched with.
    pub closed spec fn pagination_spec(self) -> Pagination {
        self.pagination
    }

    /// Step after fetching the page: a failed fetch ends the listing with
    /// its error, a fetched page waits for the total count.
    pub fn after_fetch<E>(pagination: Pagination, fetched: Result<Vec<T>, E>) -> (r: Result<Self, E>)
        ensures
            fetched matches Err(e) ==> r == Err::<Self, E>(e),
            fetched matches Ok(items) ==> (r matches Ok(p)
                && p.items_spec() == items@ && p.pagination_spec() == pagination),
    {
        match fetched {
            Ok(items) => Ok(PendingPage { items, pagination }),
            Err(e) => Err(e),
        }
    }

    /// Step after counting: a failed count ends the listing with its
    /// error, otherwise the page is assembled with its metadata.
    pub fn after_count<E>(self, counted: Result<i64, E>) -> (r: Result<PaginatedResult<T>, E>)
        requires
            counted matches Ok(total) ==> total + self.pagination_spec().page_size_spec() - 1 <= i64::MAX,
        ensures
            counted matches Err(e) ==> r == Err::<PaginatedResult<T>, E>(e),
            counted matches Ok(total) ==> (r matches Ok(page) && {
                &&& page.items@ == self.items_spec()
                &&& page.page == self.pagination_spec().page_spec()
                &&& page.page_size == self.pagination_spec().page_size_spec()
                &&& page.total_items == total
                &&& page.total_pages == pages_for(total as int, self.pagination_spec().page_size_spec())
            }),
    {
        match counted {
            Ok(total) => Ok(PaginatedResult::new(self.items, self.pagination, total)),
            Err(e) => Err(e),
        }
    }
}

} // verus!
