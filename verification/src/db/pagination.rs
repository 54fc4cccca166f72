use vstd::prelude::*;

verus! {

/// Page size used when the caller does not give one.
pub const DEFAULT_PER_PAGE: i64 = 15;

/// Largest page size a caller may ask for.
pub const MAX_PER_PAGE: i64 = 50;

/// A normalised page request.
#[derive(Debug, Clone)]
pub struct PaginationQuery {
    pub page: i64,
    pub per_page: i64,
}

/// Raw page parameters as they arrive from a query string.
#[derive(Debug, Clone)]
pub struct PaginationParams {
    pub page: Option<i64>,
    pub per_page: Option<i64>,
}

/// The page number that `parse` derives from the raw parameter.
pub open spec fn spec_page_of(page: Option<i64>) -> i64 {
    match page {
        Some(p) => if p < 1 { 1 } else { p },
        None => 1,
    }
}

/// The page size that `parse` derives from the raw parameter.
pub open spec fn spec_per_page_of(per_page: Option<i64>) -> i64 {
    let p = match per_page {
        Some(p) => p,
        None => DEFAULT_PER_PAGE,
    };
    if p < 1 { 1 } else if p > MAX_PER_PAGE { MAX_PER_PAGE } else { p }
}

/// Integer division rounding toward zero, as machine division does.
pub open spec fn trunc_div(n: int, d: int) -> int
    recommends
        d != 0,
{
    let q = (if n < 0 { -n } else { n }) / (if d < 0 { -d } else { d });
    if (n < 0) != (d < 0) { -q } else { q }
}

/// Number of pages needed to show `total` items, `per_page` at a time:
/// 1 for an empty listing, otherwise `(total + per_page - 1) / per_page`.
pub open spec fn spec_last_page(per_page: int, total: int) -> int {
    if total == 0 { 1 } else { trunc_div(total + per_page - 1, per_page) }
}

impl PaginationQuery {
    /// Normalise raw parameters: page defaults to 1 and is at least 1; the
    /// page size defaults to 15 and is clamped into 1..=50.
    pub fn parse(params: PaginationParams) -> (r: Self)
        ensures
            r.page == spec_page_of(params.page),
            r.per_page == spec_per_page_of(params.per_page),
    {
        let page = match params.page {
            Some(p) => if p < 1 { 1 } else { p },
            None => 1,
        };
        let raw = match params.per_page {
            Some(p) => p,
            None => DEFAULT_PER_PAGE,
        };
        let per_page = if raw < 1 { 1 } else if raw > MAX_PER_PAGE { MAX_PER_PAGE } else { raw };
        PaginationQuery { page, per_page }
    }

    /// Number of rows to skip before this page.
    pub fn offset(&self) -> (r: i64)
        requires
            self.page > i64::MIN,
            i64::MIN <= (self.page - 1) * self.per_page <= i64::MAX,
        ensures
            r == (self.page - 1) * self.per_page,
    {
        (self.page - 1) * self.per_page
    }

    /// Number of rows on this page.
    pub fn limit(&self) -> (r: i64)
        ensures
            r == self.per_page,
    {
        self.per_page
    }
}

/// Page metadata returned alongside a listing.
#[derive(Debug, Clone)]
pub struct PaginationMeta {
    pub current_page: i64,
    pub last_page: i64,
    pub per_page: i64,
    pub total: i64,
}

impl PaginationMeta {
    /// Build page metadata; the last page is `ceil(total / per_page)`, and 1
    /// for an empty listing.
    pub fn new(page: i64, per_page: i64, total: i64) -> (r: Self)
        requires
            per_page != 0,
            total != 0 ==> i64::MIN <= total + per_page <= i64::MAX,
            total != 0 ==> i64::MIN <= total + per_page - 1,
            total != 0 ==> !(total + per_page - 1 == i64::MIN && per_page == -1),
        ensures
            r.current_page == page,
            r.per_page == per_page,
            r.total == total,
            r.last_page == spec_last_page(per_page as int, total as int),
    {
        let last_page = if total == 0 {
            1
        } else {
            let n: i128 = (total + per_page - 1) as i128;
            let d: i128 = per_page as i128;
            let an: i128 = if n < 0 { -n } else { n };
            let ad: i128 = if d < 0 { -d } else { d };
            let q: i128 = an / ad;
            assert(q <= an) by (nonlinear_arith)
                requires
                    an >= 0,
                    ad >= 1,
                    q == an / ad,
            ;
            assert(ad >= 2 ==> q <= an / 2) by (nonlinear_arith)
                requires
                    an >= 0,
                    ad >= 1,
                    q == an / ad,
            ;
            let signed: i128 = if (n < 0) != (d < 0) { -q } else { q };
            assert(signed == trunc_div(n as int, d as int));
            assert(i64::MIN <= signed <= i64::MAX);
            signed as i64
        };
        PaginationMeta { current_page: page, last_page, per_page, total }
    }

    /// Page metadata for a normalised query.
    pub fn from_query(query: &PaginationQuery, total: i64) -> (r: Self)
        requires
            query.per_page != 0,
            total != 0 ==> i64::MIN <= total + query.per_page <= i64::MAX,
            total != 0 ==> i64::MIN <= total + query.per_page - 1,
            total != 0 ==> !(total + query.per_page - 1 == i64::MIN && query.per_page == -1),
        ensures
            r.current_page == query.page,
            r.per_page == query.per_page,
            r.total == total,
            r.last_page == spec_last_page(query.per_page as int, total as int),
    {
        Self::new(query.page, query.per_page, total)
    }
}

/// A normalised request always asks for page 1 or later, with between 1
/// and 50 rows per page.
pub proof fn lemma_parse_in_bounds(page: Option<i64>, per_page: Option<i64>)
    ensures
        spec_page_of(page) >= 1,
        1 <= spec_per_page_of(per_page) <= MAX_PER_PAGE,
{
}

/// For a non-empty listing, the pages before the last hold fewer rows than
/// the listing and the last page reaches its end: every row lies on a page
/// up to the last, and the last page is not empty.
pub proof fn lemma_last_page_bounds(per_page: int, total: int)
    requires
        per_page >= 1,
        total >= 1,
    ensures
        spec_last_page(per_page, total) >= 1,
        (spec_last_page(per_page, total) - 1) * per_page < total,
        total <= spec_last_page(per_page, total) * per_page,
{
    let n = total + per_page - 1;
    let l = n / per_page;
    let r = n % per_page;
    assert(spec_last_page(per_page, total) == l);
    vstd::arithmetic::div_mod::lemma_fundamental_div_mod(n, per_page);
    assert(n == per_page * l + r);
    assert(0 <= r < per_page);
    assert((l - 1) * per_page == l * per_page - per_page) by (nonlinear_arith);
    assert(l * per_page == per_page * l) by (nonlinear_arith);
    assert(l >= 1) by (nonlinear_arith)
        requires
            n == per_page * l + r,
            0 <= r < per_page,
            n >= per_page,
            per_page >= 1,
    ;
}

/// For a non-empty listing, a page holds rows exactly when it is not past
/// the last page: its offset is below the total if and only if its number
/// is at most the last page.
pub proof fn lemma_page_has_rows_iff_not_past_last(page: int, per_page: int, total: int)
    requires
        page >= 1,
        per_page >= 1,
        total >= 1,
    ensures
        ((page - 1) * per_page < total) <==> page <= spec_last_page(per_page, total),
{
    lemma_last_page_bounds(per_page, total);
    let l = spec_last_page(per_page, total);
    if page <= l {
        assert((page - 1) * per_page <= (l - 1) * per_page) by (nonlinear_arith)
            requires
                page <= l,
                per_page >= 1,
        ;
    } else {
        assert((page - 1) * per_page >= l * per_page) by (nonlinear_arith)
            requires
                page - 1 >= l,
                per_page >= 1,
        ;
    }
}

} // verus!
