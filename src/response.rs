//! The uniform response envelope and pagination.
use vstd::prelude::*;
use crate::errors::ServiceError;

verus! {

/// `{ success, message, data }`, the shape every operation answers with.
#[derive(Debug)]
pub struct ApiResponse<T> {
    pub success: bool,
    pub message: String,
    pub data: Option<T>,
}

impl<T> ApiResponse<T> {
    pub fn success(data: T) -> (r: Self)
        ensures
            r.success,
            r.data == Some(data),
            r.message@ == "操作成功"@,
    {
        ApiResponse { success: true, message: "操作成功".to_string(), data: Some(data) }
    }

    pub fn error(message: String) -> (r: Self)
        ensures
            !r.success,
            r.data is None,
            r.message@ == message@,
    {
        ApiResponse { success: false, message, data: None }
    }
}

/// One page of a listing.
#[derive(Debug)]
pub struct PaginatedResponse<T> {
    pub items: Vec<T>,
    pub total: i64,
    pub page: i32,
    pub per_page: i32,
    pub total_pages: i64,
}

pub const DEFAULT_PAGE: i32 = 1;

pub const DEFAULT_PER_PAGE: i32 = 10;

/// A page number and a page size, both at least one.
#[derive(Clone, Copy, Debug, PartialEq, Eq, Structural)]
pub struct PageRequest {
    pub page: i32,
    pub per_page: i32,
}

impl PageRequest {
    pub open spec fn wf(self) -> bool {
        self.page >= 1 && self.per_page >= 1
    }

    /// The request, with page 1 and ten items a page where none is given; a
    /// page or a size below one is refused.
    pub fn resolve(page: Option<i32>, per_page: Option<i32>) -> (r: Result<PageRequest, ServiceError>)
        ensures
            ({
                let p = match page {
                    Some(v) => v,
                    None => DEFAULT_PAGE,
                };
                let n = match per_page {
                    Some(v) => v,
                    None => DEFAULT_PER_PAGE,
                };
                &&& (p >= 1 && n >= 1) <==> r is Ok
                &&& r is Ok ==> r->Ok_0 == (PageRequest { page: p, per_page: n })
                &&& r is Err ==> r->Err_0 is Validation
            }),
    {
        let p = match page {
            Some(v) => v,
            None => DEFAULT_PAGE,
        };
        let n = match per_page {
            Some(v) => v,
            None => DEFAULT_PER_PAGE,
        };
        if p < 1 || n < 1 {
            return Err(ServiceError::Validation("page and per_page must be at least 1".to_string()));
        }
        Ok(PageRequest { page: p, per_page: n })
    }

    /// The number of items before this page: `(page - 1) * per_page`.
    pub fn offset(&self) -> (r: i64)
        requires
            self.wf(),
        ensures
            r == (self.page - 1) * self.per_page,
    {
        assert(0 <= (self.page - 1) * self.per_page <= i32::MAX * i32::MAX) by (nonlinear_arith)
            requires
                1 <= self.page <= i32::MAX,
                1 <= self.per_page <= i32::MAX,
        ;
        (self.page as i64 - 1) * self.per_page as i64
    }
}

/// `ceil(total / per_page)`.
pub open spec fn spec_total_pages(total: int, per_page: int) -> int {
    (total + per_page - 1) / per_page
}

proof fn lemma_ceil_div_bounded(total: int, d: int)
    requires
        total >= 0,
        d >= 1,
    ensures
        0 <= (total + d - 1) / d <= total,
{
    let q = (total + d - 1) / d;
    assert(q >= 0) by (nonlinear_arith)
        requires
            total + d - 1 >= 0,
            d >= 1,
            q == (total + d - 1) / d,
    ;
    if total == 0 {
        assert(q == 0) by (nonlinear_arith)
            requires
                q == (d - 1) / d,
                d >= 1,
        ;
    } else {
        assert(q <= total) by (nonlinear_arith)
            requires
                total >= 1,
                d >= 1,
                q == (total + d - 1) / d,
        {
            assert(q * d <= total + d - 1);
            assert((total - 1) * (d - 1) >= 0);
            assert(total + d - 1 <= total * d);
        }
    }
}

/// The number of pages that `total` items fill.
pub fn total_pages(total: i64, per_page: i32) -> (r: i64)
    requires
        total >= 0,
        per_page >= 1,
    ensures
        r == spec_total_pages(total as int, per_page as int),
{
    let t: i128 = total as i128 + per_page as i128 - 1;
    let q: i128 = t / per_page as i128;
    proof {
        lemma_ceil_div_bounded(total as int, per_page as int);
    }
    q as i64
}

/// The positions `[start, end)` of the items that a page shows out of `total`.
pub fn page_bounds(total: i64, req: &PageRequest) -> (r: (i64, i64))
    requires
        total >= 0,
        req.wf(),
    ensures
        r.0 == if (req.page - 1) * req.per_page <= total {
            (req.page - 1) * req.per_page
        } else {
            total as int
        },
        r.1 == if req.page * req.per_page <= total {
            req.page * req.per_page
        } else {
            total as int
        },
        0 <= r.0 <= r.1 <= total,
{
    let off = req.offset();
    let start: i64 = if off <= total {
        off
    } else {
        total
    };
    assert(off + req.per_page == req.page * req.per_page <= i32::MAX * i32::MAX) by (nonlinear_arith)
        requires
            off == (req.page - 1) * req.per_page,
            1 <= req.page <= i32::MAX,
            1 <= req.per_page <= i32::MAX,
    ;
    let after: i64 = off + req.per_page as i64;
    let end: i64 = if after <= total {
        after
    } else {
        total
    };
    (start, end)
}

impl<T> PaginatedResponse<T> {
    /// A page of `items`, out of `total`, for the given request.
    pub fn new(items: Vec<T>, total: i64, req: &PageRequest) -> (r: Self)
        requires
            total >= 0,
            req.wf(),
        ensures
            r.items == items,
            r.total == total,
            r.page == req.page,
            r.per_page == req.per_page,
            r.total_pages == spec_total_pages(total as int, req.per_page as int),
    {
        let tp = total_pages(total, req.per_page);
        PaginatedResponse { items, total, page: req.page, per_page: req.per_page, total_pages: tp }
    }
}

} // verus!
