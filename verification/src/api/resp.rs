//! The envelope that every reply is wrapped in.

use vstd::prelude::*;

use super::observe::req_context::ContextView;
use super::observe::RequestContext;
use crate::text::opt_text;

verus! {

/// The transport status under which an envelope goes out unless a failure
/// gives it another.
pub const STATUS_OK: u16 = 200;

/// The transport status, and the logical code, of a request that ran into
/// the time limit.
pub const STATUS_TIMED_OUT: u16 = 408;

/// What an [`ApiResponse`] holds: the correlation identity of the request,
/// the logical code, and either the error text or the payload.
pub ghost struct EnvelopeView<T> {
    pub context: ContextView,
    pub code: int,
    pub error: Option<Seq<char>>,
    pub data: Option<T>,
}

impl<T> EnvelopeView<T> {
    /// Exactly one of error and payload is there, and the payload is the one
    /// that is there just when the code is 0.
    pub open spec fn well_formed(self) -> bool {
        &&& (self.error is Some) != (self.data is Some)
        &&& (self.code == 0 <==> self.data is Some)
    }
}

/// The envelope of a payload.
pub open spec fn success_envelope<T>(context: ContextView, data: T) -> EnvelopeView<T> {
    EnvelopeView { context, code: 0, error: None, data: Some(data) }
}

/// The envelope of an error.
pub open spec fn error_envelope<T>(context: ContextView, code: int, err: Seq<char>) -> EnvelopeView<
    T,
> {
    EnvelopeView { context, code, error: Some(err), data: None }
}

/// The uniform wrapper of a reply: the request's correlation identity next
/// to a logical code and either a payload or an error text.
#[derive(Debug)]
pub struct ApiResponse<T> {
    context: RequestContext,
    code: i32,
    error: Option<String>,
    data: Option<T>,
}

impl<T> View for ApiResponse<T> {
    type V = EnvelopeView<T>;

    closed spec fn view(&self) -> EnvelopeView<T> {
        EnvelopeView {
            context: self.context@,
            code: self.code as int,
            error: opt_text(self.error),
            data: self.data,
        }
    }
}

/// A reply before it is serialised: the transport status and the envelope
/// that goes out under it.
#[derive(Debug)]
pub struct Reply<T> {
    pub status: u16,
    pub envelope: ApiResponse<T>,
}

impl<T> ApiResponse<T> {
    #[verifier::type_invariant]
    spec fn one_sided(self) -> bool {
        self@.well_formed()
    }

    /// Wraps the payload of a request that succeeded.
    pub fn success(context: RequestContext, data: T) -> (r: Self)
        ensures
            r@ == success_envelope(context@, data),
    {
        Self { code: 0, data: Some(data), error: None, context }
    }

    /// Wraps the message of a request that failed under the logical code
    /// `code`, which is not 0: 0 is the code of success.
    pub fn error(context: RequestContext, code: i32, err: String) -> (r: Self)
        requires
            code != 0,
        ensures
            r@ == error_envelope::<T>(context@, code as int, err@),
    {
        Self { code, error: Some(err), data: None, context }
    }

    /// Puts an envelope together from its parts, where they make one: with
    /// a payload and no error under code 0, or with an error and no payload
    /// under another code. Any other combination gives `None`.
    pub fn from_parts(
        context: RequestContext,
        code: i32,
        error: Option<String>,
        data: Option<T>,
    ) -> (r: Option<Self>)
        ensures
            r is Some <==> (EnvelopeView {
                context: context@,
                code: code as int,
                error: opt_text(error),
                data,
            }).well_formed(),
            r matches Some(e) ==> e@ == (EnvelopeView {
                context: context@,
                code: code as int,
                error: opt_text(error),
                data,
            }),
    {
        if error.is_some() != data.is_some() && (code == 0) == data.is_some() {
            Some(Self { context, code, error, data })
        } else {
            None
        }
    }

    /// Takes the envelope apart: correlation identity, code, error text,
    /// payload.
    pub fn into_parts(self) -> (r: (RequestContext, i32, Option<String>, Option<T>))
        ensures
            r.0@ == self@.context,
            r.1 == self@.code,
            opt_text(r.2) == self@.error,
            r.3 == self@.data,
            self@.well_formed(),
    {
        proof {
            use_type_invariant(&self);
        }
        let ApiResponse { context, code, error, data } = self;
        (context, code, error, data)
    }

    /// The correlation identity of the request that this replies to.
    pub fn context(&self) -> (r: &RequestContext)
        ensures
            r@ == self@.context,
    {
        &self.context
    }

    /// The logical code: 0 for success, the error's code otherwise.
    pub fn code(&self) -> (r: i32)
        ensures
            r == self@.code,
            self@.well_formed(),
    {
        proof {
            use_type_invariant(self);
        }
        self.code
    }

    /// The error text, which is there just when the code is not 0.
    pub fn error_message(&self) -> (r: Option<&str>)
        ensures
            r is Some <==> self@.code != 0,
            r is Some <==> self@.error is Some,
            r matches Some(e) ==> Some(e@) == self@.error,
    {
        proof {
            use_type_invariant(self);
        }
        match &self.error {
            Some(e) => Some(e.as_str()),
            None => None,
        }
    }

    /// The payload, which is there just when the code is 0.
    pub fn data(&self) -> (r: Option<&T>)
        ensures
            r is Some <==> self@.code == 0,
            r matches Some(d) ==> Some(*d) == self@.data,
            r is None ==> self@.data is None,
    {
        proof {
            use_type_invariant(self);
        }
        self.data.as_ref()
    }

    /// Renders the envelope by itself: it goes out whole under status 200,
    /// with a payload as with an error. The envelope holds no transport
    /// status: a failure that is to have its own is rendered from the error
    /// value, which knows it.
    pub fn into_reply(self) -> (r: Reply<T>)
        ensures
            r.status == STATUS_OK,
            r.envelope == self,
    {
        Reply { status: STATUS_OK, envelope: self }
    }
}

/// The least number of pages of `page_size` items that hold `total` items:
/// `total / page_size`, rounded up.
pub open spec fn ceil_div(total: int, page_size: int) -> int
    recommends
        page_size > 0,
{
    (total + page_size - 1) / page_size
}

/// `n`, brought into the range of `i32`.
pub open spec fn saturate_i32(n: int) -> int {
    if n > i32::MAX {
        i32::MAX as int
    } else if n < i32::MIN {
        i32::MIN as int
    } else {
        n
    }
}

/// `ceil_div(total, page_size)` is the one count whose pages hold `total`
/// items while one page fewer does not.
pub proof fn lemma_ceil_div_is_least_cover(total: int, page_size: int)
    requires
        page_size > 0,
    ensures
        ceil_div(total, page_size) * page_size >= total,
        (ceil_div(total, page_size) - 1) * page_size < total,
{
    let n = total + page_size - 1;
    assert(n == page_size * (n / page_size) + n % page_size && 0 <= n % page_size < page_size)
        by (nonlinear_arith)
        requires
            page_size > 0,
    ;
    assert(ceil_div(total, page_size) * page_size == page_size * (n / page_size))
        by (nonlinear_arith)
        requires
            ceil_div(total, page_size) == n / page_size,
    ;
    assert((ceil_div(total, page_size) - 1) * page_size == page_size * (n / page_size) - page_size)
        by (nonlinear_arith)
        requires
            ceil_div(total, page_size) == n / page_size,
    ;
}

/// Nothing takes no page, whatever the page size.
pub proof fn lemma_ceil_div_of_zero(page_size: int)
    requires
        page_size > 0,
    ensures
        ceil_div(0, page_size) == 0,
{
    assert((page_size - 1) / page_size == 0) by (nonlinear_arith)
        requires
            page_size > 0,
    ;
}

proof fn lemma_ceil_of_positive(total: int, page_size: int)
    requires
        total > 0,
        page_size > 0,
    ensures
        ceil_div(total, page_size) == (total - 1) / page_size + 1,
{
    assert((total - 1 + page_size) / page_size == (total - 1) / page_size + 1)
        by (nonlinear_arith)
        requires
            page_size > 0,
    ;
}

proof fn lemma_ceil_of_negative(total: int, page_size: int)
    requires
        total < 0,
        page_size > 0,
    ensures
        ceil_div(total, page_size) == -((-total) / page_size),
{
    lemma_ceil_div_is_least_cover(total, page_size);
    let c = ceil_div(total, page_size);
    let m = -total;
    // -c is the floor of m / page_size.
    assert((-c) * page_size <= m && m < (-c + 1) * page_size) by (nonlinear_arith)
        requires
            c * page_size >= total,
            (c - 1) * page_size < total,
            m == -total,
    ;
    assert(m / page_size == -c) by (nonlinear_arith)
        requires
            (-c) * page_size <= m,
            m < (-c + 1) * page_size,
            page_size > 0,
    ;
}

/// The number of pages that `total` items take at `page_size` items a page,
/// kept within `i32`. A page holds at least one item: `page_size` is
/// positive.
pub fn total_pages(total: i64, page_size: i32) -> (pages: i32)
    requires
        page_size > 0,
    ensures
        pages == saturate_i32(ceil_div(total as int, page_size as int)),
{
    let size: i64 = page_size as i64;
    if total > 0 {
        let whole: i64 = (total - 1) / size + 1;
        proof {
            lemma_ceil_of_positive(total as int, page_size as int);
        }
        if whole > i32::MAX as i64 {
            i32::MAX
        } else {
            whole as i32
        }
    } else if total == 0 {
        proof {
            lemma_ceil_div_of_zero(page_size as int);
        }
        0
    } else {
        // Rounding up a negative quotient drops its fraction.
        let below: u64 = ((-(total + 1)) as u64) + 1;
        let whole: u64 = below / (size as u64);
        proof {
            lemma_ceil_of_negative(total as int, page_size as int);
        }
        if whole >= 0x8000_0000u64 {
            i32::MIN
        } else {
            -(whole as i32)
        }
    }
}

/// Where a page stands in the whole result.
#[derive(Debug)]
pub struct PageInfo {
    pub total: i64,
    pub page: i32,
    pub page_size: i32,
    pub total_pages: i32,
}

/// One page of items with its place in the whole result.
#[derive(Debug)]
pub struct PageResponse<T> {
    pub items: Vec<T>,
    pub page_info: PageInfo,
}

impl PageInfo {
    /// The page count is the one that `total` and `page_size` give.
    pub open spec fn consistent(self) -> bool {
        &&& self.page_size > 0
        &&& self.total_pages == saturate_i32(ceil_div(self.total as int, self.page_size as int))
    }
}

impl<T> ApiResponse<PageResponse<T>> {
    /// Wraps one page of a result of `total` items as the payload of a
    /// request that succeeded, with the page count that `total` and
    /// `page_size` give. A page holds at least one item: `page_size` is
    /// positive.
    pub fn success_with_page(
        context: RequestContext,
        items: Vec<T>,
        total: i64,
        page: i32,
        page_size: i32,
    ) -> (r: Self)
        requires
            page_size > 0,
        ensures
            r@ == success_envelope(
                context@,
                PageResponse {
                    items,
                    page_info: PageInfo {
                        total,
                        page,
                        page_size,
                        total_pages: saturate_i32(ceil_div(total as int, page_size as int)) as i32,
                    },
                },
            ),
            r@.data->0.page_info.consistent(),
    {
        let pages: i32 = total_pages(total, page_size);
        Self::success(
            context,
            PageResponse {
                items,
                page_info: PageInfo { total, page, page_size, total_pages: pages },
            },
        )
    }
}

} // verus!
