//! A type-erased, shared handle around a filter composition.
//!
//! Boxing lets a routing table be returned from functions, stored and
//! shared without exposing how it was composed. Cloning a boxed filter
//! shares the same underlying, immutable filter; evaluation through the
//! handle is identical to evaluation of the filter it was created from.

use std::sync::Arc;

use vstd::prelude::*;

use crate::extract::Value;
use crate::filter::{eval, outcome_model, spec_eval, Filter};
use crate::reject::Rejection;
use crate::request::{Request, RequestModel};

verus! {

/// A shared, opaque handle around a filter.
///
/// To create one, call [`Filter::boxed`] on any filter.
#[derive(Debug)]
pub struct BoxedFilter {
    filter: Arc<Filter>,
}

/// Relies on `std::sync::Arc::clone`: the returned handle points to the
/// same allocation, so it holds the same filter.
#[verifier::external_body]
fn share(f: &Arc<Filter>) -> (r: Arc<Filter>)
    ensures
        r == *f,
{
    Arc::clone(f)
}

/// Relies on `std::sync::Arc`'s `Deref`: borrowing through the handle
/// yields the filter it was created from.
#[verifier::external_body]
fn borrow_filter(f: &Arc<Filter>) -> (r: &Filter)
    ensures
        *r == **f,
{
    &**f
}

impl View for BoxedFilter {
    type V = Filter;

    /// A boxed filter is modelled by the filter it wraps.
    closed spec fn view(&self) -> Filter {
        *self.filter
    }
}

impl BoxedFilter {
    /// Wrap a concrete filter into a shared, opaque handle.
    pub fn new(f: Filter) -> (b: BoxedFilter)
        ensures
            b@ == f,
    {
        BoxedFilter { filter: Arc::new(f) }
    }

    /// Evaluate the wrapped filter against a request from path cursor
    /// `pos`: the outcome and cursor are exactly those of the filter
    /// this handle was created from.
    pub fn filter(&self, req: &Request, pos: usize) -> (res: (
        Result<Vec<Value>, Rejection>,
        usize,
    ))
        ensures
            outcome_model(res.0) == spec_eval(self@, req@, pos as int).0,
            res.1 as int == spec_eval(self@, req@, pos as int).1,
    {
        eval(borrow_filter(&self.filter), req, pos)
    }

    /// Evaluate the wrapped filter against a whole request, from the
    /// start of its path.
    pub fn evaluate(&self, req: &Request) -> (res: Result<Vec<Value>, Rejection>)
        ensures
            outcome_model(res) == spec_eval(self@, req@, 0).0,
    {
        let (r, _) = self.filter(req, 0);
        r
    }
}

impl Clone for BoxedFilter {
    /// Cloning shares the same underlying filter: the clone wraps, and
    /// so evaluates, exactly the same composition.
    fn clone(&self) -> (b: Self)
        ensures
            b@ == self@,
    {
        BoxedFilter { filter: share(&self.filter) }
    }
}

impl Filter {
    /// Erase this filter's composition behind a shared handle.
    pub fn boxed(self) -> (b: BoxedFilter)
        ensures
            b@ == self,
    {
        BoxedFilter::new(self)
    }
}

/// Boxing is transparent: a boxed filter evaluates to the same outcome
/// and cursor as its unboxed source, on every request and every cursor.
pub proof fn lemma_boxing_transparent(
    b: BoxedFilter,
    f: Filter,
    rq: RequestModel,
    pos: int,
)
    requires
        b@ == f,
    ensures
        spec_eval(b@, rq, pos) == spec_eval(f, rq, pos),
{
}

} // verus!
