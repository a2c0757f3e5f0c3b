//! Rejections: structured failure values with a priority used to pick the
//! most informative failure across competing alternatives.

use vstd::prelude::*;

verus! {

/// Why a filter did not match.
///
/// Each kind carries an implicit priority, from weakest (`NotFound`: no
/// route shape matched at all) to strongest (`Custom`: a route matched
/// structurally but a deeper, application-level check rejected with a
/// caller-supplied cause).
#[derive(Clone, Debug, PartialEq, Eq)]
pub enum Rejection {
    /// No route shape matched at all.
    NotFound,
    /// The path shape matched but the request method did not.
    MethodNotAllowed,
    /// A required input (such as a header) was absent.
    MissingInput,
    /// An input was present but failed to parse into its expected type.
    InvalidInput,
    /// An application-level rejection, carrying a caller-supplied cause.
    Custom(String),
}

/// The priority of a rejection: higher is more specific, and more
/// informative to report when alternatives disagree.
pub open spec fn spec_priority(r: Rejection) -> int {
    match r {
        Rejection::NotFound => 0,
        Rejection::MethodNotAllowed => 1,
        Rejection::MissingInput => 2,
        Rejection::InvalidInput => 3,
        Rejection::Custom(_) => 4,
    }
}

/// Combining two competing rejections keeps the higher-priority one;
/// on equal priority the right-hand (most recently produced) one wins.
pub open spec fn spec_combine(a: Rejection, b: Rejection) -> Rejection {
    if spec_priority(b) >= spec_priority(a) {
        b
    } else {
        a
    }
}

impl Rejection {
    /// The priority of this rejection.
    pub fn priority(&self) -> (p: u8)
        ensures
            p as int == spec_priority(*self),
    {
        match self {
            Rejection::NotFound => 0,
            Rejection::MethodNotAllowed => 1,
            Rejection::MissingInput => 2,
            Rejection::InvalidInput => 3,
            Rejection::Custom(_) => 4,
        }
    }

    /// Combine this rejection with a more recently produced one, keeping
    /// the more informative of the two.
    pub fn combine(self, other: Rejection) -> (r: Rejection)
        ensures
            r == spec_combine(self, other),
    {
        if other.priority() >= self.priority() {
            other
        } else {
            self
        }
    }
}

/// Rejection combination is associative: folding the rejections of three
/// failed alternatives gives the same final rejection however the
/// alternatives were grouped.
pub proof fn lemma_combine_associative(a: Rejection, b: Rejection, c: Rejection)
    ensures
        spec_combine(spec_combine(a, b), c) == spec_combine(a, spec_combine(b, c)),
{
}

/// Combination never invents a rejection: the result is one of the two
/// operands, and its priority is the maximum of the two, whichever order
/// the operands are combined in.
pub proof fn lemma_combine_picks_max(a: Rejection, b: Rejection)
    ensures
        spec_combine(a, b) == a || spec_combine(a, b) == b,
        spec_priority(spec_combine(a, b)) >= spec_priority(a),
        spec_priority(spec_combine(a, b)) >= spec_priority(b),
        spec_priority(spec_combine(a, b)) == spec_priority(spec_combine(b, a)),
{
}

} // verus!
