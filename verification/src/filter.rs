//! The filter tree and its evaluation: primitive matchers combined by
//! `and` (sequential), `or` (alternative) and `map` (pure transformation),
//! evaluated once per request, depth-first and left-to-right.

use vstd::prelude::*;

use crate::extract::{kind_of, kinds_of, lemma_kinds_of_concat, Kind, Value, ValueModel};
use crate::parse::{parse_u32, spec_parse_u32};
use crate::reject::{spec_combine, Rejection};
use crate::request::{spec_header_value, Method, Request, RequestModel};

verus! {

/// A pure transform applied by the `map` combinator to a successful
/// extraction tuple, collapsing it to a single replacement value.
#[derive(Debug, PartialEq, Eq)]
pub enum Transform {
    /// Ignore the (empty) tuple and produce a fixed text.
    ConstText(String),
    /// Prepend a fixed text to a single extracted text value.
    Prefix(String),
}

/// The tuple shape a transform consumes.
pub open spec fn transform_in(t: Transform) -> Seq<Kind> {
    match t {
        Transform::ConstText(_) => Seq::<Kind>::empty(),
        Transform::Prefix(_) => seq![Kind::Text],
    }
}

/// The kind of the single value a transform produces.
pub open spec fn transform_out(t: Transform) -> Kind {
    match t {
        Transform::ConstText(_) => Kind::Text,
        Transform::Prefix(_) => Kind::Text,
    }
}

/// What a transform produces from an extraction tuple. On a tuple of the
/// shape `transform_in` demands this is the transform's documented value;
/// a validated filter tree never applies a transform to any other shape,
/// and on such a shape the extra values are ignored.
pub open spec fn spec_apply(t: Transform, vs: Seq<ValueModel>) -> ValueModel {
    match t {
        Transform::ConstText(s) => ValueModel::Text(s@),
        Transform::Prefix(p) => if vs.len() > 0 && vs[0] is Text {
            ValueModel::Text(p@ + vs[0]->Text_0)
        } else {
            ValueModel::Text(p@)
        },
    }
}

/// A filter: a composable unit that evaluates a request context and
/// yields either an extraction tuple or a rejection. Filters are
/// immutable once constructed; evaluation carries no state beyond the
/// path cursor of its own frame, so one tree can back any number of
/// concurrent evaluations.
#[derive(Debug)]
pub enum Filter {
    /// Succeeds with an empty tuple when the request method equals the
    /// expected one; rejects with `MethodNotAllowed` otherwise.
    MethodIs(Method),
    /// Consumes one path segment equal to the literal; rejects with
    /// `NotFound` on a mismatch or an exhausted path.
    Segment(String),
    /// Succeeds with an empty tuple when the whole path has been
    /// consumed; rejects with `NotFound` otherwise.
    End,
    /// Consumes one path segment and extracts it as a `u32`; rejects
    /// with `InvalidInput` when the segment is not a decimal number and
    /// with `NotFound` when the path is exhausted.
    ParamU32,
    /// Consumes one path segment and extracts it as text; rejects with
    /// `NotFound` when the path is exhausted.
    ParamText,
    /// Extracts the value of the named header without touching the
    /// path; rejects with `MissingInput` when the header is absent.
    Header(String),
    /// Sequential composition: left first, then right from the cursor
    /// the left one reached, flattening the two tuples.
    And(Box<Filter>, Box<Filter>),
    /// Alternative composition: right is tried from the original cursor
    /// only when left rejects; two rejections are combined by priority.
    Or(Box<Filter>, Box<Filter>),
    /// Pure transformation of a successful tuple; rejections pass
    /// through unchanged.
    Mapped(Box<Filter>, Transform),
}

/// The static shape of the extraction tuple a filter produces: arity and
/// kinds are fixed by construction.
pub open spec fn shape_of(f: Filter) -> Seq<Kind>
    decreases f,
{
    match f {
        Filter::MethodIs(_) => Seq::<Kind>::empty(),
        Filter::Segment(_) => Seq::<Kind>::empty(),
        Filter::End => Seq::<Kind>::empty(),
        Filter::ParamU32 => seq![Kind::U32],
        Filter::ParamText => seq![Kind::Text],
        Filter::Header(_) => seq![Kind::Text],
        Filter::And(a, b) => shape_of(*a) + shape_of(*b),
        Filter::Or(a, _) => shape_of(*a),
        Filter::Mapped(_, t) => seq![transform_out(t)],
    }
}

/// Well-formedness of a filter tree: both operands of an `or` produce the
/// same tuple shape (downstream consumers cannot know which branch
/// matched), and a transform is applied only to the shape it consumes.
/// A violation is a construction-time misuse, caught by [`Filter::shape`]
/// when the route table is built, never a per-request error.
pub open spec fn wf(f: Filter) -> bool
    decreases f,
{
    match f {
        Filter::And(a, b) => wf(*a) && wf(*b),
        Filter::Or(a, b) => wf(*a) && wf(*b) && shape_of(*a) == shape_of(*b),
        Filter::Mapped(a, t) => wf(*a) && shape_of(*a) == transform_in(t),
        _ => true,
    }
}

/// What evaluating a filter against a request yields, starting from path
/// cursor `pos`: the outcome (an extraction tuple or a rejection) and the
/// cursor reached. This is the single semantics every evaluation path of
/// the library is proved against.
pub open spec fn spec_eval(f: Filter, rq: RequestModel, pos: int) -> (Result<
    Seq<ValueModel>,
    Rejection,
>, int)
    decreases f,
{
    match f {
        Filter::MethodIs(m) => if rq.method == m {
            (Result::Ok(Seq::<ValueModel>::empty()), pos)
        } else {
            (Result::Err(Rejection::MethodNotAllowed), pos)
        },
        Filter::Segment(s) => if 0 <= pos < rq.path.len() && rq.path[pos] == s@ {
            (Result::Ok(Seq::<ValueModel>::empty()), pos + 1)
        } else {
            (Result::Err(Rejection::NotFound), pos)
        },
        Filter::End => if pos == rq.path.len() {
            (Result::Ok(Seq::<ValueModel>::empty()), pos)
        } else {
            (Result::Err(Rejection::NotFound), pos)
        },
        Filter::ParamU32 => if 0 <= pos < rq.path.len() {
            match spec_parse_u32(rq.path[pos]) {
                Option::Some(n) => (Result::Ok(seq![ValueModel::U32(n)]), pos + 1),
                Option::None => (Result::Err(Rejection::InvalidInput), pos),
            }
        } else {
            (Result::Err(Rejection::NotFound), pos)
        },
        Filter::ParamText => if 0 <= pos < rq.path.len() {
            (Result::Ok(seq![ValueModel::Text(rq.path[pos])]), pos + 1)
        } else {
            (Result::Err(Rejection::NotFound), pos)
        },
        Filter::Header(name) => match spec_header_value(rq.headers, name@) {
            Option::Some(v) => (Result::Ok(seq![ValueModel::Text(v)]), pos),
            Option::None => (Result::Err(Rejection::MissingInput), pos),
        },
        Filter::And(a, b) => {
            let (ra, pa) = spec_eval(*a, rq, pos);
            match ra {
                Result::Err(e) => (Result::Err(e), pa),
                Result::Ok(va) => {
                    let (rb, pb) = spec_eval(*b, rq, pa);
                    match rb {
                        Result::Err(e) => (Result::Err(e), pb),
                        Result::Ok(vb) => (Result::Ok(va + vb), pb),
                    }
                },
            }
        },
        Filter::Or(a, b) => {
            let (ra, pa) = spec_eval(*a, rq, pos);
            match ra {
                Result::Ok(va) => (Result::Ok(va), pa),
                Result::Err(ea) => {
                    let (rb, pb) = spec_eval(*b, rq, pos);
                    match rb {
                        Result::Ok(vb) => (Result::Ok(vb), pb),
                        Result::Err(eb) => (Result::Err(spec_combine(ea, eb)), pos),
                    }
                },
            }
        },
        Filter::Mapped(a, t) => {
            let (ra, pa) = spec_eval(*a, rq, pos);
            match ra {
                Result::Err(e) => (Result::Err(e), pa),
                Result::Ok(va) => (Result::Ok(seq![spec_apply(t, va)]), pa),
            }
        },
    }
}

/// On a well-formed filter, every successful evaluation produces a tuple
/// of exactly the filter's static shape: arity and kinds are fixed by
/// construction, whatever the request.
pub proof fn lemma_eval_shape(f: Filter, rq: RequestModel, pos: int)
    requires
        wf(f),
    ensures
        spec_eval(f, rq, pos).0 matches Result::Ok(vs) ==> kinds_of(vs) == shape_of(f),
    decreases f,
{
    match f {
        Filter::And(a, b) => {
            lemma_eval_shape(*a, rq, pos);
            let (ra, pa) = spec_eval(*a, rq, pos);
            if ra is Ok {
                lemma_eval_shape(*b, rq, pa);
                if spec_eval(*b, rq, pa).0 is Ok {
                    lemma_kinds_of_concat(ra->Ok_0, spec_eval(*b, rq, pa).0->Ok_0);
                }
            }
        },
        Filter::Or(a, b) => {
            lemma_eval_shape(*a, rq, pos);
            lemma_eval_shape(*b, rq, pos);
        },
        Filter::Mapped(a, t) => {
            lemma_eval_shape(*a, rq, pos);
            let (ra, pa) = spec_eval(*a, rq, pos);
            if ra is Ok {
                assert(kinds_of(seq![spec_apply(t, ra->Ok_0)]) =~= seq![
                    kind_of(spec_apply(t, ra->Ok_0)),
                ]);
            }
        },
        _ => {
            assert(kinds_of(Seq::<ValueModel>::empty()) =~= Seq::<Kind>::empty());
            if f is ParamU32 && 0 <= pos < rq.path.len() {
                match spec_parse_u32(rq.path[pos]) {
                    Option::Some(n) => {
                        assert(kinds_of(seq![ValueModel::U32(n)]) =~= seq![Kind::U32]);
                    },
                    Option::None => {},
                }
            }
            if 0 <= pos < rq.path.len() {
                assert(kinds_of(seq![ValueModel::Text(rq.path[pos])]) =~= seq![Kind::Text]);
            }
            match f {
                Filter::Header(name) => {
                    match spec_header_value(rq.headers, name@) {
                        Option::Some(v) => {
                            assert(kinds_of(seq![ValueModel::Text(v)]) =~= seq![Kind::Text]);
                        },
                        Option::None => {},
                    }
                },
                _ => {},
            }
        },
    }
}

/// Path consumption is monotonic: a successful evaluation only ever moves
/// the cursor forward, and never past the end of the path.
pub proof fn lemma_eval_cursor_monotonic(f: Filter, rq: RequestModel, pos: int)
    requires
        0 <= pos <= rq.path.len(),
    ensures
        spec_eval(f, rq, pos).0 is Ok ==> pos <= spec_eval(f, rq, pos).1 <= rq.path.len(),
    decreases f,
{
    match f {
        Filter::And(a, b) => {
            lemma_eval_cursor_monotonic(*a, rq, pos);
            let (ra, pa) = spec_eval(*a, rq, pos);
            if ra is Ok {
                lemma_eval_cursor_monotonic(*b, rq, pa);
            }
        },
        Filter::Or(a, b) => {
            lemma_eval_cursor_monotonic(*a, rq, pos);
            lemma_eval_cursor_monotonic(*b, rq, pos);
        },
        Filter::Mapped(a, _) => {
            lemma_eval_cursor_monotonic(*a, rq, pos);
        },
        _ => {},
    }
}

/// The mathematical model of an evaluation outcome.
pub open spec fn outcome_model(r: Result<Vec<Value>, Rejection>) -> Result<
    Seq<ValueModel>,
    Rejection,
> {
    match r {
        Result::Ok(v) => Result::Ok(v.deep_view()),
        Result::Err(e) => Result::Err(e),
    }
}

/// Apply a transform to an extraction tuple.
fn apply(t: &Transform, vals: &Vec<Value>) -> (r: Value)
    ensures
        r@ == spec_apply(*t, vals.deep_view()),
{
    match t {
        Transform::ConstText(s) => Value::Text(s.clone()),
        Transform::Prefix(p) => {
            if vals.len() > 0 {
                proof {
                    assert(vals.deep_view()[0] == vals@[0]@);
                }
                match &vals[0] {
                    Value::Text(v) => {
                        let mut out = p.clone();
                        out.append(v.as_str());
                        Value::Text(out)
                    },
                    _ => Value::Text(p.clone()),
                }
            } else {
                Value::Text(p.clone())
            }
        },
    }
}

/// Evaluate a filter against a request, starting at path cursor `pos`:
/// the per-request, depth-first, left-to-right walk of the tree. The
/// outcome and the cursor reached are exactly those of [`spec_eval`];
/// the right operand of an `and` is not evaluated when the left one
/// rejects, nor the right operand of an `or` when the left one succeeds.
pub fn eval(f: &Filter, req: &Request, pos: usize) -> (res: (Result<Vec<Value>, Rejection>, usize))
    ensures
        outcome_model(res.0) == spec_eval(*f, req@, pos as int).0,
        res.1 as int == spec_eval(*f, req@, pos as int).1,
    decreases *f,
{
    match f {
        Filter::MethodIs(m) => {
            if req.method == *m {
                (Result::Ok(empty_tuple()), pos)
            } else {
                (Result::Err(Rejection::MethodNotAllowed), pos)
            }
        },
        Filter::Segment(s) => {
            if pos < req.path.len() {
                proof {
                    assert(req@.path[pos as int] == req.path@[pos as int]@);
                }
                let seg: &String = &req.path[pos];
                if seg.eq(s) {
                    (Result::Ok(empty_tuple()), pos + 1)
                } else {
                    (Result::Err(Rejection::NotFound), pos)
                }
            } else {
                (Result::Err(Rejection::NotFound), pos)
            }
        },
        Filter::End => {
            if pos == req.path.len() {
                (Result::Ok(empty_tuple()), pos)
            } else {
                (Result::Err(Rejection::NotFound), pos)
            }
        },
        Filter::ParamU32 => {
            if pos < req.path.len() {
                proof {
                    assert(req@.path[pos as int] == req.path@[pos as int]@);
                }
                match parse_u32(req.path[pos].as_str()) {
                    Option::Some(n) => {
                        let v = one_tuple(Value::U32(n));
                        proof {
                            assert(v.deep_view() =~= seq![ValueModel::U32(n)]);
                        }
                        (Result::Ok(v), pos + 1)
                    },
                    Option::None => (Result::Err(Rejection::InvalidInput), pos),
                }
            } else {
                (Result::Err(Rejection::NotFound), pos)
            }
        },
        Filter::ParamText => {
            if pos < req.path.len() {
                proof {
                    assert(req@.path[pos as int] == req.path@[pos as int]@);
                }
                let v = one_tuple(Value::Text(req.path[pos].clone()));
                proof {
                    assert(v.deep_view() =~= seq![ValueModel::Text(req@.path[pos as int])]);
                }
                (Result::Ok(v), pos + 1)
            } else {
                (Result::Err(Rejection::NotFound), pos)
            }
        },
        Filter::Header(name) => {
            match req.header_value(name.as_str()) {
                Option::Some(val) => {
                    let ghost sv = spec_header_value(req@.headers, name@)->Some_0;
                    let v = one_tuple(Value::Text(val));
                    proof {
                        assert(v.deep_view() =~= seq![ValueModel::Text(sv)]);
                    }
                    (Result::Ok(v), pos)
                },
                Option::None => (Result::Err(Rejection::MissingInput), pos),
            }
        },
        Filter::And(a, b) => {
            let (r1, p1) = eval(a, req, pos);
            match r1 {
                Result::Err(e) => (Result::Err(e), p1),
                Result::Ok(mut v1) => {
                    let (r2, p2) = eval(b, req, p1);
                    match r2 {
                        Result::Err(e) => (Result::Err(e), p2),
                        Result::Ok(mut v2) => {
                            let ghost m1 = v1.deep_view();
                            let ghost m2 = v2.deep_view();
                            v1.append(&mut v2);
                            proof {
                                assert(v1.deep_view() =~= m1 + m2);
                            }
                            (Result::Ok(v1), p2)
                        },
                    }
                },
            }
        },
        Filter::Or(a, b) => {
            let (r1, p1) = eval(a, req, pos);
            match r1 {
                Result::Ok(v1) => (Result::Ok(v1), p1),
                Result::Err(e1) => {
                    let (r2, p2) = eval(b, req, pos);
                    match r2 {
                        Result::Ok(v2) => (Result::Ok(v2), p2),
                        Result::Err(e2) => (Result::Err(e1.combine(e2)), pos),
                    }
                },
            }
        },
        Filter::Mapped(a, t) => {
            let (r1, p1) = eval(a, req, pos);
            match r1 {
                Result::Err(e) => (Result::Err(e), p1),
                Result::Ok(v1) => {
                    let out = apply(t, &v1);
                    let v = one_tuple(out);
                    proof {
                        assert(v.deep_view() =~= seq![spec_apply(*t, v1.deep_view())]);
                    }
                    (Result::Ok(v), p1)
                },
            }
        },
    }
}

/// An empty extraction tuple.
fn empty_tuple() -> (v: Vec<Value>)
    ensures
        v.deep_view() == Seq::<ValueModel>::empty(),
{
    let v: Vec<Value> = Vec::new();
    proof {
        assert(v.deep_view() =~= Seq::<ValueModel>::empty());
    }
    v
}

/// A one-value extraction tuple.
fn one_tuple(x: Value) -> (v: Vec<Value>)
    ensures
        v.deep_view() == seq![x@],
{
    let mut v: Vec<Value> = Vec::new();
    v.push(x);
    proof {
        assert(v.deep_view() =~= seq![x@]);
    }
    v
}

/// A filter that matches requests with the given method.
pub fn method_is(m: Method) -> (f: Filter)
    ensures
        f == Filter::MethodIs(m),
{
    Filter::MethodIs(m)
}

/// A filter that consumes one path segment equal to `s`.
pub fn path(s: &str) -> (f: Filter)
    ensures
        f matches Filter::Segment(t) && t@ == s@,
{
    Filter::Segment(String::from_str(s))
}

/// A filter that matches only a fully consumed path.
pub fn end() -> (f: Filter)
    ensures
        f == Filter::End,
{
    Filter::End
}

/// A filter that consumes one path segment and extracts it as a `u32`.
pub fn param_u32() -> (f: Filter)
    ensures
        f == Filter::ParamU32,
{
    Filter::ParamU32
}

/// A filter that consumes one path segment and extracts it as text.
pub fn param_text() -> (f: Filter)
    ensures
        f == Filter::ParamText,
{
    Filter::ParamText
}

/// A filter that extracts the value of the named header.
pub fn header(name: &str) -> (f: Filter)
    ensures
        f matches Filter::Header(t) && t@ == name@,
{
    Filter::Header(String::from_str(name))
}

/// A route matched only on `Get` requests: the method check runs first,
/// so a route whose path shape matches but whose verb does not reports
/// `MethodNotAllowed` rather than `NotFound`.
pub fn get(f: Filter) -> (r: Filter)
    ensures
        r == Filter::And(Box::new(Filter::MethodIs(Method::Get)), Box::new(f)),
{
    Filter::And(Box::new(Filter::MethodIs(Method::Get)), Box::new(f))
}

impl Filter {
    /// Sequential composition: `self`, then `other` from the cursor
    /// `self` reached, their tuples flattened left-to-right.
    pub fn and(self, other: Filter) -> (r: Filter)
        ensures
            r == Filter::And(Box::new(self), Box::new(other)),
    {
        Filter::And(Box::new(self), Box::new(other))
    }

    /// Alternative composition: `other` is tried, from the original
    /// cursor, only when `self` rejects.
    pub fn or(self, other: Filter) -> (r: Filter)
        ensures
            r == Filter::Or(Box::new(self), Box::new(other)),
    {
        Filter::Or(Box::new(self), Box::new(other))
    }

    /// Pure transformation of a successful extraction tuple.
    pub fn map(self, t: Transform) -> (r: Filter)
        ensures
            r == Filter::Mapped(Box::new(self), t),
    {
        Filter::Mapped(Box::new(self), t)
    }

    /// Evaluate this filter against a whole request, from the start of
    /// its path.
    pub fn evaluate(&self, req: &Request) -> (res: Result<Vec<Value>, Rejection>)
        ensures
            outcome_model(res) == spec_eval(*self, req@, 0).0,
    {
        let (r, _) = eval(self, req, 0);
        r
    }

    /// Validate this filter tree at route-table build time: the tuple
    /// shape it produces, or `None` when an `or` joins two shapes or a
    /// transform is applied to a shape it does not consume.
    pub fn shape(&self) -> (r: Option<Vec<Kind>>)
        ensures
            match r {
                Option::Some(ks) => wf(*self) && ks@ == shape_of(*self),
                Option::None => !wf(*self),
            },
        decreases *self,
    {
        match self {
            Filter::MethodIs(_) => Option::Some(Vec::new()),
            Filter::Segment(_) => Option::Some(Vec::new()),
            Filter::End => Option::Some(Vec::new()),
            Filter::ParamU32 => {
                let mut ks: Vec<Kind> = Vec::new();
                ks.push(Kind::U32);
                Option::Some(ks)
            },
            Filter::ParamText => {
                let mut ks: Vec<Kind> = Vec::new();
                ks.push(Kind::Text);
                Option::Some(ks)
            },
            Filter::Header(_) => {
                let mut ks: Vec<Kind> = Vec::new();
                ks.push(Kind::Text);
                Option::Some(ks)
            },
            Filter::And(a, b) => {
                match (a.shape(), b.shape()) {
                    (Option::Some(mut ka), Option::Some(mut kb)) => {
                        let ghost sa = ka@;
                        ka.append(&mut kb);
                        proof {
                            assert(ka@ =~= sa + shape_of(**b));
                        }
                        Option::Some(ka)
                    },
                    _ => Option::None,
                }
            },
            Filter::Or(a, b) => {
                match (a.shape(), b.shape()) {
                    (Option::Some(ka), Option::Some(kb)) => {
                        if kinds_eq(&ka, &kb) {
                            Option::Some(ka)
                        } else {
                            Option::None
                        }
                    },
                    _ => Option::None,
                }
            },
            Filter::Mapped(a, t) => {
                match a.shape() {
                    Option::Some(ka) => {
                        let want = transform_in_kinds(t);
                        if kinds_eq(&ka, &want) {
                            let mut ks: Vec<Kind> = Vec::new();
                            ks.push(transform_out_kind(t));
                            Option::Some(ks)
                        } else {
                            Option::None
                        }
                    },
                    Option::None => Option::None,
                }
            },
        }
    }
}

/// The tuple shape a transform consumes.
fn transform_in_kinds(t: &Transform) -> (ks: Vec<Kind>)
    ensures
        ks@ == transform_in(*t),
{
    match t {
        Transform::ConstText(_) => {
            let ks: Vec<Kind> = Vec::new();
            proof {
                assert(ks@ =~= Seq::<Kind>::empty());
            }
            ks
        },
        Transform::Prefix(_) => {
            let mut ks: Vec<Kind> = Vec::new();
            ks.push(Kind::Text);
            proof {
                assert(ks@ =~= seq![Kind::Text]);
            }
            ks
        },
    }
}

/// The kind of the single value a transform produces.
fn transform_out_kind(t: &Transform) -> (k: Kind)
    ensures
        k == transform_out(*t),
{
    match t {
        Transform::ConstText(_) => Kind::Text,
        Transform::Prefix(_) => Kind::Text,
    }
}

/// Whether two shapes are equal.
fn kinds_eq(a: &Vec<Kind>, b: &Vec<Kind>) -> (r: bool)
    ensures
        r == (a@ == b@),
{
    if a.len() != b.len() {
        return false;
    }
    let mut i: usize = 0;
    while i < a.len()
        invariant
            0 <= i <= a.len(),
            a@.len() == b@.len(),
            forall|j: int| 0 <= j < i ==> a@[j] == b@[j],
        decreases a.len() - i,
    {
        if a[i] != b[i] {
            return false;
        }
        i = i + 1;
    }
    proof {
        assert(a@ =~= b@);
    }
    true
}

impl Clone for Transform {
    /// A clone is the same transform.
    fn clone(&self) -> (r: Self)
        ensures
            r == *self,
    {
        match self {
            Transform::ConstText(s) => Transform::ConstText(s.clone()),
            Transform::Prefix(p) => Transform::Prefix(p.clone()),
        }
    }
}

impl Clone for Filter {
    /// A clone is the same filter: it evaluates identically and can be
    /// composed into further routes while the original stays in use.
    fn clone(&self) -> (r: Self)
        ensures
            r == *self,
        decreases *self,
    {
        match self {
            Filter::MethodIs(m) => Filter::MethodIs(*m),
            Filter::Segment(s) => Filter::Segment(s.clone()),
            Filter::End => Filter::End,
            Filter::ParamU32 => Filter::ParamU32,
            Filter::ParamText => Filter::ParamText,
            Filter::Header(s) => Filter::Header(s.clone()),
            Filter::And(a, b) => Filter::And(Box::new((**a).clone()), Box::new((**b).clone())),
            Filter::Or(a, b) => Filter::Or(Box::new((**a).clone()), Box::new((**b).clone())),
            Filter::Mapped(a, t) => Filter::Mapped(Box::new((**a).clone()), t.clone()),
        }
    }
}

/// Sequential composition flattens: when both operands succeed, the
/// `and` of two filters succeeds with the left tuple's values first,
/// then the right tuple's, in their original orders, the cursor being
/// threaded from the left filter into the right one.
pub proof fn lemma_and_flattens(a: Filter, b: Filter, rq: RequestModel, pos: int)
    ensures
        ({
            let (ra, pa) = spec_eval(a, rq, pos);
            let (rb, pb) = spec_eval(b, rq, pa);
            ra matches Result::Ok(va) ==> rb matches Result::Ok(vb) ==> spec_eval(
                Filter::And(Box::new(a), Box::new(b)),
                rq,
                pos,
            ) == (Result::<Seq<ValueModel>, Rejection>::Ok(va + vb), pb)
        }),
{
}

/// Sequential composition short-circuits: whenever the left operand
/// rejects, the `and` rejects with exactly that rejection, whatever the
/// right operand is.
pub proof fn lemma_and_short_circuits(a: Filter, b: Filter, rq: RequestModel, pos: int)
    ensures
        ({
            let (ra, pa) = spec_eval(a, rq, pos);
            ra matches Result::Err(e) ==> spec_eval(Filter::And(Box::new(a), Box::new(b)), rq, pos)
                == (Result::<Seq<ValueModel>, Rejection>::Err(e), pa)
        }),
{
}

/// Flattening is associative: however a sequential chain is grouped, it
/// threads the cursor through the same filters in the same order and
/// produces the same outcome — in particular, the same flattened tuple.
pub proof fn lemma_and_associative(a: Filter, b: Filter, c: Filter, rq: RequestModel, pos: int)
    ensures
        spec_eval(
            Filter::And(Box::new(Filter::And(Box::new(a), Box::new(b))), Box::new(c)),
            rq,
            pos,
        ) == spec_eval(
            Filter::And(Box::new(a), Box::new(Filter::And(Box::new(b), Box::new(c)))),
            rq,
            pos,
        ),
{
    reveal_with_fuel(spec_eval, 3);
    let (ra, pa) = spec_eval(a, rq, pos);
    if ra is Ok {
        let (rb, pb) = spec_eval(b, rq, pa);
        if rb is Ok {
            let (rc, pc) = spec_eval(c, rq, pb);
            if rc is Ok {
                assert((ra->Ok_0 + rb->Ok_0) + rc->Ok_0 =~= ra->Ok_0 + (rb->Ok_0 + rc->Ok_0));
            }
        }
    }
}

/// Alternatives report the same failure however they are grouped: when
/// all three filters reject, `(a.or(b)).or(c)` and `a.or(b.or(c))`
/// evaluate to the same outcome, the fold of the three rejections under
/// the priority rule.
pub proof fn lemma_or_rejections_associative(
    a: Filter,
    b: Filter,
    c: Filter,
    rq: RequestModel,
    pos: int,
)
    ensures
        ({
            let ra = spec_eval(a, rq, pos).0;
            let rb = spec_eval(b, rq, pos).0;
            let rc = spec_eval(c, rq, pos).0;
            ra matches Result::Err(ea) ==> rb matches Result::Err(eb) ==> rc matches Result::Err(
                ec,
            ) ==> {
                let grouped_left = spec_eval(
                    Filter::Or(Box::new(Filter::Or(Box::new(a), Box::new(b))), Box::new(c)),
                    rq,
                    pos,
                );
                let grouped_right = spec_eval(
                    Filter::Or(Box::new(a), Box::new(Filter::Or(Box::new(b), Box::new(c)))),
                    rq,
                    pos,
                );
                &&& grouped_left == grouped_right
                &&& grouped_left == (
                    Result::<Seq<ValueModel>, Rejection>::Err(
                        spec_combine(spec_combine(ea, eb), ec),
                    ),
                    pos,
                )
            }
        }),
{
    reveal_with_fuel(spec_eval, 3);
    let ra = spec_eval(a, rq, pos).0;
    let rb = spec_eval(b, rq, pos).0;
    let rc = spec_eval(c, rq, pos).0;
    if ra is Err && rb is Err && rc is Err {
        crate::reject::lemma_combine_associative(ra->Err_0, rb->Err_0, rc->Err_0);
    }
}

/// Alternative composition: the `or` of two filters succeeds with the
/// left outcome whenever the left operand succeeds; succeeds with the
/// right outcome, evaluated from the original cursor, when the left
/// rejects and the right succeeds; and rejects with the combination of
/// the two rejections, at the original cursor, when both reject.
pub proof fn lemma_or_falls_back(a: Filter, b: Filter, rq: RequestModel, pos: int)
    ensures
        ({
            let (ra, pa) = spec_eval(a, rq, pos);
            let (rb, pb) = spec_eval(b, rq, pos);
            let or_res = spec_eval(Filter::Or(Box::new(a), Box::new(b)), rq, pos);
            &&& ra is Ok ==> or_res == (ra, pa)
            &&& ra is Err && rb is Ok ==> or_res == (rb, pb)
            &&& ra matches Result::Err(ea) ==> rb matches Result::Err(eb) ==> or_res == (
                Result::<Seq<ValueModel>, Rejection>::Err(spec_combine(ea, eb)),
                pos,
            )
        }),
{
}

} // verus!
