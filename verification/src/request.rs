//! The request context: a read-only view of an incoming request's method,
//! path segments and headers, consumed by one filter-tree evaluation.

use vstd::prelude::*;

verus! {

/// The request method.
#[derive(Clone, Copy, Debug, PartialEq, Eq, Structural)]
pub enum Method {
    Get,
    Post,
    Put,
    Delete,
}

/// A read-only request context. The path is pre-split into segments; a
/// cursor into it is carried separately by the evaluation, so a context is
/// never mutated and can back any number of concurrent evaluations.
#[derive(Clone, Debug)]
pub struct Request {
    pub method: Method,
    pub path: Vec<String>,
    pub headers: Vec<(String, String)>,
}

/// The mathematical model of a [`Request`]: segments and header names and
/// values are seen as character sequences.
pub struct RequestModel {
    pub method: Method,
    pub path: Seq<Seq<char>>,
    pub headers: Seq<(Seq<char>, Seq<char>)>,
}

impl View for Request {
    type V = RequestModel;

    open spec fn view(&self) -> RequestModel {
        RequestModel {
            method: self.method,
            path: self.path.deep_view(),
            headers: self.headers.deep_view(),
        }
    }
}

/// The value of the first header whose name equals `name`, if any.
pub open spec fn spec_header_value(headers: Seq<(Seq<char>, Seq<char>)>, name: Seq<char>) -> Option<
    Seq<char>,
>
    decreases headers.len(),
{
    if headers.len() == 0 {
        Option::None
    } else if headers[0].0 == name {
        Option::Some(headers[0].1)
    } else {
        spec_header_value(headers.skip(1), name)
    }
}

/// Looking up a header scans the headers in order: if some header at or
/// after position `i` matches, the lookup over the suffix finds the first
/// such one.
proof fn lemma_header_value_step(headers: Seq<(Seq<char>, Seq<char>)>, name: Seq<char>, i: int)
    requires
        0 <= i < headers.len(),
        headers[i].0 != name,
    ensures
        spec_header_value(headers.skip(i), name) == spec_header_value(headers.skip(i + 1), name),
{
    assert(headers.skip(i)[0] == headers[i]);
    assert(headers.skip(i).skip(1) =~= headers.skip(i + 1));
}

impl Request {
    /// The value of the first header named `name`, or `None` when no
    /// header has that name.
    pub fn header_value(&self, name: &str) -> (r: Option<String>)
        ensures
            match r {
                Option::Some(v) => spec_header_value(self@.headers, name@) == Option::Some(v@),
                Option::None => spec_header_value(self@.headers, name@) is None,
            },
    {
        let ghost hs = self@.headers;
        let wanted: String = String::from_str(name);
        let mut i: usize = 0;
        proof {
            assert(hs.skip(0) =~= hs);
        }
        while i < self.headers.len()
            invariant
                0 <= i <= self.headers.len(),
                hs == self@.headers,
                hs.len() == self.headers.len(),
                wanted@ == name@,
                spec_header_value(hs, name@) == spec_header_value(hs.skip(i as int), name@),
            decreases self.headers.len() - i,
        {
            let hdr = &self.headers[i];
            proof {
                assert(hs[i as int].0 == hdr.0@ && hs[i as int].1 == hdr.1@);
                assert(hs.skip(i as int)[0] == hs[i as int]);
            }
            let hname: &String = &hdr.0;
            if hname.eq(&wanted) {
                return Option::Some(hdr.1.clone());
            }
            proof {
                lemma_header_value_step(hs, name@, i as int);
            }
            i = i + 1;
        }
        assert(hs.skip(i as int) =~= Seq::<(Seq<char>, Seq<char>)>::empty());
        Option::None
    }
}

} // verus!
