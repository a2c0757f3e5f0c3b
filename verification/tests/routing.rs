use route_filters::boxed::BoxedFilter;
use route_filters::extract::{Kind, Value};
use route_filters::filter::{
    end, eval, get, header, method_is, param_text, param_u32, path, Filter, Transform,
};
use route_filters::reject::Rejection;
use route_filters::request::{Method, Request};

fn request(method: Method, segments: &[&str]) -> Request {
    Request {
        method,
        path: segments.iter().map(|s| s.to_string()).collect(),
        headers: Vec::new(),
    }
}

fn get_request(segments: &[&str]) -> Request {
    request(Method::Get, segments)
}

fn require_send_sync<T: Send + Sync>() {}

#[test]
fn boxed_filters_can_cross_threads() {
    require_send_sync::<BoxedFilter>();
    require_send_sync::<Filter>();
}

#[test]
fn and_flattens_left_then_right() {
    let f = param_u32().and(param_text());
    let r = f.evaluate(&get_request(&["12", "abc"]));
    assert_eq!(r, Ok(vec![Value::U32(12), Value::Text("abc".to_string())]));
}

#[test]
fn and_is_transparent_to_empty_tuples() {
    let f = path("a").and(param_u32()).and(path("b"));
    let r = f.evaluate(&get_request(&["a", "7", "b"]));
    assert_eq!(r, Ok(vec![Value::U32(7)]));
}

#[test]
fn and_flattening_is_associative() {
    let left = path("a").and(param_u32()).and(param_text());
    let right = path("a").and(param_u32().and(param_text()));
    let req = get_request(&["a", "1", "x"]);
    assert_eq!(left.evaluate(&req), right.evaluate(&req));
    assert_eq!(
        left.evaluate(&req),
        Ok(vec![Value::U32(1), Value::Text("x".to_string())])
    );
}

#[test]
fn and_short_circuits_on_left_rejection() {
    let req = get_request(&["y"]);
    let with_param = path("x").and(param_u32());
    let with_end = path("x").and(end());
    assert_eq!(with_param.evaluate(&req), Err(Rejection::NotFound));
    assert_eq!(with_end.evaluate(&req), Err(Rejection::NotFound));
}

#[test]
fn and_reports_right_rejection_after_left_success() {
    let f = path("x").and(param_u32());
    let r = f.evaluate(&get_request(&["x", "oops"]));
    assert_eq!(r, Err(Rejection::InvalidInput));
}

#[test]
fn or_prefers_the_left_branch() {
    let f = path("a")
        .map(Transform::ConstText("left".to_string()))
        .or(path("a").map(Transform::ConstText("right".to_string())));
    let r = f.evaluate(&get_request(&["a"]));
    assert_eq!(r, Ok(vec![Value::Text("left".to_string())]));
}

#[test]
fn or_falls_back_when_left_rejects() {
    let f = path("a").or(path("b"));
    let r = f.evaluate(&get_request(&["b"]));
    assert_eq!(r, Ok(vec![]));
}

#[test]
fn or_restarts_the_right_branch_from_the_original_cursor() {
    let f = path("a").and(path("x")).or(path("a").and(path("y")));
    let r = f.evaluate(&get_request(&["a", "y"]));
    assert_eq!(r, Ok(vec![]));
}

#[test]
fn or_combines_rejections_by_priority() {
    let f = method_is(Method::Post).or(path("zz"));
    let r = f.evaluate(&get_request(&["hi"]));
    assert_eq!(r, Err(Rejection::MethodNotAllowed));
}

#[test]
fn or_rejections_associate_across_grouping() {
    let a = param_u32();
    let b = header("h");
    let c = path("y").and(param_text());
    let grouped_left = a.clone().or(b.clone()).or(c.clone());
    let grouped_right = a.or(b.or(c));
    let req = get_request(&["x"]);
    assert_eq!(grouped_left.evaluate(&req), grouped_right.evaluate(&req));
    assert_eq!(grouped_left.evaluate(&req), Err(Rejection::InvalidInput));
}

#[test]
fn rejection_priorities_are_ordered() {
    assert!(Rejection::NotFound.priority() < Rejection::MethodNotAllowed.priority());
    assert!(Rejection::MethodNotAllowed.priority() < Rejection::MissingInput.priority());
    assert!(Rejection::MissingInput.priority() < Rejection::InvalidInput.priority());
    assert!(
        Rejection::InvalidInput.priority() < Rejection::Custom("x".to_string()).priority()
    );
}

#[test]
fn rejection_combination_keeps_the_more_specific() {
    let a = Rejection::NotFound;
    let b = Rejection::InvalidInput;
    assert_eq!(a.clone().combine(b.clone()), Rejection::InvalidInput);
    assert_eq!(b.combine(a), Rejection::InvalidInput);
}

#[test]
fn rejection_combination_prefers_recent_on_equal_priority() {
    let a = Rejection::Custom("first".to_string());
    let b = Rejection::Custom("second".to_string());
    assert_eq!(a.combine(b), Rejection::Custom("second".to_string()));
}

#[test]
fn rejection_combination_is_associative() {
    let a = Rejection::MethodNotAllowed;
    let b = Rejection::Custom("deep".to_string());
    let c = Rejection::InvalidInput;
    let grouped_left = a.clone().combine(b.clone()).combine(c.clone());
    let grouped_right = a.combine(b.combine(c));
    assert_eq!(grouped_left, grouped_right);
    assert_eq!(grouped_left, Rejection::Custom("deep".to_string()));
}

#[test]
fn boxing_is_transparent() {
    let f = path("math").and(param_u32());
    let boxed = f.clone().boxed();
    let hit = get_request(&["math", "9"]);
    let miss = get_request(&["science"]);
    assert_eq!(boxed.evaluate(&hit), f.evaluate(&hit));
    assert_eq!(boxed.evaluate(&miss), f.evaluate(&miss));
    assert_eq!(boxed.evaluate(&hit), Ok(vec![Value::U32(9)]));
    assert_eq!(boxed.evaluate(&miss), Err(Rejection::NotFound));
}

#[test]
fn cloning_a_boxed_filter_shares_the_composition() {
    let boxed: BoxedFilter = path("a").and(param_text()).boxed();
    let twin = boxed.clone();
    let req = get_request(&["a", "b"]);
    assert_eq!(boxed.evaluate(&req), twin.evaluate(&req));
    assert_eq!(twin.evaluate(&req), Ok(vec![Value::Text("b".to_string())]));
}

#[test]
fn boxed_filter_reports_the_cursor() {
    let boxed = path("a").boxed();
    let (r, cursor) = boxed.filter(&get_request(&["a", "b"]), 0);
    assert_eq!(r, Ok(vec![]));
    assert_eq!(cursor, 1);
}

#[test]
fn path_consumption_is_monotonic_and_sequential() {
    let chain = path("math")
        .and(path("sum"))
        .and(param_u32())
        .and(param_u32());
    assert_eq!(
        chain.evaluate(&get_request(&["math", "sum", "3", "4"])),
        Ok(vec![Value::U32(3), Value::U32(4)])
    );
    assert_eq!(
        chain.evaluate(&get_request(&["math", "sum", "a", "4"])),
        Err(Rejection::InvalidInput)
    );
    assert_eq!(
        chain.evaluate(&get_request(&["other"])),
        Err(Rejection::NotFound)
    );
}

#[test]
fn cursor_advances_segment_by_segment() {
    let f = path("a").and(path("b"));
    let (r, cursor) = eval(&f, &get_request(&["a", "b", "c"]), 0);
    assert_eq!(r, Ok(vec![]));
    assert_eq!(cursor, 2);
}

#[test]
fn end_to_end_routing_table() {
    let hi = path("hi").map(Transform::ConstText("Hello".to_string()));
    let bye = path("bye")
        .and(param_text())
        .map(Transform::Prefix("Bye, ".to_string()));
    let table = get(hi.or(bye)).boxed();

    assert_eq!(
        table.evaluate(&request(Method::Get, &["hi"])),
        Ok(vec![Value::Text("Hello".to_string())])
    );
    assert_eq!(
        table.evaluate(&request(Method::Get, &["bye", "Ann"])),
        Ok(vec![Value::Text("Bye, Ann".to_string())])
    );
    assert_eq!(
        table.evaluate(&request(Method::Get, &["nope"])),
        Err(Rejection::NotFound)
    );
    assert_eq!(
        table.evaluate(&request(Method::Post, &["hi"])),
        Err(Rejection::MethodNotAllowed)
    );
}

#[test]
fn end_matches_only_a_consumed_path() {
    let f = path("a").and(end());
    assert_eq!(f.evaluate(&get_request(&["a"])), Ok(vec![]));
    assert_eq!(
        f.evaluate(&get_request(&["a", "b"])),
        Err(Rejection::NotFound)
    );
}

#[test]
fn params_on_an_exhausted_path_are_not_found() {
    assert_eq!(
        param_u32().evaluate(&get_request(&[])),
        Err(Rejection::NotFound)
    );
    assert_eq!(
        param_text().evaluate(&get_request(&[])),
        Err(Rejection::NotFound)
    );
}

#[test]
fn header_filter_extracts_the_first_match() {
    let req = Request {
        method: Method::Get,
        path: Vec::new(),
        headers: vec![
            ("accept".to_string(), "text/plain".to_string()),
            ("host".to_string(), "first".to_string()),
            ("host".to_string(), "second".to_string()),
        ],
    };
    assert_eq!(
        header("host").evaluate(&req),
        Ok(vec![Value::Text("first".to_string())])
    );
    assert_eq!(
        header("cookie").evaluate(&req),
        Err(Rejection::MissingInput)
    );
}

#[test]
fn shape_describes_the_extraction_tuple() {
    let f = path("a").and(param_u32()).and(param_text());
    assert_eq!(f.shape(), Some(vec![Kind::U32, Kind::Text]));
    let mapped = path("a").map(Transform::ConstText("x".to_string()));
    assert_eq!(mapped.shape(), Some(vec![Kind::Text]));
}

#[test]
fn shape_rejects_mismatched_alternatives() {
    let f = param_u32().or(param_text());
    assert_eq!(f.shape(), None);
    let ok = param_text().or(header("h"));
    assert_eq!(ok.shape(), Some(vec![Kind::Text]));
}

#[test]
fn shape_rejects_a_transform_on_the_wrong_tuple() {
    let f = param_u32().map(Transform::Prefix("n = ".to_string()));
    assert_eq!(f.shape(), None);
    let nested = path("a").and(f);
    assert_eq!(nested.shape(), None);
}

#[test]
fn cloned_filters_evaluate_identically() {
    let f: Filter = path("a").and(param_u32());
    let twin = f.clone();
    let req = get_request(&["a", "5"]);
    assert_eq!(f.evaluate(&req), twin.evaluate(&req));
}
