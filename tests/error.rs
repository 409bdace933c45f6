use http::header::ALLOW;
use http::{Method, StatusCode};
use hyperdrive::{BuildInError, BuildInErrorKind, FromRequestError, SourceError};

fn cause(text: &str) -> SourceError {
    SourceError::new(text.to_string())
}

#[test]
fn kind_statuses() {
    assert_eq!(BuildInErrorKind::QueryParam.http_status(), StatusCode::BAD_REQUEST);
    assert_eq!(BuildInErrorKind::Body.http_status(), StatusCode::BAD_REQUEST);
    assert_eq!(BuildInErrorKind::PathSegment.http_status(), StatusCode::NOT_FOUND);
    assert_eq!(BuildInErrorKind::NoMatchingRoute.http_status(), StatusCode::NOT_FOUND);
    assert_eq!(BuildInErrorKind::WrongMethod.http_status(), StatusCode::METHOD_NOT_ALLOWED);
    assert_eq!(BuildInErrorKind::QueryParam.status_code(), 400);
    assert_eq!(BuildInErrorKind::PathSegment.status_code(), 404);
    assert_eq!(BuildInErrorKind::WrongMethod.status_code(), 405);
}

#[test]
fn error_status_follows_kind() {
    let e = BuildInError::from_kind(BuildInErrorKind::PathSegment);
    assert_eq!(e.http_status().as_u16(), 404);
    assert_eq!(e.kind(), BuildInErrorKind::PathSegment);
    assert!(e.source().is_none());
}

#[test]
fn wrong_method_response_has_allow_header() {
    let e = BuildInError::wrong_method(vec![Method::GET, Method::POST]);
    let r = e.response();
    assert_eq!(r.status(), StatusCode::METHOD_NOT_ALLOWED);
    assert_eq!(r.headers().get(ALLOW).unwrap(), "GET, POST");
    assert_eq!(r.headers().get_all(ALLOW).iter().count(), 1);
}

#[test]
fn allow_header_keeps_order_and_duplicates() {
    let e = BuildInError::wrong_method(vec![Method::POST, Method::GET, Method::POST]);
    assert_eq!(e.allow_header().unwrap(), "POST, GET, POST");
}

#[test]
fn allow_header_upper_cases_extension_methods() {
    let purge = Method::from_bytes(b"purge").unwrap();
    let e = BuildInError::wrong_method(vec![purge, Method::DELETE]);
    assert_eq!(e.allow_header().unwrap(), "PURGE, DELETE");
    assert_eq!(e.response().headers().get(ALLOW).unwrap(), "PURGE, DELETE");
}

#[test]
fn wrong_method_with_no_methods_has_empty_allow_header() {
    let e = BuildInError::wrong_method(Vec::new());
    assert_eq!(e.allow_header().unwrap(), "");
    assert_eq!(e.response().headers().get(ALLOW).unwrap(), "");
}

#[test]
fn allowed_methods_only_for_wrong_method() {
    let e = BuildInError::wrong_method(vec![Method::GET, Method::POST]);
    assert_eq!(e.allowed_methods().unwrap(), &[Method::GET, Method::POST][..]);
    let other = BuildInError::from_kind(BuildInErrorKind::Body);
    assert!(other.allowed_methods().is_none());
    assert!(other.allow_header().is_none());
}

#[test]
fn no_matching_route_response_is_404_without_allow() {
    let e: FromRequestError<u8> = FromRequestError::no_matching_route();
    let r = e.as_build_in().unwrap().response();
    assert_eq!(r.status(), StatusCode::NOT_FOUND);
    assert!(r.headers().get(ALLOW).is_none());
    assert!(r.headers().is_empty());
}

#[test]
fn malformed_body_keeps_cause() {
    let e = BuildInError::malformed_body(cause("unexpected end of input"));
    assert_eq!(e.kind(), BuildInErrorKind::Body);
    assert_eq!(e.source(), Some(&cause("unexpected end of input")));
    let g: FromRequestError<u8> = FromRequestError::malformed_body(cause("bad json"));
    let b = g.into_build_in().unwrap();
    assert_eq!(b.kind(), BuildInErrorKind::Body);
    assert_eq!(b.source().unwrap().message(), "bad json");
}

#[test]
fn with_source_keeps_kind_and_cause() {
    let e = BuildInError::with_source(BuildInErrorKind::QueryParam, cause("missing `page`"));
    assert_eq!(e.kind(), BuildInErrorKind::QueryParam);
    assert_eq!(e.source().unwrap().message(), "missing `page`");
    assert_eq!(e.http_status(), StatusCode::BAD_REQUEST);
}

#[test]
fn display_text_without_cause() {
    let e = BuildInError::from_kind(BuildInErrorKind::NoMatchingRoute);
    assert_eq!(e.to_string(), "requested route does not exist");
    let w = BuildInError::wrong_method(vec![Method::GET]);
    assert_eq!(w.to_string(), "method not supported on this endpoint");
    assert_eq!(BuildInErrorKind::PathSegment.display_text(), "failed to parse data in path segment");
}

#[test]
fn display_text_with_cause() {
    let e = BuildInError::malformed_body(cause("expected value at line 1"));
    assert_eq!(e.to_string(), "failed to parse request body: expected value at line 1");
    let q = BuildInError::with_source(BuildInErrorKind::QueryParam, cause("x"));
    assert_eq!(q.to_string(), "failed to parse query parameters: x");
}

#[test]
fn custom_accessors() {
    let e: FromRequestError<u32> = FromRequestError::Custom(7);
    assert_eq!(e.as_custom(), Some(&7));
    assert!(e.as_build_in().is_none());
    assert_eq!(e.into_custom().unwrap(), 7);
}

#[test]
fn build_in_accessors() {
    let e: FromRequestError<u32> = FromRequestError::no_matching_route();
    assert!(e.as_custom().is_none());
    assert_eq!(e.as_build_in().unwrap().kind(), BuildInErrorKind::NoMatchingRoute);
    match e.into_custom() {
        Err(FromRequestError::BuildIn(b)) => assert_eq!(b.kind(), BuildInErrorKind::NoMatchingRoute),
        _ => panic!("expected the built-in error back"),
    }
}

#[test]
fn into_build_in_round_trips() {
    let e: FromRequestError<u32> = FromRequestError::wrong_method(vec![Method::PUT]);
    let b = e.into_build_in().unwrap();
    assert_eq!(b.kind(), BuildInErrorKind::WrongMethod);
    assert_eq!(b.allowed_methods().unwrap(), &[Method::PUT][..]);
    let c: FromRequestError<u32> = FromRequestError::Custom(9);
    match c.into_build_in() {
        Err(FromRequestError::Custom(v)) => assert_eq!(v, 9),
        _ => panic!("expected the custom error back"),
    }
}

#[derive(Debug, PartialEq)]
struct Narrow(u8);

#[derive(Debug, PartialEq)]
struct Wide(u16);

impl From<Narrow> for Wide {
    fn from(n: Narrow) -> Wide {
        Wide(n.0 as u16 * 10)
    }
}

#[test]
fn convert_custom_error_maps_custom() {
    let e: FromRequestError<Narrow> = FromRequestError::Custom(Narrow(4));
    let c: FromRequestError<Wide> = e.convert_custom_error();
    assert_eq!(c.as_custom(), Some(&Wide(40)));
}

#[test]
fn convert_custom_error_keeps_build_in() {
    let e: FromRequestError<Narrow> = FromRequestError::malformed_body(cause("eof"));
    let c: FromRequestError<Wide> = e.convert_custom_error();
    let b = c.into_build_in().unwrap();
    assert_eq!(b.kind(), BuildInErrorKind::Body);
    assert_eq!(b.source(), Some(&cause("eof")));
    assert!(b.allowed_methods().is_none());
    let w: FromRequestError<Narrow> = FromRequestError::wrong_method(vec![Method::GET, Method::HEAD]);
    let wb = w.convert_custom_error::<Wide>().into_build_in().unwrap();
    assert_eq!(wb.allowed_methods().unwrap(), &[Method::GET, Method::HEAD][..]);
}

#[test]
fn into_future_is_ready_with_the_error() {
    let e: FromRequestError<u8> = FromRequestError::Custom(3);
    let out: Result<(), FromRequestError<u8>> = futures::executor::block_on(e.into_future());
    match out {
        Err(FromRequestError::Custom(v)) => assert_eq!(v, 3),
        _ => panic!("expected the error"),
    }
}

#[test]
fn source_error_chain() {
    let inner = cause("connection reset");
    let outer = SourceError::caused_by("read failed".to_string(), inner);
    assert_eq!(outer.message(), "read failed");
    assert_eq!(outer.source().unwrap().message(), "connection reset");
    assert!(outer.source().unwrap().source().is_none());
}
