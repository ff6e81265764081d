use via::builtin::allow::AllowDecision;
use via::builtin::filter::{filter, Predicate, Route};
use http::Method;
use via::builtin::method::join_method_names;
use via::builtin::rescue::inspect;
use via::builtin::resource::{self, ResourceDecision};
use via::builtin::timeout::timeout;

#[test]
fn allow_routes_by_method() {
    let routes = via::builtin::allow::get("index").and(via::builtin::allow::post("create"));
    assert!(matches!(routes.decide(&Method::GET), AllowDecision::Respond(&"index")));
    assert!(matches!(routes.decide(&Method::POST), AllowDecision::Respond(&"create")));
    assert_eq!(routes.respond_to(&Method::PUT), None);
    assert_eq!(routes.allow_header().unwrap().to_str().unwrap(), "GET, POST");
}

#[test]
fn allow_rejects_other_methods_with_the_allow_header() {
    let routes = via::builtin::allow::get(1).and(via::builtin::allow::patch(2)).and(via::builtin::allow::delete(3));
    match routes.decide(&Method::PUT) {
        AllowDecision::Reject(error, header) => {
            assert_eq!(error.status().as_u16(), 405);
            assert_eq!(error.to_json(), "{\"errors\":[{\"message\":\"Method not allowed.\"}]}");
            assert_eq!(header.unwrap().to_str().unwrap(), "GET, PATCH, DELETE");
        }
        _ => panic!("expected a rejection"),
    }
    let routes = routes.or_next();
    assert!(matches!(routes.decide(&Method::PUT), AllowDecision::Next));
}

#[test]
fn allow_first_route_wins() {
    let routes = via::builtin::allow::get(1).and(via::builtin::allow::get(2));
    assert!(matches!(routes.decide(&Method::GET), AllowDecision::Respond(&1)));
    let routes = via::builtin::allow::connect(0)
        .and(via::builtin::allow::head(1))
        .and(via::builtin::allow::options(2))
        .and(via::builtin::allow::put(3))
        .and(via::builtin::allow::trace(4));
    assert_eq!(
        routes.allow_header().unwrap().to_str().unwrap(),
        "CONNECT, HEAD, OPTIONS, PUT, TRACE"
    );
}

#[test]
fn resource_keeps_its_allow_list() {
    let users: resource::Resource<&str, ()> =
        resource::get("index").and(resource::post("create")).and(resource::delete("destroy"));
    assert_eq!(users.allowed(), "GET, POST, DELETE");
    assert!(matches!(users.decide(&Method::POST), ResourceDecision::Respond(&"create")));
    match users.decide(&Method::PATCH) {
        ResourceDecision::Reject(error, header) => {
            assert_eq!(error.status().as_u16(), 405);
            assert_eq!(
                error.to_json(),
                "{\"errors\":[{\"message\":\"Request method \\\"PATCH\\\" is not supported.\"}]}"
            );
            assert_eq!(header.unwrap().to_str().unwrap(), "GET, POST, DELETE");
        }
        _ => panic!("expected a rejection"),
    }
}

#[test]
fn resource_fallbacks() {
    let next: resource::Resource<u8, &str> = resource::put(1).or_next();
    assert!(matches!(next.decide(&Method::GET), ResourceDecision::Next));
    let custom: resource::Resource<u8, &str> = resource::options(1).or_else("fallback");
    assert!(matches!(custom.decide(&Method::GET), ResourceDecision::OrElse(&"fallback")));
    let all: resource::Resource<u8, ()> = resource::connect(0)
        .and(resource::head(1))
        .and(resource::patch(2))
        .and(resource::trace(3));
    assert_eq!(all.allowed(), "CONNECT, HEAD, PATCH, TRACE");
}

#[test]
fn method_names() {
    assert_eq!(join_method_names(&vec![Method::OPTIONS]), "OPTIONS");
    assert_eq!(join_method_names(&vec![Method::GET, Method::POST]), "GET, POST");
    assert_eq!(join_method_names(&vec![]), "");
}

struct PathStartsWith(&'static str);

impl Predicate<String> for PathStartsWith {
    fn spec_matches(&self, request: String) -> bool {
        request.starts_with(self.0)
    }

    fn matches(&self, request: &String) -> bool {
        request.starts_with(self.0)
    }
}

#[test]
fn filter_routes_by_predicate() {
    let api = filter(PathStartsWith("/api"), "api middleware");
    assert_eq!(api.route(&"/api/users".to_string()), Route::Middleware);
    assert_eq!(api.route(&"/index.html".to_string()), Route::Next);
    assert_eq!(*api.middleware(), "api middleware");
}

#[test]
fn timeout_fails_with_gateway_timeout() {
    let middleware = timeout(std::time::Duration::from_secs(3));
    assert_eq!(middleware.duration(), std::time::Duration::from_secs(3));
    let error = middleware.elapsed();
    assert_eq!(error.status().as_u16(), 504);
    assert_eq!(error.to_string(), "Gateway timeout.");
}

#[test]
fn rescue_middleware_keep_their_closures() {
    let inspector = inspect(|code: u16| code + 1);
    assert_eq!((inspector.inspector())(1), 2);
    let mapper = via::builtin::rescue::map(|code: u16| code * 2);
    assert_eq!((mapper.mapper())(4), 8);
}

#[test]
fn extension_methods_have_no_route() {
    let purge = Method::from_bytes(b"PURGE").unwrap();
    let routes = via::builtin::allow::get(1);
    assert_eq!(routes.respond_to(&purge), None);
    let resource: resource::Resource<u8, ()> = resource::get(1);
    match resource.decide(&purge) {
        ResourceDecision::Reject(error, _) => assert_eq!(
            error.to_json(),
            "{\"errors\":[{\"message\":\"Request method \\\"PURGE\\\" is not supported.\"}]}"
        ),
        _ => panic!("expected a rejection"),
    }
}
