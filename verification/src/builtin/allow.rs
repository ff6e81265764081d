//! Middleware that routes a request by its HTTP method.

use http::{HeaderValue, Method};
use vstd::prelude::*;

use crate::bindings::http_types::{
    header_value_bytes, header_value_from_string, header_value_ok, method_connect, method_delete,
    method_clone, method_eq, method_get, method_head, method_options, method_patch, method_post, method_put,
    method_text, method_trace,
};
use crate::error::{Error, ErrorView};
use super::method::{join_method_names, join_methods, lemma_join_methods_header_ok, method_names, standard_name};

verus! {

/// Routes requests to the middleware set up for their method. A request
/// whose method has none is answered `405 Method Not Allowed` with an
/// `Allow` header listing the methods, or passed on to the next middleware
/// after `or_next`.
#[derive(Debug)]
pub struct Allow<M> {
    allowed: Vec<(Method, M)>,
    or_next: bool,
}

/// What becomes of a request routed by method.
#[derive(Debug)]
pub enum AllowDecision<'a, M> {
    /// It goes to this middleware.
    Respond(&'a M),
    /// It goes to the next middleware.
    Next,
    /// It is answered with this error and, when there is one, this `Allow`
    /// header value.
    Reject(Error, Option<HeaderValue>),
}

/// The method names of a list of routes.
pub open spec fn route_methods<M>(s: Seq<(Method, M)>) -> Seq<Seq<char>> {
    s.map_values(|p: (Method, M)| method_text(p.0))
}

/// The index of the first route for a method name, if there is one.
pub open spec fn is_first_route(methods: Seq<Seq<char>>, name: Seq<char>, i: int) -> bool {
    &&& 0 <= i < methods.len()
    &&& methods[i] == name
    &&& forall|j: int| 0 <= j < i ==> #[trigger] methods[j] != name
}

/// No route is set up for a method name.
pub open spec fn no_route(methods: Seq<Seq<char>>, name: Seq<char>) -> bool {
    forall|j: int| 0 <= j < methods.len() ==> #[trigger] methods[j] != name
}

/// Every method routed is a standard one.
pub open spec fn all_standard(methods: Seq<Seq<char>>) -> bool {
    forall|i: int| 0 <= i < methods.len() ==> standard_name(#[trigger] methods[i])
}

/// The error of a request whose method has no route.
pub open spec fn not_allowed_view() -> ErrorView {
    ErrorView { as_json: true, status: 405, error: "Method not allowed."@, message: None }
}

/// Routes requests of one method to the middleware.
fn allow_one<M>(method: Method, middleware: M) -> (r: Allow<M>)
    ensures
        r.spec_methods() == seq![method_text(method)],
        r.spec_middlewares() == seq![middleware],
        !r.spec_or_next(),
{
    let ghost text = method_text(method);
    let mut allowed: Vec<(Method, M)> = Vec::new();
    allowed.push((method, middleware));
    let r = Allow { allowed, or_next: false };
    assert(r.spec_methods() =~= seq![text]);
    assert(r.spec_middlewares() =~= seq![middleware]);
    r
}

/// Routes `CONNECT` requests to the middleware.
pub fn connect<M>(middleware: M) -> (r: Allow<M>)
    ensures
        r.spec_methods() == seq!["CONNECT"@],
        r.spec_middlewares() == seq![middleware],
        !r.spec_or_next(),
{
    allow_one(method_connect(), middleware)
}

/// Routes `DELETE` requests to the middleware.
pub fn delete<M>(middleware: M) -> (r: Allow<M>)
    ensures
        r.spec_methods() == seq!["DELETE"@],
        r.spec_middlewares() == seq![middleware],
        !r.spec_or_next(),
{
    allow_one(method_delete(), middleware)
}

/// Routes `GET` requests to the middleware.
pub fn get<M>(middleware: M) -> (r: Allow<M>)
    ensures
        r.spec_methods() == seq!["GET"@],
        r.spec_middlewares() == seq![middleware],
        !r.spec_or_next(),
{
    allow_one(method_get(), middleware)
}

/// Routes `HEAD` requests to the middleware.
pub fn head<M>(middleware: M) -> (r: Allow<M>)
    ensures
        r.spec_methods() == seq!["HEAD"@],
        r.spec_middlewares() == seq![middleware],
        !r.spec_or_next(),
{
    allow_one(method_head(), middleware)
}

/// Routes `OPTIONS` requests to the middleware.
pub fn options<M>(middleware: M) -> (r: Allow<M>)
    ensures
        r.spec_methods() == seq!["OPTIONS"@],
        r.spec_middlewares() == seq![middleware],
        !r.spec_or_next(),
{
    allow_one(method_options(), middleware)
}

/// Routes `PATCH` requests to the middleware.
pub fn patch<M>(middleware: M) -> (r: Allow<M>)
    ensures
        r.spec_methods() == seq!["PATCH"@],
        r.spec_middlewares() == seq![middleware],
        !r.spec_or_next(),
{
    allow_one(method_patch(), middleware)
}

/// Routes `POST` requests to the middleware.
pub fn post<M>(middleware: M) -> (r: Allow<M>)
    ensures
        r.spec_methods() == seq!["POST"@],
        r.spec_middlewares() == seq![middleware],
        !r.spec_or_next(),
{
    allow_one(method_post(), middleware)
}

/// Routes `PUT` requests to the middleware.
pub fn put<M>(middleware: M) -> (r: Allow<M>)
    ensures
        r.spec_methods() == seq!["PUT"@],
        r.spec_middlewares() == seq![middleware],
        !r.spec_or_next(),
{
    allow_one(method_put(), middleware)
}

/// Routes `TRACE` requests to the middleware.
pub fn trace<M>(middleware: M) -> (r: Allow<M>)
    ensures
        r.spec_methods() == seq!["TRACE"@],
        r.spec_middlewares() == seq![middleware],
        !r.spec_or_next(),
{
    allow_one(method_trace(), middleware)
}

impl<M> Allow<M> {
    /// The names of the methods routed, in the order they were added.
    pub closed spec fn spec_methods(&self) -> Seq<Seq<char>> {
        route_methods(self.allowed@)
    }

    /// The middleware of each route, in the same order.
    pub closed spec fn spec_middlewares(&self) -> Seq<M> {
        self.allowed@.map_values(|p: (Method, M)| p.1)
    }

    /// Whether requests without a route go to the next middleware.
    pub closed spec fn spec_or_next(&self) -> bool {
        self.or_next
    }

    /// The routes of both, those of `self` first; requests without a route
    /// go to the next middleware when either says so.
    pub fn and(self, also: Allow<M>) -> (r: Allow<M>)
        ensures
            r.spec_methods() == self.spec_methods() + also.spec_methods(),
            r.spec_middlewares() == self.spec_middlewares() + also.spec_middlewares(),
            r.spec_or_next() == (self.spec_or_next() || also.spec_or_next()),
            all_standard(self.spec_methods()) && all_standard(also.spec_methods()) ==> all_standard(
                r.spec_methods(),
            ),
    {
        let Allow { allowed: mut mine, or_next } = self;
        let Allow { allowed: mut theirs, or_next: also_next } = also;
        let ghost a = mine@;
        let ghost b = theirs@;
        mine.append(&mut theirs);
        let r = Allow { allowed: mine, or_next: or_next || also_next };
        assert(route_methods(a + b) =~= route_methods(a) + route_methods(b));
        assert(all_standard(route_methods(a)) && all_standard(route_methods(b)) ==> all_standard(
            route_methods(a + b),
        )) by {
            if all_standard(route_methods(a)) && all_standard(route_methods(b)) {
                assert forall|k: int| 0 <= k < route_methods(a + b).len() implies standard_name(
                    #[trigger] route_methods(a + b)[k],
                ) by {
                    if k < a.len() {
                        assert(route_methods(a + b)[k] == route_methods(a)[k]);
                    } else {
                        assert(route_methods(a + b)[k] == route_methods(b)[k - a.len()]);
                    }
                }
            }
        }
        assert((a + b).map_values(|p: (Method, M)| p.1) =~= a.map_values(|p: (Method, M)| p.1)
            + b.map_values(|p: (Method, M)| p.1));
        r
    }

    /// Requests without a route go to the next middleware instead of being
    /// answered `405 Method Not Allowed`.
    pub fn or_next(self) -> (r: Allow<M>)
        ensures
            r.spec_methods() == self.spec_methods(),
            r.spec_middlewares() == self.spec_middlewares(),
            r.spec_or_next(),
    {
        Allow { allowed: self.allowed, or_next: true }
    }

    /// The value of the `Allow` header: the names of the methods routed,
    /// separated by `", "`; none when no method is routed, or when the list
    /// may not stand in a header value.
    pub fn allow_header(&self) -> (r: Option<HeaderValue>)
        ensures
            r is Some <==> self.spec_methods().len() > 0 && header_value_ok(
                join_methods(self.spec_methods()),
            ),
            r matches Some(v) ==> header_value_bytes(v) == vstd::utf8::encode_utf8(
                join_methods(self.spec_methods()),
            ),
    {
        if self.allowed.len() == 0 {
            return None;
        }
        let mut methods: Vec<Method> = Vec::new();
        let mut i: usize = 0;
        while i < self.allowed.len()
            invariant
                i <= self.allowed@.len(),
                method_names(methods@) == route_methods(self.allowed@).take(i as int),
            decreases self.allowed@.len() - i,
        {
            let ghost before = methods@;
            let m = method_clone(&self.allowed[i].0);
            methods.push(m);
            assert(method_names(methods@) =~= method_names(before).push(method_text(m)));
            assert(route_methods(self.allowed@).take(i + 1) =~= route_methods(self.allowed@).take(
                i as int,
            ).push(method_text(self.allowed@[i as int].0)));
            i += 1;
        }
        assert(method_names(methods@) =~= route_methods(self.allowed@));
        let list = join_method_names(&methods);
        match header_value_from_string(list) {
            Ok(value) => Some(value),
            Err(_) => None,
        }
    }

    /// The middleware of the first route for the method, if any.
    pub fn respond_to(&self, method: &Method) -> (r: Option<&M>)
        ensures
            r is None <==> no_route(self.spec_methods(), method_text(*method)),
            r matches Some(m) ==> exists|i: int|
                is_first_route(self.spec_methods(), method_text(*method), i) && *m == #[trigger] self.spec_middlewares()[i],
    {
        let ghost methods = self.spec_methods();
        let mut i: usize = 0;
        while i < self.allowed.len()
            invariant
                i <= self.allowed@.len(),
                methods == route_methods(self.allowed@),
                forall|j: int| 0 <= j < i ==> #[trigger] methods[j] != method_text(*method),
            decreases self.allowed@.len() - i,
        {
            let (allow, middleware) = &self.allowed[i];
            assert(methods[i as int] == method_text(*allow));
            if method_eq(method, allow) {
                assert(is_first_route(methods, method_text(*method), i as int));
                assert(self.spec_middlewares()[i as int] == *middleware);
                return Some(middleware);
            }
            i += 1;
        }
        None
    }

    /// What becomes of a request with the given method name: the first
    /// route for it, else the next middleware after `or_next`, else `405
    /// Method Not Allowed` as JSON with the `Allow` header.
    pub fn decide(&self, method: &Method) -> (r: AllowDecision<'_, M>)
        ensures
            !no_route(self.spec_methods(), method_text(*method)) ==> (r matches AllowDecision::Respond(m)
                && exists|i: int|
                is_first_route(self.spec_methods(), method_text(*method), i) && *m == #[trigger] self.spec_middlewares()[i]),
            no_route(self.spec_methods(), method_text(*method)) && self.spec_or_next() ==> r is Next,
            no_route(self.spec_methods(), method_text(*method)) && !self.spec_or_next() ==> (r matches AllowDecision::Reject(e, h)
                && e.view() == not_allowed_view() && (h is Some <==> self.spec_methods().len() > 0
                && header_value_ok(join_methods(self.spec_methods())))
                && (h matches Some(v) ==> header_value_bytes(v) == vstd::utf8::encode_utf8(
                join_methods(self.spec_methods()),
            ))),
    {
        match self.respond_to(method) {
            Some(middleware) => AllowDecision::Respond(middleware),
            None => {
                if self.or_next {
                    AllowDecision::Next
                } else {
                    let error = Error::method_not_allowed("Method not allowed.".to_string()).as_json();
                    AllowDecision::Reject(error, self.allow_header())
                }
            },
        }
    }
}

/// A router built from the method constructors always answers a request
/// without a route with an `Allow` header: the list of its standard method
/// names may stand in a header value.
pub proof fn lemma_allow_header_is_valid(methods: Seq<Seq<char>>)
    requires
        all_standard(methods),
    ensures
        crate::bindings::http_types::header_value_ok(join_methods(methods)),
{
    lemma_join_methods_header_ok(methods);
}

} // verus!
