//! A resource: the middleware of each HTTP method of one route.

use http::{HeaderValue, Method};
use vstd::prelude::*;
use vstd::string::StringExecFns;

use crate::bindings::http_types::{
    header_value_bytes, header_value_from_str, method_as_str, method_connect, method_delete,
    method_eq, method_get, method_head, method_options, method_patch, method_post, method_put,
    method_text, method_trace,
};
use crate::error::{Error, ErrorView};
use crate::util::concat3;
use super::allow::{is_first_route, no_route, route_methods};
use super::method::{join_methods, lemma_join_methods_header_ok, lemma_join_methods_push, push_method, standard_name};

verus! {

/// What a resource does with a request whose method it has no middleware
/// for.
#[derive(Debug)]
pub enum Fallback<O> {
    /// Answers `405 Method Not Allowed`.
    Reject,
    /// Passes the request on to the next middleware.
    Next,
    /// Hands the request to this responder.
    Custom(O),
}

/// The middleware of each method of a route, and the list of those methods
/// kept ready for the `Allow` header.
#[derive(Debug)]
pub struct Resource<M, O> {
    allowed: String,
    methods: Vec<(Method, M)>,
    or_else: Fallback<O>,
}

/// What becomes of a request routed by a resource.
#[derive(Debug)]
pub enum ResourceDecision<'a, M, O> {
    /// It goes to this middleware.
    Respond(&'a M),
    /// It goes to the next middleware.
    Next,
    /// It goes to this responder.
    OrElse(&'a O),
    /// It is answered with this error and, when there is one, this `Allow`
    /// header value.
    Reject(Error, Option<HeaderValue>),
}

/// The error of a request whose method a resource has no middleware for.
pub open spec fn unsupported_method_view(method: Seq<char>) -> ErrorView {
    ErrorView {
        as_json: true,
        status: 405,
        error: "Request method \""@ + method + "\" is not supported."@,
        message: None,
    }
}

/// A resource with middleware for one method.
pub fn resource_of<M, O>(method: Method, middleware: M) -> (r: Resource<M, O>)
    requires
        standard_name(method_text(method)),
    ensures
        r.wf(),
        r.spec_methods() == seq![method_text(method)],
        r.spec_middlewares() == seq![middleware],
        r.spec_or_else() is Reject,
{
    let ghost text = method_text(method);
    let allowed = String::from_str(method_as_str(&method));
    let mut methods: Vec<(Method, M)> = Vec::new();
    methods.push((method, middleware));
    let r = Resource { allowed, methods, or_else: Fallback::Reject };
    assert(r.spec_methods() =~= seq![text]);
    assert(r.spec_middlewares() =~= seq![middleware]);
    r
}

/// A resource for `CONNECT` requests.
pub fn connect<M, O>(middleware: M) -> (r: Resource<M, O>)
    ensures
        r.wf(),
        r.spec_methods() == seq!["CONNECT"@],
        r.spec_middlewares() == seq![middleware],
        r.spec_or_else() is Reject,
{
    proof {
        reveal_strlit("CONNECT");
    }
    resource_of(method_connect(), middleware)
}

/// A resource for `DELETE` requests.
pub fn delete<M, O>(middleware: M) -> (r: Resource<M, O>)
    ensures
        r.wf(),
        r.spec_methods() == seq!["DELETE"@],
        r.spec_middlewares() == seq![middleware],
        r.spec_or_else() is Reject,
{
    proof {
        reveal_strlit("DELETE");
    }
    resource_of(method_delete(), middleware)
}

/// A resource for `GET` requests.
pub fn get<M, O>(middleware: M) -> (r: Resource<M, O>)
    ensures
        r.wf(),
        r.spec_methods() == seq!["GET"@],
        r.spec_middlewares() == seq![middleware],
        r.spec_or_else() is Reject,
{
    proof {
        reveal_strlit("GET");
    }
    resource_of(method_get(), middleware)
}

/// A resource for `HEAD` requests.
pub fn head<M, O>(middleware: M) -> (r: Resource<M, O>)
    ensures
        r.wf(),
        r.spec_methods() == seq!["HEAD"@],
        r.spec_middlewares() == seq![middleware],
        r.spec_or_else() is Reject,
{
    proof {
        reveal_strlit("HEAD");
    }
    resource_of(method_head(), middleware)
}

/// A resource for `OPTIONS` requests.
pub fn options<M, O>(middleware: M) -> (r: Resource<M, O>)
    ensures
        r.wf(),
        r.spec_methods() == seq!["OPTIONS"@],
        r.spec_middlewares() == seq![middleware],
        r.spec_or_else() is Reject,
{
    proof {
        reveal_strlit("OPTIONS");
    }
    resource_of(method_options(), middleware)
}

/// A resource for `PATCH` requests.
pub fn patch<M, O>(middleware: M) -> (r: Resource<M, O>)
    ensures
        r.wf(),
        r.spec_methods() == seq!["PATCH"@],
        r.spec_middlewares() == seq![middleware],
        r.spec_or_else() is Reject,
{
    proof {
        reveal_strlit("PATCH");
    }
    resource_of(method_patch(), middleware)
}

/// A resource for `POST` requests.
pub fn post<M, O>(middleware: M) -> (r: Resource<M, O>)
    ensures
        r.wf(),
        r.spec_methods() == seq!["POST"@],
        r.spec_middlewares() == seq![middleware],
        r.spec_or_else() is Reject,
{
    proof {
        reveal_strlit("POST");
    }
    resource_of(method_post(), middleware)
}

/// A resource for `PUT` requests.
pub fn put<M, O>(middleware: M) -> (r: Resource<M, O>)
    ensures
        r.wf(),
        r.spec_methods() == seq!["PUT"@],
        r.spec_middlewares() == seq![middleware],
        r.spec_or_else() is Reject,
{
    proof {
        reveal_strlit("PUT");
    }
    resource_of(method_put(), middleware)
}

/// A resource for `TRACE` requests.
pub fn trace<M, O>(middleware: M) -> (r: Resource<M, O>)
    ensures
        r.wf(),
        r.spec_methods() == seq!["TRACE"@],
        r.spec_middlewares() == seq![middleware],
        r.spec_or_else() is Reject,
{
    proof {
        reveal_strlit("TRACE");
    }
    resource_of(method_trace(), middleware)
}

impl<M, O> Resource<M, O> {
    /// The names of the methods routed, in the order they were added.
    pub closed spec fn spec_methods(&self) -> Seq<Seq<char>> {
        route_methods(self.methods@)
    }

    /// The middleware of each method, in the same order.
    pub closed spec fn spec_middlewares(&self) -> Seq<M> {
        self.methods@.map_values(|p: (Method, M)| p.1)
    }

    /// What happens to requests without a route.
    pub closed spec fn spec_or_else(&self) -> Fallback<O> {
        self.or_else
    }

    /// The text kept for the `Allow` header.
    pub closed spec fn spec_allowed(&self) -> Seq<char> {
        self.allowed@
    }

    /// There is at least one method, each a standard one, and the text
    /// kept for the `Allow` header lists them all.
    pub closed spec fn wf(&self) -> bool {
        &&& self.methods@.len() > 0
        &&& forall|i: int| 0 <= i < self.methods@.len() ==> standard_name(
            #[trigger] route_methods(self.methods@)[i],
        )
        &&& self.allowed@ == join_methods(route_methods(self.methods@))
    }

    /// The methods of both, those of `self` first; the text for the
    /// `Allow` header grows by the names of the other's methods. What
    /// happens to requests without a route stays as `self` has it.
    pub fn and(self, other: Resource<M, O>) -> (r: Resource<M, O>)
        requires
            self.wf(),
            other.wf(),
        ensures
            r.wf(),
            r.spec_methods() == self.spec_methods() + other.spec_methods(),
            r.spec_middlewares() == self.spec_middlewares() + other.spec_middlewares(),
            r.spec_or_else() == self.spec_or_else(),
    {
        let Resource { allowed: mut allowed, methods: mut methods, or_else } = self;
        let Resource { allowed: _, methods: mut theirs, or_else: _ } = other;
        let ghost a = route_methods(methods@);
        let ghost b = route_methods(theirs@);
        let mut i: usize = 0;
        while i < theirs.len()
            invariant
                i <= theirs@.len(),
                a.len() > 0,
                b == route_methods(theirs@),
                allowed@ == join_methods(a + b.take(i as int)),
            decreases theirs@.len() - i,
        {
            let m = &theirs[i].0;
            proof {
                assert(b[i as int] == method_text(*m));
                lemma_join_methods_push(a + b.take(i as int), method_text(*m));
                assert(a + b.take(i + 1) =~= (a + b.take(i as int)).push(method_text(*m)));
            }
            push_method(&mut allowed, m);
            i += 1;
        }
        assert(b.take(i as int) =~= b);
        let ghost x = methods@;
        let ghost y = theirs@;
        methods.append(&mut theirs);
        assert(route_methods(x + y) =~= route_methods(x) + route_methods(y));
        assert forall|k: int| 0 <= k < (x + y).len() implies standard_name(
            #[trigger] route_methods(x + y)[k],
        ) by {
            if k < x.len() {
                assert(route_methods(x + y)[k] == route_methods(x)[k]);
            } else {
                assert(route_methods(x + y)[k] == route_methods(y)[k - x.len()]);
            }
        }
        assert((x + y).map_values(|p: (Method, M)| p.1) =~= x.map_values(|p: (Method, M)| p.1)
            + y.map_values(|p: (Method, M)| p.1));
        Resource { allowed, methods, or_else }
    }

    /// Requests without a route go to the responder.
    pub fn or_else(self, respond: O) -> (r: Resource<M, O>)
        requires
            self.wf(),
        ensures
            r.wf(),
            r.spec_methods() == self.spec_methods(),
            r.spec_middlewares() == self.spec_middlewares(),
            r.spec_or_else() == Fallback::Custom(respond),
    {
        Resource { allowed: self.allowed, methods: self.methods, or_else: Fallback::Custom(respond) }
    }

    /// Requests without a route go to the next middleware.
    pub fn or_next(self) -> (r: Resource<M, O>)
        requires
            self.wf(),
        ensures
            r.wf(),
            r.spec_methods() == self.spec_methods(),
            r.spec_middlewares() == self.spec_middlewares(),
            r.spec_or_else() is Next,
    {
        Resource { allowed: self.allowed, methods: self.methods, or_else: Fallback::Next }
    }

    /// The text kept for the `Allow` header.
    pub fn allowed(&self) -> (r: &str)
        ensures
            r@ == self.spec_allowed(),
    {
        self.allowed.as_str()
    }

    /// What becomes of a request with the given method name: the first
    /// middleware for it; else the next middleware or the responder, as set
    /// up; else `405 Method Not Allowed` as JSON, naming the method, with
    /// the `Allow` header.
    pub fn decide(&self, method: &Method) -> (r: ResourceDecision<'_, M, O>)
        requires
            self.wf(),
        ensures
            !no_route(self.spec_methods(), method_text(*method)) ==> (r matches ResourceDecision::Respond(m)
                && exists|i: int|
                is_first_route(self.spec_methods(), method_text(*method), i) && *m == #[trigger] self.spec_middlewares()[i]),
            no_route(self.spec_methods(), method_text(*method)) ==> match self.spec_or_else() {
                Fallback::Next => r is Next,
                Fallback::Custom(o) => r matches ResourceDecision::OrElse(x) && *x == o,
                Fallback::Reject => r matches ResourceDecision::Reject(e, h) && e.view()
                    == unsupported_method_view(method_text(*method)) && (h matches Some(v)
                    && header_value_bytes(v) == vstd::utf8::encode_utf8(join_methods(self.spec_methods()))),
            },
    {
        let ghost methods = self.spec_methods();
        let mut i: usize = 0;
        while i < self.methods.len()
            invariant
                i <= self.methods@.len(),
                methods == route_methods(self.methods@),
                forall|j: int| 0 <= j < i ==> #[trigger] methods[j] != method_text(*method),
            decreases self.methods@.len() - i,
        {
            let (allow, middleware) = &self.methods[i];
            assert(methods[i as int] == method_text(*allow));
            if method_eq(method, allow) {
                assert(is_first_route(methods, method_text(*method), i as int));
                assert(self.spec_middlewares()[i as int] == *middleware);
                return ResourceDecision::Respond(middleware);
            }
            i += 1;
        }
        match &self.or_else {
            Fallback::Next => ResourceDecision::Next,
            Fallback::Custom(respond) => ResourceDecision::OrElse(respond),
            Fallback::Reject => {
                let text = concat3("Request method \"", method_as_str(method), "\" is not supported.");
                let error = Error::method_not_allowed(text).as_json();
                proof {
                    lemma_join_methods_header_ok(methods);
                }
                let header = match header_value_from_str(self.allowed.as_str()) {
                    Ok(value) => Some(value),
                    Err(_) => None,
                };
                ResourceDecision::Reject(error, header)
            },
        }
    }
}

/// The text that a resource keeps for its `Allow` header always lists its
/// methods, in order, separated by `", "`, and is a valid header value.
pub proof fn lemma_resource_allow_list<M, O>(r: Resource<M, O>)
    requires
        r.wf(),
    ensures
        r.spec_allowed() == join_methods(r.spec_methods()),
        crate::bindings::http_types::header_value_ok(r.spec_allowed()),
{
    lemma_join_methods_header_ok(r.spec_methods());
}

} // verus!
