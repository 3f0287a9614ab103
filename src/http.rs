use vstd::prelude::*;

use crate::json::{greeting_json, GreetingResponse, GREETING};
use crate::text::str_equals;

verus! {

/// The one path the server answers.
pub const HELLO_PATH: &'static str = "/hello";

pub const JSON_CONTENT_TYPE: &'static str = "application/json";

/// An HTTP request method.
#[derive(Clone, Copy, Debug, PartialEq, Eq, Structural)]
pub enum Method {
    Get,
    Head,
    Post,
    Put,
    Delete,
    Connect,
    Options,
    Trace,
    Patch,
    /// An extension method, or a token that names none of the above.
    Other,
}

/// The method a request-line token names; method tokens are case-sensitive.
pub open spec fn method_of(t: Seq<char>) -> Method {
    if t == "GET"@ {
        Method::Get
    } else if t == "HEAD"@ {
        Method::Head
    } else if t == "POST"@ {
        Method::Post
    } else if t == "PUT"@ {
        Method::Put
    } else if t == "DELETE"@ {
        Method::Delete
    } else if t == "CONNECT"@ {
        Method::Connect
    } else if t == "OPTIONS"@ {
        Method::Options
    } else if t == "TRACE"@ {
        Method::Trace
    } else if t == "PATCH"@ {
        Method::Patch
    } else {
        Method::Other
    }
}

impl Method {
    pub fn from_token(t: &str) -> (r: Method)
        ensures
            r == method_of(t@),
    {
        if str_equals(t, "GET") {
            Method::Get
        } else if str_equals(t, "HEAD") {
            Method::Head
        } else if str_equals(t, "POST") {
            Method::Post
        } else if str_equals(t, "PUT") {
            Method::Put
        } else if str_equals(t, "DELETE") {
            Method::Delete
        } else if str_equals(t, "CONNECT") {
            Method::Connect
        } else if str_equals(t, "OPTIONS") {
            Method::Options
        } else if str_equals(t, "TRACE") {
            Method::Trace
        } else if str_equals(t, "PATCH") {
            Method::Patch
        } else {
            Method::Other
        }
    }
}

/// What the route table makes of a request.
#[derive(Clone, Copy, Debug, PartialEq, Eq, Structural)]
pub enum Route {
    /// `GET /hello`: the greeting handler.
    Greeting,
    /// `/hello` with a method other than GET.
    MethodNotAllowed,
    /// Any other path.
    NotFound,
}

pub open spec fn route_of(m: Method, path: Seq<char>) -> Route {
    if path != HELLO_PATH@ {
        Route::NotFound
    } else if m == Method::Get {
        Route::Greeting
    } else {
        Route::MethodNotAllowed
    }
}

pub open spec fn status_of(r: Route) -> u16 {
    match r {
        Route::Greeting => 200,
        Route::MethodNotAllowed => 405,
        Route::NotFound => 404,
    }
}

/// Maps a request's method and path to its route.
pub fn dispatch(m: Method, path: &str) -> (r: Route)
    ensures
        r == route_of(m, path@),
{
    if !str_equals(path, HELLO_PATH) {
        Route::NotFound
    } else if m == Method::Get {
        Route::Greeting
    } else {
        Route::MethodNotAllowed
    }
}

/// A response as the server sends it: status, content type if any, and body.
#[derive(Debug, PartialEq, Eq)]
pub struct HttpResponse {
    pub status: u16,
    pub content_type: Option<String>,
    pub body: String,
}

/// The response's parts that a request with this route receives: the JSON
/// greeting with its content type, or an error status with an empty body.
pub open spec fn response_matches(r: HttpResponse, route: Route) -> bool {
    &&& r.status == status_of(route)
    &&& match route {
        Route::Greeting => {
            &&& r.content_type matches Some(ct) && ct@ == JSON_CONTENT_TYPE@
            &&& r.body@ == greeting_json(GREETING@)
        },
        _ => r.content_type is None && r.body@.len() == 0,
    }
}

/// Status 200, `application/json`, and the record's JSON text.
pub fn encode(greeting: &GreetingResponse) -> (r: HttpResponse)
    ensures
        r.status == 200,
        r.content_type matches Some(ct) && ct@ == JSON_CONTENT_TYPE@,
        r.body@ == greeting_json(greeting.message@),
{
    HttpResponse {
        status: 200,
        content_type: Some(String::from_str(JSON_CONTENT_TYPE)),
        body: greeting.to_json(),
    }
}

/// The response to a request whose method token and path are given.
pub fn respond(method: &str, path: &str) -> (r: HttpResponse)
    ensures
        response_matches(r, route_of(method_of(method@), path@)),
{
    let route = dispatch(Method::from_token(method), path);
    match route {
        Route::Greeting => encode(&GreetingResponse::new()),
        Route::MethodNotAllowed => HttpResponse {
            status: 405,
            content_type: None,
            body: String::new(),
        },
        Route::NotFound => HttpResponse { status: 404, content_type: None, body: String::new() },
    }
}

/// `GET /hello` is answered with status 200 and the JSON greeting.
pub proof fn lemma_hello_is_greeted()
    ensures
        route_of(method_of("GET"@), HELLO_PATH@) == Route::Greeting,
        status_of(Route::Greeting) == 200,
        greeting_json(GREETING@) == "{\"message\":\"Hello, World!\"}"@,
{
    crate::json::lemma_greeting_json();
}

/// Every request but GET on `/hello` gets a 4xx status: 404 off that path,
/// 405 on it.
pub proof fn lemma_other_requests_fail(m: Method, path: Seq<char>)
    requires
        !(m == Method::Get && path == HELLO_PATH@),
    ensures
        400 <= status_of(route_of(m, path)) < 500,
        path != HELLO_PATH@ ==> status_of(route_of(m, path)) == 404,
        path == HELLO_PATH@ ==> status_of(route_of(m, path)) == 405,
{
}

} // verus!
