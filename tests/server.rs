use rusty::addr::{plan_listen, ListenAddr};
use rusty::config::{parse_port, resolve_port, BindConfig, StartupError, DEFAULT_PORT};
use rusty::http::{dispatch, respond, Method, Route};
use rusty::json::GreetingResponse;
use rusty::text::str_equals;

const GREETING_BODY: &str = "{\"message\":\"Hello, World!\"}";

fn loopback(port: u16) -> ListenAddr {
    ListenAddr { ip: [127, 0, 0, 1], port }
}

#[test]
fn unset_port_listens_on_3000() {
    assert_eq!(DEFAULT_PORT, 3000);
    assert_eq!(resolve_port(None), Ok(BindConfig { port: 3000 }));
    assert_eq!(plan_listen(None), Ok(loopback(3000)));
    assert_eq!(loopback(3000).to_text(), "127.0.0.1:3000");
}

#[test]
fn port_8080_is_used() {
    assert_eq!(resolve_port(Some("8080")), Ok(BindConfig { port: 8080 }));
    assert_eq!(plan_listen(Some("8080")), Ok(loopback(8080)));
    assert_eq!(respond("GET", "/hello").body, GREETING_BODY);
}

#[test]
fn port_bounds() {
    assert_eq!(parse_port("1"), Some(1));
    assert_eq!(parse_port("65535"), Some(65535));
    assert_eq!(parse_port("0"), None);
    assert_eq!(parse_port("65536"), None);
    assert_eq!(parse_port("99999999999999999999"), None);
}

#[test]
fn port_text_forms() {
    assert_eq!(parse_port(""), None);
    assert_eq!(parse_port("+80"), None);
    assert_eq!(parse_port("-80"), None);
    assert_eq!(parse_port(" 80"), None);
    assert_eq!(parse_port("80 "), None);
    assert_eq!(parse_port("8o"), None);
    assert_eq!(parse_port("08080"), Some(8080));
}

#[test]
fn every_port_text_round_trips() {
    for p in 1..=u16::MAX {
        let s = p.to_string();
        assert_eq!(plan_listen(Some(&s)), Ok(loopback(p)));
    }
}

#[test]
fn bad_port_abc_fails_startup() {
    let r = resolve_port(Some("abc"));
    assert_eq!(r, Err(StartupError::BadPort));
    assert_eq!(plan_listen(Some("abc")), Err(StartupError::BadPort));
    assert_ne!(StartupError::BadPort.exit_code(), 0);
    assert_eq!(
        StartupError::BadPort.describe(),
        "PORT must be a decimal integer in [1, 65535]"
    );
}

#[test]
fn bind_failure_exits_non_zero() {
    assert_ne!(StartupError::BindFailed.exit_code(), 0);
    assert_eq!(StartupError::BindFailed.describe(), "could not bind the listening address");
}

#[test]
fn get_hello_returns_greeting() {
    let r = respond("GET", "/hello");
    assert_eq!(r.status, 200);
    let ct = r.content_type.clone().unwrap();
    assert!(ct.starts_with("application/json"));
    assert_eq!(ct, "application/json");
    assert_eq!(r.body, GREETING_BODY);
}


#[test]
fn missing_path_is_404() {
    let r = respond("GET", "/missing");
    assert_eq!(r.status, 404);
    assert_eq!(r.content_type, None);
    assert_eq!(r.body, "");
    assert_eq!(respond("GET", "/").status, 404);
    assert_eq!(respond("GET", "/hello/").status, 404);
    assert_eq!(respond("GET", "/Hello").status, 404);
    assert_eq!(respond("GET", "").status, 404);
    assert_eq!(respond("POST", "/missing").status, 404);
}

#[test]
fn post_hello_is_405() {
    let r = respond("POST", "/hello");
    assert_eq!(r.status, 405);
    assert_eq!(r.body, "");
}

#[test]
fn other_methods_on_hello_are_4xx() {
    for m in ["HEAD", "PUT", "DELETE", "PATCH", "OPTIONS", "TRACE", "CONNECT", "get", "BREW"] {
        let s = respond(m, "/hello").status;
        assert!((400..500).contains(&s));
        assert_eq!(s, 405);
    }
}

#[test]
fn method_tokens() {
    assert_eq!(Method::from_token("GET"), Method::Get);
    assert_eq!(Method::from_token("HEAD"), Method::Head);
    assert_eq!(Method::from_token("POST"), Method::Post);
    assert_eq!(Method::from_token("PUT"), Method::Put);
    assert_eq!(Method::from_token("DELETE"), Method::Delete);
    assert_eq!(Method::from_token("CONNECT"), Method::Connect);
    assert_eq!(Method::from_token("OPTIONS"), Method::Options);
    assert_eq!(Method::from_token("TRACE"), Method::Trace);
    assert_eq!(Method::from_token("PATCH"), Method::Patch);
    assert_eq!(Method::from_token("get"), Method::Other);
    assert_eq!(Method::from_token(""), Method::Other);
}

#[test]
fn route_table() {
    assert_eq!(dispatch(Method::Get, "/hello"), Route::Greeting);
    assert_eq!(dispatch(Method::Post, "/hello"), Route::MethodNotAllowed);
    assert_eq!(dispatch(Method::Get, "/missing"), Route::NotFound);
}

#[test]
fn startup_line_shape() {
    for port in [1u16, 80, 3000, 8080, 65535] {
        let line = loopback(port).announcement();
        let rest = line.strip_prefix("listening on 127.0.0.1:").unwrap();
        assert!(!rest.is_empty());
        assert!(rest.chars().all(|c| c.is_ascii_digit()));
        assert_eq!(rest, port.to_string());
    }
    assert_eq!(loopback(8080).announcement(), "listening on 127.0.0.1:8080");
}

#[test]
fn address_text() {
    let a = ListenAddr { ip: [10, 0, 200, 255], port: 0 };
    assert_eq!(a.to_text(), "10.0.200.255:0");
    assert_eq!(loopback(65535).to_text(), "127.0.0.1:65535");
}

#[test]
fn greeting_json_text() {
    assert_eq!(GreetingResponse::new().message, "Hello, World!");
    assert_eq!(GreetingResponse::new().to_json(), GREETING_BODY);
}

#[test]
fn json_escapes() {
    let g = GreetingResponse { message: String::from("a\"b\\c\nd\re\tf\u{8}g\u{c}h\u{1}i\u{1f}j\u{7f}é") };
    assert_eq!(
        g.to_json(),
        "{\"message\":\"a\\\"b\\\\c\\nd\\re\\tf\\bg\\fh\\u0001i\\u001fj\u{7f}é\"}"
    );
    let empty = GreetingResponse { message: String::new() };
    assert_eq!(empty.to_json(), "{\"message\":\"\"}");
}

#[test]
fn string_equality() {
    assert!(str_equals("/hello", "/hello"));
    assert!(!str_equals("/hello", "/hellO"));
    assert!(!str_equals("/hello", "/hell"));
    assert!(str_equals("", ""));
    assert!(str_equals("é", "é"));
}
