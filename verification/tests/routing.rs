use http::StatusCode;
use route_dispatch::app;
use route_dispatch::dispatcher::{ConfigError, Dispatcher};
use route_dispatch::request::{eq_ignoring_ascii_case, header_names_match, Request};
use route_dispatch::route::{Guard, Handler, Matcher, Response, RouteEntry, NOT_FOUND, OK, UNAUTHORIZED};

fn bearer(value: &str) -> Request {
    Request::new("/authorized").with_header("Authorization", value)
}

#[test]
fn test_public() {
    let app = app();

    let response = app.dispatch(&Request::new("/public"));

    assert_eq!(response.status, StatusCode::OK.as_u16());
}

#[test]
fn test_unauthorized() {
    let app = app();

    let response = app.dispatch(&Request::new("/authorized"));

    assert_eq!(response.status, StatusCode::UNAUTHORIZED.as_u16());
}

#[test]
fn test_authorized() {
    let app = app();

    let response = app.dispatch(
        &Request::new("/authorized").with_header(http::header::AUTHORIZATION.as_str(), "Bearer token"),
    );

    assert_eq!(response.status, StatusCode::OK.as_u16());
}

#[test]
fn test_not_found() {
    let app = app();

    let response = app.dispatch(&Request::new("/non_existent_route"));

    assert_eq!(response.status, StatusCode::NOT_FOUND.as_u16());
}

#[test]
fn status_constants_are_the_http_ones() {
    assert_eq!(OK, 200);
    assert_eq!(UNAUTHORIZED, 401);
    assert_eq!(NOT_FOUND, 404);
    assert_eq!(OK, StatusCode::OK.as_u16());
    assert_eq!(UNAUTHORIZED, StatusCode::UNAUTHORIZED.as_u16());
    assert_eq!(NOT_FOUND, StatusCode::NOT_FOUND.as_u16());
}

#[test]
fn app_has_three_entries_in_order() {
    let app = app();
    assert_eq!(app.len(), 3);
    let entries = app.entries();
    assert!(matches!(&entries[0].matcher, Matcher::Exact(p) if p == "/public"));
    assert!(entries[0].guard.is_none());
    assert_eq!(entries[0].handler.status, 200);
    assert!(matches!(&entries[1].matcher, Matcher::Exact(p) if p == "/authorized"));
    assert_eq!(entries[1].guard.as_ref().unwrap().expected, "Bearer token");
    assert_eq!(entries[1].handler.status, 200);
    assert!(matches!(&entries[2].matcher, Matcher::Any));
    assert!(entries[2].guard.is_none());
    assert_eq!(entries[2].handler.status, 404);
    assert!(entries[2].is_fallback());
    assert!(!entries[0].is_fallback());
    assert!(!entries[1].is_fallback());
}

#[test]
fn public_ignores_headers() {
    let app = app();
    let with_token = Request::new("/public").with_header("Authorization", "Bearer token");
    let with_wrong = Request::new("/public").with_header("Authorization", "Basic abc");
    let with_other = Request::new("/public").with_header("Accept", "*/*").with_header("X-Id", "7");
    assert_eq!(app.dispatch(&with_token).status, 200);
    assert_eq!(app.dispatch(&with_wrong).status, 200);
    assert_eq!(app.dispatch(&with_other).status, 200);
}

#[test]
fn wrong_credentials_are_refused_not_missed() {
    let app = app();
    for value in [
        "",
        "Bearer",
        "Bearer ",
        "Bearer  token",
        "Bearer token ",
        " Bearer token",
        "bearer token",
        "Bearer Token",
        "Bearer tokens",
        "Bearer toke",
        "token",
        "Basic token",
        "Bearer token\u{e9}",
    ] {
        let status = app.dispatch(&bearer(value)).status;
        assert_eq!(status, 401, "value {:?}", value);
        assert_ne!(status, 404);
    }
}

#[test]
fn credential_in_another_header_is_refused() {
    let app = app();
    let request = Request::new("/authorized")
        .with_header("Authorisation", "Bearer token")
        .with_header("X-Authorization", "Bearer token")
        .with_header("Authorization2", "Bearer token");
    assert_eq!(app.dispatch(&request).status, 401);
}

#[test]
fn header_name_case_is_ignored() {
    let app = app();
    for name in ["authorization", "Authorization", "AUTHORIZATION", "aUtHoRiZaTiOn"] {
        let request = Request::new("/authorized").with_header(name, "Bearer token");
        assert_eq!(app.dispatch(&request).status, 200, "name {:?}", name);
    }
}

#[test]
fn first_authorization_header_counts() {
    let app = app();
    let good_first = Request::new("/authorized")
        .with_header("Accept", "*/*")
        .with_header("Authorization", "Bearer token")
        .with_header("Authorization", "Bearer other");
    let bad_first = Request::new("/authorized")
        .with_header("authorization", "Bearer other")
        .with_header("Authorization", "Bearer token");
    assert_eq!(app.dispatch(&good_first).status, 200);
    assert_eq!(app.dispatch(&bad_first).status, 401);
}

#[test]
fn other_paths_are_not_found() {
    let app = app();
    for path in [
        "",
        "/",
        "/public/",
        "/Public",
        "/publi",
        "/publicc",
        "public",
        "/authorized/",
        "/AUTHORIZED",
        "/authorized/x",
        "/public/authorized",
        "/non_existent_route",
        "/\u{fc}ber",
    ] {
        let bare = Request::new(path);
        let with_token = Request::new(path).with_header("Authorization", "Bearer token");
        assert_eq!(app.dispatch(&bare).status, 404, "path {:?}", path);
        assert_eq!(app.dispatch(&with_token).status, 404, "path {:?}", path);
    }
}

#[test]
fn repeated_dispatch_gives_the_same_answer() {
    let app = app();
    let requests = [
        Request::new("/public"),
        Request::new("/authorized"),
        bearer("Bearer token"),
        bearer("Bearer nope"),
        Request::new("/nowhere"),
    ];
    let first: Vec<Response> = requests.iter().map(|r| app.dispatch(r)).collect();
    for _ in 0..5 {
        let again: Vec<Response> = requests.iter().map(|r| app.dispatch(r)).collect();
        assert_eq!(again, first);
    }
    let statuses: Vec<u16> = first.iter().map(|r| r.status).collect();
    assert_eq!(statuses, vec![200, 401, 200, 401, 404]);
    let rebuilt = route_dispatch::app();
    let other: Vec<Response> = requests.iter().map(|r| rebuilt.dispatch(r)).collect();
    assert_eq!(other, first);
}

#[test]
fn resolve_finds_the_first_accepting_entry() {
    let app = app();
    assert_eq!(app.resolve(&Request::new("/public")), 0);
    assert_eq!(app.resolve(&Request::new("/authorized")), 1);
    assert_eq!(app.resolve(&bearer("Bearer token")), 1);
    assert_eq!(app.resolve(&Request::new("/else")), 2);
}

fn entry(path: Option<&str>, token: Option<&str>, status: u16) -> RouteEntry {
    let matcher = match path {
        Some(p) => Matcher::exact(p),
        None => Matcher::Any,
    };
    match token {
        Some(t) => RouteEntry::guarded(matcher, Guard::bearer(t), Handler::status(status)),
        None => RouteEntry::unguarded(matcher, Handler::status(status)),
    }
}

#[test]
fn new_accepts_a_complete_table() {
    let table = vec![entry(Some("/a"), None, 200), entry(None, None, 404)];
    let dispatcher = Dispatcher::new(table).unwrap();
    assert_eq!(dispatcher.len(), 2);
    assert_eq!(dispatcher.dispatch(&Request::new("/a")).status, 200);
    assert_eq!(dispatcher.dispatch(&Request::new("/b")).status, 404);
    let only_fallback = Dispatcher::new(vec![entry(None, None, 204)]).unwrap();
    assert_eq!(only_fallback.len(), 1);
    assert_eq!(only_fallback.dispatch(&Request::new("/a")).status, 204);
}

#[test]
fn new_refuses_an_empty_table() {
    assert_eq!(Dispatcher::new(Vec::new()).unwrap_err(), ConfigError::MissingCatchAll);
}

#[test]
fn new_refuses_a_table_without_closing_catch_all() {
    let table = vec![entry(None, None, 404), entry(Some("/a"), None, 200)];
    assert_eq!(Dispatcher::new(table).unwrap_err(), ConfigError::MissingCatchAll);
    let guarded_exact = vec![entry(Some("/a"), Some("t"), 200)];
    assert_eq!(Dispatcher::new(guarded_exact).unwrap_err(), ConfigError::MissingCatchAll);
}

#[test]
fn new_refuses_a_guarded_catch_all() {
    let table = vec![entry(Some("/a"), None, 200), entry(None, Some("t"), 404)];
    assert_eq!(Dispatcher::new(table).unwrap_err(), ConfigError::GuardedCatchAll);
}

#[test]
fn order_of_entries_changes_the_answer() {
    let shadowed = Dispatcher::new(vec![
        entry(None, None, 404),
        entry(Some("/public"), None, 200),
        entry(None, None, 404),
    ])
    .unwrap();
    assert_eq!(shadowed.dispatch(&Request::new("/public")).status, 404);
    assert_eq!(shadowed.resolve(&Request::new("/public")), 0);

    let guarded_first = Dispatcher::new(vec![
        entry(Some("/x"), Some("token"), 200),
        entry(Some("/x"), None, 202),
        entry(None, None, 404),
    ])
    .unwrap();
    assert_eq!(guarded_first.dispatch(&Request::new("/x")).status, 401);
    let open_first = Dispatcher::new(vec![
        entry(Some("/x"), None, 202),
        entry(Some("/x"), Some("token"), 200),
        entry(None, None, 404),
    ])
    .unwrap();
    assert_eq!(open_first.dispatch(&Request::new("/x")).status, 202);
}

#[test]
fn failed_guard_does_not_fall_through() {
    let table = Dispatcher::new(vec![
        entry(Some("/secret"), Some("abc"), 200),
        entry(None, None, 404),
    ])
    .unwrap();
    assert_eq!(table.dispatch(&Request::new("/secret")).status, 401);
    let wrong = Request::new("/secret").with_header("Authorization", "Bearer abd");
    assert_eq!(table.dispatch(&wrong).status, 401);
    let right = Request::new("/secret").with_header("Authorization", "Bearer abc");
    assert_eq!(table.dispatch(&right).status, 200);
}

#[test]
fn bearer_guard_expects_scheme_space_token() {
    assert_eq!(Guard::bearer("token").expected, "Bearer token");
    assert_eq!(Guard::bearer("").expected, "Bearer ");
    assert_eq!(Guard::bearer("a b").expected, "Bearer a b");
    let guard = Guard::bearer("token");
    assert!(guard.verify(&String::from("Bearer token")));
    assert!(!guard.verify(&String::from("token")));
    assert!(!guard.verify(&String::from("Bearer token ")));
    assert!(guard.check(&bearer("Bearer token")));
    assert!(!guard.check(&bearer("Bearer")));
    assert!(!guard.check(&Request::new("/authorized")));
}

#[test]
fn matcher_compares_the_whole_path() {
    let exact = Matcher::exact("/a");
    assert!(exact.matches(&Request::new("/a")));
    assert!(!exact.matches(&Request::new("/a/")));
    assert!(!exact.matches(&Request::new("/A")));
    assert!(!exact.matches(&Request::new("")));
    assert!(!exact.is_catch_all());
    assert!(Matcher::Any.matches(&Request::new("")));
    assert!(Matcher::Any.matches(&Request::new("/anything")));
    assert!(Matcher::Any.is_catch_all());
}

#[test]
fn entry_answers_with_its_handler_or_401() {
    let open = entry(Some("/a"), None, 201);
    assert_eq!(open.respond(&Request::new("/a")).status, 201);
    let guarded = entry(Some("/a"), Some("k"), 201);
    assert_eq!(guarded.respond(&Request::new("/a")).status, 401);
    let admitted = Request::new("/a").with_header("authorization", "Bearer k");
    assert_eq!(guarded.respond(&admitted).status, 201);
    assert_eq!(Handler::status(418).handle(&Request::new("/")), Response { status: 418 });
}

#[test]
fn header_lookup_returns_the_first_of_that_name() {
    let request = Request::new("/")
        .with_header("Accept", "a")
        .with_header("X-One", "1")
        .with_header("accept", "b");
    assert_eq!(request.path, "/");
    assert_eq!(request.headers.len(), 3);
    assert_eq!(request.headers[2].name, "accept");
    assert_eq!(request.headers[2].value, "b");
    assert_eq!(request.header("ACCEPT").map(|v| v.as_str()), Some("a"));
    assert_eq!(request.header("x-one").map(|v| v.as_str()), Some("1"));
    assert_eq!(request.header("x-two"), None);
    assert_eq!(request.authorization(), None);
    assert_eq!(Request::new("/").header("accept"), None);
    let with = request.with_header("AUTHORIZATION", "v");
    assert_eq!(with.authorization().map(|v| v.as_str()), Some("v"));
}

#[test]
fn only_ascii_letters_are_folded() {
    assert!(eq_ignoring_ascii_case(b"AbC", b"aBc"));
    assert!(eq_ignoring_ascii_case(b"", b""));
    assert!(eq_ignoring_ascii_case(b"AZ", b"az"));
    assert!(!eq_ignoring_ascii_case(b"@", b"`"));
    assert!(!eq_ignoring_ascii_case(b"[", b"{"));
    assert!(!eq_ignoring_ascii_case(b"a", b"ab"));
    assert!(!eq_ignoring_ascii_case(b"ab", b"a"));
    assert!(!eq_ignoring_ascii_case(b"a", b"b"));
    assert!(!eq_ignoring_ascii_case(&[0xC0], &[0xE0]));
    assert!(header_names_match("Content-Type", "content-type"));
    assert!(!header_names_match("Content_Type", "content-type"));
    assert!(!header_names_match("\u{c9}", "\u{e9}"));
    assert!(header_names_match("\u{e9}A", "\u{e9}a"));
    assert_eq!(
        header_names_match("Authorization", "authorization"),
        "Authorization".eq_ignore_ascii_case("authorization")
    );
}
