//! Request routing over a fixed, ordered table of route entries.
//!
//! A request is matched against the entries in order. The first entry whose
//! matcher accepts the path decides the response: its handler answers, unless
//! the entry carries a guard that the request's headers do not satisfy, in
//! which case the answer is `401 Unauthorized`. A closing catch-all entry
//! makes the table total.

pub mod dispatcher;
pub mod laws;
pub mod request;
pub mod route;

use crate::dispatcher::Dispatcher;
use crate::route::{Guard, Handler, Matcher, MatcherView, RouteEntry, RouteView, NOT_FOUND, OK};
use vstd::prelude::*;

verus! {

/// The path that is served to everyone.
pub const PUBLIC_PATH: &'static str = "/public";

/// The path that is served to bearers of the token.
pub const AUTHORIZED_PATH: &'static str = "/authorized";

/// The bearer token that opens the authorized path.
pub const TOKEN: &'static str = "token";

/// The table of the application: the public route, the authorized route
/// behind its bearer guard, and the catch-all that answers 404.
pub open spec fn app_routes() -> Seq<RouteView> {
    seq![
        RouteView { matcher: MatcherView::Exact("/public"@), guard: None, status: 200 },
        RouteView {
            matcher: MatcherView::Exact("/authorized"@),
            guard: Some("Bearer token"@),
            status: 200,
        },
        RouteView { matcher: MatcherView::Any, guard: None, status: 404 },
    ]
}

/// Builds the application's dispatcher. It is meant to be built once and
/// shared by all requests.
pub fn app() -> (dispatcher: Dispatcher)
    ensures
        dispatcher@ == app_routes(),
{
    let public = RouteEntry::unguarded(Matcher::exact(PUBLIC_PATH), Handler::status(OK));
    let authorized = RouteEntry::guarded(
        Matcher::exact(AUTHORIZED_PATH),
        Guard::bearer(TOKEN),
        Handler::status(OK),
    );
    let not_found = RouteEntry::unguarded(Matcher::Any, Handler::status(NOT_FOUND));
    let mut entries: Vec<RouteEntry> = Vec::new();
    entries.push(public);
    entries.push(authorized);
    entries.push(not_found);
    proof {
        reveal_strlit("Bearer ");
        reveal_strlit("token");
        reveal_strlit("Bearer token");
        assert("Bearer "@ + "token"@ =~= "Bearer token"@);
        assert(crate::dispatcher::routes_of(entries@) =~= app_routes());
    }
    Dispatcher::closed(entries)
}

} // verus!
