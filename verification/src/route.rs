//! Route entries: a matcher on the path, an optional guard on the headers,
//! and a handler that gives the response.

use crate::request::{header_value, Request, RequestView, AUTHORIZATION};
use vstd::prelude::*;
use vstd::string::StringExecFns;

verus! {

/// The status of a handled request.
pub const OK: u16 = 200;

/// The status of a request that a guard turned away.
pub const UNAUTHORIZED: u16 = 401;

/// The status of a request that no specific route serves.
pub const NOT_FOUND: u16 = 404;

/// The scheme word and the space that precede a bearer token.
pub const BEARER_PREFIX: &'static str = "Bearer ";

/// A status-only response: no handler produces body content.
#[derive(Clone, Copy, Debug, PartialEq, Eq, Structural)]
pub struct Response {
    pub status: u16,
}

/// What a matcher is.
pub enum MatcherView {
    Exact(Seq<char>),
    Any,
}

/// What a route entry is: its matcher, the credential its guard asks for
/// (if it is guarded) and the status its handler answers with.
pub struct RouteView {
    pub matcher: MatcherView,
    pub guard: Option<Seq<char>>,
    pub status: u16,
}

/// The matcher accepts the path.
pub open spec fn accepts(matcher: MatcherView, path: Seq<char>) -> bool {
    match matcher {
        MatcherView::Exact(wanted) => path == wanted,
        MatcherView::Any => true,
    }
}

/// A guard that asks for `expected` admits these headers: their
/// `Authorization` value is `expected`, character for character.
pub open spec fn admits(expected: Seq<char>, headers: Seq<crate::request::HeaderView>) -> bool {
    header_value(headers, AUTHORIZATION@) == Some(expected)
}

/// The status with which an entry answers a request that its matcher
/// accepted: that of its handler, or 401 where its guard turns the request
/// away.
pub open spec fn entry_status(entry: RouteView, request: RequestView) -> u16 {
    match entry.guard {
        Some(expected) => if admits(expected, request.headers) {
            entry.status
        } else {
            UNAUTHORIZED
        },
        None => entry.status,
    }
}

/// A predicate on the request path.
#[derive(Clone, Debug)]
pub enum Matcher {
    /// Accepts the one path that equals the given one.
    Exact(String),
    /// The catch-all: accepts every path.
    Any,
}

impl View for Matcher {
    type V = MatcherView;

    open spec fn view(&self) -> MatcherView {
        match self {
            Matcher::Exact(wanted) => MatcherView::Exact(wanted@),
            Matcher::Any => MatcherView::Any,
        }
    }
}

impl Matcher {
    /// A matcher for exactly `path`.
    pub fn exact(path: &str) -> (matcher: Matcher)
        ensures
            matcher@ == MatcherView::Exact(path@),
    {
        Matcher::Exact(path.to_owned())
    }

    /// Tells whether this is the catch-all.
    pub fn is_catch_all(&self) -> (any: bool)
        ensures
            any == (self@ is Any),
    {
        match self {
            Matcher::Exact(_) => false,
            Matcher::Any => true,
        }
    }

    /// Applies the matcher to a request's path.
    pub fn matches(&self, request: &Request) -> (accepted: bool)
        ensures
            accepted == accepts(self@, request@.path),
    {
        match self {
            Matcher::Exact(wanted) => request.path == *wanted,
            Matcher::Any => true,
        }
    }
}

/// A predicate on the request headers, applied once the entry's matcher has
/// accepted the path: the `Authorization` header must equal `expected`.
#[derive(Clone, Debug)]
pub struct Guard {
    pub expected: String,
}

impl View for Guard {
    type V = Seq<char>;

    open spec fn view(&self) -> Seq<char> {
        self.expected@
    }
}

impl Guard {
    /// The guard that asks for the bearer token `token`: the header must
    /// read `Bearer`, one space, and the token.
    pub fn bearer(token: &str) -> (guard: Guard)
        ensures
            guard@ == BEARER_PREFIX@ + token@,
    {
        Guard { expected: BEARER_PREFIX.to_owned().concat(token) }
    }

    /// Verifies a credential: it must equal the expected one.
    pub fn verify(&self, credential: &String) -> (valid: bool)
        ensures
            valid == (credential@ == self@),
    {
        *credential == self.expected
    }

    /// Applies the guard to a request's headers. A request without an
    /// `Authorization` header is turned away.
    pub fn check(&self, request: &Request) -> (admitted: bool)
        ensures
            admitted == admits(self@, request@.headers),
    {
        match request.authorization() {
            Some(credential) => self.verify(credential),
            None => false,
        }
    }
}

/// Gives the response to a request that reached it. Every handler answers
/// with a fixed status.
#[derive(Clone, Copy, Debug)]
pub struct Handler {
    pub status: u16,
}

impl Handler {
    /// The handler that answers with `status`.
    pub fn status(status: u16) -> (handler: Handler)
        ensures
            handler.status == status,
    {
        Handler { status }
    }

    /// Answers a request.
    pub fn handle(&self, request: &Request) -> (response: Response)
        ensures
            response.status == self.status,
    {
        Response { status: self.status }
    }
}

/// One dispatch rule.
#[derive(Clone, Debug)]
pub struct RouteEntry {
    pub matcher: Matcher,
    pub guard: Option<Guard>,
    pub handler: Handler,
}

impl View for RouteEntry {
    type V = RouteView;

    open spec fn view(&self) -> RouteView {
        RouteView {
            matcher: self.matcher@,
            guard: match self.guard {
                Some(guard) => Some(guard@),
                None => None,
            },
            status: self.handler.status,
        }
    }
}

impl RouteEntry {
    /// An entry without a guard.
    pub fn unguarded(matcher: Matcher, handler: Handler) -> (entry: RouteEntry)
        ensures
            entry@ == (RouteView { matcher: matcher@, guard: None, status: handler.status }),
    {
        RouteEntry { matcher, guard: None, handler }
    }

    /// An entry whose handler is reached only through `guard`.
    pub fn guarded(matcher: Matcher, guard: Guard, handler: Handler) -> (entry: RouteEntry)
        ensures
            entry@ == (RouteView {
                matcher: matcher@,
                guard: Some(guard@),
                status: handler.status,
            }),
    {
        RouteEntry { matcher, guard: Some(guard), handler }
    }

    /// Tells whether the entry is a catch-all without a guard, which serves
    /// every request that reaches it.
    pub fn is_fallback(&self) -> (total: bool)
        ensures
            total == is_fallback(self@),
    {
        self.matcher.is_catch_all() && self.guard.is_none()
    }

    /// Answers a request that the entry's matcher accepted. A guard that
    /// turns the request away ends the dispatch with 401.
    pub fn respond(&self, request: &Request) -> (response: Response)
        ensures
            response.status == entry_status(self@, request@),
    {
        match &self.guard {
            Some(guard) => {
                if guard.check(request) {
                    self.handler.handle(request)
                } else {
                    Response { status: UNAUTHORIZED }
                }
            },
            None => self.handler.handle(request),
        }
    }
}

/// The entry accepts every path and has no guard.
pub open spec fn is_fallback(entry: RouteView) -> bool {
    entry.matcher is Any && entry.guard is None
}

} // verus!
