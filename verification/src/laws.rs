//! What holds of every table and of the application's table in particular.

use crate::app_routes;
use crate::dispatcher::{complete, first_match, first_match_from, outcome, refusal};
use crate::request::{
    folded, header_value, header_value_from, same_header_name, same_ignoring_ascii_case,
    HeaderView, RequestView,
};
use crate::route::{accepts, admits, entry_status, RouteView};
use vstd::prelude::*;

verus! {

proof fn first_match_from_is_least(entries: Seq<RouteView>, path: Seq<char>, from: int)
    requires
        0 <= from <= entries.len(),
    ensures
        from <= first_match_from(entries, path, from) <= entries.len(),
        first_match_from(entries, path, from) < entries.len() ==> accepts(
            entries[first_match_from(entries, path, from)].matcher,
            path,
        ),
        forall|j: int|
            from <= j < first_match_from(entries, path, from) ==> !accepts(
                (#[trigger] entries[j]).matcher,
                path,
            ),
    decreases entries.len() - from,
{
    if from < entries.len() && !accepts(entries[from].matcher, path) {
        first_match_from_is_least(entries, path, from + 1);
    }
}

/// In a complete table every path has a deciding entry: the first entry
/// whose matcher accepts the path. No entry before it accepts the path.
pub proof fn first_match_is_least(entries: Seq<RouteView>, path: Seq<char>)
    requires
        complete(entries),
    ensures
        0 <= first_match(entries, path) < entries.len(),
        accepts(entries[first_match(entries, path)].matcher, path),
        forall|j: int|
            0 <= j < first_match(entries, path) ==> !accepts((#[trigger] entries[j]).matcher, path),
{
    first_match_from_is_least(entries, path, 0);
    if first_match(entries, path) == entries.len() {
        first_match_from_is_least(entries, path, entries.len() - 1);
    }
}

/// An entry decides a request as soon as its matcher accepts the path and no
/// earlier matcher does, whatever entries follow it.
pub proof fn earliest_accepting_entry_decides(entries: Seq<RouteView>, path: Seq<char>, at: int)
    requires
        0 <= at < entries.len(),
        accepts(entries[at].matcher, path),
        forall|j: int| 0 <= j < at ==> !accepts((#[trigger] entries[j]).matcher, path),
    ensures
        first_match(entries, path) == at,
{
    first_match_from_is_least(entries, path, 0);
}

/// A complete table answers every request through its deciding entry: with
/// the status of that entry's handler, or with 401 where the entry is guarded
/// and the guard turns the request away.
pub proof fn outcome_comes_from_the_deciding_entry(entries: Seq<RouteView>, request: RequestView)
    requires
        complete(entries),
    ensures
        outcome(entries, request) == entry_status(
            entries[first_match(entries, request.path)],
            request,
        ),
        outcome(entries, request) == entries[first_match(entries, request.path)].status || (
        entries[first_match(entries, request.path)].guard is Some && outcome(entries, request)
            == 401),
{
    first_match_is_least(entries, request.path);
}

/// A guard that turns a request away ends the dispatch: the answer is 401
/// even though a later entry, such as the catch-all, accepts the path.
pub proof fn failed_guard_is_final(entries: Seq<RouteView>, request: RequestView, at: int)
    requires
        0 <= at < entries.len(),
        accepts(entries[at].matcher, request.path),
        forall|j: int| 0 <= j < at ==> !accepts((#[trigger] entries[j]).matcher, request.path),
        entries[at].guard is Some,
        !admits(entries[at].guard->Some_0, request.headers),
    ensures
        outcome(entries, request) == 401,
{
    earliest_accepting_entry_decides(entries, request.path, at);
}

/// Two requests with the same path and the same headers get the same answer
/// from the same table.
pub proof fn same_request_same_outcome(entries: Seq<RouteView>, a: RequestView, b: RequestView)
    requires
        a.path == b.path,
        a.headers.len() == b.headers.len(),
        forall|i: int|
            0 <= i < a.headers.len() ==> a.headers[i].name == b.headers[i].name
                && a.headers[i].value == b.headers[i].value,
    ensures
        outcome(entries, a) == outcome(entries, b),
{
    assert(a.headers =~= b.headers);
}

/// A table is refused if and only if it is not complete.
pub proof fn refused_iff_incomplete(entries: Seq<RouteView>)
    ensures
        refusal(entries) is None <==> complete(entries),
{
}

/// The application's table is complete.
pub proof fn app_routes_are_complete()
    ensures
        complete(app_routes()),
        app_routes().len() == 3,
{
}

/// Every request for the public path is answered with 200, whatever its
/// headers.
pub proof fn public_is_served(request: RequestView)
    requires
        request.path == "/public"@,
    ensures
        outcome(app_routes(), request) == 200,
{
    earliest_accepting_entry_decides(app_routes(), request.path, 0);
}

/// A request for the authorized path whose `Authorization` value is not
/// `Bearer token` (or that has none) is answered with 401, not with 404.
pub proof fn authorized_without_token_is_refused(request: RequestView)
    requires
        request.path == "/authorized"@,
        header_value(request.headers, "authorization"@) != Some("Bearer token"@),
    ensures
        outcome(app_routes(), request) == 401,
{
    paths_differ();
    failed_guard_is_final(app_routes(), request, 1);
}

/// A request for the authorized path whose `Authorization` value is
/// `Bearer token` is answered with 200.
pub proof fn authorized_with_token_is_served(request: RequestView)
    requires
        request.path == "/authorized"@,
        header_value(request.headers, "authorization"@) == Some("Bearer token"@),
    ensures
        outcome(app_routes(), request) == 200,
{
    paths_differ();
    earliest_accepting_entry_decides(app_routes(), request.path, 1);
}

/// A request for any other path is answered with 404, whatever its headers.
pub proof fn other_paths_are_not_found(request: RequestView)
    requires
        request.path != "/public"@,
        request.path != "/authorized"@,
    ensures
        outcome(app_routes(), request) == 404,
{
    earliest_accepting_entry_decides(app_routes(), request.path, 2);
}

proof fn paths_differ()
    ensures
        "/public"@ != "/authorized"@,
{
    reveal_strlit("/public");
    reveal_strlit("/authorized");
    assert("/public"@.len() != "/authorized"@.len());
}

/// Header lookup does not depend on the case of ASCII letters in the name
/// asked for.
pub proof fn lookup_ignores_case(headers: Seq<HeaderView>, a: Seq<char>, b: Seq<char>)
    requires
        same_header_name(a, b),
    ensures
        header_value(headers, a) == header_value(headers, b),
{
    lookup_from_ignores_case(headers, a, b, 0);
}

proof fn lookup_from_ignores_case(headers: Seq<HeaderView>, a: Seq<char>, b: Seq<char>, from: int)
    requires
        same_header_name(a, b),
        0 <= from,
    ensures
        header_value_from(headers, a, from) == header_value_from(headers, b, from),
    decreases headers.len() - from,
{
    if from < headers.len() {
        same_name_is_transitive(headers[from].name, a, b);
        same_name_is_symmetric(a, b);
        same_name_is_transitive(headers[from].name, b, a);
        lookup_from_ignores_case(headers, a, b, from + 1);
    }
}

/// Sameness of header names is symmetric.
pub proof fn same_name_is_symmetric(a: Seq<char>, b: Seq<char>)
    ensures
        same_header_name(a, b) == same_header_name(b, a),
{
    let x = vstd::utf8::encode_utf8(a);
    let y = vstd::utf8::encode_utf8(b);
    if same_ignoring_ascii_case(x, y) {
        assert forall|i: int| 0 <= i < y.len() implies folded(#[trigger] y[i]) == folded(x[i]) by {
            assert(folded(x[i]) == folded(y[i]));
        }
    }
    if same_ignoring_ascii_case(y, x) {
        assert forall|i: int| 0 <= i < x.len() implies folded(#[trigger] x[i]) == folded(y[i]) by {
            assert(folded(y[i]) == folded(x[i]));
        }
    }
}

/// Sameness of header names is transitive.
pub proof fn same_name_is_transitive(a: Seq<char>, b: Seq<char>, c: Seq<char>)
    requires
        same_header_name(b, c),
    ensures
        same_header_name(a, b) ==> same_header_name(a, c),
{
    let x = vstd::utf8::encode_utf8(a);
    let y = vstd::utf8::encode_utf8(b);
    let z = vstd::utf8::encode_utf8(c);
    if same_ignoring_ascii_case(x, y) {
        assert forall|i: int| 0 <= i < x.len() implies folded(#[trigger] x[i]) == folded(z[i]) by {
            assert(folded(x[i]) == folded(y[i]));
            assert(folded(y[i]) == folded(z[i]));
        }
    }
}

/// For names made of ASCII characters, sameness is decided character by
/// character, with capitals folded to small letters.
pub proof fn ascii_names_compare_by_character(a: Seq<char>, b: Seq<char>)
    requires
        vstd::utf8::is_ascii_chars(a),
        vstd::utf8::is_ascii_chars(b),
    ensures
        same_header_name(a, b) <==> (a.len() == b.len() && forall|i: int|
            0 <= i < a.len() ==> folded(#[trigger] a[i] as u8) == folded(b[i] as u8)),
{
    let x = vstd::utf8::encode_utf8(a);
    let y = vstd::utf8::encode_utf8(b);
    vstd::utf8::is_ascii_chars_encode_utf8(a);
    vstd::utf8::is_ascii_chars_encode_utf8(b);
    if same_header_name(a, b) {
        assert forall|i: int| 0 <= i < a.len() implies folded(#[trigger] a[i] as u8) == folded(
            b[i] as u8,
        ) by {
            assert(folded(x[i]) == folded(y[i]));
        }
    }
    if a.len() == b.len() && forall|i: int|
        0 <= i < a.len() ==> folded(#[trigger] a[i] as u8) == folded(b[i] as u8) {
        assert forall|i: int| 0 <= i < x.len() implies folded(#[trigger] x[i]) == folded(y[i]) by {
            assert(folded(a[i] as u8) == folded(b[i] as u8));
        }
    }
}

} // verus!
