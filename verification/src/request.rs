//! Requests: a path and an ordered list of headers.
//!
//! Header names are compared byte by byte with ASCII letters folded to lower
//! case. Where a name occurs more than once, the first occurrence counts.

use vstd::prelude::*;

verus! {

/// The header that carries a request's credential, in lower case.
pub const AUTHORIZATION: &'static str = "authorization";

/// A byte with an ASCII capital folded to its small letter.
pub open spec fn folded(b: u8) -> int {
    if 65 <= b && b <= 90 {
        b + 32
    } else {
        b as int
    }
}

/// Two byte strings are equal up to the case of ASCII letters.
pub open spec fn same_ignoring_ascii_case(a: Seq<u8>, b: Seq<u8>) -> bool {
    &&& a.len() == b.len()
    &&& forall|i: int| 0 <= i < a.len() ==> folded(#[trigger] a[i]) == folded(b[i])
}

/// Two header names denote the same header.
pub open spec fn same_header_name(a: Seq<char>, b: Seq<char>) -> bool {
    same_ignoring_ascii_case(vstd::utf8::encode_utf8(a), vstd::utf8::encode_utf8(b))
}

/// What a header is: its name and its value, as character sequences.
pub struct HeaderView {
    pub name: Seq<char>,
    pub value: Seq<char>,
}

/// What a request is: its path and its headers in the order given.
pub struct RequestView {
    pub path: Seq<char>,
    pub headers: Seq<HeaderView>,
}

/// The value of the first header at position `from` or later whose name
/// denotes `name`, if there is one.
pub open spec fn header_value_from(headers: Seq<HeaderView>, name: Seq<char>, from: int) -> Option<
    Seq<char>,
>
    decreases headers.len() - from,
{
    if from < 0 || from >= headers.len() {
        None
    } else if same_header_name(headers[from].name, name) {
        Some(headers[from].value)
    } else {
        header_value_from(headers, name, from + 1)
    }
}

/// The value that a list of headers gives to `name`: that of the first header
/// so named, ignoring the case of ASCII letters.
pub open spec fn header_value(headers: Seq<HeaderView>, name: Seq<char>) -> Option<Seq<char>> {
    header_value_from(headers, name, 0)
}

/// One header line.
#[derive(Clone, Debug)]
pub struct Header {
    pub name: String,
    pub value: String,
}

impl View for Header {
    type V = HeaderView;

    open spec fn view(&self) -> HeaderView {
        HeaderView { name: self.name@, value: self.value@ }
    }
}

/// A request, as far as routing reads it. The method is always GET.
#[derive(Debug)]
pub struct Request {
    pub path: String,
    pub headers: Vec<Header>,
}

impl View for Request {
    type V = RequestView;

    open spec fn view(&self) -> RequestView {
        RequestView {
            path: self.path@,
            headers: Seq::new(self.headers@.len(), |i: int| self.headers@[i]@),
        }
    }
}

fn fold(b: u8) -> (r: u8)
    ensures
        r == folded(b),
{
    if 65 <= b && b <= 90 {
        b + 32
    } else {
        b
    }
}

/// Compares two byte strings up to the case of ASCII letters.
pub fn eq_ignoring_ascii_case(a: &[u8], b: &[u8]) -> (same: bool)
    ensures
        same == same_ignoring_ascii_case(a@, b@),
{
    if a.len() != b.len() {
        return false;
    }
    let mut i: usize = 0;
    while i < a.len()
        invariant
            a@.len() == b@.len(),
            i <= a@.len(),
            forall|j: int| 0 <= j < i ==> folded(#[trigger] a@[j]) == folded(b@[j]),
        decreases a@.len() - i,
    {
        if fold(a[i]) != fold(b[i]) {
            return false;
        }
        i += 1;
    }
    true
}

/// Tells whether two header names denote the same header.
pub fn header_names_match(a: &str, b: &str) -> (same: bool)
    ensures
        same == same_header_name(a@, b@),
{
    eq_ignoring_ascii_case(a.as_bytes(), b.as_bytes())
}

impl Request {
    /// A request for `path` that carries no headers.
    pub fn new(path: &str) -> (request: Request)
        ensures
            request@.path == path@,
            request@.headers == Seq::<HeaderView>::empty(),
    {
        let request = Request { path: path.to_owned(), headers: Vec::new() };
        assert(request@.headers =~= Seq::<HeaderView>::empty());
        request
    }

    /// The same request with one more header after those it has.
    pub fn with_header(self, name: &str, value: &str) -> (request: Request)
        ensures
            request@.path == self@.path,
            request@.headers == self@.headers.push(HeaderView { name: name@, value: value@ }),
    {
        let ghost before = self@;
        let mut request = self;
        request.headers.push(Header { name: name.to_owned(), value: value.to_owned() });
        assert(request@.headers =~= before.headers.push(
            HeaderView { name: name@, value: value@ },
        ));
        request
    }

    /// Looks a header up by name. Of several headers so named the first is
    /// returned.
    pub fn header(&self, name: &str) -> (found: Option<&String>)
        ensures
            match found {
                Some(value) => header_value(self@.headers, name@) == Some(value@),
                None => header_value(self@.headers, name@) is None,
            },
    {
        let mut i: usize = 0;
        while i < self.headers.len()
            invariant
                i <= self.headers@.len(),
                header_value(self@.headers, name@) == header_value_from(
                    self@.headers,
                    name@,
                    i as int,
                ),
            decreases self.headers@.len() - i,
        {
            if header_names_match(self.headers[i].name.as_str(), name) {
                return Some(&self.headers[i].value);
            }
            i += 1;
        }
        None
    }

    /// The credential that the request presents: the value of its
    /// `Authorization` header.
    pub fn authorization(&self) -> (found: Option<&String>)
        ensures
            match found {
                Some(value) => header_value(self@.headers, AUTHORIZATION@) == Some(value@),
                None => header_value(self@.headers, AUTHORIZATION@) is None,
            },
    {
        self.header(AUTHORIZATION)
    }
}

} // verus!
