//! The dispatcher: an ordered table of route entries, closed by a fallback,
//! and the evaluation of a request against it.

use crate::request::{Request, RequestView};
use crate::route::{accepts, entry_status, is_fallback, Response, RouteEntry, RouteView, NOT_FOUND};
use vstd::prelude::*;

verus! {

/// A table is complete: it has a last entry, and that entry is a catch-all
/// without a guard, so that every request finds an entry.
pub open spec fn complete(entries: Seq<RouteView>) -> bool {
    entries.len() > 0 && is_fallback(entries.last())
}

/// The position of the first entry at `from` or later whose matcher accepts
/// `path`; the length of the table where there is none.
pub open spec fn first_match_from(entries: Seq<RouteView>, path: Seq<char>, from: int) -> int
    decreases entries.len() - from,
{
    if from < 0 || from >= entries.len() {
        entries.len() as int
    } else if accepts(entries[from].matcher, path) {
        from
    } else {
        first_match_from(entries, path, from + 1)
    }
}

/// The position of the entry that decides a request for `path`.
pub open spec fn first_match(entries: Seq<RouteView>, path: Seq<char>) -> int {
    first_match_from(entries, path, 0)
}

/// The status with which a table answers a request: that of the first entry
/// whose matcher accepts the path. A guard that fails there is final; later
/// entries are not consulted.
pub open spec fn outcome(entries: Seq<RouteView>, request: RequestView) -> u16 {
    let at = first_match(entries, request.path);
    if at < entries.len() {
        entry_status(entries[at], request)
    } else {
        NOT_FOUND
    }
}

/// Why a table of entries cannot serve as a dispatcher.
#[derive(Clone, Copy, Debug, PartialEq, Eq, Structural)]
pub enum ConfigError {
    /// The table is empty, or its last entry is no catch-all.
    MissingCatchAll,
    /// The last entry is a catch-all behind a guard.
    GuardedCatchAll,
}

/// Why a table cannot serve, if it cannot: exactly the complete tables are
/// not refused.
pub open spec fn refusal(entries: Seq<RouteView>) -> Option<ConfigError> {
    if entries.len() == 0 || !(entries.last().matcher is Any) {
        Some(ConfigError::MissingCatchAll)
    } else if entries.last().guard is Some {
        Some(ConfigError::GuardedCatchAll)
    } else {
        None
    }
}

/// An ordered table of route entries whose last entry is a catch-all
/// without a guard. It is built once and only read afterwards.
#[derive(Debug)]
pub struct Dispatcher {
    entries: Vec<RouteEntry>,
}

impl View for Dispatcher {
    type V = Seq<RouteView>;

    closed spec fn view(&self) -> Seq<RouteView> {
        Seq::new(self.entries@.len(), |i: int| self.entries@[i]@)
    }
}

impl Dispatcher {
    #[verifier::type_invariant]
    spec fn closed_by_fallback(&self) -> bool {
        complete(self@)
    }

    /// Makes a dispatcher of `entries`, kept in their order. A table that is
    /// not complete is refused, with the reason.
    pub fn new(entries: Vec<RouteEntry>) -> (made: Result<Dispatcher, ConfigError>)
        ensures
            match made {
                Ok(dispatcher) => refusal(routes_of(entries@)) is None && dispatcher@ == routes_of(
                    entries@,
                ),
                Err(reason) => refusal(routes_of(entries@)) == Some(reason),
            },
    {
        let n = entries.len();
        if n == 0 {
            return Err(ConfigError::MissingCatchAll);
        }
        let last = &entries[n - 1];
        if !last.matcher.is_catch_all() {
            return Err(ConfigError::MissingCatchAll);
        }
        if last.guard.is_some() {
            return Err(ConfigError::GuardedCatchAll);
        }
        Ok(Dispatcher::closed(entries))
    }

    /// Makes a dispatcher of a table known to be complete.
    pub(crate) fn closed(entries: Vec<RouteEntry>) -> (dispatcher: Dispatcher)
        requires
            complete(routes_of(entries@)),
        ensures
            dispatcher@ == routes_of(entries@),
    {
        Dispatcher { entries }
    }

    /// The number of entries.
    pub fn len(&self) -> (n: usize)
        ensures
            n == self@.len(),
            n > 0,
    {
        proof {
            use_type_invariant(self);
        }
        self.entries.len()
    }

    /// The entries in the order in which they are tried.
    pub fn entries(&self) -> (entries: &Vec<RouteEntry>)
        ensures
            routes_of(entries@) == self@,
            complete(self@),
    {
        proof {
            use_type_invariant(self);
        }
        &self.entries
    }

    /// Finds the entry that decides a request: the first whose matcher
    /// accepts the path.
    pub fn resolve(&self, request: &Request) -> (at: usize)
        ensures
            at == first_match(self@, request@.path),
            at < self@.len(),
    {
        proof {
            use_type_invariant(self);
        }
        let mut i: usize = 0;
        while i < self.entries.len() - 1
            invariant
                complete(self@),
                self@.len() == self.entries@.len(),
                i < self.entries@.len(),
                first_match(self@, request@.path) == first_match_from(
                    self@,
                    request@.path,
                    i as int,
                ),
            decreases self.entries@.len() - i,
        {
            if self.entries[i].matcher.matches(request) {
                return i;
            }
            i += 1;
        }
        i
    }

    /// Answers a request. The entry found by `resolve` answers it, with 401
    /// where its guard turns the request away. The dispatcher is not changed,
    /// and the answer depends on nothing but the table and the request.
    pub fn dispatch(&self, request: &Request) -> (response: Response)
        ensures
            response.status == outcome(self@, request@),
    {
        let at = self.resolve(request);
        self.entries[at].respond(request)
    }
}

/// The table that a list of entries stands for.
pub open spec fn routes_of(entries: Seq<RouteEntry>) -> Seq<RouteView> {
    Seq::new(entries.len(), |i: int| entries[i]@)
}

} // verus!
