//! What the front end decides: which handlers an event goes to, and how a
//! request that failed is answered.
use vstd::prelude::*;
use crate::config::Handler;
use crate::message::{ImseEvent, ImseMessage};

verus! {

/// The largest request body that is read, in bytes.
pub const BODY_LIMIT: usize = 1024;

/// The answer to a request that was taken.
pub const STATUS_OK: u16 = 200;

/// The answer to a peer whose address is not allowed.
pub const STATUS_FORBIDDEN: u16 = 403;

/// The answer to a request that took too long.
pub const STATUS_TIMEOUT: u16 = 408;

/// The answer to a request that failed for another reason.
pub const STATUS_INTERNAL: u16 = 500;

/// The answer to a request that came while too many were served.
pub const STATUS_OVERLOADED: u16 = 503;

/// The key by which events are routed to one handler.
#[derive(Clone, Debug)]
pub struct Route {
    pub event: ImseEvent,
    pub user: String,
}

impl Route {
    /// Whether an event of this kind for this user goes to the handler.
    pub open spec fn takes(self, event: ImseEvent, user: Seq<char>) -> bool {
        self.event == event && self.user@ == user
    }

    /// Whether a message goes to the handler.
    pub fn accepts(&self, message: &ImseMessage) -> (r: bool)
        ensures
            r == self.takes(message.event, message.user@),
    {
        self.event == message.event && self.user == message.user
    }
}

/// The routes of a list of handlers: one for each, in the same order.
pub open spec fn routes_of(handlers: Seq<Handler>) -> Seq<(ImseEvent, Seq<char>)> {
    Seq::new(handlers.len(), |i: int| (handlers[i].event, handlers[i].user@))
}

/// The keys of a list of routes.
pub open spec fn keys(routes: Seq<Route>) -> Seq<(ImseEvent, Seq<char>)> {
    Seq::new(routes.len(), |i: int| (routes[i].event, routes[i].user@))
}

/// Builds the registry: the route of each handler, in the order of the
/// configuration. Two handlers may share a key; each has its own entry.
pub fn registry(handlers: &Vec<Handler>) -> (r: Vec<Route>)
    ensures
        keys(r@) == routes_of(handlers@),
{
    let mut routes: Vec<Route> = Vec::new();
    let mut i: usize = 0;
    while i < handlers.len()
        invariant
            0 <= i <= handlers.len(),
            routes@.len() == i,
            forall|k: int|
                0 <= k < i ==> (#[trigger] routes@[k]).event == handlers@[k].event && routes@[k].user@
                    == handlers@[k].user@,
        decreases handlers.len() - i,
    {
        routes.push(Route { event: handlers[i].event, user: handlers[i].user.clone() });
        i += 1;
    }
    assert(keys(routes@) =~= routes_of(handlers@));
    routes
}

/// The positions form the list of all entries that take the event, each
/// once and in the order of the registry.
pub open spec fn selects(picked: Seq<usize>, routes: Seq<Route>, event: ImseEvent, user: Seq<char>) -> bool {
    &&& forall|k: int| 0 <= k < picked.len() ==> (#[trigger] picked[k]) < routes.len()
    &&& forall|k: int|
        0 <= k < picked.len() ==> (#[trigger] routes[picked[k] as int]).takes(event, user)
    &&& forall|j: int, k: int| 0 <= j < k < picked.len() ==> picked[j] < picked[k]
    &&& forall|i: int|
        0 <= i < routes.len() && (#[trigger] routes[i]).takes(event, user) ==> picked.contains(
            i as usize,
        )
}

/// The positions of the registry's entries that a message goes to: every
/// entry whose key is the message's, in the order of the registry.
pub fn targets(routes: &Vec<Route>, message: &ImseMessage) -> (r: Vec<usize>)
    ensures
        selects(r@, routes@, message.event, message.user@),
{
    let mut picked: Vec<usize> = Vec::new();
    let mut i: usize = 0;
    while i < routes.len()
        invariant
            0 <= i <= routes.len(),
            forall|k: int| 0 <= k < picked@.len() ==> (#[trigger] picked@[k]) < i,
            forall|k: int|
                0 <= k < picked@.len() ==> (#[trigger] routes@[picked@[k] as int]).takes(
                    message.event,
                    message.user@,
                ),
            forall|j: int, k: int| 0 <= j < k < picked@.len() ==> picked@[j] < picked@[k],
            forall|n: int|
                0 <= n < i && (#[trigger] routes@[n]).takes(message.event, message.user@)
                    ==> picked@.contains(n as usize),
        decreases routes.len() - i,
    {
        if routes[i].accepts(message) {
            let ghost before = picked@;
            picked.push(i);
            proof {
                assert(picked@[picked@.len() - 1] == i);
                assert forall|n: int|
                    0 <= n < i + 1 && (#[trigger] routes@[n]).takes(
                        message.event,
                        message.user@,
                    ) implies picked@.contains(n as usize) by {
                    if n < i {
                        let k = choose|k: int| 0 <= k < before.len() && before[k] == n as usize;
                        assert(picked@[k] == n as usize);
                    }
                }
            }
        }
        i += 1;
    }
    picked
}

/// Why a request failed before it reached the daemon's own logic.
#[derive(Clone, Debug)]
pub enum Failure {
    /// The request took longer than the configured timeout.
    TimedOut,
    /// Too many requests were being served.
    Overloaded,
    /// Anything else, with its description.
    Other(String),
}

impl Failure {
    /// The status that answers the failure.
    pub open spec fn status_spec(self) -> u16 {
        match self {
            Failure::TimedOut => STATUS_TIMEOUT,
            Failure::Overloaded => STATUS_OVERLOADED,
            Failure::Other(_) => STATUS_INTERNAL,
        }
    }

    /// What is said of the failure.
    pub open spec fn reason_spec(self) -> Seq<char> {
        match self {
            Failure::TimedOut => "request timed out"@,
            Failure::Overloaded => "service is overloaded, try again later"@,
            Failure::Other(text) => "Unhandled internal error: "@ + text@,
        }
    }

    /// The status that answers the failure.
    pub fn status(&self) -> (r: u16)
        ensures
            r == self.status_spec(),
    {
        match self {
            Failure::TimedOut => STATUS_TIMEOUT,
            Failure::Overloaded => STATUS_OVERLOADED,
            Failure::Other(_) => STATUS_INTERNAL,
        }
    }

    /// What is said of the failure.
    pub fn reason(&self) -> (r: String)
        ensures
            r@ == self.reason_spec(),
    {
        match self {
            Failure::TimedOut => String::from_str("request timed out"),
            Failure::Overloaded => String::from_str("service is overloaded, try again later"),
            Failure::Other(text) => {
                let mut s: String = String::from_str("Unhandled internal error: ");
                s.append(text.as_str());
                s
            },
        }
    }
}

} // verus!
