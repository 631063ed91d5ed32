//! The request queue: in-flight client requests, keyed by request id, with
//! the method name and the time of arrival kept for logging.

use vstd::prelude::*;
use crate::assoc::AssocMap;

verus! {

/// A request id; the transport layer canonicalizes the protocol's numeric
/// or string ids into these.
pub type RequestId = u64;

/// A client request as the core sees it: id, method, and the raw
/// parameters the handlers consume.
#[derive(Debug)]
pub struct Request {
    pub id: RequestId,
    pub method: String,
    pub params: String,
}

/// The view of a [`Request`].
pub struct RequestView {
    pub id: RequestId,
    pub method: Seq<char>,
    pub params: Seq<char>,
}

impl View for Request {
    type V = RequestView;

    open spec fn view(&self) -> RequestView {
        RequestView { id: self.id, method: self.method@, params: self.params@ }
    }
}

impl Request {
    pub fn dup(&self) -> (r: Self)
        ensures
            r@ == self@,
    {
        Request { id: self.id, method: self.method.clone(), params: self.params.clone() }
    }
}

/// A response to a request, carrying the same id.
#[derive(Debug)]
pub struct Response {
    pub id: RequestId,
    pub result: String,
}

/// The view of a [`Response`].
pub struct ResponseView {
    pub id: RequestId,
    pub result: Seq<char>,
}

impl View for Response {
    type V = ResponseView;

    open spec fn view(&self) -> ResponseView {
        ResponseView { id: self.id, result: self.result@ }
    }
}

impl Response {
    pub fn dup(&self) -> (r: Self)
        ensures
            r@ == self@,
    {
        Response { id: self.id, result: self.result.clone() }
    }
}

/// What the queue keeps per in-flight request.
#[derive(Debug)]
pub struct ReqEntry {
    pub method: String,
    pub received: u64,
}

/// Tracks in-flight incoming and outgoing requests.  A request is
/// completed once it is no longer in the map; late results for it are then
/// discarded.
pub struct RequestQueue {
    pub incoming: AssocMap<RequestId, ReqEntry>,
    pub outgoing: AssocMap<RequestId, ReqEntry>,
}

impl RequestQueue {
    pub open spec fn wf(self) -> bool {
        self.incoming.wf() && self.outgoing.wf()
    }

    pub fn new() -> (r: Self)
        ensures
            r.wf(),
            r.incoming@ =~= Map::<RequestId, ReqEntry>::empty(),
            r.outgoing@ =~= Map::<RequestId, ReqEntry>::empty(),
    {
        RequestQueue { incoming: AssocMap::new(), outgoing: AssocMap::new() }
    }

    /// Register an incoming request: its method and the instant it
    /// arrived.  Registering an id again replaces its entry.
    pub fn register(&mut self, id: RequestId, method: String, received: u64)
        requires
            old(self).wf(),
        ensures
            final(self).wf(),
            final(self).incoming@ =~= old(self).incoming@.insert(
                id,
                ReqEntry { method, received },
            ),
            final(self).outgoing@ == old(self).outgoing@,
    {
        self.incoming.insert(id, ReqEntry { method, received });
    }

    /// Complete an incoming request: remove it and hand back its entry.
    /// Completing an id that is not in flight (cancelled, or already
    /// answered) returns nothing and changes nothing.
    pub fn complete(&mut self, id: RequestId) -> (r: Option<ReqEntry>)
        requires
            old(self).wf(),
        ensures
            final(self).wf(),
            final(self).incoming@ =~= old(self).incoming@.remove(id),
            final(self).outgoing@ == old(self).outgoing@,
            match r {
                Some(e) => old(self).incoming@.contains_key(id) && e == old(self).incoming@[id],
                None => !old(self).incoming@.contains_key(id),
            },
    {
        self.incoming.remove_key(&id)
    }

    /// Whether the request is already completed: no longer (or never) in
    /// flight.
    pub fn is_completed(&self, id: RequestId) -> (r: bool)
        requires
            self.wf(),
        ensures
            r == !self.incoming@.contains_key(id),
    {
        !self.incoming.contains_key(&id)
    }

    /// Track an outgoing server-to-client request, so its response can be
    /// routed when it comes back.
    pub fn register_outgoing(&mut self, id: RequestId, method: String, sent: u64)
        requires
            old(self).wf(),
            !old(self).outgoing@.contains_key(id),
        ensures
            final(self).wf(),
            final(self).outgoing@ =~= old(self).outgoing@.insert(id, ReqEntry { method, received: sent }),
            final(self).incoming@ == old(self).incoming@,
    {
        self.outgoing.insert(id, ReqEntry { method, received: sent });
    }

    /// Complete an outgoing request when its response arrives.
    pub fn complete_outgoing(&mut self, id: RequestId) -> (r: Option<ReqEntry>)
        requires
            old(self).wf(),
        ensures
            final(self).wf(),
            final(self).outgoing@ =~= old(self).outgoing@.remove(id),
            final(self).incoming@ == old(self).incoming@,
            match r {
                Some(e) => old(self).outgoing@.contains_key(id) && e == old(self).outgoing@[id],
                None => !old(self).outgoing@.contains_key(id),
            },
    {
        self.outgoing.remove_key(&id)
    }
}

} // verus!
