use vstd::prelude::*;

use crate::config::P2pConfig;
use crate::connection::{NetConnection, delivered, refusal_reports, round_result};
use crate::error::NetError;
use crate::worker::{NetHandler, NetWorker, same_identity};

verus! {

/// The handle callers hold for one peer-to-peer connection.
///
/// It builds the backend that the configuration selects, hosts it in a
/// `NetConnection`, and delegates `send`, `process`, `stop` and `endpoint`.
pub struct P2pNetwork<M, W: NetWorker<M>, H: NetHandler<M>> {
    connection: NetConnection<M, W, H>,
}

impl<M, W: NetWorker<M>, H: NetHandler<M>> P2pNetwork<M, W, H> {
    /// The handle is consistent: see `NetConnection::wf`.
    pub closed spec fn wf(&self) -> bool {
        self.connection.wf()
    }

    /// Every message admitted by `send`, in admission order.
    pub closed spec fn sent(&self) -> Seq<M> {
        self.connection.sent()
    }

    /// Every message the backend has received, in order.
    pub closed spec fn received(&self) -> Seq<M> {
        self.connection.received()
    }

    /// Everything handed to the handler, in order.
    pub closed spec fn handled(&self) -> Seq<Result<M, NetError>> {
        self.connection.handled()
    }

    /// Whether the connection has been stopped.
    pub closed spec fn is_stopped(&self) -> bool {
        self.connection.is_stopped()
    }

    /// The backend the connection hosts.
    pub closed spec fn backend(&self) -> W {
        self.connection.spec_worker()
    }

    /// The endpoint the backend reported when it was built.
    pub closed spec fn spec_endpoint(&self) -> Seq<char> {
        self.connection.spec_endpoint()
    }

    /// Messages reach the backend in the order they were sent: what it has
    /// received is a prefix of what was sent, and once the connection is
    /// stopped it is all of it.
    pub proof fn lemma_forwarded_in_order(&self)
        requires
            self.wf(),
        ensures
            self.received().len() <= self.sent().len(),
            self.received() == self.sent().subrange(0, self.received().len() as int),
            self.is_stopped() ==> self.received() == self.sent(),
    {
        self.connection.lemma_forwarded_prefix();
    }

    /// Creates a connection with the backend that `config` selects: the
    /// backend is built once, for `config.backend_kind` and from
    /// `config.backend_config`. It succeeds exactly when that backend can be
    /// built, and fails otherwise with `BackendConstructionFailed` holding
    /// the backend's own error.
    pub fn new(handler: H, config: &P2pConfig) -> (r: Result<Self, NetError>)
        ensures
            r is Ok <==> W::can_construct(config.backend_kind, config.backend_config@),
            r matches Ok(n) ==> {
                &&& n.wf()
                &&& !n.is_stopped()
                &&& n.sent() == Seq::<M>::empty()
                &&& n.handled() == handler.handled()
                &&& n.backend().kind() == config.backend_kind
                &&& n.backend().config() == config.backend_config@
                &&& n.backend().received() == Seq::<M>::empty()
                &&& n.backend().refusals() == 0
                &&& n.backend().ticks() == Seq::<Result<Option<M>, NetError>>::empty()
                &&& n.spec_endpoint() == n.backend().spec_endpoint()
            },
            r matches Err(e) ==> e matches NetError::BackendConstructionFailed(_),
    {
        match W::construct(config.backend_kind, config.backend_config.as_str()) {
            Ok(worker) => Ok(P2pNetwork { connection: NetConnection::new(handler, worker) }),
            Err(cause) => Err(NetError::BackendConstructionFailed(Box::new(cause))),
        }
    }

    /// Sends a message to the network; refused once the connection is
    /// stopped, and then nothing changes.
    pub fn send(&mut self, data: M) -> (r: Result<(), NetError>)
        requires
            old(self).wf(),
        ensures
            final(self).wf(),
            old(self).is_stopped() ==> r == Err::<(), NetError>(NetError::SendAfterStopped)
                && *final(self) == *old(self),
            !old(self).is_stopped() ==> {
                &&& r is Ok
                &&& final(self).sent() == old(self).sent().push(data)
                &&& !final(self).is_stopped()
                &&& final(self).backend() == old(self).backend()
                &&& final(self).handled() == old(self).handled()
                &&& final(self).spec_endpoint() == old(self).spec_endpoint()
            },
    {
        self.connection.send(data)
    }

    /// One round of the connection's work; see `NetConnection::process`.
    pub fn process(&mut self) -> (r: Result<bool, NetError>)
        requires
            old(self).wf(),
        ensures
            final(self).wf(),
            old(self).is_stopped() ==> r == Ok::<bool, NetError>(false) && *final(self) == *old(
                self,
            ),
            !old(self).is_stopped() ==> {
                let w0 = old(self).backend();
                let w1 = final(self).backend();
                let refused = (w1.refusals() - w0.refusals()) as nat;
                &&& w1.refusals() >= w0.refusals()
                &&& w1.received() == old(self).sent()
                &&& w1.ticks().len() == w0.ticks().len() + 1
                &&& w1.ticks().drop_last() == w0.ticks()
                &&& final(self).handled() == old(self).handled() + refusal_reports(refused)
                    + delivered(w1.ticks().last())
                &&& round_result(
                    w1.ticks().last(),
                    old(self).sent().len() > old(self).received().len(),
                    r,
                )
                &&& w1.stop_results() == w0.stop_results()
                &&& same_identity(&w0, &w1)
                &&& !final(self).is_stopped()
                &&& final(self).sent() == old(self).sent()
                &&& final(self).spec_endpoint() == old(self).spec_endpoint()
            },
    {
        self.connection.process()
    }

    /// Stops the network connection: the backend receives every message
    /// sent before, is then stopped once, and every later `send` is refused.
    /// The result is `Ok` exactly when the backend's `stop` succeeded, and
    /// `ShutdownFailed` holding the backend's error otherwise.
    /// Stopping twice succeeds and changes nothing the second time.
    pub fn stop(&mut self) -> (r: Result<(), NetError>)
        requires
            old(self).wf(),
        ensures
            final(self).wf(),
            final(self).is_stopped(),
            final(self).received() == old(self).sent(),
            final(self).sent() == old(self).sent(),
            final(self).spec_endpoint() == old(self).spec_endpoint(),
            old(self).is_stopped() ==> r is Ok && *final(self) == *old(self),
            !old(self).is_stopped() ==> {
                let w0 = old(self).backend();
                let w1 = final(self).backend();
                &&& w0.stop_results().len() == 0
                &&& w1.stop_results().len() == 1
                &&& (r is Ok <==> w1.stop_results()[0] is Ok)
                &&& (w1.stop_results()[0] matches Err(cause) ==> r == Err::<(), NetError>(
                    NetError::ShutdownFailed(Box::new(cause)),
                ))
                &&& (w0.stops_cleanly() ==> r is Ok)
                &&& w1.refusals() >= w0.refusals()
                &&& final(self).handled() == old(self).handled() + refusal_reports(
                    (w1.refusals() - w0.refusals()) as nat,
                )
                &&& w1.ticks() == w0.ticks()
                &&& same_identity(&w0, &w1)
            },
    {
        self.connection.stop()
    }

    /// The endpoint of the connection's backend.
    pub fn endpoint(&self) -> (r: String)
        ensures
            r@ == self.spec_endpoint(),
    {
        self.connection.endpoint()
    }

    /// Whether the connection has been stopped.
    pub fn stopped(&self) -> (r: bool)
        ensures
            r == self.is_stopped(),
    {
        self.connection.stopped()
    }

    /// The backend the connection hosts.
    pub fn worker(&self) -> (r: &W)
        ensures
            *r == self.backend(),
    {
        self.connection.worker()
    }

    /// The handler the connection hands its inbound traffic to.
    pub fn handler(&self) -> (r: &H)
        ensures
            r.handled() == self.handled(),
    {
        self.connection.handler()
    }

    /// A short description of the handle for diagnostics.
    pub fn debug_text(&self) -> (r: String)
        ensures
            r@ == seq!['P', '2', 'p', 'N', 'e', 't', 'w', 'o', 'r', 'k', ' ', '{', '}'],
    {
        proof {
            reveal_strlit("P2pNetwork {}");
        }
        String::from_str("P2pNetwork {}")
    }
}

} // verus!
