use vstd::prelude::*;

use crate::error::NetError;
use crate::worker::{NetHandler, NetWorker, same_identity};

verus! {

/// What the handler is handed for `n` refused outbound messages.
pub open spec fn refusal_reports<M>(n: nat) -> Seq<Result<M, NetError>> {
    Seq::new(n, |_i: int| Err(NetError::BackendOperationFailed))
}

/// What the handler is handed for one result of a backend's tick: the
/// inbound message, nothing, or the failure.
pub open spec fn delivered<M>(ticked: Result<Option<M>, NetError>) -> Seq<Result<M, NetError>> {
    match ticked {
        Ok(Some(m)) => seq![Ok(m)],
        Ok(None) => Seq::empty(),
        Err(_) => seq![Err(NetError::BackendOperationFailed)],
    }
}

/// What a round of work returns, given the backend's tick result and
/// whether queued messages were forwarded before it.
pub open spec fn round_result<M>(
    ticked: Result<Option<M>, NetError>,
    forwarded: bool,
    r: Result<bool, NetError>,
) -> bool {
    match ticked {
        Ok(Some(_)) => r is Err || r == Ok::<bool, NetError>(true),
        Ok(None) => r == Ok::<bool, NetError>(forwarded),
        Err(_) => r == Ok::<bool, NetError>(true),
    }
}

proof fn lemma_append_empty<A>(s: Seq<A>, t: Seq<A>)
    requires
        t.len() == 0,
    ensures
        s + t == s,
{
    assert(s + t =~= s);
}

/// The bridge between callers and one backend worker.
///
/// Callers admit outbound messages with `send`; `process` forwards every
/// admitted message to the worker in admission order and then ticks the
/// worker, handing what it produces to the handler. `stop` forwards what is
/// still queued, stops the worker once, and closes the connection for good:
/// after it the worker and the handler are never called again.
pub struct NetConnection<M, W: NetWorker<M>, H: NetHandler<M>> {
    worker: W,
    handler: H,
    outbound: Vec<M>,
    endpoint: String,
    stopped: bool,
    sent: Ghost<Seq<M>>,
}

impl<M, W: NetWorker<M>, H: NetHandler<M>> NetConnection<M, W, H> {
    /// Every message admitted by `send`, in admission order.
    pub closed spec fn sent(&self) -> Seq<M> {
        self.sent@
    }

    /// Every message forwarded to the worker, in forwarding order.
    pub closed spec fn received(&self) -> Seq<M> {
        self.worker.received()
    }

    /// Everything handed to the handler, in order.
    pub closed spec fn handled(&self) -> Seq<Result<M, NetError>> {
        self.handler.handled()
    }

    /// Whether the connection has been stopped.
    pub closed spec fn is_stopped(&self) -> bool {
        self.stopped
    }

    /// The endpoint cached when the worker was built.
    pub closed spec fn spec_endpoint(&self) -> Seq<char> {
        self.endpoint@
    }

    /// The worker the connection hosts.
    pub closed spec fn spec_worker(&self) -> W {
        self.worker
    }

    /// The handler the connection hands its inbound traffic to.
    pub closed spec fn spec_handler(&self) -> H {
        self.handler
    }

    /// What was forwarded followed by what is still queued is exactly what
    /// was admitted; nothing stays queued once the connection is stopped;
    /// the worker has been stopped once if the connection is stopped, and
    /// never otherwise.
    pub closed spec fn wf(&self) -> bool {
        &&& self.worker.received() + self.outbound@ == self.sent@
        &&& self.endpoint@ == self.worker.spec_endpoint()
        &&& self.stopped ==> self.outbound@.len() == 0
        &&& self.worker.stop_results().len() == if self.stopped {
            1int
        } else {
            0int
        }
    }

    /// Everything the worker received was admitted, in the same order; once
    /// stopped, the worker has received every admitted message.
    pub proof fn lemma_forwarded_prefix(&self)
        requires
            self.wf(),
        ensures
            self.received().len() <= self.sent().len(),
            self.received() == self.sent().subrange(0, self.received().len() as int),
            self.is_stopped() ==> self.received() == self.sent(),
    {
        let r = self.worker.received();
        assert(r == (r + self.outbound@).subrange(0, r.len() as int));
        if self.stopped {
            lemma_append_empty(r, self.outbound@);
        }
    }

    /// Hosts a freshly built worker; its endpoint is read once, here.
    pub fn new(handler: H, worker: W) -> (r: Self)
        requires
            worker.received() == Seq::<M>::empty(),
            worker.stop_results().len() == 0,
        ensures
            r.wf(),
            !r.is_stopped(),
            r.sent() == Seq::<M>::empty(),
            r.spec_endpoint() == worker.spec_endpoint(),
            r.spec_worker() == worker,
            r.spec_handler() == handler,
            r.handled() == handler.handled(),
            r.received() == Seq::<M>::empty(),
    {
        let endpoint = worker.endpoint();
        let r = NetConnection {
            worker,
            handler,
            outbound: Vec::new(),
            endpoint,
            stopped: false,
            sent: Ghost(Seq::empty()),
        };
        assert(r.worker.received() + r.outbound@ =~= r.sent@);
        r
    }

    /// Admits one outbound message; refused once the connection is stopped,
    /// and then nothing changes.
    pub fn send(&mut self, message: M) -> (r: Result<(), NetError>)
        requires
            old(self).wf(),
        ensures
            final(self).wf(),
            old(self).is_stopped() ==> r == Err::<(), NetError>(NetError::SendAfterStopped)
                && *final(self) == *old(self),
            !old(self).is_stopped() ==> {
                &&& r is Ok
                &&& final(self).sent() == old(self).sent().push(message)
                &&& !final(self).is_stopped()
                &&& final(self).spec_worker() == old(self).spec_worker()
                &&& final(self).spec_handler() == old(self).spec_handler()
                &&& final(self).handled() == old(self).handled()
                &&& final(self).spec_endpoint() == old(self).spec_endpoint()
            },
    {
        if self.stopped {
            return Err(NetError::SendAfterStopped);
        }
        self.outbound.push(message);
        self.sent = Ghost(self.sent@.push(message));
        assert(self.worker.received() + self.outbound@ =~= self.sent@);
        Ok(())
    }

    /// Forwards every queued message to the worker, oldest first; each
    /// refusal by the worker is reported to the handler.
    fn forward_queued(&mut self) -> (forwarded: bool)
        requires
            old(self).wf(),
            !old(self).stopped,
        ensures
            final(self).wf(),
            final(self).outbound@.len() == 0,
            final(self).stopped == old(self).stopped,
            final(self).sent == old(self).sent,
            final(self).endpoint == old(self).endpoint,
            final(self).worker.received() == old(self).sent@,
            final(self).worker.refusals() >= old(self).worker.refusals(),
            final(self).handler.handled() == old(self).handler.handled() + refusal_reports(
                (final(self).worker.refusals() - old(self).worker.refusals()) as nat,
            ),
            final(self).worker.ticks() == old(self).worker.ticks(),
            final(self).worker.stop_results() == old(self).worker.stop_results(),
            same_identity(&old(self).worker, &final(self).worker),
            old(self).worker.stops_cleanly() ==> final(self).worker.stops_cleanly(),
            forwarded == (old(self).outbound@.len() > 0),
    {
        let forwarded = self.outbound.len() > 0;
        proof {
            assert(old(self).handler.handled() + refusal_reports(0) =~= old(
                self,
            ).handler.handled());
        }
        while self.outbound.len() > 0
            invariant
                self.worker.received() + self.outbound@ == self.sent@,
                self.endpoint@ == self.worker.spec_endpoint(),
                !self.stopped,
                self.stopped == old(self).stopped,
                self.sent == old(self).sent,
                self.endpoint == old(self).endpoint,
                self.worker.refusals() >= old(self).worker.refusals(),
                self.handler.handled() == old(self).handler.handled() + refusal_reports(
                    (self.worker.refusals() - old(self).worker.refusals()) as nat,
                ),
                self.worker.ticks() == old(self).worker.ticks(),
                self.worker.stop_results() == old(self).worker.stop_results(),
                same_identity(&old(self).worker, &self.worker),
                old(self).worker.stops_cleanly() ==> self.worker.stops_cleanly(),
            decreases self.outbound@.len(),
        {
            let ghost before = self.worker.received();
            let ghost queued = self.outbound@;
            let ghost k = (self.worker.refusals() - old(self).worker.refusals()) as nat;
            let message = self.outbound.remove(0);
            let r = self.worker.receive(message);
            assert(self.worker.received() + self.outbound@ =~= before + queued);
            if r.is_err() {
                let _ = self.handler.handle(Err(NetError::BackendOperationFailed));
                assert(refusal_reports::<M>(k).push(Err(NetError::BackendOperationFailed))
                    =~= refusal_reports::<M>(k + 1));
                assert(old(self).handler.handled() + refusal_reports::<M>(k + 1) =~= (old(
                    self,
                ).handler.handled() + refusal_reports::<M>(k)).push(
                    Err(NetError::BackendOperationFailed),
                ));
            }
        }
        proof {
            lemma_append_empty(self.worker.received(), self.outbound@);
        }
        forwarded
    }

    /// Hands what one tick of the worker returned to the handler: an inbound
    /// message, or the tick's failure as `BackendOperationFailed`. Returns
    /// what the handler returned for a message (`Ok(true)` on success),
    /// `forwarded` when the tick produced nothing, and `Ok(true)` after a
    /// failure. A stopped connection hands nothing on and returns
    /// `Ok(false)`.
    pub fn deliver(&mut self, ticked: Result<Option<M>, NetError>, forwarded: bool) -> (r: Result<
        bool,
        NetError,
    >)
        requires
            old(self).wf(),
        ensures
            final(self).wf(),
            old(self).is_stopped() ==> r == Ok::<bool, NetError>(false) && *final(self) == *old(
                self,
            ),
            !old(self).is_stopped() ==> {
                &&& final(self).handled() == old(self).handled() + delivered(ticked)
                &&& round_result(ticked, forwarded, r)
                &&& !final(self).is_stopped()
                &&& final(self).sent() == old(self).sent()
                &&& final(self).spec_worker() == old(self).spec_worker()
                &&& final(self).spec_endpoint() == old(self).spec_endpoint()
            },
    {
        if self.stopped {
            return Ok(false);
        }
        proof {
            assert(old(self).handler.handled() + delivered(ticked) =~= match ticked {
                Ok(Some(m)) => old(self).handler.handled().push(Ok(m)),
                Ok(None) => old(self).handler.handled(),
                Err(_) => old(self).handler.handled().push(Err(NetError::BackendOperationFailed)),
            });
        }
        match ticked {
            Ok(Some(message)) => {
                match self.handler.handle(Ok(message)) {
                    Ok(()) => Ok(true),
                    Err(e) => Err(e),
                }
            },
            Ok(None) => Ok(forwarded),
            Err(_) => {
                let _ = self.handler.handle(Err(NetError::BackendOperationFailed));
                Ok(true)
            },
        }
    }

    /// One round of the connection's work: forward what is queued, oldest
    /// first, reporting each refusal to the handler; then tick the worker
    /// once and hand what it returned on with `deliver`. A stopped
    /// connection does nothing and returns `Ok(false)`.
    pub fn process(&mut self) -> (r: Result<bool, NetError>)
        requires
            old(self).wf(),
        ensures
            final(self).wf(),
            old(self).is_stopped() ==> r == Ok::<bool, NetError>(false) && *final(self) == *old(
                self,
            ),
            !old(self).is_stopped() ==> {
                let w0 = old(self).spec_worker();
                let w1 = final(self).spec_worker();
                let refused = (w1.refusals() - w0.refusals()) as nat;
                &&& w1.refusals() >= w0.refusals()
                &&& w1.received() == old(self).sent()
                &&& w1.ticks().len() == w0.ticks().len() + 1
                &&& w1.ticks().drop_last() == w0.ticks()
                &&& final(self).handled() == old(self).handled() + refusal_reports(refused)
                    + delivered(w1.ticks().last())
                &&& round_result(
                    w1.ticks().last(),
                    old(self).sent().len() > old(self).received().len(),
                    r,
                )
                &&& w1.stop_results() == w0.stop_results()
                &&& same_identity(&w0, &w1)
                &&& !final(self).is_stopped()
                &&& final(self).sent() == old(self).sent()
                &&& final(self).spec_endpoint() == old(self).spec_endpoint()
            },
    {
        if self.stopped {
            return Ok(false);
        }
        let forwarded = self.forward_queued();
        proof {
            assert(old(self).worker.received().len() + old(self).outbound@.len()
                == old(self).sent@.len()) by {
                assert((old(self).worker.received() + old(self).outbound@).len()
                    == old(self).sent@.len());
            }
        }
        let ticked = self.worker.tick();
        proof {
            assert(self.worker.ticks().drop_last() =~= old(self).worker.ticks());
        }
        let r = self.deliver(ticked, forwarded);
        proof {
            assert(self.handler.handled() =~= old(self).handler.handled() + refusal_reports(
                (self.worker.refusals() - old(self).worker.refusals()) as nat,
            ) + delivered(self.worker.ticks().last()));
        }
        r
    }

    /// Stops the connection: forwards what is still queued, reporting each
    /// refusal to the handler, then stops the worker, once, and refuses
    /// every later `send`. The result is `Ok` exactly when the worker's
    /// `stop` succeeded, and `ShutdownFailed` holding the worker's error
    /// otherwise; the connection is
    /// closed either way. Stopping a stopped connection changes nothing and
    /// succeeds.
    pub fn stop(&mut self) -> (r: Result<(), NetError>)
        requires
            old(self).wf(),
        ensures
            final(self).wf(),
            final(self).is_stopped(),
            final(self).received() == old(self).sent(),
            final(self).sent() == old(self).sent(),
            final(self).spec_endpoint() == old(self).spec_endpoint(),
            old(self).is_stopped() ==> r is Ok && *final(self) == *old(self),
            !old(self).is_stopped() ==> {
                let w0 = old(self).spec_worker();
                let w1 = final(self).spec_worker();
                &&& w0.stop_results().len() == 0
                &&& w1.stop_results().len() == 1
                &&& (r is Ok <==> w1.stop_results()[0] is Ok)
                &&& (w1.stop_results()[0] matches Err(cause) ==> r == Err::<(), NetError>(
                    NetError::ShutdownFailed(Box::new(cause)),
                ))
                &&& (w0.stops_cleanly() ==> r is Ok)
                &&& w1.refusals() >= w0.refusals()
                &&& final(self).handled() == old(self).handled() + refusal_reports(
                    (w1.refusals() - w0.refusals()) as nat,
                )
                &&& w1.ticks() == w0.ticks()
                &&& same_identity(&w0, &w1)
            },
    {
        if self.stopped {
            proof {
                lemma_append_empty(self.worker.received(), self.outbound@);
            }
            return Ok(());
        }
        self.forward_queued();
        let r = self.worker.stop();
        self.stopped = true;
        proof {
            lemma_append_empty(self.worker.received(), self.outbound@);
            assert(self.worker.stop_results() == seq![r]);
        }
        match r {
            Ok(()) => Ok(()),
            Err(cause) => Err(NetError::ShutdownFailed(Box::new(cause))),
        }
    }

    /// Whether the connection has been stopped.
    pub fn stopped(&self) -> (r: bool)
        ensures
            r == self.is_stopped(),
    {
        self.stopped
    }

    /// The endpoint the worker reported when it was built.
    pub fn endpoint(&self) -> (r: String)
        ensures
            r@ == self.spec_endpoint(),
    {
        self.endpoint.clone()
    }

    /// The worker the connection hosts.
    pub fn worker(&self) -> (r: &W)
        ensures
            *r == self.spec_worker(),
    {
        &self.worker
    }

    /// The handler the connection hands its inbound traffic to.
    pub fn handler(&self) -> (r: &H)
        ensures
            *r == self.spec_handler(),
            r.handled() == self.handled(),
    {
        &self.handler
    }
}

} // verus!
