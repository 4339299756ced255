use vstd::prelude::*;

use crate::config::P2pBackendKind;
use crate::error::NetError;

verus! {

/// A backend that a connection hosts: it accepts outbound messages, makes
/// progress when ticked, may produce inbound messages, and can be stopped.
pub trait NetWorker<M>: Sized {
    /// Every message handed to `receive` so far, in the order handed.
    spec fn received(&self) -> Seq<M>;

    /// How many calls of `receive` failed.
    spec fn refusals(&self) -> nat;

    /// What each call of `tick` returned, in order.
    spec fn ticks(&self) -> Seq<Result<Option<M>, NetError>>;

    /// What each call of `stop` returned, in order.
    spec fn stop_results(&self) -> Seq<Result<(), NetError>>;

    /// The backend kind the backend was built for.
    spec fn kind(&self) -> P2pBackendKind;

    /// The configuration text the backend was built from.
    spec fn config(&self) -> Seq<char>;

    /// The endpoint that the backend reports.
    spec fn spec_endpoint(&self) -> Seq<char>;

    /// Whether the backend in this state is sure to shut down without error.
    spec fn stops_cleanly(&self) -> bool;

    /// Whether this backend can be built for a kind and configuration text.
    spec fn can_construct(kind: P2pBackendKind, config: Seq<char>) -> bool;

    /// Builds the backend; it has been asked to do nothing yet.
    fn construct(kind: P2pBackendKind, config: &str) -> (r: Result<Self, NetError>)
        ensures
            r is Ok <==> Self::can_construct(kind, config@),
            r matches Ok(w) ==> {
                &&& w.kind() == kind
                &&& w.config() == config@
                &&& w.received() == Seq::<M>::empty()
                &&& w.refusals() == 0
                &&& w.ticks() == Seq::<Result<Option<M>, NetError>>::empty()
                &&& w.stop_results() == Seq::<Result<(), NetError>>::empty()
            },
    ;

    /// Hands one outbound message to the backend.
    fn receive(&mut self, message: M) -> (r: Result<(), NetError>)
        ensures
            final(self).received() == old(self).received().push(message),
            final(self).refusals() == old(self).refusals() + if r is Err {
                1nat
            } else {
                0nat
            },
            final(self).ticks() == old(self).ticks(),
            final(self).stop_results() == old(self).stop_results(),
            final(self).kind() == old(self).kind(),
            final(self).config() == old(self).config(),
            final(self).spec_endpoint() == old(self).spec_endpoint(),
            old(self).stops_cleanly() ==> final(self).stops_cleanly(),
    ;

    /// Lets the backend make progress; it may produce one inbound message.
    fn tick(&mut self) -> (r: Result<Option<M>, NetError>)
        ensures
            final(self).received() == old(self).received(),
            final(self).refusals() == old(self).refusals(),
            final(self).ticks() == old(self).ticks().push(r),
            final(self).stop_results() == old(self).stop_results(),
            final(self).kind() == old(self).kind(),
            final(self).config() == old(self).config(),
            final(self).spec_endpoint() == old(self).spec_endpoint(),
            old(self).stops_cleanly() ==> final(self).stops_cleanly(),
    ;

    /// Asks the backend to shut down.
    fn stop(&mut self) -> (r: Result<(), NetError>)
        ensures
            old(self).stops_cleanly() ==> r is Ok,
            final(self).received() == old(self).received(),
            final(self).refusals() == old(self).refusals(),
            final(self).ticks() == old(self).ticks(),
            final(self).stop_results() == old(self).stop_results().push(r),
            final(self).kind() == old(self).kind(),
            final(self).config() == old(self).config(),
            final(self).spec_endpoint() == old(self).spec_endpoint(),
    ;

    /// The endpoint that the backend reports.
    fn endpoint(&self) -> (r: String)
        ensures
            r@ == self.spec_endpoint(),
    ;
}

/// Two states of one backend: same kind, configuration and endpoint.
pub open spec fn same_identity<M, W: NetWorker<M>>(a: &W, b: &W) -> bool {
    &&& a.kind() == b.kind()
    &&& a.config() == b.config()
    &&& a.spec_endpoint() == b.spec_endpoint()
}

/// The receiver of everything that comes in on a connection: each inbound
/// message, and each failure of the backend.
pub trait NetHandler<M>: Sized {
    /// Every result handed to `handle` so far, in order.
    spec fn handled(&self) -> Seq<Result<M, NetError>>;

    /// Called once for each inbound message, and once for each failure of
    /// the backend to accept or produce a message.
    fn handle(&mut self, result: Result<M, NetError>) -> (r: Result<(), NetError>)
        ensures
            final(self).handled() == old(self).handled().push(result),
    ;
}

/// A handler that keeps everything it is handed and accepts it.
pub struct RecordingHandler<M> {
    log: Vec<Result<M, NetError>>,
}

impl<M> RecordingHandler<M> {
    /// A handler that has been handed nothing.
    pub fn new() -> (r: Self)
        ensures
            r.handled() == Seq::<Result<M, NetError>>::empty(),
    {
        RecordingHandler { log: Vec::new() }
    }

    /// Everything the handler has been handed, in order.
    pub fn handled_results(&self) -> (r: &Vec<Result<M, NetError>>)
        ensures
            r@ == self.handled(),
    {
        &self.log
    }
}

impl<M> NetHandler<M> for RecordingHandler<M> {
    closed spec fn handled(&self) -> Seq<Result<M, NetError>> {
        self.log@
    }

    fn handle(&mut self, result: Result<M, NetError>) -> (r: Result<(), NetError>) {
        self.log.push(result);
        Ok(())
    }
}

} // verus!
