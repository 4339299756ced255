use vstd::prelude::*;

use crate::config::P2pBackendKind;
use crate::error::NetError;
use crate::worker::NetWorker;

verus! {

/// An in-process simulated backend: it keeps every message handed to it,
/// reports its configuration text as its endpoint, and loops each message
/// back as inbound traffic, one per tick, oldest first. Once stopped it
/// refuses every message and every tick. It is built for the mock kind
/// only; any other kind is refused as `UnknownBackendKind`.
pub struct MockWorker<M> {
    log: Vec<M>,
    echo: Vec<M>,
    endpoint: String,
    stops: Vec<Result<(), NetError>>,
    refused: Ghost<nat>,
    ticked: Ghost<Seq<Result<Option<M>, NetError>>>,
}

impl<M: Clone> MockWorker<M> {
    /// The mock's endpoint is its configuration text, and it is always of
    /// the mock kind.
    pub proof fn lemma_endpoint_is_config(&self)
        ensures
            self.spec_endpoint() == self.config(),
            self.kind() == P2pBackendKind::MOCK,
    {
    }

    /// The messages the mock has received, in order.
    pub fn received_messages(&self) -> (r: &Vec<M>)
        ensures
            r@ == self.received(),
    {
        &self.log
    }

    /// How many messages the mock has received.
    pub fn received_count(&self) -> (r: usize)
        ensures
            r == self.received().len(),
    {
        self.log.len()
    }

    /// Whether the mock has been asked to stop.
    pub fn stopped(&self) -> (r: bool)
        ensures
            r == (self.stop_results().len() > 0),
    {
        self.stops.len() > 0
    }
}

impl<M: Clone> NetWorker<M> for MockWorker<M> {
    closed spec fn received(&self) -> Seq<M> {
        self.log@
    }

    closed spec fn refusals(&self) -> nat {
        self.refused@
    }

    closed spec fn ticks(&self) -> Seq<Result<Option<M>, NetError>> {
        self.ticked@
    }

    closed spec fn stop_results(&self) -> Seq<Result<(), NetError>> {
        self.stops@
    }

    open spec fn kind(&self) -> P2pBackendKind {
        P2pBackendKind::MOCK
    }

    closed spec fn config(&self) -> Seq<char> {
        self.endpoint@
    }

    closed spec fn spec_endpoint(&self) -> Seq<char> {
        self.endpoint@
    }

    open spec fn stops_cleanly(&self) -> bool {
        true
    }

    open spec fn can_construct(kind: P2pBackendKind, config: Seq<char>) -> bool {
        kind == P2pBackendKind::MOCK
    }

    fn construct(kind: P2pBackendKind, config: &str) -> (r: Result<Self, NetError>) {
        match kind {
            P2pBackendKind::MOCK => {
                let w = MockWorker {
                    log: Vec::new(),
                    echo: Vec::new(),
                    endpoint: String::from_str(config),
                    stops: Vec::new(),
                    refused: Ghost(0),
                    ticked: Ghost(Seq::empty()),
                };
                assert(w.log@ =~= Seq::<M>::empty());
                assert(w.stops@ =~= Seq::<Result<(), NetError>>::empty());
                Ok(w)
            },
            P2pBackendKind::IPC => Err(NetError::UnknownBackendKind),
        }
    }

    fn receive(&mut self, message: M) -> (r: Result<(), NetError>) {
        if self.stops.len() > 0 {
            self.log.push(message);
            self.refused = Ghost(self.refused@ + 1);
            Err(NetError::BackendOperationFailed)
        } else {
            self.echo.push(message.clone());
            self.log.push(message);
            Ok(())
        }
    }

    fn tick(&mut self) -> (r: Result<Option<M>, NetError>) {
        let r = if self.stops.len() > 0 {
            Err(NetError::BackendOperationFailed)
        } else if self.echo.len() > 0 {
            Ok(Some(self.echo.remove(0)))
        } else {
            Ok(None)
        };
        self.ticked = Ghost(self.ticked@.push(r));
        r
    }

    fn stop(&mut self) -> (r: Result<(), NetError>) {
        self.stops.push(Ok(()));
        Ok(())
    }

    fn endpoint(&self) -> (r: String) {
        self.endpoint.clone()
    }
}

} // verus!
