use vstd::prelude::*;

use crate::error::NetError;

verus! {

/// Which backend implementation a connection hosts.
#[derive(Debug, Clone, Copy, PartialEq, Eq, Structural)]
pub enum P2pBackendKind {
    /// A backend reached over a socket or IPC channel.
    IPC,
    /// An in-process simulated backend.
    MOCK,
}

/// The tag that names the socket/IPC backend kind.
pub open spec fn ipc_tag() -> Seq<char> {
    seq!['I', 'P', 'C']
}

/// The tag that names the in-process mock backend kind.
pub open spec fn mock_tag() -> Seq<char> {
    seq!['M', 'O', 'C', 'K']
}

/// The backend kind that a tag names, if it is registered.
pub open spec fn kind_of_tag(tag: Seq<char>) -> Option<P2pBackendKind> {
    if tag == ipc_tag() {
        Some(P2pBackendKind::IPC)
    } else if tag == mock_tag() {
        Some(P2pBackendKind::MOCK)
    } else {
        None
    }
}

/// Whether two strings hold the same characters.
fn same_chars(a: &str, b: &str) -> (r: bool)
    ensures
        r == (a@ == b@),
{
    let n = a.unicode_len();
    if n != b.unicode_len() {
        return false;
    }
    let mut i: usize = 0;
    while i < n
        invariant
            n == a@.len(),
            n == b@.len(),
            i <= n,
            forall|j: int| 0 <= j < i ==> a@[j] == b@[j],
        decreases n - i,
    {
        if a.get_char(i) != b.get_char(i) {
            return false;
        }
        i = i + 1;
    }
    assert(a@ =~= b@);
    true
}

impl P2pBackendKind {
    /// The tag of this backend kind.
    pub open spec fn spec_tag(self) -> Seq<char> {
        match self {
            P2pBackendKind::IPC => ipc_tag(),
            P2pBackendKind::MOCK => mock_tag(),
        }
    }

    /// Every backend kind is registered under its own tag, and the
    /// registered tags are exactly the tags of the kinds.
    pub proof fn lemma_tag_round_trip(self, tag: Seq<char>)
        ensures
            kind_of_tag(self.spec_tag()) == Some(self),
            kind_of_tag(tag) == Some(self) <==> tag == self.spec_tag(),
    {
        assert(ipc_tag() != mock_tag()) by {
            assert(ipc_tag().len() != mock_tag().len());
        }
    }

    /// Resolves a backend-kind tag; an unregistered tag is refused.
    pub fn from_tag(tag: &str) -> (r: Result<P2pBackendKind, NetError>)
        ensures
            r matches Ok(k) ==> kind_of_tag(tag@) == Some(k),
            r matches Err(e) ==> kind_of_tag(tag@) is None && e == NetError::UnknownBackendKind,
            r is Ok <==> kind_of_tag(tag@) is Some,
    {
        proof {
            reveal_strlit("IPC");
            reveal_strlit("MOCK");
            assert("IPC"@ =~= ipc_tag());
            assert("MOCK"@ =~= mock_tag());
        }
        if same_chars(tag, "IPC") {
            Ok(P2pBackendKind::IPC)
        } else if same_chars(tag, "MOCK") {
            Ok(P2pBackendKind::MOCK)
        } else {
            Err(NetError::UnknownBackendKind)
        }
    }

    /// The tag of this backend kind.
    pub fn tag(&self) -> (r: String)
        ensures
            r@ == self.spec_tag(),
    {
        proof {
            reveal_strlit("IPC");
            reveal_strlit("MOCK");
            assert("IPC"@ =~= ipc_tag());
            assert("MOCK"@ =~= mock_tag());
        }
        match self {
            P2pBackendKind::IPC => String::from_str("IPC"),
            P2pBackendKind::MOCK => String::from_str("MOCK"),
        }
    }
}

/// A connection's configuration: the backend kind and the backend's own
/// configuration, which only the selected backend interprets.
pub struct P2pConfig {
    pub backend_kind: P2pBackendKind,
    pub backend_config: String,
}

impl P2pConfig {
    /// A configuration for the given kind and backend configuration text.
    pub fn new(backend_kind: P2pBackendKind, backend_config: &str) -> (r: P2pConfig)
        ensures
            r.backend_kind == backend_kind,
            r.backend_config@ == backend_config@,
    {
        P2pConfig { backend_kind, backend_config: String::from_str(backend_config) }
    }

    /// A configuration whose kind is given by a tag; an unregistered tag is
    /// refused before anything else is built.
    pub fn from_tag(tag: &str, backend_config: &str) -> (r: Result<P2pConfig, NetError>)
        ensures
            r is Ok <==> kind_of_tag(tag@) is Some,
            r matches Ok(c) ==> Some(c.backend_kind) == kind_of_tag(tag@) && c.backend_config@
                == backend_config@,
            r matches Err(e) ==> e == NetError::UnknownBackendKind,
    {
        match P2pBackendKind::from_tag(tag) {
            Ok(kind) => Ok(P2pConfig::new(kind, backend_config)),
            Err(e) => Err(e),
        }
    }
}

} // verus!
