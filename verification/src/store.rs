//! The remote-store client model: the request kinds this core sends to the
//! content-addressable store, the typed responses it expects back, and the
//! translation of transport-level failures into this crate's errors.
//!
//! The store contract guarantees that the response variant matches the
//! request kind; a mismatch is an internal-consistency fault of the host,
//! never to be swallowed silently.

use vstd::prelude::*;

use crate::errors::Error;

verus! {

/// The wall-clock deadline, in milliseconds, enforced on every call to the
/// remote store.
pub const DEFAULT_REQUEST_DEADLINE_MS: u64 = 5_000;

/// A request to the remote content-addressable store.  Addresses and content
/// ids travel as raw bytes.
pub enum RequestKind {
    /// Ask the store for this node's own public key and multiaddresses.
    Identity,
    /// Connect to the peer at the given multiaddress.
    Connect(Vec<u8>),
    /// Disconnect from the peer at the given multiaddress.
    Disconnect(Vec<u8>),
    /// Fetch the content bytes stored under the given content id.
    CatBytes(Vec<u8>),
    /// Publish the given bytes, obtaining a new content id for them.
    AddBytes(Vec<u8>),
    /// Ask for the list of currently connected peers.
    Peers,
}

/// The abstract value of a request.
pub enum RequestKindView {
    Identity,
    Connect(Seq<u8>),
    Disconnect(Seq<u8>),
    CatBytes(Seq<u8>),
    AddBytes(Seq<u8>),
    Peers,
}

impl View for RequestKind {
    type V = RequestKindView;

    open spec fn view(&self) -> RequestKindView {
        match self {
            RequestKind::Identity => RequestKindView::Identity,
            RequestKind::Connect(addr) => RequestKindView::Connect(addr@),
            RequestKind::Disconnect(addr) => RequestKindView::Disconnect(addr@),
            RequestKind::CatBytes(cid) => RequestKindView::CatBytes(cid@),
            RequestKind::AddBytes(data) => RequestKindView::AddBytes(data@),
            RequestKind::Peers => RequestKindView::Peers,
        }
    }
}

/// A typed response from the remote store.
pub enum Response {
    /// This node's public key and its multiaddresses.
    Identity(Vec<u8>, Vec<Vec<u8>>),
    /// The request succeeded and carries no further payload.
    Success,
    /// The content bytes that were fetched.
    CatBytes(Vec<u8>),
    /// The content id under which the bytes were published.
    AddBytes(Vec<u8>),
    /// The multiaddresses of the currently connected peers.
    Peers(Vec<Vec<u8>>),
}

/// The abstract value of a response.
pub enum ResponseView {
    Identity(Seq<u8>, Seq<Seq<u8>>),
    Success,
    CatBytes(Seq<u8>),
    AddBytes(Seq<u8>),
    Peers(Seq<Seq<u8>>),
}

impl View for Response {
    type V = ResponseView;

    open spec fn view(&self) -> ResponseView {
        match self {
            Response::Identity(pk, addrs) => ResponseView::Identity(pk@, addrs.deep_view()),
            Response::Success => ResponseView::Success,
            Response::CatBytes(data) => ResponseView::CatBytes(data@),
            Response::AddBytes(cid) => ResponseView::AddBytes(cid@),
            Response::Peers(peers) => ResponseView::Peers(peers.deep_view()),
        }
    }
}

/// The response variant each request kind is owed by the store contract.
pub open spec fn response_matches(kind: RequestKindView, resp: ResponseView) -> bool {
    match kind {
        RequestKindView::Identity => resp is Identity,
        RequestKindView::Connect(_) => resp is Success,
        RequestKindView::Disconnect(_) => resp is Success,
        RequestKindView::CatBytes(_) => resp is CatBytes,
        RequestKindView::AddBytes(_) => resp is AddBytes,
        RequestKindView::Peers => resp is Peers,
    }
}

/// Checks that a response is of the variant owed to the request that was
/// sent.  A `false` here is an internal-consistency fault of the host.
pub fn check_response(kind: &RequestKind, resp: &Response) -> (b: bool)
    ensures
        b == response_matches(kind@, resp@),
{
    match kind {
        RequestKind::Identity => matches!(resp, Response::Identity(_, _)),
        RequestKind::Connect(_) => matches!(resp, Response::Success),
        RequestKind::Disconnect(_) => matches!(resp, Response::Success),
        RequestKind::CatBytes(_) => matches!(resp, Response::CatBytes(_)),
        RequestKind::AddBytes(_) => matches!(resp, Response::AddBytes(_)),
        RequestKind::Peers => matches!(resp, Response::Peers(_)),
    }
}

/// What the host observed when it carried a store request out.
pub enum RequestOutcome {
    /// The bounded-lifetime request could not be constructed.
    CouldNotBuild,
    /// No response arrived before the deadline.
    TimedOut,
    /// The transport or the store reported an error.
    TransportFailed,
    /// A response arrived in time.
    Responded(Response),
}

/// Translates what the host observed into the client's typed result:
/// a response passes through, and each failure shape maps to its error.
pub fn classify_outcome(outcome: RequestOutcome) -> (r: Result<Response, Error>)
    ensures
        outcome is CouldNotBuild ==> r == Err::<Response, Error>(Error::RequestConstructionFailed),
        outcome is TimedOut ==> r == Err::<Response, Error>(Error::RequestTimedOut),
        outcome is TransportFailed ==> r == Err::<Response, Error>(Error::RequestFailed),
        outcome matches RequestOutcome::Responded(resp) ==> r == Ok::<Response, Error>(resp),
{
    match outcome {
        RequestOutcome::CouldNotBuild => Err(Error::RequestConstructionFailed),
        RequestOutcome::TimedOut => Err(Error::RequestTimedOut),
        RequestOutcome::TransportFailed => Err(Error::RequestFailed),
        RequestOutcome::Responded(resp) => Ok(resp),
    }
}

/// The peer count reported by a metadata probe: the length of the peer list
/// for a `Peers` response, nothing for any other variant (which the probe
/// must treat as an internal-consistency fault).
pub fn count_peers(resp: &Response) -> (r: Option<usize>)
    ensures
        resp is Peers ==> (r matches Some(n) && n as nat == resp@->Peers_0.len()),
        !(resp is Peers) ==> r is None,
{
    match resp {
        Response::Peers(peers) => Some(peers.len()),
        _ => None,
    }
}

/// The bytes handed back for a local read-back query: the stored value under
/// the requested key, or empty bytes where nothing is stored.  The caller's
/// signature accompanies such a query but is not verified anywhere in this
/// design; that verification is a required hardening step for the host, noted
/// here so it is not mistaken for intent.
pub fn retrieve_bytes(stored: Option<Vec<u8>>) -> (r: Vec<u8>)
    ensures
        stored matches Some(data) ==> r@ == data@,
        stored is None ==> r@.len() == 0,
{
    match stored {
        Some(data) => data,
        None => Vec::new(),
    }
}

/// An owned copy of a byte string.
pub(crate) fn clone_bytes(v: &Vec<u8>) -> (r: Vec<u8>)
    ensures
        r@ == v@,
{
    let mut out: Vec<u8> = Vec::new();
    let mut i: usize = 0;
    while i < v.len()
        invariant
            i <= v.len(),
            out@ == v@.take(i as int),
        decreases v.len() - i,
    {
        proof {
            assert(v@.take(i as int + 1) =~= v@.take(i as int).push(v@[i as int]));
        }
        out.push(v[i]);
        i = i + 1;
    }
    proof {
        assert(v@.take(v@.len() as int) =~= v@);
    }
    out
}

} // verus!
