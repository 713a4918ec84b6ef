//! Connection establishment: choosing the client variant and reading the
//! native connection response.

use vstd::prelude::*;
use vstd::slice::slice_to_vec;
use vstd::string::StringSliceAdditionalSpecFns;
use vstd::utf8::encode_utf8_decode_utf8;
use crate::error::{ArgumentFault, BridgeError, BridgeErrorView};
use crate::lifecycle::{ClientHandle, Owner, Release, Resource};

verus! {

/// The client variants the native side can construct.
#[derive(Clone, Copy, Debug, PartialEq, Eq, Structural)]
pub enum ClientType {
    /// Blocks the calling thread for every operation.
    Sync,
}

/// The selector string of the synchronous variant.
pub open spec fn sync_selector() -> Seq<char> {
    seq!['s', 'y', 'n', 'c']
}

/// Whether two byte slices hold the same bytes.
fn same_bytes(a: &[u8], b: &[u8]) -> (r: bool)
    ensures
        r == (a@ == b@),
{
    if a.len() != b.len() {
        return false;
    }
    let mut i: usize = 0;
    while i < a.len()
        invariant
            a@.len() == b@.len(),
            i <= a@.len(),
            forall|j: int| 0 <= j < i ==> a@[j] == b@[j],
        decreases a@.len() - i,
    {
        if a[i] != b[i] {
            return false;
        }
        i += 1;
    }
    assert(a@ =~= b@);
    true
}

/// Reads a client-variant selector. Only the exact string `sync` names a
/// variant.
pub fn parse_client_type(selector: &str) -> (r: Option<ClientType>)
    ensures
        r == if selector@ == sync_selector() { Some(ClientType::Sync) } else { None::<ClientType> },
{
    proof {
        reveal_strlit("sync");
        assert("sync"@ =~= sync_selector());
        encode_utf8_decode_utf8(selector@);
        encode_utf8_decode_utf8("sync"@);
    }
    if same_bytes(selector.as_bytes(), "sync".as_bytes()) {
        Some(ClientType::Sync)
    } else {
        None
    }
}

/// The arguments of the native client constructor.
#[derive(Clone, Debug, PartialEq, Eq)]
pub struct CreateCall {
    /// The serialized configuration, passed on as it was given.
    pub config: Vec<u8>,
    /// The variant to construct.
    pub client_type: ClientType,
}

/// The response of the native client constructor, copied out of native
/// memory: the connection pointer, and the error message where the native
/// side wrote one (`None` where its pointer was null).
#[derive(Clone, Debug, PartialEq, Eq)]
pub struct ConnectionResponse {
    pub conn_ptr: usize,
    pub connection_error_message: Option<Vec<u8>>,
}

impl View for ConnectionResponse {
    type V = (usize, Option<Seq<u8>>);

    open spec fn view(&self) -> (usize, Option<Seq<u8>>) {
        (
            self.conn_ptr,
            match self.connection_error_message {
                Some(message) => Some(message@),
                None => None,
            },
        )
    }
}

/// The mathematical content of what the native constructor returned.
pub open spec fn returned_view(returned: Option<ConnectionResponse>) -> Option<
    (usize, Option<Seq<u8>>),
> {
    match returned {
        Some(response) => Some(response@),
        None => None,
    }
}

/// What a construction attempt comes to: the address of the new client, or
/// the failure. No response at all is a connection failure without a
/// message; a response with an error message is a connection failure with
/// that message; any other response gives the connection pointer it holds.
pub open spec fn created(returned: Option<(usize, Option<Seq<u8>>)>) -> Result<
    usize,
    BridgeErrorView,
> {
    match returned {
        None => Err(BridgeErrorView::Connection(None)),
        Some((_, Some(message))) => Err(BridgeErrorView::Connection(Some(message))),
        Some((conn_ptr, None)) => Ok(conn_ptr),
    }
}

/// The mathematical content of a construction outcome.
pub open spec fn creation_view(outcome: Result<ClientHandle, BridgeError>) -> Result<
    usize,
    BridgeErrorView,
> {
    match outcome {
        Ok(handle) => Ok(handle.spec_address()),
        Err(e) => Err(e@),
    }
}

/// First half of `create`: checks the selector and fixes what the native
/// constructor is called with. A selector other than `sync` is turned away
/// here, so that no native call is made for it.
pub fn prepare_create(config: &[u8], client_type: &str) -> (r: Result<CreateCall, BridgeError>)
    ensures
        r is Ok <==> client_type@ == sync_selector(),
        r matches Ok(call) ==> call.config@ == config@ && call.client_type == ClientType::Sync,
        r matches Err(e) ==> e@ == BridgeErrorView::Argument(ArgumentFault::UnsupportedClientType),
{
    match parse_client_type(client_type) {
        Some(variant) => Ok(CreateCall { config: slice_to_vec(config), client_type: variant }),
        None => Err(BridgeError::Argument(ArgumentFault::UnsupportedClientType)),
    }
}

/// Second half of `create`: reads what the native constructor returned.
/// `owner` owns the response allocation; it is released here on every
/// path, after the response has been read, and the release call that is
/// owed for it is handed back beside the outcome.
pub fn conclude_create(owner: &mut Owner, returned: Option<ConnectionResponse>) -> (r: (
    Result<ClientHandle, BridgeError>,
    Option<Release>,
))
    ensures
        creation_view(r.0) == created(returned_view(returned)),
        r.1 == old(owner).owed(),
        *final(owner) == old(owner).after_release(),
{
    let outcome = match returned {
        None => Err(BridgeError::Connection(None)),
        Some(response) => match response.connection_error_message {
            Some(message) => Err(BridgeError::Connection(Some(message))),
            None => Ok(ClientHandle::new(response.conn_ptr)),
        },
    };
    let owed = owner.release();
    (outcome, owed)
}

} // verus!
