//! The host surface: what a guest may call back into while it runs.
//!
//! A guest can stage a new chain entry in the bundle of its invocation, read
//! an entry that is committed, and send a request to the network. Each of
//! these is bound to the one invocation in flight: the context holds the
//! bundle of that invocation and a snapshot of the environment of its cell,
//! and reaches nothing else.

use crate::bundle::{BundleView, SourceChainCommitBundle};
use crate::chain::{find_entry, ChainEntry, EntryView};
use crate::env::{DbConnection, ReadManager, Reader};
use crate::error::NetError;
use crate::hash::{AgentPubKey, HeaderHash};
use crate::nucleus::{ZomeId, ZomeInvocation, ZomeInvocationResult};
use vstd::prelude::*;

verus! {

/// Why a call of the host surface failed.
#[derive(Clone, Copy, Debug, PartialEq, Eq, Structural)]
pub enum ZomeApiError {
    /// The network brought no response.
    Network(NetError),
}

pub type ZomeApiResult<T> = Result<T, ZomeApiError>;

/// The capability to send a request to the network and to wait for the
/// response. The engine does not read what is sent or what comes back.
pub trait NetRequester {
    /// Sends `payload` to `target` and waits for at most `timeout_ms`
    /// milliseconds.
    fn request(&self, target: &AgentPubKey, payload: &Vec<u8>, timeout_ms: u64) -> Result<
        Vec<u8>,
        NetError,
    >;
}

/// What a guest is handed of a network request: the response, or the failure
/// of the network as a failure of the call.
pub open spec fn spec_net_outcome(result: Result<Vec<u8>, NetError>) -> ZomeApiResult<Vec<u8>> {
    match result {
        Ok(response) => Ok(response),
        Err(error) => Err(ZomeApiError::Network(error)),
    }
}

pub fn net_outcome(result: Result<Vec<u8>, NetError>) -> (r: ZomeApiResult<Vec<u8>>)
    ensures
        r == spec_net_outcome(result),
{
    match result {
        Ok(response) => Ok(response),
        Err(error) => Err(ZomeApiError::Network(error)),
    }
}

/// Whether a request that is allowed `timeout_ms` milliseconds is sent at
/// all: a request that is given no time has timed out.
pub fn check_timeout(timeout_ms: u64) -> (r: ZomeApiResult<()>)
    ensures
        r == if timeout_ms == 0 {
            Err::<(), ZomeApiError>(ZomeApiError::Network(NetError::Timeout))
        } else {
            Ok::<(), ZomeApiError>(())
        },
{
    if timeout_ms == 0 {
        Err(ZomeApiError::Network(NetError::Timeout))
    } else {
        Ok(())
    }
}

/// The calls that a guest can make while it runs.
pub trait ZomeApi {
    /// The entries staged so far, in order.
    spec fn staged(&self) -> Seq<EntryView>;

    /// The committed chain as the invocation sees it.
    spec fn committed(&self) -> Seq<EntryView>;

    /// Stages a new chain entry behind those staged so far. Returns its
    /// address.
    fn commit_entry(&mut self, entry: ChainEntry) -> (r: HeaderHash)
        ensures
            r@ == entry@.address,
            final(self).staged() == old(self).staged().push(entry@),
            final(self).committed() == old(self).committed(),
    ;

    /// Reads the committed entry under `address`. Entries that are only
    /// staged are not seen.
    fn get_entry(&self, address: &HeaderHash) -> (r: Option<ChainEntry>)
        ensures
            match r {
                Some(entry) => find_entry(self.committed(), address@) == Some(entry@),
                None => find_entry(self.committed(), address@) is None,
            },
    ;

    /// Sends a request to the network and waits for the response, for at
    /// most `timeout_ms` milliseconds. A request that is given no time has
    /// timed out. Whatever comes of the request, what is staged stays
    /// staged.
    fn send(&self, target: &AgentPubKey, payload: &Vec<u8>, timeout_ms: u64) -> (r: ZomeApiResult<
        Vec<u8>,
    >)
        ensures
            timeout_ms == 0 ==> r == Err::<Vec<u8>, ZomeApiError>(
                ZomeApiError::Network(NetError::Timeout),
            ),
    ;
}

/// The context of one invocation: the bundle that the guest fills, the
/// network capability, the zome that runs, and the environment of its cell
/// as it was when the invocation started.
pub struct ZomeEnvironment<'a, N: NetRequester> {
    bundle: SourceChainCommitBundle,
    net_requester: N,
    zome_id: ZomeId,
    env: &'a DbConnection,
    reader: Reader,
}

impl<'a, N: NetRequester> ZomeEnvironment<'a, N> {
    /// The bundle of the invocation.
    pub closed spec fn spec_bundle(&self) -> BundleView {
        self.bundle@
    }

    /// What the invocation sees of the committed chain.
    pub closed spec fn spec_seen(&self) -> Seq<EntryView> {
        self.env.visible_to(self.reader)
    }

    /// The zome that runs.
    pub closed spec fn spec_zome_id(&self) -> ZomeId {
        self.zome_id
    }

    /// A context on `env` as it is now.
    pub fn new(
        bundle: SourceChainCommitBundle,
        net_requester: N,
        zome_id: ZomeId,
        env: &'a DbConnection,
    ) -> (r: Self)
        ensures
            r.spec_bundle() == bundle@,
            r.spec_seen() == env@,
            r.spec_zome_id() == zome_id,
    {
        let reader = env.reader();
        assert(env.visible_to(reader) =~= env@);
        ZomeEnvironment { bundle, net_requester, zome_id, env, reader }
    }

    /// The zome that runs.
    pub fn zome_id(&self) -> (r: &ZomeId)
        ensures
            *r == self.spec_zome_id(),
    {
        &self.zome_id
    }

    /// The bundle as the guest has filled it so far.
    pub fn bundle(&self) -> (r: &SourceChainCommitBundle)
        ensures
            r@ == self.spec_bundle(),
    {
        &self.bundle
    }

    /// Ends the guest's access and gives the bundle back.
    pub fn into_bundle(self) -> (r: SourceChainCommitBundle)
        ensures
            r@ == self.spec_bundle(),
    {
        self.bundle
    }
}

impl<'a, N: NetRequester> ZomeApi for ZomeEnvironment<'a, N> {
    open spec fn staged(&self) -> Seq<EntryView> {
        self.spec_bundle().entries
    }

    open spec fn committed(&self) -> Seq<EntryView> {
        self.spec_seen()
    }

    fn commit_entry(&mut self, entry: ChainEntry) -> (r: HeaderHash)
        ensures
            final(self).spec_bundle().captured_head == old(self).spec_bundle().captured_head,
            final(self).spec_zome_id() == old(self).spec_zome_id(),
    {
        let address = entry.address().clone();
        self.bundle.stage(entry);
        address
    }

    fn get_entry(&self, address: &HeaderHash) -> (r: Option<ChainEntry>) {
        match self.env.get_entry(&self.reader, address) {
            Some(entry) => Some(entry.clone()),
            None => None,
        }
    }

    fn send(&self, target: &AgentPubKey, payload: &Vec<u8>, timeout_ms: u64) -> (r: ZomeApiResult<
        Vec<u8>,
    >) {
        match check_timeout(timeout_ms) {
            Ok(()) => net_outcome(self.net_requester.request(target, payload, timeout_ms)),
            Err(error) => Err(error),
        }
    }
}

/// The capability to run a zome function: the sandboxed guest. The engine
/// hands it an invocation and the host surface, and takes what it returns.
pub trait Ribosome {
    /// Runs the function that `invocation` names. While it runs, the guest
    /// may call back into `host`.
    fn call_zome_function<N: NetRequester>(
        &self,
        invocation: &ZomeInvocation,
        host: &mut ZomeEnvironment<'_, N>,
    ) -> ZomeInvocationResult;
}

} // verus!
