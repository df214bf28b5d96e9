//! The workflow runner: one invocation, from the captured head to the commit.
//!
//! An invocation passes through `Started`, `Executing` and then either
//! `Committing` and `Committed`, or `Aborted`. The head of the chain is
//! captured at the start. The guest then runs and stages entries in a commit
//! bundle. If the guest fails, the bundle is dropped and the chain is not
//! touched. If it succeeds, the bundle is committed in one write transaction,
//! which first checks that the head is still the captured one: a commit on a
//! head that has moved on fails as stale, and is not tried again.

use crate::bundle::{BundleView, SourceChainCommitBundle};
use crate::chain::{chain_head, snapshot, EntryView};
use crate::env::{commit_outcome, fresh_writer, DbConnection, ReadManager, WriteManager, Writer};
use crate::error::{spec_workflow_error, GuestError, WorkflowError};
use crate::hash::HeaderHash;
use crate::cell::Cell;
use crate::nucleus::{
    GuestOutput, WorkflowCall, ZomeInvocationResponse, ZomeInvocationResult,
};
use crate::registry::StorageHandle;
use crate::zome_api::{NetRequester, Ribosome, ZomeEnvironment};
use vstd::prelude::*;

verus! {

/// Where an invocation stands.
#[derive(Clone, Copy, Debug, PartialEq, Eq, Structural)]
pub enum WorkflowState {
    /// The head of the chain is being captured.
    Started,
    /// The guest runs.
    Executing,
    /// The guest succeeded and the bundle is being committed.
    Committing,
    /// The bundle is part of the chain. Final.
    Committed,
    /// Nothing was written. Final.
    Aborted,
}

/// What moves an invocation on.
#[derive(Clone, Copy, Debug, PartialEq, Eq, Structural)]
pub enum WorkflowEvent {
    HeadCaptured,
    GuestSucceeded,
    GuestFailed,
    HeadStale,
    Persisted,
}

/// The state that follows on an event, where the event is due in the state.
pub open spec fn spec_step(state: WorkflowState, event: WorkflowEvent) -> Option<WorkflowState> {
    match (state, event) {
        (WorkflowState::Started, WorkflowEvent::HeadCaptured) => Some(WorkflowState::Executing),
        (WorkflowState::Executing, WorkflowEvent::GuestSucceeded) => Some(
            WorkflowState::Committing,
        ),
        (WorkflowState::Executing, WorkflowEvent::GuestFailed) => Some(WorkflowState::Aborted),
        (WorkflowState::Committing, WorkflowEvent::Persisted) => Some(WorkflowState::Committed),
        (WorkflowState::Committing, WorkflowEvent::HeadStale) => Some(WorkflowState::Aborted),
        _ => None,
    }
}

/// The chain after a bundle was offered to it: the staged entries are
/// appended, in their order, if the bundle was made on the head that the
/// chain has now; a bundle made on another head is rejected as stale.
pub open spec fn bundle_commit(chain: Seq<EntryView>, bundle: BundleView) -> Result<
    Seq<EntryView>,
    WorkflowError,
> {
    if bundle.captured_head == chain_head(chain) {
        Ok(chain + bundle.entries)
    } else {
        Err(WorkflowError::StaleHead)
    }
}

/// How an invocation ends, given the chain at its end, the bundle that the
/// guest filled and what the guest returned: the chain afterwards, the
/// response, and the final state.
pub open spec fn conclusion(
    chain: Seq<EntryView>,
    bundle: BundleView,
    outcome: ZomeInvocationResult,
) -> (Seq<EntryView>, ZomeInvocationResponse, WorkflowState) {
    match outcome {
        Err(error) => (
            chain,
            ZomeInvocationResponse::Error(spec_workflow_error(error)),
            WorkflowState::Aborted,
        ),
        Ok(output) => match bundle_commit(chain, bundle) {
            Ok(extended) => (extended, ZomeInvocationResponse::ZomeApiFn(output), WorkflowState::Committed),
            Err(error) => (chain, ZomeInvocationResponse::Error(error), WorkflowState::Aborted),
        },
    }
}

impl WorkflowState {
    /// Whether the invocation is over.
    pub open spec fn spec_is_final(self) -> bool {
        self == WorkflowState::Committed || self == WorkflowState::Aborted
    }

    pub fn is_final(self) -> (r: bool)
        ensures
            r == self.spec_is_final(),
    {
        match self {
            WorkflowState::Committed => true,
            WorkflowState::Aborted => true,
            _ => false,
        }
    }

    /// Moves on with an event, if the event is due in this state.
    pub fn step(self, event: WorkflowEvent) -> (r: Option<WorkflowState>)
        ensures
            r == spec_step(self, event),
    {
        match (self, event) {
            (WorkflowState::Started, WorkflowEvent::HeadCaptured) => Some(
                WorkflowState::Executing,
            ),
            (WorkflowState::Executing, WorkflowEvent::GuestSucceeded) => Some(
                WorkflowState::Committing,
            ),
            (WorkflowState::Executing, WorkflowEvent::GuestFailed) => Some(WorkflowState::Aborted),
            (WorkflowState::Committing, WorkflowEvent::Persisted) => Some(
                WorkflowState::Committed,
            ),
            (WorkflowState::Committing, WorkflowEvent::HeadStale) => Some(WorkflowState::Aborted),
            _ => None,
        }
    }
}

/// Whether two optional addresses are the same.
pub fn same_head(a: Option<&HeaderHash>, b: Option<&HeaderHash>) -> (r: bool)
    ensures
        r == (match (a, b) {
            (Some(x), Some(y)) => x@ == y@,
            (None, None) => true,
            _ => false,
        }),
{
    match (a, b) {
        (Some(x), Some(y)) => *x == *y,
        (None, None) => true,
        _ => false,
    }
}

/// What a write transaction does with a bundle: it stages the entries of the
/// bundle if the bundle was made on the head that the transaction sees, and
/// fails as stale otherwise.
pub fn commit_step(writer: Writer, bundle: SourceChainCommitBundle) -> (r: (
    Writer,
    Result<(), WorkflowError>,
))
    ensures
        r.0@.base_head == writer@.base_head,
        bundle@.captured_head == writer@.head() ==> r.1 is Ok && r.0@.staged == writer@.staged
            + bundle@.entries,
        bundle@.captured_head != writer@.head() ==> r.1 == Err::<(), WorkflowError>(
            WorkflowError::StaleHead,
        ) && r.0@.staged == writer@.staged,
{
    let mut writer = writer;
    if same_head(writer.head(), bundle.captured_head()) {
        let (_, entries) = bundle.into_parts();
        writer.put_all(entries);
        (writer, Ok(()))
    } else {
        (writer, Err(WorkflowError::StaleHead))
    }
}

/// Commits a bundle to the chain of `env`, in one write transaction. The
/// entries become part of the chain, in their order, if the bundle was made
/// on the head that the chain has now. Otherwise the commit fails as stale
/// and the chain stays as it is.
pub fn commit_bundle(env: &mut DbConnection, bundle: SourceChainCommitBundle) -> (r: Result<
    (),
    WorkflowError,
>)
    ensures
        match bundle_commit(old(env)@, bundle@) {
            Ok(extended) => r is Ok && final(env)@ == extended,
            Err(error) => r == Err::<(), WorkflowError>(error) && final(env)@ == old(env)@,
        },
        final(env).env() == old(env).env(),
{
    let ghost staged = bundle@;
    let step = |writer: Writer| -> (out: (Writer, Result<(), WorkflowError>))
        ensures
            staged.captured_head == writer@.head() ==> out.1 is Ok && out.0@.staged
                == writer@.staged + staged.entries,
            staged.captured_head != writer@.head() ==> out.1 == Err::<(), WorkflowError>(
                WorkflowError::StaleHead,
            ),
        { commit_step(writer, bundle) };
    let r = env.with_commit(step);
    proof {
        assert(fresh_writer(old(env)@).head() == chain_head(old(env)@));
        if staged.captured_head == chain_head(old(env)@) {
            assert(Seq::<EntryView>::empty() + staged.entries =~= staged.entries);
        }
    }
    r
}

/// The runner of one workflow against one cell.
#[derive(Debug)]
pub struct WorkflowRunner {
    handle: StorageHandle,
    state: WorkflowState,
}

impl WorkflowRunner {
    /// The state that the invocation is in.
    pub closed spec fn spec_state(&self) -> WorkflowState {
        self.state
    }

    /// The storage instance that the invocation runs against.
    pub closed spec fn spec_handle(&self) -> StorageHandle {
        self.handle
    }

    /// A runner for one workflow on `cell`.
    pub fn new(cell: &Cell) -> (r: WorkflowRunner)
        ensures
            r.spec_state() == WorkflowState::Started,
            r.spec_handle() == cell.spec_env().handle,
    {
        WorkflowRunner { handle: cell.state_env().handle(), state: WorkflowState::Started }
    }

    pub fn state(&self) -> (r: WorkflowState)
        ensures
            r == self.spec_state(),
    {
        self.state
    }

    pub fn handle(&self) -> (r: StorageHandle)
        ensures
            r == self.spec_handle(),
    {
        self.handle
    }

    /// Captures the head of the chain under a read snapshot and hands out
    /// the empty bundle that the guest is to fill.
    pub fn start(&mut self, env: &DbConnection) -> (r: SourceChainCommitBundle)
        requires
            old(self).spec_state() == WorkflowState::Started,
            old(self).spec_handle() == env.env().handle,
        ensures
            final(self).spec_state() == WorkflowState::Executing,
            final(self).spec_handle() == old(self).spec_handle(),
            r@.captured_head == chain_head(env@),
            r@.entries == Seq::<EntryView>::empty(),
    {
        let reader = env.reader();
        let head = match env.head_at(&reader) {
            Some(h) => Some(h.clone()),
            None => None,
        };
        self.state = WorkflowState::Executing;
        SourceChainCommitBundle::new(head)
    }

    /// Ends the invocation with what the guest returned. A failure of the
    /// guest drops the bundle and leaves the chain untouched. After a
    /// success the bundle is committed, and the output of the guest becomes
    /// the response; if the head has moved on since the bundle was made, the
    /// commit fails as stale and the chain is left as the other commit made
    /// it.
    pub fn finish(
        &mut self,
        env: &mut DbConnection,
        bundle: SourceChainCommitBundle,
        outcome: ZomeInvocationResult,
    ) -> (r: ZomeInvocationResponse)
        requires
            old(self).spec_state() == WorkflowState::Executing,
            old(self).spec_handle() == old(env).env().handle,
        ensures
            (final(env)@, r, final(self).spec_state()) == conclusion(old(env)@, bundle@, outcome),
            final(env).env() == old(env).env(),
            final(self).spec_handle() == old(self).spec_handle(),
    {
        match outcome {
            Err(error) => {
                self.state = WorkflowState::Aborted;
                ZomeInvocationResponse::Error(WorkflowError::from_guest(error))
            },
            Ok(output) => {
                self.state = WorkflowState::Committing;
                match commit_bundle(env, bundle) {
                    Ok(()) => {
                        self.state = WorkflowState::Committed;
                        ZomeInvocationResponse::ZomeApiFn(output)
                    },
                    Err(error) => {
                        self.state = WorkflowState::Aborted;
                        ZomeInvocationResponse::Error(error)
                    },
                }
            },
        }
    }
}

impl WorkflowRunner {
    /// Runs a workflow from its start to its end: captures the head, lets
    /// the guest run with a new bundle, and ends with what the guest
    /// returned. What the guest stages and returns is its own affair; however
    /// it behaves, the invocation ends as `conclusion` says for the bundle
    /// and the outcome that came back: an error response leaves the chain as
    /// it was, and a success appends the bundle and nothing else.
    pub fn run_workflow<G: Ribosome, N: NetRequester>(
        self,
        env: &mut DbConnection,
        ribosome: &G,
        net: N,
        call: WorkflowCall,
    ) -> (r: ZomeInvocationResponse)
        requires
            self.spec_state() == WorkflowState::Started,
            self.spec_handle() == old(env).env().handle,
        ensures
            exists|bundle: BundleView, outcome: ZomeInvocationResult|
                conclusion(old(env)@, bundle, outcome).2.spec_is_final() && (final(env)@, r)
                    == #[trigger] ended(conclusion(old(env)@, bundle, outcome)),
            r is Error ==> final(env)@ == old(env)@,
            r is ZomeApiFn ==> exists|staged: Seq<EntryView>| final(env)@ == old(env)@ + staged,
            final(env).env() == old(env).env(),
    {
        let mut runner = self;
        let bundle = runner.start(env);
        match call {
            WorkflowCall::InvokeZome(invocation) => {
                let mut host = ZomeEnvironment::new(bundle, net, invocation.zome_id(), &*env);
                let outcome = ribosome.call_zome_function(&invocation, &mut host);
                let bundle = host.into_bundle();
                let ghost filled = bundle@;
                let ghost returned = outcome;
                let r = runner.finish(env, bundle, outcome);
                proof {
                    let c = conclusion(old(env)@, filled, returned);
                    assert((env@, r) == ended(c));
                    if r is ZomeApiFn {
                        assert(env@ == old(env)@ + filled.entries);
                    }
                }
                r
            },
        }
    }
}

/// The chain and the response with which an invocation ended.
pub open spec fn ended(conclusion: (Seq<EntryView>, ZomeInvocationResponse, WorkflowState)) -> (
    Seq<EntryView>,
    ZomeInvocationResponse,
) {
    (conclusion.0, conclusion.1)
}

/// An invocation that has ended stays ended, and one that is committed went
/// through the commit: only `Committing` leads to `Committed`.
pub proof fn lemma_final_states(state: WorkflowState, event: WorkflowEvent)
    ensures
        state.spec_is_final() ==> spec_step(state, event) is None,
        spec_step(state, event) == Some(WorkflowState::Committed) ==> state
            == WorkflowState::Committing,
        spec_step(state, event) == Some(WorkflowState::Committing) ==> state
            == WorkflowState::Executing && event == WorkflowEvent::GuestSucceeded,
{
}

/// If the guest fails, nothing that it staged becomes visible: the chain is
/// what it was before the invocation, and so is the head that a new read
/// transaction sees. This holds however many entries were staged.
pub proof fn lemma_failed_guest_commits_nothing(
    chain: Seq<EntryView>,
    bundle: BundleView,
    error: GuestError,
)
    ensures
        conclusion(chain, bundle, Err(error)).0 == chain,
        chain_head(snapshot(conclusion(chain, bundle, Err(error)).0, chain.len()))
            == chain_head(chain),
        conclusion(chain, bundle, Err(error)).1 == ZomeInvocationResponse::Error(spec_workflow_error(error)),
        conclusion(chain, bundle, Err(error)).2 == WorkflowState::Aborted,
{
    assert(snapshot(chain, chain.len()) =~= chain);
}

/// A failure to (de)serialize on the boundary to the guest is answered with
/// a serialization failure, and nothing is written.
pub proof fn lemma_serialization_failure(chain: Seq<EntryView>, bundle: BundleView)
    ensures
        conclusion(chain, bundle, Err(GuestError::Serialization)) == (
            chain,
            ZomeInvocationResponse::Error(WorkflowError::SerializationFailure),
            WorkflowState::Aborted,
        ),
{
}

/// A commit either appends the whole bundle, in order, or changes nothing.
pub proof fn lemma_commit_all_or_nothing(chain: Seq<EntryView>, bundle: BundleView)
    ensures
        match bundle_commit(chain, bundle) {
            Ok(extended) => extended == chain + bundle.entries && snapshot(
                extended,
                chain.len(),
            ) == chain,
            Err(error) => error == WorkflowError::StaleHead && bundle.captured_head != chain_head(
                chain,
            ),
        },
{
    assert(snapshot(chain + bundle.entries, chain.len()) =~= chain);
}

/// If another commit moved the head on after a bundle was made, the commit
/// of that bundle fails as stale, whatever the guest returned, and the chain
/// stays exactly as the other commit left it.
pub proof fn lemma_stale_head_rejected(
    chain: Seq<EntryView>,
    other: Seq<EntryView>,
    bundle: BundleView,
    output: GuestOutput,
)
    requires
        bundle.captured_head == chain_head(chain),
        chain_head(chain + other) != chain_head(chain),
    ensures
        bundle_commit(chain + other, bundle) == Err::<Seq<EntryView>, WorkflowError>(
            WorkflowError::StaleHead,
        ),
        conclusion(chain + other, bundle, Ok(output)) == (
            chain + other,
            ZomeInvocationResponse::Error(WorkflowError::StaleHead),
            WorkflowState::Aborted,
        ),
{
}

/// Of two bundles made on one head, at most one is committed: once the
/// first has moved the head on, the second is rejected.
pub proof fn lemma_one_commit_per_head(chain: Seq<EntryView>, first: BundleView, second: BundleView)
    requires
        first.captured_head == chain_head(chain),
        second.captured_head == chain_head(chain),
        chain_head(chain + first.entries) != chain_head(chain),
    ensures
        bundle_commit(chain, first) == Ok::<Seq<EntryView>, WorkflowError>(chain + first.entries),
        bundle_commit(chain + first.entries, second) == Err::<Seq<EntryView>, WorkflowError>(
            WorkflowError::StaleHead,
        ),
{
}

} // verus!
