//! The cell: one application run by one agent, with its environment.
//!
//! A cell has no life of its own. It binds a cell id to the environment of
//! that cell and to the conductor that manages it, and every piece of work
//! done on its behalf is a workflow that is handed these.

use crate::cell_id::CellId;
use crate::env::{open_result, DbConnection, EnvironmentRead, EnvironmentView, KeystoreSender};
use crate::error::{CellError, CellResult, DatabaseError, DatabaseResult};
use crate::hash::{AgentPubKey, DnaHash};
use crate::kind::{storage_path_of, KindView};
use crate::nucleus::{
    WorkflowCall, ZomeInvocation, ZomeInvocationResponse, ZomeInvocationResult,
};
use crate::registry::{Registry, RegistryView};
use crate::workflow::{conclusion, ended, WorkflowRunner};
use crate::zome_api::{NetRequester, Ribosome};
use crate::bundle::BundleView;
use crate::chain::EntryView;
use vstd::prelude::*;
use vstd::std_specs::cmp::PartialEqSpecImpl;

verus! {

/// The handle of the conductor that manages a cell. The engine hands it on
/// and never looks inside.
#[derive(Clone, Copy, Debug, PartialEq, Eq, Structural)]
pub struct ConductorHandle {
    pub id: u64,
}

/// The part of a conductor that one cell may call.
#[derive(Debug)]
pub struct CellConductorApi {
    conductor_handle: ConductorHandle,
    cell_id: CellId,
}

impl CellConductorApi {
    pub closed spec fn spec_conductor(&self) -> ConductorHandle {
        self.conductor_handle
    }

    pub closed spec fn spec_cell_id(&self) -> (Seq<u8>, Seq<u8>) {
        self.cell_id@
    }

    pub fn new(conductor_handle: ConductorHandle, cell_id: CellId) -> (r: CellConductorApi)
        ensures
            r.spec_conductor() == conductor_handle,
            r.spec_cell_id() == cell_id@,
    {
        CellConductorApi { conductor_handle, cell_id }
    }

    pub fn conductor_handle(&self) -> (r: ConductorHandle)
        ensures
            r == self.spec_conductor(),
    {
        self.conductor_handle
    }

    pub fn cell_id(&self) -> (r: &CellId)
        ensures
            r@ == self.spec_cell_id(),
    {
        &self.cell_id
    }
}

impl Clone for CellConductorApi {
    fn clone(&self) -> (r: Self)
        ensures
            r.spec_conductor() == self.spec_conductor(),
            r.spec_cell_id() == self.spec_cell_id(),
    {
        CellConductorApi { conductor_handle: self.conductor_handle, cell_id: self.cell_id.clone() }
    }
}

/// The maintenance that a conductor may ask of a cell, on a schedule or on a
/// cue. It is not tied to any request from outside.
#[derive(Clone, Copy, Debug, PartialEq, Eq, Structural)]
pub enum AutonomicProcess {
    /// The slow repair of what the cell holds.
    SlowHeal,
    /// The periodic check that the cell is well.
    HealthCheck,
}

/// A piece of maintenance that is due: which process, and the environment
/// that it is to run on.
#[derive(Debug)]
pub struct AutonomicTask {
    pub process: AutonomicProcess,
    pub env: EnvironmentRead,
}

/// The resources of one cell: its id, its conductor and its environment.
#[derive(Debug)]
pub struct Cell {
    id: CellId,
    conductor_api: CellConductorApi,
    state_env: EnvironmentRead,
}

/// What making a cell yields: the cell, and the storage instance of its
/// environment where this call created it.
#[derive(Debug)]
pub struct CellOpened {
    pub cell: Cell,
    pub created: Option<DbConnection>,
}

/// What making the cell `id` below `root` yields, for each state of the
/// registry and of the directory.
pub open spec fn create_result(
    before: RegistryView,
    root: Seq<char>,
    id: (Seq<u8>, Seq<u8>),
    conductor: ConductorHandle,
    keystore: KeystoreSender,
    dir_ready: bool,
    after: RegistryView,
    r: CellResult<CellOpened>,
) -> bool {
    let path = storage_path_of(root, KindView::Cell(id));
    if !dir_ready {
        &&& r matches Err(CellError::StorageUnavailable(DatabaseError::EnvironmentMissing(p)))
        &&& p@ == path
        &&& after == before
    } else if !before.can_open(path) {
        &&& r == Err::<CellOpened, CellError>(
            CellError::StorageUnavailable(DatabaseError::HandlesExhausted),
        )
        &&& after == before
    } else {
        &&& after == before.open(path)
        &&& r matches Ok(opened)
        &&& opened.cell.spec_id() == id
        &&& opened.cell.spec_conductor() == conductor
        &&& opened.cell.spec_env() == (EnvironmentView {
            path,
            kind: KindView::Cell(id),
            keystore,
            handle: before.registration(path).handle,
        })
        &&& match opened.created {
            Some(conn) => before.registration(path).fresh && conn.env() == opened.cell.spec_env()
                && conn@ == Seq::<EntryView>::empty(),
            None => !before.registration(path).fresh,
        }
    }
}

impl Cell {
    #[verifier::type_invariant]
    spec fn inv(self) -> bool {
        &&& self.state_env@.kind == KindView::Cell(self.id@)
        &&& self.conductor_api.spec_cell_id() == self.id@
    }

    /// The id of the cell.
    pub closed spec fn spec_id(&self) -> (Seq<u8>, Seq<u8>) {
        self.id@
    }

    /// The conductor that manages the cell.
    pub closed spec fn spec_conductor(&self) -> ConductorHandle {
        self.conductor_api.spec_conductor()
    }

    /// The environment of the cell.
    pub closed spec fn spec_env(&self) -> EnvironmentView {
        self.state_env@
    }

    /// Makes the cell `id`: opens its environment below `env_path`, or
    /// attaches to it where it is open already. Fails where the environment
    /// cannot be opened.
    pub fn create(
        id: CellId,
        conductor_handle: ConductorHandle,
        env_path: &str,
        keystore: KeystoreSender,
        registry: &mut Registry,
        dir_ready: bool,
    ) -> (r: CellResult<CellOpened>)
        ensures
            create_result(
                old(registry)@,
                env_path@,
                id@,
                conductor_handle,
                keystore,
                dir_ready,
                final(registry)@,
                r,
            ),
            dir_ready ==> old(registry)@.wf() && final(registry)@.wf(),
    {
        let conductor_api = CellConductorApi::new(conductor_handle, id.clone());
        match DbConnection::new_cell(registry, env_path, id.clone(), keystore, dir_ready) {
            Ok(opened) => {
                let cell = Cell { id, conductor_api, state_env: opened.env };
                Ok(CellOpened { cell, created: opened.created })
            },
            Err(error) => Err(CellError::StorageUnavailable(error)),
        }
    }

    /// The id of the cell.
    pub fn id(&self) -> (r: &CellId)
        ensures
            r@ == self.spec_id(),
    {
        &self.id
    }

    /// The hash of the application that the cell runs.
    pub fn dna_hash(&self) -> (r: &DnaHash)
        ensures
            r@ == self.spec_id().0,
    {
        self.id.dna_hash()
    }

    /// The key of the agent that the cell runs for.
    pub fn agent_pubkey(&self) -> (r: &AgentPubKey)
        ensures
            r@ == self.spec_id().1,
    {
        self.id.agent_pubkey()
    }

    /// The environment of the cell: always the one of the kind `Cell` with
    /// the id of this cell.
    pub fn state_env(&self) -> (r: &EnvironmentRead)
        ensures
            r@ == self.spec_env(),
            r@.kind == KindView::Cell(self.spec_id()),
    {
        proof {
            use_type_invariant(self);
        }
        &self.state_env
    }

    /// The part of the conductor that this cell may call.
    pub fn get_conductor_api(&self) -> (r: CellConductorApi)
        ensures
            r.spec_conductor() == self.spec_conductor(),
            r.spec_cell_id() == self.spec_id(),
    {
        proof {
            use_type_invariant(self);
        }
        self.conductor_api.clone()
    }

    /// Called by the conductor when it is time for some maintenance. Says
    /// what is to run, and on which environment: always the cell's own. The
    /// cell is only read, so that maintenance never holds up an invocation.
    pub fn handle_autonomic_process(&self, process: AutonomicProcess) -> (r: AutonomicTask)
        ensures
            r.process == process,
            r.env@ == self.spec_env(),
    {
        match process {
            AutonomicProcess::SlowHeal => AutonomicTask {
                process: AutonomicProcess::SlowHeal,
                env: self.state_env.clone(),
            },
            AutonomicProcess::HealthCheck => AutonomicTask {
                process: AutonomicProcess::HealthCheck,
                env: self.state_env.clone(),
            },
        }
    }

    /// Runs a zome function on this cell. This is the one way in which the
    /// chain of the cell changes. `env` is the storage instance of the
    /// cell's environment.
    pub fn invoke_zome<G: Ribosome, N: NetRequester>(
        &self,
        env: &mut DbConnection,
        ribosome: &G,
        net: N,
        invocation: ZomeInvocation,
    ) -> (r: ZomeInvocationResponse)
        requires
            old(env).env().handle == self.spec_env().handle,
        ensures
            exists|bundle: BundleView, outcome: ZomeInvocationResult|
                conclusion(old(env)@, bundle, outcome).2.spec_is_final() && (final(env)@, r)
                    == #[trigger] ended(conclusion(old(env)@, bundle, outcome)),
            r is Error ==> final(env)@ == old(env)@,
            r is ZomeApiFn ==> exists|staged: Seq<EntryView>| final(env)@ == old(env)@ + staged,
            final(env).env() == old(env).env(),
    {
        let runner = WorkflowRunner::new(self);
        let call = WorkflowCall::InvokeZome(invocation);
        runner.run_workflow(env, ribosome, net, call)
    }
}

impl PartialEq for Cell {
    fn eq(&self, other: &Self) -> (r: bool) {
        self.id == other.id
    }
}

impl Eq for Cell {

}

impl PartialEqSpecImpl for Cell {
    open spec fn obeys_eq_spec() -> bool {
        true
    }

    /// Two cells are equal when their ids are, whatever else they hold.
    open spec fn eq_spec(&self, other: &Self) -> bool {
        self.spec_id() == other.spec_id()
    }
}

} // verus!
