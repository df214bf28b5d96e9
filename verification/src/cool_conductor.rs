//! A conductor for tests: started, shut down and started again, with apps
//! installed across conductors and agents.
//!
//! The conductor itself does its work elsewhere. What is decided here is what
//! it is asked to do: which DNAs to install, which cells an app is made of and
//! under which names, whether the conductor runs, and which call is made on
//! behalf of whom.

use crate::cell::ConductorHandle;
use crate::cell_id::CellId;
use crate::config::KitsuneP2pTuningParams;
use crate::env::{EnvironmentRead, EnvironmentView, KeystoreSender};
use crate::hash::{hex_text, Address, AgentPubKey, DnaHash};
use crate::nucleus::{CapSecret, GuestOutput, ZomeInvocation, ZomeInvocationResponse};
use holochain_serialized_bytes::SerializedBytes;
use crate::test_utils::TestEnvironments;
use vstd::prelude::*;
use vstd::string::*;

verus! {

/// How a conductor reaches the network.
#[derive(Clone, Debug, PartialEq, Eq)]
pub enum TransportConfig {
    /// In memory, within one process.
    Mem,
    /// Over QUIC.
    Quic { bind_to: Option<String>, override_host: Option<String>, override_port: Option<u16> },
}

/// The configuration of the p2p network.
#[derive(Clone, Debug, PartialEq)]
pub struct KitsuneP2pConfig {
    pub transport_pool: Vec<TransportConfig>,
    pub tuning_params: KitsuneP2pTuningParams,
}

/// The configuration of a conductor, as far as tests set it.
#[derive(Clone, Debug, PartialEq)]
pub struct ConductorConfig {
    pub network: Option<KitsuneP2pConfig>,
}

/// The configuration that tests use where they name none: the network over
/// QUIC, bound to no address in particular, and default tuning parameters.
pub fn standard_config() -> (r: ConductorConfig)
    ensures
        r.network matches Some(network) && network.transport_pool@ == seq![
            TransportConfig::Quic { bind_to: None, override_host: None, override_port: None },
        ] && network.tuning_params == KitsuneP2pTuningParams::spec_default(),
{
    let mut transport_pool: Vec<TransportConfig> = Vec::new();
    transport_pool.push(
        TransportConfig::Quic { bind_to: None, override_host: None, override_port: None },
    );
    let network = KitsuneP2pConfig {
        transport_pool,
        tuning_params: KitsuneP2pTuningParams::default(),
    };
    assert(network.transport_pool@ =~= seq![
        TransportConfig::Quic { bind_to: None, override_host: None, override_port: None },
    ]);
    ConductorConfig { network: Some(network) }
}

/// A cell as it is installed in an app: its id and the name that the app knows
/// it by.
#[derive(Debug)]
pub struct InstalledCell {
    cell_id: CellId,
    cell_nick: String,
}

/// An installed cell as a plain value.
pub struct InstalledCellView {
    pub cell_id: (Seq<u8>, Seq<u8>),
    pub cell_nick: Seq<char>,
}

impl View for InstalledCell {
    type V = InstalledCellView;

    closed spec fn view(&self) -> InstalledCellView {
        InstalledCellView { cell_id: self.cell_id@, cell_nick: self.cell_nick@ }
    }
}

impl InstalledCell {
    pub fn new(cell_id: CellId, cell_nick: String) -> (r: InstalledCell)
        ensures
            r@ == (InstalledCellView { cell_id: cell_id@, cell_nick: cell_nick@ }),
    {
        InstalledCell { cell_id, cell_nick }
    }

    pub fn as_id(&self) -> (r: &CellId)
        ensures
            r@ == self@.cell_id,
    {
        &self.cell_id
    }

    pub fn as_nick(&self) -> (r: &String)
        ensures
            r@ == self@.cell_nick,
    {
        &self.cell_nick
    }
}

/// A cell of a test app, with its environment.
#[derive(Debug)]
pub struct CoolCell {
    pub cell_id: CellId,
    pub cell_env: EnvironmentRead,
}

impl CoolCell {
    pub fn cell_id(&self) -> (r: &CellId)
        ensures
            r@ == self.cell_id@,
    {
        &self.cell_id
    }

    pub fn env(&self) -> (r: &EnvironmentRead)
        ensures
            r@ == self.cell_env@,
    {
        &self.cell_env
    }
}

/// One zome of a cell of a test app.
#[derive(Debug)]
pub struct CoolZome {
    cell_id: CellId,
    name: String,
}

impl CoolZome {
    pub closed spec fn spec_cell_id(&self) -> (Seq<u8>, Seq<u8>) {
        self.cell_id@
    }

    pub closed spec fn spec_name(&self) -> Seq<char> {
        self.name@
    }

    pub fn new(cell_id: CellId, name: String) -> (r: CoolZome)
        ensures
            r.spec_cell_id() == cell_id@,
            r.spec_name() == name@,
    {
        CoolZome { cell_id, name }
    }

    pub fn cell_id(&self) -> (r: &CellId)
        ensures
            r@ == self.spec_cell_id(),
    {
        &self.cell_id
    }

    pub fn name(&self) -> (r: &String)
        ensures
            r@ == self.spec_name(),
    {
        &self.name
    }
}

/// An app that is installed on a test conductor.
#[derive(Debug)]
pub struct CoolApp {
    installed_app_id: String,
    cells: Vec<CoolCell>,
}

impl CoolApp {
    pub closed spec fn spec_installed_app_id(&self) -> Seq<char> {
        self.installed_app_id@
    }

    pub closed spec fn spec_cells(&self) -> Seq<CoolCell> {
        self.cells@
    }

    pub fn new(installed_app_id: String, cells: Vec<CoolCell>) -> (r: CoolApp)
        ensures
            r.spec_installed_app_id() == installed_app_id@,
            r.spec_cells() == cells@,
    {
        CoolApp { installed_app_id, cells }
    }

    pub fn installed_app_id(&self) -> (r: &String)
        ensures
            r@ == self.spec_installed_app_id(),
    {
        &self.installed_app_id
    }

    pub fn cells(&self) -> (r: &Vec<CoolCell>)
        ensures
            r@ == self.spec_cells(),
    {
        &self.cells
    }
}

/// What is to be done to set up one app: the DNAs to install, in order, the
/// app to install with its cells, and whether to activate it afterwards.
#[derive(Debug)]
pub struct AppSetup {
    pub installed_app_id: String,
    pub dnas: Vec<DnaHash>,
    pub cells: Vec<InstalledCell>,
    pub activate: bool,
}

/// Addresses as plain values, in the same order.
pub open spec fn address_views(addresses: Seq<Address>) -> Seq<Seq<u8>> {
    Seq::new(addresses.len(), |i: int| addresses[i]@)
}

/// Installed cells as plain values, in the same order.
pub open spec fn installed_views(cells: Seq<InstalledCell>) -> Seq<InstalledCellView> {
    Seq::new(cells.len(), |i: int| cells[i]@)
}

/// The cells of an app of one agent: one for each DNA, in the order of the
/// DNAs, each with the id made of its DNA and the agent, and known by the
/// hash of its DNA in hexadecimal.
pub open spec fn planned_cells(agent: Seq<u8>, dnas: Seq<Seq<u8>>) -> Seq<InstalledCellView> {
    Seq::new(
        dnas.len(),
        |i: int| InstalledCellView { cell_id: (dnas[i], agent), cell_nick: hex_text(dnas[i]) },
    )
}

/// The name of the app of one agent among several: the prefix, then the
/// agent's key in hexadecimal.
pub open spec fn agent_app_id(prefix: Seq<char>, agent: Seq<u8>) -> Seq<char> {
    prefix + hex_text(agent)
}

impl AppSetup {
    /// Whether this is the setup of the app `id` of `agent` with `dnas`.
    pub open spec fn is_for(
        &self,
        id: Seq<char>,
        agent: Seq<u8>,
        dnas: Seq<Seq<u8>>,
        activate: bool,
    ) -> bool {
        &&& self.installed_app_id@ == id
        &&& address_views(self.dnas@) == dnas
        &&& installed_views(self.cells@) == planned_cells(agent, dnas)
        &&& self.activate == activate
    }
}

/// The handle of a running test conductor.
#[derive(Clone, Copy, Debug, PartialEq, Eq, Structural)]
pub struct CoolConductorHandle(pub ConductorHandle);

impl CoolConductorHandle {
    /// The call of a zome function by an agent, with a capability or
    /// without. The general form.
    pub fn call_from(
        &self,
        provenance: &AgentPubKey,
        cap: Option<CapSecret>,
        zome: &CoolZome,
        fn_name: &str,
        payload: SerializedBytes,
    ) -> (r: ZomeInvocation)
        ensures
            r.cell_id@ == zome.spec_cell_id(),
            r.zome_name@ == zome.spec_name(),
            r.fn_name@ == fn_name@,
            r.cap == cap,
            r.provenance@ == provenance@,
            r.payload == payload,
    {
        ZomeInvocation {
            cell_id: zome.cell_id().clone(),
            zome_name: zome.name().clone(),
            fn_name: String::from_str(fn_name),
            cap,
            provenance: provenance.clone(),
            payload,
        }
    }

    /// The call of a zome function by the agent of its own cell. The common
    /// form: no capability is needed, since an author may call anything.
    pub fn call(&self, zome: &CoolZome, fn_name: &str, payload: SerializedBytes) -> (r:
        ZomeInvocation)
        ensures
            r.cell_id@ == zome.spec_cell_id(),
            r.zome_name@ == zome.spec_name(),
            r.fn_name@ == fn_name@,
            r.cap is None,
            r.provenance@ == zome.spec_cell_id().1,
            r.payload == payload,
    {
        self.call_from(zome.cell_id().agent_pubkey(), None, zome, fn_name, payload)
    }

    /// The output of a call that succeeded, and nothing for one that
    /// failed.
    pub fn call_inner(response: ZomeInvocationResponse) -> (r: Option<GuestOutput>)
        ensures
            match r {
                Some(output) => response == ZomeInvocationResponse::ZomeApiFn(output),
                None => response is Error,
            },
    {
        match response {
            ZomeInvocationResponse::ZomeApiFn(output) => Some(output),
            ZomeInvocationResponse::Error(_) => None,
        }
    }
}

/// A conductor for tests. It can be shut down and started again, and keeps
/// its environments and the list of its DNAs in between.
#[derive(Debug)]
pub struct CoolConductor {
    handle: Option<CoolConductorHandle>,
    envs: TestEnvironments,
    config: ConductorConfig,
    dnas: Vec<DnaHash>,
}

impl CoolConductor {
    /// The handle under which the conductor runs, if it runs.
    pub closed spec fn spec_handle(&self) -> Option<CoolConductorHandle> {
        self.handle
    }

    /// The DNAs that were installed, in the order of their installation.
    pub closed spec fn spec_dnas(&self) -> Seq<Seq<u8>> {
        address_views(self.dnas@)
    }

    pub closed spec fn spec_envs(&self) -> TestEnvironments {
        self.envs
    }

    pub closed spec fn spec_config(&self) -> ConductorConfig {
        self.config
    }

    /// Whether this is the conductor `before` after the setup of an app
    /// with `dnas`: the DNAs are noted behind those that were, and nothing
    /// else has changed.
    pub open spec fn after_setup(&self, before: CoolConductor, dnas: Seq<Seq<u8>>) -> bool {
        &&& self.spec_dnas() == before.spec_dnas() + dnas
        &&& self.spec_handle() == before.spec_handle()
        &&& self.spec_envs() == before.spec_envs()
        &&& self.spec_config() == before.spec_config()
    }

    /// A test conductor on a conductor that is built and runs.
    pub fn new(handle: ConductorHandle, envs: TestEnvironments, config: ConductorConfig) -> (r:
        CoolConductor)
        ensures
            r.spec_handle() == Some(CoolConductorHandle(handle)),
            r.spec_dnas() == Seq::<Seq<u8>>::empty(),
            r.spec_envs() == envs,
            r.spec_config() == config,
    {
        let r = CoolConductor {
            handle: Some(CoolConductorHandle(handle)),
            envs,
            config,
            dnas: Vec::new(),
        };
        assert(r.spec_dnas() =~= Seq::<Seq<u8>>::empty());
        r
    }

    /// The environments of this conductor.
    pub fn envs(&self) -> (r: &TestEnvironments)
        ensures
            *r == self.spec_envs(),
    {
        &self.envs
    }

    /// The configuration that the conductor was built with.
    pub fn config(&self) -> (r: &ConductorConfig)
        ensures
            *r == self.spec_config(),
    {
        &self.config
    }

    /// The keystore of this conductor.
    pub fn keystore(&self) -> (r: KeystoreSender)
        ensures
            r == self.spec_envs().spec_keystore(),
    {
        self.envs.keystore()
    }

    /// Whether the conductor runs.
    pub fn is_running(&self) -> (r: bool)
        ensures
            r == self.spec_handle() is Some,
    {
        self.handle.is_some()
    }

    /// The handle of the conductor. The conductor runs.
    pub fn handle(&self) -> (r: CoolConductorHandle)
        requires
            self.spec_handle() is Some,
        ensures
            Some(r) == self.spec_handle(),
    {
        match self.handle {
            Some(handle) => handle,
            None => CoolConductorHandle(ConductorHandle { id: 0 }),
        }
    }

    /// The DNAs that were installed, in the order of their installation.
    pub fn dnas(&self) -> (r: &Vec<DnaHash>)
        ensures
            address_views(r@) == self.spec_dnas(),
    {
        &self.dnas
    }

    /// Plans the setup of an app of `agent`: each of the DNAs is to be
    /// installed and is noted, and the app is to be installed with one cell
    /// for each DNA. The conductor runs.
    pub fn setup_app_inner(
        &mut self,
        installed_app_id: &str,
        agent: &AgentPubKey,
        dna_hashes: &Vec<DnaHash>,
        activate: bool,
    ) -> (r: AppSetup)
        requires
            old(self).spec_handle() is Some,
        ensures
            r.is_for(installed_app_id@, agent@, address_views(dna_hashes@), activate),
            final(self).spec_dnas() == old(self).spec_dnas() + address_views(dna_hashes@),
            final(self).spec_handle() == old(self).spec_handle(),
            final(self).spec_envs() == old(self).spec_envs(),
            final(self).spec_config() == old(self).spec_config(),
    {
        let mut dnas: Vec<DnaHash> = Vec::new();
        let mut cells: Vec<InstalledCell> = Vec::new();
        let mut i: usize = 0;
        let ghost before = self.spec_dnas();
        let ghost wanted = address_views(dna_hashes@);
        assert(self.spec_dnas() =~= before + wanted.take(0));
        while i < dna_hashes.len()
            invariant
                i <= dna_hashes@.len(),
                wanted == address_views(dna_hashes@),
                dnas@.len() == i,
                cells@.len() == i,
                address_views(dnas@) == wanted.take(i as int),
                installed_views(cells@) == planned_cells(agent@, wanted.take(i as int)),
                self.spec_dnas() == before + wanted.take(i as int),
                self.spec_handle() == old(self).spec_handle(),
                self.spec_envs() == old(self).spec_envs(),
                self.spec_config() == old(self).spec_config(),
            decreases dna_hashes@.len() - i,
        {
            let dna = &dna_hashes[i];
            let ghost noted = self.dnas@;
            let ghost dnas_before = dnas@;
            let ghost cells_before = cells@;
            self.dnas.push(dna.clone());
            dnas.push(dna.clone());
            let cell_id = CellId::new(dna.clone(), agent.clone());
            cells.push(InstalledCell::new(cell_id, dna.to_hex()));
            proof {
                assert(wanted[i as int] == dna@);
                assert forall|j: int| 0 <= j < i + 1 implies address_views(dnas@)[j]
                    == wanted.take(i + 1)[j] by {
                    if j < i {
                        assert(address_views(dnas_before)[j] == wanted.take(i as int)[j]);
                        assert(dnas@[j] == dnas_before[j]);
                    }
                }
                assert(address_views(dnas@) =~= wanted.take(i + 1));
                assert forall|j: int| 0 <= j < i + 1 implies installed_views(cells@)[j]
                    == planned_cells(agent@, wanted.take(i + 1))[j] by {
                    if j < i {
                        assert(installed_views(cells_before)[j] == planned_cells(
                            agent@,
                            wanted.take(i as int),
                        )[j]);
                        assert(cells@[j] == cells_before[j]);
                    }
                }
                assert(installed_views(cells@) =~= planned_cells(agent@, wanted.take(i + 1)));
                assert(address_views(self.dnas@) =~= address_views(noted).push(dna@));
                assert(self.spec_dnas() =~= before + wanted.take(i + 1));
            }
            i = i + 1;
        }
        assert(wanted.take(i as int) =~= wanted);
        AppSetup { installed_app_id: String::from_str(installed_app_id), dnas, cells, activate }
    }

    /// Plans the setup of an app of `agent`, activated once it is
    /// installed. The conductor runs.
    pub fn setup_app_for_agent(
        &mut self,
        installed_app_id: &str,
        agent: &AgentPubKey,
        dna_hashes: &Vec<DnaHash>,
    ) -> (r: AppSetup)
        requires
            old(self).spec_handle() is Some,
        ensures
            r.is_for(installed_app_id@, agent@, address_views(dna_hashes@), true),
            final(self).spec_dnas() == old(self).spec_dnas() + address_views(dna_hashes@),
            final(self).spec_handle() == old(self).spec_handle(),
            final(self).spec_envs() == old(self).spec_envs(),
            final(self).spec_config() == old(self).spec_config(),
    {
        self.setup_app_inner(installed_app_id, agent, dna_hashes, true)
    }

    /// Plans the setup of one app for each agent, in the order of the
    /// agents. The app of an agent is named by the prefix and the agent's
    /// key. The conductor runs.
    pub fn setup_app_for_agents(
        &mut self,
        app_id_prefix: &str,
        agents: &Vec<AgentPubKey>,
        dna_hashes: &Vec<DnaHash>,
    ) -> (r: Vec<AppSetup>)
        requires
            old(self).spec_handle() is Some,
        ensures
            r@.len() == agents@.len(),
            forall|k: int|
                0 <= k < agents@.len() ==> (#[trigger] r@[k]).is_for(
                    agent_app_id(app_id_prefix@, agents@[k]@),
                    agents@[k]@,
                    address_views(dna_hashes@),
                    true,
                ),
            final(self).spec_dnas() == repeated(
                old(self).spec_dnas(),
                address_views(dna_hashes@),
                agents@.len(),
            ),
            final(self).spec_handle() == old(self).spec_handle(),
            final(self).spec_envs() == old(self).spec_envs(),
            final(self).spec_config() == old(self).spec_config(),
    {
        let mut apps: Vec<AppSetup> = Vec::new();
        let mut k: usize = 0;
        while k < agents.len()
            invariant
                k <= agents@.len(),
                apps@.len() == k,
                forall|j: int|
                    0 <= j < k ==> (#[trigger] apps@[j]).is_for(
                        agent_app_id(app_id_prefix@, agents@[j]@),
                        agents@[j]@,
                        address_views(dna_hashes@),
                        true,
                    ),
                self.spec_dnas() == repeated(
                    old(self).spec_dnas(),
                    address_views(dna_hashes@),
                    k as nat,
                ),
                self.spec_handle() == old(self).spec_handle(),
                self.spec_handle() is Some,
                self.spec_envs() == old(self).spec_envs(),
                self.spec_config() == old(self).spec_config(),
            decreases agents@.len() - k,
        {
            let agent = &agents[k];
            let mut installed_app_id = String::from_str(app_id_prefix);
            installed_app_id.append(agent.to_hex().as_str());
            let app = self.setup_app_inner(installed_app_id.as_str(), agent, dna_hashes, true);
            apps.push(app);
            k = k + 1;
        }
        apps
    }

    /// Shuts the conductor down and hands out the handle that it ran
    /// under, for the caller to wait on. What the conductor holds is kept
    /// for a later start. The conductor runs.
    pub fn shutdown(&mut self) -> (r: CoolConductorHandle)
        requires
            old(self).spec_handle() is Some,
        ensures
            Some(r) == old(self).spec_handle(),
            final(self).spec_handle() is None,
            final(self).spec_dnas() == old(self).spec_dnas(),
            final(self).spec_envs() == old(self).spec_envs(),
            final(self).spec_config() == old(self).spec_config(),
    {
        let handle = self.handle();
        self.handle = None;
        handle
    }

    /// Starts the conductor again on a conductor newly built from its
    /// environments and configuration. Returns the DNAs that are to be
    /// installed anew, in the order in which they were installed before. The
    /// conductor does not run.
    pub fn startup(&mut self, handle: ConductorHandle) -> (r: Vec<DnaHash>)
        requires
            old(self).spec_handle() is None,
        ensures
            final(self).spec_handle() == Some(CoolConductorHandle(handle)),
            address_views(r@) == old(self).spec_dnas(),
            final(self).spec_dnas() == old(self).spec_dnas(),
            final(self).spec_envs() == old(self).spec_envs(),
            final(self).spec_config() == old(self).spec_config(),
    {
        self.handle = Some(CoolConductorHandle(handle));
        let mut dnas: Vec<DnaHash> = Vec::new();
        let mut i: usize = 0;
        while i < self.dnas.len()
            invariant
                i <= self.dnas@.len(),
                dnas@.len() == i,
                address_views(dnas@) == address_views(self.dnas@).take(i as int),
                self.spec_handle() == Some(CoolConductorHandle(handle)),
                self.spec_dnas() == old(self).spec_dnas(),
                self.spec_envs() == old(self).spec_envs(),
                self.spec_config() == old(self).spec_config(),
            decreases self.dnas@.len() - i,
        {
            let ghost dnas_before = dnas@;
            dnas.push(self.dnas[i].clone());
            proof {
                assert forall|j: int| 0 <= j < i + 1 implies address_views(dnas@)[j]
                    == address_views(self.dnas@).take(i + 1)[j] by {
                    if j < i {
                        assert(address_views(dnas_before)[j] == address_views(self.dnas@).take(
                            i as int,
                        )[j]);
                        assert(dnas@[j] == dnas_before[j]);
                    }
                }
                assert(address_views(dnas@) =~= address_views(self.dnas@).take(i + 1));
            }
            i = i + 1;
        }
        assert(address_views(self.dnas@).take(i as int) =~= address_views(self.dnas@));
        dnas
    }
}

/// A list with `n` copies of another list behind it.
pub open spec fn repeated<T>(start: Seq<T>, more: Seq<T>, n: nat) -> Seq<T>
    decreases n,
{
    if n == 0 {
        start
    } else {
        repeated(start, more, (n - 1) as nat) + more
    }
}

/// Several test conductors, for what is done to all of them.
#[derive(Debug)]
pub struct CoolConductorBatch(Vec<CoolConductor>);

impl CoolConductorBatch {
    pub closed spec fn spec_conductors(&self) -> Seq<CoolConductor> {
        self.0@
    }

    pub fn new(conductors: Vec<CoolConductor>) -> (r: CoolConductorBatch)
        ensures
            r.spec_conductors() == conductors@,
    {
        CoolConductorBatch(conductors)
    }

    /// How many conductors there are.
    pub fn len(&self) -> (r: usize)
        ensures
            r == self.spec_conductors().len(),
    {
        self.0.len()
    }

    /// The conductors, in their order.
    pub fn iter(&self) -> (r: &Vec<CoolConductor>)
        ensures
            r@ == self.spec_conductors(),
    {
        &self.0
    }

    /// The conductors, in their order.
    pub fn into_inner(self) -> (r: Vec<CoolConductor>)
        ensures
            r@ == self.spec_conductors(),
    {
        self.0
    }

    /// The conductor at place `index`.
    pub fn index(&self, index: usize) -> (r: &CoolConductor)
        requires
            index < self.spec_conductors().len(),
        ensures
            *r == self.spec_conductors()[index as int],
    {
        &self.0[index]
    }

    /// Plans the setup of one app on each conductor, for the agent at the
    /// same place of `agents`: the first agent gets its app on the first
    /// conductor, and so on. There are as many agents as conductors, and
    /// every conductor runs. The setups come in the order of the conductors.
    pub fn setup_app_for_zipped_agents(
        &mut self,
        installed_app_id: &str,
        agents: &Vec<AgentPubKey>,
        dna_hashes: &Vec<DnaHash>,
    ) -> (r: Vec<AppSetup>)
        requires
            agents@.len() == old(self).spec_conductors().len(),
            old(self).spec_all_running(),
        ensures
            r@.len() == agents@.len(),
            forall|k: int|
                0 <= k < agents@.len() ==> (#[trigger] r@[k]).is_for(
                    installed_app_id@,
                    agents@[k]@,
                    address_views(dna_hashes@),
                    true,
                ),
            final(self).spec_conductors().len() == old(self).spec_conductors().len(),
            forall|k: int|
                0 <= k < agents@.len() ==> (#[trigger] final(self).spec_conductors()[k]).after_setup(
                    old(self).spec_conductors()[k],
                    address_views(dna_hashes@),
                ),
    {
        let mut apps: Vec<AppSetup> = Vec::new();
        let mut k: usize = 0;
        while k < agents.len()
            invariant
                k <= agents@.len(),
                agents@.len() == self.0@.len(),
                self.0@.len() == old(self).0@.len(),
                apps@.len() == k,
                forall|j: int|
                    0 <= j < k ==> (#[trigger] apps@[j]).is_for(
                        installed_app_id@,
                        agents@[j]@,
                        address_views(dna_hashes@),
                        true,
                    ),
                forall|j: int|
                    0 <= j < k ==> (#[trigger] self.0@[j]).after_setup(
                        old(self).0@[j],
                        address_views(dna_hashes@),
                    ),
                forall|j: int| k <= j < self.0@.len() ==> #[trigger] self.0@[j] == old(self).0@[j],
                forall|j: int|
                    0 <= j < old(self).0@.len() ==> (#[trigger] old(self).0@[j]).spec_handle()
                        is Some,
            decreases agents@.len() - k,
        {
            let conductor = &mut self.0[k];
            let app = conductor.setup_app_for_agent(installed_app_id, &agents[k], dna_hashes);
            apps.push(app);
            k = k + 1;
        }
        apps
    }

    /// Whether every conductor runs.
    pub fn all_running(&self) -> (r: bool)
        ensures
            r == self.spec_all_running(),
    {
        let mut i: usize = 0;
        while i < self.0.len()
            invariant
                i <= self.0@.len(),
                forall|j: int| 0 <= j < i ==> (#[trigger] self.0@[j]).spec_handle() is Some,
            decreases self.0@.len() - i,
        {
            if !self.0[i].is_running() {
                return false;
            }
            i = i + 1;
        }
        true
    }

    pub open spec fn spec_all_running(&self) -> bool {
        forall|j: int|
            0 <= j < self.spec_conductors().len() ==> (
            #[trigger] self.spec_conductors()[j]).spec_handle() is Some
    }

    /// The p2p environments of all conductors, in their order: what the
    /// conductors exchange to know of each other's agents.
    pub fn exchange_peer_info(&self) -> (r: Vec<EnvironmentRead>)
        ensures
            r@.len() == self.spec_conductors().len(),
            forall|j: int|
                0 <= j < r@.len() ==> (#[trigger] r@[j])@
                    == self.spec_conductors()[j].spec_envs().spec_p2p(),
    {
        let mut envs: Vec<EnvironmentRead> = Vec::new();
        let mut i: usize = 0;
        while i < self.0.len()
            invariant
                i <= self.0@.len(),
                envs@.len() == i,
                forall|j: int|
                    0 <= j < i ==> (#[trigger] envs@[j])@ == self.0@[j].spec_envs().spec_p2p(),
            decreases self.0@.len() - i,
        {
            envs.push(self.0[i].envs().p2p());
            i = i + 1;
        }
        envs
    }
}

} // verus!
