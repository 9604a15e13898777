//! The deployment engine: a state machine that drives one run.
//!
//! The engine owns the [`AddressRegistry`] and decides, step by step, what
//! has to happen next.  Each call to [`Engine::step`] consumes one
//! [`Event`] reported by the driver (the outcome of the previous action)
//! and returns the next [`Action`] to perform, together with the
//! notifications the step emitted.  The driver performs the action —
//! broadcasting a transaction, loading a build artifact, fetching genesis
//! data, writing the record — and reports back.  No two deployments are
//! ever in flight at once: the engine asks for the next one only after the
//! previous outcome arrived.
//!
//! The whole transition relation is the spec function [`next`]; `step` is
//! proved to follow it exactly, so every run of the engine is a run of that
//! relation and the laws proved about [`next`] hold of the executable
//! engine as well.

use vstd::prelude::*;

use crate::address::{Address, ADDRESS_LEN};
use crate::contract_id::ContractId;
use crate::linker::{
    all_resolved, first_unresolved, link, linked_bytes, LinkedBytecode, SegmentV, UnlinkedBytecode,
};
use crate::registry::{entries_view, record_pairs_view, AddressRegistry};

verus! {

/// Fixed maximum-value argument handed to the light client's initializer
/// alongside the genesis state.
pub const LIGHT_CLIENT_INIT_ARG: u32 = 0xffff_ffff;

/// Opaque initialization payload for the light-client contract, fetched
/// once per run from the genesis provider and consumed exactly once, by the
/// proxy's initialization call.
pub struct GenesisState {
    data: Vec<u8>,
}

impl View for GenesisState {
    type V = Seq<u8>;

    closed spec fn view(&self) -> Seq<u8> {
        self.data@
    }
}

impl GenesisState {
    /// Wraps a fetched payload.
    pub fn new(data: Vec<u8>) -> (r: GenesisState)
        ensures
            r@ == data@,
    {
        GenesisState { data }
    }

    /// The raw payload.
    pub fn data(&self) -> (r: &Vec<u8>)
        ensures
            r@ == self@,
    {
        &self.data
    }
}

/// Where a run stands.  The `Awaiting*` phases name the outside work whose
/// outcome the engine is waiting for.
#[derive(Clone, Copy, Debug, PartialEq, Eq, Structural)]
pub enum Phase {
    /// Nothing has happened yet.
    Start,
    /// The standalone contract's deployment is in flight.
    AwaitingHotShot,
    /// The verifier library's deployment is in flight.
    AwaitingPlonkVerifier,
    /// The verification-key library's deployment is in flight.
    AwaitingStateUpdateVk,
    /// The light client's raw bytecode is being loaded.
    AwaitingBytecode,
    /// The light client's deployment is in flight.
    AwaitingLightClient,
    /// The genesis state is being fetched.
    AwaitingGenesis,
    /// The proxy's deployment is in flight.
    AwaitingProxy,
    /// All requested contracts are resolved; the record is being written.
    Writing,
    /// The record was written; the run is complete.
    Finished,
    /// A step failed; the run is aborted.
    Failed,
}

/// What a failed piece of outside work was.
#[derive(Clone, Copy, Debug, PartialEq, Eq, Structural)]
pub enum FailureKind {
    /// The network transport failed or a transaction was rejected.
    Transport,
    /// An initialization call could not be encoded against the target
    /// interface.
    Encoding,
    /// The record could not be written out.
    Io,
}

/// Why a run aborted.
#[derive(Clone, Copy, Debug, PartialEq, Eq, Structural)]
pub enum DeployError {
    /// A network or transaction failure reported by the driver.
    Transport,
    /// An encoding failure reported by the driver.
    Encoding,
    /// A failure writing the record, reported by the driver.
    Io,
    /// Linking failed: the named library's placeholder had no address.
    Link(ContractId),
}

/// The outcome of the previous action, reported by the driver.
pub enum Event {
    /// Begin the run.
    Start,
    /// The awaited deployment was confirmed at this address.
    Deployed(Address),
    /// The light client's raw bytecode was loaded.
    BytecodeLoaded(UnlinkedBytecode),
    /// The genesis state was fetched.
    GenesisFetched(GenesisState),
    /// The record was written out.
    Written,
    /// The awaited work failed; the run aborts.
    Failed(FailureKind),
}

/// Mathematical value of an [`Event`].
pub enum EventV {
    Start,
    Deployed(Seq<u8>),
    BytecodeLoaded(Seq<SegmentV>),
    GenesisFetched(Seq<u8>),
    Written,
    Failed(FailureKind),
}

impl View for Event {
    type V = EventV;

    closed spec fn view(&self) -> EventV {
        match self {
            Event::Start => EventV::Start,
            Event::Deployed(a) => EventV::Deployed(a@),
            Event::BytecodeLoaded(b) => EventV::BytecodeLoaded(b@),
            Event::GenesisFetched(g) => EventV::GenesisFetched(g@),
            Event::Written => EventV::Written,
            Event::Failed(k) => EventV::Failed(*k),
        }
    }
}

/// The next piece of outside work the driver has to perform.
pub enum Action {
    /// Broadcast the standalone contract's deployment transaction.
    DeployHotShot,
    /// Broadcast the verifier library's deployment transaction.
    DeployPlonkVerifier,
    /// Broadcast the verification-key library's deployment transaction.
    DeployStateUpdateVk,
    /// Load the light client's raw bytecode from its build artifact.
    LoadLightClientBytecode,
    /// Broadcast a raw-bytecode deployment of the fully linked light
    /// client, with no constructor call.
    DeployLightClient(LinkedBytecode),
    /// Fetch the genesis state from the genesis provider.
    FetchGenesis,
    /// Deploy the upgradeable proxy pointing at `implementation`, with an
    /// initialization call encoded from `genesis` and `init_arg`.
    DeployProxy { implementation: Address, genesis: GenesisState, init_arg: u32 },
    /// Write the final deployment record.
    WriteRecord(Vec<(ContractId, Address)>),
    /// The run is complete; there is nothing left to do.
    Finished,
    /// The run is aborted with this error.
    Abort(DeployError),
}

/// Mathematical value of an [`Action`].
pub enum ActionV {
    DeployHotShot,
    DeployPlonkVerifier,
    DeployStateUpdateVk,
    LoadLightClientBytecode,
    DeployLightClient(Seq<u8>),
    FetchGenesis,
    DeployProxy { implementation: Seq<u8>, genesis: Seq<u8>, init_arg: u32 },
    WriteRecord(Seq<(ContractId, Seq<u8>)>),
    Finished,
    Abort(DeployError),
}

impl View for Action {
    type V = ActionV;

    closed spec fn view(&self) -> ActionV {
        match self {
            Action::DeployHotShot => ActionV::DeployHotShot,
            Action::DeployPlonkVerifier => ActionV::DeployPlonkVerifier,
            Action::DeployStateUpdateVk => ActionV::DeployStateUpdateVk,
            Action::LoadLightClientBytecode => ActionV::LoadLightClientBytecode,
            Action::DeployLightClient(b) => ActionV::DeployLightClient(b@),
            Action::FetchGenesis => ActionV::FetchGenesis,
            Action::DeployProxy { implementation, genesis, init_arg } => (ActionV::DeployProxy {
                implementation: implementation@,
                genesis: genesis@,
                init_arg: *init_arg,
            }),
            Action::WriteRecord(entries) => ActionV::WriteRecord(record_pairs_view(entries@)),
            Action::Finished => ActionV::Finished,
            Action::Abort(e) => ActionV::Abort(*e),
        }
    }
}

/// An observable notification emitted by a step.
pub enum Notice {
    /// The contract was already deployed at this address; its deployment
    /// was skipped.
    Skipped(ContractId, Address),
    /// The contract was deployed at this address and recorded.
    Deployed(ContractId, Address),
}

/// Mathematical value of a [`Notice`].
pub enum NoticeV {
    Skipped(ContractId, Seq<u8>),
    Deployed(ContractId, Seq<u8>),
}

impl View for Notice {
    type V = NoticeV;

    closed spec fn view(&self) -> NoticeV {
        match self {
            Notice::Skipped(id, a) => NoticeV::Skipped(*id, a@),
            Notice::Deployed(id, a) => NoticeV::Deployed(*id, a@),
        }
    }
}

/// Mathematical value of a sequence of notices.
pub open spec fn notices_view(s: Seq<Notice>) -> Seq<NoticeV> {
    s.map_values(|n: Notice| n@)
}

/// What one step returned: the notifications it emitted and the next
/// action.
pub struct StepResult {
    pub notices: Vec<Notice>,
    pub action: Action,
}

/// Mathematical state of the engine.
pub struct EngineV {
    pub registry: Map<ContractId, Seq<u8>>,
    pub phase: Phase,
}

/// Mathematical value of one transition: successor state, notifications,
/// action.
pub struct StepV {
    pub state: EngineV,
    pub notices: Seq<NoticeV>,
    pub action: ActionV,
}

/// Every address a registry map holds is well formed.
pub open spec fn map_wf(m: Map<ContractId, Seq<u8>>) -> bool {
    forall|id: ContractId| m.contains_key(id) ==> (#[trigger] m[id]).len() == ADDRESS_LEN
}

/// The addresses the light client's bytecode is linked against: the two
/// library contracts.
pub open spec fn lib_table(m: Map<ContractId, Seq<u8>>) -> Map<ContractId, Seq<u8>> {
    Map::empty().insert(ContractId::PlonkVerifier, m[ContractId::PlonkVerifier]).insert(
        ContractId::StateUpdateVk,
        m[ContractId::StateUpdateVk],
    )
}

/// The error a reported failure aborts the run with.
pub open spec fn failure_error(k: FailureKind) -> DeployError {
    match k {
        FailureKind::Transport => DeployError::Transport,
        FailureKind::Encoding => DeployError::Encoding,
        FailureKind::Io => DeployError::Io,
    }
}

/// The phase in which the given contract's deployment is in flight.
pub open spec fn awaiting_phase(id: ContractId) -> Phase {
    match id {
        ContractId::HotShot => Phase::AwaitingHotShot,
        ContractId::PlonkVerifier => Phase::AwaitingPlonkVerifier,
        ContractId::StateUpdateVk => Phase::AwaitingStateUpdateVk,
        ContractId::LightClient => Phase::AwaitingLightClient,
        ContractId::LightClientProxy => Phase::AwaitingProxy,
    }
}

/// Phase-indexed invariant of a run.
///
/// A deployment is in flight only while its contract is unrecorded; the
/// light client's bytecode is linked only once both libraries are
/// recorded; genesis is fetched and the proxy deployed only once the light
/// client is recorded; the record is written only once the standalone
/// contract and the proxy are recorded.
pub open spec fn inv(s: EngineV) -> bool {
    let m = s.registry;
    match s.phase {
        Phase::Start => true,
        Phase::AwaitingHotShot => !m.contains_key(ContractId::HotShot),
        Phase::AwaitingPlonkVerifier => {
            &&& m.contains_key(ContractId::HotShot)
            &&& !m.contains_key(ContractId::PlonkVerifier)
            &&& !m.contains_key(ContractId::LightClient)
            &&& !m.contains_key(ContractId::LightClientProxy)
        },
        Phase::AwaitingStateUpdateVk => {
            &&& m.contains_key(ContractId::HotShot)
            &&& m.contains_key(ContractId::PlonkVerifier)
            &&& !m.contains_key(ContractId::StateUpdateVk)
            &&& !m.contains_key(ContractId::LightClient)
            &&& !m.contains_key(ContractId::LightClientProxy)
        },
        Phase::AwaitingBytecode => {
            &&& m.contains_key(ContractId::HotShot)
            &&& m.contains_key(ContractId::PlonkVerifier)
            &&& m.contains_key(ContractId::StateUpdateVk)
            &&& !m.contains_key(ContractId::LightClient)
            &&& !m.contains_key(ContractId::LightClientProxy)
        },
        Phase::AwaitingLightClient => {
            &&& m.contains_key(ContractId::HotShot)
            &&& !m.contains_key(ContractId::LightClient)
            &&& !m.contains_key(ContractId::LightClientProxy)
        },
        Phase::AwaitingGenesis => {
            &&& m.contains_key(ContractId::HotShot)
            &&& m.contains_key(ContractId::LightClient)
            &&& !m.contains_key(ContractId::LightClientProxy)
        },
        Phase::AwaitingProxy => {
            &&& m.contains_key(ContractId::HotShot)
            &&& m.contains_key(ContractId::LightClient)
            &&& !m.contains_key(ContractId::LightClientProxy)
        },
        Phase::Writing => {
            &&& m.contains_key(ContractId::HotShot)
            &&& m.contains_key(ContractId::LightClientProxy)
        },
        Phase::Finished => {
            &&& m.contains_key(ContractId::HotShot)
            &&& m.contains_key(ContractId::LightClientProxy)
        },
        Phase::Failed => true,
    }
}

/// A mathematical engine state that any run keeps: the invariant holds and
/// every recorded address is well formed.
pub open spec fn wf_v(s: EngineV) -> bool {
    inv(s) && map_wf(s.registry)
}

/// Which events the engine can take in a state.  Terminal phases take
/// none; every in-flight phase takes its own success event or a failure.
/// A confirmed deployment carries a well-formed address.
pub open spec fn accepts(s: EngineV, e: EventV) -> bool {
    &&& match s.phase {
        Phase::Start => e is Start,
        Phase::AwaitingHotShot
        | Phase::AwaitingPlonkVerifier
        | Phase::AwaitingStateUpdateVk
        | Phase::AwaitingLightClient
        | Phase::AwaitingProxy => e is Deployed || e is Failed,
        Phase::AwaitingBytecode => e is BytecodeLoaded || e is Failed,
        Phase::AwaitingGenesis => e is GenesisFetched || e is Failed,
        Phase::Writing => e is Written || e is Failed,
        Phase::Finished => false,
        Phase::Failed => false,
    }
    &&& (e is Deployed ==> e->Deployed_0.len() == ADDRESS_LEN)
}

/// Resolution continuation once the verification-key library is recorded:
/// the light client's bytecode can be loaded and linked.
pub open spec fn after_vk(m: Map<ContractId, Seq<u8>>, notices: Seq<NoticeV>) -> StepV {
    StepV {
        state: EngineV { registry: m, phase: Phase::AwaitingBytecode },
        notices,
        action: ActionV::LoadLightClientBytecode,
    }
}

/// Resolution continuation for the verification-key library: skip it when
/// recorded, deploy it otherwise.
pub open spec fn resolve_vk(m: Map<ContractId, Seq<u8>>, notices: Seq<NoticeV>) -> StepV {
    if m.contains_key(ContractId::StateUpdateVk) {
        after_vk(
            m,
            notices.push(NoticeV::Skipped(ContractId::StateUpdateVk, m[ContractId::StateUpdateVk])),
        )
    } else {
        StepV {
            state: EngineV { registry: m, phase: Phase::AwaitingStateUpdateVk },
            notices,
            action: ActionV::DeployStateUpdateVk,
        }
    }
}

/// Resolution continuation for the verifier library.
pub open spec fn resolve_libraries(m: Map<ContractId, Seq<u8>>, notices: Seq<NoticeV>) -> StepV {
    if m.contains_key(ContractId::PlonkVerifier) {
        resolve_vk(
            m,
            notices.push(NoticeV::Skipped(ContractId::PlonkVerifier, m[ContractId::PlonkVerifier])),
        )
    } else {
        StepV {
            state: EngineV { registry: m, phase: Phase::AwaitingPlonkVerifier },
            notices,
            action: ActionV::DeployPlonkVerifier,
        }
    }
}

/// Resolution continuation once the light client is recorded: the genesis
/// state is fetched next.
pub open spec fn after_light_client(m: Map<ContractId, Seq<u8>>, notices: Seq<NoticeV>) -> StepV {
    StepV {
        state: EngineV { registry: m, phase: Phase::AwaitingGenesis },
        notices,
        action: ActionV::FetchGenesis,
    }
}

/// Resolution continuation for the light client: skip it when recorded,
/// otherwise resolve its library dependencies first.
pub open spec fn resolve_light_client(m: Map<ContractId, Seq<u8>>, notices: Seq<NoticeV>) -> StepV {
    if m.contains_key(ContractId::LightClient) {
        after_light_client(
            m,
            notices.push(NoticeV::Skipped(ContractId::LightClient, m[ContractId::LightClient])),
        )
    } else {
        resolve_libraries(m, notices)
    }
}

/// Resolution continuation once the proxy is recorded: the record is
/// written.
pub open spec fn after_proxy(m: Map<ContractId, Seq<u8>>, notices: Seq<NoticeV>) -> StepV {
    StepV {
        state: EngineV { registry: m, phase: Phase::Writing },
        notices,
        action: ActionV::WriteRecord(entries_view(m)),
    }
}

/// Resolution continuation for the proxy chain: skip the proxy when
/// recorded, otherwise resolve the light client first.
pub open spec fn resolve_proxy(m: Map<ContractId, Seq<u8>>, notices: Seq<NoticeV>) -> StepV {
    if m.contains_key(ContractId::LightClientProxy) {
        after_proxy(
            m,
            notices.push(
                NoticeV::Skipped(ContractId::LightClientProxy, m[ContractId::LightClientProxy]),
            ),
        )
    } else {
        resolve_light_client(m, notices)
    }
}

/// A non-fitting event changes nothing; the executable engine never takes
/// one.
pub open spec fn stay(s: EngineV) -> StepV {
    StepV { state: s, notices: Seq::empty(), action: ActionV::Finished }
}

/// The run aborts with the reported failure; the registry is untouched, so
/// a failed deployment leaves its contract unrecorded.
pub open spec fn fail_with(m: Map<ContractId, Seq<u8>>, k: FailureKind) -> StepV {
    StepV {
        state: EngineV { registry: m, phase: Phase::Failed },
        notices: Seq::empty(),
        action: ActionV::Abort(failure_error(k)),
    }
}

/// The complete transition relation of a run.
///
/// Resolution is memoizing: a contract already recorded is skipped with a
/// notification and its dependents use the recorded address; an absent one
/// is deployed, and its confirmed address is recorded with a notification
/// before resolution continues.  A reported failure moves to the terminal
/// failed phase without touching the registry.
pub open spec fn next(s: EngineV, e: EventV) -> StepV {
    let m = s.registry;
    match s.phase {
        Phase::Start => match e {
            EventV::Start => resolve_start_from(m, Seq::empty()),
            _ => stay(s),
        },
        Phase::AwaitingHotShot => match e {
            EventV::Deployed(a) => resolve_proxy(
                m.insert(ContractId::HotShot, a),
                Seq::empty().push(NoticeV::Deployed(ContractId::HotShot, a)),
            ),
            EventV::Failed(k) => fail_with(m, k),
            _ => stay(s),
        },
        Phase::AwaitingPlonkVerifier => match e {
            EventV::Deployed(a) => resolve_vk(
                m.insert(ContractId::PlonkVerifier, a),
                Seq::empty().push(NoticeV::Deployed(ContractId::PlonkVerifier, a)),
            ),
            EventV::Failed(k) => fail_with(m, k),
            _ => stay(s),
        },
        Phase::AwaitingStateUpdateVk => match e {
            EventV::Deployed(a) => after_vk(
                m.insert(ContractId::StateUpdateVk, a),
                Seq::empty().push(NoticeV::Deployed(ContractId::StateUpdateVk, a)),
            ),
            EventV::Failed(k) => fail_with(m, k),
            _ => stay(s),
        },
        Phase::AwaitingBytecode => match e {
            EventV::BytecodeLoaded(b) => {
                if all_resolved(b, lib_table(m)) {
                    StepV {
                        state: EngineV { registry: m, phase: Phase::AwaitingLightClient },
                        notices: Seq::empty(),
                        action: ActionV::DeployLightClient(linked_bytes(b, lib_table(m))),
                    }
                } else {
                    StepV {
                        state: EngineV { registry: m, phase: Phase::Failed },
                        notices: Seq::empty(),
                        action: ActionV::Abort(
                            DeployError::Link(first_unresolved(b, lib_table(m))),
                        ),
                    }
                }
            },
            EventV::Failed(k) => fail_with(m, k),
            _ => stay(s),
        },
        Phase::AwaitingLightClient => match e {
            EventV::Deployed(a) => after_light_client(
                m.insert(ContractId::LightClient, a),
                Seq::empty().push(NoticeV::Deployed(ContractId::LightClient, a)),
            ),
            EventV::Failed(k) => fail_with(m, k),
            _ => stay(s),
        },
        Phase::AwaitingGenesis => match e {
            EventV::GenesisFetched(g) => StepV {
                state: EngineV { registry: m, phase: Phase::AwaitingProxy },
                notices: Seq::empty(),
                action: ActionV::DeployProxy {
                    implementation: m[ContractId::LightClient],
                    genesis: g,
                    init_arg: LIGHT_CLIENT_INIT_ARG,
                },
            },
            EventV::Failed(k) => fail_with(m, k),
            _ => stay(s),
        },
        Phase::AwaitingProxy => match e {
            EventV::Deployed(a) => after_proxy(
                m.insert(ContractId::LightClientProxy, a),
                Seq::empty().push(NoticeV::Deployed(ContractId::LightClientProxy, a)),
            ),
            EventV::Failed(k) => fail_with(m, k),
            _ => stay(s),
        },
        Phase::Writing => match e {
            EventV::Written => StepV {
                state: EngineV { registry: m, phase: Phase::Finished },
                notices: Seq::empty(),
                action: ActionV::Finished,
            },
            EventV::Failed(k) => fail_with(m, k),
            _ => stay(s),
        },
        Phase::Finished => stay(s),
        Phase::Failed => stay(s),
    }
}

/// The deployment engine.
pub struct Engine {
    registry: AddressRegistry,
    phase: Phase,
}

impl View for Engine {
    type V = EngineV;

    closed spec fn view(&self) -> EngineV {
        EngineV { registry: self.registry@, phase: self.phase }
    }
}

impl Engine {
    /// The engine's states are well formed.
    pub open spec fn wf(&self) -> bool {
        wf_v(self@)
    }

    /// A fresh run over the given registry of pre-deployed addresses.
    pub fn new(registry: AddressRegistry) -> (r: Engine)
        requires
            registry.wf(),
        ensures
            r.wf(),
            r@.registry == registry@,
            r@.phase == Phase::Start,
    {
        Engine { registry, phase: Phase::Start }
    }

    /// The registry as it stands.
    pub fn registry(&self) -> (r: &AddressRegistry)
        ensures
            r@ == self@.registry,
    {
        &self.registry
    }

    /// The current phase.
    pub fn phase(&self) -> (r: Phase)
        ensures
            r == self@.phase,
    {
        self.phase
    }

    /// Takes one event and returns the notifications emitted and the next
    /// action, following [`next`] exactly.
    pub fn step(&mut self, event: Event) -> (r: StepResult)
        requires
            old(self).wf(),
            accepts(old(self)@, event@),
        ensures
            final(self).wf(),
            final(self)@ == next(old(self)@, event@).state,
            notices_view(r.notices@) == next(old(self)@, event@).notices,
            r.action@ == next(old(self)@, event@).action,
    {
        let ghost s0 = self@;
        let ghost ev = event@;
        match event {
            Event::Start => {
                let notices: Vec<Notice> = Vec::new();
                proof {
                    assert(notices_view(notices@) =~= Seq::<NoticeV>::empty());
                }
                let r = self.advance_start(notices);
                proof {
                    lemma_next_wf(s0, ev);
                }
                r
            },
            Event::Deployed(addr) => {
                let r = self.record_and_continue(addr);
                proof {
                    lemma_next_wf(s0, ev);
                }
                r
            },
            Event::BytecodeLoaded(bytecode) => {
                let table = self.library_table();
                let notices: Vec<Notice> = Vec::new();
                proof {
                    assert(notices_view(notices@) =~= Seq::<NoticeV>::empty());
                }
                let action = match link(&bytecode, &table) {
                    Ok(linked) => {
                        self.phase = Phase::AwaitingLightClient;
                        Action::DeployLightClient(linked)
                    },
                    Err(e) => {
                        self.phase = Phase::Failed;
                        Action::Abort(DeployError::Link(e.missing))
                    },
                };
                proof {
                    lemma_next_wf(s0, ev);
                }
                StepResult { notices, action }
            },
            Event::GenesisFetched(genesis) => {
                let notices: Vec<Notice> = Vec::new();
                proof {
                    assert(notices_view(notices@) =~= Seq::<NoticeV>::empty());
                }
                if let Some(implementation) = self.registry.get(ContractId::LightClient) {
                    self.phase = Phase::AwaitingProxy;
                    StepResult {
                        notices,
                        action: Action::DeployProxy {
                            implementation,
                            genesis,
                            init_arg: LIGHT_CLIENT_INIT_ARG,
                        },
                    }
                } else {
                    proof {
                        assert(false);
                    }
                    StepResult { notices, action: Action::Finished }
                }
            },
            Event::Written => {
                self.phase = Phase::Finished;
                let notices: Vec<Notice> = Vec::new();
                proof {
                    assert(notices_view(notices@) =~= Seq::<NoticeV>::empty());
                }
                StepResult { notices, action: Action::Finished }
            },
            Event::Failed(kind) => {
                self.phase = Phase::Failed;
                let notices: Vec<Notice> = Vec::new();
                proof {
                    assert(notices_view(notices@) =~= Seq::<NoticeV>::empty());
                }
                let error = match kind {
                    FailureKind::Transport => DeployError::Transport,
                    FailureKind::Encoding => DeployError::Encoding,
                    FailureKind::Io => DeployError::Io,
                };
                StepResult { notices, action: Action::Abort(error) }
            },
        }
    }

    /// Records the confirmed address under the contract whose deployment
    /// was in flight, then continues resolution.
    fn record_and_continue(&mut self, addr: Address) -> (r: StepResult)
        requires
            old(self).wf(),
            accepts(old(self)@, EventV::Deployed(addr@)),
        ensures
            final(self)@ == next(old(self)@, EventV::Deployed(addr@)).state,
            notices_view(r.notices@) == next(old(self)@, EventV::Deployed(addr@)).notices,
            r.action@ == next(old(self)@, EventV::Deployed(addr@)).action,
    {
        let id = match self.phase {
            Phase::AwaitingHotShot => ContractId::HotShot,
            Phase::AwaitingPlonkVerifier => ContractId::PlonkVerifier,
            Phase::AwaitingStateUpdateVk => ContractId::StateUpdateVk,
            Phase::AwaitingLightClient => ContractId::LightClient,
            Phase::AwaitingProxy => ContractId::LightClientProxy,
            _ => {
                proof {
                    assert(false);
                }
                ContractId::HotShot
            },
        };
        let note_addr = addr.duplicate();
        self.registry.record(id, addr);
        let mut notices: Vec<Notice> = Vec::new();
        notices.push(Notice::Deployed(id, note_addr));
        proof {
            assert(notices_view(notices@) =~= Seq::empty().push(
                NoticeV::Deployed(id, addr@),
            ));
        }
        match id {
            ContractId::HotShot => self.advance_proxy(notices),
            ContractId::PlonkVerifier => self.advance_vk(notices),
            ContractId::StateUpdateVk => {
                self.phase = Phase::AwaitingBytecode;
                StepResult { notices, action: Action::LoadLightClientBytecode }
            },
            ContractId::LightClient => {
                self.phase = Phase::AwaitingGenesis;
                StepResult { notices, action: Action::FetchGenesis }
            },
            ContractId::LightClientProxy => self.advance_write(notices),
        }
    }

    /// Continuation of [`resolve_start`].
    fn advance_start(&mut self, notices: Vec<Notice>) -> (r: StepResult)
        requires
            old(self).registry.wf(),
        ensures
            final(self)@.registry == old(self)@.registry,
            final(self).registry.wf(),
            ({
                let s = resolve_start_from(old(self)@.registry, notices_view(notices@));
                &&& final(self)@.phase == s.state.phase
                &&& s.state.registry == old(self)@.registry
                &&& notices_view(r.notices@) == s.notices
                &&& r.action@ == s.action
            }),
    {
        if self.registry.contains(ContractId::HotShot) {
            let mut notices = notices;
            self.push_skip(&mut notices, ContractId::HotShot);
            self.advance_proxy(notices)
        } else {
            self.phase = Phase::AwaitingHotShot;
            StepResult { notices, action: Action::DeployHotShot }
        }
    }

    /// Continuation of [`resolve_proxy`].
    fn advance_proxy(&mut self, notices: Vec<Notice>) -> (r: StepResult)
        requires
            old(self).registry.wf(),
        ensures
            final(self)@.registry == old(self)@.registry,
            final(self).registry.wf(),
            ({
                let s = resolve_proxy(old(self)@.registry, notices_view(notices@));
                &&& final(self)@.phase == s.state.phase
                &&& s.state.registry == old(self)@.registry
                &&& notices_view(r.notices@) == s.notices
                &&& r.action@ == s.action
            }),
    {
        if self.registry.contains(ContractId::LightClientProxy) {
            let mut notices = notices;
            self.push_skip(&mut notices, ContractId::LightClientProxy);
            self.advance_write(notices)
        } else if self.registry.contains(ContractId::LightClient) {
            let mut notices = notices;
            self.push_skip(&mut notices, ContractId::LightClient);
            self.phase = Phase::AwaitingGenesis;
            StepResult { notices, action: Action::FetchGenesis }
        } else {
            self.advance_libraries(notices)
        }
    }

    /// Continuation of [`resolve_libraries`].
    fn advance_libraries(&mut self, notices: Vec<Notice>) -> (r: StepResult)
        requires
            old(self).registry.wf(),
        ensures
            final(self)@.registry == old(self)@.registry,
            final(self).registry.wf(),
            ({
                let s = resolve_libraries(old(self)@.registry, notices_view(notices@));
                &&& final(self)@.phase == s.state.phase
                &&& s.state.registry == old(self)@.registry
                &&& notices_view(r.notices@) == s.notices
                &&& r.action@ == s.action
            }),
    {
        if self.registry.contains(ContractId::PlonkVerifier) {
            let mut notices = notices;
            self.push_skip(&mut notices, ContractId::PlonkVerifier);
            self.advance_vk(notices)
        } else {
            self.phase = Phase::AwaitingPlonkVerifier;
            StepResult { notices, action: Action::DeployPlonkVerifier }
        }
    }

    /// Continuation of [`resolve_vk`].
    fn advance_vk(&mut self, notices: Vec<Notice>) -> (r: StepResult)
        requires
            old(self).registry.wf(),
        ensures
            final(self)@.registry == old(self)@.registry,
            final(self).registry.wf(),
            ({
                let s = resolve_vk(old(self)@.registry, notices_view(notices@));
                &&& final(self)@.phase == s.state.phase
                &&& s.state.registry == old(self)@.registry
                &&& notices_view(r.notices@) == s.notices
                &&& r.action@ == s.action
            }),
    {
        if self.registry.contains(ContractId::StateUpdateVk) {
            let mut notices = notices;
            self.push_skip(&mut notices, ContractId::StateUpdateVk);
            self.phase = Phase::AwaitingBytecode;
            StepResult { notices, action: Action::LoadLightClientBytecode }
        } else {
            self.phase = Phase::AwaitingStateUpdateVk;
            StepResult { notices, action: Action::DeployStateUpdateVk }
        }
    }

    /// Continuation of [`after_proxy`]: hand the record over for writing.
    fn advance_write(&mut self, notices: Vec<Notice>) -> (r: StepResult)
        requires
            old(self).registry.wf(),
        ensures
            final(self)@.registry == old(self)@.registry,
            final(self).registry.wf(),
            ({
                let s = after_proxy(old(self)@.registry, notices_view(notices@));
                &&& final(self)@.phase == s.state.phase
                &&& s.state.registry == old(self)@.registry
                &&& notices_view(r.notices@) == s.notices
                &&& r.action@ == s.action
            }),
    {
        self.phase = Phase::Writing;
        let entries = self.registry.entries();
        StepResult { notices, action: Action::WriteRecord(entries) }
    }

    /// Appends a "skipped, already deployed" notification for a recorded
    /// contract.
    fn push_skip(&self, notices: &mut Vec<Notice>, id: ContractId)
        requires
            self.registry.wf(),
            self@.registry.contains_key(id),
        ensures
            notices_view(final(notices)@) == notices_view(old(notices)@).push(
                NoticeV::Skipped(id, self@.registry[id]),
            ),
    {
        if let Some(addr) = self.registry.get(id) {
            notices.push(Notice::Skipped(id, addr));
            proof {
                assert(notices_view(notices@) =~= notices_view(old(notices)@).push(
                    NoticeV::Skipped(id, self@.registry[id]),
                ));
            }
        } else {
            proof {
                assert(false);
            }
        }
    }

    /// Builds the table of library addresses the light client is linked
    /// against.
    fn library_table(&self) -> (r: AddressRegistry)
        requires
            self.registry.wf(),
            self@.registry.contains_key(ContractId::PlonkVerifier),
            self@.registry.contains_key(ContractId::StateUpdateVk),
        ensures
            r@ == lib_table(self@.registry),
            r.wf(),
    {
        let mut table = AddressRegistry::new();
        if let Some(a) = self.registry.get(ContractId::PlonkVerifier) {
            table.record(ContractId::PlonkVerifier, a);
        } else {
            proof {
                assert(false);
            }
        }
        if let Some(a) = self.registry.get(ContractId::StateUpdateVk) {
            table.record(ContractId::StateUpdateVk, a);
        } else {
            proof {
                assert(false);
            }
        }
        table
    }
}

/// Start of a run: resolve the standalone contract, then the proxy chain.
pub open spec fn resolve_start_from(m: Map<ContractId, Seq<u8>>, notices: Seq<NoticeV>) -> StepV {
    if m.contains_key(ContractId::HotShot) {
        resolve_proxy(m, notices.push(NoticeV::Skipped(ContractId::HotShot, m[ContractId::HotShot])))
    } else {
        StepV {
            state: EngineV { registry: m, phase: Phase::AwaitingHotShot },
            notices,
            action: ActionV::DeployHotShot,
        }
    }
}

/// Recording one well-formed address keeps a registry map well formed.
pub proof fn lemma_map_wf_insert(m: Map<ContractId, Seq<u8>>, id: ContractId, a: Seq<u8>)
    requires
        map_wf(m),
        a.len() == ADDRESS_LEN,
    ensures
        map_wf(m.insert(id, a)),
{
    let m2 = m.insert(id, a);
    assert forall|id2: ContractId| m2.contains_key(id2) implies (#[trigger] m2[id2]).len()
        == ADDRESS_LEN by {
        if id2 != id {
            assert(m.contains_key(id2));
        }
    }
}

/// The proxy-resolution chain lands in a well-formed state whenever the
/// standalone contract is already recorded.
proof fn lemma_resolve_proxy_wf(m: Map<ContractId, Seq<u8>>, notices: Seq<NoticeV>)
    requires
        map_wf(m),
        m.contains_key(ContractId::HotShot),
    ensures
        wf_v(resolve_proxy(m, notices).state),
{
    if m.contains_key(ContractId::LightClientProxy) {
    } else if m.contains_key(ContractId::LightClient) {
    } else if m.contains_key(ContractId::PlonkVerifier) {
        if m.contains_key(ContractId::StateUpdateVk) {
        } else {
        }
    } else {
    }
}

/// One transition keeps the engine well formed.
pub proof fn lemma_next_wf(s: EngineV, e: EventV)
    requires
        wf_v(s),
        accepts(s, e),
    ensures
        wf_v(next(s, e).state),
{
    let m = s.registry;
    match s.phase {
        Phase::Start => {
            if m.contains_key(ContractId::HotShot) {
                lemma_resolve_proxy_wf(
                    m,
                    Seq::empty().push(
                        NoticeV::Skipped(ContractId::HotShot, m[ContractId::HotShot]),
                    ),
                );
            }
        },
        Phase::AwaitingHotShot => {
            if let EventV::Deployed(a) = e {
                lemma_map_wf_insert(m, ContractId::HotShot, a);
                lemma_resolve_proxy_wf(
                    m.insert(ContractId::HotShot, a),
                    Seq::empty().push(NoticeV::Deployed(ContractId::HotShot, a)),
                );
            }
        },
        Phase::AwaitingPlonkVerifier => {
            if let EventV::Deployed(a) = e {
                lemma_map_wf_insert(m, ContractId::PlonkVerifier, a);
            }
        },
        Phase::AwaitingStateUpdateVk => {
            if let EventV::Deployed(a) = e {
                lemma_map_wf_insert(m, ContractId::StateUpdateVk, a);
            }
        },
        Phase::AwaitingLightClient => {
            if let EventV::Deployed(a) = e {
                lemma_map_wf_insert(m, ContractId::LightClient, a);
            }
        },
        Phase::AwaitingProxy => {
            if let EventV::Deployed(a) = e {
                lemma_map_wf_insert(m, ContractId::LightClientProxy, a);
            }
        },
        _ => {},
    }
}

} // verus!
