//! Laws of the deployment engine, proved over the transition relation
//! [`next`].
//!
//! Since [`crate::engine::Engine::step`] is proved to follow `next`
//! exactly, every law here holds of the executable engine: a run is a
//! start state together with the sequence of events the driver reported,
//! and [`fits`] says the sequence is one the engine can take.

use vstd::prelude::*;

use crate::contract_id::ContractId;
use crate::engine::{
    accepts, awaiting_phase, lemma_next_wf, lib_table, next, wf_v, ActionV, EngineV, EventV,
    NoticeV, Phase,
};
use crate::linker::linked_bytes;
use crate::registry::entries_view;

verus! {

/// Whether an action broadcasts the deployment of the given contract.
pub open spec fn deploys(a: ActionV, id: ContractId) -> bool {
    match a {
        ActionV::DeployHotShot => id == ContractId::HotShot,
        ActionV::DeployPlonkVerifier => id == ContractId::PlonkVerifier,
        ActionV::DeployStateUpdateVk => id == ContractId::StateUpdateVk,
        ActionV::DeployLightClient(_) => id == ContractId::LightClient,
        ActionV::DeployProxy { .. } => id == ContractId::LightClientProxy,
        _ => false,
    }
}

/// Whether an action broadcasts any deployment.
pub open spec fn is_deploy(a: ActionV) -> bool {
    match a {
        ActionV::DeployHotShot => true,
        ActionV::DeployPlonkVerifier => true,
        ActionV::DeployStateUpdateVk => true,
        ActionV::DeployLightClient(_) => true,
        ActionV::DeployProxy { .. } => true,
        _ => false,
    }
}

/// Whether the engine, started in `s`, can take this event sequence: each
/// event in turn is one the state reached so far accepts.
pub open spec fn fits(s: EngineV, events: Seq<EventV>) -> bool
    decreases events.len(),
{
    events.len() == 0 || {
        &&& accepts(s, events.first())
        &&& fits(next(s, events.first()).state, events.drop_first())
    }
}

/// The state after the first `i` events of a run.
pub open spec fn state_at(s: EngineV, events: Seq<EventV>, i: int) -> EngineV
    decreases i,
{
    if i <= 0 {
        s
    } else {
        next(state_at(s, events, i - 1), events[i - 1]).state
    }
}

/// The action the engine emits at position `i` of a run.
pub open spec fn action_at(s: EngineV, events: Seq<EventV>, i: int) -> ActionV {
    next(state_at(s, events, i), events[i]).action
}

/// How far along the fixed resolution order a phase stands.  Every
/// transition moves forward in this order.
pub open spec fn phase_rank(p: Phase) -> int {
    match p {
        Phase::Start => 0,
        Phase::AwaitingHotShot => 1,
        Phase::AwaitingPlonkVerifier => 2,
        Phase::AwaitingStateUpdateVk => 3,
        Phase::AwaitingBytecode => 4,
        Phase::AwaitingLightClient => 5,
        Phase::AwaitingGenesis => 6,
        Phase::AwaitingProxy => 7,
        Phase::Writing => 8,
        Phase::Finished => 9,
        Phase::Failed => 10,
    }
}

/// Facts about one step of the proxy-resolution continuation.
proof fn lemma_resolve_proxy_frame(
    m: Map<ContractId, Seq<u8>>,
    notices: Seq<NoticeV>,
    id: ContractId,
)
    ensures
        ({
            let st = crate::engine::resolve_proxy(m, notices);
            &&& st.state.registry == m
            &&& (deploys(st.action, id) ==> !m.contains_key(id) && st.state.phase
                == awaiting_phase(id))
            &&& !(st.action is DeployLightClient)
            &&& !(st.action is DeployProxy)
            &&& (st.action is WriteRecord ==> st.state.phase == Phase::Writing)
            &&& phase_rank(st.state.phase) >= 2
        }),
{
    if m.contains_key(ContractId::LightClientProxy) {
    } else if m.contains_key(ContractId::LightClient) {
    } else if m.contains_key(ContractId::PlonkVerifier) {
        if m.contains_key(ContractId::StateUpdateVk) {
        } else {
        }
    } else {
    }
}

/// Facts about one transition: the registry only grows, and a recorded
/// address never changes; a deployment is emitted only for an unrecorded
/// contract, whose phase the engine then awaits; a confirmed deployment is
/// recorded under the awaited contract; phases only move forward.
pub proof fn lemma_step_frame(s: EngineV, e: EventV, id: ContractId)
    requires
        wf_v(s),
        accepts(s, e),
    ensures
        ({
            let st = next(s, e);
            &&& (s.registry.contains_key(id) ==> {
                &&& st.state.registry.contains_key(id)
                &&& st.state.registry[id] == s.registry[id]
                &&& !deploys(st.action, id)
            })
            &&& (deploys(st.action, id) ==> {
                &&& !s.registry.contains_key(id)
                &&& !st.state.registry.contains_key(id)
                &&& st.state.phase == awaiting_phase(id)
            })
            &&& (s.phase == awaiting_phase(id) && e is Deployed ==> {
                &&& st.state.registry.contains_key(id)
                &&& st.state.registry[id] == e->Deployed_0
            })
            &&& (st.action is WriteRecord ==> st.state.phase == Phase::Writing)
            &&& (st.action is DeployLightClient ==> st.state.phase == Phase::AwaitingLightClient)
            &&& (st.action is DeployProxy ==> st.state.phase == Phase::AwaitingProxy)
            &&& phase_rank(st.state.phase) >= phase_rank(s.phase)
        }),
{
    let m = s.registry;
    match s.phase {
        Phase::Start => {
            if m.contains_key(ContractId::HotShot) {
                lemma_resolve_proxy_frame(
                    m,
                    Seq::empty().push(
                        NoticeV::Skipped(ContractId::HotShot, m[ContractId::HotShot]),
                    ),
                    id,
                );
            }
        },
        Phase::AwaitingHotShot => {
            if let EventV::Deployed(a) = e {
                lemma_resolve_proxy_frame(
                    m.insert(ContractId::HotShot, a),
                    Seq::empty().push(NoticeV::Deployed(ContractId::HotShot, a)),
                    id,
                );
            }
        },
        _ => {},
    }
}

/// A step of the run seen from one step in: the same states are reached.
proof fn lemma_state_shift(s: EngineV, events: Seq<EventV>, i: int)
    requires
        1 <= i <= events.len(),
    ensures
        state_at(s, events, i) == state_at(
            next(s, events.first()).state,
            events.drop_first(),
            i - 1,
        ),
    decreases i,
{
    if i == 1 {
        assert(state_at(s, events, 0) == s);
        assert(state_at(next(s, events.first()).state, events.drop_first(), 0) == next(
            s,
            events.first(),
        ).state);
    } else {
        lemma_state_shift(s, events, i - 1);
        assert(events.drop_first()[i - 2] == events[i - 1]);
    }
}

/// Every state reached along a fitting run is well formed and accepts the
/// event taken there.
pub proof fn lemma_trace_wf(s: EngineV, events: Seq<EventV>, i: int)
    requires
        wf_v(s),
        fits(s, events),
        0 <= i <= events.len(),
    ensures
        wf_v(state_at(s, events, i)),
        i < events.len() ==> accepts(state_at(s, events, i), events[i]),
    decreases i,
{
    if i > 0 {
        lemma_next_wf(s, events.first());
        lemma_trace_wf(next(s, events.first()).state, events.drop_first(), i - 1);
        lemma_state_shift(s, events, i);
        if i < events.len() {
            assert(events.drop_first()[i - 1] == events[i]);
        }
    }
}

/// Memoization: a contract recorded when a run starts keeps its address,
/// unchanged, through every reached state, and no step of the run deploys
/// it.
pub proof fn lemma_memoization(s: EngineV, events: Seq<EventV>, id: ContractId, i: int)
    requires
        wf_v(s),
        fits(s, events),
        s.registry.contains_key(id),
        0 <= i <= events.len(),
    ensures
        state_at(s, events, i).registry.contains_key(id),
        state_at(s, events, i).registry[id] == s.registry[id],
        i < events.len() ==> !deploys(action_at(s, events, i), id),
    decreases i,
{
    if i == 0 {
        if 0 < events.len() {
            lemma_step_frame(s, events[0], id);
        }
    } else {
        lemma_next_wf(s, events.first());
        lemma_step_frame(s, events.first(), id);
        lemma_memoization(next(s, events.first()).state, events.drop_first(), id, i - 1);
        lemma_state_shift(s, events, i);
        if i < events.len() {
            assert(events.drop_first()[i - 1] == events[i]);
        }
    }
}

/// No step of a run deploys a contract that is already recorded or whose
/// deployment is already in flight when the run starts.
proof fn lemma_no_redeploy(s: EngineV, events: Seq<EventV>, id: ContractId, j: int)
    requires
        wf_v(s),
        fits(s, events),
        0 <= j < events.len(),
        s.registry.contains_key(id) || s.phase == awaiting_phase(id),
    ensures
        !deploys(action_at(s, events, j), id),
    decreases j,
{
    if s.registry.contains_key(id) {
        lemma_memoization(s, events, id, j);
    } else {
        let e0 = events.first();
        lemma_step_frame(s, e0, id);
        let s1 = next(s, e0).state;
        if j == 0 {
        } else {
            lemma_next_wf(s, e0);
            lemma_state_shift(s, events, j);
            assert(events.drop_first()[j - 1] == events[j]);
            match e0 {
                EventV::Deployed(_) => {
                    lemma_memoization(s1, events.drop_first(), id, j - 1);
                },
                EventV::Failed(_) => {
                    assert(fits(s1, events.drop_first()));
                    assert(events.drop_first().len() >= 1);
                    assert(accepts(s1, events.drop_first().first()));
                    assert(s1.phase == Phase::Failed);
                    assert(false);
                },
                _ => {
                    assert(false);
                },
            }
        }
    }
}

/// At-most-once: across a single run, each contract's deployment is
/// broadcast at most once, however many dependency paths lead to it.
pub proof fn lemma_at_most_once(s: EngineV, events: Seq<EventV>, id: ContractId, i: int, j: int)
    requires
        wf_v(s),
        fits(s, events),
        0 <= i < j < events.len(),
        deploys(action_at(s, events, i), id),
    ensures
        !deploys(action_at(s, events, j), id),
    decreases i,
{
    let e0 = events.first();
    lemma_next_wf(s, e0);
    let s1 = next(s, e0).state;
    lemma_state_shift(s, events, j);
    assert(events.drop_first()[j - 1] == events[j]);
    if i == 0 {
        lemma_step_frame(s, e0, id);
        assert(s1.phase == awaiting_phase(id));
        lemma_no_redeploy(s1, events.drop_first(), id, j - 1);
    } else {
        lemma_state_shift(s, events, i);
        assert(events.drop_first()[i - 1] == events[i]);
        lemma_at_most_once(s1, events.drop_first(), id, i - 1, j - 1);
    }
}

/// Phases only move forward along a run.
pub proof fn lemma_rank_monotone(s: EngineV, events: Seq<EventV>, k: int, l: int)
    requires
        wf_v(s),
        fits(s, events),
        0 <= k <= l <= events.len(),
    ensures
        phase_rank(state_at(s, events, l).phase) >= phase_rank(state_at(s, events, k).phase),
    decreases l - k,
{
    if k < l {
        lemma_trace_wf(s, events, k);
        lemma_step_frame(state_at(s, events, k), events[k], ContractId::HotShot);
        lemma_rank_monotone(s, events, k + 1, l);
    }
}

/// A reported failure ends the run: its step aborts, and no further event
/// fits.
pub proof fn lemma_failure_is_terminal(s: EngineV, events: Seq<EventV>, i: int)
    requires
        wf_v(s),
        fits(s, events),
        0 <= i < events.len(),
        events[i] is Failed,
    ensures
        i == events.len() - 1,
        action_at(s, events, i) is Abort,
        state_at(s, events, i + 1).phase == Phase::Failed,
    decreases i,
{
    let e0 = events.first();
    lemma_next_wf(s, e0);
    let s1 = next(s, e0).state;
    if i == 0 {
        assert(s1.phase == Phase::Failed);
        assert(state_at(s, events, 0) == s);
        assert(state_at(s, events, 1) == s1);
        if events.len() > 1 {
            assert(fits(s1, events.drop_first()));
            assert(accepts(s1, events.drop_first().first()));
            assert(false);
        }
    } else {
        lemma_state_shift(s, events, i);
        lemma_state_shift(s, events, i + 1);
        assert(events.drop_first()[i - 1] == events[i]);
        lemma_failure_is_terminal(s1, events.drop_first(), i - 1);
    }
}

/// If a library deployment fails, no light-client or proxy deployment is
/// ever broadcast in that run and the record is never written: the run
/// stops before any dependent step.  Stated for the failure arriving while
/// any deployment at or before the verification-key library is in flight.
pub proof fn lemma_failure_blocks_dependents(s: EngineV, events: Seq<EventV>, i: int)
    requires
        wf_v(s),
        fits(s, events),
        0 <= i < events.len(),
        events[i] is Failed,
        phase_rank(state_at(s, events, i).phase) <= phase_rank(Phase::AwaitingStateUpdateVk),
    ensures
        forall|j: int|
            0 <= j < events.len() ==> {
                &&& !(#[trigger] action_at(s, events, j) is DeployLightClient)
                &&& !(action_at(s, events, j) is DeployProxy)
                &&& !(action_at(s, events, j) is WriteRecord)
            },
{
    lemma_failure_is_terminal(s, events, i);
    assert forall|j: int| 0 <= j < events.len() implies {
        &&& !(#[trigger] action_at(s, events, j) is DeployLightClient)
        &&& !(action_at(s, events, j) is DeployProxy)
        &&& !(action_at(s, events, j) is WriteRecord)
    } by {
        lemma_trace_wf(s, events, j);
        lemma_step_frame(state_at(s, events, j), events[j], ContractId::HotShot);
        if j < i {
            let a = action_at(s, events, j);
            if a is DeployLightClient || a is DeployProxy || a is WriteRecord {
                assert(phase_rank(state_at(s, events, j + 1).phase) >= 5);
                lemma_rank_monotone(s, events, j + 1, i);
                assert(false);
            }
        } else {
            assert(action_at(s, events, i) is Abort);
        }
    }
}

/// Dependency ordering: a light-client deployment is emitted only once
/// both libraries are recorded, its bytecode linked against exactly their
/// two recorded addresses; a proxy deployment is emitted only once the
/// light client is recorded, pointing at exactly its recorded address.
pub proof fn lemma_dependency_ordering(s: EngineV, e: EventV)
    requires
        wf_v(s),
        accepts(s, e),
    ensures
        ({
            let st = next(s, e);
            &&& (st.action matches ActionV::DeployLightClient(code) ==> {
                &&& s.registry.contains_key(ContractId::PlonkVerifier)
                &&& s.registry.contains_key(ContractId::StateUpdateVk)
                &&& e matches EventV::BytecodeLoaded(b) && code == linked_bytes(
                    b,
                    lib_table(s.registry),
                )
            })
            &&& (st.action matches ActionV::DeployProxy { implementation, .. } ==> {
                &&& s.registry.contains_key(ContractId::LightClient)
                &&& implementation == s.registry[ContractId::LightClient]
            })
        }),
{
    let m = s.registry;
    match s.phase {
        Phase::Start => {
            if m.contains_key(ContractId::HotShot) {
                lemma_resolve_proxy_frame(
                    m,
                    Seq::empty().push(
                        NoticeV::Skipped(ContractId::HotShot, m[ContractId::HotShot]),
                    ),
                    ContractId::HotShot,
                );
            }
        },
        Phase::AwaitingHotShot => {
            if let EventV::Deployed(a) = e {
                lemma_resolve_proxy_frame(
                    m.insert(ContractId::HotShot, a),
                    Seq::empty().push(NoticeV::Deployed(ContractId::HotShot, a)),
                    ContractId::HotShot,
                );
            }
        },
        _ => {},
    }
}

/// Idempotent rerun: with every contract already recorded, a run performs
/// zero deployments; it reports the standalone contract and the proxy as
/// skipped, writes a record identical in content to the initial registry,
/// and finishes with the registry unchanged.
pub proof fn lemma_idempotent_rerun(s: EngineV)
    requires
        wf_v(s),
        s.phase == Phase::Start,
        s.registry.contains_key(ContractId::HotShot),
        s.registry.contains_key(ContractId::PlonkVerifier),
        s.registry.contains_key(ContractId::StateUpdateVk),
        s.registry.contains_key(ContractId::LightClient),
        s.registry.contains_key(ContractId::LightClientProxy),
    ensures
        ({
            let events = seq![EventV::Start, EventV::Written];
            &&& fits(s, events)
            &&& action_at(s, events, 0) == ActionV::WriteRecord(entries_view(s.registry))
            &&& next(s, EventV::Start).notices == seq![
                NoticeV::Skipped(ContractId::HotShot, s.registry[ContractId::HotShot]),
                NoticeV::Skipped(
                    ContractId::LightClientProxy,
                    s.registry[ContractId::LightClientProxy],
                ),
            ]
            &&& action_at(s, events, 1) == ActionV::Finished
            &&& state_at(s, events, 2).registry == s.registry
            &&& state_at(s, events, 2).phase == Phase::Finished
            &&& forall|j: int| 0 <= j < 2 ==> !is_deploy(#[trigger] action_at(s, events, j))
        }),
{
    let events = seq![EventV::Start, EventV::Written];
    let st0 = next(s, EventV::Start);
    assert(st0.notices =~= seq![
        NoticeV::Skipped(ContractId::HotShot, s.registry[ContractId::HotShot]),
        NoticeV::Skipped(
            ContractId::LightClientProxy,
            s.registry[ContractId::LightClientProxy],
        ),
    ]);
    assert(events.first() == EventV::Start);
    assert(events[1] == EventV::Written);
    assert(events.drop_first() =~= seq![EventV::Written]);
    assert(seq![EventV::Written].drop_first() =~= Seq::<EventV>::empty());
    assert(state_at(s, events, 0) == s);
    assert(state_at(s, events, 1) == st0.state);
    let st1 = next(st0.state, EventV::Written);
    assert(state_at(s, events, 2) == st1.state);
    assert(fits(st1.state, Seq::<EventV>::empty()));
    assert(fits(st0.state, seq![EventV::Written]));
    assert(fits(s, events));
    assert(action_at(s, events, 0) == st0.action);
    assert(action_at(s, events, 1) == st1.action);
    assert(forall|j: int| 0 <= j < 2 ==> !is_deploy(#[trigger] action_at(s, events, j))) by {
        assert(action_at(s, events, 0) == st0.action);
        assert(action_at(s, events, 1) == st1.action);
    }
}

} // verus!
