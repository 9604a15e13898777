//! The memoizing registry of deployed contract addresses.

use vstd::prelude::*;

use crate::address::{Address, ADDRESS_LEN};
use crate::contract_id::ContractId;

verus! {

/// Mapping from logical contract to deployed address: the single source of
/// truth for "has this contract been deployed yet".
///
/// Keys obey write-once semantics for the lifetime of a run: once an address
/// is recorded under an identifier, it never changes ([`Self::record`]
/// requires the key to be absent).  The registry is populated initially from
/// caller-supplied pre-deployed addresses and then incrementally by
/// successful deployments.
pub struct AddressRegistry {
    hotshot: Option<Address>,
    plonk_verifier: Option<Address>,
    state_update_vk: Option<Address>,
    light_client: Option<Address>,
    light_client_proxy: Option<Address>,
}

impl AddressRegistry {
    /// The slot that stores the given contract's address.
    closed spec fn slot(&self, id: ContractId) -> Option<Address> {
        match id {
            ContractId::HotShot => self.hotshot,
            ContractId::PlonkVerifier => self.plonk_verifier,
            ContractId::StateUpdateVk => self.state_update_vk,
            ContractId::LightClient => self.light_client,
            ContractId::LightClientProxy => self.light_client_proxy,
        }
    }

    /// Every recorded address is well formed.
    pub open spec fn wf(&self) -> bool {
        forall|id: ContractId|
            self@.contains_key(id) ==> (#[trigger] self@[id]).len() == ADDRESS_LEN
    }

    /// An empty registry.
    pub fn new() -> (r: AddressRegistry)
        ensures
            r@ == Map::<ContractId, Seq<u8>>::empty(),
            r.wf(),
    {
        let r = AddressRegistry {
            hotshot: None,
            plonk_verifier: None,
            state_update_vk: None,
            light_client: None,
            light_client_proxy: None,
        };
        proof {
            assert(r@ =~= Map::<ContractId, Seq<u8>>::empty());
        }
        r
    }

    /// A registry pre-populated with the caller-supplied addresses of
    /// contracts that already exist on chain.  Every identifier whose
    /// argument is `Some` is recorded with that address; every other
    /// identifier is absent.
    pub fn from_predeployed(
        hotshot: Option<Address>,
        plonk_verifier: Option<Address>,
        state_update_vk: Option<Address>,
        light_client: Option<Address>,
        light_client_proxy: Option<Address>,
    ) -> (r: AddressRegistry)
        requires
            hotshot is Some ==> hotshot->0.wf(),
            plonk_verifier is Some ==> plonk_verifier->0.wf(),
            state_update_vk is Some ==> state_update_vk->0.wf(),
            light_client is Some ==> light_client->0.wf(),
            light_client_proxy is Some ==> light_client_proxy->0.wf(),
        ensures
            r.wf(),
            r@.contains_key(ContractId::HotShot) == hotshot is Some,
            r@.contains_key(ContractId::PlonkVerifier) == plonk_verifier is Some,
            r@.contains_key(ContractId::StateUpdateVk) == state_update_vk is Some,
            r@.contains_key(ContractId::LightClient) == light_client is Some,
            r@.contains_key(ContractId::LightClientProxy) == light_client_proxy is Some,
            hotshot is Some ==> r@[ContractId::HotShot] == hotshot->0@,
            plonk_verifier is Some ==> r@[ContractId::PlonkVerifier] == plonk_verifier->0@,
            state_update_vk is Some ==> r@[ContractId::StateUpdateVk] == state_update_vk->0@,
            light_client is Some ==> r@[ContractId::LightClient] == light_client->0@,
            light_client_proxy is Some ==> r@[ContractId::LightClientProxy] == light_client_proxy->0@,
    {
        AddressRegistry {
            hotshot,
            plonk_verifier,
            state_update_vk,
            light_client,
            light_client_proxy,
        }
    }

    /// Whether an address is recorded for the given contract.
    pub fn contains(&self, id: ContractId) -> (r: bool)
        ensures
            r == self@.contains_key(id),
    {
        match id {
            ContractId::HotShot => self.hotshot.is_some(),
            ContractId::PlonkVerifier => self.plonk_verifier.is_some(),
            ContractId::StateUpdateVk => self.state_update_vk.is_some(),
            ContractId::LightClient => self.light_client.is_some(),
            ContractId::LightClientProxy => self.light_client_proxy.is_some(),
        }
    }

    /// The address recorded for the given contract, if any.
    pub fn get(&self, id: ContractId) -> (r: Option<Address>)
        requires
            self.wf(),
        ensures
            match r {
                Some(a) => self@.contains_key(id) && a@ == self@[id] && a.wf(),
                None => !self@.contains_key(id),
            },
    {
        let slot = match id {
            ContractId::HotShot => &self.hotshot,
            ContractId::PlonkVerifier => &self.plonk_verifier,
            ContractId::StateUpdateVk => &self.state_update_vk,
            ContractId::LightClient => &self.light_client,
            ContractId::LightClientProxy => &self.light_client_proxy,
        };
        match slot {
            Some(a) => Some(a.duplicate()),
            None => None,
        }
    }

    /// Records a freshly deployed contract's address.  The key must be
    /// absent: a recorded address never changes for the lifetime of a run.
    pub fn record(&mut self, id: ContractId, addr: Address)
        requires
            old(self).wf(),
            !old(self)@.contains_key(id),
            addr.wf(),
        ensures
            final(self)@ == old(self)@.insert(id, addr@),
            final(self).wf(),
    {
        match id {
            ContractId::HotShot => {
                self.hotshot = Some(addr);
            },
            ContractId::PlonkVerifier => {
                self.plonk_verifier = Some(addr);
            },
            ContractId::StateUpdateVk => {
                self.state_update_vk = Some(addr);
            },
            ContractId::LightClient => {
                self.light_client = Some(addr);
            },
            ContractId::LightClientProxy => {
                self.light_client_proxy = Some(addr);
            },
        }
        proof {
            assert(self@ =~= old(self)@.insert(id, addr@));
        }
    }
}

/// The pairs a registry map contributes for one identifier: a singleton
/// when the identifier is recorded, nothing otherwise.
pub open spec fn entry_opt(m: Map<ContractId, Seq<u8>>, id: ContractId) -> Seq<
    (ContractId, Seq<u8>),
> {
    if m.contains_key(id) {
        seq![(id, m[id])]
    } else {
        Seq::empty()
    }
}

/// The recorded pairs of a registry map, one per present identifier, in the
/// fixed identifier order.  The record's meaning does not depend on this
/// order; fixing one keeps the output reproducible.
pub open spec fn entries_view(m: Map<ContractId, Seq<u8>>) -> Seq<(ContractId, Seq<u8>)> {
    entry_opt(m, ContractId::HotShot) + entry_opt(m, ContractId::PlonkVerifier) + entry_opt(
        m,
        ContractId::StateUpdateVk,
    ) + entry_opt(m, ContractId::LightClient) + entry_opt(m, ContractId::LightClientProxy)
}

/// Mathematical value of a sequence of recorded pairs.
pub open spec fn record_pairs_view(s: Seq<(ContractId, Address)>) -> Seq<(ContractId, Seq<u8>)> {
    s.map_values(|p: (ContractId, Address)| (p.0, p.1@))
}

impl AddressRegistry {
    /// A snapshot of the registry as (identifier, address) pairs in the
    /// fixed identifier order: the final deployment record.
    pub fn entries(&self) -> (r: Vec<(ContractId, Address)>)
        requires
            self.wf(),
        ensures
            record_pairs_view(r@) == entries_view(self@),
    {
        let mut r: Vec<(ContractId, Address)> = Vec::new();
        proof {
            assert(record_pairs_view(r@) =~= Seq::<(ContractId, Seq<u8>)>::empty());
        }
        if let Some(a) = self.get(ContractId::HotShot) {
            r.push((ContractId::HotShot, a));
        }
        proof {
            assert(record_pairs_view(r@) =~= entry_opt(self@, ContractId::HotShot));
        }
        if let Some(a) = self.get(ContractId::PlonkVerifier) {
            r.push((ContractId::PlonkVerifier, a));
        }
        proof {
            assert(record_pairs_view(r@) =~= entry_opt(self@, ContractId::HotShot) + entry_opt(
                self@,
                ContractId::PlonkVerifier,
            ));
        }
        if let Some(a) = self.get(ContractId::StateUpdateVk) {
            r.push((ContractId::StateUpdateVk, a));
        }
        proof {
            assert(record_pairs_view(r@) =~= entry_opt(self@, ContractId::HotShot) + entry_opt(
                self@,
                ContractId::PlonkVerifier,
            ) + entry_opt(self@, ContractId::StateUpdateVk));
        }
        if let Some(a) = self.get(ContractId::LightClient) {
            r.push((ContractId::LightClient, a));
        }
        proof {
            assert(record_pairs_view(r@) =~= entry_opt(self@, ContractId::HotShot) + entry_opt(
                self@,
                ContractId::PlonkVerifier,
            ) + entry_opt(self@, ContractId::StateUpdateVk) + entry_opt(
                self@,
                ContractId::LightClient,
            ));
        }
        if let Some(a) = self.get(ContractId::LightClientProxy) {
            r.push((ContractId::LightClientProxy, a));
        }
        proof {
            assert(record_pairs_view(r@) =~= entries_view(self@));
        }
        r
    }
}

impl View for AddressRegistry {
    type V = Map<ContractId, Seq<u8>>;

    closed spec fn view(&self) -> Map<ContractId, Seq<u8>> {
        Map::new(
            |id: ContractId| self.slot(id) is Some,
            |id: ContractId| self.slot(id)->0@,
        )
    }
}

} // verus!
