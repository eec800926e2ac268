use crate::role::Role;
use vstd::prelude::*;

verus! {

/// How often the finality gadget gossips, in milliseconds.
pub const GOSSIP_INTERVAL_MILLIS: u64 = 333;

/// After how many blocks a justification is emitted.
pub const JUSTIFICATION_PERIOD: u32 = 512;

/// What a node is started with.
#[derive(Debug, PartialEq, Eq)]
pub struct Configuration {
    pub role: Role,
    /// Author even while the node has no peers.
    pub force_authoring: bool,
    /// The name the node shows to the network.
    pub node_name: String,
    /// Switches the finality voter off; finality is then only observed.
    pub disable_grandpa: bool,
}

/// The outside collaborators that the surrounding node offers to a service
/// under construction.
#[derive(Clone, Copy, Debug, PartialEq, Eq, Structural)]
pub struct Collaborators {
    /// A best-chain rule is configured.
    pub chain_selector: bool,
    /// A fetcher for remote data is active; it brings its fetch checker.
    pub fetcher: bool,
    /// A remote blockchain backend is active.
    pub remote_blockchain: bool,
    /// The length of a slot as the runtime states it, in milliseconds.
    pub slot_duration_millis: u64,
}

impl Collaborators {
    /// What a full node offers: a chain selector and nothing remote.
    pub fn full(slot_duration_millis: u64) -> (offered: Collaborators)
        ensures
            offered == (Collaborators {
                chain_selector: true,
                fetcher: false,
                remote_blockchain: false,
                slot_duration_millis,
            }),
    {
        Collaborators {
            chain_selector: true,
            fetcher: false,
            remote_blockchain: false,
            slot_duration_millis,
        }
    }

    /// What a light node offers: a chain selector, a fetcher and a remote
    /// blockchain.
    pub fn light(slot_duration_millis: u64) -> (offered: Collaborators)
        ensures
            offered == (Collaborators {
                chain_selector: true,
                fetcher: true,
                remote_blockchain: true,
                slot_duration_millis,
            }),
    {
        Collaborators {
            chain_selector: true,
            fetcher: true,
            remote_blockchain: true,
            slot_duration_millis,
        }
    }
}

/// The configuration of the finality gadget. It is built once from the role
/// and the node's name and never changes.
#[derive(Debug, PartialEq, Eq)]
pub struct FinalityConfig {
    pub gossip_interval_millis: u64,
    pub justification_period: u32,
    pub name: Option<String>,
    pub observer_enabled: bool,
    pub is_authority: bool,
    /// Whether the gadget is given the key storage. A node that does not take
    /// part in consensus needs none.
    pub keystore: bool,
}

impl FinalityConfig {
    /// The configuration for a role: fixed timing, the node's name, no
    /// observer, keys for an authority only, and authority standing on the
    /// network for authorities and sentries.
    pub open spec fn of_role(role: Role, name: String) -> FinalityConfig {
        FinalityConfig {
            gossip_interval_millis: GOSSIP_INTERVAL_MILLIS,
            justification_period: JUSTIFICATION_PERIOD,
            name: Some(name),
            observer_enabled: false,
            is_authority: role.network_authority(),
            keystore: role.authority(),
        }
    }

    pub fn for_role(role: &Role, name: String) -> (config: FinalityConfig)
        ensures
            config == FinalityConfig::of_role(*role, name),
    {
        FinalityConfig {
            gossip_interval_millis: GOSSIP_INTERVAL_MILLIS,
            justification_period: JUSTIFICATION_PERIOD,
            name: Some(name),
            observer_enabled: false,
            is_authority: role.is_network_authority(),
            keystore: role.is_authority(),
        }
    }
}

} // verus!
