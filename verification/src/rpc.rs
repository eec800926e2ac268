use crate::chain::ChainSelector;
use crate::finality::{FinalityLinkage, SharedAuthoritySet, SharedVoterState};
use vstd::prelude::*;

verus! {

/// What the RPC surface may read of finality: the voter state and the
/// authority set that were captured with the finality linkage.
#[derive(Clone, Copy, Debug, PartialEq, Eq, Structural)]
pub struct FinalitySnapshot {
    pub voter_state: SharedVoterState,
    pub authority_set: SharedAuthoritySet,
}

impl FinalitySnapshot {
    /// Reads the handles off a linkage without taking it.
    pub fn of(linkage: &FinalityLinkage) -> (snapshot: FinalitySnapshot)
        ensures
            snapshot.voter_state.construction == linkage.serial(),
            snapshot.authority_set.construction == linkage.serial(),
    {
        FinalitySnapshot {
            voter_state: linkage.shared_voter_state(),
            authority_set: linkage.shared_authority_set(),
        }
    }
}

/// The capabilities that the handlers of one RPC connection are given.
#[derive(Clone, Copy, Debug, PartialEq, Eq, Structural)]
pub enum RpcBundle {
    /// Queries over the chain, the pool, the best chain and finality.
    Full { select_chain: ChainSelector, deny_unsafe: bool, finality: FinalitySnapshot },
    /// Queries that are answered from remote data only.
    Light,
}

/// The RPC surface of a service. It holds what the handlers will need and
/// builds their bundle only when a connection asks for it.
#[derive(Clone, Copy, Debug, PartialEq, Eq, Structural)]
pub enum RpcSurface {
    Full { select_chain: ChainSelector, finality: FinalitySnapshot },
    Light,
}

impl RpcSurface {
    /// The bundle for one connection.
    pub open spec fn bundle(self, deny_unsafe: bool) -> RpcBundle {
        match self {
            RpcSurface::Full { select_chain, finality } => RpcBundle::Full {
                select_chain,
                deny_unsafe,
                finality,
            },
            RpcSurface::Light => RpcBundle::Light,
        }
    }

    /// Builds the bundle for a new connection, which may or may not be
    /// allowed to call unsafe methods.
    pub fn connect(&self, deny_unsafe: bool) -> (bundle: RpcBundle)
        ensures
            bundle == self.bundle(deny_unsafe),
    {
        match self {
            RpcSurface::Full { select_chain, finality } => RpcBundle::Full {
                select_chain: *select_chain,
                deny_unsafe,
                finality: *finality,
            },
            RpcSurface::Light => RpcBundle::Light,
        }
    }
}

} // verus!
