use crate::activation::VoterMode;
use crate::config::FinalityConfig;
use sp_inherents::InherentDataProviders;
use vstd::prelude::*;

verus! {

/// A handle on the authority set that the finality stage and the voter
/// share. The set itself changes only inside the finality gadget; this crate
/// hands the handle on and says which construction it belongs to.
#[derive(Clone, Copy, Debug, PartialEq, Eq, Structural)]
pub struct SharedAuthoritySet {
    pub construction: u64,
}

/// A handle on the voter state that the voter writes and the RPC surface
/// reads.
#[derive(Clone, Copy, Debug, PartialEq, Eq, Structural)]
pub struct SharedVoterState {
    pub construction: u64,
}

/// Builds the requests for finality proofs that a light service sends to
/// its peers.
#[derive(Clone, Copy, Debug, PartialEq, Eq, Structural)]
pub struct ProofRequestBuilder {
    pub construction: u64,
}

/// The link between the import pipeline and the finality voter. It is made
/// once, when the import queue of a full service is constructed, and it
/// cannot be copied: whoever activates the voter takes it and nobody can
/// take it again.
#[derive(Debug, PartialEq, Eq)]
pub struct FinalityLinkage {
    construction: u64,
}

impl FinalityLinkage {
    /// The construction in which the linkage was made.
    pub closed spec fn serial(&self) -> u64 {
        self.construction
    }

    pub(crate) fn produce(construction: u64) -> (linkage: FinalityLinkage)
        ensures
            linkage.serial() == construction,
    {
        FinalityLinkage { construction }
    }

    pub fn construction(&self) -> (construction: u64)
        ensures
            construction == self.serial(),
    {
        self.construction
    }

    /// The authority set that was captured with the linkage.
    pub fn shared_authority_set(&self) -> (set: SharedAuthoritySet)
        ensures
            set.construction == self.serial(),
    {
        SharedAuthoritySet { construction: self.construction }
    }

    /// The voter state that was captured with the linkage.
    pub fn shared_voter_state(&self) -> (state: SharedVoterState)
        ensures
            state.construction == self.serial(),
    {
        SharedVoterState { construction: self.construction }
    }
}

/// The two states of the finality voter. Which one a voter is in is fixed
/// when it starts; there is no way from one to the other.
#[derive(Clone, Copy, Debug, PartialEq, Eq, Structural)]
pub enum VoterState {
    /// Finality is observed so that the read paths keep working; no vote is
    /// cast and no task runs.
    Disabled,
    /// The round-based voting protocol runs as an essential task.
    Active,
}

/// The finality voter of a full service. What it was started with stays
/// with it: nothing changes its state, and the linkage it took is never
/// handed out again.
pub struct Voter {
    state: VoterState,
    config: FinalityConfig,
    linkage: FinalityLinkage,
    voter_state: SharedVoterState,
    providers: InherentDataProviders,
}

impl Voter {
    /// The state the voter was started in.
    pub closed spec fn state_of(&self) -> VoterState {
        self.state
    }

    /// The configuration the voter was started with.
    pub closed spec fn config_of(&self) -> FinalityConfig {
        self.config
    }

    /// The linkage the voter took.
    pub closed spec fn linkage_of(&self) -> FinalityLinkage {
        self.linkage
    }

    /// The voter state that the RPC surface reads.
    pub closed spec fn voter_state_of(&self) -> SharedVoterState {
        self.voter_state
    }

    /// The registry of inherent-data providers the voter was given.
    pub closed spec fn providers_of(&self) -> InherentDataProviders {
        self.providers
    }

    /// Starts the voter, consuming the linkage.
    pub fn start(
        disabled: bool,
        config: FinalityConfig,
        linkage: FinalityLinkage,
        providers: InherentDataProviders,
    ) -> (voter: Voter)
        ensures
            voter.state_of() == if disabled {
                VoterState::Disabled
            } else {
                VoterState::Active
            },
            voter.config_of() == config,
            voter.linkage_of() == linkage,
            voter.voter_state_of().construction == linkage.serial(),
            voter.providers_of() == providers,
    {
        let state = if disabled {
            VoterState::Disabled
        } else {
            VoterState::Active
        };
        let voter_state = linkage.shared_voter_state();
        Voter { state, config, linkage, voter_state, providers }
    }

    pub fn state(&self) -> (state: VoterState)
        ensures
            state == self.state_of(),
    {
        self.state
    }

    pub fn config(&self) -> (config: &FinalityConfig)
        ensures
            *config == self.config_of(),
    {
        &self.config
    }

    pub fn linkage(&self) -> (linkage: &FinalityLinkage)
        ensures
            *linkage == self.linkage_of(),
    {
        &self.linkage
    }

    pub fn voter_state(&self) -> (state: SharedVoterState)
        ensures
            state == self.voter_state_of(),
    {
        self.voter_state
    }

    pub fn providers(&self) -> (providers: &InherentDataProviders)
        ensures
            *providers == self.providers_of(),
    {
        &self.providers
    }

    /// How the voter counts in the activation of its service.
    pub open spec fn mode_of(&self) -> VoterMode {
        match self.state_of() {
            VoterState::Disabled => VoterMode::Disabled,
            VoterState::Active => VoterMode::Active,
        }
    }

    pub fn mode(&self) -> (mode: VoterMode)
        ensures
            mode == self.mode_of(),
    {
        match self.state {
            VoterState::Disabled => VoterMode::Disabled,
            VoterState::Active => VoterMode::Active,
        }
    }

    /// Only an active voter listens for reconnects of the network, on which
    /// it brings its state up to date; a disabled voter has no state to keep.
    pub open spec fn resynchronizes(&self) -> bool {
        self.state_of() is Active
    }

    pub fn listens_for_reconnects(&self) -> (listens: bool)
        ensures
            listens == self.resynchronizes(),
    {
        match self.state {
            VoterState::Disabled => false,
            VoterState::Active => true,
        }
    }

    /// Only an active voter that was given the key storage casts votes.
    pub open spec fn votes(&self) -> bool {
        self.state_of() is Active && self.config_of().keystore
    }

    pub fn casts_votes(&self) -> (votes: bool)
        ensures
            votes == self.votes(),
    {
        match self.state {
            VoterState::Disabled => false,
            VoterState::Active => self.config.keystore,
        }
    }
}

} // verus!
