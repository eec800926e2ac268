use crate::role::Role;
use vstd::prelude::*;

verus! {

/// The two shapes a node service is built in.
#[derive(Clone, Copy, Debug, PartialEq, Eq, Structural)]
pub enum ServiceKind {
    /// Every component, with authoring state.
    Full,
    /// Import queue and finality-proof verification only.
    Light,
}

impl ServiceKind {
    /// A full service can author, vote and run authority discovery.
    pub open spec fn authoring(self) -> bool {
        self is Full
    }

    /// A light service requests finality proofs from peers and verifies them.
    pub open spec fn proof_fetch(self) -> bool {
        self is Light
    }

    /// The shape in which a node of the given role is built.
    pub open spec fn of_role(role: Role) -> ServiceKind {
        if role.light() {
            ServiceKind::Light
        } else {
            ServiceKind::Full
        }
    }

    pub fn has_authoring(self) -> (b: bool)
        ensures
            b == self.authoring(),
    {
        match self {
            ServiceKind::Full => true,
            ServiceKind::Light => false,
        }
    }

    pub fn has_proof_fetch(self) -> (b: bool)
        ensures
            b == self.proof_fetch(),
    {
        match self {
            ServiceKind::Full => false,
            ServiceKind::Light => true,
        }
    }

    pub fn for_role(role: &Role) -> (kind: ServiceKind)
        ensures
            kind == ServiceKind::of_role(*role),
    {
        if role.is_light() {
            ServiceKind::Light
        } else {
            ServiceKind::Full
        }
    }
}

/// The long-running tasks a node may run beside its import queue.
#[derive(Clone, Copy, Debug, PartialEq, Eq, Structural)]
pub enum TaskKind {
    Author,
    AuthorityDiscovery,
    FinalityVoter,
}

/// What the death of a task means for the node.
#[derive(Clone, Copy, Debug, PartialEq, Eq, Structural)]
pub enum Criticality {
    /// The node is brought down with the task.
    Essential,
    /// The failure is logged and the node goes on.
    NonEssential,
}

/// How authority discovery runs.
#[derive(Clone, Copy, Debug, PartialEq, Eq, Structural)]
pub enum DiscoveryMode {
    Off,
    /// Signs its records with the local key storage.
    Authority,
    /// Forwards only; holds no keys.
    Sentry,
}

/// How the finality voter runs.
#[derive(Clone, Copy, Debug, PartialEq, Eq, Structural)]
pub enum VoterMode {
    /// The service has no voter at all.
    Omitted,
    /// Finality is observed, no vote is cast.
    Disabled,
    /// Full voting participant.
    Active,
}

/// The optional components that are active in a service.
#[derive(Clone, Copy, Debug, PartialEq, Eq, Structural)]
pub struct Activation {
    pub author: bool,
    pub discovery: DiscoveryMode,
    pub voter: VoterMode,
}

impl Activation {
    /// The tasks that are spawned for this activation, in spawn order. A
    /// disabled voter is set up without a task of its own.
    pub open spec fn tasks(self) -> Seq<TaskKind> {
        let author = if self.author {
            seq![TaskKind::Author]
        } else {
            Seq::empty()
        };
        let discovery = if self.discovery is Off {
            Seq::empty()
        } else {
            seq![TaskKind::AuthorityDiscovery]
        };
        let voter = if self.voter is Active {
            seq![TaskKind::FinalityVoter]
        } else {
            Seq::empty()
        };
        author + discovery + voter
    }
}

/// The activation table: which optional components a service of the given
/// shape runs for a role. A light service runs none of them. A full service
/// authors exactly as an authority, runs discovery as an authority or a
/// sentry, and always has a voter, active unless it was switched off.
pub open spec fn activation_for(kind: ServiceKind, role: Role, disable_voter: bool) -> Activation {
    if kind.authoring() {
        Activation {
            author: role.authority(),
            discovery: if role.authority() {
                DiscoveryMode::Authority
            } else if role is Sentry {
                DiscoveryMode::Sentry
            } else {
                DiscoveryMode::Off
            },
            voter: if disable_voter {
                VoterMode::Disabled
            } else {
                VoterMode::Active
            },
        }
    } else {
        Activation { author: false, discovery: DiscoveryMode::Off, voter: VoterMode::Omitted }
    }
}

/// Looks a role up in the activation table.
pub fn activation(kind: ServiceKind, role: &Role, disable_voter: bool) -> (table: Activation)
    ensures
        table == activation_for(kind, *role, disable_voter),
{
    if kind.has_authoring() {
        let discovery = match role {
            Role::Authority { .. } => DiscoveryMode::Authority,
            Role::Sentry => DiscoveryMode::Sentry,
            _ => DiscoveryMode::Off,
        };
        let voter = if disable_voter {
            VoterMode::Disabled
        } else {
            VoterMode::Active
        };
        Activation { author: role.is_authority(), discovery, voter }
    } else {
        Activation { author: false, discovery: DiscoveryMode::Off, voter: VoterMode::Omitted }
    }
}

/// Authoring and voting are essential: a dead author or voter would leave a
/// node that looks healthy and produces or finalizes nothing. Discovery is not.
pub open spec fn criticality_of(task: TaskKind) -> Criticality {
    match task {
        TaskKind::Author => Criticality::Essential,
        TaskKind::FinalityVoter => Criticality::Essential,
        TaskKind::AuthorityDiscovery => Criticality::NonEssential,
    }
}

pub fn criticality(task: TaskKind) -> (c: Criticality)
    ensures
        c == criticality_of(task),
{
    match task {
        TaskKind::Author => Criticality::Essential,
        TaskKind::FinalityVoter => Criticality::Essential,
        TaskKind::AuthorityDiscovery => Criticality::NonEssential,
    }
}

} // verus!
