use vstd::prelude::*;

verus! {

/// The operating mode of a node. It is supplied at startup and never changes
/// while the process lives.
#[derive(Debug, PartialEq, Eq)]
pub enum Role {
    /// Authors blocks and votes on finality; carries the addresses of the
    /// sentry nodes that shield it.
    Authority { sentry_nodes: Vec<String> },
    /// Relays for an authority without authoring or holding keys.
    Sentry,
    /// Follows the chain with the full state.
    Full,
    /// Follows the chain by headers and proofs fetched from peers.
    Light,
}

impl Role {
    /// Whether the node takes part in consensus with keys of its own.
    pub open spec fn authority(&self) -> bool {
        self is Authority
    }

    /// Whether the network treats the node as an authority: an authority
    /// itself, or a sentry standing in front of one.
    pub open spec fn network_authority(&self) -> bool {
        self is Authority || self is Sentry
    }

    /// Whether the node is a light client.
    pub open spec fn light(&self) -> bool {
        self is Light
    }

    /// The sentry addresses of an authority; empty for every other role.
    pub open spec fn sentries(&self) -> Seq<String> {
        match self {
            Role::Authority { sentry_nodes } => sentry_nodes@,
            _ => Seq::empty(),
        }
    }

    pub fn is_authority(&self) -> (b: bool)
        ensures
            b == self.authority(),
    {
        match self {
            Role::Authority { .. } => true,
            _ => false,
        }
    }

    pub fn is_network_authority(&self) -> (b: bool)
        ensures
            b == self.network_authority(),
    {
        match self {
            Role::Authority { .. } => true,
            Role::Sentry => true,
            _ => false,
        }
    }

    pub fn is_light(&self) -> (b: bool)
        ensures
            b == self.light(),
    {
        match self {
            Role::Light => true,
            _ => false,
        }
    }

    /// Gives up the role and keeps its sentry addresses.
    pub fn into_sentries(self) -> (nodes: Vec<String>)
        ensures
            nodes@ == self.sentries(),
    {
        match self {
            Role::Authority { sentry_nodes } => sentry_nodes,
            _ => Vec::new(),
        }
    }
}

} // verus!
