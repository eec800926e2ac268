//! Assembly of a blockchain node's runtime pipeline.
//!
//! The crate decides, from a node's role and configuration, which components a
//! node is made of, in which order its block-import stages wrap each other, and
//! which long-running tasks run with which criticality. The surrounding program
//! owns the ledger, the network and the key storage; it hands their verdicts to
//! this crate as plain values and carries out what the crate decides.

pub mod activation;
pub mod assembler;
pub mod author;
pub mod chain;
pub mod config;
pub mod discovery;
pub mod error;
pub mod finality;
pub mod inherents;
pub mod node;
pub mod pipeline;
pub mod queue;
pub mod role;
pub mod rpc;
pub mod supervisor;

pub use activation::{
    activation, criticality, Activation, Criticality, DiscoveryMode, ServiceKind, TaskKind,
    VoterMode,
};
pub use assembler::{
    activate, assemble, build_shell, import_queue, new_full, new_light, rpc_surface, select_chain,
    transaction_pool, Assembler, ImportSetup, Shell,
};
pub use author::{Author, AuthoringFailure, SlotInput, SlotOutcome};
pub use chain::{ChainSelector, ChainTip};
pub use config::{
    Collaborators, Configuration, FinalityConfig, GOSSIP_INTERVAL_MILLIS, JUSTIFICATION_PERIOD,
};
pub use discovery::{dht_event, dht_events, Discovery, NetworkEvent};
pub use error::{ImportError, ServiceError};
pub use finality::{
    FinalityLinkage, ProofRequestBuilder, SharedAuthoritySet, SharedVoterState, Voter, VoterState,
};
pub use node::{Revalidation, Service, TransactionPool};
pub use pipeline::{
    Block, Evidence, ImportOutcome, ImportPipeline, Ledger, Stage, Submission,
};
pub use queue::ImportQueue;
pub use role::Role;
pub use rpc::{FinalitySnapshot, RpcBundle, RpcSurface};
pub use supervisor::{Reaction, Supervisor, Task};
