use crate::activation::{Activation, DiscoveryMode, ServiceKind, TaskKind, VoterMode};
use crate::author::{slot_after, slot_outcome, Author, SlotInput, SlotOutcome};
use crate::chain::{ChainSelector, ChainTip};
use crate::discovery::Discovery;
use crate::error::ImportError;
use crate::finality::{ProofRequestBuilder, Voter};
use crate::pipeline::{stages_of, Block, Evidence, ImportOutcome, Ledger, Submission};
use crate::queue::{queue_result, ImportQueue};
use crate::rpc::RpcSurface;
use crate::supervisor::{is_first_running, runs, Reaction, Supervisor, Task};
use sp_inherents::InherentDataProviders;
use vstd::prelude::*;

verus! {

/// How a transaction pool looks at its transactions again.
#[derive(Clone, Copy, Debug, PartialEq, Eq, Structural)]
pub enum Revalidation {
    /// Against the local state.
    Full,
    /// Against what the fetcher brings.
    Light,
}

/// The transaction pool of a service, as far as this crate decides on it.
#[derive(Clone, Copy, Debug, PartialEq, Eq, Structural)]
pub struct TransactionPool {
    pub revalidation: Revalidation,
}

/// An assembled node. It is made by the assembler, lives as long as the
/// process and is torn down from outside.
pub struct Service {
    pub kind: ServiceKind,
    /// The construction the service came out of. Its pipeline, its finality
    /// linkage and the handles read off it carry the same number.
    pub construction: u64,
    pub select_chain: Option<ChainSelector>,
    pub pool: TransactionPool,
    pub import_queue: ImportQueue,
    pub request_builder: Option<ProofRequestBuilder>,
    pub rpc: RpcSurface,
    pub providers: InherentDataProviders,
    pub author: Option<Author>,
    pub discovery: Option<Discovery>,
    pub voter: Option<Voter>,
    pub supervisor: Supervisor,
    pub ledger: Ledger,
}

impl Service {
    /// The optional components that are active in the service.
    pub open spec fn active(&self) -> Activation {
        Activation {
            author: self.author is Some,
            discovery: match self.discovery {
                Some(discovery) => discovery.mode,
                None => DiscoveryMode::Off,
            },
            voter: match self.voter {
                Some(voter) => voter.mode_of(),
                None => VoterMode::Omitted,
            },
        }
    }

    /// Every part works on what the one construction made: there is one
    /// pipeline, one registry of inherent-data providers and one finality
    /// linkage, and no part holds another.
    pub open spec fn threaded(&self) -> bool {
        &&& self.import_queue.pipeline_of().instance_of() == self.construction
        &&& self.import_queue.providers_of() == self.providers
        &&& self.author matches Some(author) ==> author.pipeline_of() == self.construction
            && author.providers_of() == self.providers
        &&& self.voter matches Some(voter) ==> voter.linkage_of().serial() == self.construction
            && voter.voter_state_of().construction == self.construction && voter.providers_of()
            == self.providers
        &&& self.rpc matches RpcSurface::Full { finality, .. } ==> finality.voter_state.construction
            == self.construction && finality.authority_set.construction == self.construction
        &&& self.request_builder matches Some(builder) ==> builder.construction
            == self.construction
    }

    /// The service is whole: it has the parts of its kind, composed in the
    /// order of its kind, and they are threaded.
    pub open spec fn wf(&self) -> bool {
        &&& self.threaded()
        &&& self.import_queue.pipeline_of()@ == stages_of(self.kind)
        &&& self.kind is Full ==> {
            &&& self.select_chain is Some
            &&& self.import_queue.selects()
            &&& self.pool.revalidation is Full
            &&& self.rpc is Full
            &&& self.request_builder is None
            &&& self.voter is Some
        }
        &&& self.kind is Light ==> {
            &&& self.pool.revalidation is Light
            &&& self.rpc is Light
            &&& self.request_builder is Some
            &&& self.author is None
            &&& self.discovery is None
            &&& self.voter is None
        }
    }

    /// What no step of a running service changes. A step may move the last
    /// slot of the author, the waiting blocks, the tasks and the ledger;
    /// everything else stays as it was assembled.
    pub open spec fn keeps_its_parts(&self, after: &Service) -> bool {
        &&& after.kind == self.kind
        &&& after.construction == self.construction
        &&& after.select_chain == self.select_chain
        &&& after.pool == self.pool
        &&& after.request_builder == self.request_builder
        &&& after.rpc == self.rpc
        &&& after.providers == self.providers
        &&& after.discovery == self.discovery
        &&& after.voter == self.voter
        &&& self.import_queue.same_building(&after.import_queue)
        &&& after.author is Some <==> self.author is Some
        &&& after.author matches Some(author) ==> self.author->0.same_spawning(&author)
    }

    pub fn active_components(&self) -> (table: Activation)
        ensures
            table == self.active(),
    {
        Activation {
            author: self.author.is_some(),
            discovery: match &self.discovery {
                Some(discovery) => discovery.mode,
                None => DiscoveryMode::Off,
            },
            voter: match &self.voter {
                Some(voter) => voter.mode(),
                None => VoterMode::Omitted,
            },
        }
    }

    /// Whether no essential task has ended yet.
    pub fn is_running(&self) -> (up: bool)
        ensures
            up == !self.supervisor.is_stopped(),
    {
        self.supervisor.is_running()
    }

    /// Hands a block from outside to the import queue.
    pub fn submit_block(&mut self, block: Block, justification: Option<Evidence>) -> (result: Result<
        (),
        ImportError,
    >)
        ensures
            old(self).keeps_its_parts(final(self)),
            final(self).author == old(self).author,
            final(self).supervisor == old(self).supervisor,
            final(self).ledger == old(self).ledger,
            result is Ok <==> old(self).import_queue.selects(),
            result matches Err(error) ==> error == ImportError::SelectionUnavailable,
            final(self).import_queue.pending_of() == if result is Ok {
                old(self).import_queue.pending_of().push(Submission { block, justification })
            } else {
                old(self).import_queue.pending_of()
            },
    {
        self.import_queue.submit(block, justification)
    }

    /// Validates the oldest waiting block and applies it to the ledger of
    /// the service through the head of its pipeline.
    pub fn import_next(&mut self) -> (result: Option<Result<ImportOutcome, ImportError>>)
        ensures
            old(self).keeps_its_parts(final(self)),
            final(self).author == old(self).author,
            final(self).supervisor == old(self).supervisor,
            old(self).import_queue.pending_of().len() == 0 ==> {
                &&& result is None
                &&& final(self).import_queue.pending_of() == old(self).import_queue.pending_of()
            },
            old(self).import_queue.pending_of().len() > 0 ==> {
                &&& result == Some(
                    queue_result(
                        old(self).import_queue.pipeline_of()@,
                        old(self).import_queue.pending_of()[0],
                    ),
                )
                &&& final(self).import_queue.pending_of() == old(self).import_queue.pending_of().drop_first()
            },
            !(result matches Some(Ok(_))) ==> final(self).ledger == old(self).ledger,
            result matches Some(Ok(outcome)) ==> {
                &&& final(self).ledger.applied@ == old(self).ledger.applied@.push(
                    old(self).import_queue.pending_of()[0].block.id,
                )
                &&& final(self).ledger.finalized@ == if outcome.finalized {
                    old(self).ledger.finalized@.push(old(self).import_queue.pending_of()[0].block.id)
                } else {
                    old(self).ledger.finalized@
                }
            },
    {
        self.import_queue.process_next(&mut self.ledger)
    }

    /// Lets the author work on the slot that begins. The candidate goes
    /// through the head of the one pipeline of the service, as every block
    /// from outside does. `None` for a service that has no author or no
    /// chain selector.
    pub fn author_slot(&mut self, input: &SlotInput, tips: &Vec<ChainTip>) -> (outcome: Option<
        SlotOutcome,
    >)
        ensures
            old(self).keeps_its_parts(final(self)),
            final(self).supervisor == old(self).supervisor,
            final(self).import_queue.pending_of() == old(self).import_queue.pending_of(),
            outcome is Some <==> old(self).author is Some && old(self).select_chain is Some,
            outcome is None ==> final(self).author == old(self).author,
            outcome matches Some(slot) ==> {
                &&& slot == slot_outcome(
                    old(self).author->0.last(),
                    old(self).import_queue.pipeline_of()@,
                    tips@,
                    *input,
                )
                &&& final(self).author->0.last() == slot_after(
                    old(self).author->0.last(),
                    *input,
                    slot,
                )
            },
            !(outcome matches Some(SlotOutcome::Authored { .. })) ==> final(self).ledger == old(
                self,
            ).ledger,
            outcome matches Some(SlotOutcome::Authored { block, outcome: imported }) ==> {
                &&& final(self).ledger.applied@ == old(self).ledger.applied@.push(block.id)
                &&& final(self).ledger.finalized@ == if imported.finalized {
                    old(self).ledger.finalized@.push(block.id)
                } else {
                    old(self).ledger.finalized@
                }
            },
    {
        let selector = match self.select_chain {
            Some(selector) => selector,
            None => {
                return None;
            },
        };
        match &mut self.author {
            None => None,
            Some(author) => Some(
                author.on_slot(input, &selector, tips, self.import_queue.pipeline(), &mut self.ledger),
            ),
        }
    }

    /// Takes note that a task has ended and lets the supervisor decide.
    pub fn task_exited(&mut self, kind: TaskKind) -> (reaction: Reaction)
        ensures
            old(self).keeps_its_parts(final(self)),
            final(self).author == old(self).author,
            final(self).import_queue.pending_of() == old(self).import_queue.pending_of(),
            final(self).ledger == old(self).ledger,
            reaction is Ignored <==> !runs(old(self).supervisor.tasks_of(), kind),
            reaction is Ignored ==> final(self).supervisor == old(self).supervisor,
            reaction !is Ignored ==> exists|at: int|
                {
                    &&& is_first_running(old(self).supervisor.tasks_of(), kind, at)
                    &&& final(self).supervisor.tasks_of() == old(self).supervisor.tasks_of().update(
                        at,
                        Task { running: false, ..old(self).supervisor.tasks_of()[at] },
                    )
                    &&& reaction == if old(self).supervisor.tasks_of()[at].criticality is Essential {
                        Reaction::Shutdown
                    } else {
                        Reaction::Logged
                    }
                },
            final(self).supervisor.is_stopped() == (old(self).supervisor.is_stopped()
                || reaction is Shutdown),
    {
        self.supervisor.on_exit(kind)
    }
}

/// A running service stays whole, whatever it imports, authors or loses.
pub proof fn steps_keep_a_service_whole(before: Service, after: Service)
    requires
        before.wf(),
        before.keeps_its_parts(&after),
    ensures
        after.wf(),
        after.active() == before.active(),
{
}

} // verus!
