use crate::chain::{best_of, ChainSelector, ChainTip};
use crate::error::ImportError;
use crate::pipeline::{import_result, Block, Evidence, ImportOutcome, ImportPipeline, Ledger, Stage, Submission};
use sp_inherents::InherentDataProviders;
use vstd::prelude::*;

verus! {

/// What the collaborators of the author report at one slot boundary.
#[derive(Clone, Copy, Debug, PartialEq, Eq, Structural)]
pub struct SlotInput {
    /// The slot that begins.
    pub slot: u64,
    /// The identity that the proposer gives to its candidate block.
    pub candidate: u64,
    /// How many transactions are ready in the pool.
    pub pending: u64,
    /// Whether the native runtime version may author on the best chain.
    pub compatible: bool,
    /// Whether the proposer managed to build a candidate.
    pub proposal: Evidence,
    /// Whether the ledger can apply the candidate.
    pub execution: Evidence,
}

/// Why no block came out of a slot. Each of these is logged, and authoring
/// resumes at the next slot.
#[derive(Clone, Copy, Debug, PartialEq, Eq, Structural)]
pub enum AuthoringFailure {
    /// The chain selector knows no tip to build on.
    NoBestChain,
    /// The author compatibility check failed.
    Incompatible,
    /// The proposer built no candidate.
    ProposalFailed,
    /// The import pipeline turned the candidate away.
    ImportFailed(ImportError),
}

/// What the author did with a slot.
#[derive(Clone, Copy, Debug, PartialEq, Eq, Structural)]
pub enum SlotOutcome {
    /// The candidate went through the pipeline and was applied.
    Authored { block: Block, outcome: ImportOutcome },
    /// The slot is not ahead of the last one the author worked on.
    Skipped,
    /// The slot came to nothing.
    Failed(AuthoringFailure),
}

/// The candidate block of a slot: one above the best tip, with every
/// transaction that is ready, under the author's own seal.
pub open spec fn candidate_block(tip: ChainTip, input: SlotInput) -> Block {
    Block {
        id: input.candidate,
        number: (tip.number + 1) as u64,
        slot: input.slot,
        transactions: input.pending,
        seal: Evidence::Valid,
        execution: input.execution,
    }
}

/// What a slot comes to. A slot that is not ahead of the last one is
/// skipped. Else the author asks the chain selector for the best tip, checks
/// that it may author there, has a candidate proposed and pushes it through
/// the head of the pipeline; the first of these that fails ends the slot.
pub open spec fn slot_outcome(
    last_slot: Option<u64>,
    stages: Seq<Stage>,
    tips: Seq<ChainTip>,
    input: SlotInput,
) -> SlotOutcome {
    if last_slot matches Some(last) && input.slot <= last {
        SlotOutcome::Skipped
    } else {
        match best_of(tips) {
            None => SlotOutcome::Failed(AuthoringFailure::NoBestChain),
            Some(tip) => if !input.compatible {
                SlotOutcome::Failed(AuthoringFailure::Incompatible)
            } else if input.proposal is Invalid || tip.number == u64::MAX {
                SlotOutcome::Failed(AuthoringFailure::ProposalFailed)
            } else {
                let block = candidate_block(tip, input);
                match import_result(stages, Submission { block, justification: None }) {
                    Ok(outcome) => SlotOutcome::Authored { block, outcome },
                    Err(error) => SlotOutcome::Failed(AuthoringFailure::ImportFailed(error)),
                }
            },
        }
    }
}

/// The last slot the author has worked on, after a slot with the given
/// outcome.
pub open spec fn slot_after(last_slot: Option<u64>, input: SlotInput, outcome: SlotOutcome) -> Option<
    u64,
> {
    if outcome is Skipped {
        last_slot
    } else {
        Some(input.slot)
    }
}

/// The block author of an authority. Once per slot it proposes a block from
/// the pending transactions and pushes it through the import pipeline. What
/// it was spawned with stays with it, and only its own work moves the slot
/// it has got to.
pub struct Author {
    slot_duration_millis: u64,
    force_authoring: bool,
    pipeline: u64,
    providers: InherentDataProviders,
    last_slot: Option<u64>,
}

impl Author {
    /// The length of a slot, in milliseconds.
    pub closed spec fn slot_duration(&self) -> u64 {
        self.slot_duration_millis
    }

    /// Whether the author goes on while the node has no peers.
    pub closed spec fn forced(&self) -> bool {
        self.force_authoring
    }

    /// The pipeline that candidates are pushed through.
    pub closed spec fn pipeline_of(&self) -> u64 {
        self.pipeline
    }

    /// The registry of inherent-data providers the author was given.
    pub closed spec fn providers_of(&self) -> InherentDataProviders {
        self.providers
    }

    /// The last slot the author has worked on.
    pub closed spec fn last(&self) -> Option<u64> {
        self.last_slot
    }

    /// What an author is spawned with and keeps.
    pub open spec fn same_spawning(&self, other: &Author) -> bool {
        &&& self.slot_duration() == other.slot_duration()
        &&& self.forced() == other.forced()
        &&& self.pipeline_of() == other.pipeline_of()
        &&& self.providers_of() == other.providers_of()
    }

    pub fn new(
        slot_duration_millis: u64,
        force_authoring: bool,
        pipeline: u64,
        providers: InherentDataProviders,
    ) -> (author: Author)
        ensures
            author.slot_duration() == slot_duration_millis,
            author.forced() == force_authoring,
            author.pipeline_of() == pipeline,
            author.providers_of() == providers,
            author.last() is None,
    {
        Author { slot_duration_millis, force_authoring, pipeline, providers, last_slot: None }
    }

    pub fn slot_duration_millis(&self) -> (millis: u64)
        ensures
            millis == self.slot_duration(),
    {
        self.slot_duration_millis
    }

    pub fn force_authoring(&self) -> (forced: bool)
        ensures
            forced == self.forced(),
    {
        self.force_authoring
    }

    pub fn pipeline(&self) -> (pipeline: u64)
        ensures
            pipeline == self.pipeline_of(),
    {
        self.pipeline
    }

    pub fn providers(&self) -> (providers: &InherentDataProviders)
        ensures
            *providers == self.providers_of(),
    {
        &self.providers
    }

    pub fn last_slot(&self) -> (last: Option<u64>)
        ensures
            last == self.last(),
    {
        self.last_slot
    }

    /// Works on the slot that begins. A failure is returned to be logged and
    /// leaves the ledger as it was; it does not stop the author.
    pub fn on_slot(
        &mut self,
        input: &SlotInput,
        selector: &ChainSelector,
        tips: &Vec<ChainTip>,
        pipeline: &ImportPipeline,
        ledger: &mut Ledger,
    ) -> (outcome: SlotOutcome)
        ensures
            outcome == slot_outcome(old(self).last(), pipeline@, tips@, *input),
            final(self).last() == slot_after(old(self).last(), *input, outcome),
            old(self).same_spawning(final(self)),
            outcome !is Authored ==> *final(ledger) == *old(ledger),
            outcome matches SlotOutcome::Authored { block, outcome: imported } ==> {
                &&& final(ledger).applied@ == old(ledger).applied@.push(block.id)
                &&& final(ledger).finalized@ == if imported.finalized {
                    old(ledger).finalized@.push(block.id)
                } else {
                    old(ledger).finalized@
                }
            },
    {
        match self.last_slot {
            Some(last) => {
                if input.slot <= last {
                    return SlotOutcome::Skipped;
                }
            },
            None => {},
        }
        self.last_slot = Some(input.slot);
        let tip = match selector.best_tip(tips) {
            Some(tip) => tip,
            None => {
                return SlotOutcome::Failed(AuthoringFailure::NoBestChain);
            },
        };
        if !input.compatible {
            return SlotOutcome::Failed(AuthoringFailure::Incompatible);
        }
        let number = match input.proposal {
            Evidence::Invalid => None,
            Evidence::Valid => tip.number.checked_add(1),
        };
        let number = match number {
            Some(number) => number,
            None => {
                return SlotOutcome::Failed(AuthoringFailure::ProposalFailed);
            },
        };
        let block = Block {
            id: input.candidate,
            number,
            slot: input.slot,
            transactions: input.pending,
            seal: Evidence::Valid,
            execution: input.execution,
        };
        match pipeline.import(&Submission { block, justification: None }, ledger) {
            Ok(outcome) => SlotOutcome::Authored { block, outcome },
            Err(error) => SlotOutcome::Failed(AuthoringFailure::ImportFailed(error)),
        }
    }
}

/// A slot without pending transactions is worked on like any other: where
/// nothing fails, the author produces a block, and that block is empty. What
/// comes out depends on what went in and on nothing else.
pub proof fn empty_slot_yields_an_empty_block(
    last_slot: Option<u64>,
    stages: Seq<Stage>,
    tips: Seq<ChainTip>,
    input: SlotInput,
)
    requires
        input.pending == 0,
    ensures
        slot_outcome(last_slot, stages, tips, input) matches SlotOutcome::Authored { block, .. }
            ==> block.transactions == 0 && block.slot == input.slot,
{
}

/// No slot gets a second block. Once the author has worked on a slot, that
/// slot and every earlier one is skipped, whatever the collaborators report.
pub proof fn no_second_block_for_a_slot(
    last_slot: Option<u64>,
    stages: Seq<Stage>,
    tips: Seq<ChainTip>,
    first: SlotInput,
    again: SlotInput,
)
    requires
        again.slot <= first.slot,
    ensures
        slot_outcome(
            slot_after(last_slot, first, slot_outcome(last_slot, stages, tips, first)),
            stages,
            tips,
            again,
        ) is Skipped,
{
}

/// The slots in which blocks are authored rise strictly: a block that is
/// authored after another sits in a later slot.
pub proof fn authored_slots_rise(
    last_slot: Option<u64>,
    stages: Seq<Stage>,
    tips: Seq<ChainTip>,
    input: SlotInput,
)
    ensures
        slot_outcome(last_slot, stages, tips, input) matches SlotOutcome::Authored { block, .. }
            ==> (last_slot matches Some(last) ==> last < block.slot),
{
}

} // verus!
