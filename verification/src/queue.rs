use crate::error::ImportError;
use crate::pipeline::{import_result, Block, Evidence, ImportOutcome, ImportPipeline, Ledger, Stage, Submission};
use sp_inherents::InherentDataProviders;
use std::collections::VecDeque;
use vstd::prelude::*;

verus! {

/// What the queue makes of a submission: it checks the slot proof itself,
/// whatever stages the pipeline has, and feeds what passes into the pipeline.
pub open spec fn queue_result(stages: Seq<Stage>, submission: Submission) -> Result<
    ImportOutcome,
    ImportError,
> {
    if submission.block.seal is Invalid {
        Err(ImportError::ConsensusInvalid)
    } else {
        import_result(stages, submission)
    }
}

/// The one entry point for blocks from outside. It keeps what was handed in
/// in the order of arrival and validates one block at a time. What it was
/// built with stays with it.
pub struct ImportQueue {
    pipeline: ImportPipeline,
    selection: bool,
    slot_duration_millis: u64,
    pending: VecDeque<Submission>,
    providers: InherentDataProviders,
}

impl ImportQueue {
    /// The pipeline that validated blocks are fed into.
    pub closed spec fn pipeline_of(&self) -> ImportPipeline {
        self.pipeline
    }

    /// Whether a chain selector was configured when the queue was built.
    pub closed spec fn selects(&self) -> bool {
        self.selection
    }

    /// The length of a slot, in milliseconds.
    pub closed spec fn slot_duration(&self) -> u64 {
        self.slot_duration_millis
    }

    /// What waits for validation, oldest first.
    pub closed spec fn pending_of(&self) -> Seq<Submission> {
        self.pending@
    }

    /// The registry of inherent-data providers the queue was given.
    pub closed spec fn providers_of(&self) -> InherentDataProviders {
        self.providers
    }

    /// What a queue is built with and keeps.
    pub open spec fn same_building(&self, other: &ImportQueue) -> bool {
        &&& self.pipeline_of() == other.pipeline_of()
        &&& self.selects() == other.selects()
        &&& self.slot_duration() == other.slot_duration()
        &&& self.providers_of() == other.providers_of()
    }

    pub fn new(
        slot_duration_millis: u64,
        pipeline: ImportPipeline,
        selection: bool,
        providers: InherentDataProviders,
    ) -> (queue: ImportQueue)
        ensures
            queue.slot_duration() == slot_duration_millis,
            queue.pipeline_of() == pipeline,
            queue.selects() == selection,
            queue.pending_of().len() == 0,
            queue.providers_of() == providers,
    {
        ImportQueue { pipeline, selection, slot_duration_millis, pending: VecDeque::new(), providers }
    }

    pub fn pipeline(&self) -> (pipeline: &ImportPipeline)
        ensures
            *pipeline == self.pipeline_of(),
    {
        &self.pipeline
    }

    pub fn has_selection(&self) -> (selects: bool)
        ensures
            selects == self.selects(),
    {
        self.selection
    }

    pub fn slot_duration_millis(&self) -> (millis: u64)
        ensures
            millis == self.slot_duration(),
    {
        self.slot_duration_millis
    }

    pub fn providers(&self) -> (providers: &InherentDataProviders)
        ensures
            *providers == self.providers_of(),
    {
        &self.providers
    }

    /// What waits for validation, oldest first.
    pub fn pending(&self) -> (pending: &VecDeque<Submission>)
        ensures
            pending@ == self.pending_of(),
    {
        &self.pending
    }

    /// How many submissions wait for validation.
    pub fn waiting(&self) -> (n: usize)
        ensures
            n == self.pending_of().len(),
    {
        self.pending.len()
    }

    /// Whether justifications that arrive after their block are taken.
    pub fn takes_justifications(&self) -> (taken: bool)
        ensures
            taken == self.pipeline_of()@.contains(Stage::Justification),
    {
        self.pipeline.has_stage(Stage::Justification)
    }

    /// Whether finality proofs are requested and taken.
    pub fn takes_finality_proofs(&self) -> (taken: bool)
        ensures
            taken == self.pipeline_of()@.contains(Stage::FinalityProof),
    {
        self.pipeline.has_stage(Stage::FinalityProof)
    }

    /// Accepts a block with the justification that came with it, if any, and
    /// puts it at the end of the queue. A queue that was built without a chain
    /// selector accepts nothing.
    pub fn submit(&mut self, block: Block, justification: Option<Evidence>) -> (result: Result<
        (),
        ImportError,
    >)
        ensures
            old(self).same_building(final(self)),
            result is Ok <==> old(self).selects(),
            result matches Err(error) ==> error == ImportError::SelectionUnavailable,
            final(self).pending_of() == if result is Ok {
                old(self).pending_of().push(Submission { block, justification })
            } else {
                old(self).pending_of()
            },
    {
        if !self.selection {
            return Err(ImportError::SelectionUnavailable);
        }
        self.pending.push_back(Submission { block, justification });
        Ok(())
    }

    /// Validates the oldest waiting submission and feeds it into the
    /// pipeline. `None` when nothing waits. Whatever the verdict, the
    /// submission has left the queue; a block that was turned away has left
    /// the ledger as it was.
    pub fn process_next(&mut self, ledger: &mut Ledger) -> (result: Option<
        Result<ImportOutcome, ImportError>,
    >)
        ensures
            old(self).same_building(final(self)),
            old(self).pending_of().len() == 0 ==> {
                &&& result is None
                &&& final(self).pending_of() == old(self).pending_of()
            },
            old(self).pending_of().len() > 0 ==> {
                &&& result == Some(queue_result(old(self).pipeline_of()@, old(self).pending_of()[0]))
                &&& final(self).pending_of() == old(self).pending_of().drop_first()
            },
            !(result matches Some(Ok(_))) ==> *final(ledger) == *old(ledger),
            result matches Some(Ok(outcome)) ==> {
                &&& final(ledger).applied@ == old(ledger).applied@.push(
                    old(self).pending_of()[0].block.id,
                )
                &&& final(ledger).finalized@ == if outcome.finalized {
                    old(ledger).finalized@.push(old(self).pending_of()[0].block.id)
                } else {
                    old(ledger).finalized@
                }
            },
    {
        match self.pending.pop_front() {
            None => None,
            Some(submission) => {
                assert(self.pending@ =~= old(self).pending@.drop_first());
                match submission.block.seal {
                    Evidence::Invalid => Some(Err(ImportError::ConsensusInvalid)),
                    Evidence::Valid => Some(self.pipeline.import(&submission, ledger)),
                }
            },
        }
    }
}

} // verus!
