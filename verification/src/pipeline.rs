use crate::activation::ServiceKind;
use crate::error::ImportError;
use vstd::prelude::*;

verus! {

/// The verdict of an outside checker on a piece of evidence. The crate checks
/// no signature and replays no vote itself: it is told whether the evidence
/// holds and decides what follows.
#[derive(Clone, Copy, Debug, PartialEq, Eq, Structural)]
pub enum Evidence {
    Valid,
    Invalid,
}

/// A block as the import pipeline sees it.
#[derive(Clone, Copy, Debug, PartialEq, Eq, Structural)]
pub struct Block {
    pub id: u64,
    /// The height of the block.
    pub number: u64,
    /// The slot the block was authored in.
    pub slot: u64,
    /// How many transactions the block carries.
    pub transactions: u64,
    /// Whether the slot proof of its author holds.
    pub seal: Evidence,
    /// Whether the ledger can apply the block.
    pub execution: Evidence,
}

/// A block handed in for import, with the justification that came with it.
#[derive(Clone, Copy, Debug, PartialEq, Eq)]
pub struct Submission {
    pub block: Block,
    pub justification: Option<Evidence>,
}

/// A stage that decorates the base ledger import. Each one looks after one
/// concern and hands the block on to the stage it wraps.
#[derive(Clone, Copy, Debug, PartialEq, Eq, Structural)]
pub enum Stage {
    /// Turns away blocks whose slot proof does not hold.
    SlotConsensus,
    /// Keeps the books on justifications: a block with a valid one is
    /// finalized, a block with an invalid one is turned away.
    Justification,
    /// Requests a finality proof from peers for what it imports, and
    /// finalizes only on a proof that verifies.
    FinalityProof,
}

/// What an accepted block did.
#[derive(Clone, Copy, Debug, PartialEq, Eq, Structural)]
pub struct ImportOutcome {
    /// The block was finalized together with its import.
    pub finalized: bool,
    /// A finality proof for the block was requested from peers.
    pub proof_requested: bool,
}

/// The record of what the base ledger import has applied and what has been
/// finalized, oldest first.
#[derive(Debug, PartialEq, Eq)]
pub struct Ledger {
    pub applied: Vec<u64>,
    pub finalized: Vec<u64>,
}

impl Ledger {
    pub fn new() -> (ledger: Ledger)
        ensures
            ledger.applied@.len() == 0,
            ledger.finalized@.len() == 0,
    {
        Ledger { applied: Vec::new(), finalized: Vec::new() }
    }

    pub fn is_applied(&self, id: u64) -> (found: bool)
        ensures
            found == self.applied@.contains(id),
    {
        holds(&self.applied, id)
    }

    pub fn is_finalized(&self, id: u64) -> (found: bool)
        ensures
            found == self.finalized@.contains(id),
    {
        holds(&self.finalized, id)
    }
}

fn holds(ids: &Vec<u64>, id: u64) -> (found: bool)
    ensures
        found == ids@.contains(id),
{
    let mut i: usize = 0;
    while i < ids.len()
        invariant
            i <= ids.len(),
            forall|j: int| 0 <= j < i ==> ids@[j] != id,
        decreases ids.len() - i,
    {
        if ids[i] == id {
            return true;
        }
        i = i + 1;
    }
    false
}

/// The stages of a service's pipeline, head first. A full service checks the
/// slot before it looks at justifications; a light service has the
/// finality-proof stage alone.
pub open spec fn stages_of(kind: ServiceKind) -> Seq<Stage> {
    match kind {
        ServiceKind::Full => seq![Stage::SlotConsensus, Stage::Justification],
        ServiceKind::Light => seq![Stage::FinalityProof],
    }
}

/// The error with which a stage turns a submission away, if it does.
pub open spec fn stage_rejection(stage: Stage, submission: Submission) -> Option<ImportError> {
    match stage {
        Stage::SlotConsensus => if submission.block.seal is Invalid {
            Some(ImportError::ConsensusInvalid)
        } else {
            None
        },
        Stage::Justification => if submission.justification == Some(Evidence::Invalid) {
            Some(ImportError::JustificationInvalid)
        } else {
            None
        },
        Stage::FinalityProof => None,
    }
}

/// The error of the first stage, from the head on, that turns the submission
/// away.
pub open spec fn first_rejection(stages: Seq<Stage>, submission: Submission) -> Option<ImportError>
    decreases stages.len(),
{
    if stages.len() == 0 {
        None
    } else {
        match stage_rejection(stages[0], submission) {
            Some(error) => Some(error),
            None => first_rejection(stages.drop_first(), submission),
        }
    }
}

/// What importing a submission through the stages gives: the first rejection
/// of a stage; else the ledger's refusal; else the block is applied,
/// finalized if a justification stage saw a valid justification, with a
/// finality proof requested if a finality-proof stage is there.
pub open spec fn import_result(stages: Seq<Stage>, submission: Submission) -> Result<
    ImportOutcome,
    ImportError,
> {
    match first_rejection(stages, submission) {
        Some(error) => Err(error),
        None => if submission.block.execution is Invalid {
            Err(ImportError::LedgerRejected)
        } else {
            Ok(
                ImportOutcome {
                    finalized: stages.contains(Stage::Justification) && submission.justification
                        == Some(Evidence::Valid),
                    proof_requested: stages.contains(Stage::FinalityProof),
                },
            )
        },
    }
}

/// What handing in evidence of finality for an applied block gives, for a
/// pipeline that has the stage which takes it.
pub open spec fn evidence_result(
    stages: Seq<Stage>,
    stage: Stage,
    invalid: ImportError,
    applied: Seq<u64>,
    id: u64,
    evidence: Evidence,
) -> Result<(), ImportError> {
    if !stages.contains(stage) {
        Err(ImportError::Unsupported)
    } else if !applied.contains(id) {
        Err(ImportError::UnknownBlock)
    } else if evidence is Invalid {
        Err(invalid)
    } else {
        Ok(())
    }
}

/// The ordered chain of import stages of one node. The head owns the stage
/// it wraps, and so on down to the base ledger import, which ends every
/// pipeline and is not listed among the stages.
#[derive(Debug, PartialEq, Eq)]
pub struct ImportPipeline {
    stages: Vec<Stage>,
    instance: u64,
}

impl View for ImportPipeline {
    type V = Seq<Stage>;

    /// The decorating stages, head first.
    closed spec fn view(&self) -> Seq<Stage> {
        self.stages@
    }
}

impl ImportPipeline {
    /// The construction this pipeline was made in.
    pub closed spec fn instance_of(&self) -> u64 {
        self.instance
    }

    /// The base ledger import alone.
    pub fn base(instance: u64) -> (pipeline: ImportPipeline)
        ensures
            pipeline@ == Seq::<Stage>::empty(),
            pipeline.instance_of() == instance,
    {
        ImportPipeline { stages: Vec::new(), instance }
    }

    /// Wraps the pipeline in one more stage, which becomes its head. The
    /// stages that were there stay in their order behind it.
    pub fn wrap(self, stage: Stage) -> (pipeline: ImportPipeline)
        ensures
            pipeline@ == seq![stage] + self@,
            pipeline.instance_of() == self.instance_of(),
    {
        let mut stages = self.stages;
        stages.insert(0, stage);
        ImportPipeline { stages, instance: self.instance }
    }

    /// Builds the pipeline of a service from the base up. The order matters:
    /// for a full service the finality stage is built on the base first and
    /// the slot stage is wrapped round it, so that the slot stage is the head.
    pub fn compose(kind: ServiceKind, instance: u64) -> (pipeline: ImportPipeline)
        ensures
            pipeline@ == stages_of(kind),
            pipeline.instance_of() == instance,
    {
        let base = ImportPipeline::base(instance);
        match kind {
            ServiceKind::Full => base.wrap(Stage::Justification).wrap(Stage::SlotConsensus),
            ServiceKind::Light => base.wrap(Stage::FinalityProof),
        }
    }

    /// The decorating stages, head first.
    pub fn stages(&self) -> (stages: &Vec<Stage>)
        ensures
            stages@ == self@,
    {
        &self.stages
    }

    pub fn instance(&self) -> (instance: u64)
        ensures
            instance == self.instance_of(),
    {
        self.instance
    }

    /// The stage that every block enters first; `None` for a bare base.
    pub fn head(&self) -> (head: Option<Stage>)
        ensures
            head == if self@.len() == 0 {
                None
            } else {
                Some(self@[0])
            },
    {
        if self.stages.len() == 0 {
            None
        } else {
            Some(self.stages[0])
        }
    }

    pub fn has_stage(&self, stage: Stage) -> (found: bool)
        ensures
            found == self@.contains(stage),
    {
        let mut i: usize = 0;
        while i < self.stages.len()
            invariant
                i <= self.stages.len(),
                forall|j: int| 0 <= j < i ==> self.stages@[j] != stage,
            decreases self.stages.len() - i,
        {
            if self.stages[i] == stage {
                return true;
            }
            i = i + 1;
        }
        false
    }

    /// Passes a submission through the stages, head first, down to the base
    /// ledger import. The call is atomic: a block that any stage or the
    /// ledger turns away leaves the ledger as it was.
    pub fn import(&self, submission: &Submission, ledger: &mut Ledger) -> (result: Result<
        ImportOutcome,
        ImportError,
    >)
        ensures
            result == import_result(self@, *submission),
            result is Err ==> *final(ledger) == *old(ledger),
            result matches Ok(outcome) ==> {
                &&& final(ledger).applied@ == old(ledger).applied@.push(submission.block.id)
                &&& final(ledger).finalized@ == if outcome.finalized {
                    old(ledger).finalized@.push(submission.block.id)
                } else {
                    old(ledger).finalized@
                }
            },
    {
        let mut justified = false;
        let mut proof_requested = false;
        let mut i: usize = 0;
        assert(self.stages@.skip(0) =~= self.stages@);
        while i < self.stages.len()
            invariant
                i <= self.stages.len(),
                first_rejection(self.stages@, *submission) == first_rejection(
                    self.stages@.skip(i as int),
                    *submission,
                ),
                justified <==> exists|j: int|
                    0 <= j < i && #[trigger] self.stages@[j] == Stage::Justification,
                proof_requested <==> exists|j: int|
                    0 <= j < i && #[trigger] self.stages@[j] == Stage::FinalityProof,
                *ledger == *old(ledger),
            decreases self.stages.len() - i,
        {
            let rest = Ghost(self.stages@.skip(i as int));
            assert(rest@.len() > 0 && rest@[0] == self.stages@[i as int]);
            assert(rest@.drop_first() =~= self.stages@.skip(i + 1));
            match self.stages[i] {
                Stage::SlotConsensus => {
                    match submission.block.seal {
                        Evidence::Invalid => {
                            return Err(ImportError::ConsensusInvalid);
                        },
                        Evidence::Valid => {},
                    }
                },
                Stage::Justification => {
                    match submission.justification {
                        Some(Evidence::Invalid) => {
                            return Err(ImportError::JustificationInvalid);
                        },
                        _ => {},
                    }
                    justified = true;
                },
                Stage::FinalityProof => {
                    proof_requested = true;
                },
            }
            i = i + 1;
        }
        assert(self.stages@.skip(i as int).len() == 0);
        match submission.block.execution {
            Evidence::Invalid => {
                return Err(ImportError::LedgerRejected);
            },
            Evidence::Valid => {},
        }
        let finalized = justified && match submission.justification {
            Some(Evidence::Valid) => true,
            _ => false,
        };
        ledger.applied.push(submission.block.id);
        if finalized {
            ledger.finalized.push(submission.block.id);
        }
        Ok(ImportOutcome { finalized, proof_requested })
    }

    /// Takes a justification that arrives after its block. Only a pipeline
    /// with a justification stage takes one, for a block that it has applied;
    /// a justification that holds finalizes the block, any other changes
    /// nothing.
    pub fn import_justification(&self, id: u64, justification: Evidence, ledger: &mut Ledger) -> (result:
        Result<(), ImportError>)
        ensures
            result == evidence_result(
                self@,
                Stage::Justification,
                ImportError::JustificationInvalid,
                old(ledger).applied@,
                id,
                justification,
            ),
            final(ledger).applied == old(ledger).applied,
            final(ledger).finalized@ == if result is Ok {
                old(ledger).finalized@.push(id)
            } else {
                old(ledger).finalized@
            },
    {
        if !self.has_stage(Stage::Justification) {
            return Err(ImportError::Unsupported);
        }
        if !ledger.is_applied(id) {
            return Err(ImportError::UnknownBlock);
        }
        match justification {
            Evidence::Invalid => Err(ImportError::JustificationInvalid),
            Evidence::Valid => {
                ledger.finalized.push(id);
                Ok(())
            },
        }
    }

    /// Takes the answer to a finality-proof request. Only a pipeline with a
    /// finality-proof stage takes one, for a block that it has applied; a
    /// proof that verifies finalizes the block, any other leaves it
    /// unfinalized.
    pub fn import_finality_proof(&self, id: u64, verdict: Evidence, ledger: &mut Ledger) -> (result:
        Result<(), ImportError>)
        ensures
            result == evidence_result(
                self@,
                Stage::FinalityProof,
                ImportError::FinalityProofInvalid,
                old(ledger).applied@,
                id,
                verdict,
            ),
            final(ledger).applied == old(ledger).applied,
            final(ledger).finalized@ == if result is Ok {
                old(ledger).finalized@.push(id)
            } else {
                old(ledger).finalized@
            },
    {
        if !self.has_stage(Stage::FinalityProof) {
            return Err(ImportError::Unsupported);
        }
        if !ledger.is_applied(id) {
            return Err(ImportError::UnknownBlock);
        }
        match verdict {
            Evidence::Invalid => Err(ImportError::FinalityProofInvalid),
            Evidence::Valid => {
                ledger.finalized.push(id);
                Ok(())
            },
        }
    }
}

/// The composition order of a full pipeline is fixed with the slot stage at
/// the head: a block whose slot proof does not hold fails there with
/// `ConsensusInvalid`, whatever justification comes with it and whatever the
/// ledger would have said.
pub proof fn invalid_seal_fails_at_the_head(submission: Submission)
    requires
        submission.block.seal is Invalid,
    ensures
        import_result(stages_of(ServiceKind::Full), submission) == Err::<
            ImportOutcome,
            ImportError,
        >(ImportError::ConsensusInvalid),
{
    let stages = stages_of(ServiceKind::Full);
    assert(stages.len() > 0 && stages[0] == Stage::SlotConsensus);
}

/// A light pipeline never finalizes a block by importing it: finality waits
/// for a proof, which every import requests.
pub proof fn light_import_never_finalizes(submission: Submission)
    ensures
        import_result(stages_of(ServiceKind::Light), submission) matches Ok(outcome) ==> !outcome.finalized
            && outcome.proof_requested,
{
    let stages = stages_of(ServiceKind::Light);
    assert(stages[0] == Stage::FinalityProof);
    assert(!stages.contains(Stage::Justification));
}

/// A full pipeline accepts a block with a valid slot proof, a valid
/// justification and a block the ledger can apply, and finalizes it. It asks
/// nothing of a voter: whether the node votes has no part in the import.
pub proof fn justified_block_is_finalized(submission: Submission)
    requires
        submission.block.seal is Valid,
        submission.block.execution is Valid,
        submission.justification == Some(Evidence::Valid),
    ensures
        import_result(stages_of(ServiceKind::Full), submission) == Ok::<ImportOutcome, ImportError>(
            ImportOutcome { finalized: true, proof_requested: false },
        ),
{
    let stages = stages_of(ServiceKind::Full);
    assert(stages[0] == Stage::SlotConsensus);
    assert(stages[1] == Stage::Justification);
    let rest = stages.drop_first();
    assert(rest.len() == 1 && rest[0] == Stage::Justification);
    assert(rest.drop_first().len() == 0);
    assert(first_rejection(rest.drop_first(), submission) is None);
    assert(first_rejection(rest, submission) is None);
    assert(first_rejection(stages, submission) is None);
    assert(!stages.contains(Stage::FinalityProof));
}

} // verus!
