use node_service::{
    Block, Evidence, ImportError, ImportOutcome, ImportPipeline, Ledger, ServiceKind, Stage,
    Submission,
};

fn block(id: u64) -> Block {
    Block {
        id,
        number: id,
        slot: id,
        transactions: 3,
        seal: Evidence::Valid,
        execution: Evidence::Valid,
    }
}

#[test]
fn full_pipeline_has_the_slot_stage_at_its_head() {
    let pipeline = ImportPipeline::compose(ServiceKind::Full, 4);
    assert_eq!(*pipeline.stages(), vec![Stage::SlotConsensus, Stage::Justification]);
    assert_eq!(pipeline.head(), Some(Stage::SlotConsensus));
    assert_eq!(pipeline.instance(), 4);
}

#[test]
fn light_pipeline_has_the_finality_proof_stage_alone() {
    let pipeline = ImportPipeline::compose(ServiceKind::Light, 9);
    assert_eq!(*pipeline.stages(), vec![Stage::FinalityProof]);
    assert_eq!(pipeline.head(), Some(Stage::FinalityProof));
    assert_eq!(pipeline.instance(), 9);
}

#[test]
fn a_stage_wraps_what_was_built_before_it() {
    let base = ImportPipeline::base(1);
    assert_eq!(base.head(), None);
    assert!(base.stages().is_empty());
    let inner = base.wrap(Stage::Justification);
    assert_eq!(*inner.stages(), vec![Stage::Justification]);
    let outer = inner.wrap(Stage::SlotConsensus);
    assert_eq!(*outer.stages(), vec![Stage::SlotConsensus, Stage::Justification]);
    assert!(outer.has_stage(Stage::Justification));
    assert!(!outer.has_stage(Stage::FinalityProof));
}

#[test]
fn bad_slot_proof_with_valid_justification_fails_at_the_consensus_stage() {
    let pipeline = ImportPipeline::compose(ServiceKind::Full, 0);
    let mut ledger = Ledger::new();
    let submission = Submission {
        block: Block { seal: Evidence::Invalid, ..block(1) },
        justification: Some(Evidence::Valid),
    };
    let result = pipeline.import(&submission, &mut ledger);
    assert_eq!(result, Err(ImportError::ConsensusInvalid));
    assert_eq!(ledger, Ledger::new());
}

#[test]
fn bad_slot_proof_is_reported_before_a_bad_justification() {
    let pipeline = ImportPipeline::compose(ServiceKind::Full, 0);
    let mut ledger = Ledger::new();
    let submission = Submission {
        block: Block { seal: Evidence::Invalid, execution: Evidence::Invalid, ..block(1) },
        justification: Some(Evidence::Invalid),
    };
    assert_eq!(pipeline.import(&submission, &mut ledger), Err(ImportError::ConsensusInvalid));
    assert!(ledger.applied.is_empty());
}

#[test]
fn invalid_justification_turns_the_block_away() {
    let pipeline = ImportPipeline::compose(ServiceKind::Full, 0);
    let mut ledger = Ledger::new();
    let submission = Submission { block: block(1), justification: Some(Evidence::Invalid) };
    assert_eq!(pipeline.import(&submission, &mut ledger), Err(ImportError::JustificationInvalid));
    assert_eq!(ledger, Ledger::new());
}

#[test]
fn a_block_the_ledger_refuses_changes_nothing() {
    let pipeline = ImportPipeline::compose(ServiceKind::Full, 0);
    let mut ledger = Ledger::new();
    let submission = Submission {
        block: Block { execution: Evidence::Invalid, ..block(1) },
        justification: Some(Evidence::Valid),
    };
    assert_eq!(pipeline.import(&submission, &mut ledger), Err(ImportError::LedgerRejected));
    assert_eq!(ledger, Ledger::new());
}

#[test]
fn a_valid_block_without_justification_is_applied_and_not_finalized() {
    let pipeline = ImportPipeline::compose(ServiceKind::Full, 0);
    let mut ledger = Ledger::new();
    let submission = Submission { block: block(7), justification: None };
    assert_eq!(
        pipeline.import(&submission, &mut ledger),
        Ok(ImportOutcome { finalized: false, proof_requested: false })
    );
    assert_eq!(ledger.applied, vec![7]);
    assert!(ledger.finalized.is_empty());
    assert!(ledger.is_applied(7));
    assert!(!ledger.is_finalized(7));
}

#[test]
fn a_justified_block_is_finalized_with_its_import() {
    let pipeline = ImportPipeline::compose(ServiceKind::Full, 0);
    let mut ledger = Ledger::new();
    let submission = Submission { block: block(7), justification: Some(Evidence::Valid) };
    assert_eq!(
        pipeline.import(&submission, &mut ledger),
        Ok(ImportOutcome { finalized: true, proof_requested: false })
    );
    assert_eq!(ledger.applied, vec![7]);
    assert_eq!(ledger.finalized, vec![7]);
}

#[test]
fn blocks_are_applied_in_the_order_of_import() {
    let pipeline = ImportPipeline::compose(ServiceKind::Full, 0);
    let mut ledger = Ledger::new();
    for id in [5, 3, 8] {
        let submission = Submission { block: block(id), justification: None };
        assert!(pipeline.import(&submission, &mut ledger).is_ok());
    }
    assert_eq!(ledger.applied, vec![5, 3, 8]);
}

#[test]
fn a_bare_base_applies_whatever_the_ledger_takes() {
    let pipeline = ImportPipeline::base(0);
    let mut ledger = Ledger::new();
    let submission = Submission {
        block: Block { seal: Evidence::Invalid, ..block(2) },
        justification: Some(Evidence::Invalid),
    };
    assert_eq!(
        pipeline.import(&submission, &mut ledger),
        Ok(ImportOutcome { finalized: false, proof_requested: false })
    );
    assert_eq!(ledger.applied, vec![2]);
}

#[test]
fn a_late_justification_finalizes_an_applied_block() {
    let pipeline = ImportPipeline::compose(ServiceKind::Full, 0);
    let mut ledger = Ledger::new();
    pipeline.import(&Submission { block: block(4), justification: None }, &mut ledger).unwrap();
    assert_eq!(pipeline.import_justification(4, Evidence::Valid, &mut ledger), Ok(()));
    assert_eq!(ledger.finalized, vec![4]);
    assert_eq!(ledger.applied, vec![4]);
}

#[test]
fn a_late_justification_that_does_not_hold_finalizes_nothing() {
    let pipeline = ImportPipeline::compose(ServiceKind::Full, 0);
    let mut ledger = Ledger::new();
    pipeline.import(&Submission { block: block(4), justification: None }, &mut ledger).unwrap();
    assert_eq!(
        pipeline.import_justification(4, Evidence::Invalid, &mut ledger),
        Err(ImportError::JustificationInvalid)
    );
    assert!(ledger.finalized.is_empty());
}

#[test]
fn a_justification_for_an_unknown_block_is_refused() {
    let pipeline = ImportPipeline::compose(ServiceKind::Full, 0);
    let mut ledger = Ledger::new();
    assert_eq!(
        pipeline.import_justification(4, Evidence::Valid, &mut ledger),
        Err(ImportError::UnknownBlock)
    );
    assert_eq!(ledger, Ledger::new());
}

#[test]
fn a_light_pipeline_takes_no_justification() {
    let pipeline = ImportPipeline::compose(ServiceKind::Light, 0);
    let mut ledger = Ledger::new();
    pipeline.import(&Submission { block: block(4), justification: None }, &mut ledger).unwrap();
    assert_eq!(
        pipeline.import_justification(4, Evidence::Valid, &mut ledger),
        Err(ImportError::Unsupported)
    );
    assert!(ledger.finalized.is_empty());
}

#[test]
fn a_full_pipeline_takes_no_finality_proof() {
    let pipeline = ImportPipeline::compose(ServiceKind::Full, 0);
    let mut ledger = Ledger::new();
    pipeline.import(&Submission { block: block(4), justification: None }, &mut ledger).unwrap();
    assert_eq!(
        pipeline.import_finality_proof(4, Evidence::Valid, &mut ledger),
        Err(ImportError::Unsupported)
    );
    assert!(ledger.finalized.is_empty());
}

#[test]
fn a_light_import_requests_a_proof_and_finalizes_nothing() {
    let pipeline = ImportPipeline::compose(ServiceKind::Light, 0);
    let mut ledger = Ledger::new();
    let submission = Submission { block: block(4), justification: Some(Evidence::Valid) };
    assert_eq!(
        pipeline.import(&submission, &mut ledger),
        Ok(ImportOutcome { finalized: false, proof_requested: true })
    );
    assert_eq!(ledger.applied, vec![4]);
    assert!(ledger.finalized.is_empty());
}

#[test]
fn a_block_stays_unfinalized_when_its_finality_proof_fails() {
    let pipeline = ImportPipeline::compose(ServiceKind::Light, 0);
    let mut ledger = Ledger::new();
    pipeline.import(&Submission { block: block(4), justification: None }, &mut ledger).unwrap();
    assert_eq!(
        pipeline.import_finality_proof(4, Evidence::Invalid, &mut ledger),
        Err(ImportError::FinalityProofInvalid)
    );
    assert!(!ledger.is_finalized(4));
    assert!(ledger.finalized.is_empty());
    assert_eq!(ledger.applied, vec![4]);
}

#[test]
fn a_finality_proof_that_verifies_finalizes_the_block() {
    let pipeline = ImportPipeline::compose(ServiceKind::Light, 0);
    let mut ledger = Ledger::new();
    pipeline.import(&Submission { block: block(4), justification: None }, &mut ledger).unwrap();
    assert_eq!(pipeline.import_finality_proof(4, Evidence::Valid, &mut ledger), Ok(()));
    assert!(ledger.is_finalized(4));
    assert_eq!(ledger.finalized, vec![4]);
}

#[test]
fn a_finality_proof_for_an_unknown_block_is_refused() {
    let pipeline = ImportPipeline::compose(ServiceKind::Light, 0);
    let mut ledger = Ledger::new();
    assert_eq!(
        pipeline.import_finality_proof(4, Evidence::Valid, &mut ledger),
        Err(ImportError::UnknownBlock)
    );
    assert_eq!(ledger, Ledger::new());
}
