use node_service::{
    Author, AuthoringFailure, Block, ChainSelector, ChainTip, Evidence, ImportError,
    ImportOutcome, ImportPipeline, Ledger, ServiceKind, SlotInput, SlotOutcome,
};
use sp_inherents::InherentDataProviders;

fn author() -> Author {
    Author::new(6000, false, 0, InherentDataProviders::new())
}

fn input(slot: u64, pending: u64) -> SlotInput {
    SlotInput {
        slot,
        candidate: 100 + slot,
        pending,
        compatible: true,
        proposal: Evidence::Valid,
        execution: Evidence::Valid,
    }
}

fn tips() -> Vec<ChainTip> {
    vec![ChainTip { id: 1, number: 10 }, ChainTip { id: 2, number: 12 }]
}

fn full() -> ImportPipeline {
    ImportPipeline::compose(ServiceKind::Full, 0)
}

#[test]
fn a_new_author_has_worked_on_no_slot() {
    let author = author();
    assert_eq!(author.last_slot(), None);
    assert_eq!(author.slot_duration_millis(), 6000);
    assert!(!author.force_authoring());
    assert_eq!(author.pipeline(), 0);
}

#[test]
fn the_author_builds_on_the_best_tip() {
    let mut author = author();
    let mut ledger = Ledger::new();
    let outcome =
        author.on_slot(&input(5, 4), &ChainSelector::LongestChain, &tips(), &full(), &mut ledger);
    assert_eq!(
        outcome,
        SlotOutcome::Authored {
            block: Block {
                id: 105,
                number: 13,
                slot: 5,
                transactions: 4,
                seal: Evidence::Valid,
                execution: Evidence::Valid,
            },
            outcome: ImportOutcome { finalized: false, proof_requested: false },
        }
    );
    assert_eq!(ledger.applied, vec![105]);
    assert!(ledger.finalized.is_empty());
    assert_eq!(author.last_slot(), Some(5));
}

#[test]
fn a_slot_without_pending_transactions_gets_an_empty_block() {
    let mut author = author();
    let mut ledger = Ledger::new();
    let outcome =
        author.on_slot(&input(5, 0), &ChainSelector::LongestChain, &tips(), &full(), &mut ledger);
    match outcome {
        SlotOutcome::Authored { block, .. } => {
            assert_eq!(block.transactions, 0);
            assert_eq!(block.slot, 5);
        }
        other => panic!("no block was authored: {:?}", other),
    }
    assert_eq!(ledger.applied, vec![105]);
}

#[test]
fn an_empty_slot_comes_out_the_same_every_time() {
    let mut first = author();
    let mut second = author();
    let mut first_ledger = Ledger::new();
    let mut second_ledger = Ledger::new();
    let a = first.on_slot(
        &input(9, 0),
        &ChainSelector::LongestChain,
        &tips(),
        &full(),
        &mut first_ledger,
    );
    let b = second.on_slot(
        &input(9, 0),
        &ChainSelector::LongestChain,
        &tips(),
        &full(),
        &mut second_ledger,
    );
    assert_eq!(a, b);
    assert_eq!(first_ledger, second_ledger);
}

#[test]
fn no_slot_gets_a_second_block() {
    let mut author = author();
    let mut ledger = Ledger::new();
    let selector = ChainSelector::LongestChain;
    assert!(matches!(
        author.on_slot(&input(5, 0), &selector, &tips(), &full(), &mut ledger),
        SlotOutcome::Authored { .. }
    ));
    assert_eq!(
        author.on_slot(&input(5, 2), &selector, &tips(), &full(), &mut ledger),
        SlotOutcome::Skipped
    );
    assert_eq!(
        author.on_slot(&input(4, 2), &selector, &tips(), &full(), &mut ledger),
        SlotOutcome::Skipped
    );
    assert_eq!(ledger.applied, vec![105]);
    assert_eq!(author.last_slot(), Some(5));
}

#[test]
fn without_a_best_chain_the_slot_fails() {
    let mut author = author();
    let mut ledger = Ledger::new();
    let outcome =
        author.on_slot(&input(5, 1), &ChainSelector::LongestChain, &vec![], &full(), &mut ledger);
    assert_eq!(outcome, SlotOutcome::Failed(AuthoringFailure::NoBestChain));
    assert_eq!(ledger, Ledger::new());
    assert_eq!(author.last_slot(), Some(5));
}

#[test]
fn an_incompatible_runtime_fails_the_slot() {
    let mut author = author();
    let mut ledger = Ledger::new();
    let slot = SlotInput { compatible: false, ..input(5, 1) };
    let outcome =
        author.on_slot(&slot, &ChainSelector::LongestChain, &tips(), &full(), &mut ledger);
    assert_eq!(outcome, SlotOutcome::Failed(AuthoringFailure::Incompatible));
    assert_eq!(ledger, Ledger::new());
}

#[test]
fn a_failed_proposal_fails_the_slot() {
    let mut author = author();
    let mut ledger = Ledger::new();
    let slot = SlotInput { proposal: Evidence::Invalid, ..input(5, 1) };
    let outcome =
        author.on_slot(&slot, &ChainSelector::LongestChain, &tips(), &full(), &mut ledger);
    assert_eq!(outcome, SlotOutcome::Failed(AuthoringFailure::ProposalFailed));
    assert_eq!(ledger, Ledger::new());
}

#[test]
fn no_block_can_be_proposed_above_the_highest_number() {
    let mut author = author();
    let mut ledger = Ledger::new();
    let top = vec![ChainTip { id: 1, number: u64::MAX }];
    let outcome =
        author.on_slot(&input(5, 1), &ChainSelector::LongestChain, &top, &full(), &mut ledger);
    assert_eq!(outcome, SlotOutcome::Failed(AuthoringFailure::ProposalFailed));
    assert_eq!(ledger, Ledger::new());
}

#[test]
fn a_candidate_the_ledger_refuses_fails_the_slot() {
    let mut author = author();
    let mut ledger = Ledger::new();
    let slot = SlotInput { execution: Evidence::Invalid, ..input(5, 1) };
    let outcome =
        author.on_slot(&slot, &ChainSelector::LongestChain, &tips(), &full(), &mut ledger);
    assert_eq!(
        outcome,
        SlotOutcome::Failed(AuthoringFailure::ImportFailed(ImportError::LedgerRejected))
    );
    assert_eq!(ledger, Ledger::new());
}

#[test]
fn the_compatibility_check_comes_before_the_proposal() {
    let mut author = author();
    let mut ledger = Ledger::new();
    let slot = SlotInput { compatible: false, proposal: Evidence::Invalid, ..input(5, 1) };
    let outcome =
        author.on_slot(&slot, &ChainSelector::LongestChain, &tips(), &full(), &mut ledger);
    assert_eq!(outcome, SlotOutcome::Failed(AuthoringFailure::Incompatible));
}

#[test]
fn authoring_resumes_at_the_next_slot_after_a_failure() {
    let mut author = author();
    let mut ledger = Ledger::new();
    let selector = ChainSelector::LongestChain;
    let failing = SlotInput { proposal: Evidence::Invalid, ..input(5, 1) };
    assert_eq!(
        author.on_slot(&failing, &selector, &tips(), &full(), &mut ledger),
        SlotOutcome::Failed(AuthoringFailure::ProposalFailed)
    );
    assert_eq!(
        author.on_slot(&input(5, 1), &selector, &tips(), &full(), &mut ledger),
        SlotOutcome::Skipped
    );
    assert!(matches!(
        author.on_slot(&input(6, 1), &selector, &tips(), &full(), &mut ledger),
        SlotOutcome::Authored { .. }
    ));
    assert_eq!(ledger.applied, vec![106]);
    assert_eq!(author.last_slot(), Some(6));
}

#[test]
fn authored_slots_rise() {
    let mut author = author();
    let mut ledger = Ledger::new();
    let selector = ChainSelector::LongestChain;
    let mut slots = Vec::new();
    for slot in [3, 3, 7, 5, 8, 8, 1] {
        if let SlotOutcome::Authored { block, .. } =
            author.on_slot(&input(slot, 0), &selector, &tips(), &full(), &mut ledger)
        {
            slots.push(block.slot);
        }
    }
    assert_eq!(slots, vec![3, 7, 8]);
    assert_eq!(ledger.applied, vec![103, 107, 108]);
}
