use node_service::{
    select_chain, Block, Collaborators, Evidence, ImportError, ImportOutcome, ImportSetup,
    Ledger, ServiceKind, Submission,
};
use sp_inherents::InherentDataProviders;

fn sealed(id: u64, seal: Evidence) -> Block {
    Block { id, number: id, slot: id, transactions: 1, seal, execution: Evidence::Valid }
}

fn setup(kind: ServiceKind, selector: bool) -> ImportSetup {
    let offered = Collaborators {
        chain_selector: selector,
        fetcher: true,
        remote_blockchain: true,
        slot_duration_millis: 6000,
    };
    let providers = InherentDataProviders::new();
    node_service::import_queue(kind, select_chain(&offered), true, 6000, &providers, 1).unwrap()
}

#[test]
fn a_queue_without_chain_selector_accepts_nothing() {
    let mut queue = setup(ServiceKind::Light, false).queue;
    assert!(!queue.has_selection());
    assert_eq!(
        queue.submit(sealed(1, Evidence::Valid), None),
        Err(ImportError::SelectionUnavailable)
    );
    assert_eq!(queue.waiting(), 0);
}

#[test]
fn a_queue_with_chain_selector_enqueues() {
    let mut queue = setup(ServiceKind::Full, true).queue;
    assert_eq!(queue.submit(sealed(1, Evidence::Valid), Some(Evidence::Valid)), Ok(()));
    assert_eq!(queue.waiting(), 1);
    assert_eq!(
        queue.pending().front(),
        Some(&Submission {
            block: sealed(1, Evidence::Valid),
            justification: Some(Evidence::Valid)
        })
    );
}

#[test]
fn the_queue_validates_in_the_order_of_arrival() {
    let mut queue = setup(ServiceKind::Full, true).queue;
    let mut ledger = Ledger::new();
    queue.submit(sealed(3, Evidence::Valid), None).unwrap();
    queue.submit(sealed(1, Evidence::Invalid), Some(Evidence::Valid)).unwrap();
    queue.submit(sealed(2, Evidence::Valid), Some(Evidence::Valid)).unwrap();
    assert_eq!(
        queue.process_next(&mut ledger),
        Some(Ok(ImportOutcome { finalized: false, proof_requested: false }))
    );
    assert_eq!(queue.process_next(&mut ledger), Some(Err(ImportError::ConsensusInvalid)));
    assert_eq!(
        queue.process_next(&mut ledger),
        Some(Ok(ImportOutcome { finalized: true, proof_requested: false }))
    );
    assert_eq!(queue.process_next(&mut ledger), None);
    assert_eq!(ledger.applied, vec![3, 2]);
    assert_eq!(ledger.finalized, vec![2]);
}

#[test]
fn an_empty_queue_has_nothing_to_validate() {
    let mut queue = setup(ServiceKind::Full, true).queue;
    let mut ledger = Ledger::new();
    assert_eq!(queue.process_next(&mut ledger), None);
    assert_eq!(ledger, Ledger::new());
}

#[test]
fn a_light_queue_checks_the_slot_proof_itself() {
    let mut queue = setup(ServiceKind::Light, true).queue;
    let mut ledger = Ledger::new();
    queue.submit(sealed(1, Evidence::Invalid), None).unwrap();
    assert_eq!(queue.process_next(&mut ledger), Some(Err(ImportError::ConsensusInvalid)));
    assert_eq!(ledger, Ledger::new());
    assert_eq!(queue.waiting(), 0);
}

#[test]
fn a_light_queue_applies_without_finalizing() {
    let mut queue = setup(ServiceKind::Light, true).queue;
    let mut ledger = Ledger::new();
    queue.submit(sealed(1, Evidence::Valid), Some(Evidence::Valid)).unwrap();
    assert_eq!(
        queue.process_next(&mut ledger),
        Some(Ok(ImportOutcome { finalized: false, proof_requested: true }))
    );
    assert_eq!(ledger.applied, vec![1]);
    assert!(ledger.finalized.is_empty());
}

#[test]
fn a_full_queue_takes_justifications_and_a_light_queue_takes_proofs() {
    let full = setup(ServiceKind::Full, true).queue;
    assert!(full.takes_justifications());
    assert!(!full.takes_finality_proofs());
    let light = setup(ServiceKind::Light, true).queue;
    assert!(!light.takes_justifications());
    assert!(light.takes_finality_proofs());
}

#[test]
fn a_turned_away_block_leaves_the_queue() {
    let mut queue = setup(ServiceKind::Full, true).queue;
    let mut ledger = Ledger::new();
    queue.submit(sealed(1, Evidence::Valid), Some(Evidence::Invalid)).unwrap();
    assert_eq!(queue.process_next(&mut ledger), Some(Err(ImportError::JustificationInvalid)));
    assert_eq!(queue.waiting(), 0);
    assert_eq!(ledger, Ledger::new());
}
