use dan_hotstuff::models::payload::{Payload, SimplePayload};
use dan_hotstuff::services::payload_processor::PayloadProcessor;
use dan_hotstuff::storage::state_db::StateDb;

#[test]
fn identical_payload_and_state_give_identical_roots() {
    let processor = PayloadProcessor::new();
    let payload = SimplePayload::bring_up(5, 0);

    // Two independent replicas: same prior state, same payload.
    let db_a = StateDb::new();
    let db_b = StateDb::new();
    let mut tx_a = db_a.new_unit_of_work(1);
    let mut tx_b = db_b.new_unit_of_work(1);

    let root_a = processor.process_payload(&payload.duplicate(), &mut tx_a).unwrap();
    let root_b = processor.process_payload(&payload.duplicate(), &mut tx_b).unwrap();
    assert_eq!(root_a, root_b);
    assert_eq!(root_a.len(), 32);
    assert_eq!(tx_a.state_root(), tx_b.state_root());
}

#[test]
fn different_payloads_give_different_roots() {
    let processor = PayloadProcessor::new();
    let db = StateDb::new();
    let mut tx_a = db.new_unit_of_work(1);
    let mut tx_b = db.new_unit_of_work(1);
    let root_a = processor.process_payload(&SimplePayload::bring_up(5, 0), &mut tx_a).unwrap();
    let root_b = processor.process_payload(&SimplePayload::bring_up(7, 1), &mut tx_b).unwrap();
    assert_ne!(root_a, root_b);
}

#[test]
fn committing_a_unit_of_work_moves_the_root() {
    let processor = PayloadProcessor::new();
    let mut db = StateDb::new();
    let mut tx = db.new_unit_of_work(1);
    let root = processor.process_payload(&SimplePayload::bring_up(5, 0), &mut tx).unwrap();
    db.commit(tx);
    assert_eq!(db.committed_root, root);
    // The next unit of work branches from the new root.
    let tx2 = db.new_unit_of_work(2);
    assert_eq!(tx2.state_root(), &root);
    // A reader sees the committed state and records nothing.
    let reader = db.reader();
    assert_eq!(reader.state_root(), &root);
    assert_eq!(reader.updates.len(), 0);
}

#[test]
fn set_value_records_updates_in_order() {
    let db = StateDb::new();
    let mut tx = db.new_unit_of_work(1);
    tx.set_value(vec![1], vec![10]);
    tx.set_value(vec![2], vec![20]);
    assert_eq!(tx.updates.len(), 2);
    assert_eq!(tx.updates[0], (vec![1], vec![10]));
    assert_eq!(tx.updates[1], (vec![2], vec![20]));
}
