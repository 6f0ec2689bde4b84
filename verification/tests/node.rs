use std::sync::Arc;

use datafusion::arrow::array::{ArrayRef, Int64Array, StringArray};
use datafusion::arrow::record_batch::RecordBatch;
use replay_source::columnar::Batch;
use replay_source::producer::{ProducerAction, QUEUE_CAPACITY};
use replay_source::repeat::{Partitioning, RepeatExec, RepeatedTable, ReplayError};

fn small_batch() -> RecordBatch {
    let ids: Int64Array = vec![Some(1), None, Some(3)].into_iter().collect();
    let names: StringArray = vec![Some("a"), Some("b"), None].into_iter().collect();
    RecordBatch::try_from_iter(vec![
        ("id", Arc::new(ids) as ArrayRef),
        ("name", Arc::new(names) as ArrayRef),
    ])
    .unwrap()
}

fn node(num: usize) -> RepeatExec {
    RepeatedTable::new(Batch(small_batch()), num).scan(&None, &[], None).unwrap()
}

#[test]
fn node_is_a_leaf() {
    assert!(node(3).children().is_empty());
}

#[test]
fn node_has_one_partition() {
    let partitioning = node(3).output_partitioning();
    assert_eq!(partitioning, Partitioning::UnknownPartitioning(1));
    assert_eq!(partitioning.partition_count(), 1);
}

#[test]
fn node_refuses_new_children() {
    let result = node(3).with_new_children(vec![]);
    assert!(matches!(result, Err(ReplayError::UnsupportedOperation)));
    let result = node(3).with_new_children(vec![node(1), node(2)]);
    assert!(matches!(result, Err(ReplayError::UnsupportedOperation)));
}

#[test]
fn partition_zero_can_be_activated() {
    assert!(matches!(node(3).check_partition(0), Ok(())));
}

#[test]
fn partition_one_is_out_of_range() {
    let node = node(3);
    assert_eq!(node.output_partitioning().partition_count(), 1);
    assert!(matches!(node.check_partition(1), Err(ReplayError::PartitionOutOfRange)));
    assert!(matches!(node.check_partition(usize::MAX), Err(ReplayError::PartitionOutOfRange)));
}

#[test]
fn activating_partition_zero_yields_the_producer() {
    let producer = node(3).activate(0).unwrap();
    assert_eq!(producer.total(), 3);
    assert_eq!(producer.sent(), 0);
    assert!(matches!(producer.next(), ProducerAction::Send { index: 0, .. }));
    let idle = node(0).activate(0).unwrap();
    assert!(matches!(idle.next(), ProducerAction::Stop));
}

#[test]
fn activating_partition_one_yields_no_producer() {
    assert!(matches!(node(3).activate(1), Err(ReplayError::PartitionOutOfRange)));
    assert!(matches!(node(0).activate(1), Err(ReplayError::PartitionOutOfRange)));
    assert!(matches!(node(3).activate(usize::MAX), Err(ReplayError::PartitionOutOfRange)));
}

#[test]
fn execute_hands_out_a_fresh_producer() {
    let node = node(3);
    let producer = node.execute(0);
    assert_eq!(producer.total(), 3);
    assert_eq!(producer.sent(), 0);
    assert!(!producer.hung_up());
    assert_eq!(producer.queue_capacity(), 100);
    assert_eq!(QUEUE_CAPACITY, 100);
    match producer.next() {
        ProducerAction::Send { index, batch } => {
            assert_eq!(index, 0);
            assert_eq!(batch.0, small_batch());
        }
        ProducerAction::Stop => panic!("a send is due"),
    }
}

#[test]
fn each_activation_starts_over() {
    let node = node(2);
    let mut first = node.execute(0);
    first.record(replay_source::producer::SendOutcome::Delivered);
    let second = node.execute(0);
    assert_eq!(first.sent(), 1);
    assert_eq!(second.sent(), 0);
}

#[test]
fn description_names_the_repeat_count() {
    assert_eq!(node(3).format_description(), "Replay repeat=3");
    assert_eq!(node(0).format_description(), "Replay repeat=0");
    assert_eq!(node(10_000).format_description(), "Replay repeat=10000");
    assert_eq!(
        node(usize::MAX).format_description(),
        format!("Replay repeat={}", usize::MAX)
    );
}

#[test]
fn node_schema_is_the_schema_of_its_batch() {
    let node = node(1);
    assert_eq!(node.schema(), small_batch().schema());
    assert_eq!(node.batch().0, small_batch());
}
