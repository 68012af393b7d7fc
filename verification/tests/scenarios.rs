use kafka_health::{evaluate, ClusterSnapshot, KafkaPartitionDetail, KafkaStatus, Partition, Topic};

fn partition(topic: &str, id: i32, replicas: Vec<i32>, isr: Vec<i32>) -> Partition {
    Partition { topic: topic.to_string(), id, replicas, isr }
}

fn detail(topic: &str, id: i32, replicas: Vec<i32>, isr: Vec<i32>) -> KafkaPartitionDetail {
    KafkaPartitionDetail { topic: topic.to_string(), partition: id, replicas, isr }
}

fn orders(replicas: Vec<i32>, isr: Vec<i32>) -> ClusterSnapshot {
    ClusterSnapshot {
        brokers: vec![1, 2, 3],
        topics: vec![Topic {
            name: "orders".to_string(),
            partitions: vec![partition("orders", 0, replicas, isr)],
        }],
    }
}

#[test]
fn fully_in_sync_partition_is_green() {
    let report = evaluate(&orders(vec![1, 2, 3], vec![1, 2, 3]));
    assert_eq!(report.status, KafkaStatus::Green);
    assert_eq!(report.brokers, 3);
    assert_eq!(report.topics, 1);
    assert_eq!(report.out_of_sync_partitions, Some(vec![]));
}

#[test]
fn lagging_partition_is_yellow() {
    let report = evaluate(&orders(vec![1, 2, 3], vec![1, 2]));
    assert_eq!(report.status, KafkaStatus::Yellow);
    assert_eq!(
        report.out_of_sync_partitions,
        Some(vec![detail("orders", 0, vec![1, 2, 3], vec![1, 2])])
    );
}

#[test]
fn partition_without_isr_is_red() {
    let report = evaluate(&orders(vec![1, 2, 3], vec![]));
    assert_eq!(report.status, KafkaStatus::Red);
    assert_eq!(
        report.out_of_sync_partitions,
        Some(vec![detail("orders", 0, vec![1, 2, 3], vec![])])
    );
}

#[test]
fn red_wins_over_yellow_and_both_are_listed_in_order() {
    let snapshot = ClusterSnapshot {
        brokers: vec![1, 2, 3],
        topics: vec![
            Topic { name: "a".to_string(), partitions: vec![partition("a", 0, vec![1, 2], vec![1])] },
            Topic { name: "b".to_string(), partitions: vec![partition("b", 0, vec![2, 3], vec![])] },
        ],
    };
    let report = evaluate(&snapshot);
    assert_eq!(report.status, KafkaStatus::Red);
    assert_eq!(report.topics, 2);
    assert_eq!(
        report.out_of_sync_partitions,
        Some(vec![detail("a", 0, vec![1, 2], vec![1]), detail("b", 0, vec![2, 3], vec![])])
    );
}

#[test]
fn empty_cluster_is_green() {
    let report = evaluate(&ClusterSnapshot { brokers: vec![], topics: vec![] });
    assert_eq!(report.status, KafkaStatus::Green);
    assert_eq!(report.brokers, 0);
    assert_eq!(report.topics, 0);
    assert_eq!(report.out_of_sync_partitions, Some(vec![]));
}
