use kafka_health::{evaluate, ClusterSnapshot, KafkaPartitionDetail, KafkaStatus, Partition, Topic};

fn part(topic: &str, id: i32, replicas: &[i32], isr: &[i32]) -> Partition {
    Partition { topic: topic.to_string(), id, replicas: replicas.to_vec(), isr: isr.to_vec() }
}

fn reported(topic: &str, id: i32, replicas: &[i32], isr: &[i32]) -> KafkaPartitionDetail {
    KafkaPartitionDetail {
        topic: topic.to_string(),
        partition: id,
        replicas: replicas.to_vec(),
        isr: isr.to_vec(),
    }
}

fn topic(name: &str, partitions: Vec<Partition>) -> Topic {
    Topic { name: name.to_string(), partitions }
}

#[test]
fn no_topics_is_green_and_counts_brokers() {
    let report = evaluate(&ClusterSnapshot { brokers: vec![7, 8, 9, 10], topics: vec![] });
    assert_eq!(report.status, KafkaStatus::Green);
    assert_eq!(report.brokers, 4);
    assert_eq!(report.topics, 0);
    assert_eq!(report.out_of_sync_partitions, Some(vec![]));
}

#[test]
fn topics_without_partitions_are_green() {
    let snapshot = ClusterSnapshot {
        brokers: vec![1],
        topics: vec![topic("a", vec![]), topic("b", vec![])],
    };
    let report = evaluate(&snapshot);
    assert_eq!(report.status, KafkaStatus::Green);
    assert_eq!(report.brokers, 1);
    assert_eq!(report.topics, 2);
    assert_eq!(report.out_of_sync_partitions, Some(vec![]));
}

#[test]
fn all_partitions_in_sync_is_green() {
    let snapshot = ClusterSnapshot {
        brokers: vec![1, 2, 3],
        topics: vec![
            topic("a", vec![part("a", 0, &[1, 2], &[1, 2]), part("a", 1, &[2, 3], &[3, 2])]),
            topic("b", vec![part("b", 0, &[1], &[1])]),
        ],
    };
    let report = evaluate(&snapshot);
    assert_eq!(report.status, KafkaStatus::Green);
    assert_eq!(report.topics, 2);
    assert_eq!(report.out_of_sync_partitions, Some(vec![]));
}

#[test]
fn more_in_sync_than_assigned_is_green() {
    let snapshot = ClusterSnapshot {
        brokers: vec![1, 2, 3],
        topics: vec![topic("a", vec![part("a", 0, &[1], &[1, 2, 3])])],
    };
    let report = evaluate(&snapshot);
    assert_eq!(report.status, KafkaStatus::Green);
    assert_eq!(report.out_of_sync_partitions, Some(vec![]));
}

#[test]
fn only_sizes_are_compared() {
    let snapshot = ClusterSnapshot {
        brokers: vec![1, 2, 3],
        topics: vec![topic("a", vec![part("a", 0, &[1, 2], &[8, 9])])],
    };
    let report = evaluate(&snapshot);
    assert_eq!(report.status, KafkaStatus::Green);
    assert_eq!(report.out_of_sync_partitions, Some(vec![]));
}

#[test]
fn yellow_lists_exactly_the_lagging_partitions_in_order() {
    let snapshot = ClusterSnapshot {
        brokers: vec![1, 2, 3],
        topics: vec![
            topic(
                "a",
                vec![
                    part("a", 0, &[1, 2, 3], &[1, 2, 3]),
                    part("a", 1, &[1, 2, 3], &[2]),
                    part("a", 2, &[1, 2], &[1, 2]),
                ],
            ),
            topic("b", vec![]),
            topic("c", vec![part("c", 0, &[2, 3], &[3]), part("c", 1, &[3], &[3])]),
            topic("d", vec![part("d", 5, &[1, 2, 3], &[1, 3])]),
        ],
    };
    let report = evaluate(&snapshot);
    assert_eq!(report.status, KafkaStatus::Yellow);
    assert_eq!(report.brokers, 3);
    assert_eq!(report.topics, 4);
    assert_eq!(
        report.out_of_sync_partitions,
        Some(vec![
            reported("a", 1, &[1, 2, 3], &[2]),
            reported("c", 0, &[2, 3], &[3]),
            reported("d", 5, &[1, 2, 3], &[1, 3]),
        ])
    );
}

#[test]
fn red_is_not_lowered_by_later_partitions() {
    let snapshot = ClusterSnapshot {
        brokers: vec![1, 2],
        topics: vec![
            topic("a", vec![part("a", 0, &[1, 2], &[]), part("a", 1, &[1, 2], &[1, 2])]),
            topic("b", vec![part("b", 0, &[1, 2], &[1]), part("b", 1, &[1], &[1])]),
        ],
    };
    let report = evaluate(&snapshot);
    assert_eq!(report.status, KafkaStatus::Red);
    assert_eq!(
        report.out_of_sync_partitions,
        Some(vec![reported("a", 0, &[1, 2], &[]), reported("b", 0, &[1, 2], &[1])])
    );
}

#[test]
fn red_in_the_last_partition() {
    let snapshot = ClusterSnapshot {
        brokers: vec![1, 2],
        topics: vec![
            topic("a", vec![part("a", 0, &[1, 2], &[1, 2])]),
            topic("b", vec![part("b", 0, &[1, 2], &[2]), part("b", 1, &[1], &[])]),
        ],
    };
    let report = evaluate(&snapshot);
    assert_eq!(report.status, KafkaStatus::Red);
    assert_eq!(
        report.out_of_sync_partitions,
        Some(vec![reported("b", 0, &[1, 2], &[2]), reported("b", 1, &[1], &[])])
    );
}

#[test]
fn red_without_any_lagging_partition_elsewhere() {
    let snapshot = ClusterSnapshot {
        brokers: vec![1],
        topics: vec![topic("a", vec![part("a", 0, &[1], &[1]), part("a", 1, &[1], &[])])],
    };
    let report = evaluate(&snapshot);
    assert_eq!(report.status, KafkaStatus::Red);
    assert_eq!(report.out_of_sync_partitions, Some(vec![reported("a", 1, &[1], &[])]));
}

#[test]
fn no_replicas_and_no_isr_is_red_with_nothing_reported() {
    let snapshot = ClusterSnapshot {
        brokers: vec![1],
        topics: vec![topic("a", vec![part("a", 0, &[], &[])])],
    };
    let report = evaluate(&snapshot);
    assert_eq!(report.status, KafkaStatus::Red);
    assert_eq!(report.out_of_sync_partitions, Some(vec![]));
}

#[test]
fn evaluating_twice_gives_the_same_report() {
    let snapshot = ClusterSnapshot {
        brokers: vec![1, 2, 3],
        topics: vec![
            topic("a", vec![part("a", 0, &[1, 2], &[1])]),
            topic("b", vec![part("b", 0, &[2, 3], &[])]),
        ],
    };
    let first = evaluate(&snapshot);
    let second = evaluate(&snapshot);
    assert_eq!(first, second);
}

#[test]
fn evaluation_leaves_the_snapshot_as_it_was() {
    let snapshot = ClusterSnapshot {
        brokers: vec![1, 2, 3],
        topics: vec![topic("a", vec![part("a", 0, &[1, 2], &[1])])],
    };
    let before = snapshot.clone();
    let _ = evaluate(&snapshot);
    assert_eq!(snapshot, before);
}

#[test]
fn the_detail_takes_the_topic_from_the_partition() {
    let snapshot = ClusterSnapshot {
        brokers: vec![1],
        topics: vec![topic("listed", vec![part("carried", 3, &[1, 2], &[1])])],
    };
    let report = evaluate(&snapshot);
    assert_eq!(report.status, KafkaStatus::Yellow);
    assert_eq!(report.out_of_sync_partitions, Some(vec![reported("carried", 3, &[1, 2], &[1])]));
}

#[test]
fn negative_ids_are_passed_through() {
    let snapshot = ClusterSnapshot {
        brokers: vec![-1],
        topics: vec![topic("a", vec![part("a", -4, &[-1, -2], &[-2])])],
    };
    let report = evaluate(&snapshot);
    assert_eq!(report.status, KafkaStatus::Yellow);
    assert_eq!(report.out_of_sync_partitions, Some(vec![reported("a", -4, &[-1, -2], &[-2])]));
}

#[test]
fn partition_predicates() {
    assert!(part("a", 0, &[1], &[]).is_offline());
    assert!(!part("a", 0, &[1], &[1]).is_offline());
    assert!(part("a", 0, &[], &[]).is_offline());
    assert!(part("a", 0, &[1, 2], &[1]).is_out_of_sync());
    assert!(!part("a", 0, &[1, 2], &[1, 2]).is_out_of_sync());
    assert!(!part("a", 0, &[1], &[1, 2]).is_out_of_sync());
    assert!(!part("a", 0, &[], &[]).is_out_of_sync());
}

#[test]
fn detail_copies_every_field() {
    let partition = part("orders", 12, &[4, 5, 6], &[6]);
    assert_eq!(partition.detail(), reported("orders", 12, &[4, 5, 6], &[6]));
}

#[test]
fn clones_are_equal_to_what_they_copy() {
    let snapshot = ClusterSnapshot {
        brokers: vec![1, 2],
        topics: vec![topic("a", vec![part("a", 0, &[1, 2], &[1])]), topic("b", vec![])],
    };
    assert_eq!(snapshot.clone(), snapshot);
    assert_eq!(snapshot.topics[0].clone(), snapshot.topics[0]);
    assert_eq!(snapshot.topics[0].partitions[0].clone(), snapshot.topics[0].partitions[0]);
    let report = evaluate(&snapshot);
    assert_eq!(report.clone(), report);
    let detail = reported("a", 0, &[1, 2], &[1]);
    assert_eq!(detail.clone(), detail);
}
