//! The health report handed back to callers.

use vstd::prelude::*;
use crate::snapshot::{Partition, PartitionView};
use crate::status::KafkaStatus;

verus! {

/// Reporting copy of a partition that is out of sync.
#[derive(Debug, PartialEq, Eq)]
pub struct KafkaPartitionDetail {
    pub topic: String,
    pub partition: i32,
    pub replicas: Vec<i32>,
    pub isr: Vec<i32>,
}

impl View for KafkaPartitionDetail {
    type V = PartitionView;

    /// A detail is modelled by the partition it was copied from.
    open spec fn view(&self) -> PartitionView {
        PartitionView {
            topic: self.topic@,
            id: self.partition as int,
            replicas: self.replicas@,
            isr: self.isr@,
        }
    }
}

impl Clone for KafkaPartitionDetail {
    fn clone(&self) -> (copy: Self)
        ensures
            copy@ == self@,
    {
        KafkaPartitionDetail {
            topic: self.topic.clone(),
            partition: self.partition,
            replicas: self.replicas.clone(),
            isr: self.isr.clone(),
        }
    }
}

/// The models of a sequence of details, element by element.
pub open spec fn detail_views(details: Seq<KafkaPartitionDetail>) -> Seq<PartitionView> {
    details.map_values(|d: KafkaPartitionDetail| d@)
}

impl Partition {
    /// Copies the partition into a detail for the report.
    pub fn detail(&self) -> (detail: KafkaPartitionDetail)
        ensures
            detail@ == self@,
    {
        KafkaPartitionDetail {
            topic: self.topic.clone(),
            partition: self.id,
            replicas: self.replicas.clone(),
            isr: self.isr.clone(),
        }
    }
}

/// Model of a health report.
pub struct HealthView {
    pub status: KafkaStatus,
    pub brokers: nat,
    pub topics: nat,
    pub out_of_sync_partitions: Option<Seq<PartitionView>>,
}

/// Aggregate health of a cluster.
#[derive(Debug, PartialEq, Eq)]
pub struct KafkaHealth {
    pub status: KafkaStatus,
    /// Number of brokers in the snapshot.
    pub brokers: usize,
    /// Number of topics in the snapshot.
    pub topics: usize,
    /// The partitions that are out of sync, in snapshot order. `None` only
    /// in a report that no evaluation has filled in.
    pub out_of_sync_partitions: Option<Vec<KafkaPartitionDetail>>,
}

impl View for KafkaHealth {
    type V = HealthView;

    open spec fn view(&self) -> HealthView {
        HealthView {
            status: self.status,
            brokers: self.brokers as nat,
            topics: self.topics as nat,
            out_of_sync_partitions: match self.out_of_sync_partitions {
                Some(details) => Some(detail_views(details@)),
                None => None,
            },
        }
    }
}

impl Clone for KafkaHealth {
    fn clone(&self) -> (copy: Self)
        ensures
            copy@ == self@,
    {
        let out_of_sync_partitions = match &self.out_of_sync_partitions {
            Some(details) => {
                let copies = details.clone();
                assert(detail_views(copies@) == detail_views(details@));
                Some(copies)
            },
            None => None,
        };
        KafkaHealth {
            status: self.status,
            brokers: self.brokers,
            topics: self.topics,
            out_of_sync_partitions,
        }
    }
}

} // verus!
