//! A point-in-time snapshot of cluster metadata, and its mathematical model.

use vstd::prelude::*;

verus! {

/// Model of one partition: the topic it belongs to, its id, the brokers
/// assigned to host it and the brokers that are currently in sync.
pub struct PartitionView {
    pub topic: Seq<char>,
    pub id: int,
    pub replicas: Seq<i32>,
    pub isr: Seq<i32>,
}

impl PartitionView {
    /// No broker is in sync with the partition.
    pub open spec fn is_offline(self) -> bool {
        self.isr.len() == 0
    }

    /// Fewer brokers are in sync than are assigned. Only the two sizes are
    /// compared: nothing is assumed about which brokers the lists name.
    pub open spec fn is_out_of_sync(self) -> bool {
        self.replicas.len() > self.isr.len()
    }
}

/// Model of a topic: its name and its partitions, in the order given.
pub struct TopicView {
    pub name: Seq<char>,
    pub partitions: Seq<PartitionView>,
}

impl TopicView {
    /// Every partition of the topic carries the topic's name.
    pub open spec fn is_labelled(self) -> bool {
        forall|p: int| 0 <= p < self.partitions.len() ==> (#[trigger] self.partitions[p]).topic == self.name
    }
}

/// Model of a snapshot: the broker ids and the topics, in the order given.
pub struct SnapshotView {
    pub brokers: Seq<i32>,
    pub topics: Seq<TopicView>,
}

/// The partitions of `topics`, topic after topic, each topic's partitions
/// in their own order.
pub open spec fn all_partitions(topics: Seq<TopicView>) -> Seq<PartitionView> {
    topics.map_values(|t: TopicView| t.partitions).flatten()
}

impl SnapshotView {
    /// Every partition of the snapshot, in iteration order.
    pub open spec fn partitions(self) -> Seq<PartitionView> {
        all_partitions(self.topics)
    }

    /// Every partition of the snapshot carries the name of the topic it
    /// stands under.
    pub open spec fn is_labelled(self) -> bool {
        forall|t: int| 0 <= t < self.topics.len() ==> (#[trigger] self.topics[t]).is_labelled()
    }
}

/// One partition of a topic as the cluster reported it.
#[derive(Debug, PartialEq, Eq)]
pub struct Partition {
    /// Name of the topic the partition belongs to, kept here for reporting.
    pub topic: String,
    /// Partition id within its topic.
    pub id: i32,
    /// Brokers assigned to host the partition.
    pub replicas: Vec<i32>,
    /// Brokers currently caught up with the partition leader.
    pub isr: Vec<i32>,
}

impl View for Partition {
    type V = PartitionView;

    open spec fn view(&self) -> PartitionView {
        PartitionView {
            topic: self.topic@,
            id: self.id as int,
            replicas: self.replicas@,
            isr: self.isr@,
        }
    }
}

impl Clone for Partition {
    fn clone(&self) -> (copy: Self)
        ensures
            copy@ == self@,
    {
        Partition {
            topic: self.topic.clone(),
            id: self.id,
            replicas: self.replicas.clone(),
            isr: self.isr.clone(),
        }
    }
}

/// The models of a sequence of partitions, element by element.
pub open spec fn partition_views(partitions: Seq<Partition>) -> Seq<PartitionView> {
    partitions.map_values(|p: Partition| p@)
}

impl Partition {
    /// Whether the partition has no in-sync replica.
    pub fn is_offline(&self) -> (offline: bool)
        ensures
            offline == self@.is_offline(),
    {
        self.isr.len() == 0
    }

    /// Whether the partition has fewer in-sync replicas than assigned ones.
    pub fn is_out_of_sync(&self) -> (lagging: bool)
        ensures
            lagging == self@.is_out_of_sync(),
    {
        self.replicas.len() > self.isr.len()
    }
}

/// A named topic with its partitions.
#[derive(Debug, PartialEq, Eq)]
pub struct Topic {
    pub name: String,
    pub partitions: Vec<Partition>,
}

impl View for Topic {
    type V = TopicView;

    open spec fn view(&self) -> TopicView {
        TopicView { name: self.name@, partitions: partition_views(self.partitions@) }
    }
}

impl Clone for Topic {
    fn clone(&self) -> (copy: Self)
        ensures
            copy@ == self@,
    {
        let copy = Topic { name: self.name.clone(), partitions: self.partitions.clone() };
        assert(partition_views(copy.partitions@) == partition_views(self.partitions@));
        copy
    }
}

impl Topic {
    /// A topic without partitions.
    pub fn new(name: String) -> (topic: Topic)
        ensures
            topic@ == (TopicView { name: name@, partitions: Seq::empty() }),
            topic@.is_labelled(),
    {
        let topic = Topic { name, partitions: Vec::new() };
        assert(partition_views(topic.partitions@) == Seq::<PartitionView>::empty());
        topic
    }

    /// Appends a partition, labelled with the topic's own name.
    pub fn add_partition(&mut self, id: i32, replicas: Vec<i32>, isr: Vec<i32>)
        ensures
            final(self)@ == (TopicView {
                name: old(self)@.name,
                partitions: old(self)@.partitions.push(
                    PartitionView {
                        topic: old(self)@.name,
                        id: id as int,
                        replicas: replicas@,
                        isr: isr@,
                    },
                ),
            }),
            old(self)@.is_labelled() ==> final(self)@.is_labelled(),
    {
        let partition = Partition { topic: self.name.clone(), id, replicas, isr };
        self.partitions.push(partition);
        assert(partition_views(self.partitions@) == partition_views(old(self).partitions@).push(
            partition@,
        ));
    }
}

/// The models of a sequence of topics, element by element.
pub open spec fn topic_views(topics: Seq<Topic>) -> Seq<TopicView> {
    topics.map_values(|t: Topic| t@)
}

/// Cluster metadata as fetched at one moment: the brokers that are up and
/// the topics with their partitions.
#[derive(Debug, PartialEq, Eq)]
pub struct ClusterSnapshot {
    /// Ids of the brokers in the cluster.
    pub brokers: Vec<i32>,
    pub topics: Vec<Topic>,
}

impl View for ClusterSnapshot {
    type V = SnapshotView;

    open spec fn view(&self) -> SnapshotView {
        SnapshotView { brokers: self.brokers@, topics: topic_views(self.topics@) }
    }
}

impl ClusterSnapshot {
    /// A snapshot of the given brokers, without topics.
    pub fn new(brokers: Vec<i32>) -> (snapshot: ClusterSnapshot)
        ensures
            snapshot@ == (SnapshotView { brokers: brokers@, topics: Seq::empty() }),
            snapshot@.is_labelled(),
    {
        let snapshot = ClusterSnapshot { brokers, topics: Vec::new() };
        assert(topic_views(snapshot.topics@) == Seq::<TopicView>::empty());
        snapshot
    }

    /// Appends a topic.
    pub fn add_topic(&mut self, topic: Topic)
        ensures
            final(self)@ == (SnapshotView {
                brokers: old(self)@.brokers,
                topics: old(self)@.topics.push(topic@),
            }),
            old(self)@.is_labelled() && topic@.is_labelled() ==> final(self)@.is_labelled(),
    {
        self.topics.push(topic);
        assert(topic_views(self.topics@) == topic_views(old(self).topics@).push(topic@));
    }
}

impl Clone for ClusterSnapshot {
    fn clone(&self) -> (copy: Self)
        ensures
            copy@ == self@,
    {
        let copy = ClusterSnapshot { brokers: self.brokers.clone(), topics: self.topics.clone() };
        assert(topic_views(copy.topics@) == topic_views(self.topics@));
        copy
    }
}

} // verus!
