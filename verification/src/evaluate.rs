//! The classification itself: from a snapshot to a health report.

use vstd::prelude::*;
use crate::report::{detail_views, HealthView, KafkaHealth, KafkaPartitionDetail};
use crate::snapshot::{all_partitions, ClusterSnapshot, PartitionView, SnapshotView, Topic, TopicView};
use crate::status::KafkaStatus;

verus! {

/// Some partition of `partitions` has no in-sync replica.
pub open spec fn has_offline(partitions: Seq<PartitionView>) -> bool {
    exists|i: int| 0 <= i < partitions.len() && (#[trigger] partitions[i]).is_offline()
}

/// Some partition of `partitions` has fewer in-sync than assigned replicas.
pub open spec fn has_out_of_sync(partitions: Seq<PartitionView>) -> bool {
    exists|i: int| 0 <= i < partitions.len() && (#[trigger] partitions[i]).is_out_of_sync()
}

/// The test that selects the partitions to report.
pub open spec fn lagging() -> spec_fn(PartitionView) -> bool {
    |p: PartitionView| p.is_out_of_sync()
}

/// The out-of-sync partitions of `partitions`, in the order in which they
/// stand there.
pub open spec fn out_of_sync(partitions: Seq<PartitionView>) -> Seq<PartitionView> {
    partitions.filter(lagging())
}

/// The status that a sequence of partitions calls for: `Red` as soon as one
/// partition is offline, else `Yellow` as soon as one is out of sync, else
/// `Green`.
pub open spec fn status_of(partitions: Seq<PartitionView>) -> KafkaStatus {
    if has_offline(partitions) {
        KafkaStatus::Red
    } else if has_out_of_sync(partitions) {
        KafkaStatus::Yellow
    } else {
        KafkaStatus::Green
    }
}

/// The report that a snapshot calls for.
pub open spec fn health_of(snapshot: SnapshotView) -> HealthView {
    HealthView {
        status: status_of(snapshot.partitions()),
        brokers: snapshot.brokers.len(),
        topics: snapshot.topics.len(),
        out_of_sync_partitions: Some(out_of_sync(snapshot.partitions())),
    }
}

/// Appending a topic appends its partitions to the flattened list.
pub proof fn lemma_all_partitions_push(topics: Seq<TopicView>, topic: TopicView)
    ensures
        all_partitions(topics.push(topic)) == all_partitions(topics) + topic.partitions,
{
    let f = |t: TopicView| t.partitions;
    topics.lemma_push_map_commute(f, topic);
    topics.map_values(f).lemma_flatten_push(topic.partitions);
}

/// The out-of-sync selection of a concatenation is the concatenation of the
/// selections.
pub proof fn lemma_out_of_sync_concat(first: Seq<PartitionView>, second: Seq<PartitionView>)
    ensures
        out_of_sync(first + second) == out_of_sync(first) + out_of_sync(second),
{
    Seq::filter_distributes_over_add(first, second, lagging());
}

/// A concatenation holds an offline partition exactly when one of its two
/// parts does.
pub proof fn lemma_has_offline_concat(first: Seq<PartitionView>, second: Seq<PartitionView>)
    ensures
        has_offline(first + second) == (has_offline(first) || has_offline(second)),
{
    let both = first + second;
    if has_offline(first) {
        let i = choose|i: int| 0 <= i < first.len() && (#[trigger] first[i]).is_offline();
        assert(both[i].is_offline());
    }
    if has_offline(second) {
        let i = choose|i: int| 0 <= i < second.len() && (#[trigger] second[i]).is_offline();
        assert(both[first.len() + i].is_offline());
    }
    if has_offline(both) {
        let i = choose|i: int| 0 <= i < both.len() && (#[trigger] both[i]).is_offline();
        if i < first.len() {
            assert(first[i].is_offline());
        } else {
            assert(second[i - first.len()].is_offline());
        }
    }
}

/// A concatenation holds an out-of-sync partition exactly when one of its
/// two parts does.
pub proof fn lemma_has_out_of_sync_concat(first: Seq<PartitionView>, second: Seq<PartitionView>)
    ensures
        has_out_of_sync(first + second) == (has_out_of_sync(first) || has_out_of_sync(second)),
{
    let both = first + second;
    if has_out_of_sync(first) {
        let i = choose|i: int| 0 <= i < first.len() && (#[trigger] first[i]).is_out_of_sync();
        assert(both[i].is_out_of_sync());
    }
    if has_out_of_sync(second) {
        let i = choose|i: int| 0 <= i < second.len() && (#[trigger] second[i]).is_out_of_sync();
        assert(both[first.len() + i].is_out_of_sync());
    }
    if has_out_of_sync(both) {
        let i = choose|i: int| 0 <= i < both.len() && (#[trigger] both[i]).is_out_of_sync();
        if i < first.len() {
            assert(first[i].is_out_of_sync());
        } else {
            assert(second[i - first.len()].is_out_of_sync());
        }
    }
}

/// The selection is non-empty exactly when some partition is out of sync.
pub proof fn lemma_out_of_sync_nonempty(partitions: Seq<PartitionView>)
    ensures
        out_of_sync(partitions).len() > 0 <==> has_out_of_sync(partitions),
{
    let selected = out_of_sync(partitions);
    if selected.len() > 0 {
        partitions.lemma_filter_pred(lagging(), 0);
        assert(selected.contains(selected[0]));
        partitions.lemma_filter_contains_rev(lagging(), selected[0]);
        let i = choose|i: int| 0 <= i < partitions.len() && partitions[i] == selected[0];
        assert(partitions[i].is_out_of_sync());
    }
    if has_out_of_sync(partitions) {
        let i = choose|i: int|
            0 <= i < partitions.len() && (#[trigger] partitions[i]).is_out_of_sync();
        partitions.lemma_filter_contains(lagging(), i);
    }
}

/// Appending one partition adds an offline partition exactly when the
/// appended one is offline.
pub proof fn lemma_has_offline_push(partitions: Seq<PartitionView>, last: PartitionView)
    ensures
        has_offline(partitions.push(last)) == (has_offline(partitions) || last.is_offline()),
{
    assert(partitions.push(last) == partitions + seq![last]);
    lemma_has_offline_concat(partitions, seq![last]);
    if has_offline(seq![last]) {
        let i = choose|i: int| 0 <= i < 1 && (#[trigger] seq![last][i]).is_offline();
    }
    if last.is_offline() {
        assert(seq![last][0].is_offline());
    }
}

/// Scans the partitions of one topic: appends a detail for each one that is
/// out of sync, and tells whether one of them is offline.
fn scan_topic(topic: &Topic, details: &mut Vec<KafkaPartitionDetail>) -> (offline: bool)
    ensures
        offline == has_offline(topic@.partitions),
        detail_views(final(details)@) == detail_views(old(details)@) + out_of_sync(
            topic@.partitions,
        ),
{
    let mut offline = false;
    let mut i: usize = 0;
    proof {
        reveal(Seq::filter);
        assert(detail_views(details@) == detail_views(details@) + out_of_sync(
            topic@.partitions.take(0),
        ));
    }
    while i < topic.partitions.len()
        invariant
            i <= topic.partitions.len(),
            offline == has_offline(topic@.partitions.take(i as int)),
            detail_views(details@) == detail_views(old(details)@) + out_of_sync(
                topic@.partitions.take(i as int),
            ),
        decreases topic.partitions.len() - i,
    {
        let partition = &topic.partitions[i];
        let ghost scanned = topic@.partitions.take(i as int);
        let ghost before = details@;
        if partition.is_offline() {
            offline = true;
        }
        if partition.is_out_of_sync() {
            details.push(partition.detail());
            assert(detail_views(details@) == detail_views(before).push(partition@));
        }
        proof {
            assert(topic@.partitions.take(i + 1) == scanned.push(partition@));
            lemma_has_offline_push(scanned, partition@);
            scanned.lemma_filter_push(partition@, lagging());
        }
        i += 1;
    }
    assert(topic@.partitions.take(i as int) == topic@.partitions);
    offline
}

/// Classifies a snapshot.
///
/// The status is `Red` when some partition has no in-sync replica, else
/// `Yellow` when some partition has fewer in-sync than assigned replicas,
/// else `Green`. The report counts the brokers and the topics and lists,
/// in snapshot order, every partition with fewer in-sync than assigned
/// replicas.
pub fn evaluate(snapshot: &ClusterSnapshot) -> (report: KafkaHealth)
    ensures
        report@ == health_of(snapshot@),
{
    let mut status = KafkaStatus::Green;
    let mut details: Vec<KafkaPartitionDetail> = Vec::new();
    let mut t: usize = 0;
    proof {
        reveal(Seq::filter);
        assert(all_partitions(snapshot@.topics.take(0)) == Seq::<PartitionView>::empty());
        assert(detail_views(details@) == Seq::<PartitionView>::empty());
    }
    while t < snapshot.topics.len()
        invariant
            t <= snapshot.topics.len(),
            status == KafkaStatus::Red || status == KafkaStatus::Green,
            status == KafkaStatus::Red <==> has_offline(
                all_partitions(snapshot@.topics.take(t as int)),
            ),
            detail_views(details@) == out_of_sync(all_partitions(snapshot@.topics.take(t as int))),
        decreases snapshot.topics.len() - t,
    {
        let topic = &snapshot.topics[t];
        let ghost scanned = all_partitions(snapshot@.topics.take(t as int));
        if scan_topic(topic, &mut details) {
            status = status.escalate(KafkaStatus::Red);
        }
        proof {
            assert(snapshot@.topics.take(t + 1) == snapshot@.topics.take(t as int).push(topic@));
            lemma_all_partitions_push(snapshot@.topics.take(t as int), topic@);
            lemma_has_offline_concat(scanned, topic@.partitions);
            lemma_out_of_sync_concat(scanned, topic@.partitions);
        }
        t += 1;
    }
    proof {
        assert(snapshot@.topics.take(t as int) == snapshot@.topics);
        lemma_out_of_sync_nonempty(snapshot@.partitions());
    }
    if details.len() > 0 && status != KafkaStatus::Red {
        status = status.escalate(KafkaStatus::Yellow);
    }
    KafkaHealth {
        status,
        brokers: snapshot.brokers.len(),
        topics: snapshot.topics.len(),
        out_of_sync_partitions: Some(details),
    }
}

} // verus!
