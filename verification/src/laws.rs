//! Properties of the classification, each proved from the definitions that
//! the contract of `evaluate` is stated over.

use vstd::prelude::*;
use crate::evaluate::{has_offline, has_out_of_sync, health_of, lagging, lemma_all_partitions_push,
    lemma_has_offline_concat, lemma_has_out_of_sync_concat, lemma_out_of_sync_nonempty,
    out_of_sync, status_of};
use crate::report::{detail_views, KafkaHealth};
use crate::snapshot::{all_partitions, ClusterSnapshot, PartitionView, TopicView};
use crate::status::KafkaStatus;

verus! {

/// A snapshot without topics is `Green`, reports no partition, and its
/// report counts the brokers and zero topics.
pub proof fn empty_snapshot_is_green(snapshot: ClusterSnapshot, report: KafkaHealth)
    requires
        report@ == health_of(snapshot@),
        snapshot.topics@.len() == 0,
    ensures
        report.status == KafkaStatus::Green,
        report.out_of_sync_partitions matches Some(details) && details@.len() == 0,
        report.brokers == snapshot.brokers@.len(),
        report.topics == 0,
{
    reveal(Seq::filter);
    assert(snapshot@.partitions() == Seq::<PartitionView>::empty());
    assert(detail_views(report.out_of_sync_partitions->0@).len() == 0);
}

/// The report counts the brokers and the topics of the snapshot, whatever
/// the partitions hold.
pub proof fn report_counts_brokers_and_topics(snapshot: ClusterSnapshot, report: KafkaHealth)
    requires
        report@ == health_of(snapshot@),
    ensures
        report.brokers == snapshot.brokers@.len(),
        report.topics == snapshot.topics@.len(),
        report.out_of_sync_partitions is Some,
{
}

/// Where every partition has an in-sync replica and at least as many
/// in-sync as assigned replicas, the status is `Green` and no partition is
/// reported.
pub proof fn fully_replicated_is_green(snapshot: ClusterSnapshot, report: KafkaHealth)
    requires
        report@ == health_of(snapshot@),
        forall|i: int|
            0 <= i < snapshot@.partitions().len() ==> !(#[trigger] snapshot@.partitions()[i]).is_offline()
                && !snapshot@.partitions()[i].is_out_of_sync(),
    ensures
        report.status == KafkaStatus::Green,
        report.out_of_sync_partitions matches Some(details) && details@.len() == 0,
{
    let partitions = snapshot@.partitions();
    lemma_out_of_sync_nonempty(partitions);
    assert(detail_views(report.out_of_sync_partitions->0@).len() == 0);
}

/// Where some partition is out of sync and none is offline, the status is
/// `Yellow`, and the report lists the out-of-sync partitions and no others,
/// in snapshot order.
pub proof fn out_of_sync_without_offline_is_yellow(snapshot: ClusterSnapshot, report: KafkaHealth)
    requires
        report@ == health_of(snapshot@),
        has_out_of_sync(snapshot@.partitions()),
        !has_offline(snapshot@.partitions()),
    ensures
        report.status == KafkaStatus::Yellow,
        report.out_of_sync_partitions matches Some(details) && detail_views(details@)
            == out_of_sync(snapshot@.partitions()),
        exists|positions: Seq<int>|
            selects_out_of_sync(
                snapshot@.partitions(),
                positions,
                detail_views(report.out_of_sync_partitions->0@),
            ),
{
    report_lists_the_out_of_sync_partitions(snapshot, report);
}

/// Where some partition is offline, the status is `Red`, whatever the other
/// partitions hold.
pub proof fn offline_partition_is_red(snapshot: ClusterSnapshot, report: KafkaHealth)
    requires
        report@ == health_of(snapshot@),
        has_offline(snapshot@.partitions()),
    ensures
        report.status == KafkaStatus::Red,
{
}

/// Partitions that follow never lower a status: the status of a sequence
/// continued by further partitions is at least the status of the sequence,
/// and a `Red` stays `Red`.
pub proof fn later_partitions_never_lower_status(
    scanned: Seq<PartitionView>,
    further: Seq<PartitionView>,
)
    ensures
        status_of(scanned).rank() <= status_of(scanned + further).rank(),
        status_of(scanned) == KafkaStatus::Red ==> status_of(scanned + further) == KafkaStatus::Red,
        status_of(scanned + further) == status_of(scanned).worse_of(status_of(further)),
{
    lemma_has_offline_concat(scanned, further);
    lemma_has_out_of_sync_concat(scanned, further);
}

/// Two evaluations of one snapshot give the same report.
pub proof fn evaluation_is_repeatable(
    snapshot: ClusterSnapshot,
    first: KafkaHealth,
    second: KafkaHealth,
)
    requires
        first@ == health_of(snapshot@),
        second@ == health_of(snapshot@),
    ensures
        first@ == second@,
        first.status == second.status,
        first.brokers == second.brokers,
        first.topics == second.topics,
{
}

/// `positions` picks out of `partitions`, in increasing order, exactly the
/// places of the out-of-sync partitions, and `selected` holds what stands
/// at those places.
pub open spec fn selects_out_of_sync(
    partitions: Seq<PartitionView>,
    positions: Seq<int>,
    selected: Seq<PartitionView>,
) -> bool {
    &&& positions.len() == selected.len()
    &&& forall|k: int|
        0 <= k < positions.len() ==> 0 <= #[trigger] positions[k] < partitions.len()
            && selected[k] == partitions[positions[k]]
    &&& forall|j: int, k: int|
        0 <= j < k < positions.len() ==> #[trigger] positions[j] < #[trigger] positions[k]
    &&& forall|i: int|
        0 <= i < partitions.len() ==> ((#[trigger] partitions[i]).is_out_of_sync()
            <==> positions.contains(i))
}

/// The reported list is the input with the partitions that are not out of
/// sync struck out: it keeps every out-of-sync partition, keeps no other,
/// and keeps them in input order. The positions kept are returned.
pub proof fn out_of_sync_keeps_order(partitions: Seq<PartitionView>) -> (positions: Seq<int>)
    ensures
        selects_out_of_sync(partitions, positions, out_of_sync(partitions)),
    decreases partitions.len(),
{
    reveal(Seq::filter);
    if partitions.len() == 0 {
        Seq::<int>::empty()
    } else {
        let rest = partitions.drop_last();
        let last = partitions.last();
        let at = partitions.len() - 1;
        let kept = out_of_sync_keeps_order(rest);
        if last.is_out_of_sync() {
            let positions = kept.push(at);
            let selected = out_of_sync(partitions);
            assert(selected == out_of_sync(rest).push(last));
            assert forall|i: int| 0 <= i < partitions.len() implies ((
            #[trigger] partitions[i]).is_out_of_sync() <==> positions.contains(i)) by {
                if i < at {
                    assert(partitions[i] == rest[i]);
                    if rest[i].is_out_of_sync() {
                        let k = choose|k: int| 0 <= k < kept.len() && kept[k] == i;
                        assert(positions[k] == i);
                    }
                    if positions.contains(i) {
                        let k = choose|k: int| 0 <= k < positions.len() && positions[k] == i;
                        assert(kept[k] == i);
                    }
                } else {
                    assert(positions[kept.len() as int] == i);
                }
            }
            assert forall|k: int| 0 <= k < positions.len() implies 0 <= #[trigger] positions[k]
                < partitions.len() && selected[k] == partitions[positions[k]] by {
                if k < kept.len() {
                    assert(positions[k] == kept[k]);
                    assert(selected[k] == out_of_sync(rest)[k]);
                    assert(rest[kept[k]] == partitions[kept[k]]);
                }
            }
            assert forall|j: int, k: int| 0 <= j < k < positions.len() implies #[trigger] positions[j]
                < #[trigger] positions[k] by {
                assert(positions[j] == kept[j]);
                if k < kept.len() {
                    assert(positions[k] == kept[k]);
                }
            }
            positions
        } else {
            assert(out_of_sync(partitions) == out_of_sync(rest));
            assert forall|i: int| 0 <= i < partitions.len() implies ((
            #[trigger] partitions[i]).is_out_of_sync() <==> kept.contains(i)) by {
                if i < at {
                    assert(partitions[i] == rest[i]);
                } else {
                    if kept.contains(i) {
                        let k = choose|k: int| 0 <= k < kept.len() && kept[k] == i;
                        assert(0 <= kept[k] < rest.len());
                    }
                }
            }
            assert forall|k: int| 0 <= k < kept.len() implies 0 <= #[trigger] kept[k]
                < partitions.len() && out_of_sync(partitions)[k] == partitions[kept[k]] by {
                assert(rest[kept[k]] == partitions[kept[k]]);
            }
            kept
        }
    }
}

/// `partition` is one of the partitions of one of `topics`.
pub open spec fn is_partition_of(topics: Seq<TopicView>, partition: PartitionView) -> bool {
    exists|t: int, p: int|
        0 <= t < topics.len() && 0 <= p < topics[t].partitions.len()
            && #[trigger] topics[t].partitions[p] == partition
}

/// Every partition of every topic stands in the flattened list, and every
/// entry of the flattened list is a partition of some topic.
pub proof fn partitions_are_those_of_the_topics(topics: Seq<TopicView>)
    ensures
        forall|t: int, p: int|
            0 <= t < topics.len() && 0 <= p < topics[t].partitions.len() ==> all_partitions(
                topics,
            ).contains(#[trigger] topics[t].partitions[p]),
        forall|i: int|
            0 <= i < all_partitions(topics).len() ==> is_partition_of(
                topics,
                #[trigger] all_partitions(topics)[i],
            ),
    decreases topics.len(),
{
    if topics.len() == 0 {
        assert(all_partitions(topics) == Seq::<PartitionView>::empty());
    } else {
        let rest = topics.drop_last();
        let last = topics.last();
        partitions_are_those_of_the_topics(rest);
        assert(topics == rest.push(last));
        lemma_all_partitions_push(rest, last);
        let all = all_partitions(topics);
        let before = all_partitions(rest);
        assert(all == before + last.partitions);
        assert forall|t: int, p: int|
            0 <= t < topics.len() && 0 <= p < topics[t].partitions.len() implies all.contains(
            #[trigger] topics[t].partitions[p],
        ) by {
            if t < rest.len() {
                assert(topics[t] == rest[t]);
                assert(before.contains(rest[t].partitions[p]));
                let i = choose|i: int| 0 <= i < before.len() && before[i] == rest[t].partitions[p];
                assert(all[i] == rest[t].partitions[p]);
            } else {
                assert(all[before.len() + p] == last.partitions[p]);
            }
        }
        assert forall|i: int| 0 <= i < all.len() implies is_partition_of(topics, #[trigger] all[i]) by {
            if i < before.len() {
                assert(all[i] == before[i]);
                assert(is_partition_of(rest, before[i]));
                let (t, p) = choose|t: int, p: int|
                    0 <= t < rest.len() && 0 <= p < rest[t].partitions.len()
                        && #[trigger] rest[t].partitions[p] == before[i];
                assert(topics[t] == rest[t]);
                assert(topics[t].partitions[p] == all[i]);
            } else {
                let t = topics.len() - 1;
                let p = i - before.len();
                assert(topics[t].partitions[p] == all[i]);
            }
        }
    }
}

/// Whatever the status, the report lists the out-of-sync partitions of the
/// snapshot and no others, in snapshot order.
pub proof fn report_lists_the_out_of_sync_partitions(snapshot: ClusterSnapshot, report: KafkaHealth)
    requires
        report@ == health_of(snapshot@),
    ensures
        report.out_of_sync_partitions matches Some(details) && exists|positions: Seq<int>|
            selects_out_of_sync(snapshot@.partitions(), positions, detail_views(details@)),
{
    let positions = out_of_sync_keeps_order(snapshot@.partitions());
    assert(selects_out_of_sync(
        snapshot@.partitions(),
        positions,
        detail_views(report.out_of_sync_partitions->0@),
    ));
}

/// `name` is the name of one of `topics`.
pub open spec fn is_topic_name(topics: Seq<TopicView>, name: Seq<char>) -> bool {
    exists|t: int| 0 <= t < topics.len() && (#[trigger] topics[t]).name == name
}

/// In a snapshot whose partitions carry the names of their topics, every
/// reported partition names a topic of the snapshot.
pub proof fn reported_partitions_name_a_topic(snapshot: ClusterSnapshot, report: KafkaHealth)
    requires
        report@ == health_of(snapshot@),
        snapshot@.is_labelled(),
    ensures
        report.out_of_sync_partitions matches Some(details) && forall|k: int|
            0 <= k < details@.len() ==> is_topic_name(
                snapshot@.topics,
                (#[trigger] details@[k]).topic@,
            ),
{
    let details = report.out_of_sync_partitions->0;
    let topics = snapshot@.topics;
    let partitions = snapshot@.partitions();
    let reported = out_of_sync(partitions);
    assert(detail_views(details@) == reported);
    partitions_are_those_of_the_topics(topics);
    assert forall|k: int| 0 <= k < details@.len() implies is_topic_name(
        topics,
        (#[trigger] details@[k]).topic@,
    ) by {
        assert(details@[k]@ == reported[k]);
        assert(reported.contains(reported[k]));
        partitions.lemma_filter_contains_rev(lagging(), reported[k]);
        let i = choose|i: int| 0 <= i < partitions.len() && partitions[i] == reported[k];
        assert(is_partition_of(topics, partitions[i]));
        let (t, p) = choose|t: int, p: int|
            0 <= t < topics.len() && 0 <= p < topics[t].partitions.len()
                && #[trigger] topics[t].partitions[p] == partitions[i];
        assert(topics[t].is_labelled());
        assert(topics[t].partitions[p].topic == topics[t].name);
    }
}

} // verus!
