//! The durable derived status: the discovery hash and the aggregated
//! conditions.

use vstd::prelude::*;

verus! {

use vstd::string::*;
use crate::crd::{ClusterCondition, ClusterConditionView, HiveClusterStatus};
use crate::config::dup_opt_string;

/// Rebuilds an owned copy of a condition list, preserving its image.
pub fn dup_conditions(v: &Vec<ClusterCondition>) -> (r: Vec<ClusterCondition>)
    ensures
        r.deep_view() == v.deep_view(),
{
    let mut r: Vec<ClusterCondition> = Vec::new();
    let mut i: usize = 0;
    while i < v.len()
        invariant
            i <= v.len(),
            r@.len() == i as int,
            forall|j: int| 0 <= j < i ==> #[trigger] r.deep_view()[j] == v.deep_view()[j],
        decreases v.len() - i,
    {
        let x = ClusterCondition {
            type_: v[i].type_.clone(),
            status: v[i].status.clone(),
            reason: dup_opt_string(&v[i].reason),
            message: dup_opt_string(&v[i].message),
        };
        let ghost gx = x;
        let ghost prev = r;
        r.push(x);
        proof {
            assert forall|j: int| 0 <= j < i + 1 implies #[trigger] r.deep_view()[j]
                == v.deep_view()[j] by {
                assert(r@ == prev@.push(gx));
                if j < i as int {
                    assert(prev.deep_view()[j] == v.deep_view()[j]);
                } else {
                    assert(r@[j] == gx);
                }
            }
        }
        i = i + 1;
    }
    proof {
        assert(r.deep_view() =~= v.deep_view());
    }
    r
}

/// The digest of a text under the 64-bit Fowler–Noll–Vo fold, started
/// from the given key; a function of the key and the characters alone.
pub uninterp spec fn fnv1a64_of(key: u64, text: Seq<char>) -> u64;

/// Relies on fnv::FnvHasher: with_key starts the fold at the key, write
/// folds the text's bytes in, finish returns the state; the digest
/// depends on the key and the text alone.
#[verifier::external_body]
fn fnv1a64(key: u64, text: &str) -> (r: u64)
    ensures
        r == fnv1a64_of(key, text@),
{
    let mut hasher = fnv::FnvHasher::with_key(key);
    std::hash::Hasher::write(&mut hasher, text.as_bytes());
    std::hash::Hasher::finish(&hasher)
}

/// The concatenation of the texts, in order.
pub open spec fn spec_concat(parts: Seq<Seq<char>>) -> Seq<char>
    decreases parts.len(),
{
    if parts.len() == 0 {
        Seq::empty()
    } else {
        spec_concat(parts.drop_last()) + parts.last()
    }
}

/// The discovery hash: the digest of the discovery records' resource
/// versions, concatenated in record order and folded from zero. The
/// stable fold keeps the value reproducible across releases.
pub fn discovery_hash(resource_versions: &Vec<String>) -> (r: u64)
    ensures
        r == fnv1a64_of(0, spec_concat(resource_versions.deep_view())),
{
    let mut joined = String::new();
    proof {
        reveal_strlit("");
        assert(joined@ =~= spec_concat(resource_versions.deep_view().subrange(0, 0)));
    }
    let mut i: usize = 0;
    while i < resource_versions.len()
        invariant
            i <= resource_versions.len(),
            joined@ == spec_concat(resource_versions.deep_view().subrange(0, i as int)),
        decreases resource_versions.len() - i,
    {
        joined.append(resource_versions[i].as_str());
        proof {
            let pre = resource_versions.deep_view().subrange(0, i as int);
            let cur = resource_versions.deep_view().subrange(0, i + 1 as int);
            assert(cur.drop_last() =~= pre);
            assert(cur.last() == resource_versions.deep_view()[i as int]);
        }
        i = i + 1;
    }
    proof {
        assert(resource_versions.deep_view().subrange(0, resource_versions.deep_view().len() as int)
            =~= resource_versions.deep_view());
    }
    fnv1a64(0, joined.as_str())
}

/// Unchanged discovery records reproduce the same hash: the hash is a
/// function of the resource versions alone.
pub proof fn lemma_discovery_hash_deterministic(a: Seq<Seq<char>>, b: Seq<Seq<char>>)
    requires
        a == b,
    ensures
        fnv1a64_of(0, spec_concat(a)) == fnv1a64_of(0, spec_concat(b)),
{
}

/// The aggregated conditions of one pass: availability from the
/// workloads' readiness, plus the operational switches.
pub open spec fn spec_conditions(
    hive: crate::cluster::HiveCluster,
    all_workloads_ready: bool,
) -> Seq<ClusterConditionView> {
    seq![
        ClusterConditionView {
            type_: "Available"@,
            status: if all_workloads_ready {
                "True"@
            } else {
                "False"@
            },
            reason: None,
            message: None,
        },
        ClusterConditionView {
            type_: "ReconciliationPaused"@,
            status: if hive.spec.cluster_operation.reconciliation_paused {
                "True"@
            } else {
                "False"@
            },
            reason: None,
            message: None,
        },
        ClusterConditionView {
            type_: "Stopped"@,
            status: if hive.spec.cluster_operation.stopped {
                "True"@
            } else {
                "False"@
            },
            reason: None,
            message: None,
        },
    ]
}

fn bool_condition(type_: &str, value: bool) -> (r: ClusterCondition)
    ensures
        r.deep_view() == (ClusterConditionView {
            type_: type_@,
            status: if value {
                "True"@
            } else {
                "False"@
            },
            reason: None,
            message: None,
        }),
{
    ClusterCondition {
        type_: String::from_str(type_),
        status: if value {
            String::from_str("True")
        } else {
            String::from_str("False")
        },
        reason: None,
        message: None,
    }
}

/// Computes the aggregated conditions.
pub fn compute_conditions(
    hive: &crate::cluster::HiveCluster,
    all_workloads_ready: bool,
) -> (r: Vec<ClusterCondition>)
    ensures
        r.deep_view() == spec_conditions(*hive, all_workloads_ready),
{
    let mut r: Vec<ClusterCondition> = Vec::new();
    r.push(bool_condition("Available", all_workloads_ready));
    r.push(
        bool_condition("ReconciliationPaused", hive.spec.cluster_operation.reconciliation_paused),
    );
    r.push(bool_condition("Stopped", hive.spec.cluster_operation.stopped));
    proof {
        assert(r.deep_view() =~= spec_conditions(*hive, all_workloads_ready));
    }
    r
}

/// Builds the status written at the end of a successful pass: the
/// opaque discovery hash, rendered as text to discourage parsing, and
/// the aggregated conditions.
pub fn build_status(
    discovery_resource_versions: &Vec<String>,
    conditions: Vec<ClusterCondition>,
) -> (r: HiveClusterStatus)
    ensures
        r.discovery_hash matches Some(h) && h@ == crate::strutil::spec_dec(
            fnv1a64_of(0, spec_concat(discovery_resource_versions.deep_view())) as nat,
        ),
        r.conditions == conditions,
{
    let hash = discovery_hash(discovery_resource_versions);
    HiveClusterStatus {
        discovery_hash: Some(crate::strutil::u64_to_dec_string(hash)),
        conditions,
    }
}

} // verus!
