//! The default scheduling constraints of the metastore role.

use vstd::prelude::*;

verus! {

use vstd::string::*;
use crate::crd::{HiveRole, KeyValue, KeyValueView};
use crate::config::{StackableAffinity, StackableAffinityView, WeightedAffinityTerm, WeightedAffinityTermView};

/// The labels that select all pods of one role of one cluster.
pub open spec fn spec_role_selector_labels(cluster_name: Seq<char>, role: Seq<char>) -> Seq<
    KeyValueView,
> {
    seq![
        KeyValueView { key: "app.kubernetes.io/name"@, value: "hive"@ },
        KeyValueView { key: "app.kubernetes.io/instance"@, value: cluster_name },
        KeyValueView { key: "app.kubernetes.io/component"@, value: role },
    ]
}

/// Builds those selector labels.
pub fn role_selector_labels(cluster_name: &str, role: &HiveRole) -> (r: Vec<KeyValue>)
    ensures
        r.deep_view() == spec_role_selector_labels(cluster_name@, "metastore"@),
{
    let mut v: Vec<KeyValue> = Vec::new();
    v.push(
        KeyValue {
            key: String::from_str("app.kubernetes.io/name"),
            value: String::from_str("hive"),
        },
    );
    v.push(
        KeyValue {
            key: String::from_str("app.kubernetes.io/instance"),
            value: String::from_str(cluster_name),
        },
    );
    v.push(
        KeyValue {
            key: String::from_str("app.kubernetes.io/component"),
            value: String::from_str(role.as_str()),
        },
    );
    proof {
        assert(v.deep_view() =~= spec_role_selector_labels(cluster_name@, "metastore"@));
    }
    v
}

/// The default affinity of the role: prefer spreading the role's pods
/// across nodes, at weight 70; no node constraints.
pub open spec fn spec_default_affinity(cluster_name: Seq<char>) -> StackableAffinityView {
    StackableAffinityView {
        anti_affinity_preferred: Some(
            seq![
                WeightedAffinityTermView {
                    weight: 70,
                    topology_key: "kubernetes.io/hostname"@,
                    match_labels: spec_role_selector_labels(cluster_name, "metastore"@),
                },
            ],
        ),
        node_affinity_required: None,
        node_selector: None,
    }
}

/// Builds the default affinity fragment for one role of one cluster.
pub fn get_affinity(cluster_name: &str, role: &HiveRole) -> (r: StackableAffinity)
    ensures
        r.deep_view() == spec_default_affinity(cluster_name@),
{
    let mut terms: Vec<WeightedAffinityTerm> = Vec::new();
    terms.push(
        WeightedAffinityTerm {
            weight: 70,
            topology_key: String::from_str("kubernetes.io/hostname"),
            match_labels: role_selector_labels(cluster_name, role),
        },
    );
    let r = StackableAffinity {
        anti_affinity_preferred: Some(terms),
        node_affinity_required: None,
        node_selector: None,
    };
    proof {
        assert(r.deep_view().anti_affinity_preferred->0 =~= spec_default_affinity(
            cluster_name@,
        ).anti_affinity_preferred->0);
    }
    r
}

} // verus!
