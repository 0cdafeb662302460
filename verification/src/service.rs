//! The per-role-group services: a headless service for stable pod
//! identity and a metrics service carrying the scrape annotation.

use vstd::prelude::*;

verus! {

use vstd::string::*;
use crate::cluster::{HiveCluster, ResolvedProductImage};
use crate::crd::{KeyValue, KeyValueView, RoleGroupRef, RoleGroupRefView};

/// A named port of a service or container.
pub struct NamedPort {
    pub name: String,
    pub port: u16,
}

/// Ghost image of a [`NamedPort`].
pub ghost struct NamedPortView {
    pub name: Seq<char>,
    pub port: u16,
}

impl DeepView for NamedPort {
    type V = NamedPortView;

    open spec fn deep_view(&self) -> NamedPortView {
        NamedPortView { name: self.name@, port: self.port }
    }
}

/// The recommended labels every owned object carries.
pub open spec fn spec_recommended_labels(
    cluster_name: Seq<char>,
    app_version: Seq<char>,
    role: Seq<char>,
    role_group: Seq<char>,
) -> Seq<KeyValueView> {
    seq![
        KeyValueView { key: "app.kubernetes.io/name"@, value: "hive"@ },
        KeyValueView { key: "app.kubernetes.io/instance"@, value: cluster_name },
        KeyValueView { key: "app.kubernetes.io/version"@, value: app_version },
        KeyValueView { key: "app.kubernetes.io/component"@, value: role },
        KeyValueView { key: "app.kubernetes.io/role-group"@, value: role_group },
        KeyValueView {
            key: "app.kubernetes.io/managed-by"@,
            value: "hive.stackable.tech_hivecluster"@,
        },
    ]
}

/// Builds the recommended labels for one owned object.
pub fn build_recommended_labels(
    cluster_name: &str,
    app_version: &str,
    role: &str,
    role_group: &str,
) -> (r: Vec<KeyValue>)
    ensures
        r.deep_view() == spec_recommended_labels(cluster_name@, app_version@, role@, role_group@),
{
    let mut v: Vec<KeyValue> = Vec::new();
    v.push(
        KeyValue {
            key: String::from_str("app.kubernetes.io/name"),
            value: String::from_str("hive"),
        },
    );
    v.push(
        KeyValue {
            key: String::from_str("app.kubernetes.io/instance"),
            value: String::from_str(cluster_name),
        },
    );
    v.push(
        KeyValue {
            key: String::from_str("app.kubernetes.io/version"),
            value: String::from_str(app_version),
        },
    );
    v.push(
        KeyValue {
            key: String::from_str("app.kubernetes.io/component"),
            value: String::from_str(role),
        },
    );
    v.push(
        KeyValue {
            key: String::from_str("app.kubernetes.io/role-group"),
            value: String::from_str(role_group),
        },
    );
    v.push(
        KeyValue {
            key: String::from_str("app.kubernetes.io/managed-by"),
            value: String::from_str("hive.stackable.tech_hivecluster"),
        },
    );
    proof {
        assert(v.deep_view() =~= spec_recommended_labels(
            cluster_name@,
            app_version@,
            role@,
            role_group@,
        ));
    }
    v
}

/// The labels that select the pods of one role group.
pub open spec fn spec_role_group_selector_labels(
    cluster_name: Seq<char>,
    role: Seq<char>,
    role_group: Seq<char>,
) -> Seq<KeyValueView> {
    seq![
        KeyValueView { key: "app.kubernetes.io/name"@, value: "hive"@ },
        KeyValueView { key: "app.kubernetes.io/instance"@, value: cluster_name },
        KeyValueView { key: "app.kubernetes.io/component"@, value: role },
        KeyValueView { key: "app.kubernetes.io/role-group"@, value: role_group },
    ]
}

/// Builds the role-group selector labels.
pub fn role_group_selector_labels(cluster_name: &str, role: &str, role_group: &str) -> (r: Vec<
    KeyValue,
>)
    ensures
        r.deep_view() == spec_role_group_selector_labels(cluster_name@, role@, role_group@),
{
    let mut v: Vec<KeyValue> = Vec::new();
    v.push(
        KeyValue {
            key: String::from_str("app.kubernetes.io/name"),
            value: String::from_str("hive"),
        },
    );
    v.push(
        KeyValue {
            key: String::from_str("app.kubernetes.io/instance"),
            value: String::from_str(cluster_name),
        },
    );
    v.push(
        KeyValue {
            key: String::from_str("app.kubernetes.io/component"),
            value: String::from_str(role),
        },
    );
    v.push(
        KeyValue {
            key: String::from_str("app.kubernetes.io/role-group"),
            value: String::from_str(role_group),
        },
    );
    proof {
        assert(v.deep_view() =~= spec_role_group_selector_labels(cluster_name@, role@, role_group@));
    }
    v
}

/// A desired service.
pub struct ServiceModel {
    pub name: String,
    pub namespace: String,
    /// Name of the owning cluster resource; deletion cascades from it.
    pub owner: String,
    pub labels: Vec<KeyValue>,
    /// Whether the metrics scrape annotation is set.
    pub scrape_annotation: bool,
    pub type_: String,
    /// Whether the service is headless.
    pub cluster_ip_none: bool,
    pub ports: Vec<NamedPort>,
    pub selector: Vec<KeyValue>,
    pub publish_not_ready_addresses: bool,
}

/// Ghost image of a [`ServiceModel`].
pub ghost struct ServiceModelView {
    pub name: Seq<char>,
    pub namespace: Seq<char>,
    pub owner: Seq<char>,
    pub labels: Seq<KeyValueView>,
    pub scrape_annotation: bool,
    pub type_: Seq<char>,
    pub cluster_ip_none: bool,
    pub ports: Seq<NamedPortView>,
    pub selector: Seq<KeyValueView>,
    pub publish_not_ready_addresses: bool,
}

impl DeepView for ServiceModel {
    type V = ServiceModelView;

    open spec fn deep_view(&self) -> ServiceModelView {
        ServiceModelView {
            name: self.name@,
            namespace: self.namespace@,
            owner: self.owner@,
            labels: self.labels.deep_view(),
            scrape_annotation: self.scrape_annotation,
            type_: self.type_@,
            cluster_ip_none: self.cluster_ip_none,
            ports: self.ports.deep_view(),
            selector: self.selector.deep_view(),
            publish_not_ready_addresses: self.publish_not_ready_addresses,
        }
    }
}

/// The name of the role group's headless service.
pub fn rolegroup_headless_service_name(rolegroup: &RoleGroupRef) -> (r: String)
    ensures
        r@ == rolegroup.deep_view().spec_object_name() + "-headless"@,
{
    let mut s = rolegroup.object_name();
    s.append("-headless");
    s
}

/// The name of the role group's metrics service.
pub fn rolegroup_metrics_service_name(rolegroup: &RoleGroupRef) -> (r: String)
    ensures
        r@ == rolegroup.deep_view().spec_object_name() + "-metrics"@,
{
    let mut s = rolegroup.object_name();
    s.append("-metrics");
    s
}

/// The headless service of one role group.
pub open spec fn spec_headless_service(
    hive: HiveCluster,
    app_version: Seq<char>,
    rg: RoleGroupRefView,
) -> ServiceModelView {
    ServiceModelView {
        name: rg.spec_object_name() + "-headless"@,
        namespace: match hive.metadata.namespace {
            Some(n) => n@,
            None => ""@,
        },
        owner: hive.spec_name_any(),
        labels: spec_recommended_labels(hive.spec_name_any(), app_version, rg.role, rg.role_group),
        scrape_annotation: false,
        type_: "ClusterIP"@,
        cluster_ip_none: true,
        ports: seq![
            NamedPortView { name: "hive"@, port: 9083 },
            NamedPortView { name: "metrics"@, port: 9084 },
        ],
        selector: spec_role_group_selector_labels(hive.spec_name_any(), rg.role, rg.role_group),
        publish_not_ready_addresses: true,
    }
}

/// The metrics service of one role group.
pub open spec fn spec_metrics_service(
    hive: HiveCluster,
    app_version: Seq<char>,
    rg: RoleGroupRefView,
) -> ServiceModelView {
    ServiceModelView {
        name: rg.spec_object_name() + "-metrics"@,
        namespace: match hive.metadata.namespace {
            Some(n) => n@,
            None => ""@,
        },
        owner: hive.spec_name_any(),
        labels: spec_recommended_labels(hive.spec_name_any(), app_version, rg.role, rg.role_group),
        scrape_annotation: true,
        type_: "ClusterIP"@,
        cluster_ip_none: true,
        ports: seq![NamedPortView { name: "metrics"@, port: 9084 }],
        selector: spec_role_group_selector_labels(hive.spec_name_any(), rg.role, rg.role_group),
        publish_not_ready_addresses: true,
    }
}

fn namespace_or_empty(hive: &HiveCluster) -> (r: String)
    ensures
        r@ == match hive.metadata.namespace {
            Some(n) => n@,
            None => ""@,
        },
{
    match &hive.metadata.namespace {
        Some(n) => n.clone(),
        None => {
            proof {
                reveal_strlit("");
            }
            String::new()
        },
    }
}

/// Builds the headless service of one role group: stable per-pod network
/// identity on the thrift port, addresses published before readiness.
pub fn build_rolegroup_headless_service(
    hive: &HiveCluster,
    resolved_product_image: &ResolvedProductImage,
    rolegroup: &RoleGroupRef,
) -> (r: ServiceModel)
    ensures
        r.deep_view() == spec_headless_service(
            *hive,
            resolved_product_image.app_version_label@,
            rolegroup.deep_view(),
        ),
{
    let r = ServiceModel {
        name: rolegroup_headless_service_name(rolegroup),
        namespace: namespace_or_empty(hive),
        owner: hive.name_any(),
        labels: build_recommended_labels(
            hive.name_any().as_str(),
            resolved_product_image.app_version_label.as_str(),
            rolegroup.role.as_str(),
            rolegroup.role_group.as_str(),
        ),
        scrape_annotation: false,
        type_: String::from_str("ClusterIP"),
        cluster_ip_none: true,
        ports: {
            let mut p: Vec<NamedPort> = Vec::new();
            p.push(NamedPort { name: String::from_str("hive"), port: 9083 });
            p.push(NamedPort { name: String::from_str("metrics"), port: 9084 });
            p
        },
        selector: role_group_selector_labels(
            hive.name_any().as_str(),
            rolegroup.role.as_str(),
            rolegroup.role_group.as_str(),
        ),
        publish_not_ready_addresses: true,
    };
    proof {
        assert(r.deep_view().ports =~= spec_headless_service(
            *hive,
            resolved_product_image.app_version_label@,
            rolegroup.deep_view(),
        ).ports);
    }
    r
}

/// Builds the metrics service of one role group: the metrics port with
/// the scrape annotation.
pub fn build_rolegroup_metrics_service(
    hive: &HiveCluster,
    resolved_product_image: &ResolvedProductImage,
    rolegroup: &RoleGroupRef,
) -> (r: ServiceModel)
    ensures
        r.deep_view() == spec_metrics_service(
            *hive,
            resolved_product_image.app_version_label@,
            rolegroup.deep_view(),
        ),
{
    let r = ServiceModel {
        name: rolegroup_metrics_service_name(rolegroup),
        namespace: namespace_or_empty(hive),
        owner: hive.name_any(),
        labels: build_recommended_labels(
            hive.name_any().as_str(),
            resolved_product_image.app_version_label.as_str(),
            rolegroup.role.as_str(),
            rolegroup.role_group.as_str(),
        ),
        scrape_annotation: true,
        type_: String::from_str("ClusterIP"),
        cluster_ip_none: true,
        ports: {
            let mut p: Vec<NamedPort> = Vec::new();
            p.push(NamedPort { name: String::from_str("metrics"), port: 9084 });
            p
        },
        selector: role_group_selector_labels(
            hive.name_any().as_str(),
            rolegroup.role.as_str(),
            rolegroup.role_group.as_str(),
        ),
        publish_not_ready_addresses: true,
    };
    proof {
        assert(r.deep_view().ports =~= spec_metrics_service(
            *hive,
            resolved_product_image.app_version_label@,
            rolegroup.deep_view(),
        ).ports);
    }
    r
}

/// The exposure service for the whole cluster, typed by the configured
/// listener class.
pub open spec fn spec_role_service(hive: HiveCluster, app_version: Seq<char>) -> ServiceModelView {
    ServiceModelView {
        name: hive.spec_name_any(),
        namespace: match hive.metadata.namespace {
            Some(n) => n@,
            None => ""@,
        },
        owner: hive.spec_name_any(),
        labels: spec_recommended_labels(hive.spec_name_any(), app_version, "metastore"@, "global"@),
        scrape_annotation: false,
        type_: hive.spec.cluster_config.listener_class.spec_k8s_service_type(),
        cluster_ip_none: false,
        ports: seq![NamedPortView { name: "hive"@, port: 9083 }],
        selector: crate::affinity::spec_role_selector_labels(hive.spec_name_any(), "metastore"@),
        publish_not_ready_addresses: false,
    }
}

/// Builds the cluster-wide exposure service; its type follows the
/// configured listener class.
pub fn build_role_service(hive: &HiveCluster, resolved_product_image: &ResolvedProductImage) -> (r:
    ServiceModel)
    ensures
        r.deep_view() == spec_role_service(*hive, resolved_product_image.app_version_label@),
{
    let r = ServiceModel {
        name: hive.name_any(),
        namespace: namespace_or_empty(hive),
        owner: hive.name_any(),
        labels: build_recommended_labels(
            hive.name_any().as_str(),
            resolved_product_image.app_version_label.as_str(),
            "metastore",
            "global",
        ),
        scrape_annotation: false,
        type_: hive.spec.cluster_config.listener_class.k8s_service_type(),
        cluster_ip_none: false,
        ports: {
            let mut p: Vec<NamedPort> = Vec::new();
            p.push(NamedPort { name: String::from_str("hive"), port: 9083 });
            p
        },
        selector: crate::affinity::role_selector_labels(
            hive.name_any().as_str(),
            &crate::crd::HiveRole::MetaStore,
        ),
        publish_not_ready_addresses: false,
    };
    proof {
        assert(r.deep_view().ports =~= spec_role_service(
            *hive,
            resolved_product_image.app_version_label@,
        ).ports);
    }
    r
}

} // verus!
