//! The cluster resource: roles, role groups, cluster-wide settings, and
//! the configuration overlay resolver that merges the three layers into a
//! validated configuration for one role group.

use vstd::prelude::*;

verus! {

use vstd::string::*;
use crate::crd::{
    AuthenticationConfig, AuthorizationConfig, ClusterCondition, CurrentlySupportedListenerClasses,
    DatabaseConnectionSpec, DbType, Error, HdfsConnection, HiveClusterStatus, HiveRole,
    KeyValue, NoNamespaceError, OpaConfig, PodRef, PodRefView, RoleGroupRef,
    RoleGroupRefView, S3Connection,
};
use crate::config::{
    spec_default_config, spec_merge_fragment, spec_validated, LabelSelector, LabelSelectorView,
    MetaStoreConfig, MetaStoreConfigFragment, MetaStoreConfigFragmentView, MetaStoreConfigView,
    StackableAffinityView, dup_fragment, merge_fragment, validate,
};
use crate::strutil::{spec_dec, u64_to_dec_string};

/// User overrides of the arguments the JVM is started with. `add` appends
/// arguments; `remove` drops exact matches from lower layers;
/// `remove_regex` drops every lower-layer argument a pattern fully
/// matches.
pub struct JvmArgumentOverrides {
    pub add: Vec<String>,
    pub remove: Vec<String>,
    pub remove_regex: Vec<String>,
}

/// Ghost image of a [`JvmArgumentOverrides`].
pub ghost struct JvmArgumentOverridesView {
    pub add: Seq<Seq<char>>,
    pub remove: Seq<Seq<char>>,
    pub remove_regex: Seq<Seq<char>>,
}

impl DeepView for JvmArgumentOverrides {
    type V = JvmArgumentOverridesView;

    open spec fn deep_view(&self) -> JvmArgumentOverridesView {
        JvmArgumentOverridesView {
            add: self.add.deep_view(),
            remove: self.remove.deep_view(),
            remove_regex: self.remove_regex.deep_view(),
        }
    }
}

impl JvmArgumentOverrides {
    /// No overrides at all.
    pub fn empty() -> (r: Self)
        ensures
            r.deep_view().add.len() == 0,
            r.deep_view().remove.len() == 0,
            r.deep_view().remove_regex.len() == 0,
    {
        JvmArgumentOverrides { add: Vec::new(), remove: Vec::new(), remove_regex: Vec::new() }
    }
}

/// Raw overrides for the entries of one rendered configuration file.
pub struct FileOverrides {
    pub file: String,
    pub entries: Vec<KeyValue>,
}

/// The settings shared by the role layer and the role-group layer: a
/// configuration fragment plus raw per-file, environment and command-line
/// overrides, pod-template overrides, and JVM argument overrides.
pub struct CommonConfiguration {
    pub config: MetaStoreConfigFragment,
    pub config_overrides: Vec<FileOverrides>,
    pub env_overrides: Vec<KeyValue>,
    pub cli_overrides: Vec<KeyValue>,
    /// An opaque pod-template override document, applied by the platform.
    pub pod_overrides: Option<String>,
    pub jvm_argument_overrides: JvmArgumentOverrides,
}

/// One named, independently sized subset of a role's pods.
pub struct RoleGroup {
    pub config: CommonConfiguration,
    pub replicas: Option<u16>,
    /// Deprecated node selector, translated into affinity during
    /// resolution.
    pub selector: Option<LabelSelector>,
}

/// A role group together with its name.
pub struct NamedRoleGroup {
    pub name: String,
    pub group: RoleGroup,
}

/// Settings of the optional pod disruption budget.
pub struct PdbConfig {
    pub enabled: bool,
    pub max_unavailable: Option<u16>,
}

/// Role-wide settings of the metastore role.
pub struct HiveMetastoreRoleConfig {
    pub pod_disruption_budget: PdbConfig,
    /// Which listener class exposes the role.
    pub listener_class: String,
}

impl Default for HiveMetastoreRoleConfig {
    fn default() -> (r: Self)
        ensures
            r.pod_disruption_budget.enabled == true,
            r.pod_disruption_budget.max_unavailable is None,
            r.listener_class@ == "cluster-internal"@,
    {
        HiveMetastoreRoleConfig {
            pod_disruption_budget: PdbConfig { enabled: true, max_unavailable: None },
            listener_class: crate::listener::metastore_default_listener_class(),
        }
    }
}

/// One role: its own override layer plus the mapping of role-group name
/// to role group. The order of the entries is kept and is the order all
/// derived objects are produced in.
pub struct Role {
    pub config: CommonConfiguration,
    pub role_config: HiveMetastoreRoleConfig,
    pub role_groups: Vec<NamedRoleGroup>,
}

/// Cluster-wide operational switches.
pub struct ClusterOperation {
    /// Pause reconciliation: the controller stops changing objects.
    pub reconciliation_paused: bool,
    /// Stop the cluster: workloads are scaled to zero replicas.
    pub stopped: bool,
}

/// The image selection of the cluster.
pub struct ProductImage {
    pub product_version: String,
}

/// The image selection after resolution by the surrounding binary.
pub struct ResolvedProductImage {
    /// The full image reference pods run.
    pub image: String,
    /// The version value put into the object labels.
    pub app_version_label: String,
    /// The product version, which selects version-dependent behaviour.
    pub product_version: String,
}

/// S3 connection settings, either inline or referring to a connection
/// object resolved by the surrounding binary.
pub enum S3ConnectionDef {
    Inline(S3Connection),
    Reference(String),
}

/// Cluster-wide settings that need no per-role-group configuration.
pub struct HiveClusterConfig {
    pub authentication: Option<AuthenticationConfig>,
    pub authorization: Option<AuthorizationConfig>,
    pub database: DatabaseConnectionSpec,
    pub hdfs: Option<HdfsConnection>,
    pub s3: Option<S3ConnectionDef>,
    pub vector_aggregator_config_map_name: Option<String>,
    /// Which service type exposes the cluster.
    pub listener_class: CurrentlySupportedListenerClasses,
}

/// The desired state the user wrote.
pub struct HiveClusterSpec {
    pub cluster_config: HiveClusterConfig,
    pub cluster_operation: ClusterOperation,
    pub image: ProductImage,
    pub metastore: Option<Role>,
}

/// Object metadata, as far as this library reads it.
pub struct ObjectMeta {
    pub name: Option<String>,
    pub namespace: Option<String>,
    pub uid: Option<String>,
}

/// The cluster resource: metadata, desired state and last written status.
pub struct HiveCluster {
    pub metadata: ObjectMeta,
    pub spec: HiveClusterSpec,
    pub status: Option<HiveClusterStatus>,
}

// ---------------------------------------------------------------------------
// Reading the cluster.
// ---------------------------------------------------------------------------

impl HiveCluster {
    /// The cluster's name; an unnamed cluster reads as the empty name.
    pub open spec fn spec_name_any(&self) -> Seq<char> {
        match self.metadata.name {
            Some(n) => n@,
            None => ""@,
        }
    }

    pub fn name_any(&self) -> (r: String)
        ensures
            r@ == self.spec_name_any(),
    {
        match &self.metadata.name {
            Some(n) => n.clone(),
            None => {
                proof {
                    reveal_strlit("");
                }
                String::new()
            },
        }
    }

    /// The aggregated status conditions, empty while no status was written.
    pub fn conditions(&self) -> (r: Vec<ClusterCondition>)
        ensures
            match self.status {
                Some(s) => r.deep_view() == s.conditions.deep_view(),
                None => r.deep_view().len() == 0,
            },
    {
        match &self.status {
            Some(s) => crate::status::dup_conditions(&s.conditions),
            None => Vec::new(),
        }
    }

    /// The name of the role-level exposure service: the cluster name.
    pub fn metastore_role_service_name(&self) -> (r: Option<&str>)
        ensures
            match r {
                Some(n) => self.metadata.name matches Some(m) && m@ == n@,
                None => self.metadata.name is None,
            },
    {
        match &self.metadata.name {
            Some(n) => Some(n.as_str()),
            None => None,
        }
    }

    /// The identity of one metastore role group of this cluster.
    pub fn metastore_rolegroup_ref(&self, group_name: &str) -> (r: RoleGroupRef)
        ensures
            r.deep_view() == (RoleGroupRefView {
                cluster: self.spec_name_any(),
                role: "metastore"@,
                role_group: group_name@,
            }),
    {
        RoleGroupRef {
            cluster: self.name_any(),
            role: String::from_str("metastore"),
            role_group: String::from_str(group_name),
        }
    }

    /// The name of the role listener: `<cluster>-<role>`.
    pub fn role_listener_name(&self, hive_role: &HiveRole) -> (r: String)
        ensures
            r@ == self.spec_name_any() + "-"@ + "metastore"@,
    {
        let mut s = self.name_any();
        s.append("-");
        s.append(hive_role.as_str());
        s
    }

    /// The role, or the error naming it when it is not configured.
    pub fn role(&self, role_variant: &HiveRole) -> (r: Result<&Role, Error>)
        ensures
            match r {
                Ok(role) => self.spec.metastore matches Some(m) && *role == m,
                Err(e) => self.spec.metastore is None && (e matches
                    Error::CannotRetrieveHiveRole { role } && role@ == "metastore"@),
            },
    {
        match &self.spec.metastore {
            Some(role) => Ok(role),
            None => Err(
                Error::CannotRetrieveHiveRole { role: String::from_str(role_variant.as_str()) },
            ),
        }
    }

    /// The role-wide settings, if the role is configured.
    pub fn role_config(&self, role: &HiveRole) -> (r: Option<&HiveMetastoreRoleConfig>)
        ensures
            match r {
                Some(rc) => self.spec.metastore matches Some(m) && *rc == m.role_config,
                None => self.spec.metastore is None,
            },
    {
        match &self.spec.metastore {
            Some(m) => Some(&m.role_config),
            None => None,
        }
    }

    pub fn has_kerberos_enabled(&self) -> (r: bool)
        ensures
            r == self.spec_kerberos_secret_class().is_some(),
    {
        self.kerberos_secret_class().is_some()
    }

    pub open spec fn spec_kerberos_secret_class(&self) -> Option<Seq<char>> {
        match self.spec.cluster_config.authentication {
            Some(a) => Some(a.kerberos.secret_class@),
            None => None,
        }
    }

    /// The secret class providing the Kerberos keytab, when Kerberos is on.
    pub fn kerberos_secret_class(&self) -> (r: Option<String>)
        ensures
            r.deep_view() == self.spec_kerberos_secret_class(),
    {
        match &self.spec.cluster_config.authentication {
            Some(a) => Some(a.kerberos.secret_class.clone()),
            None => None,
        }
    }

    pub fn db_type(&self) -> (r: &DbType)
        ensures
            *r == self.spec.cluster_config.database.db_type,
    {
        &self.spec.cluster_config.database.db_type
    }

    /// The configured authorization-engine reference, if any.
    pub fn get_opa_config(&self) -> (r: Option<&OpaConfig>)
        ensures
            match r {
                Some(o) => self.spec.cluster_config.authorization matches Some(a) && a.opa matches
                    Some(inner) && *o == inner,
                None => match self.spec.cluster_config.authorization {
                    Some(a) => a.opa is None,
                    None => true,
                },
            },
    {
        match &self.spec.cluster_config.authorization {
            Some(a) => match &a.opa {
                Some(o) => Some(o),
                None => None,
            },
            None => None,
        }
    }
}

impl HiveRole {
    /// The identity of one role group of this role on the given cluster.
    pub fn rolegroup_ref(&self, hive: &HiveCluster, group_name: &str) -> (r: RoleGroupRef)
        ensures
            r.deep_view() == (RoleGroupRefView {
                cluster: hive.spec_name_any(),
                role: "metastore"@,
                role_group: group_name@,
            }),
    {
        hive.metastore_rolegroup_ref(group_name)
    }
}

// ---------------------------------------------------------------------------
// Looking up role groups.
// ---------------------------------------------------------------------------

/// The index of the first role group carrying the given name.
pub open spec fn spec_find_group_from(groups: Seq<NamedRoleGroup>, name: Seq<char>, i: int) -> Option<
    int,
>
    decreases groups.len() - i,
{
    if i < 0 || i >= groups.len() {
        None
    } else if groups[i].name@ == name {
        Some(i)
    } else {
        spec_find_group_from(groups, name, i + 1)
    }
}

pub open spec fn spec_find_group(groups: Seq<NamedRoleGroup>, name: Seq<char>) -> Option<int> {
    spec_find_group_from(groups, name, 0)
}

/// Finds the first role group with the given name.
fn find_group<'a>(groups: &'a Vec<NamedRoleGroup>, name: &String) -> (r: Option<&'a RoleGroup>)
    ensures
        match r {
            Some(g) => spec_find_group(groups@, name@) matches Some(i) && *g == groups@[i].group,
            None => spec_find_group(groups@, name@) is None,
        },
{
    let mut i: usize = 0;
    while i < groups.len()
        invariant
            i <= groups.len(),
            spec_find_group(groups@, name@) == spec_find_group_from(groups@, name@, i as int),
        decreases groups.len() - i,
    {
        if groups[i].name == *name {
            return Some(&groups[i].group);
        }
        i = i + 1;
    }
    None
}

/// Looking up the name of an existing role group always succeeds.
pub proof fn lemma_find_group_finds(groups: Seq<NamedRoleGroup>, name: Seq<char>, j: int)
    requires
        0 <= j < groups.len(),
        groups[j].name@ == name,
    ensures
        spec_find_group(groups, name) is Some,
        spec_find_group(groups, name) matches Some(i) && 0 <= i < groups.len(),
{
    lemma_find_group_from_finds(groups, name, 0, j);
}

proof fn lemma_find_group_from_finds(groups: Seq<NamedRoleGroup>, name: Seq<char>, i: int, j: int)
    requires
        0 <= i <= j < groups.len(),
        groups[j].name@ == name,
    ensures
        spec_find_group_from(groups, name, i) is Some,
        spec_find_group_from(groups, name, i) matches Some(k) && i <= k < groups.len(),
    decreases j - i,
{
    if groups[i].name@ != name {
        lemma_find_group_from_finds(groups, name, i + 1, j);
    }
}

/// The first role group of the role carrying the given name.
pub fn role_group_of<'a>(role: &'a Role, name: &String) -> (r: Option<&'a RoleGroup>)
    ensures
        match r {
            Some(g) => spec_find_group(role.role_groups@, name@) matches Some(i) && *g
                == role.role_groups@[i].group,
            None => spec_find_group(role.role_groups@, name@) is None,
        },
{
    find_group(&role.role_groups, name)
}

impl HiveCluster {
    /// The named role group of the given role-group reference; fails with
    /// the matching error when the role name is unknown, the role is not
    /// configured, or the group does not exist.
    pub fn rolegroup(&self, rolegroup_ref: &RoleGroupRef) -> (r: Result<&RoleGroup, Error>)
        ensures
            match r {
                Ok(g) => rolegroup_ref.role@ == "metastore"@ && (self.spec.metastore matches Some(m)
                    && (spec_find_group(m.role_groups@, rolegroup_ref.role_group@) matches Some(i)
                    && *g == m.role_groups@[i].group)),
                Err(e) => match e {
                    Error::UnknownHiveRole { role } => rolegroup_ref.role@ != "metastore"@ && role@
                        == rolegroup_ref.role@,
                    Error::CannotRetrieveHiveRole { role } => rolegroup_ref.role@ == "metastore"@
                        && self.spec.metastore is None,
                    Error::CannotRetrieveHiveRoleGroup { role_group } => rolegroup_ref.role@
                        == "metastore"@ && self.spec.metastore is Some && spec_find_group(
                        self.spec.metastore->0.role_groups@,
                        rolegroup_ref.role_group@,
                    ) is None && role_group@ == rolegroup_ref.role_group@,
                    _ => false,
                },
            },
    {
        let metastore_name = String::from_str("metastore");
        if !(rolegroup_ref.role == metastore_name) {
            return Err(Error::UnknownHiveRole { role: rolegroup_ref.role.clone() });
        }
        let role = self.role(&HiveRole::MetaStore)?;
        match find_group(&role.role_groups, &rolegroup_ref.role_group) {
            Some(g) => Ok(g),
            None => Err(
                Error::CannotRetrieveHiveRoleGroup {
                    role_group: rolegroup_ref.role_group.clone(),
                },
            ),
        }
    }
}

// ---------------------------------------------------------------------------
// Predicted pods.
// ---------------------------------------------------------------------------

/// The predicted pods of the first `k` role groups, in role-group order.
pub open spec fn spec_pods_up_to(c: HiveCluster, k: int) -> Seq<PodRefView>
    decreases k,
{
    if k <= 0 || c.spec.metastore is None {
        Seq::empty()
    } else {
        spec_pods_up_to(c, k - 1) + spec_group_pods(c, k - 1)
    }
}

/// The predicted pods of role group `i`: one per desired replica, named
/// `<object-name>-<index>`.
pub open spec fn spec_group_pods(c: HiveCluster, i: int) -> Seq<PodRefView> {
    let g = c.spec.metastore->0.role_groups@[i];
    let object_name = RoleGroupRefView {
        cluster: c.spec_name_any(),
        role: "metastore"@,
        role_group: g.name@,
    }.spec_object_name();
    Seq::new(
        spec_replicas(g.group) as nat,
        |j: int|
            PodRefView {
                namespace: c.metadata.namespace->0@,
                role_group_service_name: object_name,
                pod_name: object_name + "-"@ + spec_dec(j as nat),
            },
    )
}

pub open spec fn spec_replicas(g: RoleGroup) -> u16 {
    match g.replicas {
        Some(n) => n,
        None => 0,
    }
}

impl HiveCluster {
    /// All pods expected to form the cluster, predicted from the desired
    /// replica counts rather than from live state, to avoid churn. Fails
    /// only when the cluster has no namespace.
    pub fn pods(&self) -> (r: Result<Vec<PodRef>, NoNamespaceError>)
        ensures
            match r {
                Ok(pods) => self.metadata.namespace is Some && pods.deep_view() == spec_pods_up_to(
                    *self,
                    match self.spec.metastore {
                        Some(m) => m.role_groups@.len() as int,
                        None => 0,
                    },
                ),
                Err(e) => self.metadata.namespace is None,
            },
    {
        let ns = match &self.metadata.namespace {
            Some(n) => n.clone(),
            None => {
                return Err(NoNamespaceError);
            },
        };
        let mut pods: Vec<PodRef> = Vec::new();
        let role = match &self.spec.metastore {
            Some(m) => m,
            None => {
                return Ok(pods);
            },
        };
        let mut i: usize = 0;
        while i < role.role_groups.len()
            invariant
                i <= role.role_groups.len(),
                self.spec.metastore matches Some(m) && m == role,
                self.metadata.namespace matches Some(n) && n@ == ns@,
                pods.deep_view() == spec_pods_up_to(*self, i as int),
            decreases role.role_groups.len() - i,
        {
            let rolegroup_ref = self.metastore_rolegroup_ref(role.role_groups[i].name.as_str());
            let object_name = rolegroup_ref.object_name();
            let replicas: u16 = match role.role_groups[i].group.replicas {
                Some(n) => n,
                None => 0,
            };
            let ghost prefix = pods.deep_view();
            let mut j: u16 = 0;
            while j < replicas
                invariant
                    j <= replicas,
                    replicas == spec_replicas(role.role_groups@[i as int].group),
                    i < role.role_groups.len(),
                    self.spec.metastore matches Some(m) && m == role,
                    self.metadata.namespace matches Some(n) && n@ == ns@,
                    object_name@ == (RoleGroupRefView {
                        cluster: self.spec_name_any(),
                        role: "metastore"@,
                        role_group: role.role_groups@[i as int].name@,
                    }).spec_object_name(),
                    pods.deep_view() == prefix + spec_group_pods(*self, i as int).subrange(
                        0,
                        j as int,
                    ),
                decreases replicas - j,
            {
                let mut pod_name = object_name.clone();
                pod_name.append("-");
                let dec = u64_to_dec_string(j as u64);
                pod_name.append(dec.as_str());
                let x = PodRef {
                    namespace: ns.clone(),
                    role_group_service_name: object_name.clone(),
                    pod_name,
                };
                let ghost gx = x;
                let ghost prev = pods.deep_view();
                pods.push(x);
                proof {
                    assert(pods.deep_view() =~= prev.push(gx.deep_view()));
                    assert(gx.deep_view() == spec_group_pods(*self, i as int)[j as int]);
                    assert(pods.deep_view() =~= prefix + spec_group_pods(*self, i as int).subrange(
                        0,
                        j + 1 as int,
                    ));
                }
                j = j + 1;
            }
            proof {
                assert(spec_group_pods(*self, i as int).subrange(
                    0,
                    spec_replicas(role.role_groups@[i as int].group) as int,
                ) =~= spec_group_pods(*self, i as int));
                assert(pods.deep_view() =~= spec_pods_up_to(*self, i + 1 as int));
            }
            i = i + 1;
        }
        Ok(pods)
    }
}

// ---------------------------------------------------------------------------
// The overlay resolver.
// ---------------------------------------------------------------------------

/// Translates the deprecated role-group node selector into scheduling
/// constraints: its labels become the node selector, its expressions
/// become required node-affinity terms. Affinity parts a layer already
/// sets stay as they are when the selector has nothing for them.
pub open spec fn spec_legacy_selector_shim(
    aff: StackableAffinityView,
    sel: Option<LabelSelectorView>,
) -> StackableAffinityView {
    match sel {
        None => aff,
        Some(s) => StackableAffinityView {
            anti_affinity_preferred: aff.anti_affinity_preferred,
            node_affinity_required: if s.match_expressions.len() > 0 {
                Some(s.match_expressions)
            } else {
                aff.node_affinity_required
            },
            node_selector: if s.match_labels.len() > 0 {
                Some(s.match_labels)
            } else {
                aff.node_selector
            },
        },
    }
}

/// The role-group fragment after the legacy-selector translation.
pub open spec fn spec_shimmed_group_fragment(g: RoleGroup) -> MetaStoreConfigFragmentView {
    let f = g.config.config.deep_view();
    MetaStoreConfigFragmentView {
        affinity: spec_legacy_selector_shim(f.affinity, g.selector.deep_view()),
        ..f
    }
}

/// The fully merged fragment for one role group of the cluster: defaults,
/// then the role layer, then the role-group layer with the legacy
/// selector folded in.
pub open spec fn spec_merged_fragment(c: HiveCluster, role: Role, g: RoleGroup) -> MetaStoreConfigFragmentView {
    spec_merge_fragment(
        spec_shimmed_group_fragment(g),
        spec_merge_fragment(role.config.config.deep_view(), spec_default_config(c.spec_name_any())),
    )
}

/// The resolved configuration for one role group.
pub open spec fn spec_resolved_config(c: HiveCluster, role: Role, g: RoleGroup) -> MetaStoreConfigView {
    spec_validated(spec_merged_fragment(c, role, g))
}

fn shimmed_group_fragment(g: &RoleGroup) -> (r: MetaStoreConfigFragment)
    ensures
        r.deep_view() == spec_shimmed_group_fragment(*g),
{
    let mut f = dup_fragment(&g.config.config);
    match &g.selector {
        Some(sel) => {
            if sel.match_expressions.len() > 0 {
                f.affinity.node_affinity_required = Some(
                    crate::config::dup_requirements(&sel.match_expressions),
                );
            }
            if sel.match_labels.len() > 0 {
                f.affinity.node_selector = Some(crate::config::dup_kvs(&sel.match_labels));
            }
        },
        None => {},
    }
    f
}

impl HiveCluster {
    /// Resolves the configuration of one role group: computes the
    /// defaults, folds the deprecated selector into the role-group layer,
    /// merges role onto defaults and role group onto the result, and
    /// validates. Succeeds exactly when the role and role group exist;
    /// validation cannot fail because the defaults populate every
    /// required field.
    pub fn merged_config(&self, role: &HiveRole, rolegroup_ref: &RoleGroupRef) -> (r: Result<
        MetaStoreConfig,
        Error,
    >)
        ensures
            match r {
                Ok(c) => rolegroup_ref.role@ == "metastore"@ && (self.spec.metastore matches Some(m)
                    && (spec_find_group(m.role_groups@, rolegroup_ref.role_group@) matches Some(i)
                    && c.deep_view() == spec_resolved_config(
                    *self,
                    m,
                    m.role_groups@[i].group,
                ))),
                Err(e) => match e {
                    Error::UnknownHiveRole { role } => rolegroup_ref.role@ != "metastore"@
                        && self.spec.metastore is Some,
                    Error::CannotRetrieveHiveRole { role } => self.spec.metastore is None,
                    Error::CannotRetrieveHiveRoleGroup { role_group } => rolegroup_ref.role@
                        == "metastore"@ && self.spec.metastore is Some && spec_find_group(
                        self.spec.metastore->0.role_groups@,
                        rolegroup_ref.role_group@,
                    ) is None,
                    _ => false,
                },
            },
    {
        let conf_defaults = MetaStoreConfig::default_config(self.name_any().as_str(), role);
        let role_value = self.role(role)?;
        let role_group = self.rolegroup(rolegroup_ref)?;
        let conf_role_group = shimmed_group_fragment(role_group);
        let conf_role = merge_fragment(&role_value.config.config, &conf_defaults);
        let merged = merge_fragment(&conf_role_group, &conf_role);
        proof {
            assert(merged.deep_view().logging.enable_vector_agent is Some);
        }
        match validate(merged) {
            Ok(c) => Ok(c),
            Err(e) => Err(e),
        }
    }
}

} // verus!
