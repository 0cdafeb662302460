//! The layered metastore configuration: partial fragments, the overlay
//! merge that combines them, and validation of the merged result.
//!
//! The merge works on three layers: computed defaults, role-level
//! overrides, role-group-level overrides. For every field the most
//! specific *present* value wins; an explicitly set empty value is still a
//! present value. Nested structures merge field by field.

use vstd::prelude::*;

verus! {

use vstd::string::*;
use crate::crd::{Duration, KeyValue, KeyValueView, Quantity};

/// Log levels for the automatic logging configuration.
#[derive(Clone, Copy, PartialEq, Eq, Structural, Debug)]
pub enum LogLevel {
    Trace,
    Debug,
    Info,
    Warn,
    Error,
    Fatal,
}

impl LogLevel {
    pub fn as_str(&self) -> (r: &'static str)
        ensures
            r@ == self.spec_name(),
    {
        match self {
            LogLevel::Trace => "TRACE",
            LogLevel::Debug => "DEBUG",
            LogLevel::Info => "INFO",
            LogLevel::Warn => "WARN",
            LogLevel::Error => "ERROR",
            LogLevel::Fatal => "FATAL",
        }
    }

    pub open spec fn spec_name(&self) -> Seq<char> {
        match self {
            LogLevel::Trace => "TRACE"@,
            LogLevel::Debug => "DEBUG"@,
            LogLevel::Info => "INFO"@,
            LogLevel::Warn => "WARN"@,
            LogLevel::Error => "ERROR"@,
            LogLevel::Fatal => "FATAL"@,
        }
    }
}

/// How one container's logging is configured: either an automatically
/// rendered configuration at a chosen root level, or a user-provided
/// config map with a ready-made configuration file.
pub enum ContainerLogChoice {
    Automatic { root_log_level: LogLevel },
    Custom { config_map: String },
}

/// Ghost image of a [`ContainerLogChoice`].
pub ghost enum ContainerLogChoiceView {
    Automatic { root_log_level: LogLevel },
    Custom { config_map: Seq<char> },
}

impl DeepView for ContainerLogChoice {
    type V = ContainerLogChoiceView;

    open spec fn deep_view(&self) -> ContainerLogChoiceView {
        match self {
            ContainerLogChoice::Automatic { root_log_level } => ContainerLogChoiceView::Automatic {
                root_log_level: *root_log_level,
            },
            ContainerLogChoice::Custom { config_map } => ContainerLogChoiceView::Custom {
                config_map: config_map@,
            },
        }
    }
}

/// Logging settings of one container; absent means "not configured here".
pub struct ContainerLogConfig {
    pub choice: Option<ContainerLogChoice>,
}

impl DeepView for ContainerLogConfig {
    type V = Option<ContainerLogChoiceView>;

    open spec fn deep_view(&self) -> Option<ContainerLogChoiceView> {
        self.choice.deep_view()
    }
}

/// Fully resolved logging settings for all containers of a pod.
pub struct Logging {
    pub enable_vector_agent: bool,
    pub hive: ContainerLogConfig,
    pub vector: ContainerLogConfig,
}

/// Ghost image of a [`Logging`].
pub ghost struct LoggingView {
    pub enable_vector_agent: bool,
    pub hive: Option<ContainerLogChoiceView>,
    pub vector: Option<ContainerLogChoiceView>,
}

impl DeepView for Logging {
    type V = LoggingView;

    open spec fn deep_view(&self) -> LoggingView {
        LoggingView {
            enable_vector_agent: self.enable_vector_agent,
            hive: self.hive.deep_view(),
            vector: self.vector.deep_view(),
        }
    }
}

/// Partial logging settings; the per-container entries merge by container,
/// not wholesale.
pub struct LoggingFragment {
    pub enable_vector_agent: Option<bool>,
    pub hive: ContainerLogConfig,
    pub vector: ContainerLogConfig,
}

/// Ghost image of a [`LoggingFragment`].
pub ghost struct LoggingFragmentView {
    pub enable_vector_agent: Option<bool>,
    pub hive: Option<ContainerLogChoiceView>,
    pub vector: Option<ContainerLogChoiceView>,
}

impl DeepView for LoggingFragment {
    type V = LoggingFragmentView;

    open spec fn deep_view(&self) -> LoggingFragmentView {
        LoggingFragmentView {
            enable_vector_agent: self.enable_vector_agent,
            hive: self.hive.deep_view(),
            vector: self.vector.deep_view(),
        }
    }
}

/// One requirement of a label or node selector, e.g.
/// `zone in [eu-1, eu-2]`.
pub struct SelectorRequirement {
    pub key: String,
    pub operator: String,
    pub values: Vec<String>,
}

/// Ghost image of a [`SelectorRequirement`].
pub ghost struct SelectorRequirementView {
    pub key: Seq<char>,
    pub operator: Seq<char>,
    pub values: Seq<Seq<char>>,
}

impl DeepView for SelectorRequirement {
    type V = SelectorRequirementView;

    open spec fn deep_view(&self) -> SelectorRequirementView {
        SelectorRequirementView {
            key: self.key@,
            operator: self.operator@,
            values: self.values.deep_view(),
        }
    }
}

/// A label selector: exact labels plus match expressions.
pub struct LabelSelector {
    pub match_labels: Vec<KeyValue>,
    pub match_expressions: Vec<SelectorRequirement>,
}

/// Ghost image of a [`LabelSelector`].
pub ghost struct LabelSelectorView {
    pub match_labels: Seq<KeyValueView>,
    pub match_expressions: Seq<SelectorRequirementView>,
}

impl DeepView for LabelSelector {
    type V = LabelSelectorView;

    open spec fn deep_view(&self) -> LabelSelectorView {
        LabelSelectorView {
            match_labels: self.match_labels.deep_view(),
            match_expressions: self.match_expressions.deep_view(),
        }
    }
}

/// A soft pod-anti-affinity preference: spread pods that carry the given
/// labels across the given topology.
pub struct WeightedAffinityTerm {
    pub weight: u16,
    pub topology_key: String,
    pub match_labels: Vec<KeyValue>,
}

/// Ghost image of a [`WeightedAffinityTerm`].
pub ghost struct WeightedAffinityTermView {
    pub weight: u16,
    pub topology_key: Seq<char>,
    pub match_labels: Seq<KeyValueView>,
}

impl DeepView for WeightedAffinityTerm {
    type V = WeightedAffinityTermView;

    open spec fn deep_view(&self) -> WeightedAffinityTermView {
        WeightedAffinityTermView {
            weight: self.weight,
            topology_key: self.topology_key@,
            match_labels: self.match_labels.deep_view(),
        }
    }
}

/// The scheduling constraints of the metastore pods. Each part is an
/// atomic optional: a layer that sets it replaces it wholesale.
pub struct StackableAffinity {
    /// Soft anti-affinity preferences.
    pub anti_affinity_preferred: Option<Vec<WeightedAffinityTerm>>,
    /// Hard node-affinity requirements.
    pub node_affinity_required: Option<Vec<SelectorRequirement>>,
    /// Plain node-selector labels.
    pub node_selector: Option<Vec<KeyValue>>,
}

/// Ghost image of a [`StackableAffinity`].
pub ghost struct StackableAffinityView {
    pub anti_affinity_preferred: Option<Seq<WeightedAffinityTermView>>,
    pub node_affinity_required: Option<Seq<SelectorRequirementView>>,
    pub node_selector: Option<Seq<KeyValueView>>,
}

impl DeepView for StackableAffinity {
    type V = StackableAffinityView;

    open spec fn deep_view(&self) -> StackableAffinityView {
        StackableAffinityView {
            anti_affinity_preferred: self.anti_affinity_preferred.deep_view(),
            node_affinity_required: self.node_affinity_required.deep_view(),
            node_selector: self.node_selector.deep_view(),
        }
    }
}

/// Settings of a persistent volume claim.
pub struct PvcConfig {
    pub capacity: Option<Quantity>,
    pub storage_class: Option<String>,
    pub selectors: Option<LabelSelector>,
}

/// Ghost image of a [`PvcConfig`].
pub ghost struct PvcConfigView {
    pub capacity: Option<Seq<char>>,
    pub storage_class: Option<Seq<char>>,
    pub selectors: Option<LabelSelectorView>,
}

impl DeepView for PvcConfig {
    type V = PvcConfigView;

    open spec fn deep_view(&self) -> PvcConfigView {
        PvcConfigView {
            capacity: self.capacity.deep_view(),
            storage_class: self.storage_class.deep_view(),
            selectors: self.selectors.deep_view(),
        }
    }
}

/// Storage settings of the metastore. The data volume was never used by
/// the product; it is kept only for backwards compatibility and the
/// controller warns when it is set to a non-zero capacity.
pub struct MetastoreStorageConfig {
    pub data: PvcConfig,
}

/// Ghost image of a [`MetastoreStorageConfig`].
pub ghost struct MetastoreStorageConfigView {
    pub data: PvcConfigView,
}

impl DeepView for MetastoreStorageConfig {
    type V = MetastoreStorageConfigView;

    open spec fn deep_view(&self) -> MetastoreStorageConfigView {
        MetastoreStorageConfigView { data: self.data.deep_view() }
    }
}

/// Compute and storage resources. All parts are optional; the defaults
/// layer always supplies them.
pub struct Resources {
    pub cpu_min: Option<Quantity>,
    pub cpu_max: Option<Quantity>,
    pub memory_limit: Option<Quantity>,
    pub storage: MetastoreStorageConfig,
}

/// Ghost image of a [`Resources`].
pub ghost struct ResourcesView {
    pub cpu_min: Option<Seq<char>>,
    pub cpu_max: Option<Seq<char>>,
    pub memory_limit: Option<Seq<char>>,
    pub storage: MetastoreStorageConfigView,
}

impl DeepView for Resources {
    type V = ResourcesView;

    open spec fn deep_view(&self) -> ResourcesView {
        ResourcesView {
            cpu_min: self.cpu_min.deep_view(),
            cpu_max: self.cpu_max.deep_view(),
            memory_limit: self.memory_limit.deep_view(),
            storage: self.storage.deep_view(),
        }
    }
}

/// The fully merged and validated configuration of one role group.
pub struct MetaStoreConfig {
    /// The location of the default database for the Hive warehouse; maps
    /// to the `hive.metastore.warehouse.dir` setting.
    pub warehouse_dir: Option<String>,
    pub resources: Resources,
    pub logging: Logging,
    pub affinity: StackableAffinity,
    /// Time period pods have to shut down gracefully.
    pub graceful_shutdown_timeout: Option<Duration>,
}

/// Ghost image of a [`MetaStoreConfig`].
pub ghost struct MetaStoreConfigView {
    pub warehouse_dir: Option<Seq<char>>,
    pub resources: ResourcesView,
    pub logging: LoggingView,
    pub affinity: StackableAffinityView,
    pub graceful_shutdown_timeout: Option<Duration>,
}

impl DeepView for MetaStoreConfig {
    type V = MetaStoreConfigView;

    open spec fn deep_view(&self) -> MetaStoreConfigView {
        MetaStoreConfigView {
            warehouse_dir: self.warehouse_dir.deep_view(),
            resources: self.resources.deep_view(),
            logging: self.logging.deep_view(),
            affinity: self.affinity.deep_view(),
            graceful_shutdown_timeout: self.graceful_shutdown_timeout,
        }
    }
}

/// A partial configuration: one overlay layer. Every field is optional.
pub struct MetaStoreConfigFragment {
    pub warehouse_dir: Option<String>,
    pub resources: Resources,
    pub logging: LoggingFragment,
    pub affinity: StackableAffinity,
    pub graceful_shutdown_timeout: Option<Duration>,
}

/// Ghost image of a [`MetaStoreConfigFragment`].
pub ghost struct MetaStoreConfigFragmentView {
    pub warehouse_dir: Option<Seq<char>>,
    pub resources: ResourcesView,
    pub logging: LoggingFragmentView,
    pub affinity: StackableAffinityView,
    pub graceful_shutdown_timeout: Option<Duration>,
}

impl DeepView for MetaStoreConfigFragment {
    type V = MetaStoreConfigFragmentView;

    open spec fn deep_view(&self) -> MetaStoreConfigFragmentView {
        MetaStoreConfigFragmentView {
            warehouse_dir: self.warehouse_dir.deep_view(),
            resources: self.resources.deep_view(),
            logging: self.logging.deep_view(),
            affinity: self.affinity.deep_view(),
            graceful_shutdown_timeout: self.graceful_shutdown_timeout,
        }
    }
}

// ---------------------------------------------------------------------------
// The overlay operation.
// ---------------------------------------------------------------------------

/// The single primitive of the overlay: the most specific present value
/// wins; absent falls through to the lower layer.
pub open spec fn spec_overlay<T>(child: Option<T>, parent: Option<T>) -> Option<T> {
    if child is Some {
        child
    } else {
        parent
    }
}

pub open spec fn spec_merge_resources(c: ResourcesView, p: ResourcesView) -> ResourcesView {
    ResourcesView {
        cpu_min: spec_overlay(c.cpu_min, p.cpu_min),
        cpu_max: spec_overlay(c.cpu_max, p.cpu_max),
        memory_limit: spec_overlay(c.memory_limit, p.memory_limit),
        storage: MetastoreStorageConfigView {
            data: PvcConfigView {
                capacity: spec_overlay(c.storage.data.capacity, p.storage.data.capacity),
                storage_class: spec_overlay(
                    c.storage.data.storage_class,
                    p.storage.data.storage_class,
                ),
                selectors: spec_overlay(c.storage.data.selectors, p.storage.data.selectors),
            },
        },
    }
}

pub open spec fn spec_merge_logging(
    c: LoggingFragmentView,
    p: LoggingFragmentView,
) -> LoggingFragmentView {
    LoggingFragmentView {
        enable_vector_agent: spec_overlay(c.enable_vector_agent, p.enable_vector_agent),
        hive: spec_overlay(c.hive, p.hive),
        vector: spec_overlay(c.vector, p.vector),
    }
}

pub open spec fn spec_merge_affinity(
    c: StackableAffinityView,
    p: StackableAffinityView,
) -> StackableAffinityView {
    StackableAffinityView {
        anti_affinity_preferred: spec_overlay(c.anti_affinity_preferred, p.anti_affinity_preferred),
        node_affinity_required: spec_overlay(c.node_affinity_required, p.node_affinity_required),
        node_selector: spec_overlay(c.node_selector, p.node_selector),
    }
}

/// The overlay of one fragment on top of another: `child` is the more
/// specific layer and wins wherever it is present.
pub open spec fn spec_merge_fragment(
    c: MetaStoreConfigFragmentView,
    p: MetaStoreConfigFragmentView,
) -> MetaStoreConfigFragmentView {
    MetaStoreConfigFragmentView {
        warehouse_dir: spec_overlay(c.warehouse_dir, p.warehouse_dir),
        resources: spec_merge_resources(c.resources, p.resources),
        logging: spec_merge_logging(c.logging, p.logging),
        affinity: spec_merge_affinity(c.affinity, p.affinity),
        graceful_shutdown_timeout: spec_overlay(
            c.graceful_shutdown_timeout,
            p.graceful_shutdown_timeout,
        ),
    }
}

// ---------------------------------------------------------------------------
// Duplication helpers: rebuild owned values out of borrowed layers, with
// the image under `deep_view` preserved.
// ---------------------------------------------------------------------------

pub fn dup_opt_string(v: &Option<String>) -> (r: Option<String>)
    ensures
        r.deep_view() == v.deep_view(),
{
    match v {
        Some(s) => Some(s.clone()),
        None => None,
    }
}

pub fn dup_opt_quantity(v: &Option<Quantity>) -> (r: Option<Quantity>)
    ensures
        r.deep_view() == v.deep_view(),
{
    match v {
        Some(q) => Some(Quantity { value: q.value.clone() }),
        None => None,
    }
}

pub fn dup_strings(v: &Vec<String>) -> (r: Vec<String>)
    ensures
        r.deep_view() == v.deep_view(),
{
    let mut r: Vec<String> = Vec::new();
    let mut i: usize = 0;
    while i < v.len()
        invariant
            i <= v.len(),
            r@.len() == i as int,
            forall|j: int| 0 <= j < i ==> #[trigger] r.deep_view()[j] == v.deep_view()[j],
        decreases v.len() - i,
    {
        let x = v[i].clone();
        let ghost gx = x;
        let ghost prev = r;
        r.push(x);
        proof {
            assert forall|j: int| 0 <= j < i + 1 implies #[trigger] r.deep_view()[j]
                == v.deep_view()[j] by {
                assert(r@ == prev@.push(gx));
                if j < i as int {
                    assert(prev.deep_view()[j] == v.deep_view()[j]);
                } else {
                    assert(r@[j] == gx);
                }
            }
        }
        i = i + 1;
    }
    proof {
        assert(r.deep_view() =~= v.deep_view());
    }
    r
}

pub fn dup_kvs(v: &Vec<KeyValue>) -> (r: Vec<KeyValue>)
    ensures
        r.deep_view() == v.deep_view(),
{
    let mut r: Vec<KeyValue> = Vec::new();
    let mut i: usize = 0;
    while i < v.len()
        invariant
            i <= v.len(),
            r@.len() == i as int,
            forall|j: int| 0 <= j < i ==> #[trigger] r.deep_view()[j] == v.deep_view()[j],
        decreases v.len() - i,
    {
        let x = KeyValue { key: v[i].key.clone(), value: v[i].value.clone() };
        let ghost gx = x;
        let ghost prev = r;
        r.push(x);
        proof {
            assert forall|j: int| 0 <= j < i + 1 implies #[trigger] r.deep_view()[j]
                == v.deep_view()[j] by {
                assert(r@ == prev@.push(gx));
                if j < i as int {
                    assert(prev.deep_view()[j] == v.deep_view()[j]);
                } else {
                    assert(r@[j] == gx);
                }
            }
        }
        i = i + 1;
    }
    proof {
        assert(r.deep_view() =~= v.deep_view());
    }
    r
}

pub fn dup_requirements(v: &Vec<SelectorRequirement>) -> (r: Vec<SelectorRequirement>)
    ensures
        r.deep_view() == v.deep_view(),
{
    let mut r: Vec<SelectorRequirement> = Vec::new();
    let mut i: usize = 0;
    while i < v.len()
        invariant
            i <= v.len(),
            r@.len() == i as int,
            forall|j: int| 0 <= j < i ==> #[trigger] r.deep_view()[j] == v.deep_view()[j],
        decreases v.len() - i,
    {
        let x = SelectorRequirement {
            key: v[i].key.clone(),
            operator: v[i].operator.clone(),
            values: dup_strings(&v[i].values),
        };
        let ghost gx = x;
        let ghost prev = r;
        r.push(x);
        proof {
            assert forall|j: int| 0 <= j < i + 1 implies #[trigger] r.deep_view()[j]
                == v.deep_view()[j] by {
                assert(r@ == prev@.push(gx));
                if j < i as int {
                    assert(prev.deep_view()[j] == v.deep_view()[j]);
                } else {
                    assert(r@[j] == gx);
                }
            }
        }
        i = i + 1;
    }
    proof {
        assert(r.deep_view() =~= v.deep_view());
    }
    r
}

pub fn dup_terms(v: &Vec<WeightedAffinityTerm>) -> (r: Vec<WeightedAffinityTerm>)
    ensures
        r.deep_view() == v.deep_view(),
{
    let mut r: Vec<WeightedAffinityTerm> = Vec::new();
    let mut i: usize = 0;
    while i < v.len()
        invariant
            i <= v.len(),
            r@.len() == i as int,
            forall|j: int| 0 <= j < i ==> #[trigger] r.deep_view()[j] == v.deep_view()[j],
        decreases v.len() - i,
    {
        let x = WeightedAffinityTerm {
            weight: v[i].weight,
            topology_key: v[i].topology_key.clone(),
            match_labels: dup_kvs(&v[i].match_labels),
        };
        let ghost gx = x;
        let ghost prev = r;
        r.push(x);
        proof {
            assert forall|j: int| 0 <= j < i + 1 implies #[trigger] r.deep_view()[j]
                == v.deep_view()[j] by {
                assert(r@ == prev@.push(gx));
                if j < i as int {
                    assert(prev.deep_view()[j] == v.deep_view()[j]);
                } else {
                    assert(r@[j] == gx);
                }
            }
        }
        i = i + 1;
    }
    proof {
        assert(r.deep_view() =~= v.deep_view());
    }
    r
}

pub fn dup_label_selector(v: &LabelSelector) -> (r: LabelSelector)
    ensures
        r.deep_view() == v.deep_view(),
{
    LabelSelector {
        match_labels: dup_kvs(&v.match_labels),
        match_expressions: dup_requirements(&v.match_expressions),
    }
}

pub fn dup_choice(v: &ContainerLogChoice) -> (r: ContainerLogChoice)
    ensures
        r.deep_view() == v.deep_view(),
{
    match v {
        ContainerLogChoice::Automatic { root_log_level } => ContainerLogChoice::Automatic {
            root_log_level: *root_log_level,
        },
        ContainerLogChoice::Custom { config_map } => ContainerLogChoice::Custom {
            config_map: config_map.clone(),
        },
    }
}

pub fn dup_container_log_config(v: &ContainerLogConfig) -> (r: ContainerLogConfig)
    ensures
        r.deep_view() == v.deep_view(),
{
    match &v.choice {
        Some(c) => ContainerLogConfig { choice: Some(dup_choice(c)) },
        None => ContainerLogConfig { choice: None },
    }
}

pub fn dup_affinity(v: &StackableAffinity) -> (r: StackableAffinity)
    ensures
        r.deep_view() == v.deep_view(),
{
    StackableAffinity {
        anti_affinity_preferred: match &v.anti_affinity_preferred {
            Some(t) => Some(dup_terms(t)),
            None => None,
        },
        node_affinity_required: match &v.node_affinity_required {
            Some(t) => Some(dup_requirements(t)),
            None => None,
        },
        node_selector: match &v.node_selector {
            Some(t) => Some(dup_kvs(t)),
            None => None,
        },
    }
}

pub fn dup_resources(v: &Resources) -> (r: Resources)
    ensures
        r.deep_view() == v.deep_view(),
{
    Resources {
        cpu_min: dup_opt_quantity(&v.cpu_min),
        cpu_max: dup_opt_quantity(&v.cpu_max),
        memory_limit: dup_opt_quantity(&v.memory_limit),
        storage: MetastoreStorageConfig {
            data: PvcConfig {
                capacity: dup_opt_quantity(&v.storage.data.capacity),
                storage_class: dup_opt_string(&v.storage.data.storage_class),
                selectors: match &v.storage.data.selectors {
                    Some(s) => Some(dup_label_selector(s)),
                    None => None,
                },
            },
        },
    }
}

pub fn dup_fragment(v: &MetaStoreConfigFragment) -> (r: MetaStoreConfigFragment)
    ensures
        r.deep_view() == v.deep_view(),
{
    MetaStoreConfigFragment {
        warehouse_dir: dup_opt_string(&v.warehouse_dir),
        resources: dup_resources(&v.resources),
        logging: LoggingFragment {
            enable_vector_agent: v.logging.enable_vector_agent,
            hive: dup_container_log_config(&v.logging.hive),
            vector: dup_container_log_config(&v.logging.vector),
        },
        affinity: dup_affinity(&v.affinity),
        graceful_shutdown_timeout: v.graceful_shutdown_timeout,
    }
}

// ---------------------------------------------------------------------------
// The executable merge.
// ---------------------------------------------------------------------------

fn merge_opt_quantity(c: &Option<Quantity>, p: &Option<Quantity>) -> (r: Option<Quantity>)
    ensures
        r.deep_view() == spec_overlay(c.deep_view(), p.deep_view()),
{
    match c {
        Some(_) => dup_opt_quantity(c),
        None => dup_opt_quantity(p),
    }
}

fn merge_opt_string(c: &Option<String>, p: &Option<String>) -> (r: Option<String>)
    ensures
        r.deep_view() == spec_overlay(c.deep_view(), p.deep_view()),
{
    match c {
        Some(_) => dup_opt_string(c),
        None => dup_opt_string(p),
    }
}

/// The overlay of two resource settings, field by field.
pub fn merge_resources(c: &Resources, p: &Resources) -> (r: Resources)
    ensures
        r.deep_view() == spec_merge_resources(c.deep_view(), p.deep_view()),
{
    Resources {
        cpu_min: merge_opt_quantity(&c.cpu_min, &p.cpu_min),
        cpu_max: merge_opt_quantity(&c.cpu_max, &p.cpu_max),
        memory_limit: merge_opt_quantity(&c.memory_limit, &p.memory_limit),
        storage: MetastoreStorageConfig {
            data: PvcConfig {
                capacity: merge_opt_quantity(&c.storage.data.capacity, &p.storage.data.capacity),
                storage_class: merge_opt_string(
                    &c.storage.data.storage_class,
                    &p.storage.data.storage_class,
                ),
                selectors: match &c.storage.data.selectors {
                    Some(s) => Some(dup_label_selector(s)),
                    None => match &p.storage.data.selectors {
                        Some(s) => Some(dup_label_selector(s)),
                        None => None,
                    },
                },
            },
        },
    }
}

/// The overlay of two logging fragments; the per-container entries merge
/// by container.
pub fn merge_logging(c: &LoggingFragment, p: &LoggingFragment) -> (r: LoggingFragment)
    ensures
        r.deep_view() == spec_merge_logging(c.deep_view(), p.deep_view()),
{
    LoggingFragment {
        enable_vector_agent: match c.enable_vector_agent {
            Some(b) => Some(b),
            None => p.enable_vector_agent,
        },
        hive: match &c.hive.choice {
            Some(_) => dup_container_log_config(&c.hive),
            None => dup_container_log_config(&p.hive),
        },
        vector: match &c.vector.choice {
            Some(_) => dup_container_log_config(&c.vector),
            None => dup_container_log_config(&p.vector),
        },
    }
}

/// The overlay of two affinity settings; each part is atomic.
pub fn merge_affinity(c: &StackableAffinity, p: &StackableAffinity) -> (r: StackableAffinity)
    ensures
        r.deep_view() == spec_merge_affinity(c.deep_view(), p.deep_view()),
{
    StackableAffinity {
        anti_affinity_preferred: match &c.anti_affinity_preferred {
            Some(t) => Some(dup_terms(t)),
            None => match &p.anti_affinity_preferred {
                Some(t) => Some(dup_terms(t)),
                None => None,
            },
        },
        node_affinity_required: match &c.node_affinity_required {
            Some(t) => Some(dup_requirements(t)),
            None => match &p.node_affinity_required {
                Some(t) => Some(dup_requirements(t)),
                None => None,
            },
        },
        node_selector: match &c.node_selector {
            Some(t) => Some(dup_kvs(t)),
            None => match &p.node_selector {
                Some(t) => Some(dup_kvs(t)),
                None => None,
            },
        },
    }
}

/// Overlay `child` on top of `parent`: wherever the child layer has a
/// value it wins, otherwise the parent's value is kept.
pub fn merge_fragment(
    c: &MetaStoreConfigFragment,
    p: &MetaStoreConfigFragment,
) -> (r: MetaStoreConfigFragment)
    ensures
        r.deep_view() == spec_merge_fragment(c.deep_view(), p.deep_view()),
{
    MetaStoreConfigFragment {
        warehouse_dir: merge_opt_string(&c.warehouse_dir, &p.warehouse_dir),
        resources: merge_resources(&c.resources, &p.resources),
        logging: merge_logging(&c.logging, &p.logging),
        affinity: merge_affinity(&c.affinity, &p.affinity),
        graceful_shutdown_timeout: match c.graceful_shutdown_timeout {
            Some(d) => Some(d),
            None => p.graceful_shutdown_timeout,
        },
    }
}

// ---------------------------------------------------------------------------
// Laws of the overlay.
// ---------------------------------------------------------------------------

/// Merge precedence and fallthrough over the three overlay layers: for
/// every field, a value set on the role group wins; a field the role group
/// leaves open falls through to the role; a field both leave open falls
/// through to the defaults.
pub proof fn lemma_overlay_precedence(
    d: MetaStoreConfigFragmentView,
    r: MetaStoreConfigFragmentView,
    g: MetaStoreConfigFragmentView,
)
    ensures
        spec_merge_fragment(g, spec_merge_fragment(r, d)).warehouse_dir == spec_overlay(
            g.warehouse_dir,
            spec_overlay(r.warehouse_dir, d.warehouse_dir),
        ),
        g.warehouse_dir is Some ==> spec_merge_fragment(g, spec_merge_fragment(r, d)).warehouse_dir
            == g.warehouse_dir,
        g.warehouse_dir is None && r.warehouse_dir is Some ==> spec_merge_fragment(
            g,
            spec_merge_fragment(r, d),
        ).warehouse_dir == r.warehouse_dir,
        g.warehouse_dir is None && r.warehouse_dir is None ==> spec_merge_fragment(
            g,
            spec_merge_fragment(r, d),
        ).warehouse_dir == d.warehouse_dir,
        g.resources.memory_limit is Some ==> spec_merge_fragment(
            g,
            spec_merge_fragment(r, d),
        ).resources.memory_limit == g.resources.memory_limit,
        g.resources.memory_limit is None && r.resources.memory_limit is Some
            ==> spec_merge_fragment(g, spec_merge_fragment(r, d)).resources.memory_limit
            == r.resources.memory_limit,
        g.resources.memory_limit is None && r.resources.memory_limit is None
            ==> spec_merge_fragment(g, spec_merge_fragment(r, d)).resources.memory_limit
            == d.resources.memory_limit,
        g.affinity.node_selector is Some ==> spec_merge_fragment(
            g,
            spec_merge_fragment(r, d),
        ).affinity.node_selector == g.affinity.node_selector,
        g.affinity.node_selector is None && r.affinity.node_selector is Some
            ==> spec_merge_fragment(g, spec_merge_fragment(r, d)).affinity.node_selector
            == r.affinity.node_selector,
        g.affinity.node_selector is None && r.affinity.node_selector is None
            ==> spec_merge_fragment(g, spec_merge_fragment(r, d)).affinity.node_selector
            == d.affinity.node_selector,
{
}

/// The overlay is idempotent: merging a layer onto itself changes nothing.
pub proof fn lemma_overlay_idempotent(a: MetaStoreConfigFragmentView)
    ensures
        spec_merge_fragment(a, a) == a,
{
}

/// The overlay is associative: folding the layers in either grouping
/// produces the same configuration.
pub proof fn lemma_overlay_associative(
    a: MetaStoreConfigFragmentView,
    b: MetaStoreConfigFragmentView,
    c: MetaStoreConfigFragmentView,
)
    ensures
        spec_merge_fragment(a, spec_merge_fragment(b, c)) == spec_merge_fragment(
            spec_merge_fragment(a, b),
            c,
        ),
{
    let l = spec_merge_fragment(a, spec_merge_fragment(b, c));
    let r = spec_merge_fragment(spec_merge_fragment(a, b), c);
    assert(l.warehouse_dir == r.warehouse_dir);
    assert(l.resources == r.resources);
    assert(l.logging == r.logging);
    assert(l.affinity == r.affinity);
    assert(l.graceful_shutdown_timeout == r.graceful_shutdown_timeout);
}

// ---------------------------------------------------------------------------
// Validation.
// ---------------------------------------------------------------------------

/// The validated image of a merged fragment, defined when every required
/// field is populated.
pub open spec fn spec_validated(f: MetaStoreConfigFragmentView) -> MetaStoreConfigView
    recommends
        f.logging.enable_vector_agent is Some,
{
    MetaStoreConfigView {
        warehouse_dir: f.warehouse_dir,
        resources: f.resources,
        logging: LoggingView {
            enable_vector_agent: f.logging.enable_vector_agent->0,
            hive: f.logging.hive,
            vector: f.logging.vector,
        },
        affinity: f.affinity,
        graceful_shutdown_timeout: f.graceful_shutdown_timeout,
    }
}

/// Checks that every required field of the merged fragment is populated
/// and turns it into the final configuration. Fails naming the missing
/// field, and only then.
pub fn validate(f: MetaStoreConfigFragment) -> (r: Result<MetaStoreConfig, crate::crd::Error>)
    ensures
        match r {
            Ok(c) => f.logging.enable_vector_agent is Some && c.deep_view() == spec_validated(
                f.deep_view(),
            ),
            Err(e) => f.logging.enable_vector_agent is None && (e matches
                crate::crd::Error::FragmentValidationFailure { field } && field@
                == "logging.enableVectorAgent"@),
        },
{
    let MetaStoreConfigFragment { warehouse_dir, resources, logging, affinity, graceful_shutdown_timeout } =
        f;
    let enable_vector_agent = match logging.enable_vector_agent {
        Some(b) => b,
        None => {
            return Err(
                crate::crd::Error::FragmentValidationFailure {
                    field: String::from_str("logging.enableVectorAgent"),
                },
            );
        },
    };
    Ok(
        MetaStoreConfig {
            warehouse_dir,
            resources,
            logging: Logging { enable_vector_agent, hive: logging.hive, vector: logging.vector },
            affinity,
            graceful_shutdown_timeout,
        },
    )
}

// ---------------------------------------------------------------------------
// The defaults layer.
// ---------------------------------------------------------------------------

/// The computed defaults for one role of one cluster: resource quantities,
/// logging, the anti-affinity preference and the graceful-shutdown
/// timeout. This layer supplies every required field, so resolution can
/// never fail for a missing default. The `0Mi` storage capacity is a
/// historical "unused" marker; the controller warns when a user overrides
/// it with a non-zero value.
pub open spec fn spec_default_config(cluster_name: Seq<char>) -> MetaStoreConfigFragmentView {
    MetaStoreConfigFragmentView {
        warehouse_dir: None,
        resources: ResourcesView {
            cpu_min: Some("250m"@),
            cpu_max: Some("1000m"@),
            memory_limit: Some("512Mi"@),
            storage: MetastoreStorageConfigView {
                data: PvcConfigView { capacity: Some("0Mi"@), storage_class: None, selectors: None },
            },
        },
        logging: LoggingFragmentView {
            enable_vector_agent: Some(false),
            hive: Some(ContainerLogChoiceView::Automatic { root_log_level: LogLevel::Info }),
            vector: Some(ContainerLogChoiceView::Automatic { root_log_level: LogLevel::Info }),
        },
        affinity: crate::affinity::spec_default_affinity(cluster_name),
        graceful_shutdown_timeout: Some(Duration { secs: 300 }),
    }
}

impl MetaStoreConfig {
    /// Builds the defaults layer for one role of one cluster.
    pub fn default_config(cluster_name: &str, role: &crate::crd::HiveRole) -> (r:
        MetaStoreConfigFragment)
        ensures
            r.deep_view() == spec_default_config(cluster_name@),
    {
        MetaStoreConfigFragment {
            warehouse_dir: None,
            resources: Resources {
                cpu_min: Some(Quantity { value: String::from_str("250m") }),
                cpu_max: Some(Quantity { value: String::from_str("1000m") }),
                memory_limit: Some(Quantity { value: String::from_str("512Mi") }),
                storage: MetastoreStorageConfig {
                    data: PvcConfig {
                        capacity: Some(Quantity { value: String::from_str("0Mi") }),
                        storage_class: None,
                        selectors: None,
                    },
                },
            },
            logging: LoggingFragment {
                enable_vector_agent: Some(false),
                hive: ContainerLogConfig {
                    choice: Some(ContainerLogChoice::Automatic { root_log_level: LogLevel::Info }),
                },
                vector: ContainerLogConfig {
                    choice: Some(ContainerLogChoice::Automatic { root_log_level: LogLevel::Info }),
                },
            },
            affinity: crate::affinity::get_affinity(cluster_name, role),
            graceful_shutdown_timeout: Some(Duration { secs: 300 }),
        }
    }
}

} // verus!
