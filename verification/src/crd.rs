//! The cluster resource model: the user-authored desired state of a Hive
//! Metastore deployment, together with the small value types it is made of.
//!
//! Everything here is plain data. The object-store transport that delivers
//! these values is outside this library; tests and the surrounding binary
//! construct them directly.

use vstd::prelude::*;

verus! {

use vstd::string::*;
use crate::strutil::concat3;

/// The port the metastore serves thrift on.
pub const HIVE_PORT: u16 = 9083;

/// The port the JMX exporter serves metrics on.
pub const METRICS_PORT: u16 = 9084;

/// A single key/value pair, used for labels, selectors and rendered
/// configuration entries.
pub struct KeyValue {
    pub key: String,
    pub value: String,
}

/// Ghost image of a [`KeyValue`].
pub ghost struct KeyValueView {
    pub key: Seq<char>,
    pub value: Seq<char>,
}

impl DeepView for KeyValue {
    type V = KeyValueView;

    open spec fn deep_view(&self) -> KeyValueView {
        KeyValueView { key: self.key@, value: self.value@ }
    }
}

/// A time period, kept in whole seconds.
#[derive(Clone, Copy, PartialEq, Eq, Structural, Debug)]
pub struct Duration {
    pub secs: u64,
}

impl DeepView for Duration {
    type V = Duration;

    open spec fn deep_view(&self) -> Duration {
        *self
    }
}

/// A resource quantity such as `250m`, `512Mi` or `42Gi`, kept in its
/// textual form exactly as the user wrote it.
pub struct Quantity {
    pub value: String,
}

impl DeepView for Quantity {
    type V = Seq<char>;

    open spec fn deep_view(&self) -> Seq<char> {
        self.value@
    }
}

/// The database kinds the metastore can be pointed at.
#[derive(Clone, Copy, PartialEq, Eq, Structural, Debug)]
pub enum DbType {
    Derby,
    Mysql,
    Postgres,
    Oracle,
    Mssql,
}

impl DeepView for DbType {
    type V = DbType;

    open spec fn deep_view(&self) -> DbType {
        *self
    }
}

impl Default for DbType {
    fn default() -> (r: Self)
        ensures
            r == DbType::Derby,
    {
        DbType::Derby
    }
}

impl DbType {
    /// The serialized name of the database kind.
    pub fn as_str(&self) -> (r: &'static str)
        ensures
            r@ == self.spec_name(),
    {
        match self {
            DbType::Derby => "derby",
            DbType::Mysql => "mysql",
            DbType::Postgres => "postgres",
            DbType::Oracle => "oracle",
            DbType::Mssql => "mssql",
        }
    }

    pub open spec fn spec_name(&self) -> Seq<char> {
        match self {
            DbType::Derby => "derby"@,
            DbType::Mysql => "mysql"@,
            DbType::Postgres => "postgres"@,
            DbType::Oracle => "oracle"@,
            DbType::Mssql => "mssql"@,
        }
    }

    /// The JDBC driver class configured for each database kind.
    pub fn get_jdbc_driver_class(&self) -> (r: &'static str)
        ensures
            r@ == self.spec_jdbc_driver_class(),
    {
        match self {
            DbType::Derby => "org.apache.derby.jdbc.EmbeddedDriver",
            DbType::Mysql => "com.mysql.jdbc.Driver",
            DbType::Postgres => "org.postgresql.Driver",
            DbType::Mssql => "com.microsoft.sqlserver.jdbc.SQLServerDriver",
            DbType::Oracle => "oracle.jdbc.driver.OracleDriver",
        }
    }

    pub open spec fn spec_jdbc_driver_class(&self) -> Seq<char> {
        match self {
            DbType::Derby => "org.apache.derby.jdbc.EmbeddedDriver"@,
            DbType::Mysql => "com.mysql.jdbc.Driver"@,
            DbType::Postgres => "org.postgresql.Driver"@,
            DbType::Mssql => "com.microsoft.sqlserver.jdbc.SQLServerDriver"@,
            DbType::Oracle => "oracle.jdbc.driver.OracleDriver"@,
        }
    }
}

/// The single workload class of this cluster kind.
#[derive(Clone, Copy, PartialEq, Eq, Structural, Debug)]
pub enum HiveRole {
    MetaStore,
}

impl HiveRole {
    /// The serialized role name.
    pub fn as_str(&self) -> (r: &'static str)
        ensures
            r@ == "metastore"@,
    {
        "metastore"
    }

    /// All role names this cluster kind knows.
    pub fn roles() -> (r: Vec<String>)
        ensures
            r.deep_view() == seq!["metastore"@],
    {
        let mut v: Vec<String> = Vec::new();
        v.push(String::from_str("metastore"));
        proof {
            assert(v.deep_view() =~= seq!["metastore"@]);
        }
        v
    }

    /// The service part of the Kerberos principal; one role, one name.
    pub fn kerberos_service_name(&self) -> (r: &'static str)
        ensures
            r@ == "hive"@,
    {
        "hive"
    }
}

/// The containers a metastore pod can hold.
#[derive(Clone, Copy, PartialEq, Eq, Structural, Debug)]
pub enum Container {
    Hive,
    Vector,
}

impl Container {
    pub fn as_str(&self) -> (r: &'static str)
        ensures
            self == Container::Hive ==> r@ == "hive"@,
            self == Container::Vector ==> r@ == "vector"@,
    {
        match self {
            Container::Hive => "hive",
            Container::Vector => "vector",
        }
    }
}

/// The service exposure classes the operator currently accepts.
#[derive(Clone, Copy, PartialEq, Eq, Structural, Debug)]
pub enum CurrentlySupportedListenerClasses {
    ClusterInternal,
    ExternalUnstable,
    ExternalStable,
}

impl Default for CurrentlySupportedListenerClasses {
    fn default() -> (r: Self)
        ensures
            r == CurrentlySupportedListenerClasses::ClusterInternal,
    {
        CurrentlySupportedListenerClasses::ClusterInternal
    }
}

impl CurrentlySupportedListenerClasses {
    /// The service type implementing the exposure class.
    pub fn k8s_service_type(&self) -> (r: String)
        ensures
            r@ == self.spec_k8s_service_type(),
    {
        match self {
            CurrentlySupportedListenerClasses::ClusterInternal => String::from_str("ClusterIP"),
            CurrentlySupportedListenerClasses::ExternalUnstable => String::from_str("NodePort"),
            CurrentlySupportedListenerClasses::ExternalStable => String::from_str("LoadBalancer"),
        }
    }

    pub open spec fn spec_k8s_service_type(&self) -> Seq<char> {
        match self {
            CurrentlySupportedListenerClasses::ClusterInternal => "ClusterIP"@,
            CurrentlySupportedListenerClasses::ExternalUnstable => "NodePort"@,
            CurrentlySupportedListenerClasses::ExternalStable => "LoadBalancer"@,
        }
    }
}

/// Plain service types, used by older discovery records.
#[derive(Clone, Copy, PartialEq, Eq, Structural, Debug)]
pub enum ServiceType {
    NodePort,
    ClusterIP,
}

impl Default for ServiceType {
    fn default() -> (r: Self)
        ensures
            r == ServiceType::NodePort,
    {
        ServiceType::NodePort
    }
}

/// Database connection settings for the metadata database.
pub struct DatabaseConnectionSpec {
    /// A connection string for the database, e.g.
    /// `jdbc:postgresql://hivehdfs-postgresql:5432/hivehdfs`.
    pub conn_string: String,
    /// The database kind; selects the JDBC driver class.
    pub db_type: DbType,
    /// Name of the secret holding `username` and `password` keys.
    pub credentials_secret: String,
}

/// Reference to the discovery record of an HDFS cluster.
pub struct HdfsConnection {
    pub config_map: String,
}

/// Kerberos settings.
pub struct KerberosConfig {
    /// Name of the secret class providing the keytab.
    pub secret_class: String,
}

/// Authentication settings.
pub struct AuthenticationConfig {
    pub kerberos: KerberosConfig,
}

/// Reference to an authorization-policy engine.
pub struct OpaConfig {
    pub config_map_name: String,
    pub package_name: Option<String>,
}

/// Authorization settings.
pub struct AuthorizationConfig {
    pub opa: Option<OpaConfig>,
}

/// All the required connection information for S3, as resolved by the
/// surrounding binary.
pub struct S3Connection {
    pub end_point: String,
    pub access_key: String,
    pub secret_key: String,
    pub ssl_enabled: bool,
    pub path_style_access: bool,
}

/// Identifies a Hive cluster for other controllers that reference one.
pub struct HiveReference {
    pub namespace: String,
    pub name: String,
    pub db: Option<String>,
}

/// Marker names for error reports raised while reading referenced objects.
#[derive(Clone, Copy, PartialEq, Eq, Structural, Debug)]
pub enum TicketReferences {
    ErrHivePodWithoutName,
}

/// Everything needed to connect a client to a running metastore.
pub struct HiveConnectionInformation {
    pub node_name: String,
    pub port: String,
    pub db: Option<String>,
}

impl HiveConnectionInformation {
    /// The connection string without any path suffix: `thrift://host:port`.
    pub fn connection_string(&self) -> (r: String)
        ensures
            r@ == self.spec_connection_string(),
    {
        let mut s = String::from_str("thrift://");
        s.append(self.node_name.as_str());
        s.append(":");
        s.append(self.port.as_str());
        s
    }

    pub open spec fn spec_connection_string(&self) -> Seq<char> {
        "thrift://"@ + self.node_name@ + ":"@ + self.port@
    }

    /// The connection string with the optional path suffix appended:
    /// `thrift://host:port[/db]`.
    pub fn full_connection_string(&self) -> (r: String)
        ensures
            r@ == self.spec_full_connection_string(),
    {
        let con = self.connection_string();
        match &self.db {
            Some(db) => con.concat(db.as_str()),
            None => con,
        }
    }

    pub open spec fn spec_full_connection_string(&self) -> Seq<char> {
        match self.db {
            Some(db) => self.spec_connection_string() + db@,
            None => self.spec_connection_string(),
        }
    }
}

/// Raised when an object that needs a namespace has none.
#[derive(Clone, Copy, PartialEq, Eq, Structural, Debug)]
pub struct NoNamespaceError;

/// Identity of one role group: cluster, role and group name. Every derived
/// object name is a pure function of this triple.
pub struct RoleGroupRef {
    pub cluster: String,
    pub role: String,
    pub role_group: String,
}

/// Ghost image of a [`RoleGroupRef`].
pub ghost struct RoleGroupRefView {
    pub cluster: Seq<char>,
    pub role: Seq<char>,
    pub role_group: Seq<char>,
}

impl DeepView for RoleGroupRef {
    type V = RoleGroupRefView;

    open spec fn deep_view(&self) -> RoleGroupRefView {
        RoleGroupRefView { cluster: self.cluster@, role: self.role@, role_group: self.role_group@ }
    }
}

impl RoleGroupRefView {
    /// The deterministic name of objects scoped to this role group.
    pub open spec fn spec_object_name(&self) -> Seq<char> {
        self.cluster + "-"@ + self.role + "-"@ + self.role_group
    }
}

impl RoleGroupRef {
    /// The deterministic `<cluster>-<role>-<role-group>` object name.
    pub fn object_name(&self) -> (r: String)
        ensures
            r@ == self.deep_view().spec_object_name(),
    {
        let mut s = self.cluster.clone();
        s.append("-");
        s.append(self.role.as_str());
        s.append("-");
        s.append(self.role_group.as_str());
        s
    }
}

/// Derived object names are injective in the role-group name: two
/// role groups of one role of one cluster never produce the same
/// object name, so re-applying a pass can never collide.
pub proof fn lemma_object_names_injective(a: RoleGroupRefView, b: RoleGroupRefView)
    requires
        a.cluster == b.cluster,
        a.role == b.role,
        a.role_group != b.role_group,
    ensures
        a.spec_object_name() != b.spec_object_name(),
{
    let p = a.cluster + "-"@ + a.role + "-"@;
    assert(a.spec_object_name() =~= p + a.role_group);
    assert(b.spec_object_name() =~= p + b.role_group);
    if a.spec_object_name() == b.spec_object_name() {
        assert((p + a.role_group).subrange(p.len() as int, (p + a.role_group).len() as int)
            =~= a.role_group);
        assert((p + b.role_group).subrange(p.len() as int, (p + b.role_group).len() as int)
            =~= b.role_group);
        assert(a.role_group =~= b.role_group);
    }
}

/// Reference to a single pod of the cluster, used for pod-identity
/// discovery. The pods are predicted from the desired replica counts, never
/// read back from the running cluster.
pub struct PodRef {
    pub namespace: String,
    pub role_group_service_name: String,
    pub pod_name: String,
}

/// Ghost image of a [`PodRef`].
pub ghost struct PodRefView {
    pub namespace: Seq<char>,
    pub role_group_service_name: Seq<char>,
    pub pod_name: Seq<char>,
}

impl DeepView for PodRef {
    type V = PodRefView;

    open spec fn deep_view(&self) -> PodRefView {
        PodRefView {
            namespace: self.namespace@,
            role_group_service_name: self.role_group_service_name@,
            pod_name: self.pod_name@,
        }
    }
}

impl PodRefView {
    pub open spec fn spec_fqdn(&self) -> Seq<char> {
        self.pod_name + "."@ + self.role_group_service_name + "."@ + self.namespace
            + ".svc.cluster.local"@
    }
}

impl PodRef {
    /// The stable in-cluster DNS name of this pod.
    pub fn fqdn(&self) -> (r: String)
        ensures
            r@ == self.deep_view().spec_fqdn(),
    {
        let mut s = self.pod_name.clone();
        s.append(".");
        s.append(self.role_group_service_name.as_str());
        s.append(".");
        s.append(self.namespace.as_str());
        s.append(".svc.cluster.local");
        s
    }
}

/// One entry of the aggregated status conditions.
pub struct ClusterCondition {
    pub type_: String,
    pub status: String,
    pub reason: Option<String>,
    pub message: Option<String>,
}

/// Ghost image of a [`ClusterCondition`].
pub ghost struct ClusterConditionView {
    pub type_: Seq<char>,
    pub status: Seq<char>,
    pub reason: Option<Seq<char>>,
    pub message: Option<Seq<char>>,
}

impl DeepView for ClusterCondition {
    type V = ClusterConditionView;

    open spec fn deep_view(&self) -> ClusterConditionView {
        ClusterConditionView {
            type_: self.type_@,
            status: self.status@,
            reason: self.reason.deep_view(),
            message: self.message.deep_view(),
        }
    }
}

/// The durable status of the cluster resource: an opaque discovery hash and
/// the aggregated conditions.
pub struct HiveClusterStatus {
    /// An opaque value that changes every time a discovery detail does.
    pub discovery_hash: Option<String>,
    pub conditions: Vec<ClusterCondition>,
}

/// Ghost image of a [`HiveClusterStatus`].
pub ghost struct HiveClusterStatusView {
    pub discovery_hash: Option<Seq<char>>,
    pub conditions: Seq<ClusterConditionView>,
}

impl DeepView for HiveClusterStatus {
    type V = HiveClusterStatusView;

    open spec fn deep_view(&self) -> HiveClusterStatusView {
        HiveClusterStatusView {
            discovery_hash: self.discovery_hash.deep_view(),
            conditions: self.conditions.deep_view(),
        }
    }
}

/// The errors the resolver can raise.
#[derive(Debug)]
pub enum Error {
    /// No metastore role configuration was provided.
    MissingMetaStoreRole,
    /// A required field was still empty after the overlay merge.
    FragmentValidationFailure { field: String },
    /// The requested role is not defined on the cluster.
    CannotRetrieveHiveRole { role: String },
    /// The requested role group is not defined on the role.
    CannotRetrieveHiveRoleGroup { role_group: String },
    /// A role name that this cluster kind does not know.
    UnknownHiveRole { role: String },
}

impl Error {
    /// A human-readable description of the error.
    pub fn message(&self) -> (r: String)
        ensures
            self is MissingMetaStoreRole ==> r@ == "no metastore role configuration provided"@,
    {
        match self {
            Error::MissingMetaStoreRole => String::from_str(
                "no metastore role configuration provided",
            ),
            Error::FragmentValidationFailure { field } => concat3(
                "fragment validation failure: field ",
                field.as_str(),
                " is missing",
            ),
            Error::CannotRetrieveHiveRole { role } => concat3(
                "the role ",
                role.as_str(),
                " is not defined",
            ),
            Error::CannotRetrieveHiveRoleGroup { role_group } => concat3(
                "the role group ",
                role_group.as_str(),
                " is not defined",
            ),
            Error::UnknownHiveRole { role } => concat3(
                "unknown role ",
                role.as_str(),
                ". Should be one of [metastore]",
            ),
        }
    }
}

/// S3 connection details after resolution by the surrounding binary:
/// plain values that the synthesizer folds into the rendered files.
pub struct ResolvedS3Connection {
    /// The endpoint clients connect to, e.g. `https://minio:9000`.
    pub endpoint: String,
    /// The region name.
    pub region: String,
    /// Mount path of the file holding the access key, when credentials
    /// are configured.
    pub access_key_file: Option<String>,
    /// Mount path of the file holding the secret key, when credentials
    /// are configured.
    pub secret_key_file: Option<String>,
    /// Whether the connection uses TLS.
    pub uses_tls: bool,
    /// Whether the server certificate is verified.
    pub uses_tls_verification: bool,
    /// Mount path of an extra CA certificate to trust, if any.
    pub tls_ca_cert_mount_path: Option<String>,
    /// Whether path-style access is used.
    pub path_style_access: bool,
}

} // verus!
