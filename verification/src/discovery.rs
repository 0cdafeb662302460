//! The discovery resolver: derives the client-facing connection string
//! from whichever exposure mechanism is active, and normalizes the
//! optional chroot suffix.

use vstd::prelude::*;

verus! {

use vstd::string::*;
use crate::crd::{HiveConnectionInformation, KeyValue, PodRef};
use crate::service::NamedPort;
use crate::strutil::{spec_dec, spec_join, join_with, u64_to_dec_string};

/// What can go wrong while resolving connection information.
#[derive(Debug)]
pub enum Error {
    /// A pod that should carry a name does not.
    ObjectWithoutName { reference: String },
    /// A pod is not scheduled yet and has no host.
    PodWithoutHostname { pod: String },
    /// The role listener has published no address yet.
    RoleListenerHasNoAddress { role: String },
    /// The listener address does not publish the expected port.
    NoServicePort { port_name: String, role: String },
    /// A chroot that is still relative after padding.
    RelativeChroot { chroot: String },
}

// ---------------------------------------------------------------------------
// Chroot normalization.
// ---------------------------------------------------------------------------

/// The chroot with a leading slash supplied when the user left it out.
pub open spec fn spec_padded_chroot(root: Option<Seq<char>>) -> Option<Seq<char>> {
    match root {
        None => None,
        Some(r) => if r.len() > 0 && r[0] == '/' {
            Some(r)
        } else {
            Some("/"@ + r)
        },
    }
}

/// Pads a relative chroot with a leading slash and checks that the
/// result is an absolute path. The padding guarantees absoluteness, so
/// the check cannot fail.
pub fn pad_and_check_chroot(root: Option<&str>) -> (r: Result<Option<String>, Error>)
    ensures
        r matches Ok(v) && v.deep_view() == spec_padded_chroot(match root {
            Some(s) => Some(s@),
            None => None,
        }),
{
    let root = match root {
        None => {
            return Ok(None);
        },
        Some(r) => r,
    };
    let len = root.unicode_len();
    let padded = if len > 0 && root.get_char(0) == '/' {
        String::from_str(root)
    } else {
        let mut s = String::from_str("/");
        s.append(root);
        s
    };
    Ok(Some(padded))
}

/// Padding normalizes: a chroot given without its leading slash yields
/// the same result as the same chroot given with it.
pub proof fn lemma_chroot_normalization(root: Seq<char>)
    requires
        root.len() == 0 || root[0] != '/',
    ensures
        spec_padded_chroot(Some(root)) == spec_padded_chroot(Some("/"@ + root)),
{
    reveal_strlit("/");
    assert(("/"@ + root)[0] == '/');
    assert(("/"@ + root).len() > 0);
}

// ---------------------------------------------------------------------------
// Discovery from observed pods.
// ---------------------------------------------------------------------------

/// One container of an observed pod, with its declared ports.
pub struct PodContainer {
    pub name: String,
    pub ports: Vec<NamedPort>,
}

/// A pod as observed in the running cluster, as far as discovery reads
/// it.
pub struct ObservedPod {
    pub name: Option<String>,
    pub node_name: Option<String>,
    pub labels: Vec<KeyValue>,
    pub containers: Vec<PodContainer>,
}

/// The value of the first label with the key, if any.
pub open spec fn spec_label_value(labels: Seq<KeyValue>, key: Seq<char>) -> Option<Seq<char>>
    decreases labels.len(),
{
    if labels.len() == 0 {
        None
    } else if labels[0].key@ == key {
        Some(labels[0].value@)
    } else {
        spec_label_value(labels.drop_first(), key)
    }
}

fn label_value<'a>(labels: &'a Vec<KeyValue>, key: &str) -> (r: Option<&'a String>)
    ensures
        match r {
            Some(v) => spec_label_value(labels@, key@) == Some(v@),
            None => spec_label_value(labels@, key@) is None,
        },
{
    let key_string = String::from_str(key);
    let mut i: usize = 0;
    proof {
        assert(labels@.subrange(0, labels@.len() as int) =~= labels@);
    }
    while i < labels.len()
        invariant
            i <= labels.len(),
            spec_label_value(labels@, key_string@) == spec_label_value(
                labels@.subrange(i as int, labels@.len() as int),
                key_string@,
            ),
            key_string@ == key@,
        decreases labels.len() - i,
    {
        proof {
            let suf = labels@.subrange(i as int, labels@.len() as int);
            assert(suf[0] == labels@[i as int]);
            assert(suf.drop_first() =~= labels@.subrange(i + 1 as int, labels@.len() as int));
        }
        if labels[i].key == key_string {
            return Some(&labels[i].value);
        }
        i = i + 1;
    }
    proof {
        assert(labels@.subrange(labels@.len() as int, labels@.len() as int).len() == 0);
    }
    None
}

/// The port of the named container port of the named container,
/// rendered in decimal; scanning continues past containers that do not
/// carry it.
pub open spec fn spec_find_port(ports: Seq<NamedPort>, port_name: Seq<char>) -> Option<u16>
    decreases ports.len(),
{
    if ports.len() == 0 {
        None
    } else if ports[0].name@ == port_name {
        Some(ports[0].port)
    } else {
        spec_find_port(ports.drop_first(), port_name)
    }
}

pub open spec fn spec_extract_container_port(
    containers: Seq<PodContainer>,
    container_name: Seq<char>,
    port_name: Seq<char>,
) -> Option<Seq<char>>
    decreases containers.len(),
{
    if containers.len() == 0 {
        None
    } else if containers[0].name@ == container_name && spec_find_port(
        containers[0].ports@,
        port_name,
    ) is Some {
        Some(spec_dec(spec_find_port(containers[0].ports@, port_name)->0 as nat))
    } else {
        spec_extract_container_port(containers.drop_first(), container_name, port_name)
    }
}

fn find_port(ports: &Vec<NamedPort>, port_name: &String) -> (r: Option<u16>)
    ensures
        r == spec_find_port(ports@, port_name@),
{
    let mut i: usize = 0;
    proof {
        assert(ports@.subrange(0, ports@.len() as int) =~= ports@);
    }
    while i < ports.len()
        invariant
            i <= ports.len(),
            spec_find_port(ports@, port_name@) == spec_find_port(
                ports@.subrange(i as int, ports@.len() as int),
                port_name@,
            ),
        decreases ports.len() - i,
    {
        proof {
            let suf = ports@.subrange(i as int, ports@.len() as int);
            assert(suf[0] == ports@[i as int]);
            assert(suf.drop_first() =~= ports@.subrange(i + 1 as int, ports@.len() as int));
        }
        if ports[i].name == *port_name {
            return Some(ports[i].port);
        }
        i = i + 1;
    }
    proof {
        assert(ports@.subrange(ports@.len() as int, ports@.len() as int).len() == 0);
    }
    None
}

/// Extracts the named container port of the named container, as text.
pub fn extract_container_port(
    pod: &ObservedPod,
    container_name: &str,
    port_name: &str,
) -> (r: Option<String>)
    ensures
        r.deep_view() == spec_extract_container_port(pod.containers@, container_name@, port_name@),
{
    let container_name_string = String::from_str(container_name);
    let port_name_string = String::from_str(port_name);
    let mut i: usize = 0;
    proof {
        assert(pod.containers@.subrange(0, pod.containers@.len() as int) =~= pod.containers@);
    }
    while i < pod.containers.len()
        invariant
            i <= pod.containers.len(),
            container_name_string@ == container_name@,
            port_name_string@ == port_name@,
            spec_extract_container_port(pod.containers@, container_name@, port_name@)
                == spec_extract_container_port(
                pod.containers@.subrange(i as int, pod.containers@.len() as int),
                container_name@,
                port_name@,
            ),
        decreases pod.containers.len() - i,
    {
        proof {
            let suf = pod.containers@.subrange(i as int, pod.containers@.len() as int);
            assert(suf[0] == pod.containers@[i as int]);
            assert(suf.drop_first() =~= pod.containers@.subrange(
                i + 1 as int,
                pod.containers@.len() as int,
            ));
        }
        if pod.containers[i].name == container_name_string {
            match find_port(&pod.containers[i].ports, &port_name_string) {
                Some(p) => {
                    return Some(u64_to_dec_string(p as u64));
                },
                None => {},
            }
        }
        i = i + 1;
    }
    proof {
        assert(pod.containers@.subrange(
            pod.containers@.len() as int,
            pod.containers@.len() as int,
        ).len() == 0);
    }
    None
}

/// The outcome of scanning the observed pods for a usable metastore.
pub ghost enum PodScanOutcome {
    Found { node_name: Seq<char>, port: Seq<char> },
    NotFound,
    MissingName,
    MissingHost { pod: Seq<char> },
}

/// Scans the pods from position `i` on: pods not labelled as metastore
/// pods are skipped; the first metastore pod without a name or without a
/// host stops the scan; otherwise the first metastore pod exposing the
/// metastore port wins.
pub open spec fn spec_scan_pods(pods: Seq<ObservedPod>, i: int) -> PodScanOutcome
    decreases pods.len() - i,
{
    if i < 0 || i >= pods.len() {
        PodScanOutcome::NotFound
    } else if spec_label_value(pods[i].labels@, "app.kubernetes.io/component"@) != Some(
        "metastore"@,
    ) {
        spec_scan_pods(pods, i + 1)
    } else if pods[i].name is None {
        PodScanOutcome::MissingName
    } else if pods[i].node_name is None {
        PodScanOutcome::MissingHost { pod: pods[i].name->0@ }
    } else {
        match spec_extract_container_port(pods[i].containers@, "hive"@, "metastore"@) {
            Some(port) => PodScanOutcome::Found { node_name: pods[i].node_name->0@, port },
            None => spec_scan_pods(pods, i + 1),
        }
    }
}

/// Builds connection information from the observed pods of the cluster:
/// the first labelled metastore pod that exposes the metastore port
/// wins, with the normalized chroot attached. No usable pod is an
/// empty, non-error result; a metastore pod without a name or without a
/// host is an error.
pub fn get_hive_connection_string_from_pods(
    hive_pods: &Vec<ObservedPod>,
    root: Option<&str>,
) -> (r: Result<Option<HiveConnectionInformation>, Error>)
    ensures
        match r {
            Ok(opt) => match opt {
                Some(ci) => spec_scan_pods(hive_pods@, 0) matches PodScanOutcome::Found {
                    node_name,
                    port,
                } && ci.node_name@ == node_name && ci.port@ == port && ci.db.deep_view()
                    == spec_padded_chroot(match root {
                    Some(s) => Some(s@),
                    None => None,
                }),
                None => spec_scan_pods(hive_pods@, 0) is NotFound,
            },
            Err(e) => match e {
                Error::ObjectWithoutName { reference } => spec_scan_pods(hive_pods@, 0)
                    is MissingName,
                Error::PodWithoutHostname { pod } => spec_scan_pods(hive_pods@, 0) matches
                    PodScanOutcome::MissingHost { pod: p } && pod@ == p,
                _ => false,
            },
        },
{
    let cleaned_db_root = match pad_and_check_chroot(root) {
        Ok(v) => v,
        Err(e) => {
            return Err(e);
        },
    };
    proof {
        assert(cleaned_db_root.deep_view() == spec_padded_chroot(match root {
            Some(s) => Some(s@),
            None => None,
        }));
    }
    let mut i: usize = 0;
    while i < hive_pods.len()
        invariant
            i <= hive_pods.len(),
            spec_scan_pods(hive_pods@, 0) == spec_scan_pods(hive_pods@, i as int),
            cleaned_db_root.deep_view() == spec_padded_chroot(match root {
                Some(s) => Some(s@),
                None => None,
            }),
        decreases hive_pods.len() - i,
    {
        let pod = &hive_pods[i];
        let is_metastore = match label_value(&pod.labels, "app.kubernetes.io/component") {
            Some(v) => {
                let metastore = String::from_str("metastore");
                *v == metastore
            },
            None => false,
        };
        if is_metastore {
            let pod_name = match &pod.name {
                None => {
                    return Err(
                        Error::ObjectWithoutName {
                            reference: String::from_str("ErrHivePodWithoutName"),
                        },
                    );
                },
                Some(n) => n,
            };
            let node_name = match &pod.node_name {
                None => {
                    return Err(Error::PodWithoutHostname { pod: pod_name.clone() });
                },
                Some(n) => n,
            };
            match extract_container_port(pod, "hive", "metastore") {
                Some(port) => {
                    proof {
                        assert(spec_label_value(
                            hive_pods@[i as int].labels@,
                            "app.kubernetes.io/component"@,
                        ) == Some("metastore"@));
                        assert(spec_extract_container_port(
                            hive_pods@[i as int].containers@,
                            "hive"@,
                            "metastore"@,
                        ) == Some(port@));
                        assert(spec_scan_pods(hive_pods@, i as int) == (PodScanOutcome::Found {
                            node_name: hive_pods@[i as int].node_name->0@,
                            port: port@,
                        }));
                    }
                    return Ok(
                        Some(
                            HiveConnectionInformation {
                                node_name: node_name.clone(),
                                port,
                                db: cleaned_db_root,
                            },
                        ),
                    );
                },
                None => {},
            }
        }
        i = i + 1;
    }
    Ok(None)
}

// ---------------------------------------------------------------------------
// Pod-identity mode.
// ---------------------------------------------------------------------------

/// The connection entries of the predicted pods: one
/// `thrift://<fqdn>:9083[<chroot>]` entry per pod.
pub open spec fn spec_pod_identity_entries(
    pods: Seq<crate::crd::PodRefView>,
    chroot: Option<Seq<char>>,
) -> Seq<Seq<char>> {
    Seq::new(
        pods.len(),
        |i: int|
            "thrift://"@ + pods[i].spec_fqdn() + ":9083"@ + match chroot {
                Some(c) => c,
                None => Seq::empty(),
            },
    )
}

/// Builds the pod-identity connection string: entries for every
/// predicted pod, newline-joined, with the normalized chroot attached
/// to each. Predicted pods, never live ones, keep the record stable.
pub fn build_pod_identity_connection_string(pods: &Vec<PodRef>, chroot: Option<&str>) -> (r:
    Result<String, Error>)
    ensures
        r matches Ok(s) && s@ == spec_join(
            spec_pod_identity_entries(
                pods.deep_view(),
                spec_padded_chroot(match chroot {
                    Some(c) => Some(c@),
                    None => None,
                }),
            ),
            "\n"@,
        ),
{
    let padded = match pad_and_check_chroot(chroot) {
        Ok(v) => v,
        Err(e) => {
            return Err(e);
        },
    };
    let mut entries: Vec<String> = Vec::new();
    let ghost spec_entries = spec_pod_identity_entries(
        pods.deep_view(),
        padded.deep_view(),
    );
    let mut i: usize = 0;
    while i < pods.len()
        invariant
            i <= pods.len(),
            spec_entries == spec_pod_identity_entries(pods.deep_view(), padded.deep_view()),
            entries.deep_view() == spec_entries.subrange(0, i as int),
        decreases pods.len() - i,
    {
        let mut entry = String::from_str("thrift://");
        let fqdn = pods[i].fqdn();
        entry.append(fqdn.as_str());
        entry.append(":9083");
        match &padded {
            Some(c) => {
                entry.append(c.as_str());
            },
            None => {},
        }
        let ghost ge = entry@;
        let ghost prev = entries.deep_view();
        entries.push(entry);
        proof {
            assert(entries.deep_view() =~= prev.push(ge));
            assert(ge == spec_entries[i as int]);
            assert(entries.deep_view() =~= spec_entries.subrange(0, i + 1 as int));
        }
        i = i + 1;
    }
    proof {
        assert(spec_entries.subrange(0, spec_entries.len() as int) =~= spec_entries);
    }
    Ok(join_with(&entries, "\n"))
}

// ---------------------------------------------------------------------------
// Node-port mode.
// ---------------------------------------------------------------------------

/// One endpoint backend: the node hosting it and whether the pod there
/// is ready.
pub struct EndpointNode {
    pub node_name: String,
    pub ready: bool,
}

/// The distinct names of nodes hosting ready pods, in first-seen order.
pub open spec fn spec_ready_nodes(nodes: Seq<EndpointNode>) -> Seq<Seq<char>>
    decreases nodes.len(),
{
    if nodes.len() == 0 {
        Seq::empty()
    } else {
        let rest = spec_ready_nodes(nodes.drop_last());
        if nodes.last().ready && !rest.contains(nodes.last().node_name@) {
            rest + seq![nodes.last().node_name@]
        } else {
            rest
        }
    }
}

fn contains_string(v: &Vec<String>, s: &String) -> (r: bool)
    ensures
        r == v.deep_view().contains(s@),
{
    let mut i: usize = 0;
    while i < v.len()
        invariant
            i <= v.len(),
            forall|j: int| 0 <= j < i ==> v.deep_view()[j] != s@,
        decreases v.len() - i,
    {
        let same = v[i] == *s;
        proof {
            assert(v.deep_view()[i as int] == v@[i as int]@);
        }
        if same {
            return true;
        }
        i = i + 1;
    }
    proof {
        assert(!v.deep_view().contains(s@));
    }
    false
}

/// Builds the node-port connection string: one `thrift://<node>:<port>`
/// entry per distinct node currently hosting a ready pod, newline-joined,
/// with the normalized chroot attached to each. Zero usable endpoints
/// is an empty, non-error result, expected during bring-up.
pub fn build_nodeport_connection_string(
    node_port: u16,
    endpoints: &Vec<EndpointNode>,
    chroot: Option<&str>,
) -> (r: Result<String, Error>)
    ensures
        r matches Ok(s) && s@ == spec_join(
            Seq::new(
                spec_ready_nodes(endpoints@).len(),
                |i: int|
                    "thrift://"@ + spec_ready_nodes(endpoints@)[i] + ":"@ + spec_dec(
                        node_port as nat,
                    ) + match spec_padded_chroot(match chroot {
                        Some(c) => Some(c@),
                        None => None,
                    }) {
                        Some(c) => c,
                        None => Seq::empty(),
                    },
            ),
            "\n"@,
        ),
{
    let padded = match pad_and_check_chroot(chroot) {
        Ok(v) => v,
        Err(e) => {
            return Err(e);
        },
    };
    let port_string = u64_to_dec_string(node_port as u64);
    let mut names: Vec<String> = Vec::new();
    let mut i: usize = 0;
    while i < endpoints.len()
        invariant
            i <= endpoints.len(),
            names.deep_view() == spec_ready_nodes(endpoints@.subrange(0, i as int)),
        decreases endpoints.len() - i,
    {
        proof {
            let pre = endpoints@.subrange(0, i as int);
            let cur = endpoints@.subrange(0, i + 1 as int);
            assert(cur.drop_last() =~= pre);
            assert(cur.last() == endpoints@[i as int]);
        }
        if endpoints[i].ready && !contains_string(&names, &endpoints[i].node_name) {
            let ghost prev = names.deep_view();
            names.push(endpoints[i].node_name.clone());
            proof {
                assert(names.deep_view() =~= prev.push(endpoints@[i as int].node_name@));
                assert(names.deep_view() =~= spec_ready_nodes(
                    endpoints@.subrange(0, i + 1 as int),
                ));
            }
        } else {
            proof {
                assert(names.deep_view() =~= spec_ready_nodes(
                    endpoints@.subrange(0, i + 1 as int),
                ));
            }
        }
        i = i + 1;
    }
    proof {
        assert(endpoints@.subrange(0, endpoints@.len() as int) =~= endpoints@);
    }
    let ghost ready = spec_ready_nodes(endpoints@);
    let mut entries: Vec<String> = Vec::new();
    let mut k: usize = 0;
    while k < names.len()
        invariant
            k <= names.len(),
            names.deep_view() == ready,
            port_string@ == spec_dec(node_port as nat),
            padded.deep_view() == spec_padded_chroot(match chroot {
                Some(c) => Some(c@),
                None => None,
            }),
            entries.deep_view() == Seq::new(
                k as nat,
                |i: int|
                    "thrift://"@ + ready[i] + ":"@ + spec_dec(node_port as nat) + match padded.deep_view() {
                        Some(c) => c,
                        None => Seq::<char>::empty(),
                    },
            ),
        decreases names.len() - k,
    {
        let mut entry = String::from_str("thrift://");
        entry.append(names[k].as_str());
        entry.append(":");
        entry.append(port_string.as_str());
        match &padded {
            Some(c) => {
                entry.append(c.as_str());
            },
            None => {},
        }
        let ghost ge = entry@;
        let ghost prev = entries.deep_view();
        entries.push(entry);
        proof {
            assert(entries.deep_view() =~= prev.push(ge));
            assert(names.deep_view()[k as int] == names@[k as int]@);
            assert(entries.deep_view() =~= Seq::new(
                (k + 1) as nat,
                |i: int|
                    "thrift://"@ + ready[i] + ":"@ + spec_dec(node_port as nat) + match padded.deep_view() {
                        Some(c) => c,
                        None => Seq::<char>::empty(),
                    },
            ));
        }
        k = k + 1;
    }
    proof {
        assert(entries.deep_view() =~= Seq::new(
            spec_ready_nodes(endpoints@).len(),
            |i: int|
                "thrift://"@ + spec_ready_nodes(endpoints@)[i] + ":"@ + spec_dec(node_port as nat)
                    + match spec_padded_chroot(match chroot {
                    Some(c) => Some(c@),
                    None => None,
                }) {
                    Some(c) => c,
                    None => Seq::<char>::empty(),
                },
        ));
    }
    Ok(join_with(&entries, "\n"))
}

// ---------------------------------------------------------------------------
// Listener-ingress mode.
// ---------------------------------------------------------------------------

/// One published ingress address of a listener.
pub struct ListenerIngressAddress {
    pub address: String,
    pub ports: Vec<NamedPort>,
}

/// The published state of a listener, as far as discovery reads it.
pub struct ListenerStatusInfo {
    pub ingress_addresses: Vec<ListenerIngressAddress>,
}

/// Builds the connection string from the first published ingress
/// address of the role listener: `thrift://<address>:<hive port>` with
/// the normalized chroot attached. Fails when no address is published
/// yet or the address does not carry the port.
pub fn build_listener_connection_string(
    listener_status: &ListenerStatusInfo,
    role: &String,
    chroot: Option<&str>,
) -> (r: Result<String, Error>)
    ensures
        match r {
            Ok(s) => listener_status.ingress_addresses@.len() > 0 && (spec_find_port(
                listener_status.ingress_addresses@[0].ports@,
                "hive"@,
            ) matches Some(p) && s@ == "thrift://"@
                + listener_status.ingress_addresses@[0].address@ + ":"@ + spec_dec(p as nat)
                + (match spec_padded_chroot(match chroot {
                    Some(c) => Some(c@),
                    None => None,
                }) {
                    Some(c) => c,
                    None => Seq::<char>::empty(),
                })),
            Err(e) => match e {
                Error::RoleListenerHasNoAddress { role: r2 } => listener_status.ingress_addresses@.len()
                    == 0 && r2@ == role@,
                Error::NoServicePort { port_name, role: r2 } => listener_status.ingress_addresses@.len()
                    > 0 && spec_find_port(listener_status.ingress_addresses@[0].ports@, "hive"@)
                    is None && port_name@ == "hive"@ && r2@ == role@,
                _ => false,
            },
        },
{
    let padded = match pad_and_check_chroot(chroot) {
        Ok(v) => v,
        Err(e) => {
            return Err(e);
        },
    };
    if listener_status.ingress_addresses.len() == 0 {
        return Err(Error::RoleListenerHasNoAddress { role: role.clone() });
    }
    let address = &listener_status.ingress_addresses[0];
    let hive_port_name = String::from_str("hive");
    let port = match find_port(&address.ports, &hive_port_name) {
        Some(p) => p,
        None => {
            return Err(
                Error::NoServicePort { port_name: String::from_str("hive"), role: role.clone() },
            );
        },
    };
    let mut conn = String::from_str("thrift://");
    conn.append(address.address.as_str());
    conn.append(":");
    let port_string = u64_to_dec_string(port as u64);
    conn.append(port_string.as_str());
    match &padded {
        Some(c) => {
            conn.append(c.as_str());
        },
        None => {},
    }
    Ok(conn)
}

/// The name of the headless metrics service derived from an object name.
pub fn build_headless_role_group_metrics_service_name(name: String) -> (r: String)
    ensures
        r@ == name@ + "-metrics"@,
{
    let mut s = name;
    s.append("-metrics");
    s
}

/// The runtime exposure state the connection string is derived from,
/// one variant per exposure mechanism.
pub enum RuntimeExposureState {
    /// Pod-identity mode: the predicted pods of the cluster.
    PodIdentity { pods: Vec<PodRef> },
    /// Node-port mode: the port the exposing service was assigned and
    /// the live endpoint backends.
    NodePort { node_port: u16, endpoints: Vec<EndpointNode> },
    /// Listener-ingress mode: the published listener state.
    ListenerIngress { status: ListenerStatusInfo, role: String },
}

/// Derives the client connection string from the active exposure
/// mechanism; the chroot is normalized the same way in every mode.
pub fn resolve_connection_info(state: &RuntimeExposureState, chroot: Option<&str>) -> (r: Result<
    String,
    Error,
>)
    ensures
        match state {
            RuntimeExposureState::PodIdentity { pods } => r matches Ok(s) && s@ == spec_join(
                spec_pod_identity_entries(
                    pods.deep_view(),
                    spec_padded_chroot(match chroot {
                        Some(c) => Some(c@),
                        None => None,
                    }),
                ),
                "\n"@,
            ),
            RuntimeExposureState::NodePort { node_port, endpoints } => r matches Ok(s) && s@
                == spec_join(
                Seq::new(
                    spec_ready_nodes(endpoints@).len(),
                    |i: int|
                        "thrift://"@ + spec_ready_nodes(endpoints@)[i] + ":"@ + spec_dec(
                            *node_port as nat,
                        ) + match spec_padded_chroot(match chroot {
                            Some(c) => Some(c@),
                            None => None,
                        }) {
                            Some(c) => c,
                            None => Seq::empty(),
                        },
                ),
                "\n"@,
            ),
            RuntimeExposureState::ListenerIngress { status, role } => match r {
                Ok(s) => status.ingress_addresses@.len() > 0 && (spec_find_port(
                    status.ingress_addresses@[0].ports@,
                    "hive"@,
                ) matches Some(p) && s@ == "thrift://"@
                    + status.ingress_addresses@[0].address@ + ":"@ + spec_dec(p as nat)
                    + (match spec_padded_chroot(match chroot {
                        Some(c) => Some(c@),
                        None => None,
                    }) {
                        Some(c) => c,
                        None => Seq::<char>::empty(),
                    })),
                Err(e) => !(status.ingress_addresses@.len() > 0 && spec_find_port(
                    status.ingress_addresses@[0].ports@,
                    "hive"@,
                ) is Some),
            },
        },
{
    match state {
        RuntimeExposureState::PodIdentity { pods } => build_pod_identity_connection_string(
            pods,
            chroot,
        ),
        RuntimeExposureState::NodePort { node_port, endpoints } => {
            build_nodeport_connection_string(*node_port, endpoints, chroot)
        },
        RuntimeExposureState::ListenerIngress { status, role } => {
            build_listener_connection_string(status, role, chroot)
        },
    }
}

} // verus!
