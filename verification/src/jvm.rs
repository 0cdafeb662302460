//! The arguments the metastore JVM is started with: the operator's own
//! arguments, the user's layered overrides on them, and the heap sizing
//! derived from the memory limit.

use vstd::prelude::*;

verus! {

use vstd::string::*;
use crate::cluster::{HiveCluster, JvmArgumentOverrides, JvmArgumentOverridesView, Role};
use crate::config::MetaStoreConfig;
use crate::memory::{heap_mib, parse_mem_bytes, spec_heap_mib, spec_parse_mem_bytes};
use crate::strutil::{concat3, spec_dec, spec_join, join_with, u64_to_dec_string};

/// What can go wrong while building JVM arguments.
#[derive(Debug)]
pub enum Error {
    /// The merged configuration carries no memory limit.
    MissingMemoryResourceConfig,
    /// The memory limit is not a usable quantity.
    InvalidMemoryConfig,
    /// A removal pattern of the JVM argument overrides does not compile.
    MergeJvmArgumentOverrides { pattern: String },
}

/// Whether the anchored pattern matches the whole text; absent exactly
/// when the pattern does not compile.
pub uninterp spec fn regex_full_match(pattern: Seq<char>, text: Seq<char>) -> Option<bool>;

/// Relies on regex::Regex::new and regex::Regex::is_match: whether the
/// pattern, anchored to the whole text, matches is a function of pattern
/// and text alone, and compiling fails on the pattern alone.
#[verifier::external_body]
fn regex_full_match_exec(pattern: &str, text: &str) -> (r: Option<bool>)
    ensures
        r == regex_full_match(pattern@, text@),
{
    match regex::Regex::new(&format!("^(?:{pattern})$")) {
        Ok(re) => Some(re.is_match(text)),
        Err(_) => None,
    }
}

/// Whether the overrides drop this argument: an exact match in `remove`,
/// or a full match of one of the `remove_regex` patterns.
pub open spec fn spec_removed_by(o: JvmArgumentOverridesView, arg: Seq<char>) -> bool {
    o.remove.contains(arg) || exists|k: int|
        0 <= k < o.remove_regex.len() && #[trigger] regex_full_match(o.remove_regex[k], arg)
            == Some(true)
}

/// Whether every removal pattern compiles against every argument.
pub open spec fn spec_patterns_ok(o: JvmArgumentOverridesView, args: Seq<Seq<char>>) -> bool {
    forall|k: int, j: int|
        0 <= k < o.remove_regex.len() && 0 <= j < args.len() ==> (#[trigger] regex_full_match(
            o.remove_regex[k],
            args[j],
        )) is Some
}

/// The arguments that survive the removals, in order.
pub open spec fn spec_kept_args(o: JvmArgumentOverridesView, args: Seq<Seq<char>>) -> Seq<
    Seq<char>,
>
    decreases args.len(),
{
    if args.len() == 0 {
        Seq::empty()
    } else {
        spec_kept_args(o, args.drop_last()) + if spec_removed_by(o, args.last()) {
            Seq::empty()
        } else {
            seq![args.last()]
        }
    }
}

/// One override layer applied to the arguments of the layer below: the
/// removals drop arguments, the additions are appended in order.
pub open spec fn spec_apply_overrides(o: JvmArgumentOverridesView, args: Seq<Seq<char>>) -> Seq<
    Seq<char>,
> {
    spec_kept_args(o, args) + o.add
}

/// Whether the overrides drop this argument; fails when a pattern does
/// not compile.
fn arg_removed(o: &JvmArgumentOverrides, arg: &String) -> (r: Result<bool, Error>)
    ensures
        match r {
            Ok(b) => b == spec_removed_by(o.deep_view(), arg@) && forall|k: int|
                0 <= k < o.remove_regex@.len() ==> (#[trigger] regex_full_match(
                    o.deep_view().remove_regex[k],
                    arg@,
                )) is Some,
            Err(e) => e is MergeJvmArgumentOverrides && exists|k: int|
                0 <= k < o.remove_regex@.len() && (#[trigger] regex_full_match(
                    o.deep_view().remove_regex[k],
                    arg@,
                )) is None,
        },
{
    let mut exact = false;
    let mut i: usize = 0;
    while i < o.remove.len()
        invariant
            i <= o.remove.len(),
            exact ==> o.deep_view().remove.contains(arg@),
            !exact ==> forall|j: int| 0 <= j < i ==> o.deep_view().remove[j] != arg@,
        decreases o.remove.len() - i,
    {
        let same = o.remove[i] == *arg;
        proof {
            assert(o.deep_view().remove[i as int] == o.remove@[i as int]@);
        }
        if !exact && same {
            exact = true;
            proof {
                assert(o.deep_view().remove.contains(arg@));
            }
        }
        i = i + 1;
    }
    proof {
        if !exact {
            assert(!o.deep_view().remove.contains(arg@));
        }
    }
    let mut matched = false;
    let mut k: usize = 0;
    while k < o.remove_regex.len()
        invariant
            k <= o.remove_regex.len(),
            forall|j: int|
                0 <= j < k ==> (#[trigger] regex_full_match(
                    o.deep_view().remove_regex[j],
                    arg@,
                )) is Some,
            matched <==> exists|j: int|
                0 <= j < k && #[trigger] regex_full_match(o.deep_view().remove_regex[j], arg@)
                    == Some(true),
        decreases o.remove_regex.len() - k,
    {
        let verdict = regex_full_match_exec(o.remove_regex[k].as_str(), arg.as_str());
        proof {
            assert(o.deep_view().remove_regex[k as int] == o.remove_regex@[k as int]@);
        }
        match verdict {
            Some(m) => {
                proof {
                    assert(regex_full_match(o.deep_view().remove_regex[k as int], arg@) == Some(
                        m,
                    ));
                }
                if m {
                    matched = true;
                }
            },
            None => {
                proof {
                    assert(regex_full_match(o.deep_view().remove_regex[k as int], arg@) is None);
                }
                return Err(
                    Error::MergeJvmArgumentOverrides { pattern: o.remove_regex[k].clone() },
                );
            },
        }
        k = k + 1;
    }
    Ok(exact || matched)
}

/// Applies one override layer to the arguments of the layer below.
fn apply_overrides(parent: &Vec<String>, o: &JvmArgumentOverrides) -> (r: Result<
    Vec<String>,
    Error,
>)
    ensures
        match r {
            Ok(v) => spec_patterns_ok(o.deep_view(), parent.deep_view()) && v.deep_view()
                == spec_apply_overrides(o.deep_view(), parent.deep_view()),
            Err(e) => e is MergeJvmArgumentOverrides && !spec_patterns_ok(
                o.deep_view(),
                parent.deep_view(),
            ),
        },
{
    let mut kept: Vec<String> = Vec::new();
    let mut i: usize = 0;
    while i < parent.len()
        invariant
            i <= parent.len(),
            kept.deep_view() == spec_kept_args(
                o.deep_view(),
                parent.deep_view().subrange(0, i as int),
            ),
            forall|k: int, j: int|
                0 <= k < o.deep_view().remove_regex.len() && 0 <= j < i ==> (
                #[trigger] regex_full_match(
                    o.deep_view().remove_regex[k],
                    parent.deep_view()[j],
                )) is Some,
        decreases parent.len() - i,
    {
        proof {
            assert(parent.deep_view()[i as int] == parent@[i as int]@);
        }
        let removed = match arg_removed(o, &parent[i]) {
            Ok(b) => b,
            Err(e) => {
                proof {
                    let k0 = choose|k: int|
                        0 <= k < o.remove_regex@.len() && (#[trigger] regex_full_match(
                            o.deep_view().remove_regex[k],
                            parent@[i as int]@,
                        )) is None;
                    assert(regex_full_match(
                        o.deep_view().remove_regex[k0],
                        parent.deep_view()[i as int],
                    ) is None);
                    assert(!spec_patterns_ok(o.deep_view(), parent.deep_view()));
                }
                return Err(e);
            },
        };
        proof {
            let pre = parent.deep_view().subrange(0, i as int);
            let cur = parent.deep_view().subrange(0, i + 1 as int);
            assert(cur.drop_last() =~= pre);
            assert(cur.last() == parent.deep_view()[i as int]);
        }
        if !removed {
            let ghost prev = kept.deep_view();
            kept.push(parent[i].clone());
            proof {
                assert(kept.deep_view() =~= prev.push(parent.deep_view()[i as int]));
                assert(kept.deep_view() =~= spec_kept_args(
                    o.deep_view(),
                    parent.deep_view().subrange(0, i + 1 as int),
                ));
            }
        } else {
            proof {
                assert(kept.deep_view() =~= spec_kept_args(
                    o.deep_view(),
                    parent.deep_view().subrange(0, i + 1 as int),
                ));
            }
        }
        i = i + 1;
    }
    proof {
        assert(parent.deep_view().subrange(0, parent.deep_view().len() as int)
            =~= parent.deep_view());
    }
    let mut j: usize = 0;
    let ghost kept_full = kept.deep_view();
    while j < o.add.len()
        invariant
            j <= o.add.len(),
            kept.deep_view() == kept_full + o.deep_view().add.subrange(0, j as int),
        decreases o.add.len() - j,
    {
        let ghost prev = kept.deep_view();
        kept.push(o.add[j].clone());
        proof {
            assert(kept.deep_view() =~= prev.push(o.deep_view().add[j as int]));
            assert(kept.deep_view() =~= kept_full + o.deep_view().add.subrange(0, j + 1 as int));
        }
        j = j + 1;
    }
    proof {
        assert(o.deep_view().add.subrange(0, o.deep_view().add.len() as int)
            =~= o.deep_view().add);
        assert(kept.deep_view() =~= spec_apply_overrides(o.deep_view(), parent.deep_view()));
    }
    Ok(kept)
}

/// The arguments the operator itself asks for: heap bounds, the security
/// properties file, the JMX metrics agent, the trust store, and, with
/// Kerberos enabled, the Kerberos configuration file.
pub open spec fn spec_operator_jvm_args(kerberos: bool, mib: int) -> Seq<Seq<char>> {
    let base = seq![
        "-Xmx"@ + spec_dec(mib as nat) + "m"@,
        "-Xms"@ + spec_dec(mib as nat) + "m"@,
        "-Djava.security.properties=/stackable/config/security.properties"@,
        "-javaagent:/stackable/jmx/jmx_prometheus_javaagent.jar=9084:/stackable/jmx/jmx_hive_config.yaml"@,
        "-Djavax.net.ssl.trustStore=/stackable/truststore.p12"@,
        "-Djavax.net.ssl.trustStorePassword=changeit"@,
        "-Djavax.net.ssl.trustStoreType=pkcs12"@,
    ];
    if kerberos {
        base + seq!["-Djava.security.krb5.conf=/stackable/kerberos/krb5.conf"@]
    } else {
        base
    }
}

/// The empty override layer, used when a role group defines none.
pub open spec fn spec_no_overrides() -> JvmArgumentOverridesView {
    JvmArgumentOverridesView { add: Seq::empty(), remove: Seq::empty(), remove_regex: Seq::empty() }
}

/// The whole pipeline: operator arguments, the role layer's overrides,
/// then the role group layer's overrides; absent when a removal pattern
/// does not compile.
pub open spec fn spec_jvm_args_pipeline(
    kerberos: bool,
    mib: int,
    role_o: JvmArgumentOverridesView,
    group_o: JvmArgumentOverridesView,
) -> Option<Seq<Seq<char>>> {
    let base = spec_operator_jvm_args(kerberos, mib);
    if !spec_patterns_ok(role_o, base) {
        None
    } else {
        let stage = spec_apply_overrides(role_o, base);
        if !spec_patterns_ok(group_o, stage) {
            None
        } else {
            Some(spec_apply_overrides(group_o, stage))
        }
    }
}

/// The override layer of the named role group, or the empty layer when
/// the role has no group of that name.
pub open spec fn spec_group_overrides(role: Role, group_name: Seq<char>) -> JvmArgumentOverridesView {
    match crate::cluster::spec_find_group(role.role_groups@, group_name) {
        Some(i) => role.role_groups@[i].group.config.jvm_argument_overrides.deep_view(),
        None => spec_no_overrides(),
    }
}

/// The heap size in mebibytes that the merged configuration asks for.
pub open spec fn spec_config_heap_mib(cfg: crate::config::MetaStoreConfigView) -> Option<int> {
    match cfg.resources.memory_limit {
        Some(q) => match spec_parse_mem_bytes(q) {
            Some(b) => if 0 <= b <= u64::MAX {
                Some(spec_heap_mib(b))
            } else {
                None
            },
            None => None,
        },
        None => None,
    }
}

/// All JVM arguments for one role group: the operator's own arguments
/// with the role-level and group-level user overrides applied.
pub fn construct_jvm_args(
    hive: &HiveCluster,
    merged_config: &MetaStoreConfig,
    role: &Role,
    role_group: &str,
) -> (r: Result<Vec<String>, Error>)
    ensures
        match r {
            Ok(v) => merged_config.resources.memory_limit is Some && (spec_config_heap_mib(
                merged_config.deep_view(),
            ) matches Some(mib) && spec_jvm_args_pipeline(
                hive.spec_kerberos_secret_class() is Some,
                mib,
                role.config.jvm_argument_overrides.deep_view(),
                spec_group_overrides(*role, role_group@),
            ) == Some(v.deep_view())),
            Err(e) => match e {
                Error::MissingMemoryResourceConfig => merged_config.resources.memory_limit is None,
                Error::InvalidMemoryConfig => merged_config.resources.memory_limit is Some
                    && spec_config_heap_mib(merged_config.deep_view()) is None,
                Error::MergeJvmArgumentOverrides { pattern } => spec_config_heap_mib(
                    merged_config.deep_view(),
                ) matches Some(mib) && spec_jvm_args_pipeline(
                    hive.spec_kerberos_secret_class() is Some,
                    mib,
                    role.config.jvm_argument_overrides.deep_view(),
                    spec_group_overrides(*role, role_group@),
                ) is None,
            },
        },
{
    let limit = match &merged_config.resources.memory_limit {
        Some(q) => q,
        None => {
            return Err(Error::MissingMemoryResourceConfig);
        },
    };
    let bytes = match parse_mem_bytes(limit.value.as_str()) {
        Some(b) => b,
        None => {
            return Err(Error::InvalidMemoryConfig);
        },
    };
    let mib = heap_mib(bytes);
    let heap = u64_to_dec_string(mib);
    let mut args: Vec<String> = Vec::new();
    args.push(concat3("-Xmx", heap.as_str(), "m"));
    args.push(concat3("-Xms", heap.as_str(), "m"));
    args.push(String::from_str("-Djava.security.properties=/stackable/config/security.properties"));
    args.push(
        String::from_str(
            "-javaagent:/stackable/jmx/jmx_prometheus_javaagent.jar=9084:/stackable/jmx/jmx_hive_config.yaml",
        ),
    );
    args.push(String::from_str("-Djavax.net.ssl.trustStore=/stackable/truststore.p12"));
    args.push(String::from_str("-Djavax.net.ssl.trustStorePassword=changeit"));
    args.push(String::from_str("-Djavax.net.ssl.trustStoreType=pkcs12"));
    if hive.has_kerberos_enabled() {
        args.push(String::from_str("-Djava.security.krb5.conf=/stackable/kerberos/krb5.conf"));
    }
    proof {
        assert(args.deep_view() =~= spec_operator_jvm_args(
            hive.spec_kerberos_secret_class() is Some,
            mib as int,
        ));
    }
    let ghost kerb = hive.spec_kerberos_secret_class() is Some;
    let ghost role_o = role.config.jvm_argument_overrides.deep_view();
    let ghost group_o = spec_group_overrides(*role, role_group@);
    proof {
        assert(spec_config_heap_mib(merged_config.deep_view()) == Some(mib as int));
    }
    let stage = match apply_overrides(&args, &role.config.jvm_argument_overrides) {
        Ok(v) => v,
        Err(e) => {
            proof {
                assert(spec_jvm_args_pipeline(kerb, mib as int, role_o, group_o) is None);
            }
            return Err(e);
        },
    };
    let group_name = String::from_str(role_group);
    match crate::cluster::role_group_of(role, &group_name) {
        Some(g) => {
            proof {
                assert(group_o == g.config.jvm_argument_overrides.deep_view());
            }
            let merged = match apply_overrides(&stage, &g.config.jvm_argument_overrides) {
                Ok(v) => v,
                Err(e) => {
                    proof {
                        assert(spec_jvm_args_pipeline(kerb, mib as int, role_o, group_o) is None);
                    }
                    return Err(e);
                },
            };
            Ok(merged)
        },
        None => {
            proof {
                assert(spec_patterns_ok(spec_no_overrides(), stage.deep_view()));
                assert(spec_kept_args(spec_no_overrides(), stage.deep_view())
                    =~= stage.deep_view()) by {
                    lemma_no_overrides_keeps(stage.deep_view());
                }
                assert(spec_apply_overrides(spec_no_overrides(), stage.deep_view())
                    =~= stage.deep_view());
            }
            Ok(stage)
        },
    }
}

proof fn lemma_no_overrides_keeps(args: Seq<Seq<char>>)
    ensures
        spec_kept_args(spec_no_overrides(), args) =~= args,
    decreases args.len(),
{
    if args.len() > 0 {
        lemma_no_overrides_keeps(args.drop_last());
        assert(!spec_removed_by(spec_no_overrides(), args.last()));
    }
}

/// Whether an argument sets the heap bounds: it starts with `-Xms` or
/// `-Xmx` in any capitalisation.
pub open spec fn spec_is_heap_arg(s: Seq<char>) -> bool {
    s.len() >= 4 && s[0] == '-' && (s[1] == 'x' || s[1] == 'X') && (s[2] == 'm' || s[2] == 'M') && (
    s[3] == 's' || s[3] == 'S' || s[3] == 'x' || s[3] == 'X')
}

/// Whether this JVM argument is a heap setting.
pub fn is_heap_jvm_argument(jvm_argument: &str) -> (r: bool)
    ensures
        r == spec_is_heap_arg(jvm_argument@),
{
    let len = jvm_argument.unicode_len();
    if len < 4 {
        return false;
    }
    let c0 = jvm_argument.get_char(0);
    let c1 = jvm_argument.get_char(1);
    let c2 = jvm_argument.get_char(2);
    let c3 = jvm_argument.get_char(3);
    c0 == '-' && (c1 == 'x' || c1 == 'X') && (c2 == 'm' || c2 == 'M') && (c3 == 's' || c3 == 'S'
        || c3 == 'x' || c3 == 'X')
}

/// The arguments that are not heap settings, in order.
pub open spec fn spec_non_heap(args: Seq<Seq<char>>) -> Seq<Seq<char>>
    decreases args.len(),
{
    if args.len() == 0 {
        Seq::empty()
    } else {
        spec_non_heap(args.drop_last()) + if spec_is_heap_arg(args.last()) {
            Seq::empty()
        } else {
            seq![args.last()]
        }
    }
}

/// The value of `HADOOP_OPTS`: all JVM arguments except the heap
/// settings, joined with single spaces.
pub fn construct_non_heap_jvm_args(
    hive: &HiveCluster,
    merged_config: &MetaStoreConfig,
    role: &Role,
    role_group: &str,
) -> (r: Result<String, Error>)
    ensures
        match r {
            Ok(s) => (spec_config_heap_mib(merged_config.deep_view()) matches Some(mib)
                && spec_jvm_args_pipeline(
                hive.spec_kerberos_secret_class() is Some,
                mib,
                role.config.jvm_argument_overrides.deep_view(),
                spec_group_overrides(*role, role_group@),
            ) matches Some(v) && s@ == spec_join(spec_non_heap(v), " "@)),
            Err(e) => match e {
                Error::MissingMemoryResourceConfig => merged_config.resources.memory_limit is None,
                Error::InvalidMemoryConfig => merged_config.resources.memory_limit is Some
                    && spec_config_heap_mib(merged_config.deep_view()) is None,
                Error::MergeJvmArgumentOverrides { pattern } => spec_config_heap_mib(
                    merged_config.deep_view(),
                ) matches Some(mib) && spec_jvm_args_pipeline(
                    hive.spec_kerberos_secret_class() is Some,
                    mib,
                    role.config.jvm_argument_overrides.deep_view(),
                    spec_group_overrides(*role, role_group@),
                ) is None,
            },
        },
{
    let all = construct_jvm_args(hive, merged_config, role, role_group)?;
    let mut kept: Vec<String> = Vec::new();
    let mut i: usize = 0;
    while i < all.len()
        invariant
            i <= all.len(),
            kept.deep_view() == spec_non_heap(all.deep_view().subrange(0, i as int)),
        decreases all.len() - i,
    {
        proof {
            let pre = all.deep_view().subrange(0, i as int);
            let cur = all.deep_view().subrange(0, i + 1 as int);
            assert(cur.drop_last() =~= pre);
            assert(cur.last() == all.deep_view()[i as int]);
        }
        if !is_heap_jvm_argument(all[i].as_str()) {
            let ghost prev = kept.deep_view();
            kept.push(all[i].clone());
            proof {
                assert(kept.deep_view() =~= prev.push(all.deep_view()[i as int]));
                assert(kept.deep_view() =~= spec_non_heap(
                    all.deep_view().subrange(0, i + 1 as int),
                ));
            }
        } else {
            proof {
                assert(kept.deep_view() =~= spec_non_heap(
                    all.deep_view().subrange(0, i + 1 as int),
                ));
            }
        }
        i = i + 1;
    }
    proof {
        assert(all.deep_view().subrange(0, all.deep_view().len() as int) =~= all.deep_view());
    }
    Ok(join_with(&kept, " "))
}

/// The value of `HADOOP_HEAPSIZE`: the heap size in whole mebibytes,
/// without a unit.
pub fn construct_hadoop_heapsize_env(merged_config: &MetaStoreConfig) -> (r: Result<String, Error>)
    ensures
        match r {
            Ok(s) => (spec_config_heap_mib(merged_config.deep_view()) matches Some(mib) && s@ == spec_dec(
                mib as nat,
            )),
            Err(e) => match e {
                Error::MissingMemoryResourceConfig => merged_config.resources.memory_limit is None,
                Error::InvalidMemoryConfig => merged_config.resources.memory_limit is Some
                    && spec_config_heap_mib(merged_config.deep_view()) is None,
                _ => false,
            },
        },
{
    let limit = match &merged_config.resources.memory_limit {
        Some(q) => q,
        None => {
            return Err(Error::MissingMemoryResourceConfig);
        },
    };
    let bytes = match parse_mem_bytes(limit.value.as_str()) {
        Some(b) => b,
        None => {
            return Err(Error::InvalidMemoryConfig);
        },
    };
    let mib = heap_mib(bytes);
    Ok(u64_to_dec_string(mib))
}

} // verus!
