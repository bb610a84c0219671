//! The kubeconfig model: the configuration's shape, path selection from the
//! environment's values, the merge of several configuration files, and
//! context switching.

use vstd::prelude::*;
use vstd::string::StrSliceExecFns;
use vstd::string::StringExecFns;

use crate::text::str_eq;

verus! {

/// A kubeconfig file's content.
#[derive(Debug, PartialEq, Eq)]
pub struct KubeConfig {
    pub current_context: String,
    pub contexts: Vec<ContextEntry>,
    pub clusters: Vec<ClusterEntry>,
    pub users: Vec<UserEntry>,
}

/// A named context.
#[derive(Debug, PartialEq, Eq)]
pub struct ContextEntry {
    pub name: String,
    pub context: Context,
}

/// What a context selects.
#[derive(Debug, PartialEq, Eq)]
pub struct Context {
    pub cluster: String,
    pub user: String,
    pub namespace: Option<String>,
}

/// A named cluster.
#[derive(Debug, PartialEq, Eq)]
pub struct ClusterEntry {
    pub name: String,
    pub cluster: Cluster,
}

/// A cluster's endpoint and certificate material.
#[derive(Debug, PartialEq, Eq)]
pub struct Cluster {
    pub server: String,
    pub certificate_authority_data: Option<String>,
    pub certificate_authority: Option<String>,
}

/// A named user.
#[derive(Debug, PartialEq, Eq)]
pub struct UserEntry {
    pub name: String,
    pub user: User,
}

/// A user's credential material.
#[derive(Debug, PartialEq, Eq)]
pub struct User {
    pub client_certificate_data: Option<String>,
    pub client_key_data: Option<String>,
    pub token: Option<String>,
    pub exec_config: Option<ExecConfig>,
}

/// An exec-based credential plugin.
#[derive(Debug, PartialEq, Eq)]
pub struct ExecConfig {
    pub api_version: String,
    pub command: String,
    pub args: Option<Vec<String>>,
    pub env: Option<Vec<EnvVar>>,
}

/// One environment variable of an exec plugin.
#[derive(Debug, PartialEq, Eq)]
pub struct EnvVar {
    pub name: String,
    pub value: String,
}

/// Whether some context of `s` carries the given name.
pub open spec fn has_context(s: Seq<ContextEntry>, name: Seq<char>) -> bool {
    exists|i: int| 0 <= i < s.len() && s[i].name@ == name
}

/// Whether some cluster of `s` carries the given name.
pub open spec fn has_cluster(s: Seq<ClusterEntry>, name: Seq<char>) -> bool {
    exists|i: int| 0 <= i < s.len() && s[i].name@ == name
}

/// Whether some user of `s` carries the given name.
pub open spec fn has_user(s: Seq<UserEntry>, name: Seq<char>) -> bool {
    exists|i: int| 0 <= i < s.len() && s[i].name@ == name
}

/// The context selected by the configuration's current-context name, when one
/// matches: the entry returned is a context of the configuration carrying
/// that name; `None` exactly when no context carries it.
pub fn get_current_context(config: &KubeConfig) -> (r: Option<&ContextEntry>)
    ensures
        match r {
            Some(c) => c.name@ == config.current_context@ && exists|i: int|
                0 <= i < config.contexts@.len() && config.contexts@[i] == *c,
            None => !has_context(config.contexts@, config.current_context@),
        },
{
    let n = config.contexts.len();
    let mut i: usize = 0;
    while i < n
        invariant
            i <= n,
            n == config.contexts@.len(),
            forall|j: int| 0 <= j < i ==> config.contexts@[j].name@ != config.current_context@,
        decreases n - i,
    {
        if str_eq(config.contexts[i].name.as_str(), config.current_context.as_str()) {
            return Some(&config.contexts[i]);
        }
        i = i + 1;
    }
    None
}

/// The cluster of the configuration carrying the given name; `None` exactly
/// when no cluster carries it.
pub fn get_cluster_by_name<'a>(config: &'a KubeConfig, name: &str) -> (r: Option<&'a ClusterEntry>)
    ensures
        match r {
            Some(c) => c.name@ == name@ && exists|i: int|
                0 <= i < config.clusters@.len() && config.clusters@[i] == *c,
            None => !has_cluster(config.clusters@, name@),
        },
{
    let n = config.clusters.len();
    let mut i: usize = 0;
    while i < n
        invariant
            i <= n,
            n == config.clusters@.len(),
            forall|j: int| 0 <= j < i ==> config.clusters@[j].name@ != name@,
        decreases n - i,
    {
        if str_eq(config.clusters[i].name.as_str(), name) {
            return Some(&config.clusters[i]);
        }
        i = i + 1;
    }
    None
}

/// The colon-separated nonempty segments of `s`, in order.
pub open spec fn colon_segments(s: Seq<char>) -> Seq<Seq<char>>
    decreases s.len(),
    via colon_segments_decreases
{
    if s.len() == 0 {
        Seq::empty()
    } else {
        let cut = first_colon(s);
        if cut < 0 {
            seq![s]
        } else {
            let head = s.take(cut);
            let rest = colon_segments(s.skip(cut + 1));
            if head.len() == 0 {
                rest
            } else {
                seq![head] + rest
            }
        }
    }
}

/// The index of the first colon of `s`, or a negative value when there is
/// none.
pub open spec fn first_colon(s: Seq<char>) -> int
    decreases s.len(),
{
    if s.len() == 0 {
        -1
    } else if s[0] == ':' {
        0
    } else {
        let r = first_colon(s.skip(1));
        if r < 0 {
            -1
        } else {
            r + 1
        }
    }
}

#[via_fn]
proof fn colon_segments_decreases(s: Seq<char>) {
    lemma_first_colon_range(s);
}

proof fn lemma_first_colon_range(s: Seq<char>)
    ensures
        first_colon(s) < s.len(),
        first_colon(s) >= 0 ==> s[first_colon(s)] == ':',
        first_colon(s) >= -1,
    decreases s.len(),
{
    if s.len() > 0 && s[0] != ':' {
        lemma_first_colon_range(s.skip(1));
    }
}

fn find_colon_from(s: &str, from: usize) -> (r: Option<usize>)
    requires
        from <= s@.len(),
    ensures
        match r {
            Some(i) => from <= i && i - from == first_colon(s@.skip(from as int)) && i < s@.len(),
            None => first_colon(s@.skip(from as int)) < 0,
        },
    decreases s@.len() - from,
{
    let n = s.unicode_len();
    if from >= n {
        proof {
            assert(s@.skip(from as int).len() == 0);
        }
        return None;
    }
    proof {
        assert(s@.skip(from as int)[0] == s@[from as int]);
    }
    if s.get_char(from) == ':' {
        return Some(from);
    }
    let r = find_colon_from(s, from + 1);
    proof {
        assert(s@.skip(from as int).skip(1) =~= s@.skip(from + 1));
    }
    match r {
        Some(i) => Some(i),
        None => None,
    }
}

fn split_colon_segments(s: &str) -> (r: Vec<String>)
    ensures
        Seq::new(r@.len(), |i: int| r@[i]@) =~= colon_segments(s@),
    decreases s@.len(),
{
    let mut out: Vec<String> = Vec::new();
    split_colon_into(s, 0, &mut out);
    proof {
        assert(s@.skip(0) =~= s@);
    }
    out
}

fn split_colon_into(s: &str, from: usize, out: &mut Vec<String>)
    requires
        from <= s@.len(),
    ensures
        Seq::new(final(out)@.len(), |i: int| final(out)@[i]@) =~= Seq::new(
            old(out)@.len(),
            |i: int| old(out)@[i]@,
        ) + colon_segments(s@.skip(from as int)),
    decreases s@.len() - from,
{
    let n = s.unicode_len();
    let ghost suffix = s@.skip(from as int);
    if from >= n {
        proof {
            assert(suffix.len() == 0);
            assert(Seq::new(out@.len(), |i: int| out@[i]@) =~= Seq::new(
                out@.len(),
                |i: int| out@[i]@,
            ) + colon_segments(suffix));
        }
        return ;
    }
    match find_colon_from(s, from) {
        None => {
            let piece = s.substring_char(from, n);
            proof {
                assert(piece@ =~= suffix);
                assert(suffix.len() > 0);
            }
            out.push(piece.to_owned());
            proof {
                assert(colon_segments(suffix) =~= seq![suffix]);
                assert(Seq::new(out@.len(), |i: int| out@[i]@) =~= Seq::new(
                    old(out)@.len(),
                    |i: int| old(out)@[i]@,
                ) + colon_segments(suffix));
            }
        },
        Some(cut) => {
            proof {
                lemma_first_colon_range(suffix);
                assert(suffix.take(cut - from) =~= s@.subrange(from as int, cut as int));
                assert(suffix.skip(cut - from + 1) =~= s@.skip(cut + 1));
            }
            if cut > from {
                let piece = s.substring_char(from, cut);
                proof {
                    assert(piece@ =~= suffix.take(cut - from));
                    assert(piece@.len() > 0);
                }
                out.push(piece.to_owned());
            }
            let ghost mid = out@;
            split_colon_into(s, cut + 1, out);
            proof {
                if cut > from {
                    assert(colon_segments(suffix) =~= seq![suffix.take(cut - from)]
                        + colon_segments(suffix.skip(cut - from + 1)));
                    assert(Seq::new(mid.len(), |i: int| mid[i]@) =~= Seq::new(
                        old(out)@.len(),
                        |i: int| old(out)@[i]@,
                    ) + seq![suffix.take(cut - from)]);
                } else {
                    assert(suffix.take(0).len() == 0);
                    assert(colon_segments(suffix) =~= colon_segments(suffix.skip(cut - from + 1)));
                }
                assert(Seq::new(out@.len(), |i: int| out@[i]@) =~= Seq::new(
                    old(out)@.len(),
                    |i: int| old(out)@[i]@,
                ) + colon_segments(suffix));
            }
        },
    }
}

/// The kubeconfig files consulted, given what the environment holds: the
/// nonempty entries of the path-list variable when it has any, else
/// `{home}/.kube/config`, else nothing — the colon being the path-list
/// separator of Unix-likes.
pub open spec fn kubeconfig_paths_spec(kubeconfig: Option<Seq<char>>, home: Option<Seq<char>>) -> Option<
    Seq<Seq<char>>,
> {
    let from_var = match kubeconfig {
        Some(v) => colon_segments(v),
        None => Seq::empty(),
    };
    if from_var.len() > 0 {
        Some(from_var)
    } else {
        match home {
            Some(h) => Some(seq![h + "/.kube/config"@]),
            None => None,
        }
    }
}

/// The kubeconfig paths to consult, from the values of the `KUBECONFIG` and
/// home-directory environment variables, which the caller reads. Fails
/// exactly when neither yields a path.
pub fn get_kubeconfig_paths(kubeconfig: Option<&str>, home: Option<&str>) -> (r: Result<
    Vec<String>,
    String,
>)
    ensures
        ({
            let kv = match kubeconfig {
                Some(v) => Some(v@),
                None => None,
            };
            let hv = match home {
                Some(h) => Some(h@),
                None => None,
            };
            match r {
                Ok(paths) => kubeconfig_paths_spec(kv, hv) == Some(
                    Seq::new(paths@.len(), |i: int| paths@[i]@),
                ) && paths@.len() > 0,
                Err(_) => kubeconfig_paths_spec(kv, hv) is None,
            }
        }),
{
    if let Some(v) = kubeconfig {
        let segments = split_colon_segments(v);
        if segments.len() > 0 {
            return Ok(segments);
        }
    }
    match home {
        Some(h) => {
            let mut path = h.to_owned();
            path.append("/.kube/config");
            let mut paths: Vec<String> = Vec::new();
            paths.push(path);
            proof {
                assert(Seq::new(paths@.len(), |i: int| paths@[i]@) =~= seq![h@ + "/.kube/config"@]);
            }
            Ok(paths)
        },
        None => Err("Could not determine home directory".to_owned()),
    }
}

/// The first kubeconfig path to consult; fails exactly when there is none.
pub fn get_kubeconfig_path(kubeconfig: Option<&str>, home: Option<&str>) -> (r: Result<
    String,
    String,
>)
    ensures
        ({
            let kv = match kubeconfig {
                Some(v) => Some(v@),
                None => None,
            };
            let hv = match home {
                Some(h) => Some(h@),
                None => None,
            };
            match r {
                Ok(path) => match kubeconfig_paths_spec(kv, hv) {
                    Some(paths) => paths.len() > 0 && path@ == paths[0],
                    None => false,
                },
                Err(_) => kubeconfig_paths_spec(kv, hv) is None,
            }
        }),
{
    match get_kubeconfig_paths(kubeconfig, home) {
        Ok(mut paths) => {
            let first = paths.remove(0);
            Ok(first)
        },
        Err(e) => Err(e),
    }
}

/// `acc` extended with those entries of `more` whose names it does not hold
/// yet, in order.
pub open spec fn merge_contexts(acc: Seq<ContextEntry>, more: Seq<ContextEntry>) -> Seq<
    ContextEntry,
>
    decreases more.len(),
{
    if more.len() == 0 {
        acc
    } else {
        let acc2 = if has_context(acc, more[0].name@) {
            acc
        } else {
            acc.push(more[0])
        };
        merge_contexts(acc2, more.skip(1))
    }
}

/// `acc` extended with those clusters of `more` whose names it does not hold
/// yet, in order.
pub open spec fn merge_clusters(acc: Seq<ClusterEntry>, more: Seq<ClusterEntry>) -> Seq<
    ClusterEntry,
>
    decreases more.len(),
{
    if more.len() == 0 {
        acc
    } else {
        let acc2 = if has_cluster(acc, more[0].name@) {
            acc
        } else {
            acc.push(more[0])
        };
        merge_clusters(acc2, more.skip(1))
    }
}

/// `acc` extended with those users of `more` whose names it does not hold
/// yet, in order.
pub open spec fn merge_users(acc: Seq<UserEntry>, more: Seq<UserEntry>) -> Seq<UserEntry>
    decreases more.len(),
{
    if more.len() == 0 {
        acc
    } else {
        let acc2 = if has_user(acc, more[0].name@) {
            acc
        } else {
            acc.push(more[0])
        };
        merge_users(acc2, more.skip(1))
    }
}

fn extend_contexts(acc: &mut Vec<ContextEntry>, mut more: Vec<ContextEntry>)
    ensures
        final(acc)@ =~= merge_contexts(old(acc)@, more@),
{
    let ghost orig = more@;
    while more.len() > 0
        invariant
            merge_contexts(acc@, more@) == merge_contexts(old(acc)@, orig),
        decreases more@.len(),
    {
        let ghost pre_more = more@;
        let entry = more.remove(0);
        proof {
            assert(more@ =~= pre_more.skip(1));
        }
        let mut found = false;
        let n = acc.len();
        let mut j: usize = 0;
        while j < n
            invariant
                j <= n,
                n == acc@.len(),
                found <==> exists|k: int| 0 <= k < j && acc@[k].name@ == entry.name@,
            decreases n - j,
        {
            if str_eq(acc[j].name.as_str(), entry.name.as_str()) {
                found = true;
                proof {
                    assert(acc@[j as int].name@ == entry.name@);
                }
            }
            j = j + 1;
        }
        proof {
            assert(found == has_context(acc@, entry.name@));
        }
        if !found {
            acc.push(entry);
        }
    }
}

fn extend_clusters(acc: &mut Vec<ClusterEntry>, mut more: Vec<ClusterEntry>)
    ensures
        final(acc)@ =~= merge_clusters(old(acc)@, more@),
{
    let ghost orig = more@;
    while more.len() > 0
        invariant
            merge_clusters(acc@, more@) == merge_clusters(old(acc)@, orig),
        decreases more@.len(),
    {
        let ghost pre_more = more@;
        let entry = more.remove(0);
        proof {
            assert(more@ =~= pre_more.skip(1));
        }
        let mut found = false;
        let n = acc.len();
        let mut j: usize = 0;
        while j < n
            invariant
                j <= n,
                n == acc@.len(),
                found <==> exists|k: int| 0 <= k < j && acc@[k].name@ == entry.name@,
            decreases n - j,
        {
            if str_eq(acc[j].name.as_str(), entry.name.as_str()) {
                found = true;
                proof {
                    assert(acc@[j as int].name@ == entry.name@);
                }
            }
            j = j + 1;
        }
        proof {
            assert(found == has_cluster(acc@, entry.name@));
        }
        if !found {
            acc.push(entry);
        }
    }
}

fn extend_users(acc: &mut Vec<UserEntry>, mut more: Vec<UserEntry>)
    ensures
        final(acc)@ =~= merge_users(old(acc)@, more@),
{
    let ghost orig = more@;
    while more.len() > 0
        invariant
            merge_users(acc@, more@) == merge_users(old(acc)@, orig),
        decreases more@.len(),
    {
        let ghost pre_more = more@;
        let entry = more.remove(0);
        proof {
            assert(more@ =~= pre_more.skip(1));
        }
        let mut found = false;
        let n = acc.len();
        let mut j: usize = 0;
        while j < n
            invariant
                j <= n,
                n == acc@.len(),
                found <==> exists|k: int| 0 <= k < j && acc@[k].name@ == entry.name@,
            decreases n - j,
        {
            if str_eq(acc[j].name.as_str(), entry.name.as_str()) {
                found = true;
                proof {
                    assert(acc@[j as int].name@ == entry.name@);
                }
            }
            j = j + 1;
        }
        proof {
            assert(found == has_user(acc@, entry.name@));
        }
        if !found {
            acc.push(entry);
        }
    }
}

/// The contexts of the merge of the given configurations: each file's
/// contexts in order, a later duplicate name never displacing an earlier
/// entry.
pub open spec fn merged_contexts(acc: Seq<ContextEntry>, configs: Seq<KubeConfig>) -> Seq<
    ContextEntry,
>
    decreases configs.len(),
{
    if configs.len() == 0 {
        acc
    } else {
        merged_contexts(merge_contexts(acc, configs[0].contexts@), configs.skip(1))
    }
}

/// The clusters of the merge, likewise.
pub open spec fn merged_clusters(acc: Seq<ClusterEntry>, configs: Seq<KubeConfig>) -> Seq<
    ClusterEntry,
>
    decreases configs.len(),
{
    if configs.len() == 0 {
        acc
    } else {
        merged_clusters(merge_clusters(acc, configs[0].clusters@), configs.skip(1))
    }
}

/// The users of the merge, likewise.
pub open spec fn merged_users(acc: Seq<UserEntry>, configs: Seq<KubeConfig>) -> Seq<UserEntry>
    decreases configs.len(),
{
    if configs.len() == 0 {
        acc
    } else {
        merged_users(merge_users(acc, configs[0].users@), configs.skip(1))
    }
}

/// Merges the loaded kubeconfig files the way kubectl does: contexts,
/// clusters and users are concatenated with earlier names winning over later
/// duplicates, and the current context is the first file's. Fails exactly
/// when no file was loaded.
pub fn merge_kubeconfigs(mut configs: Vec<KubeConfig>) -> (r: Result<KubeConfig, String>)
    ensures
        match r {
            Ok(merged) => {
                &&& configs@.len() > 0
                &&& merged.current_context@ == configs@[0].current_context@
                &&& merged.contexts@ =~= merged_contexts(Seq::empty(), configs@)
                &&& merged.clusters@ =~= merged_clusters(Seq::empty(), configs@)
                &&& merged.users@ =~= merged_users(Seq::empty(), configs@)
            },
            Err(_) => configs@.len() == 0,
        },
{
    let ghost orig = configs@;
    if configs.len() == 0 {
        return Err("No valid kubeconfig files found".to_owned());
    }
    let first = configs.remove(0);
    proof {
        assert(configs@ =~= orig.skip(1));
    }
    let current_context = first.current_context;
    let mut contexts: Vec<ContextEntry> = Vec::new();
    let mut clusters: Vec<ClusterEntry> = Vec::new();
    let mut users: Vec<UserEntry> = Vec::new();
    extend_contexts(&mut contexts, first.contexts);
    extend_clusters(&mut clusters, first.clusters);
    extend_users(&mut users, first.users);
    proof {
        assert(contexts@ =~= merge_contexts(Seq::empty(), orig[0].contexts@));
        assert(clusters@ =~= merge_clusters(Seq::empty(), orig[0].clusters@));
        assert(users@ =~= merge_users(Seq::empty(), orig[0].users@));
    }
    while configs.len() > 0
        invariant
            merged_contexts(contexts@, configs@) == merged_contexts(Seq::empty(), orig),
            merged_clusters(clusters@, configs@) == merged_clusters(Seq::empty(), orig),
            merged_users(users@, configs@) == merged_users(Seq::empty(), orig),
        decreases configs@.len(),
    {
        let ghost pre = configs@;
        let config = configs.remove(0);
        proof {
            assert(configs@ =~= pre.skip(1));
        }
        extend_contexts(&mut contexts, config.contexts);
        extend_clusters(&mut clusters, config.clusters);
        extend_users(&mut users, config.users);
    }
    Ok(KubeConfig { current_context, contexts, clusters, users })
}

/// The first file's configuration with its current context switched to the
/// named one, after checking the name against the merged view of all files;
/// refused exactly when no context of the merged view carries the name.
pub fn apply_context_switch(
    first_config: KubeConfig,
    merged: &KubeConfig,
    context_name: &str,
) -> (r: Result<KubeConfig, String>)
    ensures
        match r {
            Ok(c) => {
                &&& has_context(merged.contexts@, context_name@)
                &&& c.current_context@ == context_name@
                &&& c.contexts@ == first_config.contexts@
                &&& c.clusters@ == first_config.clusters@
                &&& c.users@ == first_config.users@
            },
            Err(_) => !has_context(merged.contexts@, context_name@),
        },
{
    let n = merged.contexts.len();
    let mut i: usize = 0;
    let mut found = false;
    while i < n
        invariant
            i <= n,
            n == merged.contexts@.len(),
            found <==> exists|k: int| 0 <= k < i && merged.contexts@[k].name@ == context_name@,
        decreases n - i,
    {
        if str_eq(merged.contexts[i].name.as_str(), context_name) {
            found = true;
            proof {
                assert(merged.contexts@[i as int].name@ == context_name@);
            }
        }
        i = i + 1;
    }
    if !found {
        return Err("Context not found in kubeconfig".to_owned());
    }
    Ok(
        KubeConfig {
            current_context: context_name.to_owned(),
            contexts: first_config.contexts,
            clusters: first_config.clusters,
            users: first_config.users,
        },
    )
}

} // verus!
