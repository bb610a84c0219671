//! The port-forward registry: supervises one forwarding subprocess per
//! logical session, keyed by an id derived deterministically from the
//! forwarded tuple, with idempotent start/stop and liveness pruning.

use vstd::prelude::*;
use vstd::string::StringExecFns;

use crate::errors::PortForwardError;
use crate::text::{append_dec, dec_of, str_eq};
use crate::types::{PortForwardInfo, PortForwardInfoV};

verus! {

/// The id of a forward for the given tuple: the resource type, namespace and
/// resource name joined with `-`, followed by the local port in decimal.
pub open spec fn forward_id_spec(
    resource_type: Seq<char>,
    namespace: Seq<char>,
    resource_name: Seq<char>,
    local_port: u16,
) -> Seq<char> {
    resource_type + seq!['-'] + namespace + seq!['-'] + resource_name + seq!['-'] + dec_of(
        local_port as nat,
    )
}

/// Derives the deterministic session id of a forward: the same tuple always
/// yields the same id.
pub fn derive_forward_id(
    resource_type: &str,
    resource_name: &str,
    namespace: &str,
    local_port: u16,
) -> (id: String)
    ensures
        id@ == forward_id_spec(resource_type@, namespace@, resource_name@, local_port),
{
    let mut id = resource_type.to_owned();
    proof {
        reveal_strlit("-");
        assert("-"@ =~= seq!['-']);
    }
    id.append("-");
    id.append(namespace);
    id.append("-");
    id.append(resource_name);
    id.append("-");
    append_dec(local_port as u64, &mut id);
    proof {
        assert(id@ =~= forward_id_spec(resource_type@, namespace@, resource_name@, local_port));
    }
    id
}

/// The views of a sequence of descriptors.
pub open spec fn info_views(s: Seq<PortForwardInfo>) -> Seq<PortForwardInfoV> {
    Seq::new(s.len(), |i: int| s[i]@)
}

/// Whether some entry of `s` carries the given id.
pub open spec fn has_id(s: Seq<PortForwardInfoV>, id: Seq<char>) -> bool {
    exists|i: int| 0 <= i < s.len() && s[i].id == id
}

/// Whether the ids of `s` are pairwise distinct.
pub open spec fn ids_distinct(s: Seq<PortForwardInfoV>) -> bool {
    forall|i: int, j: int| 0 <= i < j < s.len() ==> s[i].id != s[j].id
}

/// How many entries of `s` carry the given id.
pub open spec fn count_id(s: Seq<PortForwardInfoV>, id: Seq<char>) -> nat
    decreases s.len(),
{
    if s.len() == 0 {
        0
    } else {
        count_id(s.drop_last(), id) + (if s.last().id == id {
            1nat
        } else {
            0nat
        })
    }
}

/// The index of the entry of `s` carrying the given id.
pub open spec fn index_of_id(s: Seq<PortForwardInfoV>, id: Seq<char>) -> int {
    choose|i: int| 0 <= i < s.len() && s[i].id == id
}

/// `s` with the entry carrying the given id removed, when one is there.
pub open spec fn without_id(s: Seq<PortForwardInfoV>, id: Seq<char>) -> Seq<PortForwardInfoV> {
    if has_id(s, id) {
        s.remove(index_of_id(s, id))
    } else {
        s
    }
}

/// Law: stopping a forward leaves no entry with its id behind (ids being
/// pairwise distinct).
pub proof fn lemma_removed_id_gone(s: Seq<PortForwardInfoV>, id: Seq<char>)
    requires
        ids_distinct(s),
    ensures
        !has_id(without_id(s, id), id),
        ids_distinct(without_id(s, id)),
{
    if has_id(s, id) {
        let k = index_of_id(s, id);
        assert(0 <= k < s.len() && s[k].id == id);
        let t = s.remove(k);
        assert forall|j: int| 0 <= j < t.len() implies t[j].id != id by {
            if j < k {
                assert(t[j] == s[j]);
            } else {
                assert(t[j] == s[j + 1]);
            }
        }
        assert forall|i: int, j: int| 0 <= i < j < t.len() implies t[i].id != t[j].id by {
            let si = if i < k {
                i
            } else {
                i + 1
            };
            let sj = if j < k {
                j
            } else {
                j + 1
            };
            assert(t[i] == s[si] && t[j] == s[sj]);
        }
    }
}

/// The entries of `s` selected by the flags of `m`.
pub open spec fn mask<A>(s: Seq<A>, m: Seq<bool>) -> Seq<A>
    recommends
        s.len() == m.len(),
    decreases s.len(),
{
    if s.len() == 0 {
        Seq::empty()
    } else {
        mask(s.drop_last(), m.drop_last()) + (if m.last() {
            seq![s.last()]
        } else {
            Seq::empty()
        })
    }
}

proof fn lemma_count_zero(s: Seq<PortForwardInfoV>, id: Seq<char>)
    requires
        !has_id(s, id),
    ensures
        count_id(s, id) == 0,
    decreases s.len(),
{
    if s.len() > 0 {
        assert(!has_id(s.drop_last(), id));
        lemma_count_zero(s.drop_last(), id);
    }
}

/// Law: the session id is a function of the tuple alone, so once a forward for
/// a tuple is registered, a second start of the same tuple finds its id present
/// (and is therefore refused by `start_port_forward`), while exactly one entry
/// with that id stays in the registry.
pub proof fn lemma_start_idempotent(pre: Seq<PortForwardInfoV>, info: PortForwardInfoV)
    requires
        ids_distinct(pre),
        !has_id(pre, info.id),
    ensures
        has_id(pre.push(info), info.id),
        ids_distinct(pre.push(info)),
        count_id(pre.push(info), info.id) == 1,
{
    let post = pre.push(info);
    assert(post[post.len() - 1].id == info.id);
    assert(post.drop_last() =~= pre);
    lemma_count_zero(pre, info.id);
}

/// Whether `x` stands at some index of `s` whose flag in `m` is set.
spec fn mask_sourced<A>(s: Seq<A>, m: Seq<bool>, x: A) -> bool {
    exists|j: int| 0 <= j < s.len() && #[trigger] m[j] && x == s[j]
}

proof fn lemma_mask_elements<A>(s: Seq<A>, m: Seq<bool>)
    requires
        s.len() == m.len(),
    ensures
        forall|k: int|
            0 <= k < mask(s, m).len() ==> mask_sourced(s, m, #[trigger] mask(s, m)[k]),
    decreases s.len(),
{
    if s.len() == 0 {
        assert(mask(s, m) =~= Seq::<A>::empty());
    } else {
        lemma_mask_elements(s.drop_last(), m.drop_last());
        let sd = s.drop_last();
        let md = m.drop_last();
        let prefix = mask(sd, md);
        assert forall|k: int| 0 <= k < mask(s, m).len() implies mask_sourced(
            s,
            m,
            #[trigger] mask(s, m)[k],
        ) by {
            if k < prefix.len() {
                assert(mask(sd, md)[k] == prefix[k]);
                assert(mask_sourced(sd, md, prefix[k]));
                let j = choose|j: int| 0 <= j < sd.len() && #[trigger] md[j] && prefix[k] == sd[j];
                assert(m[j] && mask(s, m)[k] == s[j]);
            } else {
                assert(m.last());
                assert(mask(s, m)[k] == s.last());
                assert(m[s.len() - 1] && mask(s, m)[k] == s[s.len() - 1]);
            }
        }
    }
}

/// Law: pruning is sound. If entry `i` was reported dead, no entry of the
/// pruned registry carries its id (ids being pairwise distinct).
pub proof fn lemma_pruned_id_gone(s: Seq<PortForwardInfoV>, m: Seq<bool>, i: int)
    requires
        s.len() == m.len(),
        ids_distinct(s),
        0 <= i < s.len(),
        !m[i],
    ensures
        !has_id(mask(s, m), s[i].id),
{
    lemma_mask_elements(s, m);
    assert forall|k: int| 0 <= k < mask(s, m).len() implies mask(s, m)[k].id != s[i].id by {
        assert(mask_sourced(s, m, mask(s, m)[k]));
        let j = choose|j: int| 0 <= j < s.len() && #[trigger] m[j] && mask(s, m)[k] == s[j];
        assert(j != i);
        if j < i {
            assert(s[j].id != s[i].id);
        } else {
            assert(s[i].id != s[j].id);
        }
    }
}

proof fn lemma_mask_distinct(s: Seq<PortForwardInfoV>, m: Seq<bool>)
    requires
        s.len() == m.len(),
        ids_distinct(s),
    ensures
        ids_distinct(mask(s, m)),
    decreases s.len(),
{
    if s.len() > 0 {
        assert(ids_distinct(s.drop_last()));
        lemma_mask_distinct(s.drop_last(), m.drop_last());
        let prefix = mask(s.drop_last(), m.drop_last());
        lemma_mask_elements(s.drop_last(), m.drop_last());
        if m.last() {
            assert forall|i: int, j: int|
                0 <= i < j < mask(s, m).len() implies mask(s, m)[i].id != mask(s, m)[j].id by {
                if j < prefix.len() {
                    assert(mask(s, m)[i] == prefix[i] && mask(s, m)[j] == prefix[j]);
                } else {
                    assert(mask(s, m)[j] == s.last());
                    assert(mask(s, m)[i] == prefix[i]);
                    assert(mask(s.drop_last(), m.drop_last())[i] == prefix[i]);
                    assert(mask_sourced(s.drop_last(), m.drop_last(), prefix[i]));
                    let k = choose|k: int|
                        0 <= k < s.drop_last().len() && #[trigger] m.drop_last()[k] && prefix[i]
                            == s.drop_last()[k];
                    assert(s[k].id != s[s.len() - 1].id);
                }
            }
        }
    }
}

proof fn lemma_mask_take_step<A>(s: Seq<A>, m: Seq<bool>, i: int)
    requires
        s.len() == m.len(),
        0 <= i < s.len(),
    ensures
        mask(s.take(i + 1), m.take(i + 1)) =~= mask(s.take(i), m.take(i)) + (if m[i] {
            seq![s[i]]
        } else {
            Seq::<A>::empty()
        }),
{
    let st = s.take(i + 1);
    let mt = m.take(i + 1);
    assert(st.drop_last() =~= s.take(i));
    assert(mt.drop_last() =~= m.take(i));
    assert(st.last() == s[i]);
    assert(mt.last() == m[i]);
}

/// One registered forward: its descriptor and the supervised subprocess.
/// The subprocess handle is owned by exactly one entry and never shared.
struct PortForwardHandle {
    info: PortForwardInfo,
    process: tokio::process::Child,
}

spec fn handle_infos(s: Seq<PortForwardHandle>) -> Seq<PortForwardInfoV> {
    Seq::new(s.len(), |i: int| s[i].info@)
}

#[verifier::external_type_specification]
#[verifier::external_body]
pub struct ExChild(tokio::process::Child);

/// Relies on `tokio::process::Command`: spawns
/// `<command> port-forward -n <namespace> <resource_type>/<resource_name>
/// <local_port>:<remote_port>`, with the kill-on-drop guard set so a dropped
/// handle cannot leak the subprocess; returns `Ok` exactly when the
/// subprocess was spawned. The caller must be within a tokio runtime
/// context, as for every spawn of that crate.
#[verifier::external_body]
fn spawn_forward_process(
    command: &str,
    resource_type: &str,
    resource_name: &str,
    namespace: &str,
    local_port: u16,
    remote_port: u16,
) -> (r: Result<tokio::process::Child, String>) {
    tokio::process::Command::new(command)
        .arg("port-forward")
        .arg("-n")
        .arg(namespace)
        .arg(format!("{}/{}", resource_type, resource_name))
        .arg(format!("{}:{}", local_port, remote_port))
        .kill_on_drop(true)
        .spawn()
        .map_err(|e| format!("Failed to start {} port-forward: {}", command, e))
}

/// Relies on `tokio::process::Child::start_kill`: delivers the kill signal
/// without waiting for the exit.
#[verifier::external_body]
fn signal_kill(child: &mut tokio::process::Child) -> (r: Result<(), String>) {
    child.start_kill().map_err(|e| format!("Failed to kill port-forward process: {}", e))
}

/// Relies on `tokio::process::Child::try_wait`: returns `Ok(true)` when the
/// subprocess has exited, `Ok(false)` when it is still running, without
/// blocking either way.
#[verifier::external_body]
fn poll_exited(child: &mut tokio::process::Child) -> (r: Result<bool, String>) {
    match child.try_wait() {
        Ok(Some(_)) => Ok(true),
        Ok(None) => Ok(false),
        Err(e) => Err(format!("Failed to poll port-forward process: {}", e)),
    }
}

/// The registry of active forwarding subprocesses. It owns every subprocess
/// handle; entries enter only through `start_port_forward` and leave only
/// through `stop_port_forward`, the liveness sweep of `list_port_forwards`,
/// and `stop_all`.
pub struct PortForwardManager {
    command: String,
    forwards: Vec<PortForwardHandle>,
}

impl PortForwardManager {
    /// The descriptors of the registered forwards, in registration order.
    pub closed spec fn infos(&self) -> Seq<PortForwardInfoV> {
        handle_infos(self.forwards@)
    }

    /// The forwarding command this registry spawns.
    pub closed spec fn command_spec(&self) -> Seq<char> {
        self.command@
    }

    /// Whether a forward with the given id is registered.
    pub open spec fn contains_id(&self, id: Seq<char>) -> bool {
        has_id(self.infos(), id)
    }

    /// Well-formed: registered ids are pairwise distinct, so an id denotes at
    /// most one subprocess.
    pub open spec fn wf(&self) -> bool {
        ids_distinct(self.infos())
    }

    /// An empty registry that forwards through `kubectl`.
    pub fn new() -> (r: Self)
        ensures
            r.wf(),
            r.infos() =~= Seq::<PortForwardInfoV>::empty(),
            r.command_spec() == "kubectl"@,
    {
        PortForwardManager { command: "kubectl".to_owned(), forwards: Vec::new() }
    }

    /// An empty registry that forwards through the given command.
    pub fn with_command(command: String) -> (r: Self)
        ensures
            r.wf(),
            r.infos() =~= Seq::<PortForwardInfoV>::empty(),
            r.command_spec() == command@,
    {
        PortForwardManager { command, forwards: Vec::new() }
    }

    fn position_of(&self, id: &str) -> (r: Option<usize>)
        ensures
            match r {
                Some(i) => i < self.infos().len() && self.infos()[i as int].id == id@,
                None => !self.contains_id(id@),
            },
    {
        let n = self.forwards.len();
        let mut i: usize = 0;
        while i < n
            invariant
                i <= n,
                n == self.infos().len(),
                forall|j: int| 0 <= j < i ==> self.infos()[j].id != id@,
            decreases n - i,
        {
            if str_eq(self.forwards[i].info.id.as_str(), id) {
                return Some(i);
            }
            i = i + 1;
        }
        None
    }

    /// Starts a forward for the given tuple. Refused with `AlreadyExists`
    /// when a forward with the derived id is registered; otherwise the
    /// subprocess is spawned, and exactly on a successful spawn the registry
    /// gains the one new entry, whose descriptor is returned with status
    /// `running`. No partial entry is ever registered.
    pub fn start_port_forward(
        &mut self,
        resource_type: &str,
        resource_name: &str,
        namespace: &str,
        local_port: u16,
        remote_port: u16,
    ) -> (r: Result<PortForwardInfo, PortForwardError>)
        requires
            old(self).wf(),
        ensures
            final(self).wf(),
            final(self).command_spec() == old(self).command_spec(),
            match r {
                Ok(info) => {
                    &&& !old(self).contains_id(
                        forward_id_spec(resource_type@, namespace@, resource_name@, local_port),
                    )
                    &&& info@.id == forward_id_spec(
                        resource_type@,
                        namespace@,
                        resource_name@,
                        local_port,
                    )
                    &&& info@.resource_type == resource_type@
                    &&& info@.resource_name == resource_name@
                    &&& info@.namespace == namespace@
                    &&& info@.local_port == local_port
                    &&& info@.remote_port == remote_port
                    &&& info@.status == "running"@
                    &&& final(self).infos() =~= old(self).infos().push(info@)
                },
                Err(PortForwardError::AlreadyExists) => {
                    &&& old(self).contains_id(
                        forward_id_spec(resource_type@, namespace@, resource_name@, local_port),
                    )
                    &&& final(self).infos() == old(self).infos()
                },
                Err(PortForwardError::Spawn(_)) => {
                    &&& !old(self).contains_id(
                        forward_id_spec(resource_type@, namespace@, resource_name@, local_port),
                    )
                    &&& final(self).infos() == old(self).infos()
                },
                Err(_) => false,
            },
    {
        let id = derive_forward_id(resource_type, resource_name, namespace, local_port);
        if let Some(_) = self.position_of(id.as_str()) {
            return Err(PortForwardError::AlreadyExists);
        }
        match spawn_forward_process(
            &self.command,
            resource_type,
            resource_name,
            namespace,
            local_port,
            remote_port,
        ) {
            Err(e) => Err(PortForwardError::Spawn(e)),
            Ok(child) => {
                let info = PortForwardInfo {
                    id,
                    resource_type: resource_type.to_owned(),
                    resource_name: resource_name.to_owned(),
                    namespace: namespace.to_owned(),
                    local_port,
                    remote_port,
                    status: "running".to_owned(),
                };
                let ret = info.clone();
                self.forwards.push(PortForwardHandle { info, process: child });
                proof {
                    assert(final(self).infos() =~= old(self).infos().push(ret@));
                }
                Ok(ret)
            },
        }
    }

    /// Stops the forward with the given id: refused with `NotFound` when no
    /// such forward is registered; otherwise the entry is removed
    /// unconditionally and the kill signal is sent, whose failure alone is
    /// reported as `Kill`.
    pub fn stop_port_forward(&mut self, id: &str) -> (r: Result<(), PortForwardError>)
        requires
            old(self).wf(),
        ensures
            final(self).wf(),
            final(self).command_spec() == old(self).command_spec(),
            match r {
                Ok(()) | Err(PortForwardError::Kill(_)) => {
                    &&& old(self).contains_id(id@)
                    &&& final(self).infos() =~= without_id(old(self).infos(), id@)
                    &&& !final(self).contains_id(id@)
                },
                Err(PortForwardError::NotFound) => {
                    &&& !old(self).contains_id(id@)
                    &&& final(self).infos() == old(self).infos()
                },
                Err(_) => false,
            },
    {
        match self.position_of(id) {
            None => Err(PortForwardError::NotFound),
            Some(i) => {
                proof {
                    assert(old(self).contains_id(id@));
                    let k = index_of_id(old(self).infos(), id@);
                    assert(0 <= k < old(self).infos().len() && old(self).infos()[k].id == id@);
                    if k != i as int {
                        assert(false);
                    }
                }
                let mut handle = self.forwards.remove(i);
                proof {
                    assert(final(self).infos() =~= old(self).infos().remove(i as int));
                    lemma_removed_id_gone(old(self).infos(), id@);
                }
                match signal_kill(&mut handle.process) {
                    Ok(()) => Ok(()),
                    Err(e) => Err(PortForwardError::Kill(e)),
                }
            },
        }
    }

    /// Keeps exactly the entries whose flag is set and returns their
    /// descriptors; an entry reported dead leaves no trace of its id behind.
    pub fn retain_live(&mut self, alive: &Vec<bool>) -> (kept: Vec<PortForwardInfo>)
        requires
            old(self).wf(),
            alive@.len() == old(self).infos().len(),
        ensures
            final(self).wf(),
            final(self).command_spec() == old(self).command_spec(),
            final(self).infos() =~= mask(old(self).infos(), alive@),
            info_views(kept@) =~= final(self).infos(),
            forall|i: int|
                0 <= i < alive@.len() && !alive@[i] ==> !final(self).contains_id(
                    old(self).infos()[i].id,
                ),
    {
        let n = self.forwards.len();
        let mut kept_handles: Vec<PortForwardHandle> = Vec::new();
        let mut kept: Vec<PortForwardInfo> = Vec::new();
        let mut i: usize = 0;
        while i < n
            invariant
                i <= n,
                n == old(self).infos().len(),
                alive@.len() == n,
                self.forwards@.len() == n - i,
                handle_infos(self.forwards@) =~= old(self).infos().skip(i as int),
                handle_infos(kept_handles@) =~= mask(
                    old(self).infos().take(i as int),
                    alive@.take(i as int),
                ),
                info_views(kept@) =~= handle_infos(kept_handles@),
                self.command@ == old(self).command_spec(),
            decreases n - i,
        {
            let ghost pre = self.forwards@;
            let h = self.forwards.remove(0);
            proof {
                assert(handle_infos(pre)[0] == h.info@);
                assert(old(self).infos().skip(i as int)[0] == h.info@);
                assert(self.forwards@ =~= pre.subrange(1, pre.len() as int));
                assert forall|k: int|
                    0 <= k < self.forwards@.len() implies #[trigger] handle_infos(self.forwards@)[k]
                    == old(self).infos().skip(i + 1)[k] by {
                    assert(self.forwards@[k] == pre[k + 1]);
                    assert(handle_infos(pre)[k + 1] == pre[k + 1].info@);
                    assert(old(self).infos().skip(i as int)[k + 1] == old(self).infos().skip(
                        i + 1,
                    )[k]);
                }
                assert(handle_infos(self.forwards@) =~= old(self).infos().skip(i + 1));
                lemma_mask_take_step(old(self).infos(), alive@, i as int);
            }
            if alive[i] {
                let ghost kh_pre = kept_handles@;
                kept.push(h.info.clone());
                kept_handles.push(h);
                proof {
                    assert(handle_infos(kept_handles@) =~= handle_infos(kh_pre).push(
                        old(self).infos()[i as int],
                    ));
                    assert(info_views(kept@) =~= handle_infos(kept_handles@));
                }
            }
            i = i + 1;
        }
        self.forwards = kept_handles;
        proof {
            assert(old(self).infos().take(n as int) =~= old(self).infos());
            assert(alive@.take(n as int) =~= alive@);
            lemma_mask_distinct(old(self).infos(), alive@);
            assert forall|i2: int|
                0 <= i2 < alive@.len() && !alive@[i2] implies !self.contains_id(
                old(self).infos()[i2].id,
            ) by {
                lemma_pruned_id_gone(old(self).infos(), alive@, i2);
            }
        }
        kept
    }

    /// Lists the registered forwards after a liveness sweep: every entry
    /// whose subprocess has exited (or can no longer be polled) is pruned,
    /// and the descriptors of the surviving entries are returned.
    pub fn list_port_forwards(&mut self) -> (infos: Vec<PortForwardInfo>)
        requires
            old(self).wf(),
        ensures
            final(self).wf(),
            final(self).command_spec() == old(self).command_spec(),
            info_views(infos@) =~= final(self).infos(),
            exists|m: Seq<bool>|
                m.len() == old(self).infos().len() && final(self).infos() =~= mask(
                    old(self).infos(),
                    m,
                ),
    {
        let alive = self.poll_liveness();
        let kept = self.retain_live(&alive);
        proof {
            let m = alive@;
            assert(m.len() == old(self).infos().len() && final(self).infos() =~= mask(
                old(self).infos(),
                m,
            ));
        }
        kept
    }

    fn poll_liveness(&mut self) -> (alive: Vec<bool>)
        requires
            old(self).wf(),
        ensures
            final(self).wf(),
            final(self).command_spec() == old(self).command_spec(),
            final(self).infos() == old(self).infos(),
            alive@.len() == old(self).infos().len(),
    {
        let n = self.forwards.len();
        let mut polled: Vec<PortForwardHandle> = Vec::new();
        let mut alive: Vec<bool> = Vec::new();
        let mut i: usize = 0;
        while i < n
            invariant
                i <= n,
                n == old(self).infos().len(),
                self.forwards@.len() == n - i,
                handle_infos(self.forwards@) =~= old(self).infos().skip(i as int),
                handle_infos(polled@) =~= old(self).infos().take(i as int),
                alive@.len() == i,
                self.command@ == old(self).command_spec(),
            decreases n - i,
        {
            let ghost pre = self.forwards@;
            let mut h = self.forwards.remove(0);
            proof {
                assert(handle_infos(pre)[0] == h.info@);
                assert(old(self).infos().skip(i as int)[0] == h.info@);
                assert(self.forwards@ =~= pre.subrange(1, pre.len() as int));
                assert forall|k: int|
                    0 <= k < self.forwards@.len() implies #[trigger] handle_infos(self.forwards@)[k]
                    == old(self).infos().skip(i + 1)[k] by {
                    assert(self.forwards@[k] == pre[k + 1]);
                    assert(handle_infos(pre)[k + 1] == pre[k + 1].info@);
                    assert(old(self).infos().skip(i as int)[k + 1] == old(self).infos().skip(
                        i + 1,
                    )[k]);
                }
                assert(handle_infos(self.forwards@) =~= old(self).infos().skip(i + 1));
            }
            let live = match poll_exited(&mut h.process) {
                Ok(false) => true,
                Ok(true) => false,
                Err(_) => false,
            };
            alive.push(live);
            let ghost p_pre = polled@;
            polled.push(h);
            proof {
                assert(handle_infos(polled@) =~= handle_infos(p_pre).push(
                    old(self).infos()[i as int],
                ));
                assert(handle_infos(polled@) =~= old(self).infos().take(i + 1));
            }
            i = i + 1;
        }
        self.forwards = polled;
        proof {
            assert(old(self).infos().take(n as int) =~= old(self).infos());
            assert(final(self).infos() =~= old(self).infos());
        }
        alive
    }

    /// Drains the registry at process shutdown, sending a best-effort kill to
    /// every subprocess; individual kill failures are swallowed so shutdown
    /// cannot hang on one bad handle.
    pub fn stop_all(&mut self) -> (r: Result<(), PortForwardError>)
        requires
            old(self).wf(),
        ensures
            final(self).wf(),
            final(self).command_spec() == old(self).command_spec(),
            final(self).infos() =~= Seq::<PortForwardInfoV>::empty(),
            r is Ok,
    {
        while self.forwards.len() > 0
            invariant
                self.command@ == old(self).command_spec(),
            decreases self.forwards@.len(),
        {
            let popped = self.forwards.pop();
            if let Some(mut h) = popped {
                let _ = signal_kill(&mut h.process);
            }
        }
        proof {
            assert(final(self).infos() =~= Seq::<PortForwardInfoV>::empty());
        }
        Ok(())
    }
}

} // verus!
