//! The interactive shell session manager: validates the target pod, owns the
//! inbound queue sender and the pump-task handle of each live session, and
//! guarantees at most one pump pair per session id.

use vstd::prelude::*;
use vstd::string::StringExecFns;

use crate::errors::ShellError;
use crate::text::str_eq;

verus! {

/// One interactive session as seen by the caller.
#[derive(Debug, Clone, PartialEq, Eq)]
pub struct ShellSession {
    pub session_id: String,
    pub pod_name: String,
    pub namespace: String,
    pub container: Option<String>,
}

/// The mathematical view of a [`ShellSession`].
pub ghost struct ShellSessionV {
    pub session_id: Seq<char>,
    pub pod_name: Seq<char>,
    pub namespace: Seq<char>,
    pub container: Option<Seq<char>>,
}

impl View for ShellSession {
    type V = ShellSessionV;

    open spec fn view(&self) -> ShellSessionV {
        ShellSessionV {
            session_id: self.session_id@,
            pod_name: self.pod_name@,
            namespace: self.namespace@,
            container: match self.container {
                Some(c) => Some(c@),
                None => None,
            },
        }
    }
}

/// The state of one container of a pod, as much of it as session validation
/// reads: its name and whether it reports ready.
#[derive(Debug, Clone, PartialEq, Eq)]
pub struct ContainerState {
    pub name: String,
    pub ready: bool,
}

/// The view of a [`ContainerState`].
pub ghost struct ContainerStateV {
    pub name: Seq<char>,
    pub ready: bool,
}

impl View for ContainerState {
    type V = ContainerStateV;

    open spec fn view(&self) -> ContainerStateV {
        ContainerStateV { name: self.name@, ready: self.ready }
    }
}

/// What session validation reads of a pod: its phase and its containers.
#[derive(Debug, Clone, PartialEq, Eq)]
pub struct PodSnapshot {
    pub phase: String,
    pub containers: Vec<ContainerState>,
}

/// The view of a [`PodSnapshot`].
pub ghost struct PodSnapshotV {
    pub phase: Seq<char>,
    pub containers: Seq<ContainerStateV>,
}

impl View for PodSnapshot {
    type V = PodSnapshotV;

    open spec fn view(&self) -> PodSnapshotV {
        PodSnapshotV {
            phase: self.phase@,
            containers: Seq::new(self.containers@.len(), |i: int| self.containers@[i]@),
        }
    }
}

/// The container a session will attach to: the requested one, or the pod's
/// first container when none was requested.
pub open spec fn resolved_container(
    containers: Seq<ContainerStateV>,
    requested: Option<Seq<char>>,
) -> Option<Seq<char>> {
    match requested {
        Some(c) => Some(c),
        None => if containers.len() > 0 {
            Some(containers[0].name)
        } else {
            None
        },
    }
}

/// Whether the first container named `name` reports ready; false when no
/// container carries that name.
pub open spec fn first_ready(containers: Seq<ContainerStateV>, name: Seq<char>) -> bool
    decreases containers.len(),
{
    if containers.len() == 0 {
        false
    } else if containers[0].name == name {
        containers[0].ready
    } else {
        first_ready(containers.subrange(1, containers.len() as int), name)
    }
}

/// Whether a pod in the given state accepts an interactive attach to the
/// resolved container: the pod runs and the container reports ready.
pub open spec fn attach_allowed(pod: PodSnapshotV, requested: Option<Seq<char>>) -> bool {
    &&& pod.phase == "Running"@
    &&& match resolved_container(pod.containers, requested) {
        Some(c) => first_ready(pod.containers, c),
        None => false,
    }
}

fn ready_from(containers: &Vec<ContainerState>, from: usize, name: &str) -> (r: bool)
    requires
        from <= containers@.len(),
    ensures
        r == first_ready(
            Seq::new(containers@.len(), |i: int| containers@[i]@).skip(from as int),
            name@,
        ),
    decreases containers@.len() - from,
{
    let ghost all = Seq::new(containers@.len(), |i: int| containers@[i]@);
    if from >= containers.len() {
        proof {
            assert(all.skip(from as int).len() == 0);
        }
        return false;
    }
    proof {
        assert(all.skip(from as int)[0] == containers@[from as int]@);
    }
    if str_eq(containers[from].name.as_str(), name) {
        containers[from].ready
    } else {
        let r = ready_from(containers, from + 1, name);
        proof {
            assert(all.skip(from as int).subrange(1, all.skip(from as int).len() as int) =~= all.skip(
                from + 1,
            ));
        }
        r
    }
}

/// Validates the target of a new session before anything is allocated: the
/// pod must be in phase `Running`, a container must be resolvable, and the
/// resolved container must report ready. On success the resolved container
/// name is returned; every refusal is a precondition failure and the attach
/// is never attempted.
pub fn validate_shell_target(pod: &PodSnapshot, container: &Option<String>) -> (r: Result<
    String,
    ShellError,
>)
    ensures
        ({
            let requested = match *container {
                Some(ref c) => Some(c@),
                None => None,
            };
            match r {
                Ok(c) => attach_allowed(pod@, requested) && Some(c@) == resolved_container(
                    pod@.containers,
                    requested,
                ),
                Err(ShellError::PreconditionFailed(_)) => !attach_allowed(pod@, requested),
                Err(_) => false,
            }
        }),
{
    proof {
        reveal_strlit("Running");
    }
    if !str_eq(pod.phase.as_str(), "Running") {
        return Err(
            ShellError::PreconditionFailed(
                "Pod is not in Running state. Cannot establish shell connection.".to_owned(),
            ),
        );
    }
    let target: String = match container {
        Some(c) => c.clone(),
        None => {
            if pod.containers.len() == 0 {
                return Err(ShellError::PreconditionFailed("Pod has no containers".to_owned()));
            }
            let first = pod.containers[0].name.clone();
            proof {
                assert(pod@.containers[0] == pod.containers@[0]@);
            }
            first
        },
    };
    let ghost all = pod@.containers;
    proof {
        assert(all.skip(0) =~= all);
    }
    if ready_from(&pod.containers, 0, target.as_str()) {
        Ok(target)
    } else {
        Err(
            ShellError::PreconditionFailed(
                "Container is not ready. Cannot establish shell connection.".to_owned(),
            ),
        )
    }
}

/// The message of an attach failure: the container, the shells tried, and
/// the last launch error (or a fixed phrase when none was recorded).
pub open spec fn attach_failure_message(container: Seq<char>, last_error: Option<Seq<char>>) -> Seq<
    char,
> {
    "Failed to execute shell in container '"@ + container
        + "'. Tried /bin/bash, /bin/sh, /bin/ash. Last error: "@ + match last_error {
        Some(e) => e,
        None => "Unknown error"@,
    }
}

/// The failure reported when every candidate shell failed to launch in the
/// container, carrying the last underlying error for diagnostics.
pub fn attach_failure(container: &str, last_error: Option<String>) -> (r: ShellError)
    ensures
        ({
            let le = match last_error {
                Some(e) => Some(e@),
                None => None,
            };
            r matches ShellError::ExecFailed(m) && m@ == attach_failure_message(container@, le)
        }),
{
    let mut m = "Failed to execute shell in container '".to_owned();
    m.append(container);
    m.append("'. Tried /bin/bash, /bin/sh, /bin/ash. Last error: ");
    match last_error {
        Some(e) => m.append(e.as_str()),
        None => m.append("Unknown error"),
    }
    proof {
        assert(m@ =~= attach_failure_message(
            container@,
            match last_error {
                Some(e) => Some(e@),
                None => None,
            },
        ));
    }
    ShellError::ExecFailed(m)
}

/// The shells tried in order when opening a session: the override alone when
/// one is given, else a fixed preference list.
pub fn shell_candidates(shell: &Option<String>) -> (r: Vec<String>)
    ensures
        match *shell {
            Some(ref s) => r@.len() == 1 && r@[0]@ == s@,
            None => r@.len() == 3 && r@[0]@ == "/bin/bash"@ && r@[1]@ == "/bin/sh"@ && r@[2]@
                == "/bin/ash"@,
        },
{
    let mut out: Vec<String> = Vec::new();
    match shell {
        Some(s) => {
            out.push(s.clone());
        },
        None => {
            out.push("/bin/bash".to_owned());
            out.push("/bin/sh".to_owned());
            out.push("/bin/ash".to_owned());
        },
    }
    out
}

#[verifier::external_type_specification]
#[verifier::external_body]
#[verifier::reject_recursive_types(T)]
pub struct ExUnboundedSender<T>(tokio::sync::mpsc::UnboundedSender<T>);

#[verifier::external_type_specification]
#[verifier::external_body]
#[verifier::reject_recursive_types(T)]
pub struct ExJoinHandle<T>(tokio::task::JoinHandle<T>);

#[verifier::external_type_specification]
#[verifier::external_body]
pub struct ExJoinError(tokio::task::JoinError);

/// Relies on `tokio::sync::mpsc::UnboundedSender::send`: `Ok` when the
/// message was enqueued without blocking, `Err` exactly when the receiving
/// half is gone.
#[verifier::external_body]
fn channel_send(sender: &tokio::sync::mpsc::UnboundedSender<String>, data: String) -> (r: Result<
    (),
    String,
>) {
    sender.send(data).map_err(|e| format!("Failed to send input to shell session: {}", e))
}

/// Relies on `tokio::task::JoinHandle::abort`: asks the runtime to cancel
/// the task; returns at once.
#[verifier::external_body]
fn abort_task(task: &tokio::task::JoinHandle<()>) {
    task.abort();
}

/// One live session: its description, the sender of its inbound queue, and
/// the handle of its pump task pair. The sender and the task handle are owned
/// here alone.
struct ShellEntry {
    session: ShellSession,
    sender: tokio::sync::mpsc::UnboundedSender<String>,
    task: tokio::task::JoinHandle<()>,
}

spec fn entry_views(s: Seq<ShellEntry>) -> Seq<ShellSessionV> {
    Seq::new(s.len(), |i: int| s[i].session@)
}

/// Whether some session of `s` carries the given id.
pub open spec fn has_session_id(s: Seq<ShellSessionV>, id: Seq<char>) -> bool {
    exists|i: int| 0 <= i < s.len() && s[i].session_id == id
}

/// Whether the session ids of `s` are pairwise distinct.
pub open spec fn session_ids_distinct(s: Seq<ShellSessionV>) -> bool {
    forall|i: int, j: int| 0 <= i < j < s.len() ==> s[i].session_id != s[j].session_id
}

/// The index of the session of `s` carrying the given id.
pub open spec fn session_index(s: Seq<ShellSessionV>, id: Seq<char>) -> int {
    choose|i: int| 0 <= i < s.len() && s[i].session_id == id
}

/// `s` with the session carrying the given id removed, when one is there.
pub open spec fn without_session(s: Seq<ShellSessionV>, id: Seq<char>) -> Seq<ShellSessionV> {
    if has_session_id(s, id) {
        s.remove(session_index(s, id))
    } else {
        s
    }
}

/// The registry of live shell sessions. A session enters through
/// `register_session` and leaves through `close_session` or
/// `close_all_sessions`; while registered it is the one owner of its inbound
/// queue sender and pump-task handle.
pub struct ShellManager {
    sessions: Vec<ShellEntry>,
}

impl ShellManager {
    /// The live sessions, in registration order.
    pub closed spec fn sessions(&self) -> Seq<ShellSessionV> {
        entry_views(self.sessions@)
    }

    /// Whether a live session with the given id is registered.
    pub open spec fn contains_session(&self, id: Seq<char>) -> bool {
        has_session_id(self.sessions(), id)
    }

    /// Well-formed: at most one live session per id.
    pub open spec fn wf(&self) -> bool {
        session_ids_distinct(self.sessions())
    }

    /// An empty registry.
    pub fn new() -> (r: Self)
        ensures
            r.wf(),
            r.sessions() =~= Seq::<ShellSessionV>::empty(),
    {
        ShellManager { sessions: Vec::new() }
    }

    fn position_of(&self, id: &str) -> (r: Option<usize>)
        ensures
            match r {
                Some(i) => i < self.sessions().len() && self.sessions()[i as int].session_id == id@,
                None => !self.contains_session(id@),
            },
    {
        let n = self.sessions.len();
        let mut i: usize = 0;
        while i < n
            invariant
                i <= n,
                n == self.sessions().len(),
                forall|j: int| 0 <= j < i ==> self.sessions()[j].session_id != id@,
            decreases n - i,
        {
            if str_eq(self.sessions[i].session.session_id.as_str(), id) {
                return Some(i);
            }
            i = i + 1;
        }
        None
    }

    /// Whether a live session with the given id is registered.
    pub fn has_session(&self, session_id: &str) -> (r: bool)
        ensures
            r == self.contains_session(session_id@),
    {
        match self.position_of(session_id) {
            Some(_) => true,
            None => false,
        }
    }

    /// Registers a new session over the given inbound queue sender and pump
    /// task pair, under a freshly generated id, and returns that id. Should
    /// the fresh id collide with a live session, that session is aborted and
    /// replaced, keeping one pump pair per id.
    pub fn register_session(
        &mut self,
        pod_name: String,
        namespace: String,
        container: Option<String>,
        sender: tokio::sync::mpsc::UnboundedSender<String>,
        task: tokio::task::JoinHandle<()>,
    ) -> (session_id: String)
        requires
            old(self).wf(),
        ensures
            final(self).wf(),
            final(self).contains_session(session_id@),
            final(self).sessions() =~= without_session(old(self).sessions(), session_id@).push(
                ShellSessionV {
                    session_id: session_id@,
                    pod_name: pod_name@,
                    namespace: namespace@,
                    container: match container {
                        Some(c) => Some(c@),
                        None => None,
                    },
                },
            ),
    {
        let session_id = crate::token::new_token();
        if let Some(i) = self.position_of(session_id.as_str()) {
            proof {
                let k = session_index(old(self).sessions(), session_id@);
                assert(0 <= k < old(self).sessions().len() && old(self).sessions()[k].session_id
                    == session_id@);
                if k != i as int {
                    assert(false);
                }
            }
            let stale = self.sessions.remove(i);
            abort_task(&stale.task);
            proof {
                assert(entry_views(self.sessions@) =~= old(self).sessions().remove(i as int));
            }
        }
        let ghost mid = entry_views(self.sessions@);
        let session = ShellSession {
            session_id: session_id.clone(),
            pod_name,
            namespace,
            container,
        };
        self.sessions.push(ShellEntry { session, sender, task });
        proof {
            assert(entry_views(self.sessions@) =~= mid.push(
                ShellSessionV {
                    session_id: session_id@,
                    pod_name: pod_name@,
                    namespace: namespace@,
                    container: match container {
                        Some(c) => Some(c@),
                        None => None,
                    },
                },
            ));
            assert(mid =~= without_session(old(self).sessions(), session_id@));
            assert(self.sessions()[self.sessions().len() - 1].session_id == session_id@);
            assert forall|i: int, j: int|
                0 <= i < j < self.sessions().len() implies self.sessions()[i].session_id
                != self.sessions()[j].session_id by {
                if j == self.sessions().len() - 1 {
                    assert(!has_session_id(mid, session_id@));
                }
            }
        }
        session_id
    }

    /// Enqueues caller input for the session's input pump. Fails with
    /// `SessionNotFound` exactly when no live session carries the id — never
    /// silently, never by panicking; with `ChannelClosed` when the session is
    /// registered but its pumps are gone.
    pub fn send_input(&self, session_id: &str, data: String) -> (r: Result<(), ShellError>)
        ensures
            match r {
                Ok(()) => self.contains_session(session_id@),
                Err(ShellError::SessionNotFound) => !self.contains_session(session_id@),
                Err(ShellError::ChannelClosed(_)) => self.contains_session(session_id@),
                Err(_) => false,
            },
    {
        match self.position_of(session_id) {
            None => Err(ShellError::SessionNotFound),
            Some(i) => match channel_send(&self.sessions[i].sender, data) {
                Ok(()) => Ok(()),
                Err(e) => Err(ShellError::ChannelClosed(e)),
            },
        }
    }

    /// Closes the session with the given id: its entry is removed, its
    /// inbound queue sender dropped, and its pump task pair aborted. Closing
    /// an unknown or already-closed id is a quiet no-op, so a second close
    /// can never crash.
    pub fn close_session(&mut self, session_id: &str) -> (r: Result<(), ShellError>)
        requires
            old(self).wf(),
        ensures
            final(self).wf(),
            r is Ok,
            !final(self).contains_session(session_id@),
            final(self).sessions() =~= without_session(old(self).sessions(), session_id@),
    {
        match self.position_of(session_id) {
            None => {
                proof {
                    assert(final(self).sessions() =~= without_session(
                        old(self).sessions(),
                        session_id@,
                    ));
                }
                Ok(())
            },
            Some(i) => {
                proof {
                    let k = session_index(old(self).sessions(), session_id@);
                    assert(0 <= k < old(self).sessions().len() && old(
                        self,
                    ).sessions()[k].session_id == session_id@);
                    if k != i as int {
                        assert(false);
                    }
                }
                let entry = self.sessions.remove(i);
                abort_task(&entry.task);
                proof {
                    assert(entry_views(self.sessions@) =~= old(self).sessions().remove(i as int));
                    assert forall|j: int|
                        0 <= j < self.sessions().len() implies self.sessions()[j].session_id
                        != session_id@ by {
                        if j < i as int {
                            assert(self.sessions()[j] == old(self).sessions()[j]);
                        } else {
                            assert(self.sessions()[j] == old(self).sessions()[j + 1]);
                        }
                    }
                }
                Ok(())
            },
        }
    }

    /// Closes every session at process shutdown: each pump task pair is
    /// aborted best-effort, every sender dropped, and the registry drained.
    pub fn close_all_sessions(&mut self) -> (r: Result<(), ShellError>)
        requires
            old(self).wf(),
        ensures
            final(self).wf(),
            final(self).sessions() =~= Seq::<ShellSessionV>::empty(),
            r is Ok,
    {
        while self.sessions.len() > 0
            decreases self.sessions@.len(),
        {
            let popped = self.sessions.pop();
            if let Some(entry) = popped {
                abort_task(&entry.task);
            }
        }
        proof {
            assert(final(self).sessions() =~= Seq::<ShellSessionV>::empty());
        }
        Ok(())
    }
}

} // verus!
