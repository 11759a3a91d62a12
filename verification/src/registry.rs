//! The instance registry: a map from instance id to a runtime record that
//! owns up to four native handles plus an optional child-process handle.
//!
//! Native handles are carried as 64-bit tokens; zero stands for the null
//! handle the native layer returns on failure. The registry never performs
//! a native call itself: every operation that must create or release a
//! native object returns the ordered list of release steps for its caller
//! to perform, so teardown order is part of each operation's contract.

use vstd::prelude::*;

use crate::types::AdbDevice;
use crate::types::InstanceState;
use crate::types::MaaError;
use crate::types::Win32Window;

verus! {

/// One step of native teardown, in the order the caller must perform them.
#[derive(Debug, Clone, Copy, PartialEq, Eq, Structural)]
pub enum ReleaseAction {
    /// Disconnect the agent client before destroying it.
    DisconnectAgent(u64),
    /// Destroy the agent client handle.
    DestroyAgent(u64),
    /// Terminate the helper child process.
    KillChild(u64),
    /// Destroy the tasker handle.
    DestroyTasker(u64),
    /// Destroy the controller handle.
    DestroyController(u64),
    /// Destroy the resource handle.
    DestroyResource(u64),
    /// Destroy a native image buffer.
    DestroyImageBuffer(u64),
}

/// The per-instance record: owned native handles, posted-task history,
/// and the stop-request throttling state.
#[derive(Debug)]
pub struct InstanceRuntime {
    pub resource: Option<u64>,
    pub controller: Option<u64>,
    pub tasker: Option<u64>,
    pub agent_client: Option<u64>,
    pub agent_child: Option<u64>,
    /// Ids of previously posted tasks, kept for state recovery; cleared on stop.
    pub task_ids: Vec<i64>,
    /// True while a stop request is in flight.
    pub stop_in_progress: bool,
    /// When the in-flight stop request was posted, in milliseconds.
    pub stop_started_at: Option<u64>,
}

/// A runtime record that owns nothing and remembers nothing.
pub open spec fn is_empty_runtime(rt: InstanceRuntime) -> bool {
    &&& rt.resource is None
    &&& rt.controller is None
    &&& rt.tasker is None
    &&& rt.agent_client is None
    &&& rt.agent_child is None
    &&& rt.task_ids@.len() == 0
    &&& !rt.stop_in_progress
    &&& rt.stop_started_at is None
}

impl Default for InstanceRuntime {
    /// A fresh record: no handles, no task history, no stop in flight.
    fn default() -> (r: Self)
        ensures
            is_empty_runtime(r),
    {
        InstanceRuntime {
            resource: None,
            controller: None,
            tasker: None,
            agent_client: None,
            agent_child: None,
            task_ids: Vec::new(),
            stop_in_progress: false,
            stop_started_at: None,
        }
    }
}

/// The release steps owed for a record's handles, in dependency order:
/// agent connection, agent child process, tasker, controller, resource.
/// The tasker holds references into controller and resource, and the agent
/// sits logically above the tasker, so this order must not change.
pub open spec fn release_order(rt: InstanceRuntime) -> Seq<ReleaseAction> {
    (match rt.agent_client {
        Some(a) => seq![ReleaseAction::DisconnectAgent(a), ReleaseAction::DestroyAgent(a)],
        None => Seq::<ReleaseAction>::empty(),
    }) + (match rt.agent_child {
        Some(c) => seq![ReleaseAction::KillChild(c)],
        None => Seq::<ReleaseAction>::empty(),
    }) + (match rt.tasker {
        Some(t) => seq![ReleaseAction::DestroyTasker(t)],
        None => Seq::<ReleaseAction>::empty(),
    }) + (match rt.controller {
        Some(c) => seq![ReleaseAction::DestroyController(c)],
        None => Seq::<ReleaseAction>::empty(),
    }) + (match rt.resource {
        Some(r) => seq![ReleaseAction::DestroyResource(r)],
        None => Seq::<ReleaseAction>::empty(),
    })
}

/// Law: destroying a record with all four handle kinds and a child process
/// populated releases them in exactly the fixed order — agent disconnect,
/// agent destroy, child kill, tasker, controller, resource — each once.
pub proof fn lemma_release_order_fixed(rt: InstanceRuntime)
    requires
        rt.agent_client is Some,
        rt.agent_child is Some,
        rt.tasker is Some,
        rt.controller is Some,
        rt.resource is Some,
    ensures
        release_order(rt) =~= seq![
            ReleaseAction::DisconnectAgent(rt.agent_client->0),
            ReleaseAction::DestroyAgent(rt.agent_client->0),
            ReleaseAction::KillChild(rt.agent_child->0),
            ReleaseAction::DestroyTasker(rt.tasker->0),
            ReleaseAction::DestroyController(rt.controller->0),
            ReleaseAction::DestroyResource(rt.resource->0),
        ],
{
}

/// The place of a teardown step in the fixed dependency order.
pub open spec fn release_rank(a: ReleaseAction) -> int {
    match a {
        ReleaseAction::DisconnectAgent(_) => 0,
        ReleaseAction::DestroyAgent(_) => 1,
        ReleaseAction::KillChild(_) => 2,
        ReleaseAction::DestroyTasker(_) => 3,
        ReleaseAction::DestroyController(_) => 4,
        ReleaseAction::DestroyResource(_) => 5,
        ReleaseAction::DestroyImageBuffer(_) => 6,
    }
}

/// Law: whatever subset of handles a record owns, its release steps come
/// out strictly in the fixed dependency order — so no handle is released
/// twice, and none out of turn.
pub proof fn lemma_release_order_sorted(rt: InstanceRuntime)
    ensures
        forall|i: int, j: int|
            0 <= i < j < release_order(rt).len() ==> release_rank(release_order(rt)[i])
                < release_rank(release_order(rt)[j]),
{
}

/// Builds the release steps owed for a record, in dependency order.
pub fn runtime_release_actions(rt: &InstanceRuntime) -> (r: Vec<ReleaseAction>)
    ensures
        r@ == release_order(*rt),
{
    let mut r: Vec<ReleaseAction> = Vec::new();
    if let Some(a) = rt.agent_client {
        r.push(ReleaseAction::DisconnectAgent(a));
        r.push(ReleaseAction::DestroyAgent(a));
    }
    if let Some(c) = rt.agent_child {
        r.push(ReleaseAction::KillChild(c));
    }
    if let Some(t) = rt.tasker {
        r.push(ReleaseAction::DestroyTasker(t));
    }
    if let Some(c) = rt.controller {
        r.push(ReleaseAction::DestroyController(c));
    }
    if let Some(res) = rt.resource {
        r.push(ReleaseAction::DestroyResource(res));
    }
    proof {
        assert(r@ =~= release_order(*rt));
    }
    r
}

/// One registry entry: the caller-chosen id and the owned record.
#[derive(Debug)]
pub struct InstanceEntry {
    pub id: String,
    pub runtime: InstanceRuntime,
}

/// Index of the first entry with the given id, or -1 if none has it.
pub open spec fn find_index(s: Seq<InstanceEntry>, id: Seq<char>) -> int
    decreases s.len(),
{
    if s.len() == 0 {
        -1
    } else if s[0].id@ == id {
        0
    } else {
        let r = find_index(s.skip(1), id);
        if r == -1 {
            -1
        } else {
            r + 1
        }
    }
}

/// Whether some entry carries the given id.
pub open spec fn contains_id(s: Seq<InstanceEntry>, id: Seq<char>) -> bool {
    find_index(s, id) >= 0
}

/// No two entries share an id.
pub open spec fn wf_entries(s: Seq<InstanceEntry>) -> bool {
    forall|i: int, j: int| 0 <= i < j < s.len() ==> s[i].id@ != s[j].id@
}

/// How many entries carry the given id.
pub open spec fn count_id(s: Seq<InstanceEntry>, id: Seq<char>) -> nat
    decreases s.len(),
{
    if s.len() == 0 {
        0
    } else {
        (if s[0].id@ == id {
            1nat
        } else {
            0nat
        }) + count_id(s.skip(1), id)
    }
}

/// What `find_index` promises: it stays in range, a hit names a matching
/// entry and nothing before it matches, and a miss means nothing matches.
pub proof fn lemma_find_index(s: Seq<InstanceEntry>, id: Seq<char>)
    ensures
        -1 <= find_index(s, id) < s.len(),
        find_index(s, id) == -1 ==> forall|k: int| 0 <= k < s.len() ==> s[k].id@ != id,
        find_index(s, id) >= 0 ==> s[find_index(s, id)].id@ == id,
        find_index(s, id) >= 0 ==> forall|k: int| 0 <= k < find_index(s, id) ==> s[k].id@ != id,
    decreases s.len(),
{
    if s.len() == 0 {
    } else if s[0].id@ == id {
    } else {
        lemma_find_index(s.skip(1), id);
        let r = find_index(s.skip(1), id);
        if r == -1 {
            assert forall|k: int| 0 <= k < s.len() implies s[k].id@ != id by {
                if k > 0 {
                    assert(s.skip(1)[k - 1] == s[k]);
                }
            }
        } else {
            assert(s.skip(1)[r] == s[r + 1]);
            assert forall|k: int| 0 <= k < find_index(s, id) implies s[k].id@ != id by {
                if k > 0 {
                    assert(s.skip(1)[k - 1] == s[k]);
                }
            }
        }
    }
}

/// Appending an entry leaves earlier hits alone; on a miss the appended
/// entry decides.
pub proof fn lemma_find_index_push(s: Seq<InstanceEntry>, e: InstanceEntry, id: Seq<char>)
    ensures
        find_index(s, id) >= 0 ==> find_index(s.push(e), id) == find_index(s, id),
        find_index(s, id) == -1 && e.id@ == id ==> find_index(s.push(e), id) == s.len(),
        find_index(s, id) == -1 && e.id@ != id ==> find_index(s.push(e), id) == -1,
    decreases s.len(),
{
    if s.len() == 0 {
        assert(s.push(e)[0] == e);
        assert(s.push(e).skip(1) =~= Seq::<InstanceEntry>::empty());
        assert(find_index(s.push(e).skip(1), id) == -1);
    } else {
        lemma_find_index_push(s.skip(1), e, id);
        lemma_find_index(s.skip(1), id);
        lemma_find_index(s.skip(1).push(e), id);
        assert(s.push(e).skip(1) =~= s.skip(1).push(e));
        assert(s.push(e)[0] == s[0]);
        if s[0].id@ == id {
            assert(find_index(s, id) == 0);
        } else {
            assert(find_index(s, id) == (
            if find_index(s.skip(1), id) == -1 {
                -1
            } else {
                find_index(s.skip(1), id) + 1
            }));
            assert(find_index(s.push(e), id) == (
            if find_index(s.skip(1).push(e), id) == -1 {
                -1
            } else {
                find_index(s.skip(1).push(e), id) + 1
            }));
        }
    }
}

/// Replacing an entry with one of the same id changes no lookup.
pub proof fn lemma_find_index_update(
    s: Seq<InstanceEntry>,
    i: int,
    e: InstanceEntry,
    id: Seq<char>,
)
    requires
        0 <= i < s.len(),
        e.id@ == s[i].id@,
    ensures
        find_index(s.update(i, e), id) == find_index(s, id),
    decreases s.len(),
{
    if s.len() == 0 {
    } else if i == 0 {
        assert(s.update(0, e)[0] == e);
        assert(s.update(0, e).skip(1) =~= s.skip(1));
    } else {
        lemma_find_index_update(s.skip(1), i - 1, e, id);
        assert(s.update(i, e).skip(1) =~= s.skip(1).update(i - 1, e));
        assert(s.update(i, e)[0] == s[0]);
        if s[0].id@ != id {
            assert(find_index(s.update(i, e), id) == (
            if find_index(s.skip(1).update(i - 1, e), id) == -1 {
                -1
            } else {
                find_index(s.skip(1).update(i - 1, e), id) + 1
            }));
        }
    }
}

/// With unique ids there is at most one entry per id, exactly one on a hit.
pub proof fn lemma_count_id(s: Seq<InstanceEntry>, id: Seq<char>)
    ensures
        (count_id(s, id) == 0) <==> (find_index(s, id) == -1),
        wf_entries(s) && find_index(s, id) >= 0 ==> count_id(s, id) == 1,
    decreases s.len(),
{
    if s.len() == 0 {
    } else {
        assert(forall|k: int| 0 <= k < s.skip(1).len() ==> s.skip(1)[k] == s[k + 1]);
        assert(wf_entries(s) ==> wf_entries(s.skip(1)));
        lemma_count_id(s.skip(1), id);
        lemma_find_index(s, id);
        lemma_find_index(s.skip(1), id);
        assert(count_id(s, id) == (if s[0].id@ == id {
            1nat
        } else {
            0nat
        }) + count_id(s.skip(1), id));
        assert(s[0].id@ != id ==> find_index(s, id) == (if find_index(s.skip(1), id) == -1 {
            -1
        } else {
            find_index(s.skip(1), id) + 1
        }));
        assert(s[0].id@ == id ==> find_index(s, id) == 0);
        if s[0].id@ == id && wf_entries(s) {
            lemma_find_index(s.skip(1), id);
            if find_index(s.skip(1), id) >= 0 {
                let k = find_index(s.skip(1), id);
                assert(s[k + 1].id@ == id);
                assert(s[0].id@ != s[k + 1].id@);
            }
        }
    }
}

/// The registry and the registry-global discovery caches, together with
/// the two recorded directories. One value of this type sits behind one
/// lock in the embedding application.
#[derive(Debug)]
pub struct MaaState {
    pub lib_dir: Option<String>,
    pub resource_dir: Option<String>,
    pub instances: Vec<InstanceEntry>,
    /// Devices found by the latest discovery run, replaced wholesale.
    pub cached_adb_devices: Vec<AdbDevice>,
    /// Windows found by the latest discovery run, replaced wholesale.
    pub cached_win32_windows: Vec<Win32Window>,
}

impl MaaState {
    /// The registry's invariant: instance ids are unique.
    pub open spec fn wf(&self) -> bool {
        wf_entries(self.instances@)
    }

    /// Everything outside the instance map is unchanged.
    pub open spec fn same_but_instances(pre: &MaaState, post: &MaaState) -> bool {
        &&& post.lib_dir == pre.lib_dir
        &&& post.resource_dir == pre.resource_dir
        &&& post.cached_adb_devices == pre.cached_adb_devices
        &&& post.cached_win32_windows == pre.cached_win32_windows
    }
}

impl Default for MaaState {
    /// An empty registry with empty caches and no recorded directories.
    fn default() -> (r: Self)
        ensures
            r.wf(),
            r.lib_dir is None,
            r.resource_dir is None,
            r.instances@.len() == 0,
            r.cached_adb_devices@.len() == 0,
            r.cached_win32_windows@.len() == 0,
    {
        MaaState {
            lib_dir: None,
            resource_dir: None,
            instances: Vec::new(),
            cached_adb_devices: Vec::new(),
            cached_win32_windows: Vec::new(),
        }
    }
}

impl MaaState {
    /// Finds the entry carrying the given id, if any.
    pub fn find_instance(&self, id: &String) -> (r: Option<usize>)
        ensures
            match r {
                Some(i) => i < self.instances@.len() && self.instances@[i as int].id@ == id@
                    && find_index(self.instances@, id@) == i,
                None => find_index(self.instances@, id@) == -1,
            },
    {
        let n = self.instances.len();
        let mut i: usize = 0;
        while i < n
            invariant
                i <= n,
                n == self.instances@.len(),
                forall|k: int| 0 <= k < i ==> self.instances@[k].id@ != id@,
            decreases n - i,
        {
            if self.instances[i].id == *id {
                proof {
                    lemma_find_index(self.instances@, id@);
                }
                return Some(i);
            }
            i = i + 1;
        }
        proof {
            lemma_find_index(self.instances@, id@);
        }
        None
    }
}

/// What `create_instance` does: a present id leaves the registry as it
/// was; an absent one appends exactly one fresh, empty record under it.
pub open spec fn create_post(pre: Seq<InstanceEntry>, post: Seq<InstanceEntry>, id: String) -> bool {
    if contains_id(pre, id@) {
        post == pre
    } else {
        &&& post.len() == pre.len() + 1
        &&& post.subrange(0, pre.len() as int) == pre
        &&& post[pre.len() as int].id == id
        &&& is_empty_runtime(post[pre.len() as int].runtime)
    }
}

/// Law: creating the same id twice is the same as creating it once, and
/// leaves exactly one record under that id.
pub proof fn lemma_create_idempotent(
    pre: Seq<InstanceEntry>,
    mid: Seq<InstanceEntry>,
    post: Seq<InstanceEntry>,
    first: String,
    second: String,
)
    requires
        wf_entries(pre),
        first@ == second@,
        create_post(pre, mid, first),
        create_post(mid, post, second),
    ensures
        post == mid,
        wf_entries(mid),
        count_id(mid, first@) == 1,
{
    lemma_find_index(pre, first@);
    if contains_id(pre, first@) {
        lemma_count_id(pre, first@);
    } else {
        assert(mid =~= pre.push(mid[pre.len() as int]));
        lemma_find_index_push(pre, mid[pre.len() as int], first@);
        assert(contains_id(mid, first@));
        assert forall|i: int, j: int| 0 <= i < j < mid.len() implies mid[i].id@ != mid[j].id@ by {
            if j < pre.len() {
                assert(mid[i] == pre[i] && mid[j] == pre[j]);
            } else {
                assert(mid[j].id@ == first@);
                assert(mid[i] == pre[i]);
            }
        }
        lemma_count_id(mid, first@);
    }
    assert(contains_id(mid, second@));
}

/// What `destroy_instance` does: an absent id is a no-op with no release
/// steps; a present one is removed and its record's handles are owed back
/// in dependency order.
pub open spec fn destroy_post(
    pre: Seq<InstanceEntry>,
    post: Seq<InstanceEntry>,
    id: Seq<char>,
    actions: Seq<ReleaseAction>,
) -> bool {
    let i = find_index(pre, id);
    if i == -1 {
        post == pre && actions == Seq::<ReleaseAction>::empty()
    } else {
        post == pre.remove(i) && actions == release_order(pre[i].runtime)
    }
}

/// Law: destroying an id that names no record is a no-op success that owes
/// no release step.
pub proof fn lemma_destroy_absent_noop(
    pre: Seq<InstanceEntry>,
    post: Seq<InstanceEntry>,
    id: Seq<char>,
    actions: Seq<ReleaseAction>,
)
    requires
        !contains_id(pre, id),
        destroy_post(pre, post, id, actions),
    ensures
        post == pre,
        actions.len() == 0,
{
    lemma_find_index(pre, id);
}

/// Law: after a destroy, the id names no record, and with unique ids the
/// registry shrank by exactly the one record.
pub proof fn lemma_destroy_removes(
    pre: Seq<InstanceEntry>,
    post: Seq<InstanceEntry>,
    id: Seq<char>,
    actions: Seq<ReleaseAction>,
)
    requires
        wf_entries(pre),
        contains_id(pre, id),
        destroy_post(pre, post, id, actions),
    ensures
        !contains_id(post, id),
        post.len() == pre.len() - 1,
        wf_entries(post),
        actions == release_order(pre[find_index(pre, id)].runtime),
{
    let i = find_index(pre, id);
    lemma_find_index(pre, id);
    assert forall|a: int, b: int| 0 <= a < b < post.len() implies post[a].id@ != post[b].id@ by {
        let a0 = if a < i { a } else { a + 1 };
        let b0 = if b < i { b } else { b + 1 };
        assert(post[a] == pre[a0] && post[b] == pre[b0]);
    }
    assert forall|k: int| 0 <= k < post.len() implies post[k].id@ != id by {
        let k0 = if k < i { k } else { k + 1 };
        assert(post[k] == pre[k0]);
        assert(pre[k0].id@ != pre[i].id@);
    }
    lemma_find_index(post, id);
    if find_index(post, id) >= 0 {
        assert(post[find_index(post, id)].id@ == id);
    }
}

impl MaaState {
    /// Creates an instance record under the given id. Idempotent: a second
    /// call with the same id changes nothing and also succeeds.
    pub fn create_instance(&mut self, id: String)
        requires
            old(self).wf(),
        ensures
            final(self).wf(),
            create_post(old(self).instances@, final(self).instances@, id),
            MaaState::same_but_instances(old(self), final(self)),
            contains_id(final(self).instances@, id@),
    {
        let found = self.find_instance(&id);
        proof {
            lemma_find_index(self.instances@, id@);
        }
        if found.is_none() {
            let ghost pre = self.instances@;
            let entry = InstanceEntry { id, runtime: InstanceRuntime::default() };
            self.instances.push(entry);
            proof {
                assert(self.instances@.subrange(0, pre.len() as int) =~= pre);
                lemma_find_index_push(pre, self.instances@[pre.len() as int], self.instances@[pre.len() as int].id@);
                assert forall|i: int, j: int|
                    0 <= i < j < self.instances@.len() implies self.instances@[i].id@
                    != self.instances@[j].id@ by {
                    if j < pre.len() {
                        assert(self.instances@[i] == pre[i] && self.instances@[j] == pre[j]);
                    } else {
                        assert(self.instances@[i] == pre[i]);
                    }
                }
            }
        }
    }

    /// Removes the record under the given id, returning the release steps
    /// its handles are owed, in dependency order. A missing id is a no-op
    /// success, not an error.
    pub fn destroy_instance(&mut self, id: &String) -> (r: Vec<ReleaseAction>)
        requires
            old(self).wf(),
        ensures
            final(self).wf(),
            destroy_post(old(self).instances@, final(self).instances@, id@, r@),
            MaaState::same_but_instances(old(self), final(self)),
    {
        match self.find_instance(id) {
            None => Vec::new(),
            Some(i) => {
                let ghost pre = self.instances@;
                let entry = self.instances.remove(i);
                let actions = runtime_release_actions(&entry.runtime);
                proof {
                    lemma_destroy_removes(pre, self.instances@, id@, actions@);
                }
                actions
            },
        }
    }
}

/// What `begin_run_task` decides: which tasker to use, or what is missing.
#[derive(Debug, Clone, Copy, PartialEq, Eq, Structural)]
pub enum TaskerNeed {
    /// A tasker is already bound: post to this handle.
    Existing(u64),
    /// No tasker yet: create one and bind it to these resource and
    /// controller handles, then install it.
    MustCreate { resource: u64, controller: u64 },
}

/// The run-task precondition check: the instance must exist and hold both
/// a resource and a controller; the tasker is created lazily on first use.
pub open spec fn run_task_decision(s: Seq<InstanceEntry>, id: Seq<char>) -> Result<
    TaskerNeed,
    MaaError,
> {
    let i = find_index(s, id);
    if i == -1 {
        Err(MaaError::InstanceNotFound)
    } else {
        match s[i].runtime.resource {
            None => Err(MaaError::ResourceMissing),
            Some(res) => match s[i].runtime.controller {
                None => Err(MaaError::ControllerMissing),
                Some(ctrl) => match s[i].runtime.tasker {
                    Some(t) => Ok(TaskerNeed::Existing(t)),
                    None => Ok(TaskerNeed::MustCreate { resource: res, controller: ctrl }),
                },
            },
        }
    }
}

/// Two runtime records that differ at most in the given places.
pub open spec fn same_handles(a: InstanceRuntime, b: InstanceRuntime) -> bool {
    &&& a.resource == b.resource
    &&& a.controller == b.controller
    &&& a.tasker == b.tasker
    &&& a.agent_client == b.agent_client
    &&& a.agent_child == b.agent_child
}

/// Two runtime records with the same stop-throttling state.
pub open spec fn same_stop_state(a: InstanceRuntime, b: InstanceRuntime) -> bool {
    &&& a.stop_in_progress == b.stop_in_progress
    &&& a.stop_started_at == b.stop_started_at
}

/// Everything but the entry at `i` is unchanged, and that entry keeps its id.
pub open spec fn changed_only_at(
    pre: Seq<InstanceEntry>,
    post: Seq<InstanceEntry>,
    i: int,
) -> bool {
    &&& post.len() == pre.len()
    &&& forall|k: int| 0 <= k < pre.len() && k != i ==> post[k] == pre[k]
    &&& post[i].id == pre[i].id
}

/// What `finish_connect_controller` does. A null creation result is an
/// error that disturbs nothing. Otherwise, once the new controller is
/// confirmed, the swap is unconditional: the old controller and any tasker
/// bound to it are owed teardown, and the new controller is installed even
/// when posting the connection attempt failed — in that case the error is
/// still reported to the caller.
pub open spec fn connect_post(
    pre: Seq<InstanceEntry>,
    post: Seq<InstanceEntry>,
    id: Seq<char>,
    created: u64,
    post_id: i64,
    actions: Seq<ReleaseAction>,
    result: Result<i64, MaaError>,
) -> bool {
    let i = find_index(pre, id);
    if created == 0 {
        &&& post == pre
        &&& actions.len() == 0
        &&& result == Err::<i64, MaaError>(MaaError::ControllerCreateFailed)
    } else if i == -1 {
        &&& post == pre
        &&& actions.len() == 0
        &&& result == Err::<i64, MaaError>(MaaError::InstanceNotFound)
    } else {
        &&& changed_only_at(pre, post, i)
        &&& actions == (match pre[i].runtime.controller {
            Some(c) => seq![ReleaseAction::DestroyController(c)],
            None => Seq::<ReleaseAction>::empty(),
        }) + (match pre[i].runtime.tasker {
            Some(t) => seq![ReleaseAction::DestroyTasker(t)],
            None => Seq::<ReleaseAction>::empty(),
        })
        &&& post[i].runtime.controller == Some(created)
        &&& post[i].runtime.tasker is None
        &&& post[i].runtime.resource == pre[i].runtime.resource
        &&& post[i].runtime.agent_client == pre[i].runtime.agent_client
        &&& post[i].runtime.agent_child == pre[i].runtime.agent_child
        &&& post[i].runtime.task_ids == pre[i].runtime.task_ids
        &&& same_stop_state(pre[i].runtime, post[i].runtime)
        &&& result == (if post_id == 0 {
            Err::<i64, MaaError>(MaaError::PostConnectionFailed)
        } else {
            Ok::<i64, MaaError>(post_id)
        })
    }
}

/// Law: replacing the controller of an instance that holds a tasker tears
/// the tasker down — its destroy step is owed, and the post-state holds
/// none — before the new controller is in place; a run-task that follows
/// must therefore recreate the tasker, bound to the new controller.
pub proof fn lemma_replace_controller_tears_down_tasker(
    pre: Seq<InstanceEntry>,
    post: Seq<InstanceEntry>,
    id: Seq<char>,
    created: u64,
    post_id: i64,
    actions: Seq<ReleaseAction>,
    result: Result<i64, MaaError>,
)
    requires
        wf_entries(pre),
        connect_post(pre, post, id, created, post_id, actions, result),
        created != 0,
        contains_id(pre, id),
        pre[find_index(pre, id)].runtime.tasker is Some,
        pre[find_index(pre, id)].runtime.resource is Some,
    ensures
        actions.last() == ReleaseAction::DestroyTasker(pre[find_index(pre, id)].runtime.tasker->0),
        post[find_index(pre, id)].runtime.tasker is None,
        post[find_index(pre, id)].runtime.controller == Some(created),
        run_task_decision(post, id) == Ok::<TaskerNeed, MaaError>(TaskerNeed::MustCreate {
            resource: pre[find_index(pre, id)].runtime.resource->0,
            controller: created,
        }),
{
    let i = find_index(pre, id);
    lemma_find_index(pre, id);
    assert(post =~= pre.update(i, post[i]));
    lemma_find_index_update(pre, i, post[i], id);
}

/// What `begin_load_resource` decides: reuse the instance's resource or
/// create one first.
#[derive(Debug, Clone, Copy, PartialEq, Eq, Structural)]
pub enum ResourceNeed {
    /// The instance already holds this resource handle.
    Existing(u64),
    /// No resource yet: create one and install it.
    MustCreate,
}

/// Keeps the request ids of the posts that succeeded, in order; a zero id
/// marks a post the native layer rejected, which is skipped, not fatal.
pub fn collect_posted_ids(results: &Vec<i64>) -> (r: Vec<i64>)
    ensures
        r@ == results@.filter(|x: i64| x != 0),
{
    let mut r: Vec<i64> = Vec::new();
    let n = results.len();
    let mut i: usize = 0;
    while i < n
        invariant
            i <= n,
            n == results@.len(),
            r@ == results@.subrange(0, i as int).filter(|x: i64| x != 0),
        decreases n - i,
    {
        let v = results[i];
        proof {
            reveal(Seq::filter);
            assert(results@.subrange(0, i as int + 1).drop_last() =~= results@.subrange(
                0,
                i as int,
            ));
            assert(results@.subrange(0, i as int + 1).last() == results@[i as int]);
        }
        if v != 0 {
            r.push(v);
        }
        i = i + 1;
    }
    proof {
        reveal(Seq::filter);
        assert(results@.subrange(0, n as int) =~= results@);
    }
    r
}

/// The stop decision for one record whose tasker is present.
#[derive(Debug, Clone, Copy, PartialEq, Eq, Structural)]
pub enum StopDecision {
    /// The tasker no longer runs: the stop flag clears, nothing is posted.
    AlreadyIdle,
    /// A stop is already in flight and recent: nothing is posted.
    Throttled,
    /// Post one native stop request to this tasker handle.
    PostStop(u64),
}

/// Milliseconds since the in-flight stop was posted; zero when unknown.
pub open spec fn stop_elapsed(rt: InstanceRuntime, now_ms: u64) -> int {
    match rt.stop_started_at {
        Some(t0) => if now_ms >= t0 {
            now_ms - t0
        } else {
            0
        },
        None => 0,
    }
}

/// The stop-throttling rule: with no stop in flight, post; with one in
/// flight, post again only once the task still runs and the window has
/// passed; a task that stopped running just clears the flag.
pub open spec fn stop_decision(rt: InstanceRuntime, now_ms: u64, is_running: bool) -> StopDecision {
    if rt.stop_in_progress {
        if !is_running {
            StopDecision::AlreadyIdle
        } else if stop_elapsed(rt, now_ms) < STOP_REPOST_WINDOW_MS as int {
            StopDecision::Throttled
        } else {
            StopDecision::PostStop(rt.tasker->0)
        }
    } else {
        StopDecision::PostStop(rt.tasker->0)
    }
}

/// How long a repeated stop request is silently absorbed, in milliseconds.
pub const STOP_REPOST_WINDOW_MS: u64 = 500;

/// How the record changes under each stop decision: posting marks the stop
/// in flight at the given time and clears the task history; clearing the
/// flag leaves the history alone; a throttled call changes nothing.
pub open spec fn stop_update(
    pre: InstanceRuntime,
    post: InstanceRuntime,
    now_ms: u64,
    decision: StopDecision,
) -> bool {
    &&& same_handles(pre, post)
    &&& match decision {
        StopDecision::AlreadyIdle => {
            &&& !post.stop_in_progress
            &&& post.stop_started_at is None
            &&& post.task_ids == pre.task_ids
        },
        StopDecision::Throttled => post == pre,
        StopDecision::PostStop(_) => {
            &&& post.stop_in_progress
            &&& post.stop_started_at == Some(now_ms)
            &&& post.task_ids@.len() == 0
        },
    }
}

/// Law: while the task still runs, a second stop inside the window is
/// absorbed — at most one native stop-post goes out — and a second stop at
/// or past the window posts again.
pub proof fn lemma_stop_throttle_window(
    rt0: InstanceRuntime,
    rt1: InstanceRuntime,
    t0: u64,
    t1: u64,
)
    requires
        rt0.tasker is Some,
        stop_decision(rt0, t0, true) is PostStop,
        stop_update(rt0, rt1, t0, stop_decision(rt0, t0, true)),
        t0 <= t1,
    ensures
        t1 - t0 < STOP_REPOST_WINDOW_MS ==> stop_decision(rt1, t1, true) == StopDecision::Throttled,
        t1 - t0 >= STOP_REPOST_WINDOW_MS ==> stop_decision(rt1, t1, true) == StopDecision::PostStop(
            rt1.tasker->0,
        ),
{
}

impl MaaState {
    /// The run-task precondition check: names the missing dependency, or
    /// says which tasker to post to, or which handles a new tasker must be
    /// bound to.
    pub fn begin_run_task(&self, id: &String) -> (r: Result<TaskerNeed, MaaError>)
        ensures
            r == run_task_decision(self.instances@, id@),
    {
        match self.find_instance(id) {
            None => Err(MaaError::InstanceNotFound),
            Some(i) => {
                let rt = &self.instances[i].runtime;
                match rt.resource {
                    None => Err(MaaError::ResourceMissing),
                    Some(res) => match rt.controller {
                        None => Err(MaaError::ControllerMissing),
                        Some(ctrl) => match rt.tasker {
                            Some(t) => Ok(TaskerNeed::Existing(t)),
                            None => Ok(TaskerNeed::MustCreate { resource: res, controller: ctrl }),
                        },
                    },
                }
            },
        }
    }

    /// Installs a freshly created and bound tasker on the instance.
    pub fn install_tasker(&mut self, id: &String, tasker: u64) -> (r: Result<(), MaaError>)
        requires
            old(self).wf(),
            tasker != 0,
        ensures
            final(self).wf(),
            MaaState::same_but_instances(old(self), final(self)),
            !contains_id(old(self).instances@, id@) ==> r == Err::<(), MaaError>(
                MaaError::InstanceNotFound,
            ) && final(self).instances@ == old(self).instances@,
            contains_id(old(self).instances@, id@) ==> {
                let i = find_index(old(self).instances@, id@);
                &&& r == Ok::<(), MaaError>(())
                &&& changed_only_at(old(self).instances@, final(self).instances@, i)
                &&& final(self).instances@[i].runtime.tasker == Some(tasker)
                &&& final(self).instances@[i].runtime.resource == old(
                    self,
                ).instances@[i].runtime.resource
                &&& final(self).instances@[i].runtime.controller == old(
                    self,
                ).instances@[i].runtime.controller
                &&& final(self).instances@[i].runtime.agent_client == old(
                    self,
                ).instances@[i].runtime.agent_client
                &&& final(self).instances@[i].runtime.agent_child == old(
                    self,
                ).instances@[i].runtime.agent_child
                &&& final(self).instances@[i].runtime.task_ids == old(
                    self,
                ).instances@[i].runtime.task_ids
                &&& same_stop_state(
                    old(self).instances@[i].runtime,
                    final(self).instances@[i].runtime,
                )
            },
    {
        proof {
            lemma_find_index(self.instances@, id@);
        }
        match self.find_instance(id) {
            None => Err(MaaError::InstanceNotFound),
            Some(i) => {
                let ghost pre = self.instances@;
                let entry = &mut self.instances[i];
                entry.runtime.tasker = Some(tasker);
                proof {
                    lemma_wf_update_same_id(pre, i as int, self.instances@[i as int]);
                    assert(changed_only_at(pre, self.instances@, i as int));
                }
                Ok(())
            },
        }
    }

    /// Appends a posted task id to the instance's history.
    pub fn record_task(&mut self, id: &String, task_id: i64) -> (r: Result<(), MaaError>)
        requires
            old(self).wf(),
        ensures
            final(self).wf(),
            MaaState::same_but_instances(old(self), final(self)),
            !contains_id(old(self).instances@, id@) ==> r == Err::<(), MaaError>(
                MaaError::InstanceNotFound,
            ) && final(self).instances@ == old(self).instances@,
            contains_id(old(self).instances@, id@) ==> {
                let i = find_index(old(self).instances@, id@);
                &&& r == Ok::<(), MaaError>(())
                &&& changed_only_at(old(self).instances@, final(self).instances@, i)
                &&& final(self).instances@[i].runtime.task_ids@ == old(
                    self,
                ).instances@[i].runtime.task_ids@.push(task_id)
                &&& same_handles(
                    old(self).instances@[i].runtime,
                    final(self).instances@[i].runtime,
                )
                &&& same_stop_state(
                    old(self).instances@[i].runtime,
                    final(self).instances@[i].runtime,
                )
            },
    {
        proof {
            lemma_find_index(self.instances@, id@);
        }
        match self.find_instance(id) {
            None => Err(MaaError::InstanceNotFound),
            Some(i) => {
                let ghost pre = self.instances@;
                let entry = &mut self.instances[i];
                entry.runtime.task_ids.push(task_id);
                proof {
                    lemma_wf_update_same_id(pre, i as int, self.instances@[i as int]);
                    assert(changed_only_at(pre, self.instances@, i as int));
                }
                Ok(())
            },
        }
    }

    /// Confirms a created controller and swaps it in: tears down the old
    /// controller and any tasker bound to it, installs the new controller,
    /// and reports the connection post's outcome. Once the new controller
    /// is confirmed non-null the swap happens even when the post failed.
    pub fn finish_connect_controller(&mut self, id: &String, created: u64, post_id: i64) -> (r: (
        Vec<ReleaseAction>,
        Result<i64, MaaError>,
    ))
        requires
            old(self).wf(),
        ensures
            final(self).wf(),
            MaaState::same_but_instances(old(self), final(self)),
            connect_post(
                old(self).instances@,
                final(self).instances@,
                id@,
                created,
                post_id,
                r.0@,
                r.1,
            ),
    {
        if created == 0 {
            return (Vec::new(), Err(MaaError::ControllerCreateFailed));
        }
        match self.find_instance(id) {
            None => (Vec::new(), Err(MaaError::InstanceNotFound)),
            Some(i) => {
                let ghost pre = self.instances@;
                let mut actions: Vec<ReleaseAction> = Vec::new();
                let entry = &mut self.instances[i];
                if let Some(c) = entry.runtime.controller {
                    actions.push(ReleaseAction::DestroyController(c));
                }
                if let Some(t) = entry.runtime.tasker {
                    actions.push(ReleaseAction::DestroyTasker(t));
                }
                entry.runtime.controller = Some(created);
                entry.runtime.tasker = None;
                proof {
                    lemma_wf_update_same_id(pre, i as int, self.instances@[i as int]);
                    assert(changed_only_at(pre, self.instances@, i as int));
                    assert(actions@ =~= (match pre[i as int].runtime.controller {
                        Some(c) => seq![ReleaseAction::DestroyController(c)],
                        None => Seq::<ReleaseAction>::empty(),
                    }) + (match pre[i as int].runtime.tasker {
                        Some(t) => seq![ReleaseAction::DestroyTasker(t)],
                        None => Seq::<ReleaseAction>::empty(),
                    }));
                }
                let result = if post_id == 0 {
                    Err(MaaError::PostConnectionFailed)
                } else {
                    Ok(post_id)
                };
                (actions, result)
            },
        }
    }

    /// Says whether the instance already holds a resource, and which.
    pub fn begin_load_resource(&self, id: &String) -> (r: Result<ResourceNeed, MaaError>)
        ensures
            !contains_id(self.instances@, id@) ==> r == Err::<ResourceNeed, MaaError>(
                MaaError::InstanceNotFound,
            ),
            contains_id(self.instances@, id@) ==> r == (match self.instances@[find_index(
                self.instances@,
                id@,
            )].runtime.resource {
                Some(h) => Ok::<ResourceNeed, MaaError>(ResourceNeed::Existing(h)),
                None => Ok::<ResourceNeed, MaaError>(ResourceNeed::MustCreate),
            }),
    {
        proof {
            lemma_find_index(self.instances@, id@);
        }
        match self.find_instance(id) {
            None => Err(MaaError::InstanceNotFound),
            Some(i) => match self.instances[i].runtime.resource {
                Some(h) => Ok(ResourceNeed::Existing(h)),
                None => Ok(ResourceNeed::MustCreate),
            },
        }
    }

    /// Installs a freshly created resource on the instance.
    pub fn install_resource(&mut self, id: &String, resource: u64) -> (r: Result<(), MaaError>)
        requires
            old(self).wf(),
            resource != 0,
        ensures
            final(self).wf(),
            MaaState::same_but_instances(old(self), final(self)),
            !contains_id(old(self).instances@, id@) ==> r == Err::<(), MaaError>(
                MaaError::InstanceNotFound,
            ) && final(self).instances@ == old(self).instances@,
            contains_id(old(self).instances@, id@) ==> {
                let i = find_index(old(self).instances@, id@);
                &&& r == Ok::<(), MaaError>(())
                &&& changed_only_at(old(self).instances@, final(self).instances@, i)
                &&& final(self).instances@[i].runtime.resource == Some(resource)
                &&& final(self).instances@[i].runtime.controller == old(
                    self,
                ).instances@[i].runtime.controller
                &&& final(self).instances@[i].runtime.tasker == old(
                    self,
                ).instances@[i].runtime.tasker
                &&& final(self).instances@[i].runtime.agent_client == old(
                    self,
                ).instances@[i].runtime.agent_client
                &&& final(self).instances@[i].runtime.agent_child == old(
                    self,
                ).instances@[i].runtime.agent_child
                &&& final(self).instances@[i].runtime.task_ids == old(
                    self,
                ).instances@[i].runtime.task_ids
                &&& same_stop_state(
                    old(self).instances@[i].runtime,
                    final(self).instances@[i].runtime,
                )
            },
    {
        proof {
            lemma_find_index(self.instances@, id@);
        }
        match self.find_instance(id) {
            None => Err(MaaError::InstanceNotFound),
            Some(i) => {
                let ghost pre = self.instances@;
                let entry = &mut self.instances[i];
                entry.runtime.resource = Some(resource);
                proof {
                    lemma_wf_update_same_id(pre, i as int, self.instances@[i as int]);
                    assert(changed_only_at(pre, self.instances@, i as int));
                }
                Ok(())
            },
        }
    }

    /// Drops the instance's resource, and with it any tasker bound to it,
    /// owing both teardown steps: resource replacement invalidates the
    /// tasker's binding just as controller replacement does.
    pub fn destroy_resource(&mut self, id: &String) -> (r: Result<Vec<ReleaseAction>, MaaError>)
        requires
            old(self).wf(),
        ensures
            final(self).wf(),
            MaaState::same_but_instances(old(self), final(self)),
            !contains_id(old(self).instances@, id@) ==> r == Err::<Vec<ReleaseAction>, MaaError>(
                MaaError::InstanceNotFound,
            ) && final(self).instances@ == old(self).instances@,
            contains_id(old(self).instances@, id@) ==> {
                let i = find_index(old(self).instances@, id@);
                &&& r matches Ok(actions) && actions@ == (match old(
                    self,
                ).instances@[i].runtime.resource {
                    Some(h) => seq![ReleaseAction::DestroyResource(h)],
                    None => Seq::<ReleaseAction>::empty(),
                }) + (match old(self).instances@[i].runtime.tasker {
                    Some(t) => seq![ReleaseAction::DestroyTasker(t)],
                    None => Seq::<ReleaseAction>::empty(),
                })
                &&& changed_only_at(old(self).instances@, final(self).instances@, i)
                &&& final(self).instances@[i].runtime.resource is None
                &&& final(self).instances@[i].runtime.tasker is None
                &&& final(self).instances@[i].runtime.controller == old(
                    self,
                ).instances@[i].runtime.controller
                &&& final(self).instances@[i].runtime.agent_client == old(
                    self,
                ).instances@[i].runtime.agent_client
                &&& final(self).instances@[i].runtime.agent_child == old(
                    self,
                ).instances@[i].runtime.agent_child
                &&& final(self).instances@[i].runtime.task_ids == old(
                    self,
                ).instances@[i].runtime.task_ids
                &&& same_stop_state(
                    old(self).instances@[i].runtime,
                    final(self).instances@[i].runtime,
                )
            },
    {
        proof {
            lemma_find_index(self.instances@, id@);
        }
        match self.find_instance(id) {
            None => Err(MaaError::InstanceNotFound),
            Some(i) => {
                let ghost pre = self.instances@;
                let mut actions: Vec<ReleaseAction> = Vec::new();
                let entry = &mut self.instances[i];
                if let Some(h) = entry.runtime.resource {
                    actions.push(ReleaseAction::DestroyResource(h));
                }
                if let Some(t) = entry.runtime.tasker {
                    actions.push(ReleaseAction::DestroyTasker(t));
                }
                entry.runtime.resource = None;
                entry.runtime.tasker = None;
                proof {
                    lemma_wf_update_same_id(pre, i as int, self.instances@[i as int]);
                    assert(changed_only_at(pre, self.instances@, i as int));
                    assert(actions@ =~= (match pre[i as int].runtime.resource {
                        Some(h) => seq![ReleaseAction::DestroyResource(h)],
                        None => Seq::<ReleaseAction>::empty(),
                    }) + (match pre[i as int].runtime.tasker {
                        Some(t) => seq![ReleaseAction::DestroyTasker(t)],
                        None => Seq::<ReleaseAction>::empty(),
                    }));
                }
                Ok(actions)
            },
        }
    }

    /// Applies the stop-throttling rule and updates the record: at most one
    /// native stop-post goes out per throttling window while the task runs.
    pub fn request_stop(&mut self, id: &String, now_ms: u64, is_running: bool) -> (r: Result<
        StopDecision,
        MaaError,
    >)
        requires
            old(self).wf(),
        ensures
            final(self).wf(),
            MaaState::same_but_instances(old(self), final(self)),
            !contains_id(old(self).instances@, id@) ==> r == Err::<StopDecision, MaaError>(
                MaaError::InstanceNotFound,
            ) && final(self).instances@ == old(self).instances@,
            contains_id(old(self).instances@, id@) && old(self).instances@[find_index(
                old(self).instances@,
                id@,
            )].runtime.tasker is None ==> r == Err::<StopDecision, MaaError>(MaaError::TaskerMissing)
                && final(self).instances@ == old(self).instances@,
            contains_id(old(self).instances@, id@) && old(self).instances@[find_index(
                old(self).instances@,
                id@,
            )].runtime.tasker is Some ==> {
                let i = find_index(old(self).instances@, id@);
                let pre_rt = old(self).instances@[i].runtime;
                &&& r == Ok::<StopDecision, MaaError>(stop_decision(pre_rt, now_ms, is_running))
                &&& changed_only_at(old(self).instances@, final(self).instances@, i)
                &&& stop_update(
                    pre_rt,
                    final(self).instances@[i].runtime,
                    now_ms,
                    stop_decision(pre_rt, now_ms, is_running),
                )
            },
    {
        proof {
            lemma_find_index(self.instances@, id@);
        }
        match self.find_instance(id) {
            None => Err(MaaError::InstanceNotFound),
            Some(i) => {
                let ghost pre = self.instances@;
                let entry = &mut self.instances[i];
                match entry.runtime.tasker {
                    None => Err(MaaError::TaskerMissing),
                    Some(tasker) => {
                        if entry.runtime.stop_in_progress {
                            if !is_running {
                                entry.runtime.stop_in_progress = false;
                                entry.runtime.stop_started_at = None;
                                proof {
                                    lemma_wf_update_same_id(pre, i as int, self.instances@[i as int]);
                                    assert(changed_only_at(pre, self.instances@, i as int));
                                }
                                return Ok(StopDecision::AlreadyIdle);
                            }
                            let elapsed: u64 = match entry.runtime.stop_started_at {
                                Some(t0) => if now_ms >= t0 {
                                    now_ms - t0
                                } else {
                                    0
                                },
                                None => 0,
                            };
                            if elapsed < STOP_REPOST_WINDOW_MS {
                                proof {
                                    assert(self.instances@ =~= pre);
                                }
                                return Ok(StopDecision::Throttled);
                            }
                        }
                        entry.runtime.stop_in_progress = true;
                        entry.runtime.stop_started_at = Some(now_ms);
                        entry.runtime.task_ids.clear();
                        proof {
                            lemma_wf_update_same_id(pre, i as int, self.instances@[i as int]);
                            assert(changed_only_at(pre, self.instances@, i as int));
                        }
                        Ok(StopDecision::PostStop(tasker))
                    },
                }
            },
        }
    }
}

/// Copies a task-id history.
fn copy_ids(v: &Vec<i64>) -> (r: Vec<i64>)
    ensures
        r@ == v@,
{
    let mut r: Vec<i64> = Vec::new();
    let n = v.len();
    let mut i: usize = 0;
    while i < n
        invariant
            i <= n,
            n == v@.len(),
            r@ == v@.subrange(0, i as int),
        decreases n - i,
    {
        r.push(v[i]);
        proof {
            assert(r@ =~= v@.subrange(0, i as int + 1));
        }
        i = i + 1;
    }
    proof {
        assert(v@.subrange(0, n as int) =~= v@);
    }
    r
}

/// The kill steps owed for every instance's helper child process, in
/// registry order.
pub open spec fn child_kills(s: Seq<InstanceEntry>) -> Seq<ReleaseAction>
    decreases s.len(),
{
    if s.len() == 0 {
        Seq::<ReleaseAction>::empty()
    } else {
        (match s[0].runtime.agent_child {
            Some(c) => seq![ReleaseAction::KillChild(c)],
            None => Seq::<ReleaseAction>::empty(),
        }) + child_kills(s.skip(1))
    }
}

/// Appending an entry appends its kill step, if any.
pub proof fn lemma_child_kills_push(s: Seq<InstanceEntry>, e: InstanceEntry)
    ensures
        child_kills(s.push(e)) == child_kills(s) + (match e.runtime.agent_child {
            Some(c) => seq![ReleaseAction::KillChild(c)],
            None => Seq::<ReleaseAction>::empty(),
        }),
    decreases s.len(),
{
    if s.len() == 0 {
        assert(s.push(e)[0] == e);
        assert(s.push(e).skip(1) =~= Seq::<InstanceEntry>::empty());
        assert(child_kills(s.push(e).skip(1)) == Seq::<ReleaseAction>::empty());
        assert(child_kills(s.push(e)) =~= child_kills(s) + (match e.runtime.agent_child {
            Some(c) => seq![ReleaseAction::KillChild(c)],
            None => Seq::<ReleaseAction>::empty(),
        }));
    } else {
        lemma_child_kills_push(s.skip(1), e);
        assert(s.push(e).skip(1) =~= s.skip(1).push(e));
        assert(s.push(e)[0] == s[0]);
        assert(child_kills(s.push(e)) =~= child_kills(s) + (match e.runtime.agent_child {
            Some(c) => seq![ReleaseAction::KillChild(c)],
            None => Seq::<ReleaseAction>::empty(),
        }));
    }
}

impl MaaState {
    /// Reads the instance's status flags from the native answers, treating
    /// an absent handle as a negative answer, and clears the stop flag as
    /// soon as the tasker is seen idle — the lazy half of stop completion.
    pub fn observe_instance(
        &mut self,
        id: &String,
        controller_connected: bool,
        resource_loaded: bool,
        tasker_inited: bool,
        tasker_running: bool,
    ) -> (r: Result<InstanceState, MaaError>)
        requires
            old(self).wf(),
        ensures
            final(self).wf(),
            MaaState::same_but_instances(old(self), final(self)),
            !contains_id(old(self).instances@, id@) ==> r == Err::<InstanceState, MaaError>(
                MaaError::InstanceNotFound,
            ) && final(self).instances@ == old(self).instances@,
            contains_id(old(self).instances@, id@) ==> {
                let i = find_index(old(self).instances@, id@);
                let pre_rt = old(self).instances@[i].runtime;
                let seen_running = pre_rt.tasker is Some && tasker_running;
                &&& r matches Ok(st) && {
                    &&& st.connected == (pre_rt.controller is Some && controller_connected)
                    &&& st.resource_loaded == (pre_rt.resource is Some && resource_loaded)
                    &&& st.tasker_inited == (pre_rt.tasker is Some && tasker_inited)
                    &&& st.is_running == seen_running
                    &&& st.task_ids@ == pre_rt.task_ids@
                }
                &&& changed_only_at(old(self).instances@, final(self).instances@, i)
                &&& same_handles(pre_rt, final(self).instances@[i].runtime)
                &&& final(self).instances@[i].runtime.task_ids == pre_rt.task_ids
                &&& !seen_running ==> {
                    &&& !final(self).instances@[i].runtime.stop_in_progress
                    &&& final(self).instances@[i].runtime.stop_started_at is None
                }
                &&& seen_running ==> same_stop_state(pre_rt, final(self).instances@[i].runtime)
            },
    {
        proof {
            lemma_find_index(self.instances@, id@);
        }
        match self.find_instance(id) {
            None => Err(MaaError::InstanceNotFound),
            Some(i) => {
                let ghost pre = self.instances@;
                let entry = &mut self.instances[i];
                let connected = entry.runtime.controller.is_some() && controller_connected;
                let loaded = entry.runtime.resource.is_some() && resource_loaded;
                let inited = entry.runtime.tasker.is_some() && tasker_inited;
                let running = entry.runtime.tasker.is_some() && tasker_running;
                if !running {
                    entry.runtime.stop_in_progress = false;
                    entry.runtime.stop_started_at = None;
                }
                let task_ids = copy_ids(&entry.runtime.task_ids);
                proof {
                    lemma_wf_update_same_id(pre, i as int, self.instances@[i as int]);
                    assert(changed_only_at(pre, self.instances@, i as int));
                }
                Ok(InstanceState {
                    connected,
                    resource_loaded: loaded,
                    tasker_inited: inited,
                    is_running: running,
                    task_ids,
                })
            },
        }
    }

    /// The tasker to query for running state: an instance without a tasker
    /// simply is not running, which is an answer, not an error.
    pub fn running_probe(&self, id: &String) -> (r: Result<Option<u64>, MaaError>)
        ensures
            !contains_id(self.instances@, id@) ==> r == Err::<Option<u64>, MaaError>(
                MaaError::InstanceNotFound,
            ),
            contains_id(self.instances@, id@) ==> r == Ok::<Option<u64>, MaaError>(
                self.instances@[find_index(self.instances@, id@)].runtime.tasker,
            ),
    {
        proof {
            lemma_find_index(self.instances@, id@);
        }
        match self.find_instance(id) {
            None => Err(MaaError::InstanceNotFound),
            Some(i) => Ok(self.instances[i].runtime.tasker),
        }
    }

    /// The resource to query for loaded state: an instance without a
    /// resource reports not loaded, which is an answer, not an error.
    pub fn resource_probe(&self, id: &String) -> (r: Result<Option<u64>, MaaError>)
        ensures
            !contains_id(self.instances@, id@) ==> r == Err::<Option<u64>, MaaError>(
                MaaError::InstanceNotFound,
            ),
            contains_id(self.instances@, id@) ==> r == Ok::<Option<u64>, MaaError>(
                self.instances@[find_index(self.instances@, id@)].runtime.resource,
            ),
    {
        proof {
            lemma_find_index(self.instances@, id@);
        }
        match self.find_instance(id) {
            None => Err(MaaError::InstanceNotFound),
            Some(i) => Ok(self.instances[i].runtime.resource),
        }
    }

    /// The controller to query for connection state, as above.
    pub fn controller_probe(&self, id: &String) -> (r: Result<Option<u64>, MaaError>)
        ensures
            !contains_id(self.instances@, id@) ==> r == Err::<Option<u64>, MaaError>(
                MaaError::InstanceNotFound,
            ),
            contains_id(self.instances@, id@) ==> r == Ok::<Option<u64>, MaaError>(
                self.instances@[find_index(self.instances@, id@)].runtime.controller,
            ),
    {
        proof {
            lemma_find_index(self.instances@, id@);
        }
        match self.find_instance(id) {
            None => Err(MaaError::InstanceNotFound),
            Some(i) => Ok(self.instances[i].runtime.controller),
        }
    }

    /// The controller handle an operation requires: missing instance and
    /// missing controller are distinct errors.
    pub fn controller_handle(&self, id: &String) -> (r: Result<u64, MaaError>)
        ensures
            !contains_id(self.instances@, id@) ==> r == Err::<u64, MaaError>(
                MaaError::InstanceNotFound,
            ),
            contains_id(self.instances@, id@) ==> r == (match self.instances@[find_index(
                self.instances@,
                id@,
            )].runtime.controller {
                Some(h) => Ok::<u64, MaaError>(h),
                None => Err::<u64, MaaError>(MaaError::ControllerMissing),
            }),
    {
        proof {
            lemma_find_index(self.instances@, id@);
        }
        match self.find_instance(id) {
            None => Err(MaaError::InstanceNotFound),
            Some(i) => match self.instances[i].runtime.controller {
                Some(h) => Ok(h),
                None => Err(MaaError::ControllerMissing),
            },
        }
    }

    /// The tasker handle an operation requires: missing instance and
    /// missing tasker are distinct errors.
    pub fn tasker_handle(&self, id: &String) -> (r: Result<u64, MaaError>)
        ensures
            !contains_id(self.instances@, id@) ==> r == Err::<u64, MaaError>(
                MaaError::InstanceNotFound,
            ),
            contains_id(self.instances@, id@) ==> r == (match self.instances@[find_index(
                self.instances@,
                id@,
            )].runtime.tasker {
                Some(h) => Ok::<u64, MaaError>(h),
                None => Err::<u64, MaaError>(MaaError::TaskerMissing),
            }),
    {
        proof {
            lemma_find_index(self.instances@, id@);
        }
        match self.find_instance(id) {
            None => Err(MaaError::InstanceNotFound),
            Some(i) => match self.instances[i].runtime.tasker {
                Some(h) => Ok(h),
                None => Err(MaaError::TaskerMissing),
            },
        }
    }

    /// Admits a pipeline override only when the optional native entry point
    /// was resolved at load time: an old native library gives a distinct
    /// error, never a silent no-op.
    pub fn begin_override_pipeline(&self, id: &String, capability_available: bool) -> (r: Result<
        u64,
        MaaError,
    >)
        ensures
            !contains_id(self.instances@, id@) ==> r == Err::<u64, MaaError>(
                MaaError::InstanceNotFound,
            ),
            contains_id(self.instances@, id@) ==> r == (match self.instances@[find_index(
                self.instances@,
                id@,
            )].runtime.tasker {
                Some(h) => if capability_available {
                    Ok::<u64, MaaError>(h)
                } else {
                    Err::<u64, MaaError>(MaaError::OverridePipelineUnavailable)
                },
                None => Err::<u64, MaaError>(MaaError::TaskerMissing),
            }),
    {
        proof {
            lemma_find_index(self.instances@, id@);
        }
        match self.find_instance(id) {
            None => Err(MaaError::InstanceNotFound),
            Some(i) => match self.instances[i].runtime.tasker {
                Some(h) => if capability_available {
                    Ok(h)
                } else {
                    Err(MaaError::OverridePipelineUnavailable)
                },
                None => Err(MaaError::TaskerMissing),
            },
        }
    }

    /// Takes every instance's helper child process away, owing one kill
    /// step per child, in registry order. Used at shutdown.
    pub fn cleanup_all_agent_children(&mut self) -> (r: Vec<ReleaseAction>)
        requires
            old(self).wf(),
        ensures
            final(self).wf(),
            MaaState::same_but_instances(old(self), final(self)),
            r@ == child_kills(old(self).instances@),
            final(self).instances@.len() == old(self).instances@.len(),
            forall|k: int|
                0 <= k < old(self).instances@.len() ==> {
                    &&& (#[trigger] final(self).instances@[k]).id == old(self).instances@[k].id
                    &&& final(self).instances@[k].runtime.agent_child is None
                    &&& final(self).instances@[k].runtime.resource == old(
                        self,
                    ).instances@[k].runtime.resource
                    &&& final(self).instances@[k].runtime.controller == old(
                        self,
                    ).instances@[k].runtime.controller
                    &&& final(self).instances@[k].runtime.tasker == old(
                        self,
                    ).instances@[k].runtime.tasker
                    &&& final(self).instances@[k].runtime.agent_client == old(
                        self,
                    ).instances@[k].runtime.agent_client
                    &&& final(self).instances@[k].runtime.task_ids == old(
                        self,
                    ).instances@[k].runtime.task_ids
                    &&& same_stop_state(
                        old(self).instances@[k].runtime,
                        final(self).instances@[k].runtime,
                    )
                },
    {
        let ghost pre = self.instances@;
        let mut r: Vec<ReleaseAction> = Vec::new();
        let n = self.instances.len();
        let mut i: usize = 0;
        while i < n
            invariant
                i <= n,
                n == self.instances@.len(),
                n == pre.len(),
                wf_entries(self.instances@),
                MaaState::same_but_instances(old(self), self),
                r@ == child_kills(pre.subrange(0, i as int)),
                forall|k: int|
                    i <= k < n ==> (#[trigger] self.instances@[k]) == pre[k],
                forall|k: int|
                    0 <= k < i ==> {
                        &&& (#[trigger] self.instances@[k]).id == pre[k].id
                        &&& self.instances@[k].runtime.agent_child is None
                        &&& self.instances@[k].runtime.resource == pre[k].runtime.resource
                        &&& self.instances@[k].runtime.controller == pre[k].runtime.controller
                        &&& self.instances@[k].runtime.tasker == pre[k].runtime.tasker
                        &&& self.instances@[k].runtime.agent_client == pre[k].runtime.agent_client
                        &&& self.instances@[k].runtime.task_ids == pre[k].runtime.task_ids
                        &&& same_stop_state(pre[k].runtime, self.instances@[k].runtime)
                    },
            decreases n - i,
        {
            let ghost snap = self.instances@;
            let entry = &mut self.instances[i];
            if let Some(c) = entry.runtime.agent_child {
                r.push(ReleaseAction::KillChild(c));
            }
            entry.runtime.agent_child = None;
            proof {
                lemma_wf_update_same_id(snap, i as int, self.instances@[i as int]);
                assert(pre.subrange(0, i as int + 1).drop_last() =~= pre.subrange(0, i as int));
                assert(pre.subrange(0, i as int + 1) =~= pre.subrange(0, i as int).push(
                    pre[i as int],
                ));
                lemma_child_kills_push(pre.subrange(0, i as int), pre[i as int]);
            }
            i = i + 1;
        }
        proof {
            assert(pre.subrange(0, n as int) =~= pre);
        }
        r
    }

    /// The ids of every instance, in registry order.
    pub fn instance_ids(&self) -> (r: Vec<String>)
        ensures
            r@.len() == self.instances@.len(),
            forall|k: int| 0 <= k < r@.len() ==> (#[trigger] r@[k])@ == self.instances@[k].id@,
    {
        let mut r: Vec<String> = Vec::new();
        let n = self.instances.len();
        let mut i: usize = 0;
        while i < n
            invariant
                i <= n,
                n == self.instances@.len(),
                r@.len() == i,
                forall|k: int| 0 <= k < i ==> (#[trigger] r@[k])@ == self.instances@[k].id@,
            decreases n - i,
        {
            r.push(self.instances[i].id.clone());
            i = i + 1;
        }
        r
    }

    /// Records the library directory for later version checks.
    pub fn set_lib_dir(&mut self, dir: String)
        ensures
            final(self).lib_dir == Some(dir),
            final(self).resource_dir == old(self).resource_dir,
            final(self).instances == old(self).instances,
            final(self).cached_adb_devices == old(self).cached_adb_devices,
            final(self).cached_win32_windows == old(self).cached_win32_windows,
    {
        self.lib_dir = Some(dir);
    }

    /// Records the resource directory.
    pub fn set_resource_dir(&mut self, dir: String)
        ensures
            final(self).resource_dir == Some(dir),
            final(self).lib_dir == old(self).lib_dir,
            final(self).instances == old(self).instances,
            final(self).cached_adb_devices == old(self).cached_adb_devices,
            final(self).cached_win32_windows == old(self).cached_win32_windows,
    {
        self.resource_dir = Some(dir);
    }

    /// Replaces the device cache wholesale with the latest discovery run.
    pub fn set_cached_adb_devices(&mut self, devices: Vec<AdbDevice>)
        ensures
            final(self).cached_adb_devices == devices,
            final(self).lib_dir == old(self).lib_dir,
            final(self).resource_dir == old(self).resource_dir,
            final(self).instances == old(self).instances,
            final(self).cached_win32_windows == old(self).cached_win32_windows,
    {
        self.cached_adb_devices = devices;
    }

    /// Replaces the window cache wholesale with the latest discovery run.
    pub fn set_cached_win32_windows(&mut self, windows: Vec<Win32Window>)
        ensures
            final(self).cached_win32_windows == windows,
            final(self).lib_dir == old(self).lib_dir,
            final(self).resource_dir == old(self).resource_dir,
            final(self).instances == old(self).instances,
            final(self).cached_adb_devices == old(self).cached_adb_devices,
    {
        self.cached_win32_windows = windows;
    }

    /// Reads the device cache without triggering rediscovery.
    pub fn get_cached_adb_devices(&self) -> (r: &Vec<AdbDevice>)
        ensures
            r == &self.cached_adb_devices,
    {
        &self.cached_adb_devices
    }

    /// Reads the window cache without triggering rediscovery.
    pub fn get_cached_win32_windows(&self) -> (r: &Vec<Win32Window>)
        ensures
            r == &self.cached_win32_windows,
    {
        &self.cached_win32_windows
    }
}

/// Assembles the state-recovery snapshot. Before any native library is
/// loaded the instance map is empty — an answer, not an error — while the
/// discovery caches are reported either way.
pub fn all_states(
    lib_loaded: bool,
    instance_states: Vec<(String, InstanceState)>,
    devices: Vec<AdbDevice>,
    windows: Vec<Win32Window>,
) -> (r: crate::types::AllInstanceStates)
    ensures
        lib_loaded ==> r.instances == instance_states,
        !lib_loaded ==> r.instances@.len() == 0,
        r.cached_adb_devices == devices,
        r.cached_win32_windows == windows,
{
    crate::types::AllInstanceStates {
        instances: if lib_loaded {
            instance_states
        } else {
            Vec::new()
        },
        cached_adb_devices: devices,
        cached_win32_windows: windows,
    }
}

/// With unique ids, replacing one entry with one of the same id keeps the
/// ids unique.
pub proof fn lemma_wf_update_same_id(pre: Seq<InstanceEntry>, i: int, e: InstanceEntry)
    requires
        wf_entries(pre),
        0 <= i < pre.len(),
        pre.update(i, e)[i].id@ == pre[i].id@,
    ensures
        wf_entries(pre.update(i, e)),
{
    let post = pre.update(i, e);
    assert forall|a: int, b: int| 0 <= a < b < post.len() implies post[a].id@ != post[b].id@ by {
        assert(pre[a].id@ != pre[b].id@);
        if a != i {
            assert(post[a] == pre[a]);
        }
        if b != i {
            assert(post[b] == pre[b]);
        }
    }
}

} // verus!
