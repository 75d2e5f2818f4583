//! The record of local agent turns: registration, outcomes, queries and pruning.

use vstd::prelude::*;
use dashmap::DashMap;
use crate::clock::{is_older_than, older_than, Timestamp};
use crate::local_agent::types::{LocalAgentTaskStatus, TaskQueryResponse};

verus! {

#[verifier::external_type_specification]
#[verifier::external_body]
#[verifier::reject_recursive_types(K)]
#[verifier::reject_recursive_types(V)]
#[verifier::reject_recursive_types(S)]
pub struct ExDashMap<K, V, S>(DashMap<K, V, S>);

/// The turn to track, with the session that runs it.
#[derive(Debug)]
pub struct TaskRegistration {
    pub turn_id: String,
    pub session_id: String,
    pub session_name: String,
}

/// What the tracker keeps of a turn: its current answer and when it was registered.
#[derive(Debug, PartialEq, Eq)]
pub struct TrackedTask {
    pub response: TaskQueryResponse,
    pub created_at: Timestamp,
}

impl Clone for TrackedTask {
    fn clone(&self) -> (r: Self)
        ensures
            r == *self,
    {
        TrackedTask { response: self.response.clone(), created_at: self.created_at }
    }
}

/// How a turn ended.
#[derive(Debug)]
pub enum TurnOutcome {
    Completed { turn_id: String, final_response: String },
    Cancelled { turn_id: String },
    Failed { turn_id: String, error: String },
}

impl TurnOutcome {
    /// The turn that the outcome belongs to.
    pub open spec fn spec_turn_id(self) -> String {
        match self {
            TurnOutcome::Completed { turn_id, .. } => turn_id,
            TurnOutcome::Cancelled { turn_id } => turn_id,
            TurnOutcome::Failed { turn_id, .. } => turn_id,
        }
    }

    /// The turn that the outcome belongs to.
    pub fn turn_id(&self) -> (r: &str)
        ensures
            r@ == self.spec_turn_id()@,
    {
        match self {
            TurnOutcome::Completed { turn_id, .. } => turn_id.as_str(),
            TurnOutcome::Cancelled { turn_id } => turn_id.as_str(),
            TurnOutcome::Failed { turn_id, .. } => turn_id.as_str(),
        }
    }
}

/// The table of tracked turns, keyed by turn id.
pub type TaskTable = DashMap<String, TrackedTask>;

/// The entries of a task table, by turn id.
pub uninterp spec fn tracked_tasks(table: TaskTable) -> Map<Seq<char>, TrackedTask>;

/// `DashMap::new`: an empty table.
#[verifier::external_body]
fn table_new() -> (r: TaskTable)
    ensures
        tracked_tasks(r) =~= Map::empty(),
{
    DashMap::new()
}

/// `DashMap::insert`: the entry of `key` becomes `task`, whether or not it was there.
#[verifier::external_body]
fn table_insert(table: &mut TaskTable, key: String, task: TrackedTask)
    ensures
        tracked_tasks(*final(table)) == tracked_tasks(*old(table)).insert(key@, task),
{
    table.insert(key, task);
}

/// `DashMap::remove`: the entry of `key` is gone, the others stay.
#[verifier::external_body]
fn table_remove(table: &mut TaskTable, key: &str)
    ensures
        tracked_tasks(*final(table)) == tracked_tasks(*old(table)).remove(key@),
{
    table.remove(key);
}

/// `DashMap::get`, the entry cloned out of the guard.
#[verifier::external_body]
fn table_get(table: &TaskTable, key: &str) -> (r: Option<TrackedTask>)
    ensures
        match r {
            Some(task) => tracked_tasks(*table).contains_key(key@) && task == tracked_tasks(*table)[key@],
            None => !tracked_tasks(*table).contains_key(key@),
        },
{
    table.get(key).map(|entry| entry.value().clone())
}

/// `DashMap::iter`: every entry once, each key with its value, in no stated order.
#[verifier::external_body]
fn table_entries(table: &TaskTable) -> (r: Vec<(String, TrackedTask)>)
    ensures
        forall|i: int, j: int|
            0 <= i < r@.len() && 0 <= j < r@.len() && i != j ==> #[trigger] r@[i].0@ != #[trigger] r@[j].0@,
        forall|i: int|
            0 <= i < r@.len() ==> tracked_tasks(*table).contains_key(#[trigger] r@[i].0@)
                && tracked_tasks(*table)[r@[i].0@] == r@[i].1,
        forall|k: Seq<char>|
            tracked_tasks(*table).contains_key(k) ==> exists|i: int| 0 <= i < r@.len() && #[trigger] r@[i].0@ == k,
{
    table.iter().map(|entry| (entry.key().clone(), entry.value().clone())).collect()
}

/// An hour, in nanoseconds: how long a task stays by default.
pub const DEFAULT_TASK_TTL_NANOS: u128 = 3_600_000_000_000;

/// The answer that a newly registered turn has.
pub open spec fn running_response(registration: TaskRegistration) -> TaskQueryResponse {
    TaskQueryResponse {
        status: LocalAgentTaskStatus::Running,
        session_id: Some(registration.session_id),
        session_name: Some(registration.session_name),
        turn_id: registration.turn_id,
        final_response: None,
        error: None,
    }
}

/// The answer for a turn that the tracker does not hold.
pub open spec fn not_found_response(turn_id: Seq<char>, r: TaskQueryResponse) -> bool {
    &&& r.status == LocalAgentTaskStatus::NotFound
    &&& r.session_id is None
    &&& r.session_name is None
    &&& r.turn_id@ == turn_id
    &&& r.final_response is None
    &&& r.error is None
}

/// The task after `outcome`: its status, final response and error follow the
/// outcome, the rest stays.
pub open spec fn with_outcome(task: TrackedTask, outcome: TurnOutcome) -> TrackedTask {
    let (status, final_response, error) = match outcome {
        TurnOutcome::Completed { final_response, .. } => (LocalAgentTaskStatus::Completed, Some(final_response), None),
        TurnOutcome::Cancelled { .. } => (LocalAgentTaskStatus::Cancelled, None, None),
        TurnOutcome::Failed { error, .. } => (LocalAgentTaskStatus::Failed, None, Some(error)),
    };
    TrackedTask {
        response: TaskQueryResponse {
            status,
            session_id: task.response.session_id,
            session_name: task.response.session_name,
            turn_id: task.response.turn_id,
            final_response,
            error,
        },
        created_at: task.created_at,
    }
}

/// The task belongs to the session `session_id`.
pub open spec fn owned_by(task: TrackedTask, session_id: Seq<char>) -> bool {
    match task.response.session_id {
        Some(s) => s@ == session_id,
        None => false,
    }
}

/// The tasks that are not older than `max_age_nanos` at `now`.
pub open spec fn unexpired(
    tasks: Map<Seq<char>, TrackedTask>,
    now: Timestamp,
    max_age_nanos: int,
) -> Map<Seq<char>, TrackedTask> {
    tasks.restrict(Set::new(|k: Seq<char>| !older_than(tasks[k].created_at, now, max_age_nanos)))
}

/// The turns of the local agent API and what is known of each.
#[derive(Debug)]
pub struct TaskResultTracker {
    tasks: TaskTable,
    default_ttl_nanos: u128,
}

impl View for TaskResultTracker {
    type V = Map<Seq<char>, TrackedTask>;

    closed spec fn view(&self) -> Map<Seq<char>, TrackedTask> {
        tracked_tasks(self.tasks)
    }
}

impl TaskResultTracker {
    /// How long a task stays before a registration prunes it, in nanoseconds.
    pub closed spec fn ttl(&self) -> int {
        self.default_ttl_nanos as int
    }

    /// Every task's time of registration fits a `Duration`, and every task's answer
    /// names the turn it is kept under.
    #[verifier::type_invariant]
    closed spec fn well_formed(&self) -> bool {
        forall|k: Seq<char>|
            #[trigger] self@.contains_key(k) ==> self@[k].created_at.bounded() && self@[k].response.turn_id@ == k
    }

    /// An empty tracker whose tasks stay for `ttl_nanos` nanoseconds.
    pub fn with_ttl(ttl_nanos: u128) -> (r: Self)
        ensures
            r@ == Map::<Seq<char>, TrackedTask>::empty(),
            r.ttl() == ttl_nanos,
    {
        TaskResultTracker { tasks: table_new(), default_ttl_nanos: ttl_nanos }
    }

    /// Registers a turn at the current time (see `register_at`).
    pub fn register(&mut self, registration: TaskRegistration)
        ensures
            final(self).ttl() == old(self).ttl(),
            exists|now: Timestamp|
                now.bounded() && final(self)@ == unexpired(old(self)@, now, old(self).ttl()).insert(
                    registration.turn_id@,
                    TrackedTask { response: running_response(registration), created_at: now },
                ),
    {
        let now = Timestamp::now();
        self.register_at(registration, now);
    }

    /// Registers a turn at `now`: the tasks older than the tracker's time to live
    /// are pruned first, then the turn is tracked as running in its session.
    pub fn register_at(&mut self, registration: TaskRegistration, now: Timestamp)
        requires
            now.bounded(),
        ensures
            final(self).ttl() == old(self).ttl(),
            final(self)@ == unexpired(old(self)@, now, old(self).ttl()).insert(
                registration.turn_id@,
                TrackedTask { response: running_response(registration), created_at: now },
            ),
    {
        let ttl = self.default_ttl_nanos;
        self.prune_expired_at(ttl, now);
        proof {
            use_type_invariant(&*self);
        }
        let ghost reg = registration;
        let key = registration.turn_id.clone();
        let task = TrackedTask {
            response: TaskQueryResponse {
                status: LocalAgentTaskStatus::Running,
                session_id: Some(registration.session_id),
                session_name: Some(registration.session_name),
                turn_id: registration.turn_id,
                final_response: None,
                error: None,
            },
            created_at: now,
        };
        assert(task.response == running_response(reg));
        let mut table = table_new();
        std::mem::swap(&mut table, &mut self.tasks);
        table_insert(&mut table, key, task);
        self.tasks = table;
    }

    /// What is known of the turn, if the tracker holds it.
    pub fn query(&self, turn_id: &str) -> (r: Option<TaskQueryResponse>)
        ensures
            match r {
                Some(response) => self@.contains_key(turn_id@) && response == self@[turn_id@].response
                    && response.turn_id@ == turn_id@,
                None => !self@.contains_key(turn_id@),
            },
    {
        proof {
            use_type_invariant(self);
        }
        match table_get(&self.tasks, turn_id) {
            Some(task) => Some(task.response),
            None => None,
        }
    }

    /// What is known of the turn, or a `NotFound` answer for it.
    pub fn query_or_not_found(&self, turn_id: &str) -> (r: TaskQueryResponse)
        ensures
            self@.contains_key(turn_id@) ==> r == self@[turn_id@].response,
            !self@.contains_key(turn_id@) ==> not_found_response(turn_id@, r),
            r.turn_id@ == turn_id@,
    {
        match self.query(turn_id) {
            Some(response) => response,
            None => TaskQueryResponse {
                status: LocalAgentTaskStatus::NotFound,
                session_id: None,
                session_name: None,
                turn_id: String::from_str(turn_id),
                final_response: None,
                error: None,
            },
        }
    }

    /// The turn's answer when the turn is tracked and no longer running.
    pub fn settled(&self, turn_id: &str) -> (r: Option<TaskQueryResponse>)
        ensures
            match r {
                Some(response) => self@.contains_key(turn_id@)
                    && response == self@[turn_id@].response
                    && response.status != LocalAgentTaskStatus::Running,
                None => !self@.contains_key(turn_id@)
                    || self@[turn_id@].response.status == LocalAgentTaskStatus::Running,
            },
    {
        match self.query(turn_id) {
            Some(response) => {
                if response.status != LocalAgentTaskStatus::Running {
                    Some(response)
                } else {
                    None
                }
            },
            None => None,
        }
    }

    /// Records how a turn ended. Only a tracked turn of the session `session_id`
    /// changes; any other outcome is ignored.
    pub fn record_outcome(&mut self, session_id: &str, outcome: TurnOutcome) -> (changed: bool)
        ensures
            final(self).ttl() == old(self).ttl(),
            changed == (old(self)@.contains_key(outcome.spec_turn_id()@) && owned_by(
                old(self)@[outcome.spec_turn_id()@],
                session_id@,
            )),
            ({
                let k = outcome.spec_turn_id()@;
                if old(self)@.contains_key(k) && owned_by(old(self)@[k], session_id@) {
                    final(self)@ == old(self)@.insert(k, with_outcome(old(self)@[k], outcome))
                } else {
                    final(self)@ == old(self)@
                }
            }),
    {
        proof {
            use_type_invariant(&*self);
        }
        let ghost g_outcome = outcome;
        let turn_id = String::from_str(outcome.turn_id());
        let entry = table_get(&self.tasks, turn_id.as_str());
        let task = match entry {
            Some(task) => task,
            None => return false,
        };
        let owned = match &task.response.session_id {
            Some(s) => crate::text::str_eq(s.as_str(), session_id),
            None => false,
        };
        if !owned {
            return false;
        }
        let TrackedTask { response, created_at } = task;
        let TaskQueryResponse { status: _, session_id: sid, session_name, turn_id: tid, final_response: _, error: _ } = response;
        let updated = match outcome {
            TurnOutcome::Completed { final_response, .. } => TrackedTask {
                response: TaskQueryResponse {
                    status: LocalAgentTaskStatus::Completed,
                    session_id: sid,
                    session_name,
                    turn_id: tid,
                    final_response: Some(final_response),
                    error: None,
                },
                created_at,
            },
            TurnOutcome::Cancelled { .. } => TrackedTask {
                response: TaskQueryResponse {
                    status: LocalAgentTaskStatus::Cancelled,
                    session_id: sid,
                    session_name,
                    turn_id: tid,
                    final_response: None,
                    error: None,
                },
                created_at,
            },
            TurnOutcome::Failed { error, .. } => TrackedTask {
                response: TaskQueryResponse {
                    status: LocalAgentTaskStatus::Failed,
                    session_id: sid,
                    session_name,
                    turn_id: tid,
                    final_response: None,
                    error: Some(error),
                },
                created_at,
            },
        };
        let ghost k = g_outcome.spec_turn_id()@;
        assert(updated == with_outcome(self@[k], g_outcome));
        let mut table = table_new();
        std::mem::swap(&mut table, &mut self.tasks);
        table_insert(&mut table, turn_id, updated);
        self.tasks = table;
        true
    }

    /// Removes, at the current time, the tasks older than `max_age_nanos` (see
    /// `prune_expired_at`).
    pub fn prune_older_than(&mut self, max_age_nanos: u128)
        ensures
            final(self).ttl() == old(self).ttl(),
            exists|now: Timestamp| now.bounded() && final(self)@ == unexpired(old(self)@, now, max_age_nanos as int),
    {
        let now = Timestamp::now();
        self.prune_expired_at(max_age_nanos, now);
    }

    /// Removes the tasks that are older than `max_age_nanos` at `now`; a task whose
    /// registration lies after `now` stays.
    pub fn prune_expired_at(&mut self, max_age_nanos: u128, now: Timestamp)
        requires
            now.bounded(),
        ensures
            final(self).ttl() == old(self).ttl(),
            final(self)@ == unexpired(old(self)@, now, max_age_nanos as int),
    {
        proof {
            use_type_invariant(&*self);
        }
        let ghost start = self@;
        let mut table = table_new();
        std::mem::swap(&mut table, &mut self.tasks);
        let entries = table_entries(&table);
        let n = entries.len();
        let mut i: usize = 0;
        while i < n
            invariant
                n == entries@.len(),
                0 <= i <= n,
                self.default_ttl_nanos == old(self).default_ttl_nanos,
                start == old(self)@,
                now.bounded(),
                forall|a: int, b: int|
                    0 <= a < entries@.len() && 0 <= b < entries@.len() && a != b
                        ==> #[trigger] entries@[a].0@ != #[trigger] entries@[b].0@,
                forall|a: int|
                    0 <= a < entries@.len() ==> start.contains_key(#[trigger] entries@[a].0@)
                        && start[entries@[a].0@] == entries@[a].1,
                forall|k: Seq<char>|
                    start.contains_key(k) ==> exists|a: int| 0 <= a < entries@.len() && #[trigger] entries@[a].0@ == k,
                forall|k: Seq<char>|
                    #[trigger] start.contains_key(k) ==> start[k].created_at.bounded() && start[k].response.turn_id@ == k,
                // the map so far: the expired keys among the first `i` entries are gone
                forall|k: Seq<char>|
                    #[trigger] tracked_tasks(table).contains_key(k) <==> (start.contains_key(k) && !(exists|a: int|
                        0 <= a < i && entries@[a].0@ == k && older_than(start[k].created_at, now, max_age_nanos as int))),
                forall|k: Seq<char>| #[trigger] tracked_tasks(table).contains_key(k) ==> tracked_tasks(table)[k] == start[k],
            decreases n - i,
        {
            let created = entries[i].1.created_at;
            let ghost ki = entries@[i as int].0@;
            let ghost prev = tracked_tasks(table);
            assert(start.contains_key(ki));
            let expired = is_older_than(created, now, max_age_nanos);
            if expired {
                table_remove(&mut table, entries[i].0.as_str());
            }
            proof {
                assert(!(exists|a: int| 0 <= a < i && entries@[a].0@ == ki)) by {
                    if exists|a: int| 0 <= a < i && entries@[a].0@ == ki {
                        let a = choose|a: int| 0 <= a < i && entries@[a].0@ == ki;
                        assert(entries@[a].0@ != entries@[i as int].0@);
                    }
                }
                assert forall|k: Seq<char>|
                    #[trigger] tracked_tasks(table).contains_key(k) <==> (start.contains_key(k) && !(exists|a: int|
                        0 <= a < i + 1 && entries@[a].0@ == k && older_than(start[k].created_at, now, max_age_nanos as int))) by {
                    if k == ki {
                        if expired {
                            assert(entries@[i as int].0@ == k);
                        } else {
                            assert(prev.contains_key(k));
                        }
                    } else {
                        assert(prev.contains_key(k) == tracked_tasks(table).contains_key(k));
                        if exists|a: int| 0 <= a < i + 1 && entries@[a].0@ == k && older_than(start[k].created_at, now, max_age_nanos as int) {
                            let a = choose|a: int| 0 <= a < i + 1 && entries@[a].0@ == k && older_than(start[k].created_at, now, max_age_nanos as int);
                            assert(a != i as int);
                        }
                    }
                }
            }
            i = i + 1;
        }
        proof {
            let target = unexpired(start, now, max_age_nanos as int);
            assert forall|k: Seq<char>| #[trigger] tracked_tasks(table).contains_key(k) <==> target.contains_key(k) by {
                if start.contains_key(k) {
                    let a = choose|a: int| 0 <= a < entries@.len() && #[trigger] entries@[a].0@ == k;
                    assert(entries@[a].0@ == k);
                }
            }
            assert(tracked_tasks(table) =~= target);
        }
        self.tasks = table;
    }
}

impl Default for TaskResultTracker {
    /// An empty tracker whose tasks stay for an hour.
    fn default() -> (r: Self)
        ensures
            r@ == Map::<Seq<char>, TrackedTask>::empty(),
            r.ttl() == DEFAULT_TASK_TTL_NANOS,
    {
        Self::with_ttl(DEFAULT_TASK_TTL_NANOS)
    }
}

} // verus!
