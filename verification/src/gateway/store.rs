//! The task store: a map from task id to task record that admits only
//! well-formed records and only forward steps of the status.

use crate::common::error::{ErrorKind, McpError, McpResult};
use crate::common::models::TaskStatus;
use crate::common::text::{lex_le, str_equal, str_le};
use crate::gateway::messages::{TaskRecord, TaskRecordView, TaskResult};
use dashmap::DashMap;
use vstd::prelude::*;

verus! {

/// Concurrent hash map of `dashmap`; opaque to the library, which reads
/// and writes it through the functions below.
#[verifier::external_type_specification]
#[verifier::external_body]
#[verifier::reject_recursive_types(K)]
#[verifier::reject_recursive_types(V)]
#[verifier::reject_recursive_types(S)]
pub struct ExDashMap<K, V, S>(DashMap<K, V, S>);

/// What a map of tasks holds: for each key, what the record under it
/// says.
pub uninterp spec fn task_entries(map: DashMap<String, TaskRecord>) -> Map<Seq<char>, TaskRecordView>;

/// The map of tasks that holds nothing.
pub open spec fn no_tasks() -> Map<Seq<char>, TaskRecordView> {
    Map::empty()
}

/// `DashMap::new`: the map that holds nothing.
#[verifier::external_body]
fn tasks_new() -> (made: DashMap<String, TaskRecord>)
    ensures
        task_entries(made) == no_tasks(),
{
    DashMap::new()
}

/// `DashMap::insert`: puts the record under the key, in the place of the
/// one that was there, and hands back the one that was there.
#[verifier::external_body]
fn tasks_insert(map: &mut DashMap<String, TaskRecord>, id: String, record: TaskRecord) -> (previous:
    Option<TaskRecord>)
    ensures
        task_entries(*final(map)) == task_entries(*old(map)).insert(id@, record@),
        previous is Some <==> task_entries(*old(map)).contains_key(id@),
        previous is Some ==> previous->0@ == task_entries(*old(map))[id@],
{
    map.insert(id, record)
}

/// `DashMap::get`: a copy of the record under the key, none where the map
/// has no such key.
#[verifier::external_body]
fn tasks_get(map: &DashMap<String, TaskRecord>, id: &str) -> (found: Option<TaskRecord>)
    ensures
        found is Some <==> task_entries(*map).contains_key(id@),
        found is Some ==> found->0@ == task_entries(*map)[id@],
{
    map.get(id).map(|entry| entry.value().duplicate())
}

/// `DashMap::contains_key`: whether the map has the key.
#[verifier::external_body]
fn tasks_contains(map: &DashMap<String, TaskRecord>, id: &str) -> (found: bool)
    ensures
        found == task_entries(*map).contains_key(id@),
{
    map.contains_key(id)
}

/// The status is one in which a task has run to an end of its own:
/// completed, failed or timed out.
pub open spec fn has_run(status: TaskStatus) -> bool {
    status == TaskStatus::Completed || status == TaskStatus::Failed || status
        == TaskStatus::TimedOut
}

/// A record is well-formed: the start time is set once the task runs and
/// never before; the completion time is set exactly when the status is
/// terminal; the result is there exactly when the task has run to an end
/// of its own; and the times do not go backwards.
pub open spec fn record_wf(record: TaskRecordView) -> bool {
    let info = record.info;
    &&& info.started_at is Some ==> info.status.spec_rank() >= 2
    &&& info.status == TaskStatus::Running || has_run(info.status) ==> info.started_at is Some
    &&& info.completed_at is Some <==> info.status.spec_is_terminal()
    &&& record.result is Some <==> has_run(info.status)
    &&& info.started_at is Some ==> lex_le(info.created_at, info.started_at->0)
    &&& info.completed_at is Some ==> lex_le(info.created_at, info.completed_at->0)
    &&& info.started_at is Some && info.completed_at is Some ==> lex_le(
        info.started_at->0,
        info.completed_at->0,
    )
}

/// A stored record may be replaced by `next`: the task stays the same
/// task, the status stays or moves forward, times once set stay as they
/// are, and `next` is well-formed.
pub open spec fn admits(current: TaskRecordView, next: TaskRecordView) -> bool {
    &&& next.info.task_id == current.info.task_id
    &&& next.info.task_type == current.info.task_type
    &&& next.info.created_at == current.info.created_at
    &&& next.info.status == current.info.status || current.info.status.spec_can_become(
        next.info.status,
    )
    &&& current.info.started_at is Some ==> next.info.started_at == current.info.started_at
    &&& current.info.completed_at is Some ==> next.info.completed_at
        == current.info.completed_at
    &&& record_wf(next)
}

/// Every record of the map is well-formed and lies under its own id.
pub open spec fn entries_wf(entries: Map<Seq<char>, TaskRecordView>) -> bool {
    forall|id: Seq<char>| #[trigger]
        entries.contains_key(id) ==> record_wf(entries[id]) && entries[id].info.task_id == id
}

fn same_text(a: &Option<String>, b: &Option<String>) -> (same: bool)
    ensures
        same == (crate::common::models::option_view(*a) == crate::common::models::option_view(*b)),
{
    match (a, b) {
        (Some(x), Some(y)) => str_equal(x.as_str(), y.as_str()),
        (None, None) => true,
        _ => false,
    }
}

fn status_has_run(status: TaskStatus) -> (yes: bool)
    ensures
        yes == has_run(status),
{
    match status {
        TaskStatus::Completed => true,
        TaskStatus::Failed => true,
        TaskStatus::TimedOut => true,
        _ => false,
    }
}

impl TaskRecord {
    /// Whether the record is well-formed.
    pub fn is_well_formed(&self) -> (yes: bool)
        ensures
            yes == record_wf(self@),
    {
        let info = &self.info;
        let started = info.started_at.is_some();
        let completed = info.completed_at.is_some();
        if started && info.status.rank() < 2 {
            return false;
        }
        if (info.status.rank() == 2 || status_has_run(info.status)) && !started {
            return false;
        }
        if completed != info.status.is_terminal() {
            return false;
        }
        if self.result.is_some() != status_has_run(info.status) {
            return false;
        }
        if let Some(s) = &info.started_at {
            if !str_le(info.created_at.as_str(), s.as_str()) {
                return false;
            }
        }
        if let Some(c) = &info.completed_at {
            if !str_le(info.created_at.as_str(), c.as_str()) {
                return false;
            }
            if let Some(s) = &info.started_at {
                if !str_le(s.as_str(), c.as_str()) {
                    return false;
                }
            }
        }
        true
    }

    /// Whether `next` may take the place of this record in the store.
    pub fn admits(&self, next: &TaskRecord) -> (yes: bool)
        ensures
            yes == admits(self@, next@),
    {
        if !str_equal(next.info.task_id.as_str(), self.info.task_id.as_str()) {
            return false;
        }
        if next.info.task_type != self.info.task_type {
            return false;
        }
        if !str_equal(next.info.created_at.as_str(), self.info.created_at.as_str()) {
            return false;
        }
        if !(next.info.status == self.info.status || self.info.status.can_become(
            next.info.status,
        )) {
            return false;
        }
        if self.info.started_at.is_some() && !same_text(
            &next.info.started_at,
            &self.info.started_at,
        ) {
            return false;
        }
        if self.info.completed_at.is_some() && !same_text(
            &next.info.completed_at,
            &self.info.completed_at,
        ) {
            return false;
        }
        next.is_well_formed()
    }
}

/// The task store.
pub struct TaskStore {
    tasks: DashMap<String, TaskRecord>,
}

impl View for TaskStore {
    type V = Map<Seq<char>, TaskRecordView>;

    closed spec fn view(&self) -> Map<Seq<char>, TaskRecordView> {
        task_entries(self.tasks)
    }
}

impl TaskStore {
    /// The store is well-formed: every record in it is, and lies under
    /// its own id.
    pub open spec fn wf(&self) -> bool {
        entries_wf(self@)
    }

    /// The store that holds nothing.
    pub fn new() -> (store: TaskStore)
        ensures
            store@ == no_tasks(),
            store.wf(),
    {
        TaskStore { tasks: tasks_new() }
    }

    /// Registers a new task under `id`. The id must be new, the record
    /// must carry it and be well-formed; otherwise nothing is stored and
    /// an error says why.
    pub fn insert(&mut self, id: String, record: TaskRecord) -> (result: McpResult<()>)
        requires
            old(self).wf(),
        ensures
            final(self).wf(),
            evolves(old(self)@, final(self)@),
            old(self)@.contains_key(id@) ==> result is Err && result->Err_0.is_of(
                ErrorKind::Internal,
                "Task id is already registered: "@ + id@,
            ) && final(self)@ == old(self)@,
            !old(self)@.contains_key(id@) && !(record_wf(record@) && record@.info.task_id == id@)
                ==> result is Err && result->Err_0.is_of(
                ErrorKind::InvalidRequest,
                "Task record is not well-formed: "@ + id@,
            ) && final(self)@ == old(self)@,
            !old(self)@.contains_key(id@) && record_wf(record@) && record@.info.task_id == id@
                ==> result is Ok && final(self)@ == old(self)@.insert(id@, record@),
    {
        if tasks_contains(&self.tasks, id.as_str()) {
            return Err(
                McpError::Internal(
                    String::from_str("Task id is already registered: ").concat(id.as_str()),
                ),
            );
        }
        if !(record.is_well_formed() && str_equal(record.info.task_id.as_str(), id.as_str())) {
            return Err(
                McpError::InvalidRequest(
                    String::from_str("Task record is not well-formed: ").concat(id.as_str()),
                ),
            );
        }
        let _ = tasks_insert(&mut self.tasks, id, record);
        Ok(())
    }

    /// A snapshot of the record under `id`.
    pub fn get(&self, id: &str) -> (result: McpResult<TaskRecord>)
        ensures
            self.wf() && result is Ok ==> record_wf(result->Ok_0@) && result->Ok_0@.info.task_id
                == id@,
            self@.contains_key(id@) ==> result is Ok && result->Ok_0@ == self@[id@],
            !self@.contains_key(id@) ==> result is Err && result->Err_0.is_of(
                ErrorKind::NotFound,
                "タスクが見つかりません: "@ + id@,
            ),
    {
        match tasks_get(&self.tasks, id) {
            Some(record) => Ok(record),
            None => Err(McpError::NotFound(String::from_str("タスクが見つかりません: ").concat(id))),
        }
    }

    /// Whether a task is registered under `id`.
    pub fn contains(&self, id: &str) -> (found: bool)
        ensures
            found == self@.contains_key(id@),
    {
        tasks_contains(&self.tasks, id)
    }

    /// Puts `next` in the place of the record under `id` where the store
    /// admits the step; otherwise leaves the store as it is. Says whether
    /// the step was taken.
    pub fn replace(&mut self, id: &str, next: TaskRecord) -> (result: McpResult<bool>)
        requires
            old(self).wf(),
        ensures
            final(self).wf(),
            evolves(old(self)@, final(self)@),
            !old(self)@.contains_key(id@) ==> result is Err && result->Err_0.is_of(
                ErrorKind::NotFound,
                "タスクが見つかりません: "@ + id@,
            ) && final(self)@ == old(self)@,
            old(self)@.contains_key(id@) && admits(old(self)@[id@], next@) ==> result == Ok::<
                bool,
                McpError,
            >(true) && final(self)@ == old(self)@.insert(id@, next@),
            old(self)@.contains_key(id@) && !admits(old(self)@[id@], next@) ==> result == Ok::<
                bool,
                McpError,
            >(false) && final(self)@ == old(self)@,
    {
        match tasks_get(&self.tasks, id) {
            None => Err(McpError::NotFound(String::from_str("タスクが見つかりません: ").concat(id))),
            Some(current) => {
                if current.admits(&next) {
                    let _ = tasks_insert(&mut self.tasks, String::from_str(id), next);
                    Ok(true)
                } else {
                    Ok(false)
                }
            },
        }
    }

    /// Applies `mutator` to the record under `id` and stores what it
    /// gives where the store admits the step; otherwise leaves the store
    /// as it is. Says whether the step was taken.
    pub fn update_with<F: FnOnce(TaskRecord) -> TaskRecord>(&mut self, id: &str, mutator: F) -> (result:
        McpResult<bool>)
        requires
            old(self).wf(),
            forall|current: TaskRecord|
                old(self)@.contains_key(id@) && current@ == old(self)@[id@]
                    ==> #[trigger] mutator.requires((current,)),
        ensures
            final(self).wf(),
            evolves(old(self)@, final(self)@),
            !old(self)@.contains_key(id@) ==> result is Err && result->Err_0.is_of(
                ErrorKind::NotFound,
                "タスクが見つかりません: "@ + id@,
            ) && final(self)@ == old(self)@,
            old(self)@.contains_key(id@) ==> exists|current: TaskRecord, next: TaskRecord|
                #![trigger mutator.ensures((current,), next)]
                {
                    &&& current@ == old(self)@[id@]
                    &&& mutator.ensures((current,), next)
                    &&& admits(current@, next@) ==> result == Ok::<bool, McpError>(true)
                        && final(self)@ == old(self)@.insert(id@, next@)
                    &&& !admits(current@, next@) ==> result == Ok::<bool, McpError>(false)
                        && final(self)@ == old(self)@
                },
    {
        match tasks_get(&self.tasks, id) {
            None => Err(McpError::NotFound(String::from_str("タスクが見つかりません: ").concat(id))),
            Some(current) => {
                let ghost given = current;
                let next = mutator(current);
                if given_admits(&self.tasks, id, &next) {
                    let _ = tasks_insert(&mut self.tasks, String::from_str(id), next);
                    Ok(true)
                } else {
                    Ok(false)
                }
            },
        }
    }

    /// Puts `result` in the place of the result of the task under `id`
    /// where that task has run to an end of its own; otherwise leaves the
    /// store as it is. Says whether the result was stored.
    pub fn set_result(&mut self, id: &str, result: TaskResult) -> (outcome: McpResult<bool>)
        requires
            old(self).wf(),
        ensures
            final(self).wf(),
            evolves(old(self)@, final(self)@),
            !old(self)@.contains_key(id@) ==> outcome is Err && outcome->Err_0.is_of(
                ErrorKind::NotFound,
                "タスクが見つかりません: "@ + id@,
            ) && final(self)@ == old(self)@,
            old(self)@.contains_key(id@) && has_run(old(self)@[id@].info.status) ==> outcome
                == Ok::<bool, McpError>(true) && final(self)@ == old(self)@.insert(
                id@,
                TaskRecordView { info: old(self)@[id@].info, result: Some(result@) },
            ),
            old(self)@.contains_key(id@) && !has_run(old(self)@[id@].info.status) ==> outcome
                == Ok::<bool, McpError>(false) && final(self)@ == old(self)@,
    {
        match tasks_get(&self.tasks, id) {
            None => Err(McpError::NotFound(String::from_str("タスクが見つかりません: ").concat(id))),
            Some(current) => {
                if status_has_run(current.info.status) {
                    let next = TaskRecord { info: current.info, result: Some(result) };
                    let _ = tasks_insert(&mut self.tasks, String::from_str(id), next);
                    Ok(true)
                } else {
                    Ok(false)
                }
            },
        }
    }
}

fn given_admits(tasks: &DashMap<String, TaskRecord>, id: &str, next: &TaskRecord) -> (yes: bool)
    requires
        task_entries(*tasks).contains_key(id@),
    ensures
        yes == admits(task_entries(*tasks)[id@], next@),
{
    match tasks_get(tasks, id) {
        Some(current) => current.admits(next),
        None => false,
    }
}

/// The store has moved from `before` to `after` by admitted steps alone:
/// no task is gone, and each is as it was or has taken a step that the
/// store admits.
pub open spec fn evolves(
    before: Map<Seq<char>, TaskRecordView>,
    after: Map<Seq<char>, TaskRecordView>,
) -> bool {
    forall|id: Seq<char>| #[trigger]
        before.contains_key(id) ==> after.contains_key(id) && (after[id] == before[id] || admits(
            before[id],
            after[id],
        ))
}

/// An admitted step keeps the status or moves it forward, and changes
/// nothing of a status that is terminal.
pub proof fn lemma_step_goes_forward(current: TaskRecordView, next: TaskRecordView)
    requires
        admits(current, next),
    ensures
        current.info.status.spec_rank() <= next.info.status.spec_rank(),
        current.info.status.spec_is_terminal() ==> next.info.status == current.info.status,
        !next.info.status.spec_can_become(current.info.status),
{
}

/// Admitted steps chain: two in a row are one.
pub proof fn lemma_steps_chain(a: TaskRecordView, b: TaskRecordView, c: TaskRecordView)
    requires
        admits(a, b),
        admits(b, c),
    ensures
        admits(a, c),
{
}

/// A store that has evolved twice has evolved.
pub proof fn lemma_evolves_chain(
    a: Map<Seq<char>, TaskRecordView>,
    b: Map<Seq<char>, TaskRecordView>,
    c: Map<Seq<char>, TaskRecordView>,
)
    requires
        evolves(a, b),
        evolves(b, c),
    ensures
        evolves(a, c),
{
    assert forall|id: Seq<char>| #[trigger] a.contains_key(id) implies c.contains_key(id) && (c[id]
        == a[id] || admits(a[id], c[id])) by {
        assert(b.contains_key(id));
        if a[id] != b[id] && b[id] != c[id] {
            lemma_steps_chain(a[id], b[id], c[id]);
        }
    }
}

/// The statuses seen of one task over time form a path that only goes
/// forward: of two sightings the later shows the same status or one
/// further on, and after a terminal status nothing else is ever seen.
pub proof fn lemma_history_is_monotone(history: Seq<TaskRecordView>, i: int, j: int)
    requires
        forall|k: int|
            0 <= k < history.len() - 1 ==> history[k + 1] == history[k] || admits(
                #[trigger] history[k],
                history[k + 1],
            ),
        0 <= i <= j < history.len(),
    ensures
        history[i].info.status == history[j].info.status || history[i].info.status.spec_can_become(
            history[j].info.status,
        ),
        history[i].info.status.spec_is_terminal() ==> history[j].info.status
            == history[i].info.status,
    decreases j - i,
{
    if i < j {
        lemma_history_is_monotone(history, i, j - 1);
        assert(history[j] == history[j - 1] || admits(history[j - 1], history[j]));
    }
}

/// The times of a well-formed record of a task that has ended are in
/// order: created, then started where the task did start, then completed.
pub proof fn lemma_times_are_ordered(record: TaskRecordView)
    requires
        record_wf(record),
        record.info.status.spec_is_terminal(),
    ensures
        record.info.completed_at is Some,
        lex_le(record.info.created_at, record.info.completed_at->0),
        record.info.started_at is Some ==> lex_le(record.info.created_at, record.info.started_at->0)
            && lex_le(record.info.started_at->0, record.info.completed_at->0),
{
}

/// A task that has been registered is found ever after, whatever else is
/// registered or changed in between.
pub proof fn lemma_registered_task_is_found(
    before: Map<Seq<char>, TaskRecordView>,
    after: Map<Seq<char>, TaskRecordView>,
    id: Seq<char>,
)
    requires
        before.contains_key(id),
        evolves(before, after),
    ensures
        after.contains_key(id),
{
}

} // verus!
