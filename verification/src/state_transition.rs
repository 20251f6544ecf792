//! Task status changes and their history.
//!
//! A change of a task's `status` and the history row that records it are
//! written together in one transaction. The transaction alternates database
//! work with one decision, made here: given the status that was read, either
//! the task is missing, or these two writes are due.
use vstd::prelude::*;
use crate::clock::{current_timestamp, is_rfc3339_millis_utc, is_stamp_of_some_reading};
use crate::text::{push_signed_decimal, signed_decimal};

verus! {

/// Makes `sqlx::Error` usable in signatures; Verus sees nothing inside it.
#[verifier::external_type_specification]
#[verifier::external_body]
pub struct ExSqlxError(sqlx::Error);

/// Why a status change failed.
#[derive(Debug)]
pub enum TransitionError {
    /// No task has the given id.
    TaskNotFound(i64),
    /// The database reported an error.
    Sqlx(sqlx::Error),
}

impl TransitionError {
    /// The message shown to the user. A database failure is followed by the
    /// error's own text (`to_string`).
    pub fn message(&self) -> (r: String)
        ensures
            match self {
                TransitionError::TaskNotFound(id) => r@ == "タスクが見つかりません (id="@
                    + signed_decimal(*id as int) + ")"@,
                TransitionError::Sqlx(e) => exists|d: String|
                    #[trigger] vstd::string::to_string_from_display_ensures::<sqlx::Error>(e, d)
                        && r@ == "状態遷移の永続化に失敗しました: "@ + d@,
            },
    {
        match self {
            TransitionError::TaskNotFound(id) => {
                let mut m = String::new();
                m.append("タスクが見つかりません (id=");
                push_signed_decimal(&mut m, *id);
                m.append(")");
                m
            },
            TransitionError::Sqlx(e) => {
                let mut m = String::new();
                m.append("状態遷移の永続化に失敗しました: ");
                let detail = e.to_string();
                m.append(detail.as_str());
                m
            },
        }
    }
}

impl From<sqlx::Error> for TransitionError {
    fn from(e: sqlx::Error) -> (r: Self)
        ensures
            r == TransitionError::Sqlx(e),
    {
        TransitionError::Sqlx(e)
    }
}

impl vstd::std_specs::convert::FromSpecImpl<sqlx::Error> for TransitionError {
    open spec fn obeys_from_spec() -> bool {
        true
    }

    open spec fn from_spec(v: sqlx::Error) -> Self {
        TransitionError::Sqlx(v)
    }
}

/// A requested status change: the task, its new status, why, and when.
#[derive(Debug, Clone)]
pub struct TransitionRequest {
    pub task_id: i64,
    pub new_state: String,
    pub reason: String,
    pub occurred_at: String,
}

/// `UPDATE tasks SET status = ?, updated_at = ? WHERE id = ?`
#[derive(Debug, Clone)]
pub struct StatusUpdate {
    pub task_id: i64,
    pub status: String,
    pub updated_at: String,
}

/// A row of `task_state_log`.
#[derive(Debug, Clone)]
pub struct StateLogEntry {
    pub task_id: i64,
    pub old_state: String,
    pub new_state: String,
    pub reason: String,
    pub occurred_at: String,
}

/// The two writes of one status change.
#[derive(Debug, Clone)]
pub struct TransitionWrites {
    pub update: StatusUpdate,
    pub log: StateLogEntry,
}

/// A row of `task_state_log`, as plain values.
pub struct LogRow {
    pub task_id: i64,
    pub old_state: Seq<char>,
    pub new_state: Seq<char>,
    pub reason: Seq<char>,
    pub occurred_at: Seq<char>,
}

/// The two writes of one status change, as plain values.
pub struct WritesView {
    pub task_id: i64,
    pub status: Seq<char>,
    pub updated_at: Seq<char>,
    pub log: LogRow,
}

impl View for TransitionWrites {
    type V = WritesView;

    open spec fn view(&self) -> WritesView {
        WritesView {
            task_id: self.update.task_id,
            status: self.update.status@,
            updated_at: self.update.updated_at@,
            log: LogRow {
                task_id: self.log.task_id,
                old_state: self.log.old_state@,
                new_state: self.log.new_state@,
                reason: self.log.reason@,
                occurred_at: self.log.occurred_at@,
            },
        }
    }
}

/// The writes due for `task_id` changing from `old_state` to `new_state`: the
/// task gets the new status, stamped with the time, and the history gets a
/// row with the old and new status, the reason and the same time. A change to
/// the same status is recorded like any other.
pub open spec fn planned_writes(
    task_id: i64,
    old_state: Seq<char>,
    new_state: Seq<char>,
    reason: Seq<char>,
    at: Seq<char>,
) -> WritesView {
    WritesView {
        task_id,
        status: new_state,
        updated_at: at,
        log: LogRow { task_id, old_state, new_state, reason, occurred_at: at },
    }
}

/// A request to move `task_id` to `new_state` for `reason`, stamped with the
/// current UTC time in RFC 3339 with milliseconds (see
/// `clock::current_timestamp`).
pub fn transition_request(task_id: i64, new_state: &str, reason: &str) -> (r: TransitionRequest)
    ensures
        r.task_id == task_id,
        r.new_state@ == new_state@,
        r.reason@ == reason@,
        is_rfc3339_millis_utc(r.occurred_at@),
        is_stamp_of_some_reading(r.occurred_at@),
{
    TransitionRequest {
        task_id,
        new_state: new_state.to_owned(),
        reason: reason.to_owned(),
        occurred_at: current_timestamp(),
    }
}

impl TransitionRequest {
    /// Decides the change, given the task's current status as read inside the
    /// transaction (`None` when no task has the id): the task is missing, or
    /// these are the writes that make the change.
    pub fn plan(&self, current_status: Option<String>) -> (r: Result<
        TransitionWrites,
        TransitionError,
    >)
        ensures
            match current_status {
                None => r matches Err(TransitionError::TaskNotFound(id)) && id == self.task_id,
                Some(old) => r matches Ok(w) && w@ == planned_writes(
                    self.task_id,
                    old@,
                    self.new_state@,
                    self.reason@,
                    self.occurred_at@,
                ),
            },
    {
        match current_status {
            None => Err(TransitionError::TaskNotFound(self.task_id)),
            Some(old_state) => Ok(
                TransitionWrites {
                    update: StatusUpdate {
                        task_id: self.task_id,
                        status: self.new_state.clone(),
                        updated_at: self.occurred_at.clone(),
                    },
                    log: StateLogEntry {
                        task_id: self.task_id,
                        old_state,
                        new_state: self.new_state.clone(),
                        reason: self.reason.clone(),
                        occurred_at: self.occurred_at.clone(),
                    },
                },
            ),
        }
    }
}

/// A task's row, as far as status changes concern it.
pub struct TaskRow {
    pub status: Seq<char>,
    pub updated_at: Seq<char>,
}

/// The `tasks` table and the `task_state_log` table.
pub struct TaskStore {
    pub tasks: Map<i64, TaskRow>,
    pub log: Seq<LogRow>,
}

/// The store after the two writes: the update changes the task's row (it
/// changes nothing when no row has the id) and the insert appends the
/// history row.
pub open spec fn apply_writes(db: TaskStore, w: WritesView) -> TaskStore {
    TaskStore {
        tasks: if db.tasks.contains_key(w.task_id) {
            db.tasks.insert(w.task_id, TaskRow { status: w.status, updated_at: w.updated_at })
        } else {
            db.tasks
        },
        log: db.log.push(w.log),
    }
}

/// What one status change does to the store, the status having been read
/// from it: a missing task is an error and nothing is written.
pub open spec fn transition_effect(
    db: TaskStore,
    task_id: i64,
    new_state: Seq<char>,
    reason: Seq<char>,
    at: Seq<char>,
) -> Option<TaskStore> {
    if db.tasks.contains_key(task_id) {
        Some(
            apply_writes(
                db,
                planned_writes(task_id, db.tasks[task_id].status, new_state, reason, at),
            ),
        )
    } else {
        None
    }
}

/// A status change sets the task's status and time stamp and appends exactly
/// one history row, which records the previous status, the new one, the
/// reason and the same time stamp; the other tasks are untouched. This holds
/// for a change to the same status too.
pub proof fn lemma_transition_updates_and_logs(
    db: TaskStore,
    task_id: i64,
    new_state: Seq<char>,
    reason: Seq<char>,
    at: Seq<char>,
)
    requires
        db.tasks.contains_key(task_id),
    ensures
        ({
            let post = transition_effect(db, task_id, new_state, reason, at)->Some_0;
            &&& transition_effect(db, task_id, new_state, reason, at) is Some
            &&& post.tasks[task_id].status == new_state
            &&& post.tasks[task_id].updated_at == at
            &&& post.tasks.dom() == db.tasks.dom()
            &&& forall|other: i64| other != task_id && db.tasks.contains_key(other) ==> post.tasks[other] == db.tasks[other]
            &&& post.log.len() == db.log.len() + 1
            &&& post.log.subrange(0, db.log.len() as int) == db.log
            &&& post.log.last() == LogRow {
                task_id,
                old_state: db.tasks[task_id].status,
                new_state,
                reason,
                occurred_at: at,
            }
        }),
{
    let post = transition_effect(db, task_id, new_state, reason, at)->Some_0;
    assert(post.tasks.dom() =~= db.tasks.dom());
    assert(post.log.subrange(0, db.log.len() as int) =~= db.log);
}

/// A change of a missing task writes nothing.
pub proof fn lemma_missing_task_writes_nothing(
    db: TaskStore,
    task_id: i64,
    new_state: Seq<char>,
    reason: Seq<char>,
    at: Seq<char>,
)
    requires
        !db.tasks.contains_key(task_id),
    ensures
        transition_effect(db, task_id, new_state, reason, at) is None,
{
}

/// Consecutive changes of a task chain in its history: the second row's old
/// status is the first row's new status.
pub proof fn lemma_consecutive_transitions_chain(
    db: TaskStore,
    task_id: i64,
    first: Seq<char>,
    second: Seq<char>,
    reason1: Seq<char>,
    reason2: Seq<char>,
    at1: Seq<char>,
    at2: Seq<char>,
)
    requires
        db.tasks.contains_key(task_id),
    ensures
        ({
            let mid = transition_effect(db, task_id, first, reason1, at1)->Some_0;
            let post = transition_effect(mid, task_id, second, reason2, at2);
            &&& post is Some
            &&& post->Some_0.log.len() == db.log.len() + 2
            &&& post->Some_0.log[db.log.len() as int].old_state == db.tasks[task_id].status
            &&& post->Some_0.log[db.log.len() as int].new_state == first
            &&& post->Some_0.log[db.log.len() + 1int].old_state == first
            &&& post->Some_0.log[db.log.len() + 1int].new_state == second
            &&& post->Some_0.tasks[task_id].status == second
        }),
{
    lemma_transition_updates_and_logs(db, task_id, first, reason1, at1);
    let mid = transition_effect(db, task_id, first, reason1, at1)->Some_0;
    lemma_transition_updates_and_logs(mid, task_id, second, reason2, at2);
}

/// The writes that `TransitionRequest::plan` decides, applied to the store
/// the status was read from, are exactly the status change.
pub proof fn lemma_planned_writes_make_the_transition(
    db: TaskStore,
    task_id: i64,
    new_state: Seq<char>,
    reason: Seq<char>,
    at: Seq<char>,
    w: WritesView,
)
    requires
        db.tasks.contains_key(task_id),
        w == planned_writes(task_id, db.tasks[task_id].status, new_state, reason, at),
    ensures
        transition_effect(db, task_id, new_state, reason, at) == Some(apply_writes(db, w)),
{
}

/// One requested change of a task: the new status, why, and when.
pub struct Change {
    pub new_state: Seq<char>,
    pub reason: Seq<char>,
    pub at: Seq<char>,
}

/// The store after the changes of `task_id`, made one after the other, each
/// reading the status the previous one left (`None` if the task is missing).
pub open spec fn transitions_effect(db: TaskStore, task_id: i64, changes: Seq<Change>) -> Option<
    TaskStore,
>
    decreases changes.len(),
{
    if changes.len() == 0 {
        Some(db)
    } else {
        match transitions_effect(db, task_id, changes.drop_last()) {
            Some(mid) => transition_effect(
                mid,
                task_id,
                changes.last().new_state,
                changes.last().reason,
                changes.last().at,
            ),
            None => None,
        }
    }
}

/// The history rows that the changes add, starting from status `initial`:
/// each row's old status is the previous row's new status.
pub open spec fn chained_rows(task_id: i64, initial: Seq<char>, changes: Seq<Change>) -> Seq<LogRow> {
    Seq::new(
        changes.len(),
        |i: int|
            LogRow {
                task_id,
                old_state: if i == 0 {
                    initial
                } else {
                    changes[i - 1].new_state
                },
                new_state: changes[i].new_state,
                reason: changes[i].reason,
                occurred_at: changes[i].at,
            },
    )
}

/// Any number of changes of a task chain in its history: they append exactly
/// one row each, in order, the first recording the status the task had, each
/// later one recording the previous row's new status as its old status; and
/// the task ends with the last new status.
pub proof fn lemma_history_chains(db: TaskStore, task_id: i64, changes: Seq<Change>)
    requires
        db.tasks.contains_key(task_id),
    ensures
        transitions_effect(db, task_id, changes) is Some,
        ({
            let post = transitions_effect(db, task_id, changes)->Some_0;
            &&& post.tasks.contains_key(task_id)
            &&& post.tasks.dom() == db.tasks.dom()
            &&& post.log == db.log + chained_rows(task_id, db.tasks[task_id].status, changes)
            &&& post.tasks[task_id].status == if changes.len() == 0 {
                db.tasks[task_id].status
            } else {
                changes.last().new_state
            }
        }),
    decreases changes.len(),
{
    let s0 = db.tasks[task_id].status;
    if changes.len() == 0 {
        assert(chained_rows(task_id, s0, changes) =~= Seq::empty());
        assert(db.log + chained_rows(task_id, s0, changes) =~= db.log);
    } else {
        let front = changes.drop_last();
        lemma_history_chains(db, task_id, front);
        let mid = transitions_effect(db, task_id, front)->Some_0;
        let last = changes.last();
        lemma_transition_updates_and_logs(mid, task_id, last.new_state, last.reason, last.at);
        let post = transitions_effect(db, task_id, changes)->Some_0;
        assert(mid.tasks[task_id].status == if front.len() == 0 {
            s0
        } else {
            changes[changes.len() - 2].new_state
        });
        assert(post.log =~= db.log + chained_rows(task_id, s0, changes)) by {
            assert(post.log == mid.log.push(
                LogRow {
                    task_id,
                    old_state: mid.tasks[task_id].status,
                    new_state: last.new_state,
                    reason: last.reason,
                    occurred_at: last.at,
                },
            ));
            assert(chained_rows(task_id, s0, changes) =~= chained_rows(task_id, s0, front).push(
                LogRow {
                    task_id,
                    old_state: mid.tasks[task_id].status,
                    new_state: last.new_state,
                    reason: last.reason,
                    occurred_at: last.at,
                },
            ));
        }
    }
}

} // verus!
