//! The two directional converters between local and remote tasks, and the
//! equivalence that gates conflict resolution.

use vstd::prelude::*;
use crate::error::Error;
use crate::habitica::{HabiticaTask, HabiticaTaskStatus, HabiticaTaskType, HabiticaTaskView};
use crate::ids::new_task_id;
use crate::taskwarrior::{
    clone_annotations, Task, TaskDifficulty, TaskStatus, TaskType, TaskView,
};

verus! {

/// The local kind a remote kind stands for.
pub open spec fn local_type(t: HabiticaTaskType) -> TaskType {
    match t {
        HabiticaTaskType::Todo => TaskType::Todo,
        HabiticaTaskType::Daily => TaskType::Daily,
        HabiticaTaskType::Habit => TaskType::Habit,
        HabiticaTaskType::Reward => TaskType::Reward,
    }
}

/// The kind a pushed task gets: habits and rewards go out as to-dos.
pub open spec fn pushed_type(t: TaskType) -> HabiticaTaskType {
    match t {
        TaskType::Daily => HabiticaTaskType::Daily,
        _ => HabiticaTaskType::Todo,
    }
}

pub open spec fn note_view(n: Option<&str>) -> Option<Seq<char>> {
    match n {
        Some(s) => Some(s@),
        None => None,
    }
}

/// The remote form of a local task, if it is to be mirrored at all.
pub open spec fn to_remote(t: TaskView, note: Option<Seq<char>>) -> Option<HabiticaTaskView> {
    if !t.status.syncs() {
        None
    } else {
        Some(
            HabiticaTaskView {
                id: t.habitica_uuid,
                text: t.description,
                notes: match note {
                    Some(n) => n,
                    None => Seq::empty(),
                },
                task_type: pushed_type(t.task_type()),
                priority: t.difficulty().priority(),
                completed: t.status is Completed,
                date: t.due,
                updated_at: t.modified,
                is_due: false,
            },
        )
    }
}

/// The local status a remote task stands for; a local task that waits
/// keeps waiting while the remote task is pending.
pub open spec fn merged_status(h: HabiticaTaskView, current: Option<TaskStatus>) -> TaskStatus {
    match h.effective_status() {
        HabiticaTaskStatus::Pending => if current == Some(TaskStatus::Waiting) {
            TaskStatus::Waiting
        } else {
            TaskStatus::Pending
        },
        HabiticaTaskStatus::Completed => TaskStatus::Completed,
    }
}

/// The local form of a remote task. Identity, annotations and
/// uninterpreted fields come from the existing local record where there is
/// one; otherwise the identity is `fresh` and the rest is empty.
pub open spec fn from_remote(h: HabiticaTaskView, existing: Option<TaskView>, fresh: u128) -> TaskView {
    TaskView {
        uuid: match existing {
            Some(e) => e.uuid,
            None => fresh,
        },
        description: h.text,
        status: merged_status(
            h,
            match existing {
                Some(e) => Some(e.status),
                None => None,
            },
        ),
        modified: h.updated_at,
        due: h.date,
        annotations: match existing {
            Some(e) => e.annotations,
            None => None,
        },
        habitica_uuid: h.id,
        habitica_difficulty: Some(TaskDifficulty::of_priority(h.priority as int)),
        habitica_task_type: Some(local_type(h.task_type)),
        extra: match existing {
            Some(e) => e.extra,
            None => Seq::empty(),
        },
    }
}

/// A local task updated in place from a remote one; what the remote side
/// does not know is kept.
pub open spec fn refreshed(t: TaskView, h: HabiticaTaskView) -> TaskView {
    TaskView {
        description: h.text,
        due: h.date,
        modified: h.updated_at,
        habitica_uuid: h.id,
        habitica_difficulty: Some(TaskDifficulty::of_priority(h.priority as int)),
        habitica_task_type: Some(local_type(h.task_type)),
        status: merged_status(h, Some(t.status)),
        ..t
    }
}

/// Sync equivalence: text, due date, numeric priority, kind (as a push
/// maps it), completion and remote identity agree. Modification times are
/// not compared.
pub open spec fn equivalent(t: TaskView, h: HabiticaTaskView) -> bool {
    &&& t.description == h.text
    &&& t.due == h.date
    &&& t.difficulty().priority() == h.priority
    &&& pushed_type(t.task_type()) == h.task_type
    &&& (t.status is Completed) == h.completed
    &&& t.habitica_uuid == h.id
}

pub fn same_time(a: Option<i64>, b: Option<i64>) -> (r: bool)
    ensures
        r == (a == b),
{
    match (a, b) {
        (Some(x), Some(y)) => x == y,
        (None, None) => true,
        _ => false,
    }
}

pub fn same_id(a: Option<u128>, b: Option<u128>) -> (r: bool)
    ensures
        r == (a == b),
{
    match (a, b) {
        (Some(x), Some(y)) => x == y,
        (None, None) => true,
        _ => false,
    }
}

fn local_type_of(t: HabiticaTaskType) -> (r: TaskType)
    ensures
        r == local_type(t),
{
    match t {
        HabiticaTaskType::Todo => TaskType::Todo,
        HabiticaTaskType::Daily => TaskType::Daily,
        HabiticaTaskType::Habit => TaskType::Habit,
        HabiticaTaskType::Reward => TaskType::Reward,
    }
}

fn merge_status(h: &HabiticaTask, current: Option<TaskStatus>) -> (r: TaskStatus)
    ensures
        r == merged_status(h@, current),
{
    match h.effective_status() {
        HabiticaTaskStatus::Pending => match current {
            Some(TaskStatus::Waiting) => TaskStatus::Waiting,
            _ => TaskStatus::Pending,
        },
        HabiticaTaskStatus::Completed => TaskStatus::Completed,
    }
}

/// Converts a local task to its remote form; `None` for a task that is not
/// mirrored (deleted or recurring). The conversion itself never fails.
pub fn taskwarrior_to_habitica(tw_task: &Task, note_content: Option<&str>) -> (r: Result<
    Option<HabiticaTask>,
    Error,
>)
    ensures
        r matches Ok(o) && match o {
            Some(h) => to_remote(tw_task@, note_view(note_content)) == Some(h@),
            None => to_remote(tw_task@, note_view(note_content)) is None,
        },
{
    let completed = match tw_task.status {
        TaskStatus::Pending | TaskStatus::Waiting => false,
        TaskStatus::Completed => true,
        TaskStatus::Deleted | TaskStatus::Recurring => {
            return Ok(None);
        },
    };
    let task_type = match tw_task.task_type() {
        TaskType::Daily => HabiticaTaskType::Daily,
        _ => HabiticaTaskType::Todo,
    };
    let notes = match note_content {
        Some(n) => String::from_str(n),
        None => String::new(),
    };
    let h = HabiticaTask {
        id: tw_task.habitica_uuid,
        text: tw_task.description.clone(),
        notes,
        task_type,
        priority: tw_task.difficulty().to_habitica_priority(),
        completed,
        date: tw_task.due,
        updated_at: tw_task.modified,
        is_due: false,
    };
    assert(to_remote(tw_task@, note_view(note_content)) == Some(h@));
    Ok(Some(h))
}

/// Converts a remote task to a local one, with `fresh_id` as the identity
/// when there is no existing local record.
pub fn habitica_to_taskwarrior_with_id(
    h_task: &HabiticaTask,
    existing_tw_task: Option<&Task>,
    fresh_id: u128,
) -> (r: Task)
    ensures
        r@ == from_remote(
            h_task@,
            match existing_tw_task {
                Some(e) => Some(e@),
                None => None,
            },
            fresh_id,
        ),
{
    let (uuid, current, annotations, extra) = match existing_tw_task {
        Some(e) => {
            let annotations = match &e.annotations {
                Some(v) => Some(clone_annotations(v)),
                None => None,
            };
            (e.uuid, Some(e.status), annotations, e.clone().extra)
        },
        None => (fresh_id, None, None, Vec::new()),
    };
    let r = Task {
        uuid,
        description: h_task.text.clone(),
        status: merge_status(h_task, current),
        modified: h_task.updated_at,
        due: h_task.date,
        annotations,
        habitica_uuid: h_task.id,
        habitica_difficulty: Some(TaskDifficulty::from_habitica_priority(h_task.priority)),
        habitica_task_type: Some(local_type_of(h_task.task_type)),
        extra,
    };
    assert(r@.extra =~= from_remote(
        h_task@,
        match existing_tw_task {
            Some(e) => Some(e@),
            None => None,
        },
        fresh_id,
    ).extra);
    r
}

/// Converts a remote task to a local one. Without an existing local
/// record the task gets a fresh random identity.
pub fn habitica_to_taskwarrior(h_task: &HabiticaTask, existing_tw_task: Option<&Task>) -> (r:
    Result<Task, Error>)
    ensures
        r matches Ok(t) && t@ == from_remote(
            h_task@,
            match existing_tw_task {
                Some(e) => Some(e@),
                None => None,
            },
            t@.uuid,
        ),
{
    let fresh = match existing_tw_task {
        Some(e) => e.uuid,
        None => new_task_id(),
    };
    Ok(habitica_to_taskwarrior_with_id(h_task, existing_tw_task, fresh))
}

/// Updates a local task in place from a remote one.
pub fn update_taskwarrior_from_habitica(tw_task: &mut Task, h_task: &HabiticaTask) -> (r: Result<
    (),
    Error,
>)
    ensures
        r is Ok,
        final(tw_task)@ == refreshed(old(tw_task)@, h_task@),
{
    tw_task.description = h_task.text.clone();
    tw_task.due = h_task.date;
    tw_task.modified = h_task.updated_at;
    tw_task.habitica_uuid = h_task.id;
    tw_task.habitica_difficulty = Some(TaskDifficulty::from_habitica_priority(h_task.priority));
    tw_task.habitica_task_type = Some(local_type_of(h_task.task_type));
    let current = tw_task.status;
    tw_task.status = merge_status(h_task, Some(current));
    Ok(())
}

/// Whether a local and a remote task agree on everything synchronisation
/// compares.
pub fn tasks_are_equivalent(tw_task: &Task, h_task: &HabiticaTask) -> (r: bool)
    ensures
        r == equivalent(tw_task@, h_task@),
{
    if tw_task.description != h_task.text {
        return false;
    }
    if !same_time(tw_task.due, h_task.date) {
        return false;
    }
    if tw_task.difficulty().to_habitica_priority() != h_task.priority {
        return false;
    }
    let tw_type = match tw_task.task_type() {
        TaskType::Daily => HabiticaTaskType::Daily,
        _ => HabiticaTaskType::Todo,
    };
    if tw_type != h_task.task_type {
        return false;
    }
    if tw_task.status.is_completed() != h_task.completed {
        return false;
    }
    same_id(tw_task.habitica_uuid, h_task.id)
}

/// Every mirrored task is equivalent to its own remote form, whatever the note.
pub proof fn lemma_pushed_form_is_equivalent(t: TaskView, note: Option<Seq<char>>)
    requires
        t.status.syncs(),
    ensures
        to_remote(t, note) is Some,
        equivalent(t, to_remote(t, note)->0),
{
}

} // verus!
