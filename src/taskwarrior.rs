//! The local task record and its status algebra.

use vstd::prelude::*;
use crate::clock::now_millis;
use crate::text::{starts_with, trim_of, trimmed};

verus! {

/// Status of a local task.
#[derive(Debug, Clone, Copy, PartialEq, Eq, Structural)]
pub enum TaskStatus {
    Pending,
    Waiting,
    Completed,
    Deleted,
    Recurring,
}

impl TaskStatus {
    /// Deleted and recurring tasks are never mirrored to the remote service.
    pub open spec fn syncs(self) -> bool {
        self is Pending || self is Waiting || self is Completed
    }

    pub fn should_sync_to_habitica(&self) -> (r: bool)
        ensures
            r == self.syncs(),
    {
        match self {
            TaskStatus::Pending | TaskStatus::Waiting | TaskStatus::Completed => true,
            TaskStatus::Deleted | TaskStatus::Recurring => false,
        }
    }

    pub fn is_completed(&self) -> (r: bool)
        ensures
            r == (*self is Completed),
    {
        matches!(self, TaskStatus::Completed)
    }

    pub fn is_pending(&self) -> (r: bool)
        ensures
            r == (*self is Pending || *self is Waiting),
    {
        matches!(self, TaskStatus::Pending | TaskStatus::Waiting)
    }
}

/// Difficulty of a task, one of four fixed buckets of the remote priority.
///
/// Remote priorities are carried as thousandths: 100, 1000, 1500 and 2000
/// stand for 0.1, 1.0, 1.5 and 2.0.
#[derive(Debug, Clone, Copy, PartialEq, Eq, Structural)]
pub enum TaskDifficulty {
    Trivial,
    Easy,
    Medium,
    Hard,
}

/// Half-width of the window, in thousandths, within which a priority
/// decodes to a bucket.
pub const PRIORITY_TOLERANCE: i64 = 10;

impl TaskDifficulty {
    pub open spec fn priority(self) -> i64 {
        match self {
            TaskDifficulty::Trivial => 100,
            TaskDifficulty::Easy => 1000,
            TaskDifficulty::Medium => 1500,
            TaskDifficulty::Hard => 2000,
        }
    }

    /// Whether `p` lies strictly within the tolerance of `centre`.
    pub open spec fn near(p: int, centre: int) -> bool {
        -10 < p - centre < 10
    }

    /// The bucket of a priority: the thresholds are tried from the
    /// smallest up, and anything that matches none is hard.
    pub open spec fn of_priority(p: int) -> TaskDifficulty {
        if Self::near(p, 100) {
            TaskDifficulty::Trivial
        } else if Self::near(p, 1000) {
            TaskDifficulty::Easy
        } else if Self::near(p, 1500) {
            TaskDifficulty::Medium
        } else {
            TaskDifficulty::Hard
        }
    }

    pub fn to_habitica_priority(&self) -> (r: i64)
        ensures
            r == self.priority(),
    {
        match self {
            TaskDifficulty::Trivial => 100,
            TaskDifficulty::Easy => 1000,
            TaskDifficulty::Medium => 1500,
            TaskDifficulty::Hard => 2000,
        }
    }

    fn within(priority: i64, centre: i64) -> (r: bool)
        requires
            0 <= centre <= 2000,
        ensures
            r == Self::near(priority as int, centre as int),
    {
        let d = priority as i128 - centre as i128;
        -(PRIORITY_TOLERANCE as i128) < d && d < PRIORITY_TOLERANCE as i128
    }

    pub fn from_habitica_priority(priority: i64) -> (r: Self)
        ensures
            r == Self::of_priority(priority as int),
    {
        if Self::within(priority, 100) {
            TaskDifficulty::Trivial
        } else if Self::within(priority, 1000) {
            TaskDifficulty::Easy
        } else if Self::within(priority, 1500) {
            TaskDifficulty::Medium
        } else {
            TaskDifficulty::Hard
        }
    }
}

impl Default for TaskDifficulty {
    fn default() -> (r: Self)
        ensures
            r == TaskDifficulty::Easy,
    {
        TaskDifficulty::Easy
    }
}

/// Decoding the priority that a difficulty encodes gives that difficulty back.
pub proof fn lemma_difficulty_round_trip(d: TaskDifficulty)
    ensures
        TaskDifficulty::of_priority(d.priority() as int) == d,
{
}

/// Classification of a task on the remote side, as recorded locally.
#[derive(Debug, Clone, Copy, PartialEq, Eq, Structural)]
pub enum TaskType {
    Todo,
    Daily,
    Habit,
    Reward,
}

impl Default for TaskType {
    fn default() -> (r: Self)
        ensures
            r == TaskType::Todo,
    {
        TaskType::Todo
    }
}

/// A timestamped remark attached to a task.
#[derive(Debug)]
pub struct Annotation {
    pub entry: String,
    pub description: String,
}

pub struct AnnotationView {
    pub entry: Seq<char>,
    pub description: Seq<char>,
}

impl View for Annotation {
    type V = AnnotationView;

    open spec fn view(&self) -> AnnotationView {
        AnnotationView { entry: self.entry@, description: self.description@ }
    }
}

impl Clone for Annotation {
    fn clone(&self) -> (r: Self)
        ensures
            r@ == self@,
    {
        Annotation { entry: self.entry.clone(), description: self.description.clone() }
    }
}

/// A local task. Timestamps are milliseconds since the Unix epoch;
/// identities are 128-bit values.
#[derive(Debug)]
pub struct Task {
    pub uuid: u128,
    pub description: String,
    pub status: TaskStatus,
    pub modified: Option<i64>,
    pub due: Option<i64>,
    pub annotations: Option<Vec<Annotation>>,
    /// Identity of the mirrored remote task, once it has one.
    pub habitica_uuid: Option<u128>,
    pub habitica_difficulty: Option<TaskDifficulty>,
    pub habitica_task_type: Option<TaskType>,
    /// Fields this library does not interpret, as key and raw JSON text,
    /// in the order they came; carried through unchanged.
    pub extra: Vec<(String, String)>,
}

pub struct TaskView {
    pub uuid: u128,
    pub description: Seq<char>,
    pub status: TaskStatus,
    pub modified: Option<i64>,
    pub due: Option<i64>,
    pub annotations: Option<Seq<AnnotationView>>,
    pub habitica_uuid: Option<u128>,
    pub habitica_difficulty: Option<TaskDifficulty>,
    pub habitica_task_type: Option<TaskType>,
    pub extra: Seq<(Seq<char>, Seq<char>)>,
}

pub open spec fn annotations_view(v: Seq<Annotation>) -> Seq<AnnotationView> {
    v.map_values(|a: Annotation| a@)
}

pub open spec fn extra_view(v: Seq<(String, String)>) -> Seq<(Seq<char>, Seq<char>)> {
    v.map_values(|e: (String, String)| (e.0@, e.1@))
}

impl View for Task {
    type V = TaskView;

    open spec fn view(&self) -> TaskView {
        TaskView {
            uuid: self.uuid,
            description: self.description@,
            status: self.status,
            modified: self.modified,
            due: self.due,
            annotations: match self.annotations {
                Some(v) => Some(annotations_view(v@)),
                None => None,
            },
            habitica_uuid: self.habitica_uuid,
            habitica_difficulty: self.habitica_difficulty,
            habitica_task_type: self.habitica_task_type,
            extra: extra_view(self.extra@),
        }
    }
}

impl TaskView {
    pub open spec fn difficulty(self) -> TaskDifficulty {
        match self.habitica_difficulty {
            Some(d) => d,
            None => TaskDifficulty::Easy,
        }
    }

    pub open spec fn task_type(self) -> TaskType {
        match self.habitica_task_type {
            Some(t) => t,
            None => TaskType::Todo,
        }
    }

    /// Whether an annotation, once trimmed, starts with the note prefix.
    pub open spec fn is_note(a: AnnotationView, prefix: Seq<char>) -> bool {
        prefix.len() <= trim_of(a.description).len() && trim_of(a.description).subrange(
            0,
            prefix.len() as int,
        ) == prefix
    }

    pub open spec fn not_note(prefix: Seq<char>) -> spec_fn(AnnotationView) -> bool {
        |a: AnnotationView| !Self::is_note(a, prefix)
    }

    pub open spec fn plain_annotations(self, prefix: Seq<char>) -> Seq<AnnotationView> {
        match self.annotations {
            Some(v) => v.filter(Self::not_note(prefix)),
            None => Seq::empty(),
        }
    }

    /// Equality of tasks: the modification time, the annotations and the
    /// uninterpreted fields are not compared.
    pub open spec fn same_task(self, other: TaskView) -> bool {
        &&& self.uuid == other.uuid
        &&& self.description == other.description
        &&& self.status == other.status
        &&& self.due == other.due
        &&& self.habitica_uuid == other.habitica_uuid
        &&& self.habitica_difficulty == other.habitica_difficulty
        &&& self.habitica_task_type == other.habitica_task_type
    }
}

pub fn clone_annotations(v: &Vec<Annotation>) -> (r: Vec<Annotation>)
    ensures
        annotations_view(r@) == annotations_view(v@),
{
    let mut r: Vec<Annotation> = Vec::new();
    let mut i: usize = 0;
    while i < v.len()
        invariant
            i <= v@.len(),
            annotations_view(r@) =~= annotations_view(v@.subrange(0, i as int)),
        decreases v@.len() - i,
    {
        let a = v[i].clone();
        let ghost r_before = r@;
        r.push(a);
        proof {
            assert(a@ == v@[i as int]@);
            assert(v@.subrange(0, i + 1) =~= v@.subrange(0, i as int).push(v@[i as int]));
            assert(annotations_view(r@) =~= annotations_view(r_before).push(a@));
            assert(annotations_view(v@.subrange(0, i + 1)) =~= annotations_view(
                v@.subrange(0, i as int),
            ).push(a@));
        }
        i = i + 1;
    }
    proof {
        assert(v@.subrange(0, v@.len() as int) =~= v@);
    }
    r
}

fn clone_extra(v: &Vec<(String, String)>) -> (r: Vec<(String, String)>)
    ensures
        extra_view(r@) == extra_view(v@),
{
    let mut r: Vec<(String, String)> = Vec::new();
    let mut i: usize = 0;
    while i < v.len()
        invariant
            i <= v@.len(),
            extra_view(r@) =~= extra_view(v@.subrange(0, i as int)),
        decreases v@.len() - i,
    {
        let e = &v[i];
        let ghost r_before = r@;
        r.push((e.0.clone(), e.1.clone()));
        proof {
            assert(v@.subrange(0, i + 1) =~= v@.subrange(0, i as int).push(v@[i as int]));
            assert(extra_view(r@) =~= extra_view(r_before).push((e.0@, e.1@)));
            assert(extra_view(v@.subrange(0, i + 1)) =~= extra_view(v@.subrange(0, i as int)).push(
                (e.0@, e.1@),
            ));
        }
        i = i + 1;
    }
    proof {
        assert(v@.subrange(0, v@.len() as int) =~= v@);
    }
    r
}

impl Clone for Task {
    fn clone(&self) -> (r: Self)
        ensures
            r@ == self@,
    {
        let annotations = match &self.annotations {
            Some(v) => Some(clone_annotations(v)),
            None => None,
        };
        Task {
            uuid: self.uuid,
            description: self.description.clone(),
            status: self.status,
            modified: self.modified,
            due: self.due,
            annotations,
            habitica_uuid: self.habitica_uuid,
            habitica_difficulty: self.habitica_difficulty,
            habitica_task_type: self.habitica_task_type,
            extra: clone_extra(&self.extra),
        }
    }
}

impl Task {
    /// The modification time, or `now` where the task carries none.
    pub fn modified_or(&self, now: i64) -> (r: i64)
        ensures
            r == match self.modified {
                Some(m) => m,
                None => now,
            },
    {
        match self.modified {
            Some(m) => m,
            None => now,
        }
    }

    /// The modification time, or the current time where the task carries none.
    pub fn modified_or_now(&self) -> (r: i64)
        ensures
            self.modified is Some ==> r == self.modified->0,
    {
        match self.modified {
            Some(m) => m,
            None => now_millis(),
        }
    }

    pub fn difficulty(&self) -> (r: TaskDifficulty)
        ensures
            r == self@.difficulty(),
    {
        match self.habitica_difficulty {
            Some(d) => d,
            None => TaskDifficulty::Easy,
        }
    }

    pub fn task_type(&self) -> (r: TaskType)
        ensures
            r == self@.task_type(),
    {
        match self.habitica_task_type {
            Some(t) => t,
            None => TaskType::Todo,
        }
    }

    /// Whether some annotation is a note mirror, recognised by its prefix.
    pub fn has_note_annotation(&self, note_prefix: &str) -> (r: bool)
        ensures
            r == (self@.annotations is Some && exists|i: int|
                0 <= i < self@.annotations->0.len() && #[trigger] TaskView::is_note(
                    self@.annotations->0[i],
                    note_prefix@,
                )),
    {
        match &self.annotations {
            None => false,
            Some(v) => {
                let mut i: usize = 0;
                while i < v.len()
                    invariant
                        i <= v@.len(),
                        self.annotations == Some(*v),
                        forall|j: int|
                            0 <= j < i ==> !#[trigger] TaskView::is_note(
                                annotations_view(v@)[j],
                                note_prefix@,
                            ),
                    decreases v@.len() - i,
                {
                    if starts_with(trimmed(v[i].description.as_str()), note_prefix) {
                        assert(annotations_view(v@)[i as int] == v@[i as int]@);
                        assert(TaskView::is_note(self@.annotations->0[i as int], note_prefix@));
                        return true;
                    }
                    i = i + 1;
                }
                false
            },
        }
    }

    /// The annotations that are not note mirrors, in their order.
    pub fn filter_note_annotations(&self, note_prefix: &str) -> (r: Vec<Annotation>)
        ensures
            annotations_view(r@) == self@.plain_annotations(note_prefix@),
    {
        let mut r: Vec<Annotation> = Vec::new();
        match &self.annotations {
            None => {},
            Some(v) => {
                let ghost keep = TaskView::not_note(note_prefix@);
                let mut i: usize = 0;
                while i < v.len()
                    invariant
                        i <= v@.len(),
                        keep == TaskView::not_note(note_prefix@),
                        annotations_view(r@) == annotations_view(v@.subrange(0, i as int)).filter(
                            keep,
                        ),
                    decreases v@.len() - i,
                {
                    let ghost before = annotations_view(v@.subrange(0, i as int));
                    let ghost x = v@[i as int]@;
                    proof {
                        reveal(Seq::filter);
                        assert(v@.subrange(0, i + 1) =~= v@.subrange(0, i as int).push(v@[i as int]));
                        assert(annotations_view(v@.subrange(0, i + 1)) =~= before.push(x));
                        assert(before.push(x).drop_last() =~= before);
                        assert(before.push(x).last() == x);
                        assert(before.push(x).filter(keep) == if keep(x) {
                            before.filter(keep).push(x)
                        } else {
                            before.filter(keep)
                        });
                    }
                    let t = trimmed(v[i].description.as_str());
                    let note = starts_with(t, note_prefix);
                    if !note {
                        let a = v[i].clone();
                        let ghost r_before = r@;
                        r.push(a);
                        proof {
                            assert(annotations_view(r@) =~= annotations_view(r_before).push(a@));
                        }
                    }
                    i = i + 1;
                }
                proof {
                    assert(v@.subrange(0, v@.len() as int) =~= v@);
                }
            },
        }
        r
    }
}

/// Handle on the local task manager. Its export and import run as
/// processes, outside this library.
#[derive(Debug, Clone, Copy, PartialEq, Eq, Structural)]
pub struct TaskwarriorClient;

impl TaskwarriorClient {
    pub fn new() -> (r: Self)
        ensures
            r == TaskwarriorClient,
    {
        TaskwarriorClient
    }
}

impl Default for TaskwarriorClient {
    fn default() -> (r: Self)
        ensures
            r == TaskwarriorClient,
    {
        TaskwarriorClient::new()
    }
}

impl PartialEq for Task {
    fn eq(&self, other: &Task) -> (r: bool) {
        self.uuid == other.uuid && self.description == other.description && self.status
            == other.status && self.due == other.due && self.habitica_uuid == other.habitica_uuid
            && self.habitica_difficulty == other.habitica_difficulty && self.habitica_task_type
            == other.habitica_task_type
    }
}

impl vstd::std_specs::cmp::PartialEqSpecImpl for Task {
    open spec fn obeys_eq_spec() -> bool {
        true
    }

    open spec fn eq_spec(&self, other: &Task) -> bool {
        self@.same_task(other@)
    }
}

} // verus!
