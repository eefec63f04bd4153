//! Conflict resolution for one pair of tasks, and the remote mutations a
//! push or a local modification asks for, as a state machine: each step
//! names the next remote call, and the caller hands back its reply.

use vstd::prelude::*;
use crate::clock::{now_millis, now_stamp};
use crate::config::Config;
use crate::converter::{equivalent, from_remote, taskwarrior_to_habitica, to_remote, note_view,
    habitica_to_taskwarrior_with_id, tasks_are_equivalent};
use crate::error::Error;
use crate::habitica::{opt_text, HabiticaTask, HabiticaTaskView, ScoreDirection, UserStats};
use crate::ids::new_task_id;
use crate::notes::{incoming_note, mirrored_annotations, NoteChange, NotesManager};
use crate::stats::{StatsCache, StatsCacheView};
use crate::taskwarrior::{Task, TaskView};

verus! {

/// Which side of a pair wins.
#[derive(Debug, Clone, Copy, PartialEq, Eq, Structural)]
pub enum ResolutionAction {
    /// Keep the local version and push it.
    UseTaskwarrior,
    /// Keep the remote version and import it.
    UseHabitica,
    /// The two agree; nothing to do.
    NoChange,
}

pub open spec fn time_or(t: Option<i64>, now: i64) -> i64 {
    match t {
        Some(x) => x,
        None => now,
    }
}

/// Equivalent tasks need nothing. Otherwise the strictly newer remote
/// version wins, and a tie goes to the local one; a missing time reads
/// as `now`.
pub open spec fn resolution(t: TaskView, h: HabiticaTaskView, now: i64) -> ResolutionAction {
    if equivalent(t, h) {
        ResolutionAction::NoChange
    } else if time_or(h.updated_at, now) > time_or(t.modified, now) {
        ResolutionAction::UseHabitica
    } else {
        ResolutionAction::UseTaskwarrior
    }
}

/// Non-equivalent tasks stamped with the same modification time resolve to
/// the local version, whatever the clock reads.
pub proof fn lemma_tie_goes_to_local(t: TaskView, h: HabiticaTaskView, now: i64)
    requires
        !equivalent(t, h),
        t.modified == h.updated_at,
    ensures
        resolution(t, h, now) == ResolutionAction::UseTaskwarrior,
{
}

/// A remote mutation to perform.
#[derive(Debug)]
pub enum RemoteCall {
    Create(HabiticaTask),
    Update(u128, HabiticaTask),
    Delete(u128),
    Score(u128, ScoreDirection),
}

pub enum CallView {
    Create(HabiticaTaskView),
    Update(u128, HabiticaTaskView),
    Delete(u128),
    Score(u128, ScoreDirection),
}

impl View for RemoteCall {
    type V = CallView;

    open spec fn view(&self) -> CallView {
        match self {
            RemoteCall::Create(h) => CallView::Create(h@),
            RemoteCall::Update(id, h) => CallView::Update(*id, h@),
            RemoteCall::Delete(id) => CallView::Delete(*id),
            RemoteCall::Score(id, d) => CallView::Score(*id, *d),
        }
    }
}

/// What the remote service answered to a mutation: the identity of the
/// task it returned (creation and update), the stats and the drop message
/// that came with it.
#[derive(Debug)]
pub struct MutationReply {
    pub task_id: Option<u128>,
    pub stats: Option<UserStats>,
    pub drop_message: Option<String>,
}

/// A scoring call that is decided but not yet made.
#[derive(Debug, Clone, Copy, PartialEq, Eq, Structural)]
pub struct PlannedScore {
    pub id: u128,
    pub direction: ScoreDirection,
}

/// What an operation waits for.
#[derive(Debug, Clone, Copy, PartialEq, Eq, Structural)]
pub enum Stage {
    /// The reply to the creation or update of a push; then, if asked,
    /// an upward scoring of the returned task.
    Saving { score_up: bool },
    /// The reply to the field update of a modification; then this scoring call.
    Updating { then_score: Option<PlannedScore> },
    /// The reply to a scoring call.
    Scoring,
    /// The reply to a deletion.
    Deleting,
    /// Nothing: the operation is over.
    Done,
}

/// An operation in progress: the local task as it now stands, what is
/// awaited, and the call to make now (none once done).
#[derive(Debug)]
pub struct RemoteOp {
    pub task: Task,
    pub stage: Stage,
    pub call: Option<RemoteCall>,
}

pub struct OpView {
    pub task: TaskView,
    pub stage: Stage,
    pub call: Option<CallView>,
}

impl View for RemoteOp {
    type V = OpView;

    open spec fn view(&self) -> OpView {
        OpView {
            task: self.task@,
            stage: self.stage,
            call: match self.call {
                Some(c) => Some(c@),
                None => None,
            },
        }
    }
}

pub open spec fn done(t: TaskView) -> OpView {
    OpView { task: t, stage: Stage::Done, call: None }
}

/// A push: nothing for a task that is not mirrored; else an update of the
/// remote task it names, or a creation where it names none.
pub open spec fn push_plan(t: TaskView, note: Option<Seq<char>>) -> OpView {
    match to_remote(t, note) {
        None => done(t),
        Some(h) => OpView {
            task: t,
            stage: Stage::Saving { score_up: t.status is Completed },
            call: Some(
                match h.id {
                    Some(id) => CallView::Update(id, h),
                    None => CallView::Create(h),
                },
            ),
        },
    }
}

/// The scoring call a change of completion asks for: up when a task became
/// completed, down when it stopped being so, on the remote task it names.
pub open spec fn status_score(old: TaskView, new: TaskView) -> Option<PlannedScore> {
    let up = !(old.status is Completed) && new.status is Completed;
    let down = old.status is Completed && !(new.status is Completed);
    match new.habitica_uuid {
        Some(id) => if up {
            Some(PlannedScore { id, direction: ScoreDirection::Up })
        } else if down {
            Some(PlannedScore { id, direction: ScoreDirection::Down })
        } else {
            None
        },
        None => None,
    }
}

/// A local modification: a task that stopped being mirrored is deleted
/// remotely and loses its remote identity; one that started being mirrored
/// is pushed; any other mirrored task with a remote identity has its fields
/// updated, then is scored if its completion changed.
pub open spec fn modify_plan(old: TaskView, new: TaskView, note: Option<Seq<char>>) -> OpView {
    if !new.status.syncs() && old.habitica_uuid is Some {
        OpView {
            task: TaskView { habitica_uuid: None, ..new },
            stage: Stage::Deleting,
            call: Some(CallView::Delete(old.habitica_uuid->0)),
        }
    } else if new.status.syncs() && !old.status.syncs() {
        push_plan(new, note)
    } else {
        match to_remote(new, note) {
            Some(h) => match h.id {
                Some(id) => OpView {
                    task: new,
                    stage: Stage::Updating { then_score: status_score(old, new) },
                    call: Some(CallView::Update(id, h)),
                },
                None => done(new),
            },
            None => done(new),
        }
    }
}

/// The step after a reply. A push writes back the returned identity and
/// scores a completed task up; an update is followed by its scoring call.
pub open spec fn advanced(op: OpView, task_id: Option<u128>) -> OpView {
    match op.stage {
        Stage::Saving { score_up } => {
            let t = TaskView { habitica_uuid: task_id, ..op.task };
            match task_id {
                Some(id) => if score_up {
                    OpView {
                        task: t,
                        stage: Stage::Scoring,
                        call: Some(CallView::Score(id, ScoreDirection::Up)),
                    }
                } else {
                    done(t)
                },
                None => done(t),
            }
        },
        Stage::Updating { then_score } => match then_score {
            Some(p) => OpView {
                task: op.task,
                stage: Stage::Scoring,
                call: Some(CallView::Score(p.id, p.direction)),
            },
            None => done(op.task),
        },
        _ => done(op.task),
    }
}

/// Pushing a pending task that has no remote identity yet makes exactly
/// one call, a creation; the identity the service returns is written back
/// and no scoring follows.
pub proof fn lemma_push_new_task(t: TaskView, note: Option<Seq<char>>, id: u128)
    requires
        t.status is Pending,
        t.habitica_uuid is None,
    ensures
        push_plan(t, note).call == Some(CallView::Create(to_remote(t, note)->0)),
        advanced(push_plan(t, note), Some(id)) == done(TaskView { habitica_uuid: Some(id), ..t }),
{
}

/// Completing a task that is mirrored under a remote identity updates the
/// remote task, then scores it up, then is done.
pub proof fn lemma_complete_synced_task(
    old: TaskView,
    new: TaskView,
    note: Option<Seq<char>>,
    reply_id: Option<u128>,
    later_id: Option<u128>,
)
    requires
        old.status is Pending,
        new.status is Completed,
        old.habitica_uuid is Some,
        new.habitica_uuid == old.habitica_uuid,
    ensures
        ({
            let id = new.habitica_uuid->0;
            let first = modify_plan(old, new, note);
            let second = advanced(first, reply_id);
            &&& first.call == Some(CallView::Update(id, to_remote(new, note)->0))
            &&& second.call == Some(CallView::Score(id, ScoreDirection::Up))
            &&& advanced(second, later_id) == done(new)
        }),
{
}

pub open spec fn ledger_view(l: Option<StatsCache>) -> Option<StatsCacheView> {
    match l {
        Some(c) => Some(c@),
        None => None,
    }
}

/// The ledger after a mutation's reply is folded into it.
pub open spec fn recorded(
    l: Option<StatsCacheView>,
    stats: Option<UserStats>,
    drop_message: Option<Seq<char>>,
) -> Option<StatsCacheView> {
    match l {
        Some(c) => Some(
            StatsCacheView {
                current: match stats {
                    Some(s) => Some(s),
                    None => c.current,
                },
                drops: match drop_message {
                    Some(m) => c.drops.push(m),
                    None => c.drops,
                },
                ..c
            },
        ),
        None => None,
    }
}

fn record(ledger: &mut Option<StatsCache>, stats: Option<UserStats>, drop_message: Option<String>)
    ensures
        ledger_view(*final(ledger)) == recorded(ledger_view(*old(ledger)), stats, opt_text(drop_message)),
{
    match ledger {
        Some(cache) => {
            cache.update(stats, drop_message);
        },
        None => {},
    }
}

fn start_push(tw_task: &Task, note_content: Option<&str>) -> (r: RemoteOp)
    ensures
        r@ == push_plan(tw_task@, note_view(note_content)),
{
    let converted = taskwarrior_to_habitica(tw_task, note_content);
    let h = match converted {
        Ok(Some(h)) => h,
        _ => {
            return RemoteOp { task: tw_task.clone(), stage: Stage::Done, call: None };
        },
    };
    let call = match h.id {
        Some(id) => RemoteCall::Update(id, h),
        None => RemoteCall::Create(h),
    };
    RemoteOp {
        task: tw_task.clone(),
        stage: Stage::Saving { score_up: tw_task.status.is_completed() },
        call: Some(call),
    }
}

fn status_score_of(old_tw: &Task, new_tw: &Task) -> (r: Option<PlannedScore>)
    ensures
        r == status_score(old_tw@, new_tw@),
{
    let direction = match (old_tw.status.is_completed(), new_tw.status.is_completed()) {
        (false, true) => Some(ScoreDirection::Up),
        (true, false) => Some(ScoreDirection::Down),
        _ => None,
    };
    match (direction, new_tw.habitica_uuid) {
        (Some(d), Some(id)) => Some(PlannedScore { id, direction: d }),
        _ => None,
    }
}

impl RemoteOp {
    pub open spec fn is_done(&self) -> bool {
        self.stage is Done
    }

    /// Takes the reply to the pending call: folds its stats and message
    /// into the ledger (a deletion brings none) and moves on.
    pub fn advance(self, reply: MutationReply, ledger: &mut Option<StatsCache>) -> (r: RemoteOp)
        requires
            !(self.stage is Done),
        ensures
            r@ == advanced(self@, reply.task_id),
            self.stage is Deleting ==> *final(ledger) == *old(ledger),
            !(self.stage is Deleting) ==> ledger_view(*final(ledger)) == recorded(
                ledger_view(*old(ledger)),
                reply.stats,
                opt_text(reply.drop_message),
            ),
    {
        let RemoteOp { task, stage, call: _ } = self;
        match stage {
            Stage::Saving { score_up } => {
                let mut t = task;
                t.habitica_uuid = reply.task_id;
                record(ledger, reply.stats, reply.drop_message);
                match reply.task_id {
                    Some(id) => {
                        if score_up {
                            RemoteOp {
                                task: t,
                                stage: Stage::Scoring,
                                call: Some(RemoteCall::Score(id, ScoreDirection::Up)),
                            }
                        } else {
                            RemoteOp { task: t, stage: Stage::Done, call: None }
                        }
                    },
                    None => RemoteOp { task: t, stage: Stage::Done, call: None },
                }
            },
            Stage::Updating { then_score } => {
                record(ledger, reply.stats, reply.drop_message);
                match then_score {
                    Some(p) => RemoteOp {
                        task,
                        stage: Stage::Scoring,
                        call: Some(RemoteCall::Score(p.id, p.direction)),
                    },
                    None => RemoteOp { task, stage: Stage::Done, call: None },
                }
            },
            Stage::Scoring => {
                record(ledger, reply.stats, reply.drop_message);
                RemoteOp { task, stage: Stage::Done, call: None }
            },
            _ => RemoteOp { task, stage: Stage::Done, call: None },
        }
    }
}

pub open spec fn existing_view(e: Option<&Task>) -> Option<TaskView> {
    match e {
        Some(t) => Some(t@),
        None => None,
    }
}

/// A remote task pulled over an optional local record: its local form, with
/// its note mirrored into the annotations under `stamp`.
pub open spec fn pulled(
    h: HabiticaTaskView,
    existing: Option<TaskView>,
    fresh: u128,
    prefix: Seq<char>,
    stamp: Seq<char>,
) -> TaskView {
    let base = from_remote(h, existing, fresh);
    TaskView { annotations: mirrored_annotations(base, prefix, incoming_note(h.notes), stamp), ..base }
}

/// Resolves conflicts between the two sides, and plans their mutations.
pub struct ConflictResolver<'a> {
    pub config: &'a Config,
    pub notes_manager: NotesManager<'a>,
}

impl<'a> ConflictResolver<'a> {
    pub fn new(config: &'a Config) -> (r: Self)
        ensures
            r.config == config,
            r.notes_manager.config == config,
    {
        ConflictResolver { config, notes_manager: NotesManager::new(config) }
    }

    /// Which version of a pair wins, reading a missing time as `now`.
    pub fn resolve_at(&self, tw_task: &Task, h_task: &HabiticaTask, now: i64) -> (r: ResolutionAction)
        ensures
            r == resolution(tw_task@, h_task@, now),
    {
        if tasks_are_equivalent(tw_task, h_task) {
            return ResolutionAction::NoChange;
        }
        let tw_modified = tw_task.modified_or(now);
        let h_modified = h_task.modified_or(now);
        if h_modified > tw_modified {
            ResolutionAction::UseHabitica
        } else {
            ResolutionAction::UseTaskwarrior
        }
    }

    /// Which version of a pair wins, reading a missing time as the current time.
    pub fn resolve(&self, tw_task: &Task, h_task: &HabiticaTask) -> (r: ResolutionAction)
        ensures
            exists|now: i64| r == #[trigger] resolution(tw_task@, h_task@, now),
            equivalent(tw_task@, h_task@) ==> r == ResolutionAction::NoChange,
    {
        let now = now_millis();
        self.resolve_at(tw_task, h_task, now)
    }

    /// Starts pushing a local task, with its note text.
    pub fn push_to_habitica(&self, tw_task: &Task, note_content: Option<&str>) -> (r: RemoteOp)
        ensures
            r@ == push_plan(tw_task@, note_view(note_content)),
    {
        start_push(tw_task, note_content)
    }

    /// The scoring call that a change of completion between two versions of
    /// a task asks for, if any.
    pub fn handle_status_change(&self, old_tw: &Task, new_tw: &Task) -> (r: Option<RemoteCall>)
        ensures
            match status_score(old_tw@, new_tw@) {
                Some(p) => r matches Some(c) && c@ == CallView::Score(p.id, p.direction),
                None => r is None,
            },
    {
        match status_score_of(old_tw, new_tw) {
            Some(p) => Some(RemoteCall::Score(p.id, p.direction)),
            None => None,
        }
    }

    /// Starts mirroring a local modification from `old_tw` to `new_tw`.
    pub fn modify_on_habitica(&self, old_tw: &Task, new_tw: &Task, note_content: Option<&str>) -> (r:
        RemoteOp)
        ensures
            r@ == modify_plan(old_tw@, new_tw@, note_view(note_content)),
    {
        if !new_tw.status.should_sync_to_habitica() {
            if let Some(h_id) = old_tw.habitica_uuid {
                let mut updated = new_tw.clone();
                updated.habitica_uuid = None;
                return RemoteOp {
                    task: updated,
                    stage: Stage::Deleting,
                    call: Some(RemoteCall::Delete(h_id)),
                };
            }
        }
        if new_tw.status.should_sync_to_habitica() && !old_tw.status.should_sync_to_habitica() {
            return start_push(new_tw, note_content);
        }
        let converted = taskwarrior_to_habitica(new_tw, note_content);
        match converted {
            Ok(Some(new_h)) => match new_h.id {
                Some(h_id) => RemoteOp {
                    task: new_tw.clone(),
                    stage: Stage::Updating { then_score: status_score_of(old_tw, new_tw) },
                    call: Some(RemoteCall::Update(h_id, new_h)),
                },
                None => RemoteOp { task: new_tw.clone(), stage: Stage::Done, call: None },
            },
            _ => RemoteOp { task: new_tw.clone(), stage: Stage::Done, call: None },
        }
    }

    /// The local form of a remote task, and the change its note asks of the
    /// note store; `fresh_id` is the identity of a task new to this side,
    /// `stamp` the time of the note annotation.
    pub fn pull_from_habitica_at(
        &self,
        h_task: &HabiticaTask,
        existing_tw: Option<&Task>,
        fresh_id: u128,
        stamp: String,
    ) -> (r: Result<(Task, NoteChange), Error>)
        ensures
            r matches Ok((t, change)) && {
                &&& t@ == pulled(
                    h_task@,
                    existing_view(existing_tw),
                    fresh_id,
                    self.notes_manager.config.task_note_prefix@,
                    stamp@,
                )
                &&& match incoming_note(h_task@.notes) {
                    Some(n) => change matches NoteChange::Write(w) && w@ == n,
                    None => change is Remove,
                }
            },
    {
        let mut tw_task = habitica_to_taskwarrior_with_id(h_task, existing_tw, fresh_id);
        let change = self.notes_manager.import_note_from_habitica_at(
            &mut tw_task,
            h_task.notes.as_str(),
            stamp,
        );
        match change {
            Ok(c) => Ok((tw_task, c)),
            Err(e) => Err(e),
        }
    }

    /// As `pull_from_habitica_at`, with a fresh random identity and the
    /// current time.
    pub fn pull_from_habitica(&self, h_task: &HabiticaTask, existing_tw: Option<&Task>) -> (r: Result<
        (Task, NoteChange),
        Error,
    >)
        ensures
            r matches Ok((t, change)) && {
                &&& existing_tw matches Some(e) ==> t@.uuid == e@.uuid
                &&& exists|stamp: Seq<char>|
                    t@ == #[trigger] pulled(
                        h_task@,
                        existing_view(existing_tw),
                        t@.uuid,
                        self.notes_manager.config.task_note_prefix@,
                        stamp,
                    )
                &&& match incoming_note(h_task@.notes) {
                    Some(n) => change matches NoteChange::Write(w) && w@ == n,
                    None => change is Remove,
                }
            },
    {
        let fresh = match existing_tw {
            Some(e) => e.uuid,
            None => new_task_id(),
        };
        let stamp = now_stamp();
        let ghost s = stamp@;
        let r = self.pull_from_habitica_at(h_task, existing_tw, fresh, stamp);
        proof {
            if r is Ok {
                let t = r->Ok_0.0;
                assert(t@.uuid == fresh);
                assert(t@ == pulled(
                    h_task@,
                    existing_view(existing_tw),
                    t@.uuid,
                    self.notes_manager.config.task_note_prefix@,
                    s,
                ));
            }
        }
        r
    }
}

} // verus!
