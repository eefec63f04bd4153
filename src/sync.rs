//! Planning of a synchronisation run: the pairing of local and remote
//! tasks by remote identity, and the decision taken for each pair.

use vstd::prelude::*;
use crate::converter::{same_id, taskwarrior_to_habitica, to_remote, note_view};
use crate::habitica::HabiticaTask;
use crate::resolver::{resolution, ConflictResolver, ResolutionAction};
use crate::taskwarrior::{annotations_view, Annotation, Task, TaskStatus, TaskView};

verus! {

pub open spec fn has_remote(hs: Seq<HabiticaTask>, id: u128) -> bool {
    exists|i: int| 0 <= i < hs.len() && #[trigger] hs[i].id == Some(id)
}

pub open spec fn has_local(ts: Seq<Task>, id: u128) -> bool {
    exists|i: int| 0 <= i < ts.len() && #[trigger] ts[i].habitica_uuid == Some(id)
}

pub open spec fn strictly_ascending(v: Seq<u128>) -> bool {
    forall|i: int, j: int| 0 <= i < j < v.len() ==> v[i] < v[j]
}

fn insert_sorted(v: &mut Vec<u128>, x: u128)
    requires
        strictly_ascending(old(v)@),
    ensures
        strictly_ascending(final(v)@),
        forall|y: u128| final(v)@.contains(y) <==> (old(v)@.contains(y) || y == x),
{
    let mut i: usize = 0;
    while i < v.len() && v[i] < x
        invariant
            i <= v@.len(),
            v@ == old(v)@,
            strictly_ascending(v@),
            forall|k: int| 0 <= k < i ==> v@[k] < x,
        decreases v@.len() - i,
    {
        i = i + 1;
    }
    if i < v.len() && v[i] == x {
        assert(v@.contains(x));
        return;
    }
    let ghost before = v@;
    assert(before == old(v)@);
    v.insert(i, x);
    assert forall|y: u128| v@.contains(y) <==> (before.contains(y) || y == x) by {
        if v@.contains(y) {
            let k = choose|k: int| 0 <= k < v@.len() && v@[k] == y;
            if k < i {
                assert(before[k] == y);
            } else if k > i {
                assert(before[k - 1] == y);
            }
        }
        if before.contains(y) {
            let k = choose|k: int| 0 <= k < before.len() && before[k] == y;
            if k < i {
                assert(v@[k] == y);
            } else {
                assert(v@[k + 1] == y);
            }
        }
        if y == x {
            assert(v@[i as int] == x);
        }
    }
    assert(forall|y: u128| v@.contains(y) <==> (old(v)@.contains(y) || y == x));
}

/// The keys of a run: every remote identity that a remote task has or a
/// local task refers to, each once, in ascending order.
pub fn pairing_keys(h_tasks: &Vec<HabiticaTask>, tw_synced: &Vec<Task>) -> (r: Vec<u128>)
    ensures
        strictly_ascending(r@),
        forall|id: u128| r@.contains(id) <==> (has_remote(h_tasks@, id) || has_local(tw_synced@, id)),
{
    let mut keys: Vec<u128> = Vec::new();
    let mut i: usize = 0;
    while i < h_tasks.len()
        invariant
            i <= h_tasks@.len(),
            strictly_ascending(keys@),
            forall|id: u128| keys@.contains(id) <==> has_remote(h_tasks@.subrange(0, i as int), id),
        decreases h_tasks@.len() - i,
    {
        if let Some(id) = h_tasks[i].id {
            insert_sorted(&mut keys, id);
        }
        proof {
            let next = h_tasks@.subrange(0, i + 1);
            let prev = h_tasks@.subrange(0, i as int);
            assert forall|id: u128| has_remote(next, id) <==> (has_remote(prev, id) || h_tasks@[i as int].id == Some(id)) by {
                if has_remote(next, id) {
                    let k = choose|k: int| 0 <= k < next.len() && #[trigger] next[k].id == Some(id);
                    if k < i {
                        assert(prev[k] == next[k]);
                    }
                }
                if has_remote(prev, id) {
                    let k = choose|k: int| 0 <= k < prev.len() && #[trigger] prev[k].id == Some(id);
                    assert(next[k] == prev[k]);
                }
                if h_tasks@[i as int].id == Some(id) {
                    assert(next[i as int] == h_tasks@[i as int]);
                }
            }
        }
        i = i + 1;
    }
    assert(h_tasks@.subrange(0, h_tasks@.len() as int) =~= h_tasks@);
    let mut j: usize = 0;
    while j < tw_synced.len()
        invariant
            j <= tw_synced@.len(),
            strictly_ascending(keys@),
            forall|id: u128| keys@.contains(id) <==> (has_remote(h_tasks@, id) || has_local(tw_synced@.subrange(0, j as int), id)),
        decreases tw_synced@.len() - j,
    {
        if let Some(id) = tw_synced[j].habitica_uuid {
            insert_sorted(&mut keys, id);
        }
        proof {
            let next = tw_synced@.subrange(0, j + 1);
            let prev = tw_synced@.subrange(0, j as int);
            assert forall|id: u128| has_local(next, id) <==> (has_local(prev, id) || tw_synced@[j as int].habitica_uuid == Some(id)) by {
                if has_local(next, id) {
                    let k = choose|k: int| 0 <= k < next.len() && #[trigger] next[k].habitica_uuid == Some(id);
                    if k < j {
                        assert(prev[k] == next[k]);
                    }
                }
                if has_local(prev, id) {
                    let k = choose|k: int| 0 <= k < prev.len() && #[trigger] prev[k].habitica_uuid == Some(id);
                    assert(next[k] == prev[k]);
                }
                if tw_synced@[j as int].habitica_uuid == Some(id) {
                    assert(next[j as int] == tw_synced@[j as int]);
                }
            }
        }
        j = j + 1;
    }
    assert(tw_synced@.subrange(0, tw_synced@.len() as int) =~= tw_synced@);
    keys
}

/// The local record once its remote task is gone: a completed task stays
/// completed and only forgets the remote identity; any other is deleted.
pub open spec fn vanished(t: TaskView) -> TaskView {
    if t.status is Completed {
        TaskView { habitica_uuid: None, ..t }
    } else {
        TaskView { status: TaskStatus::Deleted, habitica_uuid: None, ..t }
    }
}

/// The local record to store when the remote task it refers to no longer exists.
pub fn vanished_remotely(tw_task: &Task) -> (r: Task)
    ensures
        r@ == vanished(tw_task@),
        tw_task.status is Completed ==> r.status is Completed && r.habitica_uuid is None,
{
    let mut updated = tw_task.clone();
    if !tw_task.status.is_completed() {
        updated.status = TaskStatus::Deleted;
    }
    updated.habitica_uuid = None;
    updated
}

/// The last position at or before `n` whose remote task has identity `id`.
pub open spec fn last_remote(hs: Seq<HabiticaTask>, id: u128, n: int) -> Option<int>
    decreases n,
{
    if n <= 0 {
        None
    } else if hs[n - 1].id == Some(id) {
        Some(n - 1)
    } else {
        last_remote(hs, id, n - 1)
    }
}

/// The last position at or before `n` whose local task refers to `id`.
pub open spec fn last_local(ts: Seq<Task>, id: u128, n: int) -> Option<int>
    decreases n,
{
    if n <= 0 {
        None
    } else if ts[n - 1].habitica_uuid == Some(id) {
        Some(n - 1)
    } else {
        last_local(ts, id, n - 1)
    }
}

proof fn lemma_last_remote_in_range(hs: Seq<HabiticaTask>, id: u128, n: int)
    ensures
        last_remote(hs, id, n) matches Some(k) ==> 0 <= k < n,
    decreases n,
{
    if n > 0 {
        lemma_last_remote_in_range(hs, id, n - 1);
    }
}

proof fn lemma_last_local_in_range(ts: Seq<Task>, id: u128, n: int)
    ensures
        last_local(ts, id, n) matches Some(k) ==> 0 <= k < n,
    decreases n,
{
    if n > 0 {
        lemma_last_local_in_range(ts, id, n - 1);
    }
}

fn find_remote(hs: &Vec<HabiticaTask>, id: u128) -> (r: Option<usize>)
    ensures
        r matches Some(k) ==> k < hs@.len(),
        match last_remote(hs@, id, hs@.len() as int) {
            Some(k) => r is Some && r->0 as int == k,
            None => r is None,
        },
{
    let mut n: usize = hs.len();
    while n > 0
        invariant
            n <= hs@.len(),
            last_remote(hs@, id, hs@.len() as int) == last_remote(hs@, id, n as int),
        decreases n,
    {
        if same_id(hs[n - 1].id, Some(id)) {
            return Some(n - 1);
        }
        n = n - 1;
    }
    None
}

fn find_local(ts: &Vec<Task>, id: u128) -> (r: Option<usize>)
    ensures
        r matches Some(k) ==> k < ts@.len(),
        match last_local(ts@, id, ts@.len() as int) {
            Some(k) => r is Some && r->0 as int == k,
            None => r is None,
        },
{
    let mut n: usize = ts.len();
    while n > 0
        invariant
            n <= ts@.len(),
            last_local(ts@, id, ts@.len() as int) == last_local(ts@, id, n as int),
        decreases n,
    {
        if same_id(ts[n - 1].habitica_uuid, Some(id)) {
            return Some(n - 1);
        }
        n = n - 1;
    }
    None
}

/// What a run does with one key.
#[derive(Debug)]
pub enum PairPlan {
    /// Only the remote side has the task: import it.
    Import(HabiticaTask),
    /// The remote task is gone: store this local record.
    Vanished(Task),
    /// Both sides agree, or neither has the task.
    Unchanged,
    /// The remote version wins: pull it over the local record.
    Pull { remote: HabiticaTask, local: Task },
    /// The local version wins: take the remote one as the baseline, then
    /// mirror the local record onto it.
    Push { remote: HabiticaTask, local: Task },
}

impl<'a> ConflictResolver<'a> {
    /// The plan for one key, where a remote and a local task list may each
    /// hold it (the last holder counts); a missing time reads as `now`.
    pub fn plan_pair(
        &self,
        key: u128,
        h_tasks: &Vec<HabiticaTask>,
        tw_synced: &Vec<Task>,
        now: i64,
    ) -> (r: PairPlan)
        ensures
            match (
                last_remote(h_tasks@, key, h_tasks@.len() as int),
                last_local(tw_synced@, key, tw_synced@.len() as int),
            ) {
                (Some(i), None) => r matches PairPlan::Import(h) && h@ == h_tasks@[i]@,
                (None, Some(j)) => r matches PairPlan::Vanished(t) && t@ == vanished(tw_synced@[j]@),
                (Some(i), Some(j)) => match resolution(tw_synced@[j]@, h_tasks@[i]@, now) {
                    ResolutionAction::NoChange => r is Unchanged,
                    ResolutionAction::UseHabitica => r matches PairPlan::Pull { remote, local }
                        && remote@ == h_tasks@[i]@ && local@ == tw_synced@[j]@,
                    ResolutionAction::UseTaskwarrior => r matches PairPlan::Push { remote, local }
                        && remote@ == h_tasks@[i]@ && local@ == tw_synced@[j]@,
                },
                (None, None) => r is Unchanged,
            },
    {
        proof {
            lemma_last_remote_in_range(h_tasks@, key, h_tasks@.len() as int);
            lemma_last_local_in_range(tw_synced@, key, tw_synced@.len() as int);
        }
        let ri = find_remote(h_tasks, key);
        let li = find_local(tw_synced, key);
        match (ri, li) {
            (Some(i), None) => {
                let h = h_tasks[i].clone();
                assert(h@ == h_tasks@[i as int]@);
                PairPlan::Import(h)
            },
            (None, Some(j)) => PairPlan::Vanished(vanished_remotely(&tw_synced[j])),
            (Some(i), Some(j)) => {
                let action = self.resolve_at(&tw_synced[j], &h_tasks[i], now);
                match action {
                    ResolutionAction::NoChange => PairPlan::Unchanged,
                    ResolutionAction::UseHabitica => PairPlan::Pull {
                        remote: h_tasks[i].clone(),
                        local: tw_synced[j].clone(),
                    },
                    ResolutionAction::UseTaskwarrior => PairPlan::Push {
                        remote: h_tasks[i].clone(),
                        local: tw_synced[j].clone(),
                    },
                }
            },
            (None, None) => PairPlan::Unchanged,
        }
    }
}

fn same_annotations(a: &Vec<Annotation>, b: &Vec<Annotation>) -> (r: bool)
    ensures
        r == (annotations_view(a@) == annotations_view(b@)),
{
    if a.len() != b.len() {
        assert(annotations_view(a@).len() != annotations_view(b@).len());
        return false;
    }
    let mut i: usize = 0;
    while i < a.len()
        invariant
            i <= a@.len(),
            a@.len() == b@.len(),
            forall|k: int| 0 <= k < i ==> a@[k]@ == b@[k]@,
        decreases a@.len() - i,
    {
        if a[i].entry != b[i].entry || a[i].description != b[i].description {
            assert(annotations_view(a@)[i as int] != annotations_view(b@)[i as int]);
            return false;
        }
        i = i + 1;
    }
    assert(annotations_view(a@) =~= annotations_view(b@));
    true
}

/// Whether a local modification must reach the remote side: the remote
/// forms of the two versions differ, the note was edited lately, or the
/// plain annotations changed.
pub fn modify_needs_sync(
    old_task: &Task,
    new_task: &Task,
    note_content: Option<&str>,
    note_recently_changed: bool,
    note_prefix: &str,
) -> (r: bool)
    ensures
        r == !(to_remote(old_task@, note_view(note_content)) == to_remote(new_task@, note_view(note_content))
            && !note_recently_changed && old_task@.plain_annotations(note_prefix@)
            == new_task@.plain_annotations(note_prefix@)),
{
    let old_annos = old_task.filter_note_annotations(note_prefix);
    let new_annos = new_task.filter_note_annotations(note_prefix);
    let old_h = taskwarrior_to_habitica(old_task, note_content);
    let new_h = taskwarrior_to_habitica(new_task, note_content);
    let same_remote = match (old_h, new_h) {
        (Ok(Some(a)), Ok(Some(b))) => a == b,
        (Ok(None), Ok(None)) => true,
        _ => false,
    };
    !(same_remote && !note_recently_changed && same_annotations(&old_annos, &new_annos))
}

} // verus!
