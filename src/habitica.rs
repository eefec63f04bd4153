//! The remote task record, the stats snapshot and the response envelope of
//! the remote service.

use vstd::prelude::*;
use crate::error::Error;

verus! {

/// Completion state of a remote task.
#[derive(Debug, Clone, Copy, PartialEq, Eq, Structural)]
pub enum HabiticaTaskStatus {
    Pending,
    Completed,
}

/// Kind of a remote task.
#[derive(Debug, Clone, Copy, PartialEq, Eq, Structural)]
pub enum HabiticaTaskType {
    Todo,
    Daily,
    Habit,
    Reward,
}

/// Direction of a scoring call.
#[derive(Debug, Clone, Copy, PartialEq, Eq, Structural)]
pub enum ScoreDirection {
    Up,
    Down,
}

impl ScoreDirection {
    pub fn as_str(&self) -> (r: &'static str)
        ensures
            *self is Up ==> r@ == "up"@,
            *self is Down ==> r@ == "down"@,
    {
        match self {
            ScoreDirection::Up => "up",
            ScoreDirection::Down => "down",
        }
    }
}

pub open spec fn opt_text(o: Option<String>) -> Option<Seq<char>> {
    match o {
        Some(s) => Some(s@),
        None => None,
    }
}

pub fn clone_opt_text(o: &Option<String>) -> (r: Option<String>)
    ensures
        opt_text(r) == opt_text(*o),
{
    match o {
        Some(s) => Some(s.clone()),
        None => None,
    }
}

/// A task as the remote service holds it. The priority is in thousandths
/// (1000 stands for 1.0); timestamps are milliseconds since the Unix epoch.
#[derive(Debug)]
pub struct HabiticaTask {
    pub id: Option<u128>,
    pub text: String,
    pub notes: String,
    pub task_type: HabiticaTaskType,
    pub priority: i64,
    pub completed: bool,
    pub date: Option<i64>,
    pub updated_at: Option<i64>,
    /// For dailies, whether the task is due today; computed by the service
    /// and never sent to it.
    pub is_due: bool,
}

pub struct HabiticaTaskView {
    pub id: Option<u128>,
    pub text: Seq<char>,
    pub notes: Seq<char>,
    pub task_type: HabiticaTaskType,
    pub priority: i64,
    pub completed: bool,
    pub date: Option<i64>,
    pub updated_at: Option<i64>,
    pub is_due: bool,
}

impl View for HabiticaTask {
    type V = HabiticaTaskView;

    open spec fn view(&self) -> HabiticaTaskView {
        HabiticaTaskView {
            id: self.id,
            text: self.text@,
            notes: self.notes@,
            task_type: self.task_type,
            priority: self.priority,
            completed: self.completed,
            date: self.date,
            updated_at: self.updated_at,
            is_due: self.is_due,
        }
    }
}

impl HabiticaTaskView {
    /// A daily is pending only while it is not completed and is due today;
    /// any other task is pending exactly while it is not completed.
    pub open spec fn effective_status(self) -> HabiticaTaskStatus {
        if self.task_type is Daily {
            if !self.completed && self.is_due {
                HabiticaTaskStatus::Pending
            } else {
                HabiticaTaskStatus::Completed
            }
        } else if self.completed {
            HabiticaTaskStatus::Completed
        } else {
            HabiticaTaskStatus::Pending
        }
    }
}

impl Clone for HabiticaTask {
    fn clone(&self) -> (r: Self)
        ensures
            r@ == self@,
    {
        HabiticaTask {
            id: self.id,
            text: self.text.clone(),
            notes: self.notes.clone(),
            task_type: self.task_type,
            priority: self.priority,
            completed: self.completed,
            date: self.date,
            updated_at: self.updated_at,
            is_due: self.is_due,
        }
    }
}

impl PartialEq for HabiticaTask {
    fn eq(&self, other: &HabiticaTask) -> (r: bool) {
        self.id == other.id && self.text == other.text && self.notes == other.notes
            && self.task_type == other.task_type && self.priority == other.priority
            && self.completed == other.completed && self.date == other.date && self.updated_at
            == other.updated_at && self.is_due == other.is_due
    }
}

impl vstd::std_specs::cmp::PartialEqSpecImpl for HabiticaTask {
    open spec fn obeys_eq_spec() -> bool {
        true
    }

    open spec fn eq_spec(&self, other: &HabiticaTask) -> bool {
        self@ == other@
    }
}

impl HabiticaTask {
    pub fn effective_status(&self) -> (r: HabiticaTaskStatus)
        ensures
            r == self@.effective_status(),
    {
        if self.task_type == HabiticaTaskType::Daily {
            if !self.completed && self.is_due {
                HabiticaTaskStatus::Pending
            } else {
                HabiticaTaskStatus::Completed
            }
        } else if self.completed {
            HabiticaTaskStatus::Completed
        } else {
            HabiticaTaskStatus::Pending
        }
    }

    /// The last update time, or `now` where the task carries none.
    pub fn modified_or(&self, now: i64) -> (r: i64)
        ensures
            r == match self.updated_at {
                Some(m) => m,
                None => now,
            },
    {
        match self.updated_at {
            Some(m) => m,
            None => now,
        }
    }

    /// The last update time, or the current time where the task carries none.
    pub fn modified_or_now(&self) -> (r: i64)
        ensures
            self.updated_at is Some ==> r == self.updated_at->0,
    {
        match self.updated_at {
            Some(m) => m,
            None => crate::clock::now_millis(),
        }
    }
}

/// A snapshot of the user's stats. Health, mana, experience and gold are
/// in thousandths; the ceilings and the level are whole numbers.
#[derive(Debug, Clone, Copy, PartialEq, Eq, Structural)]
pub struct UserStats {
    pub hp: i64,
    pub max_hp: Option<i32>,
    pub mp: i64,
    pub max_mp: Option<i32>,
    pub exp: i64,
    pub to_next_level: Option<i32>,
    pub gp: i64,
    pub lvl: i32,
}

/// How the HTTP status of a reply reads.
#[derive(Debug, Clone, Copy, PartialEq, Eq, Structural)]
pub enum ReplyStatus {
    /// A success status: the envelope is to be read.
    Success,
    /// The task is already gone, which satisfies a deletion or a scoring.
    AlreadyGone,
    /// Any other status: the call failed.
    Failure,
}

/// A 2xx status succeeds; a 404 satisfies a call that tolerates a missing
/// task (deletion, scoring); anything else is a failure.
pub fn reply_status(status: u16, missing_is_satisfied: bool) -> (r: ReplyStatus)
    ensures
        200 <= status < 300 ==> r == ReplyStatus::Success,
        status == 404 && missing_is_satisfied ==> r == ReplyStatus::AlreadyGone,
        !(200 <= status < 300) && !(status == 404 && missing_is_satisfied) ==> r
            == ReplyStatus::Failure,
{
    if 200 <= status && status < 300 {
        ReplyStatus::Success
    } else if status == 404 && missing_is_satisfied {
        ReplyStatus::AlreadyGone
    } else {
        ReplyStatus::Failure
    }
}

/// The envelope of every answer of the remote service.
#[derive(Debug)]
pub struct HabiticaResponse<T> {
    pub success: bool,
    pub data: Option<T>,
    pub error: Option<String>,
    pub message: Option<String>,
}

impl<T> HabiticaResponse<T> {
    /// The payload of a successful answer. An answer that reports failure
    /// gives its message (or "Unknown error"); one without payload gives
    /// "No data in response".
    pub fn into_data(self) -> (r: Result<T, Error>)
        ensures
            self.success && self.data is Some ==> r == Ok::<T, Error>(self.data->0),
            !self.success ==> (r matches Err(Error::HabiticaApiError(m)) && (match self.message {
                Some(msg) => m@ == msg@,
                None => m@ == "Unknown error"@,
            })),
            self.success && self.data is None ==> (r matches Err(Error::HabiticaApiError(m)) && m@
                == "No data in response"@),
    {
        if !self.success {
            let m = match self.message {
                Some(msg) => msg,
                None => String::from_str("Unknown error"),
            };
            return Err(Error::HabiticaApiError(m));
        }
        match self.data {
            Some(d) => Ok(d),
            None => Err(Error::HabiticaApiError(String::from_str("No data in response"))),
        }
    }
}

/// The dialog of an item the user found.
#[derive(Debug)]
pub struct ItemDropData {
    pub dialog: Option<String>,
}

#[derive(Debug)]
pub struct ItemDropTemp {
    pub drop: Option<ItemDropData>,
}

#[derive(Debug)]
pub struct ItemDrop {
    pub tmp: Option<ItemDropTemp>,
}

/// The dialog carried by an optional drop record, if any.
pub open spec fn drop_dialog(tmp: Option<ItemDropTemp>) -> Option<Seq<char>> {
    match tmp {
        Some(t) => match t.drop {
            Some(d) => opt_text(d.dialog),
            None => None,
        },
        None => None,
    }
}

fn dialog_of(tmp: &Option<ItemDropTemp>) -> (r: Option<String>)
    ensures
        opt_text(r) == drop_dialog(*tmp),
{
    match tmp {
        Some(t) => match &t.drop {
            Some(d) => clone_opt_text(&d.dialog),
            None => None,
        },
        None => None,
    }
}

impl ItemDrop {
    pub fn message(&self) -> (r: Option<String>)
        ensures
            opt_text(r) == drop_dialog(self.tmp),
    {
        dialog_of(&self.tmp)
    }
}

/// The payload of a mutation: the data, and the stats and drop that came with it.
#[derive(Debug)]
pub struct ResponseWithStats<T> {
    pub data: T,
    pub stats: Option<UserStats>,
    pub tmp: Option<ItemDropTemp>,
}

impl<T> ResponseWithStats<T> {
    pub fn item_drop_message(&self) -> (r: Option<String>)
        ensures
            opt_text(r) == drop_dialog(self.tmp),
    {
        dialog_of(&self.tmp)
    }
}

} // verus!
