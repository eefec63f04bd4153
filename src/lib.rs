//! Two-way synchronisation between a local task manager and a remote,
//! gamified habit tracker: the record models, the converters between them,
//! the conflict rules, the stats ledger and the per-pair planning of a run.

pub mod clock;
pub mod config;
pub mod converter;
pub mod error;
pub mod habitica;
pub mod ids;
pub mod notes;
pub mod resolver;
pub mod stats;
pub mod sync;
pub mod taskwarrior;
pub mod text;

pub use config::Config;
pub use converter::{
    habitica_to_taskwarrior, habitica_to_taskwarrior_with_id, tasks_are_equivalent,
    taskwarrior_to_habitica, update_taskwarrior_from_habitica,
};
pub use error::Error;
pub use habitica::{
    reply_status, HabiticaResponse, HabiticaTask, HabiticaTaskStatus, HabiticaTaskType,
    HabiticaTaskView, ItemDrop, ItemDropData, ItemDropTemp, ReplyStatus, ResponseWithStats,
    ScoreDirection, UserStats,
};
pub use notes::{NoteChange, NotesManager};
pub use resolver::{
    ConflictResolver, MutationReply, PlannedScore, RemoteCall, RemoteOp, ResolutionAction, Stage,
};
pub use stats::StatsCache;
pub use sync::{modify_needs_sync, pairing_keys, vanished_remotely, PairPlan};
pub use taskwarrior::{
    Annotation, AnnotationView, Task, TaskDifficulty, TaskStatus, TaskType, TaskView,
    TaskwarriorClient,
};
