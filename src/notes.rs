//! Notes: one free-text blob per task, kept beside the task manager, and
//! mirrored into the task's annotations as a prefixed one-line preview.

use vstd::prelude::*;
use crate::clock::now_stamp;
use crate::config::{joined, join_path, Config};
use crate::error::Error;
use crate::habitica::opt_text;
use crate::ids::{hyphenated, id_text};
use crate::taskwarrior::{annotations_view, Annotation, AnnotationView, Task, TaskView};
use crate::text::{first_line, first_line_of, push_char, trim_of, trimmed};

verus! {

/// What the note store must do to mirror a remote note.
#[derive(Debug)]
pub enum NoteChange {
    /// Write this text as the task's note.
    Write(String),
    /// Remove the task's note, if it has one.
    Remove,
}

/// Manages the notes of tasks under the configured directory.
pub struct NotesManager<'a> {
    pub config: &'a Config,
}

/// The preview of a note: its first line, trimmed, if the note has any
/// text and that line is not blank.
pub open spec fn preview(note: Option<Seq<char>>) -> Option<Seq<char>> {
    match note {
        Some(c) => if trim_of(c).len() > 0 && trim_of(first_line_of(c)).len() > 0 {
            Some(trim_of(first_line_of(c)))
        } else {
            None
        },
        None => None,
    }
}

/// The annotations of a task once its note is mirrored: the plain
/// annotations, led by a fresh preview annotation where there is one;
/// no list at all where that leaves nothing.
pub open spec fn mirrored_annotations(
    t: TaskView,
    prefix: Seq<char>,
    note: Option<Seq<char>>,
    stamp: Seq<char>,
) -> Option<Seq<AnnotationView>> {
    let plain = t.plain_annotations(prefix);
    let all = match preview(note) {
        Some(p) => seq![AnnotationView { entry: stamp, description: prefix + seq![' '] + p }]
            + plain,
        None => plain,
    };
    if all.len() == 0 {
        None
    } else {
        Some(all)
    }
}

/// A note received from the remote side: a blank one counts as none.
pub open spec fn incoming_note(s: Seq<char>) -> Option<Seq<char>> {
    if trim_of(s).len() == 0 {
        None
    } else {
        Some(s)
    }
}

impl<'a> NotesManager<'a> {
    pub fn new(config: &'a Config) -> (r: Self)
        ensures
            r.config == config,
    {
        NotesManager { config }
    }

    /// The file of a task's note: its identity and the configured extension,
    /// in the notes directory.
    pub fn note_path(&self, task: &Task) -> (r: String)
        ensures
            r@ == joined(
                self.config.task_note_dir@,
                hyphenated(task.uuid) + self.config.task_note_extension@,
            ),
    {
        let mut name = id_text(task.uuid);
        name.append(self.config.task_note_extension.as_str());
        join_path(self.config.task_note_dir.as_str(), name.as_str())
    }

    /// Replaces the note annotations of a task by the preview of
    /// `note_content`, stamped with `stamp`.
    pub fn sync_note_to_annotation_at(
        &self,
        task: &mut Task,
        note_content: Option<String>,
        stamp: String,
    ) -> (r: Result<(), Error>)
        ensures
            r is Ok,
            final(task)@ == (TaskView {
                annotations: mirrored_annotations(
                    old(task)@,
                    self.config.task_note_prefix@,
                    opt_text(note_content),
                    stamp@,
                ),
                ..old(task)@
            }),
    {
        let prefix = self.config.task_note_prefix.as_str();
        let mut annotations = task.filter_note_annotations(prefix);
        let ghost plain = annotations_view(annotations@);
        let ghost note = opt_text(note_content);
        let ghost stamp_text = stamp@;
        match note_content {
            Some(content) => {
                assert(note == Some(content@));
                if trimmed(content.as_str()).unicode_len() > 0 {
                    let first = trimmed(first_line(content.as_str()));
                    if first.unicode_len() > 0 {
                        let mut description = String::from_str(prefix);
                        push_char(&mut description, ' ');
                        description.append(first);
                        assert(preview(note) == Some(first@));
                        assert(description@ =~= self.config.task_note_prefix@ + seq![' '] + first@);
                        let a = Annotation { entry: stamp, description };
                        annotations.insert(0, a);
                        assert(annotations_view(annotations@) =~= seq![a@] + plain);
                    } else {
                        assert(preview(note) is None);
                    }
                } else {
                    assert(preview(note) is None);
                }
            },
            None => {},
        }
        assert(annotations_view(annotations@) == match preview(note) {
            Some(p) => seq![
                AnnotationView { entry: stamp_text, description: self.config.task_note_prefix@ + seq![' '] + p },
            ] + plain,
            None => plain,
        });
        if annotations.len() == 0 {
            task.annotations = None;
        } else {
            task.annotations = Some(annotations);
        }
        Ok(())
    }

    /// Mirrors a note that came from the remote side: a blank note is
    /// removed from the store, any other is written to it; the annotations
    /// follow, stamped with `stamp`.
    pub fn import_note_from_habitica_at(&self, task: &mut Task, note_content: &str, stamp: String) -> (r: Result<NoteChange, Error>)
        ensures
            trim_of(note_content@).len() == 0 ==> (r matches Ok(NoteChange::Remove) && final(task)@ == (TaskView {
                annotations: mirrored_annotations(old(task)@, self.config.task_note_prefix@, None, stamp@),
                ..old(task)@
            })),
            trim_of(note_content@).len() > 0 ==> (r matches Ok(NoteChange::Write(w)) && w@ == note_content@ && final(task)@ == (TaskView {
                annotations: mirrored_annotations(old(task)@, self.config.task_note_prefix@, Some(note_content@), stamp@),
                ..old(task)@
            })),
    {
        if trimmed(note_content).unicode_len() == 0 {
            let _ = self.sync_note_to_annotation_at(task, None, stamp);
            Ok(NoteChange::Remove)
        } else {
            let _ = self.sync_note_to_annotation_at(task, Some(String::from_str(note_content)), stamp);
            Ok(NoteChange::Write(String::from_str(note_content)))
        }
    }

    /// As `import_note_from_habitica_at`, stamped with the current time.
    pub fn import_note_from_habitica(&self, task: &mut Task, note_content: &str) -> (r: Result<NoteChange, Error>)
        ensures
            trim_of(note_content@).len() == 0 ==> r matches Ok(NoteChange::Remove),
            trim_of(note_content@).len() > 0 ==> (r matches Ok(NoteChange::Write(w)) && w@ == note_content@),
            exists|stamp: Seq<char>|
                final(task)@ == (TaskView {
                    annotations: #[trigger] mirrored_annotations(
                        old(task)@,
                        self.config.task_note_prefix@,
                        incoming_note(note_content@),
                        stamp,
                    ),
                    ..old(task)@
                }),
    {
        let stamp = now_stamp();
        let ghost s = stamp@;
        let r = self.import_note_from_habitica_at(task, note_content, stamp);
        assert(final(task)@ == (TaskView {
            annotations: mirrored_annotations(
                old(task)@,
                self.config.task_note_prefix@,
                incoming_note(note_content@),
                s,
            ),
            ..old(task)@
        }));
        r
    }

    /// As `sync_note_to_annotation_at`, stamped with the current time.
    pub fn sync_note_to_annotation(&self, task: &mut Task, note_content: Option<String>) -> (r:
        Result<(), Error>)
        ensures
            r is Ok,
            exists|stamp: Seq<char>|
                final(task)@ == (TaskView {
                    annotations: #[trigger] mirrored_annotations(
                        old(task)@,
                        self.config.task_note_prefix@,
                        opt_text(note_content),
                        stamp,
                    ),
                    ..old(task)@
                }),
    {
        let stamp = now_stamp();
        let ghost s = stamp@;
        let r = self.sync_note_to_annotation_at(task, note_content, stamp);
        assert(final(task)@ == (TaskView {
            annotations: mirrored_annotations(
                old(task)@,
                self.config.task_note_prefix@,
                opt_text(note_content),
                s,
            ),
            ..old(task)@
        }));
        r
    }
}

} // verus!
