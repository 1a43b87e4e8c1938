//! The task entity: one download request, its source, and its status.

use vstd::prelude::*;

verus! {

/// Status of a download task.  `RECEIVED` is the only initial state;
/// `DONE` and `FAILED` are terminal.
#[derive(Debug, PartialEq, Eq, Structural, Hash, Clone, Copy)]
pub enum TaskStatus {
    RECEIVED,
    SUBMITTED,
    DOWNLOADING,
    FAILED,
    DONE,
}

impl TaskStatus {
    /// `DONE` and `FAILED` end a task's life: a task that reaches either is
    /// dropped from the working list.
    pub open spec fn spec_is_terminal(&self) -> bool {
        *self == TaskStatus::DONE || *self == TaskStatus::FAILED
    }

    #[verifier::when_used_as_spec(spec_is_terminal)]
    pub fn is_terminal(&self) -> (r: bool)
        ensures
            r == self.spec_is_terminal(),
    {
        *self == TaskStatus::DONE || *self == TaskStatus::FAILED
    }

    /// The name of the status, as it is shown to the requester.
    pub open spec fn spec_label(self) -> Seq<char> {
        match self {
            TaskStatus::RECEIVED => "RECEIVED"@,
            TaskStatus::SUBMITTED => "SUBMITTED"@,
            TaskStatus::DOWNLOADING => "DOWNLOADING"@,
            TaskStatus::FAILED => "FAILED"@,
            TaskStatus::DONE => "DONE"@,
        }
    }

    pub fn label(&self) -> (r: &'static str)
        ensures
            r@ == self.spec_label(),
    {
        match self {
            TaskStatus::RECEIVED => "RECEIVED",
            TaskStatus::SUBMITTED => "SUBMITTED",
            TaskStatus::DOWNLOADING => "DOWNLOADING",
            TaskStatus::FAILED => "FAILED",
            TaskStatus::DONE => "DONE",
        }
    }
}

/// Where the download request came from: a magnet URI found in the message
/// text, or the raw bytes of a file attachment.
#[derive(Debug, PartialEq, Eq)]
pub enum Source {
    FILE(Vec<u8>),
    MAGNET(String),
}

impl Clone for Source {
    /// A cloned magnet source is equal to the original; a cloned file source
    /// holds the same bytes.
    fn clone(&self) -> (res: Self)
        ensures
            *self is MAGNET ==> res == *self,
            self matches Source::FILE(b) ==> (res matches Source::FILE(rb) && rb@ == b@),
    {
        match self {
            Source::FILE(b) => {
                let rb = b.clone();
                proof {
                    assert(rb@ =~= b@);
                }
                Source::FILE(rb)
            },
            Source::MAGNET(m) => Source::MAGNET(m.clone()),
        }
    }
}

/// One download request tracked by the engine.
/// The engine only ever changes `status` through `set_status`, so that each
/// transition yields a `StatusChange` and no notification is skipped.
#[derive(Debug, PartialEq, Eq)]
pub struct Task {
    pub status: TaskStatus,
    pub message_id: String,
    pub source: Source,
    pub destination_folder: Option<String>,
    pub user_id: String,
}

/// The record of one status transition.  `set_status` hands it back so the
/// engine - not the entity - can push the matching notification.
#[derive(Debug, Clone, PartialEq, Eq)]
pub struct StatusChange {
    pub message_id: String,
    pub user_id: String,
    pub old_status: TaskStatus,
    pub new_status: TaskStatus,
}

impl Clone for Task {
    /// A cloned task keeps every field; with a magnet source it is equal to
    /// the original.
    fn clone(&self) -> (res: Self)
        ensures
            res.status == self.status,
            res.message_id == self.message_id,
            res.user_id == self.user_id,
            res.destination_folder == self.destination_folder,
            self.source is MAGNET ==> res == *self,
            self.source matches Source::FILE(b) ==> (res.source matches Source::FILE(rb) && rb@
                == b@),
    {
        Task {
            status: self.status,
            message_id: self.message_id.clone(),
            source: self.source.clone(),
            destination_folder: match &self.destination_folder {
                Some(d) => Some(d.clone()),
                None => None,
            },
            user_id: self.user_id.clone(),
        }
    }
}

impl Task {
    /// A fresh task starts in `RECEIVED` and carries its message's data.
    pub fn new(
        source: Source,
        message_id: String,
        destination_folder: Option<String>,
        user_id: String,
    ) -> (t: Task)
        ensures
            t.status == TaskStatus::RECEIVED,
            t.source == source,
            t.message_id == message_id,
            t.destination_folder == destination_folder,
            t.user_id == user_id,
    {
        Task { source, message_id, status: TaskStatus::RECEIVED, destination_folder, user_id }
    }

    /// The single path that changes `status`.  Every other field is kept, and
    /// the returned record names the transition so that a notification can be
    /// sent for it.
    pub fn set_status(&mut self, status: TaskStatus) -> (change: StatusChange)
        ensures
            *final(self) == (Task { status, ..*old(self) }),
            change == (StatusChange {
                message_id: old(self).message_id,
                user_id: old(self).user_id,
                old_status: old(self).status,
                new_status: status,
            }),
    {
        let change = StatusChange {
            message_id: self.message_id.clone(),
            user_id: self.user_id.clone(),
            old_status: self.status,
            new_status: status,
        };
        self.status = status;
        change
    }

    pub fn get_status(&self) -> (s: TaskStatus)
        ensures
            s == self.status,
    {
        self.status
    }
}

} // verus!
