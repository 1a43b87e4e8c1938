//! The job-execution side: submitting tasks to the download service and
//! reconciling remote job status back onto the local working list.

use vstd::prelude::*;
use vstd::string::StrSliceExecFns;
use vstd::string::StringExecFns;

use crate::task::Source;
use crate::task::StatusChange;
use crate::task::Task;
use crate::task::TaskStatus;
use crate::text::str_eq;
use crate::text::trim_spec;
use crate::text::trim_str;
use crate::urlenc::urlencode;
use crate::urlenc::urlencoded;

verus! {

/// One remote job as the list call reports it: the job's source URI and the
/// service's status word.
#[derive(Debug, Clone)]
pub struct RemoteJob {
    pub uri: String,
    pub status: String,
}

/// The fixed, case-sensitive mapping from the service's status vocabulary
/// to the local one.  A word outside the table has no mapping and must be
/// reported loudly.
pub open spec fn spec_map_remote_status(s: Seq<char>) -> Option<TaskStatus> {
    if s == "waiting"@ {
        Some(TaskStatus::SUBMITTED)
    } else if s == "downloading"@ {
        Some(TaskStatus::DOWNLOADING)
    } else if s == "paused"@ {
        Some(TaskStatus::DOWNLOADING)
    } else if s == "finishing"@ {
        Some(TaskStatus::DOWNLOADING)
    } else if s == "finished"@ {
        Some(TaskStatus::DONE)
    } else if s == "hash_checking"@ {
        Some(TaskStatus::SUBMITTED)
    } else if s == "seeding"@ {
        Some(TaskStatus::DONE)
    } else if s == "filehosting_waiting"@ {
        Some(TaskStatus::SUBMITTED)
    } else if s == "extracting"@ {
        Some(TaskStatus::DOWNLOADING)
    } else if s == "error"@ {
        Some(TaskStatus::FAILED)
    } else {
        None
    }
}

/// Looks a remote status word up in the fixed mapping table.
pub fn map_remote_status(s: &str) -> (r: Option<TaskStatus>)
    ensures
        r == spec_map_remote_status(s@),
{
    if str_eq(s, "waiting") {
        Some(TaskStatus::SUBMITTED)
    } else if str_eq(s, "downloading") {
        Some(TaskStatus::DOWNLOADING)
    } else if str_eq(s, "paused") {
        Some(TaskStatus::DOWNLOADING)
    } else if str_eq(s, "finishing") {
        Some(TaskStatus::DOWNLOADING)
    } else if str_eq(s, "finished") {
        Some(TaskStatus::DONE)
    } else if str_eq(s, "hash_checking") {
        Some(TaskStatus::SUBMITTED)
    } else if str_eq(s, "seeding") {
        Some(TaskStatus::DONE)
    } else if str_eq(s, "filehosting_waiting") {
        Some(TaskStatus::SUBMITTED)
    } else if str_eq(s, "extracting") {
        Some(TaskStatus::DOWNLOADING)
    } else if str_eq(s, "error") {
        Some(TaskStatus::FAILED)
    } else {
        None
    }
}

/// The service's application-level error codes and their meanings.
pub open spec fn spec_error_code_message(code: u64) -> Option<Seq<char>> {
    if code == 100 {
        Some("Unknown error"@)
    } else if code == 101 {
        Some("Invalid parameter"@)
    } else if code == 102 {
        Some("The requested API does not exist"@)
    } else if code == 103 {
        Some("The requested method does not exist"@)
    } else if code == 104 {
        Some("The requested version does not support the functionality"@)
    } else if code == 105 {
        Some("The logged in session does not have permission"@)
    } else if code == 106 {
        Some("Session timeout"@)
    } else if code == 107 {
        Some("Session interrupted by duplicate login"@)
    } else {
        None
    }
}

/// Looks an application-level error code up in the fixed table.
pub fn error_code_message(code: u64) -> (r: Option<&'static str>)
    ensures
        r is Some <==> spec_error_code_message(code) is Some,
        r matches Some(m) ==> spec_error_code_message(code) == Some(m@),
{
    if code == 100 {
        Some("Unknown error")
    } else if code == 101 {
        Some("Invalid parameter")
    } else if code == 102 {
        Some("The requested API does not exist")
    } else if code == 103 {
        Some("The requested method does not exist")
    } else if code == 104 {
        Some("The requested version does not support the functionality")
    } else if code == 105 {
        Some("The logged in session does not have permission")
    } else if code == 106 {
        Some("Session timeout")
    } else if code == 107 {
        Some("Session interrupted by duplicate login")
    } else {
        None
    }
}

/// The magnet URI of a magnet-sourced task; file-sourced tasks carry none.
pub open spec fn spec_magnet_uri(s: Source) -> Seq<char> {
    match s {
        Source::MAGNET(m) => m@,
        Source::FILE(_) => Seq::empty(),
    }
}

/// Submitting a file-sourced task is not supported: the caller must fail
/// loudly rather than drop the task silently.
#[derive(Debug, Clone, Copy, PartialEq, Eq, Structural)]
pub enum SubmitError {
    FileSubmissionUnsupported,
}

/// What the service answered to a creation request, reduced to what the
/// engine acts on.
#[derive(Debug, Clone, Copy, PartialEq, Eq, Structural)]
pub enum SubmitResponse {
    /// The job was created.
    Success,
    /// The service reported an application-level error code.
    ApiError(u64),
    /// Transport failure or non-success status: no answer to act on.
    NoResponse,
}

/// The query string of a creation request for a magnet-sourced task: the
/// fixed creation parameters, the optional destination folder, and the
/// magnet URI, both values form-urlencoded.
pub open spec fn spec_submit_query(t: Task) -> Seq<char> {
    let base = if t.destination_folder is Some {
        "api=SYNO.DownloadStation.Task&version=1&session=DownloadStation&method=create"@
            + "&destination="@ + urlencoded(t.destination_folder->0@)
    } else {
        "api=SYNO.DownloadStation.Task&version=1&session=DownloadStation&method=create"@
    };
    base + "&uri="@ + urlencoded(spec_magnet_uri(t.source))
}

/// Appends the session id to a request's query, as the service's session
/// handling wants it.
pub fn with_session(query: &str, sid: &str) -> (r: String)
    ensures
        r@ == query@ + "&_sid="@ + urlencoded(sid@),
{
    let mut q = String::from_str(query);
    q.append("&_sid=");
    let e = urlencode(sid);
    q.append(e.as_str());
    q
}

/// The job-service controller: it builds the service's requests and applies
/// the service's answers to the working list.
pub struct DsControler {
    /// The account name the job listing is scoped to.
    pub username: String,
}

impl DsControler {
    pub fn new(username: String) -> (r: DsControler)
        ensures
            r.username == username,
    {
        DsControler { username }
    }

    /// The query string that creates a remote job for a task.  A file-sourced
    /// task is refused: its submission path is out of scope.
    pub fn submit_query(&self, task: &Task) -> (r: Result<String, SubmitError>)
        ensures
            match r {
                Ok(q) => task.source is MAGNET && q@ == spec_submit_query(*task),
                Err(e) => task.source is FILE && e == SubmitError::FileSubmissionUnsupported,
            },
    {
        match &task.source {
            Source::FILE(_) => Err(SubmitError::FileSubmissionUnsupported),
            Source::MAGNET(m) => {
                let mut q = String::from_str(
                    "api=SYNO.DownloadStation.Task&version=1&session=DownloadStation&method=create",
                );
                match &task.destination_folder {
                    Some(d) => {
                        q.append("&destination=");
                        let e = urlencode(d.as_str());
                        q.append(e.as_str());
                    },
                    None => (),
                }
                q.append("&uri=");
                let e = urlencode(m.as_str());
                q.append(e.as_str());
                Ok(q)
            },
        }
    }

    /// Applies the service's answer to a creation request: success moves the
    /// task to `SUBMITTED`, an application-level error moves it to `FAILED`,
    /// and a transport failure leaves it untouched for a manual retry.  The
    /// returned transition, if any, is the one to notify.
    pub fn apply_submit_response(&self, task: &mut Task, resp: &SubmitResponse) -> (change: Option<
        StatusChange,
    >)
        ensures
            match resp {
                SubmitResponse::Success => *final(task) == (Task {
                    status: TaskStatus::SUBMITTED,
                    ..*old(task)
                }) && change == Some(
                    StatusChange {
                        message_id: old(task).message_id,
                        user_id: old(task).user_id,
                        old_status: old(task).status,
                        new_status: TaskStatus::SUBMITTED,
                    },
                ),
                SubmitResponse::ApiError(_) => *final(task) == (Task {
                    status: TaskStatus::FAILED,
                    ..*old(task)
                }) && change == Some(
                    StatusChange {
                        message_id: old(task).message_id,
                        user_id: old(task).user_id,
                        old_status: old(task).status,
                        new_status: TaskStatus::FAILED,
                    },
                ),
                SubmitResponse::NoResponse => *final(task) == *old(task) && change is None,
            },
    {
        match resp {
            SubmitResponse::Success => Some(task.set_status(TaskStatus::SUBMITTED)),
            SubmitResponse::ApiError(_) => Some(task.set_status(TaskStatus::FAILED)),
            SubmitResponse::NoResponse => None,
        }
    }

    /// The query string that lists the remote jobs with their details.
    pub fn list_query(&self) -> (r: String)
        ensures
            r@ == "api=SYNO.DownloadStation.Task&version=1&session=DownloadStation&method=list&additional=detail&username="@
                + self.username@,
    {
        let mut q = String::from_str(
            "api=SYNO.DownloadStation.Task&version=1&session=DownloadStation&method=list&additional=detail&username=",
        );
        q.append(self.username.as_str());
        q
    }
}

/// A task's identity on the remote side: its magnet URI, trimmed, so that
/// stray surrounding whitespace on either side cannot break the match.
pub open spec fn spec_task_uri(t: Task) -> Seq<char> {
    trim_spec(spec_magnet_uri(t.source))
}

/// The mapped status of the last remote job that matches `uri` and
/// carries a recognized status word; `None` where no such job is listed.
pub open spec fn matched_status(jobs: Seq<RemoteJob>, uri: Seq<char>) -> Option<TaskStatus>
    decreases jobs.len(),
{
    if jobs.len() == 0 {
        None
    } else if trim_spec(jobs.last().uri@) == uri && spec_map_remote_status(
        jobs.last().status@,
    ) is Some {
        spec_map_remote_status(jobs.last().status@)
    } else {
        matched_status(jobs.drop_last(), uri)
    }
}

/// The status a task holds after one reconciliation pass: the matched remote
/// status where one is listed, its own status otherwise.
pub open spec fn step_status(t: Task, jobs: Seq<RemoteJob>) -> TaskStatus {
    match matched_status(jobs, spec_task_uri(t)) {
        Some(s) => s,
        None => t.status,
    }
}

pub open spec fn step_task(t: Task, jobs: Seq<RemoteJob>) -> Task {
    Task { status: step_status(t, jobs), ..t }
}

/// The working list after one reconciliation pass: every task stepped, and
/// the tasks that reached a terminal status dropped.
pub open spec fn reconciled(ts: Seq<Task>, jobs: Seq<RemoteJob>) -> Seq<Task>
    decreases ts.len(),
{
    if ts.len() == 0 {
        Seq::empty()
    } else {
        let pre = reconciled(ts.drop_last(), jobs);
        let t2 = step_task(ts.last(), jobs);
        if t2.status.spec_is_terminal() {
            pre
        } else {
            pre.push(t2)
        }
    }
}

/// The transitions one reconciliation pass performs, in task order: one per
/// task whose stepped status differs from its current one.
pub open spec fn reconcile_changes(ts: Seq<Task>, jobs: Seq<RemoteJob>) -> Seq<StatusChange>
    decreases ts.len(),
{
    if ts.len() == 0 {
        Seq::empty()
    } else {
        let pre = reconcile_changes(ts.drop_last(), jobs);
        let t = ts.last();
        let s2 = step_status(t, jobs);
        if s2 != t.status {
            pre.push(
                StatusChange {
                    message_id: t.message_id,
                    user_id: t.user_id,
                    old_status: t.status,
                    new_status: s2,
                },
            )
        } else {
            pre
        }
    }
}

/// The status words of the listed jobs that the mapping table does not know,
/// in listing order: each is a contract break to report loudly.
pub open spec fn unknown_statuses(jobs: Seq<RemoteJob>) -> Seq<String>
    decreases jobs.len(),
{
    if jobs.len() == 0 {
        Seq::empty()
    } else {
        let pre = unknown_statuses(jobs.drop_last());
        if spec_map_remote_status(jobs.last().status@) is None {
            pre.push(jobs.last().status)
        } else {
            pre
        }
    }
}

/// What one reconciliation pass reports back: the transitions to notify and
/// the unrecognized status words to log.
pub struct ReconcileReport {
    pub changes: Vec<StatusChange>,
    pub unknown: Vec<String>,
}

impl DsControler {
    /// One reconciliation pass.  Every listed job is matched against every
    /// task by trimmed URI equality; a matched task takes the mapped
    /// status, a task that reaches `DONE` or `FAILED` leaves the working
    /// list, and an unmatched task is left untouched.  Removal happens after
    /// the scan, so no task is skipped or processed twice.
    pub fn reconcile(&self, tasks: &mut Vec<Task>, jobs: &Vec<RemoteJob>) -> (r: ReconcileReport)
        requires
            forall|i: int| 0 <= i < old(tasks)@.len() ==> old(tasks)@[i].source is MAGNET,
        ensures
            final(tasks)@ == reconciled(old(tasks)@, jobs@),
            r.changes@ == reconcile_changes(old(tasks)@, jobs@),
            r.unknown@ == unknown_statuses(jobs@),
            forall|k: int|
                0 <= k < final(tasks)@.len() ==> !(final(tasks)@[k].status.spec_is_terminal()),
    {
        let ghost orig: Seq<Task> = tasks@;
        let mut kept: Vec<Task> = Vec::new();
        let mut changes: Vec<StatusChange> = Vec::new();
        let mut i: usize = 0;
        while i < tasks.len()
            invariant
                tasks@ == orig,
                i <= orig.len(),
                forall|k: int| 0 <= k < orig.len() ==> orig[k].source is MAGNET,
                kept@ == reconciled(orig.take(i as int), jobs@),
                changes@ == reconcile_changes(orig.take(i as int), jobs@),
            decreases orig.len() - i,
        {
            let mut t = tasks[i].clone();
            let uri_t = match &t.source {
                Source::MAGNET(m) => trim_str(m.as_str()),
                Source::FILE(_) => {
                    proof {
                        assert(false);
                    }
                    String::new()
                },
            };
            let mut found: Option<TaskStatus> = None;
            let mut j: usize = 0;
            while j < jobs.len()
                invariant
                    j <= jobs@.len(),
                    uri_t@ == spec_task_uri(t),
                    found == matched_status(jobs@.take(j as int), spec_task_uri(t)),
                decreases jobs@.len() - j,
            {
                proof {
                    assert(jobs@.take(j + 1).drop_last() =~= jobs@.take(j as int));
                    assert(jobs@.take(j + 1).last() == jobs@[j as int]);
                }
                let job_uri = trim_str(jobs[j].uri.as_str());
                if str_eq(job_uri.as_str(), uri_t.as_str()) {
                    match map_remote_status(jobs[j].status.as_str()) {
                        Some(s) => {
                            found = Some(s);
                        },
                        None => (),
                    }
                }
                j = j + 1;
            }
            proof {
                assert(jobs@.take(jobs@.len() as int) =~= jobs@);
                assert(orig.take(i + 1).drop_last() =~= orig.take(i as int));
                assert(orig.take(i + 1).last() == orig[i as int]);
            }
            match found {
                Some(s) => {
                    if s != t.get_status() {
                        let change = t.set_status(s);
                        changes.push(change);
                    }
                },
                None => (),
            }
            proof {
                assert(t =~= step_task(orig[i as int], jobs@));
            }
            if !t.get_status().is_terminal() {
                kept.push(t);
            }
            i = i + 1;
        }
        proof {
            assert(orig.take(orig.len() as int) =~= orig);
        }
        let mut unknown: Vec<String> = Vec::new();
        let mut j: usize = 0;
        while j < jobs.len()
            invariant
                j <= jobs@.len(),
                unknown@ == unknown_statuses(jobs@.take(j as int)),
            decreases jobs@.len() - j,
        {
            proof {
                assert(jobs@.take(j + 1).drop_last() =~= jobs@.take(j as int));
                assert(jobs@.take(j + 1).last() == jobs@[j as int]);
            }
            match map_remote_status(jobs[j].status.as_str()) {
                Some(_) => (),
                None => {
                    unknown.push(jobs[j].status.clone());
                },
            }
            j = j + 1;
        }
        proof {
            assert(jobs@.take(jobs@.len() as int) =~= jobs@);
        }
        *tasks = kept;
        proof {
            lemma_reconciled_not_terminal(orig, jobs@);
        }
        ReconcileReport { changes, unknown }
    }
}

/// No task in a reconciled working list holds a terminal status.
pub proof fn lemma_reconciled_not_terminal(ts: Seq<Task>, jobs: Seq<RemoteJob>)
    ensures
        forall|k: int|
            0 <= k < reconciled(ts, jobs).len() ==> !reconciled(
                ts,
                jobs,
            )[k].status.spec_is_terminal(),
    decreases ts.len(),
{
    if ts.len() > 0 {
        lemma_reconciled_not_terminal(ts.drop_last(), jobs);
    }
}

/// Terminal removal: a task whose matched remote status maps to
/// `DONE` or `FAILED` is absent from the working list after the pass.
pub proof fn lemma_terminal_removed(ts: Seq<Task>, jobs: Seq<RemoteJob>, i: int)
    requires
        0 <= i < ts.len(),
        step_status(ts[i], jobs).spec_is_terminal(),
    ensures
        !reconciled(ts, jobs).contains(step_task(ts[i], jobs)),
{
    lemma_reconciled_not_terminal(ts, jobs);
    if reconciled(ts, jobs).contains(step_task(ts[i], jobs)) {
        let k = choose|k: int|
            0 <= k < reconciled(ts, jobs).len() && reconciled(ts, jobs)[k] == step_task(ts[i], jobs);
        assert(!reconciled(ts, jobs)[k].status.spec_is_terminal());
        assert(false);
    }
}

/// A task that one pass has stepped is a fixed point of the step: its URI is
/// unchanged, so the same job list matches it to the status it already holds.
proof fn lemma_step_fixed(t: Task, jobs: Seq<RemoteJob>)
    ensures
        step_task(step_task(t, jobs), jobs) == step_task(t, jobs),
{
    assert(spec_task_uri(step_task(t, jobs)) == spec_task_uri(t));
}

/// Idempotence of reconciliation: running a second pass over an unchanged
/// job list leaves the working list as it is and performs no further
/// transition, so nothing more is notified.
pub proof fn lemma_reconcile_idempotent(ts: Seq<Task>, jobs: Seq<RemoteJob>)
    ensures
        reconciled(reconciled(ts, jobs), jobs) == reconciled(ts, jobs),
        reconcile_changes(reconciled(ts, jobs), jobs) == Seq::<StatusChange>::empty(),
    decreases ts.len(),
{
    if ts.len() == 0 {
    } else {
        lemma_reconcile_idempotent(ts.drop_last(), jobs);
        let pre = reconciled(ts.drop_last(), jobs);
        let t2 = step_task(ts.last(), jobs);
        if t2.status.spec_is_terminal() {
            assert(reconciled(ts, jobs) == pre);
        } else {
            lemma_step_fixed(ts.last(), jobs);
            assert(pre.push(t2).drop_last() =~= pre);
            assert(pre.push(t2).last() == t2);
            assert(step_task(t2, jobs) == t2);
            assert(step_status(t2, jobs) == t2.status);
            assert(reconciled(pre.push(t2), jobs) == pre.push(t2));
            assert(reconcile_changes(pre.push(t2), jobs) == Seq::<StatusChange>::empty());
        }
    }
}

} // verus!
