//! Tests of the job-service side: the status mapping table, the creation
//! request's query string, the submit-response handling and reconciliation.

use ds_companion::download_station::error_code_message;
use ds_companion::download_station::map_remote_status;
use ds_companion::download_station::with_session;
use ds_companion::download_station::DsControler;
use ds_companion::download_station::RemoteJob;
use ds_companion::download_station::SubmitError;
use ds_companion::download_station::SubmitResponse;
use ds_companion::task::Source;
use ds_companion::task::Task;
use ds_companion::task::TaskStatus;
use ds_companion::urlenc::urlencode;

fn magnet_task(uri: &str, dest: Option<&str>) -> Task {
    Task::new(
        Source::MAGNET(uri.to_string()),
        "1".to_string(),
        dest.map(|d| d.to_string()),
        "1".to_string(),
    )
}

fn job(uri: &str, status: &str) -> RemoteJob {
    RemoteJob { uri: uri.to_string(), status: status.to_string() }
}

#[test]
fn status_mapping() {
    let s = String::from("downloading");
    assert!(map_remote_status(s.as_str()) == Some(TaskStatus::DOWNLOADING));

    let t = String::from("hash_checking");
    assert!(map_remote_status(t.as_str()) == Some(TaskStatus::SUBMITTED));
}

#[test]
fn status_mapping_full_table() {
    assert!(map_remote_status("waiting") == Some(TaskStatus::SUBMITTED));
    assert!(map_remote_status("paused") == Some(TaskStatus::DOWNLOADING));
    assert!(map_remote_status("finishing") == Some(TaskStatus::DOWNLOADING));
    assert!(map_remote_status("finished") == Some(TaskStatus::DONE));
    assert!(map_remote_status("seeding") == Some(TaskStatus::DONE));
    assert!(map_remote_status("filehosting_waiting") == Some(TaskStatus::SUBMITTED));
    assert!(map_remote_status("extracting") == Some(TaskStatus::DOWNLOADING));
    assert!(map_remote_status("error") == Some(TaskStatus::FAILED));
    // the table is case-sensitive, and unknown words have no mapping
    assert!(map_remote_status("Downloading") == None);
    assert!(map_remote_status("") == None);
}

#[test]
fn destination_folder_set_in_url() {
    let controler = DsControler::new("admin".to_string());
    let task = magnet_task(
        "magnet:?xt=urn:btih:A3057BB12D25F9F391806D819A9420FA29A86712&",
        Some("videos/Movies"),
    );

    let url_str = controler.submit_query(&task).unwrap();
    assert!(url_str.as_str().contains("&destination=videos%2FMovies"));
    assert!(url_str.as_str().contains(
        "&uri=magnet%3A%3Fxt%3Durn%3Abtih%3AA3057BB12D25F9F391806D819A9420FA29A86712%2"
    ));
}

#[test]
fn submit_query_exact_round_trip() {
    let controler = DsControler::new("admin".to_string());
    let task = magnet_task("magnet:aaaa", Some("videos/Movies"));
    assert_eq!(
        controler.submit_query(&task).unwrap(),
        "api=SYNO.DownloadStation.Task&version=1&session=DownloadStation&method=create\
         &destination=videos%2FMovies&uri=magnet%3Aaaaa"
    );

    let task = magnet_task("magnet:aaaa", None);
    assert_eq!(
        controler.submit_query(&task).unwrap(),
        "api=SYNO.DownloadStation.Task&version=1&session=DownloadStation&method=create\
         &uri=magnet%3Aaaaa"
    );
}

#[test]
fn file_submission_is_refused_loudly() {
    let controler = DsControler::new("admin".to_string());
    let task = Task::new(
        Source::FILE(b"SOME_FILE".to_vec()),
        "1".to_string(),
        Some("videos/Movies".to_string()),
        "1".to_string(),
    );
    assert!(controler.submit_query(&task) == Err(SubmitError::FileSubmissionUnsupported));
}

#[test]
fn urlencoding_exact_values() {
    assert_eq!(urlencode("videos/Movies"), "videos%2FMovies");
    assert_eq!(urlencode("a b/c.d-e_f*"), "a+b%2Fc.d-e_f*");
    assert_eq!(urlencode(""), "");
    assert_eq!(urlencode("100%"), "100%25");
}

#[test]
fn session_id_is_appended_encoded() {
    assert_eq!(with_session("api=x", "abc/="), "api=x&_sid=abc%2F%3D");
}

#[test]
fn list_query_names_the_account() {
    let controler = DsControler::new("admin".to_string());
    assert_eq!(
        controler.list_query(),
        "api=SYNO.DownloadStation.Task&version=1&session=DownloadStation&method=list\
         &additional=detail&username=admin"
    );
}

#[test]
fn error_code_table() {
    assert_eq!(error_code_message(100).unwrap(), "Unknown error");
    assert_eq!(error_code_message(101).unwrap(), "Invalid parameter");
    assert_eq!(error_code_message(102).unwrap(), "The requested API does not exist");
    assert_eq!(error_code_message(103).unwrap(), "The requested method does not exist");
    assert_eq!(
        error_code_message(104).unwrap(),
        "The requested version does not support the functionality"
    );
    assert_eq!(
        error_code_message(105).unwrap(),
        "The logged in session does not have permission"
    );
    assert_eq!(error_code_message(106).unwrap(), "Session timeout");
    assert_eq!(
        error_code_message(107).unwrap(),
        "Session interrupted by duplicate login"
    );
    assert!(error_code_message(108).is_none());
    assert!(error_code_message(0).is_none());
}

#[test]
fn submit_response_drives_the_transition() {
    let controler = DsControler::new("admin".to_string());

    let mut task = magnet_task("magnet:aaaa", None);
    let change = controler.apply_submit_response(&mut task, &SubmitResponse::Success);
    assert!(task.get_status() == TaskStatus::SUBMITTED);
    let change = change.unwrap();
    assert!(change.old_status == TaskStatus::RECEIVED);
    assert!(change.new_status == TaskStatus::SUBMITTED);

    let mut task = magnet_task("magnet:aaaa", None);
    let change = controler.apply_submit_response(&mut task, &SubmitResponse::ApiError(101));
    assert!(task.get_status() == TaskStatus::FAILED);
    assert!(change.unwrap().new_status == TaskStatus::FAILED);

    // a transport failure leaves the task untouched, for a manual retry
    let mut task = magnet_task("magnet:aaaa", None);
    let change = controler.apply_submit_response(&mut task, &SubmitResponse::NoResponse);
    assert!(task.get_status() == TaskStatus::RECEIVED);
    assert!(change.is_none());
}

#[test]
fn advancement_updating() {
    let controler = DsControler::new("admin".to_string());
    let task = magnet_task("magnet:?xt9420FA29A", Some("videos/Movies"));
    let mut tasks = vec![task];
    assert!(tasks[0].get_status() == TaskStatus::RECEIVED);

    // the service answered nothing useful: nothing changes
    let report = controler.reconcile(&mut tasks, &Vec::new());
    assert!(tasks[0].get_status() == TaskStatus::RECEIVED);
    assert!(report.changes.is_empty());

    let downloading = vec![job("magnet:?xt9420FA29A", "downloading")];
    let report = controler.reconcile(&mut tasks, &downloading);
    assert!(tasks[0].get_status() == TaskStatus::DOWNLOADING);
    assert!(report.changes.len() == 1);

    // the same remote status again: no further notification
    let report = controler.reconcile(&mut tasks, &downloading);
    assert!(tasks[0].get_status() == TaskStatus::DOWNLOADING);
    assert!(report.changes.is_empty());

    // finished: the task leaves the working list in the same pass
    let finished = vec![job("magnet:?xt9420FA29A", "finished")];
    let report = controler.reconcile(&mut tasks, &finished);
    assert!(tasks.is_empty());
    assert!(report.changes.len() == 1);
    assert!(report.changes[0].new_status == TaskStatus::DONE);
}

#[test]
fn error_status_removes_the_task() {
    let controler = DsControler::new("admin".to_string());
    let mut tasks = vec![magnet_task("magnet:aaaa", None)];
    let report = controler.reconcile(&mut tasks, &vec![job("magnet:aaaa", "error")]);
    assert!(tasks.is_empty());
    assert!(report.changes.len() == 1);
    assert!(report.changes[0].new_status == TaskStatus::FAILED);
}

#[test]
fn uri_match_survives_stray_whitespace() {
    let controler = DsControler::new("admin".to_string());
    let mut tasks = vec![magnet_task("magnet:aaaa", None)];
    let report = controler.reconcile(&mut tasks, &vec![job("magnet:aaaa  ", "downloading")]);
    assert!(tasks[0].get_status() == TaskStatus::DOWNLOADING);
    assert!(report.changes.len() == 1);
}

#[test]
fn unknown_remote_status_is_reported_not_applied() {
    let controler = DsControler::new("admin".to_string());
    let mut tasks = vec![magnet_task("magnet:aaaa", None)];
    let report = controler.reconcile(&mut tasks, &vec![job("magnet:aaaa", "transmogrifying")]);
    assert!(tasks[0].get_status() == TaskStatus::RECEIVED);
    assert!(report.changes.is_empty());
    assert!(report.unknown == vec!["transmogrifying".to_string()]);
}

#[test]
fn unmatched_tasks_are_left_untouched() {
    let controler = DsControler::new("admin".to_string());
    let mut tasks = vec![magnet_task("magnet:aaaa", None), magnet_task("magnet:bbbb", None)];
    let report = controler.reconcile(&mut tasks, &vec![job("magnet:bbbb", "downloading")]);
    assert!(tasks.len() == 2);
    assert!(tasks[0].get_status() == TaskStatus::RECEIVED);
    assert!(tasks[1].get_status() == TaskStatus::DOWNLOADING);
    assert!(report.changes.len() == 1);
    assert!(report.changes[0].message_id == "1");
}
