//! Tests of message ingestion: the recency window, the magnet and
//! attachment sources, and the destination directive.

use ds_companion::discord::complete_with_file;
use ds_companion::discord::AttachementObject;
use ds_companion::discord::DiscordController;
use ds_companion::discord::Message;
use ds_companion::discord::ParseOutcome;
use ds_companion::discord::notification_content;
use ds_companion::task::Source;
use ds_companion::task::Task;
use ds_companion::task::TaskStatus;

fn now_micros() -> i64 {
    chrono::Utc::now().timestamp_micros()
}

fn message(id: &str, content: &str, timestamp: &str, author: &str) -> Message {
    Message {
        id: id.to_string(),
        author_id: author.to_string(),
        content: content.to_string(),
        timestamp: timestamp.to_string(),
        attachments: Vec::new(),
    }
}

fn controller() -> DiscordController {
    DiscordController::new("1321495709262024705".to_string(), 2)
}

#[test]
fn only_uses_magnet_links() {
    let controler = controller();
    let msgs = vec![
        message("1", "magnet:aaaa", "2044-12-25T19:07:12.600000+00:00", "xxx"),
        message("2", "notmagnet:....", "2044-12-25T19:07:12.600000+00:00", "xxx"),
    ];
    let ingested = controler.ingest_messages(&msgs, now_micros());
    let mut tasks = ingested.tasks;
    assert!(tasks.len() == 1);
    assert!(ingested.pending.is_empty());
    let task = tasks.pop().unwrap();

    assert!(task.source == Source::MAGNET("magnet:aaaa".to_string()));
    assert!(task.user_id == "xxx");
}

#[test]
fn load_tasks_posterior_to_datetime_delta() {
    let controler = controller();
    let msgs = vec![
        message("3", "magnet:bbbb", "2004-12-25T19:07:12.600000+00:00", "xxx"),
        message("4", "magnet:cccc  ", "2044-12-25T19:07:12.600000+00:00", "xxx"),
    ];
    let mut tasks = controler.ingest_messages(&msgs, now_micros()).tasks;
    assert!(tasks.len() == 1);
    let task = tasks.pop().unwrap();
    // check properly trimmed
    assert!(task.source == Source::MAGNET("magnet:cccc".to_string()));
}

#[test]
fn set_destination_folder() {
    let controler = controller();
    let msgs = vec![
        message("5", "magnet:bbbb\nTo: videos/Movies", "2044-12-25T19:07:12.600000+00:00", "xxx"),
        message("6", "magnet:bbbb\nto:videos/Series", "2044-12-25T19:07:12.600000+00:00", "xxx"),
        message(
            "7",
            "magnet:bbbb\nTo: videos/ Somewhere",
            "2044-12-25T19:07:12.600000+00:00",
            "xxx",
        ),
    ];
    let mut tasks = controler.ingest_messages(&msgs, now_micros()).tasks;
    assert!(tasks.len() == 3);

    let task = tasks.pop().unwrap();
    assert!(task.destination_folder.unwrap() == "videos/ Somewhere");

    let task = tasks.pop().unwrap();
    assert!(task.destination_folder.unwrap() == "videos/Series");

    let task = tasks.pop().unwrap();
    assert!(task.destination_folder.unwrap() == "videos/Movies");
}

#[test]
fn file_handling() {
    let controler = controller();
    let mut msg = message("5", "to: videos/Movies", "2044-12-25T19:07:12.600000+00:00", "xxx");
    msg.attachments = vec![AttachementObject {
        id: "1331590988820385832".to_string(),
        filename: "debian-12.9.0-amd64-DVD-1.iso.torrent".to_string(),
        url: "https://cdn.discordapp.com/attachments/1321495709262024705/1331590988820385832/debian-12.9.0-amd64-DVD-1.iso.torrent?ex=67922c3f&is=6790dabf&hm=8cd67397b3dc6985d8702e4f8adc1a5654eacc74e0b16105edad49a4dff06fb3&".to_string(),
        proxy_url: "https://media.discordapp.net/attachments/1321495709262024705/1331590988820385832/debian-12.9.0-amd64-DVD-1.iso.torrent?ex=67922c3f&is=6790dabf&hm=8cd67397b3dc6985d8702e4f8adc1a5654eacc74e0b16105edad49a4dff06fb3&".to_string(),
    }];
    let ingested = controler.ingest_messages(&vec![msg], now_micros());
    assert!(ingested.tasks.is_empty());
    let mut pending = ingested.pending;
    assert!(pending.len() == 1);

    // the attachment's bytes arrive, and the task is completed with them
    let file: Vec<u8> = b"Hello world".to_vec();
    let task = complete_with_file(pending.pop().unwrap(), file);
    assert!(task.source == Source::FILE(b"Hello world".to_vec()));
    assert!(task.destination_folder.unwrap() == "videos/Movies");
}

#[test]
fn age_filter_is_exclusive_on_the_boundary() {
    let controler = controller();
    let ts = chrono::DateTime::parse_from_str("2044-12-25T19:07:12.600000+00:00", "%+")
        .unwrap()
        .timestamp_micros();
    let msg = message("8", "magnet:aaaa", "2044-12-25T19:07:12.600000+00:00", "xxx");

    // the message's instant is exactly now minus the window: rejected
    let on_boundary = ts + 2 * 60_000_000;
    assert!(matches!(
        controler.parse_message(&msg, on_boundary),
        ParseOutcome::TooOld
    ));

    // one microsecond younger: ingested
    let inside = ts + 2 * 60_000_000 - 1;
    assert!(matches!(
        controler.parse_message(&msg, inside),
        ParseOutcome::Parsed(_)
    ));
}

#[test]
fn no_magnet_and_no_attachment_yields_nothing() {
    let controler = controller();
    let msg = message("9", "please fetch this for me", "2044-12-25T19:07:12.600000+00:00", "xxx");
    assert!(matches!(
        controler.parse_message(&msg, now_micros()),
        ParseOutcome::NoSource
    ));

    // an empty magnet link is no source either
    let msg = message("10", "magnet:", "2044-12-25T19:07:12.600000+00:00", "xxx");
    assert!(matches!(
        controler.parse_message(&msg, now_micros()),
        ParseOutcome::NoSource
    ));
}

#[test]
fn unreadable_timestamp_is_reported() {
    let controler = controller();
    let msgs = vec![message("11", "magnet:aaaa", "not a timestamp", "xxx")];
    let ingested = controler.ingest_messages(&msgs, now_micros());
    assert!(ingested.tasks.is_empty());
    assert!(ingested.bad_timestamps == vec!["11".to_string()]);
}

#[test]
fn destination_keyword_is_case_insensitive() {
    let controler = controller();
    let msg = message("12", "magnet:dddd\ntO:videos/Other", "2044-12-25T19:07:12.600000+00:00", "xxx");
    match controler.parse_message(&msg, now_micros()) {
        ParseOutcome::Parsed(task) => {
            assert!(task.get_status() == TaskStatus::RECEIVED);
            assert_eq!(task.destination_folder.unwrap(), "videos/Other");
        }
        _ => panic!("expected a task"),
    }
}

#[test]
fn notification_mentions_requester_on_terminal_status() {
    let mut task = Task::new(
        Source::MAGNET("magnet:aaaa".to_string()),
        "1".to_string(),
        None,
        "xxx".to_string(),
    );
    assert_eq!(notification_content(&task), "RECEIVED");

    task.set_status(TaskStatus::DOWNLOADING);
    assert_eq!(notification_content(&task), "DOWNLOADING");

    task.set_status(TaskStatus::DONE);
    assert_eq!(notification_content(&task), "DONE <@xxx>");

    task.set_status(TaskStatus::FAILED);
    assert_eq!(notification_content(&task), "FAILED <@xxx>");
}

#[test]
fn messages_path_names_the_channel() {
    let controler = controller();
    assert_eq!(
        controler.messages_path(),
        "/channels/1321495709262024705/messages"
    );
}
