//! Message ingestion: turning one raw inbound chat message into at most one
//! download task.  A message yields a task when it is recent enough and
//! carries a source: a leading `magnet:` link in its text, or, failing that,
//! a file attachment.  An optional trailing `to:` directive names the
//! destination folder.

use vstd::prelude::*;
use vstd::string::StrSliceExecFns;
use vstd::string::StringExecFns;

use crate::task::Source;
use crate::task::StatusChange;
use crate::task::Task;
use crate::task::TaskStatus;
use crate::text::is_path_char;
use crate::text::is_path_char_exec;
use crate::text::str_eq;
use crate::text::trim_spec;
use crate::text::trim_str;
use crate::time::parse_timestamp_micros;
use crate::time::timestamp_micros_of;

verus! {

/// A file attached to a message, as the chat API describes it.
#[derive(Debug, Clone)]
pub struct AttachementObject {
    pub id: String,
    pub filename: String,
    pub url: String,
    pub proxy_url: String,
}

/// One raw inbound message record.
#[derive(Debug, Clone)]
pub struct Message {
    pub id: String,
    pub author_id: String,
    pub content: String,
    pub timestamp: String,
    pub attachments: Vec<AttachementObject>,
}

/// The text up to (excluding) its first newline.
pub open spec fn first_line(s: Seq<char>) -> Seq<char>
    decreases s.len(),
{
    if s.len() == 0 {
        s
    } else if s[0] == '\n' {
        Seq::empty()
    } else {
        seq![s[0]] + first_line(s.drop_first())
    }
}

/// Whether the content opens with a magnet link: the prefix `magnet:`
/// followed by at least one further character on the same line.
pub open spec fn has_magnet(s: Seq<char>) -> bool {
    s.len() >= 8 && s.subrange(0, 7) == "magnet:"@ && s[7] != '\n'
}

/// The magnet URI found in the content: its first line, trimmed.
pub open spec fn magnet_text(s: Seq<char>) -> Seq<char> {
    trim_spec(first_line(s))
}

/// Whether a destination directive stands at position `i`: the keyword `to`
/// in any case, a colon, and nothing but path characters up to the end of the
/// content.
pub open spec fn directive_at(s: Seq<char>, i: int) -> bool {
    &&& 0 <= i
    &&& i + 3 <= s.len()
    &&& (s[i] == 't' || s[i] == 'T')
    &&& (s[i + 1] == 'o' || s[i + 1] == 'O')
    &&& s[i + 2] == ':'
    &&& forall|j: int| i + 3 <= j < s.len() ==> is_path_char(s[j])
}

pub open spec fn has_directive(s: Seq<char>) -> bool {
    exists|i: int| directive_at(s, i)
}

/// The destination folder named by the trailing directive, trimmed of
/// surrounding whitespace; `None` where the content carries no directive.
pub open spec fn destination_of(s: Seq<char>) -> Option<Seq<char>> {
    if has_directive(s) {
        let i = choose|i: int| directive_at(s, i);
        Some(trim_spec(s.subrange(i + 3, s.len() as int)))
    } else {
        None
    }
}

/// At most one position can carry the directive: a second one would place the
/// first one's colon among its path characters.
pub proof fn lemma_directive_unique(s: Seq<char>, i: int, j: int)
    requires
        directive_at(s, i),
        directive_at(s, j),
    ensures
        i == j,
{
    if i < j {
        assert(is_path_char(s[j + 2]));
        assert(false);
    }
    if j < i {
        assert(is_path_char(s[i + 2]));
        assert(false);
    }
}

/// The destination-directive law: where a directive stands at `i`, the
/// destination is exactly the text after the directive's colon, trimmed of
/// surrounding whitespace.
pub proof fn lemma_destination_directive(c: Seq<char>, i: int)
    requires
        directive_at(c, i),
    ensures
        destination_of(c) == Some(trim_spec(c.subrange(i + 3, c.len() as int))),
{
    let w = choose|t: int| directive_at(c, t);
    lemma_directive_unique(c, w, i);
}

proof fn lemma_first_line_extract(s: Seq<char>, e: int)
    requires
        0 <= e <= s.len(),
        forall|j: int| 0 <= j < e ==> s[j] != '\n',
        e < s.len() ==> s[e] == '\n',
    ensures
        first_line(s) == s.subrange(0, e),
    decreases s.len(),
{
    if s.len() == 0 {
        assert(s.subrange(0, 0) =~= s);
    } else if s[0] == '\n' {
        assert(e == 0);
        assert(s.subrange(0, 0) =~= Seq::<char>::empty());
    } else {
        assert(e >= 1);
        let s1 = s.drop_first();
        lemma_first_line_extract(s1, e - 1);
        assert(seq![s[0]] + s1.subrange(0, e - 1) =~= s.subrange(0, e));
    }
}

/// Extracts the magnet link opening the content, if one is there.
pub fn extract_magnet(s: &str) -> (r: Option<String>)
    ensures
        r is Some <==> has_magnet(s@),
        r matches Some(m) ==> m@ == magnet_text(s@),
{
    let n = s.unicode_len();
    if n < 8 {
        return None;
    }
    let prefix = s.substring_char(0, 7);
    if !str_eq(prefix, "magnet:") {
        return None;
    }
    if s.get_char(7) == '\n' {
        return None;
    }
    let mut e: usize = 0;
    while e < n && s.get_char(e) != '\n'
        invariant
            n == s@.len(),
            e <= n,
            forall|j: int| 0 <= j < e ==> s@[j] != '\n',
        decreases n - e,
    {
        e = e + 1;
    }
    let line = s.substring_char(0, e);
    proof {
        lemma_first_line_extract(s@, e as int);
    }
    Some(trim_str(line))
}

fn all_path_chars_from(s: &str, k: usize) -> (r: bool)
    requires
        k <= s@.len(),
    ensures
        r == (forall|j: int| k <= j < s@.len() ==> is_path_char(s@[j])),
{
    let n = s.unicode_len();
    let mut j: usize = k;
    while j < n
        invariant
            n == s@.len(),
            k <= j <= n,
            forall|t: int| k <= t < j ==> is_path_char(s@[t]),
        decreases n - j,
    {
        if !is_path_char_exec(s.get_char(j)) {
            proof {
                assert(!is_path_char(s@[j as int]));
            }
            return false;
        }
        j = j + 1;
    }
    true
}

/// Extracts the trailing destination directive's path, if one is there.
pub fn extract_destination(s: &str) -> (r: Option<String>)
    ensures
        r is Some <==> has_directive(s@),
        r matches Some(d) ==> destination_of(s@) == Some(d@),
{
    let n = s.unicode_len();
    if n < 3 {
        return None;
    }
    let mut i: usize = 0;
    while i <= n - 3
        invariant
            n == s@.len(),
            n >= 3,
            i <= n,
            forall|t: int| 0 <= t < i ==> !directive_at(s@, t),
        decreases n - i,
    {
        let c0 = s.get_char(i);
        let c1 = s.get_char(i + 1);
        let c2 = s.get_char(i + 2);
        if (c0 == 't' || c0 == 'T') && (c1 == 'o' || c1 == 'O') && c2 == ':'
            && all_path_chars_from(s, i + 3) {
            let rest = s.substring_char(i + 3, n);
            let d = trim_str(rest);
            proof {
                assert(directive_at(s@, i as int));
                lemma_destination_directive(s@, i as int);
            }
            return Some(d);
        }
        proof {
            assert(!directive_at(s@, i as int));
        }
        i = i + 1;
    }
    None
}

/// A message that has passed the filters but whose source is its first
/// attachment: the task can be completed once the attachment's bytes have
/// been fetched.
#[derive(Debug, Clone, PartialEq, Eq)]
pub struct PendingTask {
    pub message_id: String,
    pub user_id: String,
    pub destination_folder: Option<String>,
    pub attachment_url: String,
}

/// What the parser decided for one message.
#[derive(Debug, PartialEq, Eq)]
pub enum ParseOutcome {
    /// A task with a magnet source, ready as it stands.
    Parsed(Task),
    /// A task waiting for its attachment's bytes.
    NeedsAttachment(PendingTask),
    /// The message is older than the recency window: no task.
    TooOld,
    /// Neither a magnet link nor an attachment: no task.
    NoSource,
    /// The timestamp field is not a valid RFC 3339 timestamp.
    BadTimestamp,
}

/// The outcome's kind alone, used to state which branch the parser takes.
#[derive(Debug, Clone, Copy, PartialEq, Eq)]
pub enum ParseKind {
    Parsed,
    NeedsAttachment,
    TooOld,
    NoSource,
    BadTimestamp,
}

pub open spec fn kind_of(r: ParseOutcome) -> ParseKind {
    match r {
        ParseOutcome::Parsed(_) => ParseKind::Parsed,
        ParseOutcome::NeedsAttachment(_) => ParseKind::NeedsAttachment,
        ParseOutcome::TooOld => ParseKind::TooOld,
        ParseOutcome::NoSource => ParseKind::NoSource,
        ParseOutcome::BadTimestamp => ParseKind::BadTimestamp,
    }
}

/// Whether an extracted destination agrees with the content's directive.
pub open spec fn dest_matches(d: Option<String>, c: Seq<char>) -> bool {
    match d {
        Some(p) => destination_of(c) == Some(p@),
        None => destination_of(c) is None,
    }
}

/// What a magnet-sourced task built from `msg` must hold.
pub open spec fn task_from_message(t: Task, msg: Message) -> bool {
    &&& t.status == TaskStatus::RECEIVED
    &&& t.message_id == msg.id
    &&& t.user_id == msg.author_id
    &&& t.source matches Source::MAGNET(m) && m@ == magnet_text(msg.content@)
    &&& dest_matches(t.destination_folder, msg.content@)
}

/// What a pending attachment-sourced task built from `msg` must hold.
pub open spec fn pending_from_message(p: PendingTask, msg: Message) -> bool {
    &&& p.message_id == msg.id
    &&& p.user_id == msg.author_id
    &&& msg.attachments@.len() > 0 && p.attachment_url == msg.attachments@[0].url
    &&& dest_matches(p.destination_folder, msg.content@)
}

/// The message-side controller: it parses inbound messages into tasks and
/// composes the status notifications sent back to the channel.
pub struct DiscordController {
    /// The channel whose history is read and replied to.
    pub channel: String,
    /// The recency window, in minutes: only messages younger than this are
    /// ingested.
    pub minutes_delta: u64,
}

/// Everything one ingestion pass produced.
pub struct Ingested {
    /// Tasks with a magnet source, in message order.
    pub tasks: Vec<Task>,
    /// Tasks waiting for their attachment's bytes, in message order.
    pub pending: Vec<PendingTask>,
    /// Ids of messages whose timestamp would not parse: a contract break to
    /// be reported loudly, not swallowed.
    pub bad_timestamps: Vec<String>,
}

impl DiscordController {
    pub fn new(channel: String, minutes_delta: u64) -> (r: DiscordController)
        ensures
            r.channel == channel,
            r.minutes_delta == minutes_delta,
    {
        DiscordController { channel, minutes_delta }
    }

    /// Whether an instant falls inside the recency window ending at `now`.
    pub open spec fn spec_recent(self, ts: i64, now: i64) -> bool {
        ts > now - (self.minutes_delta as int) * 60_000_000
    }

    /// Which branch the parser takes for a message: stale messages and
    /// sourceless messages yield nothing, a magnet wins over an attachment,
    /// and an unreadable timestamp is reported as such.
    pub open spec fn spec_parse_kind(self, msg: Message, now: i64) -> ParseKind {
        match timestamp_micros_of(msg.timestamp@) {
            None => ParseKind::BadTimestamp,
            Some(ts) => if !self.spec_recent(ts, now) {
                ParseKind::TooOld
            } else if has_magnet(msg.content@) {
                ParseKind::Parsed
            } else if msg.attachments@.len() > 0 {
                ParseKind::NeedsAttachment
            } else {
                ParseKind::NoSource
            },
        }
    }

    /// Parses one message.  The outcome's kind is fixed by the message and
    /// the clock; a produced task carries the message's id and author, the
    /// trimmed magnet URI or first attachment's URL, and the destination
    /// directive's path if one is there.
    pub fn parse_message(&self, msg: &Message, now_micros: i64) -> (r: ParseOutcome)
        ensures
            kind_of(r) == self.spec_parse_kind(*msg, now_micros),
            r matches ParseOutcome::Parsed(t) ==> task_from_message(t, *msg),
            r matches ParseOutcome::NeedsAttachment(p) ==> pending_from_message(p, *msg),
    {
        let parsed_ts = parse_timestamp_micros(msg.timestamp.as_str());
        match parsed_ts {
            None => ParseOutcome::BadTimestamp,
            Some(ts) => {
                let cutoff: i128 = (now_micros as i128) - (self.minutes_delta as i128)
                    * 60_000_000i128;
                if (ts as i128) <= cutoff {
                    ParseOutcome::TooOld
                } else {
                    let magnet = extract_magnet(msg.content.as_str());
                    let dest = extract_destination(msg.content.as_str());
                    match magnet {
                        Some(m) => ParseOutcome::Parsed(
                            Task::new(
                                Source::MAGNET(m),
                                msg.id.clone(),
                                dest,
                                msg.author_id.clone(),
                            ),
                        ),
                        None => {
                            if msg.attachments.len() > 0 {
                                ParseOutcome::NeedsAttachment(
                                    PendingTask {
                                        message_id: msg.id.clone(),
                                        user_id: msg.author_id.clone(),
                                        destination_folder: dest,
                                        attachment_url: msg.attachments[0].url.clone(),
                                    },
                                )
                            } else {
                                ParseOutcome::NoSource
                            }
                        },
                    }
                }
            },
        }
    }

    /// The positions, in order, of the messages the parser sends down branch
    /// `kind`.
    pub open spec fn kept_indices(self, msgs: Seq<Message>, now: i64, kind: ParseKind) -> Seq<int>
        decreases msgs.len(),
    {
        if msgs.len() == 0 {
            Seq::empty()
        } else {
            let pre = self.kept_indices(msgs.drop_last(), now, kind);
            if self.spec_parse_kind(msgs.last(), now) == kind {
                pre.push(msgs.len() - 1)
            } else {
                pre
            }
        }
    }

    /// Parses a batch of messages, in order.  Magnet-sourced tasks come back
    /// ready; attachment-sourced ones come back pending their bytes; messages
    /// with unreadable timestamps are reported by id.
    pub fn ingest_messages(&self, msgs: &Vec<Message>, now_micros: i64) -> (r: Ingested)
        ensures
            r.tasks@.len() == self.kept_indices(msgs@, now_micros, ParseKind::Parsed).len(),
            forall|k: int|
                0 <= k < r.tasks@.len() ==> task_from_message(
                    r.tasks@[k],
                    msgs@[self.kept_indices(msgs@, now_micros, ParseKind::Parsed)[k]],
                ),
            r.pending@.len() == self.kept_indices(
                msgs@,
                now_micros,
                ParseKind::NeedsAttachment,
            ).len(),
            forall|k: int|
                0 <= k < r.pending@.len() ==> pending_from_message(
                    r.pending@[k],
                    msgs@[self.kept_indices(msgs@, now_micros, ParseKind::NeedsAttachment)[k]],
                ),
            r.bad_timestamps@.len() == self.kept_indices(
                msgs@,
                now_micros,
                ParseKind::BadTimestamp,
            ).len(),
            forall|k: int|
                0 <= k < r.bad_timestamps@.len() ==> r.bad_timestamps@[k] == msgs@[self.kept_indices(
                    msgs@,
                    now_micros,
                    ParseKind::BadTimestamp,
                )[k]].id,
    {
        let mut tasks: Vec<Task> = Vec::new();
        let mut pending: Vec<PendingTask> = Vec::new();
        let mut bad_timestamps: Vec<String> = Vec::new();
        let mut i: usize = 0;
        while i < msgs.len()
            invariant
                i <= msgs@.len(),
                tasks@.len() == self.kept_indices(
                    msgs@.take(i as int),
                    now_micros,
                    ParseKind::Parsed,
                ).len(),
                forall|k: int|
                    0 <= k < tasks@.len() ==> task_from_message(
                        tasks@[k],
                        msgs@[self.kept_indices(
                            msgs@.take(i as int),
                            now_micros,
                            ParseKind::Parsed,
                        )[k]],
                    ),
                pending@.len() == self.kept_indices(
                    msgs@.take(i as int),
                    now_micros,
                    ParseKind::NeedsAttachment,
                ).len(),
                forall|k: int|
                    0 <= k < pending@.len() ==> pending_from_message(
                        pending@[k],
                        msgs@[self.kept_indices(
                            msgs@.take(i as int),
                            now_micros,
                            ParseKind::NeedsAttachment,
                        )[k]],
                    ),
                bad_timestamps@.len() == self.kept_indices(
                    msgs@.take(i as int),
                    now_micros,
                    ParseKind::BadTimestamp,
                ).len(),
                forall|k: int|
                    0 <= k < bad_timestamps@.len() ==> bad_timestamps@[k] == msgs@[self.kept_indices(
                        msgs@.take(i as int),
                        now_micros,
                        ParseKind::BadTimestamp,
                    )[k]].id,
            decreases msgs@.len() - i,
        {
            let outcome = self.parse_message(&msgs[i], now_micros);
            proof {
                assert(msgs@.take(i + 1).drop_last() =~= msgs@.take(i as int));
                assert(msgs@.take(i + 1).last() == msgs@[i as int]);
            }
            match outcome {
                ParseOutcome::Parsed(t) => tasks.push(t),
                ParseOutcome::NeedsAttachment(p) => pending.push(p),
                ParseOutcome::BadTimestamp => bad_timestamps.push(msgs[i].id.clone()),
                ParseOutcome::TooOld => (),
                ParseOutcome::NoSource => (),
            }
            i = i + 1;
        }
        proof {
            assert(msgs@.take(msgs@.len() as int) =~= msgs@);
        }
        Ingested { tasks, pending, bad_timestamps }
    }
}

/// Without a directive anywhere in the content there is no destination.
pub proof fn lemma_no_directive(c: Seq<char>)
    requires
        forall|i: int| !directive_at(c, i),
    ensures
        destination_of(c) is None,
{
}

/// The recency law: a message whose timestamp is not strictly younger than
/// `now` minus the window yields no task, whatever its content.  The filter
/// is exclusive on the boundary.
pub proof fn lemma_old_message_rejected(ctl: DiscordController, msg: Message, now: i64)
    requires
        timestamp_micros_of(msg.timestamp@) matches Some(ts) && ts <= now - (ctl.minutes_delta
            as int) * 60_000_000,
    ensures
        ctl.spec_parse_kind(msg, now) == ParseKind::TooOld,
{
}

/// The source law: content that does not open with a magnet link, in a
/// message without attachments, yields no task.
pub proof fn lemma_no_source_rejected(ctl: DiscordController, msg: Message, now: i64)
    requires
        !has_magnet(msg.content@),
        msg.attachments@.len() == 0,
    ensures
        ctl.spec_parse_kind(msg, now) != ParseKind::Parsed,
        ctl.spec_parse_kind(msg, now) != ParseKind::NeedsAttachment,
{
}

impl DiscordController {
    /// What `kept_indices` lists: exactly the positions of the messages the
    /// parser sends down `kind`, in increasing order.
    pub proof fn lemma_kept_indices(self, msgs: Seq<Message>, now: i64, kind: ParseKind)
        ensures
            forall|k: int|
                0 <= k < self.kept_indices(msgs, now, kind).len() ==> {
                    &&& 0 <= #[trigger] self.kept_indices(msgs, now, kind)[k] < msgs.len()
                    &&& self.spec_parse_kind(msgs[self.kept_indices(msgs, now, kind)[k]], now)
                        == kind
                },
            forall|k1: int, k2: int|
                0 <= k1 < k2 < self.kept_indices(msgs, now, kind).len() ==> self.kept_indices(
                    msgs,
                    now,
                    kind,
                )[k1] < self.kept_indices(msgs, now, kind)[k2],
            forall|i: int|
                0 <= i < msgs.len() && #[trigger] self.spec_parse_kind(msgs[i], now) == kind
                    ==> self.kept_indices(msgs, now, kind).contains(i),
        decreases msgs.len(),
    {
        if msgs.len() > 0 {
            self.lemma_kept_indices(msgs.drop_last(), now, kind);
            let pre = self.kept_indices(msgs.drop_last(), now, kind);
            let all = self.kept_indices(msgs, now, kind);
            assert forall|i: int|
                0 <= i < msgs.len() && #[trigger] self.spec_parse_kind(msgs[i], now)
                    == kind implies all.contains(i) by {
                if i < msgs.len() - 1 {
                    assert(msgs.drop_last()[i] == msgs[i]);
                    assert(pre.contains(i));
                    let k = choose|k: int| 0 <= k < pre.len() && pre[k] == i;
                    assert(all[k] == i);
                } else {
                    assert(all.last() == i);
                }
            }
        }
    }
}

/// Completes a pending attachment-sourced task with its fetched bytes.
pub fn complete_with_file(p: PendingTask, bytes: Vec<u8>) -> (t: Task)
    ensures
        t.status == TaskStatus::RECEIVED,
        t.source matches Source::FILE(b) && b == bytes,
        t.message_id == p.message_id,
        t.destination_folder == p.destination_folder,
        t.user_id == p.user_id,
{
    Task::new(Source::FILE(bytes), p.message_id, p.destination_folder, p.user_id)
}

/// What the channel is told on a status change: the bare status name, plus an
/// explicit mention of the requester once the task has reached a terminal
/// state.
pub open spec fn spec_notification_content(t: Task) -> Seq<char> {
    if t.status.spec_is_terminal() {
        t.status.spec_label() + " <@"@ + t.user_id@ + ">"@
    } else {
        t.status.spec_label()
    }
}

/// Composes the human-readable status notification for a task.
pub fn notification_content(task: &Task) -> (r: String)
    ensures
        r@ == spec_notification_content(*task),
{
    let mut content = String::from_str(task.get_status().label());
    if task.get_status().is_terminal() {
        content.append(" <@");
        content.append(task.user_id.as_str());
        content.append(">");
    }
    content
}

/// The notification for one recorded transition: the new status's name, with
/// the requester mentioned once the transition is terminal.
pub open spec fn spec_change_content(c: StatusChange) -> Seq<char> {
    if c.new_status.spec_is_terminal() {
        c.new_status.spec_label() + " <@"@ + c.user_id@ + ">"@
    } else {
        c.new_status.spec_label()
    }
}

/// Composes the notification for a transition the engine has performed.
pub fn change_notification_content(change: &StatusChange) -> (r: String)
    ensures
        r@ == spec_change_content(*change),
{
    let mut content = String::from_str(change.new_status.label());
    if change.new_status.is_terminal() {
        content.append(" <@");
        content.append(change.user_id.as_str());
        content.append(">");
    }
    content
}

impl DiscordController {
    /// The channel-history endpoint path, relative to the chat API root: the
    /// same path serves reading history and posting replies.
    pub fn messages_path(&self) -> (r: String)
        ensures
            r@ == "/channels/"@ + self.channel@ + "/messages"@,
    {
        let mut path = String::from_str("/channels/");
        path.append(self.channel.as_str());
        path.append("/messages");
        path
    }
}

} // verus!
