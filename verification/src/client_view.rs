//! What the desktop client shows of a project: how a timeline item is presented, the status of
//! its Intent Chat, the prompt of an interaction, its latest review, and its context.

use vstd::prelude::*;

use crate::json::{JsonValue, field, as_text, opt_string};
use crate::order::Ordered;
use crate::records::{ProjectRecord, ReviewRecord, TimelineItem};
use crate::ids::SpokeId;
use crate::status::{IntentStatus, OperationStatus, RealizationStatus, TimelineKind};
use crate::text::{copy_text, concat, decimal, decimal_text};

verus! {

/// The style class of a timeline kind: its name in lowercase.
pub open spec fn timeline_kind_class(k: TimelineKind) -> Seq<char> {
    match k {
        TimelineKind::UserIntent => "userintent"@,
        TimelineKind::AssistantProjection => "assistantprojection"@,
        TimelineKind::Question => "question"@,
        TimelineKind::Decision => "decision"@,
        TimelineKind::IntentUpdate => "intentupdate"@,
        TimelineKind::Progress => "progress"@,
        TimelineKind::Outcome => "outcome"@,
        TimelineKind::Evidence => "evidence"@,
        TimelineKind::ConsequentialPrompt => "consequentialprompt"@,
        TimelineKind::Lifecycle => "lifecycle"@,
        TimelineKind::Error => "error"@,
    }
}

fn kind_class(k: TimelineKind) -> (r: &'static str)
    ensures
        r@ == timeline_kind_class(k),
{
    match k {
        TimelineKind::UserIntent => "userintent",
        TimelineKind::AssistantProjection => "assistantprojection",
        TimelineKind::Question => "question",
        TimelineKind::Decision => "decision",
        TimelineKind::IntentUpdate => "intentupdate",
        TimelineKind::Progress => "progress",
        TimelineKind::Outcome => "outcome",
        TimelineKind::Evidence => "evidence",
        TimelineKind::ConsequentialPrompt => "consequentialprompt",
        TimelineKind::Lifecycle => "lifecycle",
        TimelineKind::Error => "error",
    }
}

/// Who a timeline item speaks for: the user for their own intent, PumpkinPi otherwise.
pub open spec fn timeline_actor(k: TimelineKind) -> Seq<char> {
    if k == TimelineKind::UserIntent {
        "You"@
    } else {
        "PumpkinPi"@
    }
}

/// The icon of a timeline item.
pub open spec fn timeline_icon(k: TimelineKind) -> Seq<char> {
    match k {
        TimelineKind::UserIntent => "U"@,
        TimelineKind::Question => "?"@,
        TimelineKind::ConsequentialPrompt => "?"@,
        TimelineKind::Outcome => "✓"@,
        TimelineKind::Evidence => "✓"@,
        TimelineKind::IntentUpdate => "✓"@,
        TimelineKind::Error => "!"@,
        TimelineKind::Progress => "…"@,
        _ => "P"@,
    }
}

/// What a timeline item says: its content, else its summary, else `Update`.
pub open spec fn timeline_text(item: TimelineItem) -> Seq<char> {
    match item.content {
        Some(c) => c@,
        None => match item.summary {
            Some(s) => s@,
            None => "Update"@,
        },
    }
}

/// A timeline item as the client presents it.
#[derive(Debug)]
pub struct TimelineCard {
    pub class: &'static str,
    pub actor: &'static str,
    pub icon: &'static str,
    /// The summary, shown above the content when the item has both.
    pub summary: Option<String>,
    pub text: String,
    /// `intent r` and the revision of the source of intent the item belongs to.
    pub revision_tag: Option<String>,
    /// `Timeline cursor` and the item's cursor.
    pub cursor_note: String,
}

/// How the client presents a timeline item.
pub fn timeline_card(item: &TimelineItem) -> (r: TimelineCard)
    ensures
        r.class@ == timeline_kind_class(item.kind),
        r.actor@ == timeline_actor(item.kind),
        r.icon@ == timeline_icon(item.kind),
        opt_string(r.summary) == (if item.summary is Some && item.content is Some {
            opt_string(item.summary)
        } else {
            None
        }),
        r.text@ == timeline_text(*item),
        opt_string(r.revision_tag) == match item.source_of_intent_revision {
            Some(n) => Some("intent r"@ + decimal(n as nat)),
            None => None,
        },
        r.cursor_note@ == "Timeline cursor "@ + decimal(item.cursor as nat),
{
    let actor = if item.kind == TimelineKind::UserIntent {
        "You"
    } else {
        "PumpkinPi"
    };
    let icon = match item.kind {
        TimelineKind::UserIntent => "U",
        TimelineKind::Question => "?",
        TimelineKind::ConsequentialPrompt => "?",
        TimelineKind::Outcome => "✓",
        TimelineKind::Evidence => "✓",
        TimelineKind::IntentUpdate => "✓",
        TimelineKind::Error => "!",
        TimelineKind::Progress => "…",
        _ => "P",
    };
    let text = match &item.content {
        Some(c) => c.clone(),
        None => match &item.summary {
            Some(s) => s.clone(),
            None => copy_text("Update"),
        },
    };
    let summary = match (&item.summary, &item.content) {
        (Some(s), Some(_)) => Some(s.clone()),
        _ => None,
    };
    let revision_tag = match item.source_of_intent_revision {
        Some(n) => Some(concat("intent r", decimal_text(n).as_str())),
        None => None,
    };
    TimelineCard {
        class: kind_class(item.kind),
        actor,
        icon,
        summary,
        text,
        revision_tag,
        cursor_note: concat("Timeline cursor ", decimal_text(item.cursor).as_str()),
    }
}

/// The style class of a realization status: its name in lowercase.
pub open spec fn realization_class(s: RealizationStatus) -> Seq<char> {
    match s {
        RealizationStatus::Inactive => "inactive"@,
        RealizationStatus::Reconciling => "reconciling"@,
        RealizationStatus::Reviewing => "reviewing"@,
        RealizationStatus::WaitingForUser => "waitingforuser"@,
        RealizationStatus::Paused => "paused"@,
        RealizationStatus::Satisfied => "satisfied"@,
        RealizationStatus::Blocked => "blocked"@,
        RealizationStatus::Stale => "stale"@,
    }
}

/// The style class of an Intent Chat status: its name in lowercase.
pub open spec fn intent_class(s: IntentStatus) -> Seq<char> {
    match s {
        IntentStatus::Ready => "ready"@,
        IntentStatus::WaitingForUser => "waitingforuser"@,
        IntentStatus::UpdatingIntent => "updatingintent"@,
        IntentStatus::Working => "working"@,
        IntentStatus::Blocked => "blocked"@,
        IntentStatus::Stale => "stale"@,
    }
}

/// The status a project's chat header shows: its realization, while one is under way, else its
/// Intent Chat's.
pub open spec fn chat_status_class(realization: RealizationStatus, chat: IntentStatus) -> Seq<char> {
    if realization == RealizationStatus::Inactive {
        intent_class(chat)
    } else {
        realization_class(realization)
    }
}

/// The status a project's chat header shows (see `chat_status_class`).
pub fn chat_status(realization: RealizationStatus, chat: IntentStatus) -> (r: &'static str)
    ensures
        r@ == chat_status_class(realization, chat),
{
    match realization {
        RealizationStatus::Inactive => match chat {
            IntentStatus::Ready => "ready",
            IntentStatus::WaitingForUser => "waitingforuser",
            IntentStatus::UpdatingIntent => "updatingintent",
            IntentStatus::Working => "working",
            IntentStatus::Blocked => "blocked",
            IntentStatus::Stale => "stale",
        },
        RealizationStatus::Reconciling => "reconciling",
        RealizationStatus::Reviewing => "reviewing",
        RealizationStatus::WaitingForUser => "waitingforuser",
        RealizationStatus::Paused => "paused",
        RealizationStatus::Satisfied => "satisfied",
        RealizationStatus::Blocked => "blocked",
        RealizationStatus::Stale => "stale",
    }
}

/// The style class of an operation status: its name in lowercase.
pub open spec fn operation_class(s: OperationStatus) -> Seq<char> {
    match s {
        OperationStatus::Queued => "queued"@,
        OperationStatus::Accepted => "accepted"@,
        OperationStatus::Running => "running"@,
        OperationStatus::Blocked => "blocked"@,
        OperationStatus::Completed => "completed"@,
        OperationStatus::Failed => "failed"@,
        OperationStatus::Cancelled => "cancelled"@,
        OperationStatus::Rejected => "rejected"@,
        OperationStatus::Unknown => "unknown"@,
    }
}

/// The style class of an operation status.
pub fn operation_status_class(s: OperationStatus) -> (r: &'static str)
    ensures
        r@ == operation_class(s),
{
    match s {
        OperationStatus::Queued => "queued",
        OperationStatus::Accepted => "accepted",
        OperationStatus::Running => "running",
        OperationStatus::Blocked => "blocked",
        OperationStatus::Completed => "completed",
        OperationStatus::Failed => "failed",
        OperationStatus::Cancelled => "cancelled",
        OperationStatus::Rejected => "rejected",
        OperationStatus::Unknown => "unknown",
    }
}

/// What an interaction asks the user: the text of its `message`, or, when it has no message,
/// of its `prompt`. `None` when that is not text, and the client shows the payload itself.
pub open spec fn interaction_prompt_of(payload: JsonValue) -> Option<Seq<char>> {
    if field(payload, "message"@) is Some {
        as_text(field(payload, "message"@))
    } else {
        as_text(field(payload, "prompt"@))
    }
}

/// What an interaction asks the user (see `interaction_prompt_of`).
pub fn interaction_prompt(payload: &JsonValue) -> (r: Option<String>)
    ensures
        opt_string(r) == interaction_prompt_of(*payload),
{
    let v = match payload.get("message") {
        Some(m) => Some(m),
        None => payload.get("prompt"),
    };
    match v {
        Some(JsonValue::Str(s)) => Some(s.clone()),
        _ => None,
    }
}

/// The title of an interaction card for `method`.
pub fn interaction_title(method: &str) -> (r: String)
    ensures
        r@ == "Action required · "@ + method@,
{
    concat("Action required · ", method)
}

/// The notice shown when the timeline before cursor `gap` is unavailable.
pub fn gap_notice(gap: u64) -> (r: String)
    ensures
        r@ == "Some earlier timeline detail is unavailable before cursor "@ + decimal(gap as nat)
            + ". The current project snapshot remains authoritative."@,
{
    let mut s = concat("Some earlier timeline detail is unavailable before cursor ", decimal_text(gap).as_str());
    s.append(". The current project snapshot remains authoritative.");
    s
}

/// A project setting, or `Not set`.
pub fn setting_text(value: &Option<String>) -> (r: String)
    ensures
        r@ == match value {
            Some(v) => v@,
            None => "Not set"@,
        },
{
    match value {
        Some(v) => v.clone(),
        None => copy_text("Not set"),
    }
}

/// How the client names a project's trust.
pub fn trust_label(trusted: bool) -> (r: &'static str)
    ensures
        r@ == (if trusted { "Trusted"@ } else { "Untrusted"@ }),
{
    if trusted {
        "Trusted"
    } else {
        "Untrusted"
    }
}

/// The latest review of a project: the greatest by creation time and then identifier, the last
/// of equals.
pub fn latest_review(reviews: &Vec<ReviewRecord>) -> (r: Option<usize>)
    ensures
        r is None <==> reviews@.len() == 0,
        r matches Some(i) ==> {
            &&& i < reviews@.len()
            &&& forall|j: int| 0 <= j < reviews@.len() ==> #[trigger] reviews@[j].key_le(reviews@[i as int])
            &&& forall|j: int| i < j < reviews@.len() ==> !(#[trigger] reviews@[i as int].key_le(reviews@[j]))
        },
{
    if reviews.len() == 0 {
        return None;
    }
    let mut best: usize = 0;
    let mut i: usize = 1;
    proof {
        ReviewRecord::lemma_total_preorder(reviews@[0], reviews@[0], reviews@[0]);
    }
    while i < reviews.len()
        invariant
            1 <= i <= reviews@.len(),
            best < i,
            forall|j: int| 0 <= j < i ==> #[trigger] reviews@[j].key_le(reviews@[best as int]),
            forall|j: int| best < j < i ==> !(#[trigger] reviews@[best as int].key_le(reviews@[j])),
        decreases reviews@.len() - i,
    {
        if reviews[best].le(&reviews[i]) {
            proof {
                assert forall|j: int| 0 <= j < i + 1 implies #[trigger] reviews@[j].key_le(reviews@[i as int]) by {
                    ReviewRecord::lemma_total_preorder(reviews@[j], reviews@[best as int], reviews@[i as int]);
                    ReviewRecord::lemma_total_preorder(reviews@[i as int], reviews@[i as int], reviews@[i as int]);
                }
            }
            best = i;
        } else {
            proof {
                ReviewRecord::lemma_total_preorder(reviews@[best as int], reviews@[i as int], reviews@[i as int]);
            }
        }
        i = i + 1;
    }
    Some(best)
}

/// A timeline item as the command line prints it: a blank line, then the stamp in brackets and
/// the item's content, else its summary, else nothing.
pub fn timeline_line(item: &TimelineItem, stamp: &str) -> (r: String)
    ensures
        r@ == "\n["@ + stamp@ + "] "@ + match item.content {
            Some(c) => c@,
            None => match item.summary {
                Some(s) => s@,
                None => Seq::empty(),
            },
        },
{
    let mut line = concat("\n[", stamp);
    line.append("] ");
    match &item.content {
        Some(c) => line.append(c.as_str()),
        None => match &item.summary {
            Some(s) => line.append(s.as_str()),
            None => {},
        },
    }
    line
}

/// The name of an operation status as the command line prints it.
pub open spec fn operation_status_name(s: OperationStatus) -> Seq<char> {
    match s {
        OperationStatus::Queued => "Queued"@,
        OperationStatus::Accepted => "Accepted"@,
        OperationStatus::Running => "Running"@,
        OperationStatus::Blocked => "Blocked"@,
        OperationStatus::Completed => "Completed"@,
        OperationStatus::Failed => "Failed"@,
        OperationStatus::Cancelled => "Cancelled"@,
        OperationStatus::Rejected => "Rejected"@,
        OperationStatus::Unknown => "Unknown"@,
    }
}

fn status_name(s: OperationStatus) -> (r: &'static str)
    ensures
        r@ == operation_status_name(s),
{
    match s {
        OperationStatus::Queued => "Queued",
        OperationStatus::Accepted => "Accepted",
        OperationStatus::Running => "Running",
        OperationStatus::Blocked => "Blocked",
        OperationStatus::Completed => "Completed",
        OperationStatus::Failed => "Failed",
        OperationStatus::Cancelled => "Cancelled",
        OperationStatus::Rejected => "Rejected",
        OperationStatus::Unknown => "Unknown",
    }
}

/// An operation's state as the command line prints it.
pub fn operation_line(status: OperationStatus, stamp: &str) -> (r: String)
    ensures
        r@ == "["@ + stamp@ + "] [operation "@ + operation_status_name(status) + "]"@,
{
    let mut line = concat("[", stamp);
    line.append("] [operation ");
    line.append(status_name(status));
    line.append("]");
    line
}

/// An interaction as the command line prints it.
pub fn interaction_line(method: &str, prompt: &str, stamp: &str) -> (r: String)
    ensures
        r@ == "\n["@ + stamp@ + "] [Action required · "@ + method@ + "] "@ + prompt@,
{
    let mut line = concat("\n[", stamp);
    line.append("] [Action required · ");
    line.append(method);
    line.append("] ");
    line.append(prompt);
    line
}

/// An error as the command line prints it.
pub fn error_line(message: &str, stamp: &str) -> (r: String)
    ensures
        r@ == "["@ + stamp@ + "] error: "@ + message@,
{
    let mut line = concat("[", stamp);
    line.append("] error: ");
    line.append(message);
    line
}

/// A character in ASCII lower case: `A` to `Z` become `a` to `z`, and every other character
/// stays, as `to_ascii_lowercase` gives it.
pub open spec fn ascii_lower(c: char) -> char {
    if 'A' <= c && c <= 'Z' {
        ((c as u32) + 32) as char
    } else {
        c
    }
}

/// A text in ASCII lower case.
pub open spec fn lower_text(s: Seq<char>) -> Seq<char> {
    s.map_values(|c: char| ascii_lower(c))
}

/// `needle` occurs in `hay` as a run of consecutive characters.
pub open spec fn occurs_in(needle: Seq<char>, hay: Seq<char>) -> bool {
    exists|i: int| 0 <= i && i + needle.len() <= hay.len() && #[trigger] hay.subrange(i, i + needle.len()) == needle
}

/// The sidebar lists `project` under the spoke `spoke` while the search text is `filter`: it is
/// on that spoke, and the filter is empty or occurs, ignoring ASCII case, in its name or its
/// directory.
pub open spec fn project_shown(project: ProjectRecord, spoke: Seq<char>, filter: Seq<char>) -> bool {
    &&& project.spoke_id@ == spoke
    &&& (filter.len() == 0 || occurs_in(lower_text(filter), lower_text(project.name@))
        || occurs_in(lower_text(filter), lower_text(project.cwd@)))
}

fn lower_char(c: char) -> (r: char)
    ensures
        r == ascii_lower(c),
{
    if 'A' <= c && c <= 'Z' {
        let b: u8 = c as u8;
        (b + 32) as char
    } else {
        c
    }
}

fn lower_chars(s: &str) -> (r: Vec<char>)
    ensures
        r@ == lower_text(s@),
{
    let n = s.unicode_len();
    let mut out: Vec<char> = Vec::new();
    let mut i: usize = 0;
    while i < n
        invariant
            i <= n,
            n == s@.len(),
            out@ == lower_text(s@.subrange(0, i as int)),
        decreases n - i,
    {
        let c = s.get_char(i);
        out.push(lower_char(c));
        i = i + 1;
        assert(out@ =~= lower_text(s@.subrange(0, i as int)));
    }
    assert(s@.subrange(0, n as int) =~= s@);
    out
}

fn occurs_at(needle: &Vec<char>, hay: &Vec<char>, start: usize) -> (r: bool)
    requires
        start + needle@.len() <= hay@.len(),
    ensures
        r == (hay@.subrange(start as int, start + needle@.len()) == needle@),
{
    let hn = hay.len();
    let mut j: usize = 0;
    while j < needle.len()
        invariant
            j <= needle@.len(),
            hn == hay@.len(),
            start + needle@.len() <= hay@.len(),
            forall|k: int| 0 <= k < j ==> hay@[start + k] == needle@[k],
        decreases needle@.len() - j,
    {
        assert(start + j < hay@.len());
        if hay[start + j] != needle[j] {
            assert(hay@.subrange(start as int, start + needle@.len())[j as int] != needle@[j as int]);
            return false;
        }
        j = j + 1;
    }
    assert(hay@.subrange(start as int, start + needle@.len()) =~= needle@);
    true
}

fn occurs(needle: &Vec<char>, hay: &Vec<char>) -> (r: bool)
    ensures
        r == occurs_in(needle@, hay@),
{
    if needle.len() > hay.len() {
        return false;
    }
    if needle.len() == 0 {
        assert(hay@.subrange(0int, 0int + needle@.len()) =~= needle@);
        return true;
    }
    let count = hay.len() - needle.len() + 1;
    let mut i: usize = 0;
    while i < count
        invariant
            i <= count,
            count + needle@.len() == hay@.len() + 1,
            forall|k: int| 0 <= k < i ==> #[trigger] hay@.subrange(k, k + needle@.len()) != needle@,
        decreases count - i,
    {
        if occurs_at(needle, hay, i) {
            return true;
        }
        i = i + 1;
    }
    false
}

/// Whether the sidebar lists `project` under the spoke `spoke` for the search text `filter`.
pub fn project_matches_filter(project: &ProjectRecord, spoke: &SpokeId, filter: &str) -> (r: bool)
    ensures
        r == project_shown(*project, spoke@, filter@),
{
    if !project.spoke_id.same(spoke) {
        return false;
    }
    let wanted = lower_chars(filter);
    if wanted.len() == 0 {
        return true;
    }
    occurs(&wanted, &lower_chars(project.name.as_str())) || occurs(&wanted, &lower_chars(project.cwd.as_str()))
}

} // verus!
