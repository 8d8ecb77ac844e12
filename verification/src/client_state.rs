//! What the desktop client knows and shows: the hub's spokes and projects, the open project's
//! snapshot, messages on their way, interactions awaiting an answer, and diagnostics.

use vstd::prelude::*;
use crate::client_order::{num_text_le, project_key};
use crate::ids::{SpokeId, ProjectId, OperationId};
use crate::json::JsonValue;
use crate::keyed::{Keyed, keys_sorted, lookup, upsert, remove_key, find, collect_map, last_with_key};
use crate::order::{Ordered, sorted, sort_stable};
use crate::records::{ProjectKey, ProjectRecord, ProjectSnapshot, SpokeRecord, TimelineItem};
use crate::text::{text_le, text_less, str_eq, copy_text, lemma_text_order};

verus! {

/// The state of the client's connection to its hub.
#[derive(Debug, Clone, Copy, PartialEq, Eq, Structural)]
pub enum ConnectionKind {
    Disconnected,
    Connecting,
    Authenticating,
    Connected,
    Reconnecting,
    Degraded,
}

/// The style class of a connection state.
pub open spec fn connection_class(k: ConnectionKind) -> Seq<char> {
    match k {
        ConnectionKind::Disconnected => "disconnected"@,
        ConnectionKind::Connecting => "connecting"@,
        ConnectionKind::Authenticating => "authenticating"@,
        ConnectionKind::Connected => "connected"@,
        ConnectionKind::Reconnecting => "reconnecting"@,
        ConnectionKind::Degraded => "degraded"@,
    }
}

impl ConnectionKind {
    /// The style class of this state.
    pub fn class(&self) -> (r: &'static str)
        ensures
            r@ == connection_class(*self),
    {
        match self {
            ConnectionKind::Disconnected => "disconnected",
            ConnectionKind::Connecting => "connecting",
            ConnectionKind::Authenticating => "authenticating",
            ConnectionKind::Connected => "connected",
            ConnectionKind::Reconnecting => "reconnecting",
            ConnectionKind::Degraded => "degraded",
        }
    }
}

/// The connection as the client shows it.
#[derive(Debug)]
pub struct ConnectionView {
    pub kind: ConnectionKind,
    pub label: String,
    pub attempt: u32,
    pub reason: Option<String>,
}

impl ConnectionView {
    /// Not connected.
    pub fn disconnected() -> (r: ConnectionView)
        ensures
            r.kind == ConnectionKind::Disconnected,
            r.label@ == "Disconnected"@,
            r.attempt == 0,
            r.reason is None,
    {
        ConnectionView { kind: ConnectionKind::Disconnected, label: copy_text("Disconnected"), attempt: 0, reason: None }
    }

    /// A state with a label and nothing else to say.
    pub fn simple(kind: ConnectionKind, label: &str) -> (r: ConnectionView)
        ensures
            r.kind == kind,
            r.label@ == label@,
            r.attempt == 0,
            r.reason is None,
    {
        ConnectionView { kind, label: copy_text(label), attempt: 0, reason: None }
    }
}

impl Clone for ConnectionView {
    fn clone(&self) -> (r: Self)
        ensures
            r == *self,
    {
        ConnectionView { kind: self.kind, label: self.label.clone(), attempt: self.attempt, reason: self.reason.clone() }
    }
}

/// A message the user sent that the hub has not yet reported back.
#[derive(Debug)]
pub struct PendingMessage {
    pub spoke_id: SpokeId,
    pub project_id: ProjectId,
    pub local_id: String,
    pub message: String,
    pub created_at: u64,
}

impl Clone for PendingMessage {
    fn clone(&self) -> (r: Self)
        ensures
            r == *self,
    {
        PendingMessage {
            spoke_id: self.spoke_id.clone(),
            project_id: self.project_id.clone(),
            local_id: self.local_id.clone(),
            message: self.message.clone(),
            created_at: self.created_at,
        }
    }
}

/// A diagnostic line, numbered in the order it was recorded.
#[derive(Debug)]
pub struct DiagnosticView {
    pub message: String,
    pub created_at: u64,
    pub sequence: u64,
}

impl Clone for DiagnosticView {
    fn clone(&self) -> (r: Self)
        ensures
            r == *self,
    {
        DiagnosticView { message: self.message.clone(), created_at: self.created_at, sequence: self.sequence }
    }
}

/// A question from an operation that waits for the user's answer.
#[derive(Debug)]
pub struct InteractionView {
    pub spoke_id: SpokeId,
    pub project_id: ProjectId,
    pub operation_id: OperationId,
    pub request_id: String,
    pub method: String,
    pub payload: JsonValue,
    pub created_at: u64,
}

impl Keyed for InteractionView {
    open spec fn key(&self) -> (Seq<char>, Seq<char>) {
        (self.operation_id@, self.request_id@)
    }

    fn key_first(&self) -> (r: &str) {
        self.operation_id.as_str()
    }

    fn key_second(&self) -> (r: &str) {
        self.request_id.as_str()
    }
}

/// Three-part lexicographic order: a number, then two texts.
pub open spec fn num_text_text_le(a: u64, x: Seq<char>, y: Seq<char>, b: u64, u: Seq<char>, v: Seq<char>) -> bool {
    a < b || (a == b && (crate::text::text_lt(x, u) || (x == u && text_le(y, v))))
}

proof fn lemma_num_text_text(a: u64, x: Seq<char>, y: Seq<char>, b: u64, u: Seq<char>, v: Seq<char>, c: u64, p: Seq<char>, q: Seq<char>)
    ensures
        num_text_text_le(a, x, y, a, x, y),
        num_text_text_le(a, x, y, b, u, v) && num_text_text_le(b, u, v, c, p, q) ==> num_text_text_le(a, x, y, c, p, q),
        num_text_text_le(a, x, y, b, u, v) || num_text_text_le(b, u, v, a, x, y),
{
    lemma_text_order(x, u, p);
    lemma_text_order(u, x, p);
    lemma_text_order(x, p, u);
    lemma_text_order(y, v, q);
    lemma_text_order(v, y, q);
    lemma_text_order(y, q, v);
}

fn text_le_exec(a: &str, b: &str) -> (r: bool)
    ensures
        r == text_le(a@, b@),
{
    str_eq(a, b) || text_less(a, b)
}

impl Ordered for InteractionView {
    /// By arrival, then operation, then request.
    open spec fn key_le(self, other: Self) -> bool {
        num_text_text_le(self.created_at, self.operation_id@, self.request_id@, other.created_at, other.operation_id@, other.request_id@)
    }

    fn le(&self, other: &Self) -> (r: bool) {
        self.created_at < other.created_at || (self.created_at == other.created_at && (text_less(
            self.operation_id.as_str(),
            other.operation_id.as_str(),
        ) || (str_eq(self.operation_id.as_str(), other.operation_id.as_str()) && text_le_exec(
            self.request_id.as_str(),
            other.request_id.as_str(),
        ))))
    }

    proof fn lemma_total_preorder(a: Self, b: Self, c: Self) {
        lemma_num_text_text(a.created_at, a.operation_id@, a.request_id@, b.created_at, b.operation_id@, b.request_id@,
            c.created_at, c.operation_id@, c.request_id@);
    }
}

impl Ordered for DiagnosticView {
    /// By time, then text, then recording order.
    open spec fn key_le(self, other: Self) -> bool {
        self.created_at < other.created_at || (self.created_at == other.created_at && (crate::text::text_lt(
            self.message@,
            other.message@,
        ) || (self.message@ == other.message@ && self.sequence <= other.sequence)))
    }

    fn le(&self, other: &Self) -> (r: bool) {
        self.created_at < other.created_at || (self.created_at == other.created_at && (text_less(
            self.message.as_str(),
            other.message.as_str(),
        ) || (str_eq(self.message.as_str(), other.message.as_str()) && self.sequence <= other.sequence)))
    }

    proof fn lemma_total_preorder(a: Self, b: Self, c: Self) {
        lemma_text_order(a.message@, b.message@, c.message@);
        lemma_text_order(b.message@, a.message@, c.message@);
        lemma_text_order(a.message@, c.message@, b.message@);
    }
}

/// How many diagnostics the client keeps before it drops the oldest hundred.
pub const DIAGNOSTIC_LIMIT: usize = 500;

/// How many diagnostics the client shows.
pub const DIAGNOSTICS_SHOWN: usize = 100;

/// An entry of the chat log: an item of the timeline, or a message still on its way.
#[derive(Debug)]
pub enum ChatLogEntry {
    Timeline(TimelineItem),
    Pending(PendingMessage),
}

/// When an entry was created.
pub open spec fn entry_time(e: ChatLogEntry) -> u64 {
    match e {
        ChatLogEntry::Timeline(t) => t.created_at,
        ChatLogEntry::Pending(p) => p.created_at,
    }
}

/// How entries created at the same time are ordered: timeline items first, by cursor and then
/// identifier, then pending messages by their local identifier.
pub open spec fn entry_tie_le(a: ChatLogEntry, b: ChatLogEntry) -> bool {
    match (a, b) {
        (ChatLogEntry::Timeline(x), ChatLogEntry::Timeline(y)) => num_text_le(x.cursor, x.timeline_item_id@, y.cursor, y.timeline_item_id@),
        (ChatLogEntry::Timeline(_), ChatLogEntry::Pending(_)) => true,
        (ChatLogEntry::Pending(_), ChatLogEntry::Timeline(_)) => false,
        (ChatLogEntry::Pending(x), ChatLogEntry::Pending(y)) => text_le(x.local_id@, y.local_id@),
    }
}

impl Ordered for ChatLogEntry {
    open spec fn key_le(self, other: Self) -> bool {
        entry_time(self) < entry_time(other) || (entry_time(self) == entry_time(other) && entry_tie_le(self, other))
    }

    fn le(&self, other: &Self) -> (r: bool) {
        let a = match self {
            ChatLogEntry::Timeline(t) => t.created_at,
            ChatLogEntry::Pending(p) => p.created_at,
        };
        let b = match other {
            ChatLogEntry::Timeline(t) => t.created_at,
            ChatLogEntry::Pending(p) => p.created_at,
        };
        if a != b {
            return a < b;
        }
        match (self, other) {
            (ChatLogEntry::Timeline(x), ChatLogEntry::Timeline(y)) => x.cursor < y.cursor || (x.cursor == y.cursor
                && text_le_exec(x.timeline_item_id.as_str(), y.timeline_item_id.as_str())),
            (ChatLogEntry::Timeline(_), ChatLogEntry::Pending(_)) => true,
            (ChatLogEntry::Pending(_), ChatLogEntry::Timeline(_)) => false,
            (ChatLogEntry::Pending(x), ChatLogEntry::Pending(y)) => text_le_exec(x.local_id.as_str(), y.local_id.as_str()),
        }
    }

    proof fn lemma_total_preorder(a: Self, b: Self, c: Self) {
        match (a, b, c) {
            (ChatLogEntry::Timeline(x), ChatLogEntry::Timeline(y), ChatLogEntry::Timeline(z)) => {
                crate::client_order::lemma_num_text(x.cursor, x.timeline_item_id@, y.cursor, y.timeline_item_id@, z.cursor, z.timeline_item_id@);
                crate::client_order::lemma_num_text(y.cursor, y.timeline_item_id@, x.cursor, x.timeline_item_id@, z.cursor, z.timeline_item_id@);
            },
            (ChatLogEntry::Pending(x), ChatLogEntry::Pending(y), ChatLogEntry::Pending(z)) => {
                lemma_text_order(x.local_id@, y.local_id@, z.local_id@);
                lemma_text_order(y.local_id@, x.local_id@, z.local_id@);
                lemma_text_order(x.local_id@, z.local_id@, y.local_id@);
            },
            (ChatLogEntry::Timeline(x), ChatLogEntry::Timeline(y), _) => {
                crate::client_order::lemma_num_text(x.cursor, x.timeline_item_id@, y.cursor, y.timeline_item_id@, x.cursor, x.timeline_item_id@);
                crate::client_order::lemma_num_text(y.cursor, y.timeline_item_id@, x.cursor, x.timeline_item_id@, x.cursor, x.timeline_item_id@);
            },
            (ChatLogEntry::Pending(x), ChatLogEntry::Pending(y), _) => {
                lemma_text_order(x.local_id@, y.local_id@, x.local_id@);
            },
            _ => {},
        }
    }
}

/// The timeline items of a snapshot and the pending messages for its project, as chat entries.
pub open spec fn chat_entries_of(timeline: Seq<TimelineItem>, pending: Seq<PendingMessage>, key: ProjectKey) -> Seq<ChatLogEntry> {
    timeline.map_values(|t: TimelineItem| ChatLogEntry::Timeline(t)) + pending.filter(
        |p: PendingMessage| p.spoke_id@ == key.spoke_id@ && p.project_id@ == key.project_id@,
    ).map_values(|p: PendingMessage| ChatLogEntry::Pending(p))
}

/// The chat log of a project: its timeline items and the messages still on their way to it, in
/// order of creation (see `ChatLogEntry`'s order).
pub fn ordered_chat_entries(snapshot: &ProjectSnapshot, pending: &Vec<PendingMessage>, key: &ProjectKey) -> (r: Vec<ChatLogEntry>)
    ensures
        sorted(r@),
        r@.to_multiset() == chat_entries_of(snapshot.timeline@, pending@, *key).to_multiset(),
{
    let ghost tl = snapshot.timeline@.map_values(|t: TimelineItem| ChatLogEntry::Timeline(t));
    let ghost pred = |p: PendingMessage| p.spoke_id@ == key.spoke_id@ && p.project_id@ == key.project_id@;
    let mut entries: Vec<ChatLogEntry> = Vec::new();
    let mut i: usize = 0;
    while i < snapshot.timeline.len()
        invariant
            i <= snapshot.timeline@.len(),
            tl == snapshot.timeline@.map_values(|t: TimelineItem| ChatLogEntry::Timeline(t)),
            entries@ == tl.subrange(0, i as int),
        decreases snapshot.timeline@.len() - i,
    {
        entries.push(ChatLogEntry::Timeline(snapshot.timeline[i].clone()));
        i = i + 1;
        assert(entries@ =~= tl.subrange(0, i as int));
    }
    assert(tl.subrange(0, i as int) =~= tl);
    let mut j: usize = 0;
    proof {
        assert(pending@.subrange(0, 0).filter(pred) =~= Seq::<PendingMessage>::empty());
    }
    while j < pending.len()
        invariant
            j <= pending@.len(),
            pred == (|p: PendingMessage| p.spoke_id@ == key.spoke_id@ && p.project_id@ == key.project_id@),
            entries@ == tl + pending@.subrange(0, j as int).filter(pred).map_values(|p: PendingMessage| ChatLogEntry::Pending(p)),
        decreases pending@.len() - j,
    {
        let p = &pending[j];
        proof {
            pending@.subrange(0, j as int).lemma_filter_push(*p, pred);
            assert(pending@.subrange(0, j as int).push(*p) =~= pending@.subrange(0, j + 1));
        }
        let ghost before = entries@;
        if p.spoke_id.same(&key.spoke_id) && p.project_id.same(&key.project_id) {
            entries.push(ChatLogEntry::Pending(p.clone()));
            proof {
                let f = pending@.subrange(0, j as int).filter(pred);
                assert(f.push(*p).map_values(|x: PendingMessage| ChatLogEntry::Pending(x)) =~= f.map_values(
                    |x: PendingMessage| ChatLogEntry::Pending(x),
                ).push(ChatLogEntry::Pending(*p)));
                assert(entries@ =~= tl + pending@.subrange(0, j + 1).filter(pred).map_values(|x: PendingMessage| ChatLogEntry::Pending(x)));
            }
        }
        j = j + 1;
    }
    assert(pending@.subrange(0, j as int) =~= pending@);
    assert(entries@ == chat_entries_of(snapshot.timeline@, pending@, *key));
    sort_stable(entries)
}

/// Whether a character is a letter or digit (`char::is_alphanumeric`).
pub uninterp spec fn alphanumeric(c: char) -> bool;

#[verifier::external_body]
fn char_is_alphanumeric(c: char) -> (r: bool)
    ensures
        r == alphanumeric(c),
{
    c.is_alphanumeric()
}

/// `c` in ASCII uppercase.
pub open spec fn ascii_upper(c: char) -> char {
    if 'a' <= c && c <= 'z' {
        ((c as u32) - 32) as char
    } else {
        c
    }
}

fn upper(c: char) -> (r: char)
    ensures
        r == ascii_upper(c),
{
    if 'a' <= c && c <= 'z' {
        ((c as u8) - 32) as char
    } else {
        c
    }
}

/// The first character of each word of `s`, a word being a run of letters and digits.
pub open spec fn word_initials(s: Seq<char>) -> Seq<char>
    decreases s.len(),
{
    if s.len() == 0 {
        Seq::empty()
    } else {
        let prev = word_initials(s.drop_last());
        let i = s.len() - 1;
        if alphanumeric(s[i]) && (i == 0 || !alphanumeric(s[i - 1])) {
            prev.push(s[i])
        } else {
            prev
        }
    }
}

/// A name's initials: the first characters of its first two words, in ASCII uppercase.
pub open spec fn initials_of(name: Seq<char>) -> Seq<char> {
    let w = word_initials(name);
    w.subrange(0, if w.len() < 2 { w.len() as int } else { 2 }).map_values(|c: char| ascii_upper(c))
}

/// A project's initials, as its avatar shows them.
pub fn initials(name: &str) -> (r: String)
    ensures
        r@ == initials_of(name@),
{
    let n = name.unicode_len();
    let mut firsts: Vec<char> = Vec::new();
    let mut i: usize = 0;
    let mut prev_alnum = false;
    while i < n
        invariant
            i <= n,
            n == name@.len(),
            firsts@ == word_initials(name@.subrange(0, i as int)),
            i > 0 ==> prev_alnum == alphanumeric(name@[i - 1]),
        decreases n - i,
    {
        let c = name.get_char(i);
        let a = char_is_alphanumeric(c);
        proof {
            assert(name@.subrange(0, i + 1).drop_last() =~= name@.subrange(0, i as int));
        }
        if a && (i == 0 || !prev_alnum) {
            firsts.push(c);
        }
        prev_alnum = a;
        i = i + 1;
    }
    assert(name@.subrange(0, n as int) =~= name@);
    let take = if firsts.len() < 2 { firsts.len() } else { 2 };
    let mut out = String::new();
    let mut k: usize = 0;
    proof {
        reveal_strlit("");
    }
    while k < take
        invariant
            k <= take,
            take <= firsts@.len(),
            out@ == firsts@.subrange(0, k as int).map_values(|c: char| ascii_upper(c)),
        decreases take - k,
    {
        let u = upper(firsts[k]);
        let piece = char_text(u);
        out.append(piece.as_str());
        k = k + 1;
        assert(out@ =~= firsts@.subrange(0, k as int).map_values(|c: char| ascii_upper(c)));
    }
    out
}

/// The text of one character.
#[verifier::external_body]
fn char_text(c: char) -> (r: String)
    ensures
        r@ == seq![c],
{
    c.to_string()
}

impl Keyed for SpokeRecord {
    open spec fn key(&self) -> (Seq<char>, Seq<char>) {
        (self.spoke_id@, Seq::empty())
    }

    fn key_first(&self) -> (r: &str) {
        self.spoke_id.as_str()
    }

    fn key_second(&self) -> (r: &str) {
        proof {
            reveal_strlit("");
        }
        ""
    }
}

impl Keyed for ProjectSnapshot {
    open spec fn key(&self) -> (Seq<char>, Seq<char>) {
        (self.project.spoke_id@, self.project.project_id@)
    }

    fn key_first(&self) -> (r: &str) {
        self.project.spoke_id.as_str()
    }

    fn key_second(&self) -> (r: &str) {
        self.project.project_id.as_str()
    }
}

/// A project the client lists, kept under its spoke and identifier.
#[derive(Debug)]
pub struct ListedProject {
    pub project: ProjectRecord,
}

impl Keyed for ListedProject {
    open spec fn key(&self) -> (Seq<char>, Seq<char>) {
        (self.project.spoke_id@, self.project.project_id@)
    }

    fn key_first(&self) -> (r: &str) {
        self.project.spoke_id.as_str()
    }

    fn key_second(&self) -> (r: &str) {
        self.project.project_id.as_str()
    }
}

/// The directories a spoke suggests for new projects.
#[derive(Debug)]
pub struct PathSuggestion {
    pub spoke_id: SpokeId,
    pub directories: Vec<String>,
}

impl Keyed for PathSuggestion {
    open spec fn key(&self) -> (Seq<char>, Seq<char>) {
        (self.spoke_id@, Seq::empty())
    }

    fn key_first(&self) -> (r: &str) {
        self.spoke_id.as_str()
    }

    fn key_second(&self) -> (r: &str) {
        proof {
            reveal_strlit("");
        }
        ""
    }
}

/// A project to open as soon as a spoke is online: its directory and, maybe, its name.
#[derive(Debug)]
pub struct LocalProjectRequest {
    pub cwd: String,
    pub name: Option<String>,
}

/// Everything the client knows.
#[derive(Debug)]
pub struct AppStore {
    pub connection: ConnectionView,
    pub configured: bool,
    pub hub_url: String,
    /// Ordered by spoke.
    pub spokes: Vec<SpokeRecord>,
    /// Ordered by spoke, then project.
    pub projects: Vec<ListedProject>,
    /// Ordered by spoke, then project.
    pub snapshots: Vec<ProjectSnapshot>,
    pub selected: Option<ProjectKey>,
    pub pending_messages: Vec<PendingMessage>,
    /// Ordered by operation, then request.
    pub interactions: Vec<InteractionView>,
    /// Ordered by spoke.
    pub path_suggestions: Vec<PathSuggestion>,
    pub diagnostics: Vec<DiagnosticView>,
    pub next_diagnostic_sequence: u64,
    pub pending_local_project: Option<LocalProjectRequest>,
}

pub open spec fn app_store_wf(s: AppStore) -> bool {
    &&& keys_sorted(s.spokes@)
    &&& keys_sorted(s.projects@)
    &&& keys_sorted(s.snapshots@)
    &&& keys_sorted(s.interactions@)
    &&& keys_sorted(s.path_suggestions@)
    &&& s.diagnostics@.len() <= DIAGNOSTIC_LIMIT
}

/// The diagnostics after recording one more, numbered `sequence`: once over the limit, the oldest
/// hundred go.
pub open spec fn with_diagnostic(ds: Seq<DiagnosticView>, d: DiagnosticView) -> Seq<DiagnosticView> {
    let all = ds.push(d);
    if all.len() > DIAGNOSTIC_LIMIT {
        all.subrange(100, all.len() as int)
    } else {
        all
    }
}

/// The next diagnostic number: one more, stopping at the largest.
pub open spec fn next_sequence(n: u64) -> u64 {
    if n == u64::MAX {
        n
    } else {
        (n + 1) as u64
    }
}

impl AppStore {
    /// A client that has learned nothing yet, configured for the hub at `hub_url` (with a token
    /// when `configured`).
    pub fn new(hub_url: String, configured: bool) -> (r: AppStore)
        ensures
            app_store_wf(r),
            r.connection.kind == ConnectionKind::Disconnected,
            r.connection.attempt == 0,
            r.connection.reason is None,
            r.connection.label@ == "Disconnected"@,
            r.configured == configured,
            r.hub_url == hub_url,
            r.spokes@.len() == 0,
            r.projects@.len() == 0,
            r.snapshots@.len() == 0,
            r.selected is None,
            r.pending_messages@.len() == 0,
            r.interactions@.len() == 0,
            r.path_suggestions@.len() == 0,
            r.diagnostics@.len() == 0,
            r.next_diagnostic_sequence == 0,
            r.pending_local_project is None,
    {
        AppStore {
            connection: ConnectionView::disconnected(),
            configured,
            hub_url,
            spokes: Vec::new(),
            projects: Vec::new(),
            snapshots: Vec::new(),
            selected: None,
            pending_messages: Vec::new(),
            interactions: Vec::new(),
            path_suggestions: Vec::new(),
            diagnostics: Vec::new(),
            next_diagnostic_sequence: 0,
            pending_local_project: None,
        }
    }

    /// Records a diagnostic created at `created_at`, numbered in recording order. The client keeps
    /// at most `DIAGNOSTIC_LIMIT` of them, dropping the oldest hundred when it goes over.
    pub fn diagnostic_at(&mut self, created_at: u64, message: String)
        requires
            app_store_wf(*old(self)),
        ensures
            app_store_wf(*final(self)),
            final(self).diagnostics@ == with_diagnostic(old(self).diagnostics@, (DiagnosticView {
                message,
                created_at,
                sequence: old(self).next_diagnostic_sequence,
            })),
            final(self).next_diagnostic_sequence == next_sequence(old(self).next_diagnostic_sequence),
            *final(self) == (AppStore {
                diagnostics: final(self).diagnostics,
                next_diagnostic_sequence: final(self).next_diagnostic_sequence,
                ..*old(self)
            }),
    {
        let sequence = self.next_diagnostic_sequence;
        self.next_diagnostic_sequence = self.next_diagnostic_sequence.saturating_add(1);
        let ghost before = self.diagnostics@;
        self.diagnostics.push(DiagnosticView { message, created_at, sequence });
        if self.diagnostics.len() > DIAGNOSTIC_LIMIT {
            let mut rest: Vec<DiagnosticView> = Vec::new();
            let mut i: usize = 100;
            while i < self.diagnostics.len()
                invariant
                    100 <= i <= self.diagnostics@.len(),
                    self.diagnostics@.len() == DIAGNOSTIC_LIMIT + 1,
                    rest@ == self.diagnostics@.subrange(100, i as int),
                decreases self.diagnostics@.len() - i,
            {
                rest.push(self.diagnostics[i].clone());
                i = i + 1;
                assert(rest@ =~= self.diagnostics@.subrange(100, i as int));
            }
            self.diagnostics = rest;
        }
    }
}

/// The key of the project a snapshot shows.
pub open spec fn snapshot_key(s: ProjectSnapshot) -> (Seq<char>, Seq<char>) {
    (s.project.spoke_id@, s.project.project_id@)
}

/// The pending messages that are not for the project `key`.
pub open spec fn pending_elsewhere(ps: Seq<PendingMessage>, key: (Seq<char>, Seq<char>)) -> Seq<PendingMessage> {
    ps.filter(|p: PendingMessage| p.spoke_id@ != key.0 || p.project_id@ != key.1)
}

/// The first spoke that is online, in identifier order.
pub open spec fn first_online(spokes: Seq<SpokeRecord>) -> Option<int> {
    if exists|i: int| 0 <= i < spokes.len() && #[trigger] spokes[i].status == crate::status::SpokeStatus::Online {
        Some(choose|i: int| 0 <= i < spokes.len() && #[trigger] spokes[i].status == crate::status::SpokeStatus::Online
            && forall|j: int| 0 <= j < i ==> spokes[j].status != crate::status::SpokeStatus::Online)
    } else {
        None
    }
}

impl AppStore {
    /// Drops the pending messages for the project `key`: the hub has reported back.
    fn settle_pending(&mut self, key: &ProjectKey)
        requires
            app_store_wf(*old(self)),
        ensures
            app_store_wf(*final(self)),
            final(self).pending_messages@ == pending_elsewhere(old(self).pending_messages@, (key.spoke_id@, key.project_id@)),
            *final(self) == (AppStore { pending_messages: final(self).pending_messages, ..*old(self) }),
    {
        let ghost k = (key.spoke_id@, key.project_id@);
        let ghost pred = |p: PendingMessage| p.spoke_id@ != k.0 || p.project_id@ != k.1;
        let ghost all = self.pending_messages@;
        let mut rest: Vec<PendingMessage> = Vec::new();
        std::mem::swap(&mut rest, &mut self.pending_messages);
        let mut kept: Vec<PendingMessage> = Vec::new();
        let n = rest.len();
        let mut i: usize = 0;
        assert(all.subrange(0, 0).filter(pred) =~= Seq::<PendingMessage>::empty());
        while i < n
            invariant
                n == all.len(),
                i <= n,
                rest@ == all.subrange(i as int, n as int),
                kept@ == all.subrange(0, i as int).filter(pred),
                pred == (|p: PendingMessage| p.spoke_id@ != k.0 || p.project_id@ != k.1),
                k == (key.spoke_id@, key.project_id@),
            decreases n - i,
        {
            let p = rest.remove(0);
            assert(p == all[i as int]);
            proof {
                all.subrange(0, i as int).lemma_filter_push(p, pred);
                assert(all.subrange(0, i as int).push(p) =~= all.subrange(0, i + 1));
            }
            if !p.spoke_id.same(&key.spoke_id) || !p.project_id.same(&key.project_id) {
                kept.push(p);
            }
            i = i + 1;
            assert(rest@ =~= all.subrange(i as int, n as int));
        }
        assert(all.subrange(0, n as int) =~= all);
        self.pending_messages = kept;
    }

    /// Learns the hub's spokes. A local project waiting for a spoke is then opened on the first
    /// online spoke: the command to send is returned and the request is settled.
    pub fn apply_spoke_list(&mut self, spokes: Vec<SpokeRecord>) -> (r: Option<crate::messages::ClientCommand>)
        requires
            app_store_wf(*old(self)),
        ensures
            app_store_wf(*final(self)),
            keys_sorted(final(self).spokes@),
            forall|k: (Seq<char>, Seq<char>)| #[trigger] lookup(final(self).spokes@, k) == last_with_key(spokes@, k),
            match (old(self).pending_local_project, first_online(final(self).spokes@)) {
                (Some(req), Some(i)) => {
                    &&& r matches Some(crate::messages::ClientCommand::ProjectInitialize { spoke_id, cwd, name })
                        && spoke_id == final(self).spokes@[i].spoke_id && cwd == req.cwd && name == req.name
                    &&& final(self).pending_local_project is None
                },
                _ => r is None && final(self).pending_local_project == old(self).pending_local_project,
            },
            *final(self) == (AppStore {
                spokes: final(self).spokes,
                pending_local_project: final(self).pending_local_project,
                ..*old(self)
            }),
    {
        self.spokes = collect_map(spokes);
        let ghost mid = *self;
        let mut i: usize = 0;
        while i < self.spokes.len() && self.spokes[i].status != crate::status::SpokeStatus::Online
            invariant
                i <= self.spokes@.len(),
                *self == mid,
                forall|j: int| 0 <= j < i ==> self.spokes@[j].status != crate::status::SpokeStatus::Online,
            decreases self.spokes@.len() - i,
        {
            i = i + 1;
        }
        if i == self.spokes.len() {
            return None;
        }
        proof {
            let ss = self.spokes@;
            let c = choose|k: int| 0 <= k < ss.len() && #[trigger] ss[k].status == crate::status::SpokeStatus::Online
                && forall|j: int| 0 <= j < k ==> ss[j].status != crate::status::SpokeStatus::Online;
            assert(ss[i as int].status == crate::status::SpokeStatus::Online);
            assert(c == i) by {
                if c < i { } else if c > i { assert(ss[i as int].status == crate::status::SpokeStatus::Online); }
            }
        }
        if self.pending_local_project.is_none() {
            return None;
        }
        let mut req: Option<LocalProjectRequest> = None;
        std::mem::swap(&mut req, &mut self.pending_local_project);
        match req {
            Some(req) => Some(crate::messages::ClientCommand::ProjectInitialize {
                spoke_id: self.spokes[i].spoke_id.clone(),
                cwd: req.cwd,
                name: req.name,
            }),
            None => None,
        }
    }
}

/// `n` is the snapshot `o` the client held after merging the newer snapshot `s` into it (see
/// `merge_snapshot`).
pub open spec fn merged_into(n: ProjectSnapshot, o: ProjectSnapshot, s: ProjectSnapshot) -> bool {
    &&& n.project == s.project
    &&& n.source == s.source
    &&& n.chat == s.chat
    &&& n.gap_before == s.gap_before
    &&& crate::client_order::sorted_permutation(n.timeline@, crate::snapshots::append_new_items(o.timeline@, s.timeline@))
    &&& crate::client_order::sorted_permutation(n.operations@, s.operations@)
    &&& exists|rs: Seq<crate::records::ReviewRecord>| #[trigger] crate::client_order::reviews_same(rs, s.reviews@)
        && crate::client_order::sorted_permutation(n.reviews@, rs)
    &&& crate::snapshots::ids_unique(o.timeline@) ==> crate::snapshots::ids_unique(n.timeline@)
}

/// Only the entry under `k` may differ between `n` and `o`.
pub open spec fn only_key_changed<T: Keyed>(n: Seq<T>, o: Seq<T>, k: (Seq<char>, Seq<char>)) -> bool {
    forall|j: (Seq<char>, Seq<char>)| j != k ==> #[trigger] lookup(n, j) == lookup(o, j)
}

impl AppStore {
    /// Learns the hub's project list, which replaces the one the client had.
    pub fn apply_project_list(&mut self, projects: Vec<ProjectRecord>)
        requires
            app_store_wf(*old(self)),
        ensures
            app_store_wf(*final(self)),
            project_list_applied(*final(self), *old(self), projects@),

    {
        let ghost wrapped = projects@.map_values(|p: ProjectRecord| ListedProject { project: p });
        let mut list: Vec<ListedProject> = Vec::new();
        let mut rest = projects;
        let ghost all = rest@;
        assert(all.len() == rest.len());
        let mut i: usize = 0;
        while rest.len() > 0
            invariant
                i + rest@.len() == all.len(),
                all.len() <= usize::MAX,
                rest@ == all.subrange(i as int, all.len() as int),
                wrapped == all.map_values(|p: ProjectRecord| ListedProject { project: p }),
                list@ == wrapped.subrange(0, i as int),
            decreases rest.len(),
        {
            let p = rest.remove(0);
            assert(p == all[i as int]);
            list.push(ListedProject { project: p });
            i = i + 1;
            assert(list@ =~= wrapped.subrange(0, i as int));
            assert(rest@ =~= all.subrange(i as int, all.len() as int));
        }
        assert(wrapped.subrange(0, i as int) =~= wrapped);
        self.projects = collect_map(list);
    }

    /// Learns a project's snapshot: the project is listed, the snapshot is merged into the one the
    /// client holds (or kept as it is), the project is selected, and its pending messages are
    /// settled.
    pub fn apply_snapshot(&mut self, snapshot: ProjectSnapshot)
        requires
            app_store_wf(*old(self)),
        ensures
            app_store_wf(*final(self)),
            snapshot_applied(*final(self), *old(self), snapshot),

    {
        let key = project_key(&snapshot.project);
        upsert(&mut self.projects, ListedProject { project: snapshot.project.clone() });
        match remove_key(&mut self.snapshots, key.spoke_id.as_str(), key.project_id.as_str()) {
            Some(mut held) => {
                crate::client_order::merge_snapshot(&mut held, &snapshot);
                upsert(&mut self.snapshots, held);
            },
            None => {
                upsert(&mut self.snapshots, snapshot);
            },
        }
        let k2 = key.clone();
        self.selected = Some(key);
        self.settle_pending(&k2);
    }

    /// Learns a new timeline item: it joins its project's snapshot, in display order, unless an
    /// item with its identifier is there already; its project's pending messages are settled.
    pub fn apply_timeline(&mut self, item: TimelineItem)
        requires
            app_store_wf(*old(self)),
        ensures
            app_store_wf(*final(self)),
            timeline_applied(*final(self), *old(self), item),

    {
        let key = ProjectKey { spoke_id: item.spoke_id.clone(), project_id: item.project_id.clone() };
        match find(&self.snapshots, key.spoke_id.as_str(), key.project_id.as_str()) {
            Some(i) => {
                if !crate::snapshots::contains_item(&self.snapshots[i].timeline, &item) {
                    let ghost before = self.snapshots@;
                    let mut held = match remove_key(&mut self.snapshots, key.spoke_id.as_str(), key.project_id.as_str()) {
                        Some(h) => h,
                        None => {
                            self.settle_pending(&key);
                            return;
                        },
                    };
                    held.timeline.push(item);
                    crate::client_order::order_snapshot_collections(&mut held);
                    upsert(&mut self.snapshots, held);
                }
            },
            None => {},
        }
        self.settle_pending(&key);
    }

    /// Learns an operation: it replaces the one with its identifier in its project's snapshot, or
    /// joins it.
    pub fn apply_operation(&mut self, operation: crate::records::OperationRecord)
        requires
            app_store_wf(*old(self)),
        ensures
            app_store_wf(*final(self)),
            operation_applied(*final(self), *old(self), operation),

    {
        match remove_key(&mut self.snapshots, operation.spoke_id.as_str(), operation.project_id.as_str()) {
            Some(mut held) => {
                crate::snapshots::put_operation(&mut held.operations, operation);
                upsert(&mut self.snapshots, held);
            },
            None => {},
        }
    }
}

impl AppStore {
    /// Learns a question that waits for the user's answer, received at `created_at`; it replaces
    /// an earlier one with the same operation and request.
    pub fn apply_interaction(&mut self, interaction: InteractionView)
        requires
            app_store_wf(*old(self)),
        ensures
            app_store_wf(*final(self)),
            interaction_applied(*final(self), *old(self), interaction),

    {
        upsert(&mut self.interactions, interaction);
    }

    /// Learns a project's new state: a removed project is forgotten with its snapshot (and
    /// unselected); any other is listed as it now is.
    pub fn apply_project_updated(&mut self, project: ProjectRecord)
        requires
            app_store_wf(*old(self)),
        ensures
            app_store_wf(*final(self)),
            project_update_applied(*final(self), *old(self), project),

    {
        if project.status == crate::status::ProjectStatus::Removed {
            remove_key(&mut self.projects, project.spoke_id.as_str(), project.project_id.as_str());
            remove_key(&mut self.snapshots, project.spoke_id.as_str(), project.project_id.as_str());
            let clear = match &self.selected {
                Some(k) => k.spoke_id.same(&project.spoke_id) && k.project_id.same(&project.project_id),
                None => false,
            };
            if clear {
                self.selected = None;
            }
        } else {
            upsert(&mut self.projects, ListedProject { project });
        }
    }

    /// Learns a spoke's new state.
    pub fn apply_spoke_updated(&mut self, spoke: SpokeRecord)
        requires
            app_store_wf(*old(self)),
        ensures
            app_store_wf(*final(self)),
            spoke_update_applied(*final(self), *old(self), spoke),

    {
        upsert(&mut self.spokes, spoke);
    }

    /// Learns the directories a spoke suggests for new projects.
    pub fn apply_path_list(&mut self, spoke_id: SpokeId, directories: Vec<String>)
        requires
            app_store_wf(*old(self)),
        ensures
            app_store_wf(*final(self)),
            path_list_applied(*final(self), *old(self), spoke_id, directories),

    {
        upsert(&mut self.path_suggestions, PathSuggestion { spoke_id, directories });
    }

    /// Learns of an error the hub reported at `created_at`: it is recorded as a diagnostic
    /// (`code: message`) and the connection needs attention.
    pub fn apply_error(&mut self, created_at: u64, code: String, message: String)
        requires
            app_store_wf(*old(self)),
        ensures
            app_store_wf(*final(self)),
            error_applied(*final(self), *old(self), created_at, code, message),

    {
        let mut text = concat_text(code.as_str(), ": ");
        text.append(message.as_str());
        self.diagnostic_at(created_at, text);
        self.connection = ConnectionView {
            kind: ConnectionKind::Degraded,
            label: copy_text("Attention required"),
            attempt: 0,
            reason: Some(message),
        };
    }
}

fn concat_text(a: &str, b: &str) -> (r: String)
    ensures
        r@ == a@ + b@,
{
    crate::text::concat(a, b)
}

/// How the client reports an intent projection.
pub open spec fn projection_text(revision: u64, content: Seq<char>) -> Seq<char> {
    "Intent projection r"@ + crate::text::decimal(revision as nat) + ": "@ + content
}

/// How the client reports a gap in a replayed timeline.
pub open spec fn replay_gap_text(requested: u64, available: u64) -> Seq<char> {
    "Timeline replay gap: requested "@ + crate::text::decimal(requested as nat) + ", earliest available "@
        + crate::text::decimal(available as nat)
}

fn projection_message(revision: u64, content: &str) -> (r: String)
    ensures
        r@ == projection_text(revision, content@),
{
    let mut m = concat_text("Intent projection r", crate::text::decimal_text(revision).as_str());
    m.append(": ");
    m.append(content);
    m
}

fn replay_gap_message(requested: u64, available: u64) -> (r: String)
    ensures
        r@ == replay_gap_text(requested, available),
{
    let mut m = concat_text("Timeline replay gap: requested ", crate::text::decimal_text(requested).as_str());
    m.append(", earliest available ");
    m.append(crate::text::decimal_text(available).as_str());
    m
}

pub open spec fn project_list_applied(n: AppStore, o: AppStore, projects: Seq<ProjectRecord>) -> bool {
    &&& forall|k: (Seq<char>, Seq<char>)| #[trigger] lookup(n.projects@, k) == last_with_key(
            projects.map_values(|p: ProjectRecord| ListedProject { project: p }),
            k,
        )
    &&& n == (AppStore { projects: n.projects, ..o })
}

pub open spec fn snapshot_applied(n: AppStore, o: AppStore, snapshot: ProjectSnapshot) -> bool {
    &&& lookup(n.projects@, snapshot_key(snapshot)) == Some(ListedProject { project: snapshot.project })
    &&& only_key_changed(n.projects@, o.projects@, snapshot_key(snapshot))
    &&& match lookup(o.snapshots@, snapshot_key(snapshot)) {
            Some(held) => lookup(n.snapshots@, snapshot_key(snapshot)) matches Some(merged) && merged_into(merged, held, snapshot),
            None => lookup(n.snapshots@, snapshot_key(snapshot)) == Some(snapshot),
        }
    &&& only_key_changed(n.snapshots@, o.snapshots@, snapshot_key(snapshot))
    &&& n.selected matches Some(k) && k.spoke_id == snapshot.project.spoke_id && k.project_id == snapshot.project.project_id
    &&& n.pending_messages@ == pending_elsewhere(o.pending_messages@, snapshot_key(snapshot))
    &&& n == (AppStore {
            projects: n.projects,
            snapshots: n.snapshots,
            selected: n.selected,
            pending_messages: n.pending_messages,
            ..o
        })
}

pub open spec fn timeline_applied(n: AppStore, o: AppStore, item: TimelineItem) -> bool {
    &&& match lookup(o.snapshots@, (item.spoke_id@, item.project_id@)) {
            Some(held) => if crate::snapshots::has_item(held.timeline@, item.timeline_item_id@) {
                n.snapshots@ == o.snapshots@
            } else {
                &&& lookup(n.snapshots@, (item.spoke_id@, item.project_id@)) matches Some(now) && {
                    &&& crate::client_order::sorted_permutation(now.timeline@, held.timeline@.push(item))
                    &&& crate::client_order::sorted_permutation(now.operations@, held.operations@)
                    &&& crate::client_order::sorted_permutation(now.reviews@, held.reviews@)
                    &&& now.project == held.project && now.source == held.source && now.chat == held.chat
                    &&& now.gap_before == held.gap_before
                }
                &&& only_key_changed(n.snapshots@, o.snapshots@, (item.spoke_id@, item.project_id@))
            },
            None => n.snapshots@ == o.snapshots@,
        }
    &&& n.pending_messages@ == pending_elsewhere(o.pending_messages@, (item.spoke_id@, item.project_id@))
    &&& n == (AppStore {
            snapshots: n.snapshots,
            pending_messages: n.pending_messages,
            ..o
        })
}

pub open spec fn operation_applied(n: AppStore, o: AppStore, operation: crate::records::OperationRecord) -> bool {
    &&& match lookup(o.snapshots@, (operation.spoke_id@, operation.project_id@)) {
            Some(held) => {
                &&& lookup(n.snapshots@, (operation.spoke_id@, operation.project_id@)) == Some(ProjectSnapshot {
                    operations: lookup(n.snapshots@, (operation.spoke_id@, operation.project_id@))->0.operations,
                    ..held
                })
                &&& lookup(n.snapshots@, (operation.spoke_id@, operation.project_id@))->0.operations@
                    == crate::snapshots::put_operation_spec(held.operations@, operation)
                &&& only_key_changed(n.snapshots@, o.snapshots@, (operation.spoke_id@, operation.project_id@))
            },
            None => n.snapshots@ == o.snapshots@,
        }
    &&& n == (AppStore { snapshots: n.snapshots, ..o })
}

pub open spec fn interaction_applied(n: AppStore, o: AppStore, interaction: InteractionView) -> bool {
    &&& lookup(n.interactions@, interaction.key()) == Some(interaction)
    &&& only_key_changed(n.interactions@, o.interactions@, interaction.key())
    &&& n == (AppStore { interactions: n.interactions, ..o })
}

pub open spec fn project_update_applied(n: AppStore, o: AppStore, project: ProjectRecord) -> bool {
    &&& project.status == crate::status::ProjectStatus::Removed ==> {
            &&& lookup(n.projects@, (project.spoke_id@, project.project_id@)) is None
            &&& only_key_changed(n.projects@, o.projects@, (project.spoke_id@, project.project_id@))
            &&& lookup(n.snapshots@, (project.spoke_id@, project.project_id@)) is None
            &&& only_key_changed(n.snapshots@, o.snapshots@, (project.spoke_id@, project.project_id@))
            &&& n.selected == (match o.selected {
                Some(k) => if k.spoke_id@ == project.spoke_id@ && k.project_id@ == project.project_id@ {
                    None
                } else {
                    Some(k)
                },
                None => None,
            })
            &&& n == (AppStore {
                projects: n.projects,
                snapshots: n.snapshots,
                selected: n.selected,
                ..o
            })
        }
    &&& project.status != crate::status::ProjectStatus::Removed ==> {
            &&& lookup(n.projects@, (project.spoke_id@, project.project_id@)) == Some(ListedProject { project })
            &&& only_key_changed(n.projects@, o.projects@, (project.spoke_id@, project.project_id@))
            &&& n == (AppStore { projects: n.projects, ..o })
        }
}

pub open spec fn spoke_update_applied(n: AppStore, o: AppStore, spoke: SpokeRecord) -> bool {
    &&& lookup(n.spokes@, spoke.key()) == Some(spoke)
    &&& only_key_changed(n.spokes@, o.spokes@, spoke.key())
    &&& n == (AppStore { spokes: n.spokes, ..o })
}

pub open spec fn path_list_applied(n: AppStore, o: AppStore, spoke_id: SpokeId, directories: Vec<String>) -> bool {
    &&& lookup(n.path_suggestions@, (spoke_id@, Seq::empty())) == Some(PathSuggestion { spoke_id, directories })
    &&& only_key_changed(n.path_suggestions@, o.path_suggestions@, (spoke_id@, Seq::empty()))
    &&& n == (AppStore { path_suggestions: n.path_suggestions, ..o })
}

pub open spec fn error_applied(n: AppStore, o: AppStore, created_at: u64, code: String, message: String) -> bool {
    &&& n.diagnostics@.len() > 0
    &&& n.diagnostics@.last().message@ == code@ + ": "@ + message@
    &&& n.diagnostics@ == with_diagnostic(o.diagnostics@, n.diagnostics@.last())
    &&& n.diagnostics@.last().created_at == created_at
    &&& n.diagnostics@.last().sequence == o.next_diagnostic_sequence
    &&& n.next_diagnostic_sequence == next_sequence(o.next_diagnostic_sequence)
    &&& n.connection.kind == ConnectionKind::Degraded
    &&& n.connection.label@ == "Attention required"@
    &&& n.connection.attempt == 0
    &&& n.connection.reason == Some(message)
    &&& n == (AppStore {
            diagnostics: n.diagnostics,
            next_diagnostic_sequence: n.next_diagnostic_sequence,
            connection: n.connection,
            ..o
        })
}

/// A diagnostic with `text`, created at `created_at`, was recorded and nothing else changed.
pub open spec fn diagnostic_added(n: AppStore, o: AppStore, created_at: u64, text: Seq<char>) -> bool {
    &&& n.diagnostics@.len() > 0
    &&& n.diagnostics@.last().message@ == text
    &&& n.diagnostics@.last().created_at == created_at
    &&& n.diagnostics@.last().sequence == o.next_diagnostic_sequence
    &&& n.diagnostics@ == with_diagnostic(o.diagnostics@, n.diagnostics@.last())
    &&& n.next_diagnostic_sequence == next_sequence(o.next_diagnostic_sequence)
    &&& n == (AppStore { diagnostics: n.diagnostics, next_diagnostic_sequence: n.next_diagnostic_sequence, ..o })
}

/// What the client knows after an event from the hub (`n`, from `o`), and the command it sends
/// next, if any (`r`).
pub open spec fn applied(n: AppStore, o: AppStore, event: crate::messages::ClientEvent, r: Option<crate::messages::ClientCommand>) -> bool {
    match event.payload {
        crate::messages::ClientPayload::SpokeList { spokes } => {
            &&& forall|k: (Seq<char>, Seq<char>)| #[trigger] lookup(n.spokes@, k) == last_with_key(spokes@, k)
            &&& match (o.pending_local_project, first_online(n.spokes@)) {
                (Some(req), Some(i)) => {
                    &&& r matches Some(crate::messages::ClientCommand::ProjectInitialize { spoke_id, cwd, name })
                        && spoke_id == n.spokes@[i].spoke_id && cwd == req.cwd && name == req.name
                    &&& n.pending_local_project is None
                },
                _ => r is None && n.pending_local_project == o.pending_local_project,
            }
            &&& n == (AppStore { spokes: n.spokes, pending_local_project: n.pending_local_project, ..o })
        },
        crate::messages::ClientPayload::ProjectList { projects } => r is None && project_list_applied(n, o, projects@),
        crate::messages::ClientPayload::ProjectSnapshot { snapshot } => r is None && snapshot_applied(n, o, *snapshot),
        crate::messages::ClientPayload::Timeline { item } => r is None && timeline_applied(n, o, item),
        crate::messages::ClientPayload::Accepted { operation } => r is None && operation_applied(n, o, operation),
        crate::messages::ClientPayload::Operation { operation } => r is None && operation_applied(n, o, operation),
        crate::messages::ClientPayload::Interaction { spoke_id, project_id, operation_id, request_id, method, payload } =>
            r is None && interaction_applied(n, o, InteractionView {
                spoke_id,
                project_id,
                operation_id,
                request_id,
                method,
                payload,
                created_at: event.created_at,
            }),
        crate::messages::ClientPayload::ProjectUpdated { project } => r is None && project_update_applied(n, o, project),
        crate::messages::ClientPayload::SpokeUpdated { spoke } => r is None && spoke_update_applied(n, o, spoke),
        crate::messages::ClientPayload::ProjectPathList { spoke_id, directories, .. } =>
            r is None && path_list_applied(n, o, spoke_id, directories),
        crate::messages::ClientPayload::Projection { revision, content, .. } =>
            r is None && diagnostic_added(n, o, event.created_at, projection_text(revision, content@)),
        crate::messages::ClientPayload::ReplayGap { requested, available, .. } =>
            r is None && diagnostic_added(n, o, event.created_at, replay_gap_text(requested, available)),
        crate::messages::ClientPayload::Error { code, message } => r is None && error_applied(n, o, event.created_at, code, message),
        _ => r is None && n == o,
    }
}

/// Every snapshot the client holds has timeline items with distinct identifiers.
pub open spec fn timelines_unique(snapshots: Seq<ProjectSnapshot>) -> bool {
    forall|k: (Seq<char>, Seq<char>)| #[trigger] lookup(snapshots, k) matches Some(s)
        ==> crate::snapshots::ids_unique(s.timeline@)
}

/// The identifiers of a held timeline stay distinct through any event from the hub, as long as a
/// snapshot of a project the client does not yet hold arrives with distinct identifiers itself.
pub proof fn lemma_apply_keeps_timelines_unique(
    n: AppStore,
    o: AppStore,
    event: crate::messages::ClientEvent,
    r: Option<crate::messages::ClientCommand>,
)
    requires
        app_store_wf(o),
        applied(n, o, event, r),
        timelines_unique(o.snapshots@),
        event.payload matches crate::messages::ClientPayload::ProjectSnapshot { snapshot }
            ==> (lookup(o.snapshots@, snapshot_key(*snapshot)) is None ==> crate::snapshots::ids_unique(snapshot.timeline@)),
    ensures
        timelines_unique(n.snapshots@),
{
    match event.payload {
        crate::messages::ClientPayload::ProjectSnapshot { snapshot } => {
            let sk = snapshot_key(*snapshot);
            assert forall|k: (Seq<char>, Seq<char>)| #[trigger] lookup(n.snapshots@, k) is Some
                implies crate::snapshots::ids_unique(lookup(n.snapshots@, k)->0.timeline@) by {
                if k != sk {
                    assert(lookup(n.snapshots@, k) == lookup(o.snapshots@, k));
                } else {
                    match lookup(o.snapshots@, sk) {
                        Some(held) => {
                            assert(crate::snapshots::ids_unique(held.timeline@));
                        },
                        None => {},
                    }
                }
            }
        },
        crate::messages::ClientPayload::Timeline { item } => {
            let ik = (item.spoke_id@, item.project_id@);
            match lookup(o.snapshots@, ik) {
                Some(held) => {
                    if !crate::snapshots::has_item(held.timeline@, item.timeline_item_id@) {
                        assert(crate::snapshots::ids_unique(held.timeline@));
                        crate::snapshots::lemma_push_new_item_unique(held.timeline@, item);
                        assert forall|k: (Seq<char>, Seq<char>)| #[trigger] lookup(n.snapshots@, k) is Some
                            implies crate::snapshots::ids_unique(lookup(n.snapshots@, k)->0.timeline@) by {
                            if k != ik {
                                assert(lookup(n.snapshots@, k) == lookup(o.snapshots@, k));
                            } else {
                                let now = lookup(n.snapshots@, ik)->0;
                                crate::snapshots::lemma_permutation_keeps_ids_unique(now.timeline@, held.timeline@.push(item));
                            }
                        }
                    }
                },
                None => {},
            }
        },
        crate::messages::ClientPayload::Accepted { operation } => {
            lemma_operation_keeps_timelines_unique(n, o, operation);
        },
        crate::messages::ClientPayload::Operation { operation } => {
            lemma_operation_keeps_timelines_unique(n, o, operation);
        },
        crate::messages::ClientPayload::ProjectUpdated { project } => {
            let pk = (project.spoke_id@, project.project_id@);
            assert forall|k: (Seq<char>, Seq<char>)| #[trigger] lookup(n.snapshots@, k) is Some
                implies crate::snapshots::ids_unique(lookup(n.snapshots@, k)->0.timeline@) by {
                if k != pk {
                    assert(lookup(n.snapshots@, k) == lookup(o.snapshots@, k));
                }
            }
        },
        _ => {},
    }
}

proof fn lemma_operation_keeps_timelines_unique(n: AppStore, o: AppStore, operation: crate::records::OperationRecord)
    requires
        operation_applied(n, o, operation),
        timelines_unique(o.snapshots@),
    ensures
        timelines_unique(n.snapshots@),
{
    let ok = (operation.spoke_id@, operation.project_id@);
    assert forall|k: (Seq<char>, Seq<char>)| #[trigger] lookup(n.snapshots@, k) is Some
        implies crate::snapshots::ids_unique(lookup(n.snapshots@, k)->0.timeline@) by {
        if k != ok {
            match lookup(o.snapshots@, ok) {
                Some(_) => assert(lookup(n.snapshots@, k) == lookup(o.snapshots@, k)),
                None => {},
            }
        } else {
            match lookup(o.snapshots@, ok) {
                Some(held) => assert(crate::snapshots::ids_unique(held.timeline@)),
                None => {},
            }
        }
    }
}

impl AppStore {
    /// Takes in an event from the hub (see `applied`) and gives the command to send next, if any.
    pub fn apply(&mut self, event: crate::messages::ClientEvent) -> (r: Option<crate::messages::ClientCommand>)
        requires
            app_store_wf(*old(self)),
        ensures
            app_store_wf(*final(self)),
            applied(*final(self), *old(self), event, r),
    {
        let created_at = event.created_at;
        match event.payload {
            crate::messages::ClientPayload::SpokeList { spokes } => self.apply_spoke_list(spokes),
            crate::messages::ClientPayload::ProjectList { projects } => {
                self.apply_project_list(projects);
                None
            },
            crate::messages::ClientPayload::ProjectSnapshot { snapshot } => {
                self.apply_snapshot(*snapshot);
                None
            },
            crate::messages::ClientPayload::Timeline { item } => {
                self.apply_timeline(item);
                None
            },
            crate::messages::ClientPayload::Accepted { operation } => {
                self.apply_operation(operation);
                None
            },
            crate::messages::ClientPayload::Operation { operation } => {
                self.apply_operation(operation);
                None
            },
            crate::messages::ClientPayload::Interaction { spoke_id, project_id, operation_id, request_id, method, payload } => {
                self.apply_interaction(InteractionView {
                    spoke_id,
                    project_id,
                    operation_id,
                    request_id,
                    method,
                    payload,
                    created_at,
                });
                None
            },
            crate::messages::ClientPayload::ProjectUpdated { project } => {
                self.apply_project_updated(project);
                None
            },
            crate::messages::ClientPayload::SpokeUpdated { spoke } => {
                self.apply_spoke_updated(spoke);
                None
            },
            crate::messages::ClientPayload::ProjectPathList { spoke_id, directories, .. } => {
                self.apply_path_list(spoke_id, directories);
                None
            },
            crate::messages::ClientPayload::Projection { revision, content, .. } => {
                self.diagnostic_at(created_at, projection_message(revision, content.as_str()));
                None
            },
            crate::messages::ClientPayload::ReplayGap { requested, available, .. } => {
                self.diagnostic_at(created_at, replay_gap_message(requested, available));
                None
            },
            crate::messages::ClientPayload::Error { code, message } => {
                self.apply_error(created_at, code, message);
                None
            },
            _ => None,
        }
    }
}

/// `c` is a copy of the interaction `i`.
pub open spec fn interaction_copy(c: InteractionView, i: InteractionView) -> bool {
    c == InteractionView { payload: c.payload, ..i } && c.payload@ == i.payload@
}

/// `c` is a copy of one of `src`.
pub open spec fn copied_from(c: InteractionView, src: Seq<InteractionView>) -> bool {
    exists|j: int| 0 <= j < src.len() && #[trigger] interaction_copy(c, src[j])
}

/// Some interaction of `r` is a copy of `i`.
pub open spec fn has_copy_in(i: InteractionView, r: Seq<InteractionView>) -> bool {
    exists|k: int| 0 <= k < r.len() && #[trigger] interaction_copy(r[k], i)
}

impl InteractionView {
    /// A copy of this interaction.
    pub fn copy(&self) -> (r: InteractionView)
        ensures
            interaction_copy(r, *self),
    {
        InteractionView {
            spoke_id: self.spoke_id.clone(),
            project_id: self.project_id.clone(),
            operation_id: self.operation_id.clone(),
            request_id: self.request_id.clone(),
            method: self.method.clone(),
            payload: self.payload.copy(),
            created_at: self.created_at,
        }
    }
}

/// What the client shows.
#[derive(Debug)]
pub struct UiState {
    pub connection: ConnectionView,
    pub configured: bool,
    pub hub_url: String,
    pub spokes: Vec<SpokeRecord>,
    pub projects: Vec<ProjectRecord>,
    pub selected: Option<ProjectKey>,
    pub selected_snapshot: Option<ProjectSnapshot>,
    pub pending_messages: Vec<PendingMessage>,
    pub interactions: Vec<InteractionView>,
    pub path_suggestions: Vec<(SpokeId, Vec<String>)>,
    pub diagnostics: Vec<DiagnosticView>,
}

/// The diagnostics shown: the latest hundred of the sorted ones.
pub open spec fn shown_diagnostics(sorted_all: Seq<DiagnosticView>) -> Seq<DiagnosticView> {
    if sorted_all.len() > DIAGNOSTICS_SHOWN {
        sorted_all.subrange(sorted_all.len() - DIAGNOSTICS_SHOWN, sorted_all.len() as int)
    } else {
        sorted_all
    }
}

/// `v` shows the snapshot `s` in display order.
pub open spec fn shown_snapshot(v: ProjectSnapshot, s: ProjectSnapshot) -> bool {
    &&& v.project == s.project
    &&& v.source == s.source
    &&& v.chat == s.chat
    &&& v.gap_before == s.gap_before
    &&& crate::client_order::sorted_permutation(v.timeline@, s.timeline@)
    &&& crate::client_order::sorted_permutation(v.operations@, s.operations@)
    &&& v.reviews@.len() == s.reviews@.len()
    &&& sorted(v.reviews@)
}

impl AppStore {
    fn selected_view(&self) -> (r: Option<ProjectSnapshot>)
        requires
            app_store_wf(*self),
        ensures
            match self.selected {
                Some(k) => match lookup(self.snapshots@, (k.spoke_id@, k.project_id@)) {
                    Some(s) => r matches Some(v) && shown_snapshot(v, s),
                    None => r is None,
                },
                None => r is None,
            },
    {
        match &self.selected {
            None => None,
            Some(k) => match find(&self.snapshots, k.spoke_id.as_str(), k.project_id.as_str()) {
                None => None,
                Some(i) => {
                    let mut v = self.snapshots[i].clone();
                    crate::client_order::order_snapshot_collections(&mut v);
                    Some(v)
                },
            },
        }
    }

    fn sorted_interactions(&self) -> (r: Vec<InteractionView>)
        ensures
            sorted(r@),
            r@.len() == self.interactions@.len(),
            forall|i: int| 0 <= i < r@.len() ==> copied_from(#[trigger] r@[i], self.interactions@),
            forall|j: int| 0 <= j < self.interactions@.len() ==> has_copy_in(#[trigger] self.interactions@[j], r@),
    {
        let mut copies: Vec<InteractionView> = Vec::new();
        let mut k: usize = 0;
        while k < self.interactions.len()
            invariant
                k <= self.interactions@.len(),
                copies@.len() == k,
                forall|j: int| 0 <= j < k ==> interaction_copy(#[trigger] copies@[j], self.interactions@[j]),
            decreases self.interactions@.len() - k,
        {
            copies.push(self.interactions[k].copy());
            k = k + 1;
        }
        let ghost cs = copies@;
        let r = sort_stable(copies);
        proof {
            broadcast use vstd::seq_lib::group_to_multiset_ensures;
            assert forall|i: int| 0 <= i < r@.len() implies copied_from(#[trigger] r@[i], self.interactions@) by {
                assert(r@.to_multiset().contains(r@[i]));
                assert(cs.to_multiset().contains(r@[i]));
                assert(cs.contains(r@[i]));
                let j = choose|j: int| 0 <= j < cs.len() && cs[j] == r@[i];
                assert(interaction_copy(cs[j], self.interactions@[j]));
            }
            assert forall|j: int| 0 <= j < self.interactions@.len() implies has_copy_in(#[trigger] self.interactions@[j], r@) by {
                assert(cs.contains(cs[j]));
                assert(cs.to_multiset().contains(cs[j]));
                assert(r@.to_multiset().contains(cs[j]));
                assert(r@.contains(cs[j]));
                let i = choose|i: int| 0 <= i < r@.len() && r@[i] == cs[j];
                assert(interaction_copy(r@[i], self.interactions@[j]));
            }
        }
        r
    }

    fn shown_diagnostic_list(&self) -> (r: Vec<DiagnosticView>)
        ensures
            exists|all: Seq<DiagnosticView>| crate::client_order::sorted_permutation(all, self.diagnostics@)
                && #[trigger] shown_diagnostics(all) == r@,
    {
        let copies = self.diagnostics.clone();
        assert(copies@ =~= self.diagnostics@);
        let all = sort_stable(copies);
        let n = all.len();
        let start = if n > DIAGNOSTICS_SHOWN { n - DIAGNOSTICS_SHOWN } else { 0 };
        let mut out: Vec<DiagnosticView> = Vec::new();
        let mut i: usize = start;
        while i < n
            invariant
                start <= i <= n,
                n == all@.len(),
                out@ == all@.subrange(start as int, i as int),
            decreases n - i,
        {
            out.push(all[i].clone());
            i = i + 1;
            assert(out@ =~= all@.subrange(start as int, i as int));
        }
        assert(shown_diagnostics(all@) =~= out@);
        out
    }

    /// What the client shows: its state, the selected project's snapshot in display order,
    /// interactions by arrival (then operation and request), and the latest hundred diagnostics
    /// by time (then text and recording order).
    pub fn view(&self) -> (r: UiState)
        requires
            app_store_wf(*self),
        ensures
            r.connection == self.connection,
            r.configured == self.configured,
            r.hub_url == self.hub_url,
            r.spokes@ == self.spokes@,
            r.projects@ == self.projects@.map_values(|p: ListedProject| p.project),
            r.selected == self.selected,
            match self.selected {
                Some(k) => match lookup(self.snapshots@, (k.spoke_id@, k.project_id@)) {
                    Some(s) => r.selected_snapshot matches Some(v) && shown_snapshot(v, s),
                    None => r.selected_snapshot is None,
                },
                None => r.selected_snapshot is None,
            },
            r.pending_messages@ == self.pending_messages@,
            sorted(r.interactions@),
            r.interactions@.len() == self.interactions@.len(),
            forall|i: int| 0 <= i < r.interactions@.len() ==> copied_from(#[trigger] r.interactions@[i], self.interactions@),
            forall|j: int| 0 <= j < self.interactions@.len() ==> has_copy_in(#[trigger] self.interactions@[j], r.interactions@),
            r.path_suggestions@.len() == self.path_suggestions@.len(),
            forall|i: int| 0 <= i < r.path_suggestions@.len() ==> (#[trigger] r.path_suggestions@[i]).0 == self.path_suggestions@[i].spoke_id
                && r.path_suggestions@[i].1@ == self.path_suggestions@[i].directories@,
            exists|all: Seq<DiagnosticView>| crate::client_order::sorted_permutation(all, self.diagnostics@)
                && #[trigger] shown_diagnostics(all) == r.diagnostics@,
    {
        let mut spokes: Vec<SpokeRecord> = Vec::new();
        let mut i: usize = 0;
        while i < self.spokes.len()
            invariant
                i <= self.spokes@.len(),
                spokes@ == self.spokes@.subrange(0, i as int),
            decreases self.spokes@.len() - i,
        {
            spokes.push(self.spokes[i].clone());
            i = i + 1;
            assert(spokes@ =~= self.spokes@.subrange(0, i as int));
        }
        assert(self.spokes@.subrange(0, i as int) =~= self.spokes@);
        let mut projects: Vec<ProjectRecord> = Vec::new();
        let mut j: usize = 0;
        while j < self.projects.len()
            invariant
                j <= self.projects@.len(),
                projects@ == self.projects@.subrange(0, j as int).map_values(|p: ListedProject| p.project),
            decreases self.projects@.len() - j,
        {
            projects.push(self.projects[j].project.clone());
            j = j + 1;
            assert(projects@ =~= self.projects@.subrange(0, j as int).map_values(|p: ListedProject| p.project));
        }
        assert(self.projects@.subrange(0, j as int) =~= self.projects@);
        let mut pending: Vec<PendingMessage> = Vec::new();
        let mut k: usize = 0;
        while k < self.pending_messages.len()
            invariant
                k <= self.pending_messages@.len(),
                pending@ == self.pending_messages@.subrange(0, k as int),
            decreases self.pending_messages@.len() - k,
        {
            pending.push(self.pending_messages[k].clone());
            k = k + 1;
            assert(pending@ =~= self.pending_messages@.subrange(0, k as int));
        }
        assert(self.pending_messages@.subrange(0, k as int) =~= self.pending_messages@);
        let mut paths: Vec<(SpokeId, Vec<String>)> = Vec::new();
        let mut m: usize = 0;
        while m < self.path_suggestions.len()
            invariant
                m <= self.path_suggestions@.len(),
                paths@.len() == m,
                forall|x: int| 0 <= x < m ==> (#[trigger] paths@[x]).0 == self.path_suggestions@[x].spoke_id
                    && paths@[x].1@ == self.path_suggestions@[x].directories@,
            decreases self.path_suggestions@.len() - m,
        {
            let dirs = self.path_suggestions[m].directories.clone();
            assert(dirs@ =~= self.path_suggestions@[m as int].directories@);
            paths.push((self.path_suggestions[m].spoke_id.clone(), dirs));
            m = m + 1;
        }
        let selected = match &self.selected {
            Some(k) => Some(k.clone()),
            None => None,
        };
        UiState {
            connection: self.connection.clone(),
            configured: self.configured,
            hub_url: self.hub_url.clone(),
            spokes,
            projects,
            selected,
            selected_snapshot: self.selected_view(),
            pending_messages: pending,
            interactions: self.sorted_interactions(),
            path_suggestions: paths,
            diagnostics: self.shown_diagnostic_list(),
        }
    }
}

/// The latest cursor of a timeline.
pub open spec fn max_cursor(items: Seq<TimelineItem>) -> Option<u64>
    decreases items.len(),
{
    if items.len() == 0 {
        None
    } else {
        match max_cursor(items.drop_last()) {
            Some(c) => Some(if c >= items.last().cursor { c } else { items.last().cursor }),
            None => Some(items.last().cursor),
        }
    }
}

impl AppStore {
    /// Selects a project and subscribes to its Intent Chat from the latest cursor the client
    /// holds for it.
    pub fn select_project(&mut self, key: ProjectKey) -> (r: crate::messages::ClientCommand)
        requires
            app_store_wf(*old(self)),
        ensures
            app_store_wf(*final(self)),
            final(self).selected == Some(key),
            *final(self) == (AppStore { selected: final(self).selected, ..*old(self) }),
            r matches crate::messages::ClientCommand::IntentSubscribe { spoke_id, project_id, cursor }
                && spoke_id == key.spoke_id && project_id == key.project_id
                && cursor == (match lookup(old(self).snapshots@, (key.spoke_id@, key.project_id@)) {
                    Some(s) => max_cursor(s.timeline@),
                    None => None,
                }),
    {
        let cursor = match find(&self.snapshots, key.spoke_id.as_str(), key.project_id.as_str()) {
            None => None,
            Some(i) => {
                let items = &self.snapshots[i].timeline;
                let mut best: Option<u64> = None;
                let mut j: usize = 0;
                while j < items.len()
                    invariant
                        j <= items@.len(),
                        best == max_cursor(items@.subrange(0, j as int)),
                    decreases items@.len() - j,
                {
                    proof {
                        assert(items@.subrange(0, j + 1).drop_last() =~= items@.subrange(0, j as int));
                    }
                    let c = items[j].cursor;
                    best = match best {
                        Some(b) => Some(if b >= c { b } else { c }),
                        None => Some(c),
                    };
                    j = j + 1;
                }
                assert(items@.subrange(0, j as int) =~= items@);
                best
            },
        };
        let spoke_id = key.spoke_id.clone();
        let project_id = key.project_id.clone();
        self.selected = Some(key);
        crate::messages::ClientCommand::IntentSubscribe { spoke_id, project_id, cursor }
    }

    /// Sends a message to a project's Intent Chat: a blank message is not sent; otherwise it
    /// waits among the pending messages (under a fresh local identifier, created at `now`) and is
    /// sent expecting the revision of the source of intent the client holds, if any.
    pub fn send_intent(&mut self, key: ProjectKey, message: String, now: u64) -> (r: Option<crate::messages::ClientCommand>)
        requires
            app_store_wf(*old(self)),
        ensures
            app_store_wf(*final(self)),
            crate::text::trimmed(message@).len() == 0 ==> r is None && *final(self) == *old(self),
            crate::text::trimmed(message@).len() > 0 ==> {
                &&& r matches Some(crate::messages::ClientCommand::IntentSend { spoke_id, project_id, message: m, expected_revision })
                    && spoke_id == key.spoke_id && project_id == key.project_id && m == message
                    && expected_revision == (match lookup(old(self).snapshots@, (key.spoke_id@, key.project_id@)) {
                        Some(s) => Some(s.source.revision),
                        None => None,
                    })
                &&& final(self).pending_messages@.len() == old(self).pending_messages@.len() + 1
                &&& final(self).pending_messages@.drop_last() == old(self).pending_messages@
                &&& final(self).pending_messages@.last().spoke_id == key.spoke_id
                &&& final(self).pending_messages@.last().project_id == key.project_id
                &&& final(self).pending_messages@.last().message == message
                &&& final(self).pending_messages@.last().created_at == now
                &&& *final(self) == (AppStore { pending_messages: final(self).pending_messages, ..*old(self) })
            },
    {
        let t = crate::text::trim_text(message.as_str());
        if t.unicode_len() == 0 {
            return None;
        }
        let revision = match find(&self.snapshots, key.spoke_id.as_str(), key.project_id.as_str()) {
            None => None,
            Some(i) => Some(self.snapshots[i].source.revision),
        };
        let local_id = crate::crypto::new_uuid_text();
        let ghost before = self.pending_messages@;
        self.pending_messages.push(PendingMessage {
            spoke_id: key.spoke_id.clone(),
            project_id: key.project_id.clone(),
            local_id,
            message: message.clone(),
            created_at: now,
        });
        assert(self.pending_messages@.drop_last() == before);
        Some(crate::messages::ClientCommand::IntentSend {
            spoke_id: key.spoke_id,
            project_id: key.project_id,
            message,
            expected_revision: revision,
        })
    }

    /// Answers an interaction with `response`: the interaction is no longer awaited, and the
    /// answer is the command to send.
    pub fn answer(&mut self, interaction: &InteractionView, response: JsonValue) -> (r: crate::messages::ClientCommand)
        requires
            app_store_wf(*old(self)),
        ensures
            app_store_wf(*final(self)),
            r matches crate::messages::ClientCommand::IntentAnswer { spoke_id, project_id, operation_id, request_id, response: a }
                && spoke_id == interaction.spoke_id && project_id == interaction.project_id
                && operation_id == interaction.operation_id && request_id == interaction.request_id && a == response,
            lookup(final(self).interactions@, interaction.key()) is None,
            only_key_changed(final(self).interactions@, old(self).interactions@, interaction.key()),
            *final(self) == (AppStore { interactions: final(self).interactions, ..*old(self) }),
    {
        remove_key(&mut self.interactions, interaction.operation_id.as_str(), interaction.request_id.as_str());
        crate::messages::ClientCommand::IntentAnswer {
            spoke_id: interaction.spoke_id.clone(),
            project_id: interaction.project_id.clone(),
            operation_id: interaction.operation_id.clone(),
            request_id: interaction.request_id.clone(),
            response,
        }
    }
}

/// The command that initializes a project in `cwd` on a spoke: a blank path is refused, and a
/// blank name is left out.
pub fn initialize_project(spoke_id: SpokeId, cwd: String, name: String) -> (r: Result<crate::messages::ClientCommand, String>)
    ensures
        crate::text::trimmed(cwd@).len() == 0 ==> (r matches Err(m) && m@ == "A project path is required"@),
        crate::text::trimmed(cwd@).len() > 0 ==> (r matches Ok(crate::messages::ClientCommand::ProjectInitialize { spoke_id: s, cwd: c, name: n })
            && s == spoke_id && c == cwd && n == (if crate::text::trimmed(name@).len() == 0 { None } else { Some(name) })),
{
    if crate::text::trim_text(cwd.as_str()).unicode_len() == 0 {
        return Err(copy_text("A project path is required"));
    }
    let n = if crate::text::trim_text(name.as_str()).unicode_len() == 0 { None } else { Some(name) };
    Ok(crate::messages::ClientCommand::ProjectInitialize { spoke_id, cwd, name: n })
}

} // verus!
