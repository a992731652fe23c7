//! The todo entity: its enums, its bounded changelog, and its mutation
//! rules (progress with auto-completion, no-op-guarded field changes, soft
//! deletion).

use vstd::prelude::*;

use crate::text::{spec_lex_le, str_eq, u8_to_dec, spec_u8_of_digits};
use crate::fresh::{fresh_id, now_rfc3339};

verus! {

/// Time-horizon bucket of a todo.
#[derive(Debug, Clone, Copy, PartialEq, Eq, Structural)]
pub enum Tab {
    Today,
    Week,
    Month,
}

/// Eisenhower-matrix classification of a todo.
#[derive(Debug, Clone, Copy, PartialEq, Eq, Structural)]
pub enum Quadrant {
    ImportantUrgent,
    ImportantNotUrgent,
    NotImportantUrgent,
    NotImportantNotUrgent,
}

/// The wire name of a tab.
pub open spec fn spec_tab_str(t: Tab) -> Seq<char> {
    match t {
        Tab::Today => "today"@,
        Tab::Week => "week"@,
        Tab::Month => "month"@,
    }
}

/// The wire name of a quadrant.
pub open spec fn spec_quadrant_str(q: Quadrant) -> Seq<char> {
    match q {
        Quadrant::ImportantUrgent => "important-urgent"@,
        Quadrant::ImportantNotUrgent => "important-not-urgent"@,
        Quadrant::NotImportantUrgent => "not-important-urgent"@,
        Quadrant::NotImportantNotUrgent => "not-important-not-urgent"@,
    }
}

/// The human-readable label of a quadrant.
pub open spec fn spec_quadrant_label(q: Quadrant) -> Seq<char> {
    match q {
        Quadrant::ImportantUrgent => "优先处理"@,
        Quadrant::ImportantNotUrgent => "就等你翻牌子了"@,
        Quadrant::NotImportantUrgent => "待分类"@,
        Quadrant::NotImportantNotUrgent => "短平快"@,
    }
}

impl Tab {
    /// The wire name of the tab.
    pub fn as_str(&self) -> (r: &'static str)
        ensures
            r@ == spec_tab_str(*self),
    {
        match self {
            Tab::Today => "today",
            Tab::Week => "week",
            Tab::Month => "month",
        }
    }
}

impl Default for Tab {
    /// The default bucket is today.
    fn default() -> (r: Self)
        ensures
            r == Tab::Today,
    {
        Tab::Today
    }
}

impl Quadrant {
    /// The wire name of the quadrant.
    pub fn as_str(&self) -> (r: &'static str)
        ensures
            r@ == spec_quadrant_str(*self),
    {
        match self {
            Quadrant::ImportantUrgent => "important-urgent",
            Quadrant::ImportantNotUrgent => "important-not-urgent",
            Quadrant::NotImportantUrgent => "not-important-urgent",
            Quadrant::NotImportantNotUrgent => "not-important-not-urgent",
        }
    }

    /// The human-readable label of the quadrant.
    pub fn label(&self) -> (r: &'static str)
        ensures
            r@ == spec_quadrant_label(*self),
    {
        match self {
            Quadrant::ImportantUrgent => "优先处理",
            Quadrant::ImportantNotUrgent => "就等你翻牌子了",
            Quadrant::NotImportantUrgent => "待分类",
            Quadrant::NotImportantNotUrgent => "短平快",
        }
    }
}

impl Default for Quadrant {
    /// The default quadrant is not-important-not-urgent.
    fn default() -> (r: Self)
        ensures
            r == Quadrant::NotImportantNotUrgent,
    {
        Quadrant::NotImportantNotUrgent
    }
}

/// Reads a tab from its wire name; an unknown name falls back to today.
pub fn parse_tab(s: &str) -> (r: Tab)
    ensures
        r == spec_parse_tab(s@),
{
    if str_eq(s, "today") {
        Tab::Today
    } else if str_eq(s, "week") {
        Tab::Week
    } else if str_eq(s, "month") {
        Tab::Month
    } else {
        Tab::Today
    }
}

/// The tab a wire name denotes, with today for an unknown name.
pub open spec fn spec_parse_tab(s: Seq<char>) -> Tab {
    if s == "today"@ {
        Tab::Today
    } else if s == "week"@ {
        Tab::Week
    } else if s == "month"@ {
        Tab::Month
    } else {
        Tab::Today
    }
}

/// Reads a quadrant from its wire name; an unknown name falls back to
/// not-important-not-urgent.
pub fn parse_quadrant(s: &str) -> (r: Quadrant)
    ensures
        r == spec_parse_quadrant(s@),
{
    if str_eq(s, "important-urgent") {
        Quadrant::ImportantUrgent
    } else if str_eq(s, "important-not-urgent") {
        Quadrant::ImportantNotUrgent
    } else if str_eq(s, "not-important-urgent") {
        Quadrant::NotImportantUrgent
    } else {
        Quadrant::NotImportantNotUrgent
    }
}

/// The quadrant a wire name denotes, with not-important-not-urgent for an
/// unknown name.
pub open spec fn spec_parse_quadrant(s: Seq<char>) -> Quadrant {
    if s == "important-urgent"@ {
        Quadrant::ImportantUrgent
    } else if s == "important-not-urgent"@ {
        Quadrant::ImportantNotUrgent
    } else if s == "not-important-urgent"@ {
        Quadrant::NotImportantUrgent
    } else {
        Quadrant::NotImportantNotUrgent
    }
}

/// One recorded field change.
#[derive(Debug)]
pub struct ChangeEntry {
    pub field: String,
    pub label: String,
    pub old_value: String,
    pub new_value: String,
    pub timestamp: String,
}

/// The mathematical shape of a change entry.
pub ghost struct ChangeEntryV {
    pub field: Seq<char>,
    pub label: Seq<char>,
    pub old_value: Seq<char>,
    pub new_value: Seq<char>,
    pub timestamp: Seq<char>,
}

impl View for ChangeEntry {
    type V = ChangeEntryV;

    open spec fn view(&self) -> ChangeEntryV {
        ChangeEntryV {
            field: self.field@,
            label: self.label@,
            old_value: self.old_value@,
            new_value: self.new_value@,
            timestamp: self.timestamp@,
        }
    }
}

impl Clone for ChangeEntry {
    /// A clone carries the same five strings.
    fn clone(&self) -> (r: Self)
        ensures
            r@ == self@,
    {
        ChangeEntry {
            field: self.field.clone(),
            label: self.label.clone(),
            old_value: self.old_value.clone(),
            new_value: self.new_value.clone(),
            timestamp: self.timestamp.clone(),
        }
    }
}

impl ChangeEntry {
    /// Builds an entry carrying the given timestamp.
    pub fn new_at(
        field: &str,
        label: &str,
        old_value: &str,
        new_value: &str,
        timestamp: &str,
    ) -> (r: Self)
        ensures
            r@ == (ChangeEntryV {
                field: field@,
                label: label@,
                old_value: old_value@,
                new_value: new_value@,
                timestamp: timestamp@,
            }),
    {
        ChangeEntry {
            field: field.to_owned(),
            label: label.to_owned(),
            old_value: old_value.to_owned(),
            new_value: new_value.to_owned(),
            timestamp: timestamp.to_owned(),
        }
    }

    /// Builds an entry stamped with the current time. Apart from the
    /// timestamp, which the clock decides, the fields carry the arguments.
    pub fn new(field: &str, label: &str, old_value: &str, new_value: &str) -> (r: Self)
        ensures
            r@.field == field@,
            r@.label == label@,
            r@.old_value == old_value@,
            r@.new_value == new_value@,
    {
        let now = now_rfc3339();
        Self::new_at(field, label, old_value, new_value, now.as_str())
    }
}

/// Most entries a changelog retains.
pub const MAX_CHANGELOG_SIZE: usize = 50;

/// A bounded audit trail: newest entries at the tail, oldest evicted
/// first once the capacity is exceeded.
#[derive(Debug)]
pub struct Changelog {
    entries: Vec<ChangeEntry>,
}

/// What a push leaves in a changelog: the entry is appended, then the
/// front is trimmed to the capacity.
pub open spec fn spec_changelog_push(log: Seq<ChangeEntryV>, e: ChangeEntryV) -> Seq<ChangeEntryV> {
    let grown = log.push(e);
    if grown.len() > MAX_CHANGELOG_SIZE {
        grown.skip(grown.len() - MAX_CHANGELOG_SIZE)
    } else {
        grown
    }
}

impl View for Changelog {
    type V = Seq<ChangeEntryV>;

    closed spec fn view(&self) -> Seq<ChangeEntryV> {
        self.entries@.map_values(|e: ChangeEntry| e@)
    }
}

impl Clone for Changelog {
    /// A clone carries the same entries.
    fn clone(&self) -> (r: Self)
        ensures
            r@ == self@,
    {
        let entries = self.entries.clone();
        proof {
            assert(entries@.map_values(|e: ChangeEntry| e@) =~= self@);
        }
        Changelog { entries }
    }
}

impl Changelog {
    /// The empty changelog.
    pub fn new() -> (r: Self)
        ensures
            r@ == Seq::<ChangeEntryV>::empty(),
    {
        let r = Changelog { entries: Vec::new() };
        proof {
            assert(r@ =~= Seq::<ChangeEntryV>::empty());
        }
        r
    }

    /// Wraps a list of entries as read from a document, however many
    /// there are.
    pub fn from_entries(entries: Vec<ChangeEntry>) -> (r: Self)
        ensures
            r@ == entries@.map_values(|e: ChangeEntry| e@),
    {
        Changelog { entries }
    }

    /// Appends an entry, evicting from the front beyond the capacity.
    pub fn push(&mut self, entry: ChangeEntry)
        ensures
            final(self)@ == spec_changelog_push(old(self)@, entry@),
            final(self)@.len() <= MAX_CHANGELOG_SIZE || final(self)@.len() <= old(self)@.len(),
    {
        self.entries.push(entry);
        let ghost s0 = self.entries@;
        while self.entries.len() > MAX_CHANGELOG_SIZE
            invariant
                self.entries@.len() <= s0.len(),
                self.entries@.len() >= s0.len() || self.entries@.len() >= MAX_CHANGELOG_SIZE,
                self.entries@ == s0.skip(s0.len() - self.entries@.len()),
            decreases self.entries@.len(),
        {
            proof {
                let k = s0.len() - self.entries@.len();
                assert(self.entries@.remove(0) =~= s0.skip(k + 1));
            }
            self.entries.remove(0);
        }
        proof {
            assert(s0.skip(0) =~= s0);
            let target = spec_changelog_push(old(self)@, entry@);
            let k = s0.len() - self.entries@.len();
            assert(self@.len() == target.len());
            assert forall|i: int| 0 <= i < self@.len() implies self@[i] == target[i] by {
                assert(self.entries@[i] == s0[i + k]);
                if i + k < s0.len() - 1 {
                    assert(s0[i + k] == old(self).entries@[i + k]);
                    assert(old(self)@[i + k] == old(self).entries@[i + k]@);
                } else {
                    assert(s0[i + k] == entry);
                }
            }
            assert(self@ =~= target);
        }
    }

    /// The retained entries, oldest first.
    pub fn entries(&self) -> (r: &Vec<ChangeEntry>)
        ensures
            r@.map_values(|e: ChangeEntry| e@) == self@,
    {
        &self.entries
    }

    /// How many entries are retained.
    pub fn len(&self) -> (r: usize)
        ensures
            r == self@.len(),
    {
        self.entries.len()
    }

    /// Whether nothing is retained.
    pub fn is_empty(&self) -> (r: bool)
        ensures
            r == (self@.len() == 0),
    {
        self.entries.len() == 0
    }
}

/// The human-readable label of a tracked field, with the field name
/// itself for an untracked one.
pub open spec fn spec_label_for(field: Seq<char>) -> Seq<char> {
    if field == "tab"@ {
        "时间维度"@
    } else if field == "quadrant"@ {
        "象限"@
    } else if field == "progress"@ {
        "进度"@
    } else if field == "completed"@ {
        "完成状态"@
    } else if field == "assignee"@ {
        "负责人"@
    } else if field == "due_date"@ {
        "截止日期"@
    } else if field == "tags"@ {
        "标签"@
    } else if field == "text"@ {
        "标题"@
    } else if field == "content"@ {
        "内容"@
    } else {
        field
    }
}

/// Decides `spec_label_for`.
fn label_for<'a>(field: &'a str) -> (r: &'a str)
    ensures
        r@ == spec_label_for(field@),
{
    if str_eq(field, "tab") {
        "时间维度"
    } else if str_eq(field, "quadrant") {
        "象限"
    } else if str_eq(field, "progress") {
        "进度"
    } else if str_eq(field, "completed") {
        "完成状态"
    } else if str_eq(field, "assignee") {
        "负责人"
    } else if str_eq(field, "due_date") {
        "截止日期"
    } else if str_eq(field, "tags") {
        "标签"
    } else if str_eq(field, "text") {
        "标题"
    } else if str_eq(field, "content") {
        "内容"
    } else {
        field
    }
}

/// A quadrant/time-boxed task.
#[derive(Debug)]
pub struct Todo {
    pub id: String,
    pub text: String,
    pub content: String,
    pub tab: Tab,
    pub quadrant: Quadrant,
    pub progress: u8,
    pub completed: bool,
    pub completed_at: Option<String>,
    pub due_date: Option<String>,
    pub assignee: String,
    pub tags: Vec<String>,
    pub created_at: String,
    pub updated_at: String,
    pub changelog: Changelog,
    pub deleted: bool,
    pub deleted_at: Option<String>,
}

/// The mathematical shape of a todo.
pub ghost struct TodoV {
    pub id: Seq<char>,
    pub text: Seq<char>,
    pub content: Seq<char>,
    pub tab: Tab,
    pub quadrant: Quadrant,
    pub progress: u8,
    pub completed: bool,
    pub completed_at: Option<Seq<char>>,
    pub due_date: Option<Seq<char>>,
    pub assignee: Seq<char>,
    pub tags: Seq<Seq<char>>,
    pub created_at: Seq<char>,
    pub updated_at: Seq<char>,
    pub changelog: Seq<ChangeEntryV>,
    pub deleted: bool,
    pub deleted_at: Option<Seq<char>>,
}

/// The view of an optional string.
pub open spec fn opt_view(o: Option<String>) -> Option<Seq<char>> {
    match o {
        Some(s) => Some(s@),
        None => None,
    }
}

impl View for Todo {
    type V = TodoV;

    open spec fn view(&self) -> TodoV {
        TodoV {
            id: self.id@,
            text: self.text@,
            content: self.content@,
            tab: self.tab,
            quadrant: self.quadrant,
            progress: self.progress,
            completed: self.completed,
            completed_at: opt_view(self.completed_at),
            due_date: opt_view(self.due_date),
            assignee: self.assignee@,
            tags: self.tags@.map_values(|s: String| s@),
            created_at: self.created_at@,
            updated_at: self.updated_at@,
            changelog: self.changelog@,
            deleted: self.deleted,
            deleted_at: opt_view(self.deleted_at),
        }
    }
}

impl Clone for Todo {
    /// A clone carries the same shape.
    fn clone(&self) -> (r: Self)
        ensures
            r@ == self@,
    {
        let tags = self.tags.clone();
        proof {
            assert(tags@.map_values(|s: String| s@) =~= self.tags@.map_values(|s: String| s@));
        }
        Todo {
            id: self.id.clone(),
            text: self.text.clone(),
            content: self.content.clone(),
            tab: self.tab,
            quadrant: self.quadrant,
            progress: self.progress,
            completed: self.completed,
            completed_at: self.completed_at.clone(),
            due_date: self.due_date.clone(),
            assignee: self.assignee.clone(),
            tags,
            created_at: self.created_at.clone(),
            updated_at: self.updated_at.clone(),
            changelog: self.changelog.clone(),
            deleted: self.deleted,
            deleted_at: self.deleted_at.clone(),
        }
    }
}

/// What recording a field change leaves: the entry is pushed (with its
/// label looked up) and the update time is stamped.
pub open spec fn spec_record(
    t: TodoV,
    field: Seq<char>,
    old_value: Seq<char>,
    new_value: Seq<char>,
    ts: Seq<char>,
) -> TodoV {
    TodoV {
        changelog: spec_changelog_push(
            t.changelog,
            ChangeEntryV {
                field: field,
                label: spec_label_for(field),
                old_value: old_value,
                new_value: new_value,
                timestamp: ts,
            },
        ),
        updated_at: ts,
        ..t
    }
}

/// The clamped progress value.
pub open spec fn spec_clamp_progress(p: u8) -> u8 {
    if p > 100 {
        100
    } else {
        p
    }
}

/// What setting the completion flag leaves: a no-op when unchanged, else
/// a recorded change, the new flag, and the completion time set or
/// cleared.
pub open spec fn spec_set_completed(t: TodoV, completed: bool, ts: Seq<char>) -> TodoV {
    if t.completed == completed {
        t
    } else {
        let t1 = spec_record(
            t,
            "completed"@,
            if t.completed {
                "已完成"@
            } else {
                "未完成"@
            },
            if completed {
                "已完成"@
            } else {
                "未完成"@
            },
            ts,
        );
        TodoV {
            completed: completed,
            completed_at: if completed {
                Some(ts)
            } else {
                None
            },
            ..t1
        }
    }
}

/// What setting the progress leaves: the value is clamped to 100; an
/// unchanged value is a no-op; a change is recorded; reaching 100 when
/// not yet completed cascades into completion.
pub open spec fn spec_set_progress(t: TodoV, progress: u8, ts: Seq<char>) -> TodoV {
    let np = spec_clamp_progress(progress);
    if np == t.progress {
        t
    } else {
        let t1 = spec_record(t, "progress"@, crate::text::spec_dec(t.progress as nat), crate::text::spec_dec(np as nat), ts);
        let t2 = TodoV { progress: np, ..t1 };
        if np == 100 && !t2.completed {
            spec_set_completed(t2, true, ts)
        } else {
            t2
        }
    }
}

/// What setting the quadrant leaves: a no-op when unchanged, else a
/// change recorded under the quadrant labels.
pub open spec fn spec_set_quadrant(t: TodoV, quadrant: Quadrant, ts: Seq<char>) -> TodoV {
    if t.quadrant == quadrant {
        t
    } else {
        let t1 = spec_record(
            t,
            "quadrant"@,
            spec_quadrant_label(t.quadrant),
            spec_quadrant_label(quadrant),
            ts,
        );
        TodoV { quadrant: quadrant, ..t1 }
    }
}

/// What setting the tab leaves: a no-op when unchanged, else a change
/// recorded under the wire names.
pub open spec fn spec_set_tab(t: TodoV, tab: Tab, ts: Seq<char>) -> TodoV {
    if t.tab == tab {
        t
    } else {
        let t1 = spec_record(t, "tab"@, spec_tab_str(t.tab), spec_tab_str(tab), ts);
        TodoV { tab: tab, ..t1 }
    }
}

/// What a soft delete leaves: the flag set and both timestamps stamped.
pub open spec fn spec_soft_delete(t: TodoV, ts: Seq<char>) -> TodoV {
    TodoV { deleted: true, deleted_at: Some(ts), updated_at: ts, ..t }
}

/// What a restore leaves: the flag and deletion time cleared, the update
/// time stamped.
pub open spec fn spec_restore(t: TodoV, ts: Seq<char>) -> TodoV {
    TodoV { deleted: false, deleted_at: None, updated_at: ts, ..t }
}

impl Todo {
    /// Builds a fresh task from the given identifier and creation time:
    /// zero progress, not completed, empty changelog, both timestamps
    /// equal.
    pub fn new_at(id: String, text: String, tab: Tab, quadrant: Quadrant, now: String) -> (r: Self)
        ensures
            r@ == (TodoV {
                id: id@,
                text: text@,
                content: Seq::<char>::empty(),
                tab: tab,
                quadrant: quadrant,
                progress: 0,
                completed: false,
                completed_at: None,
                due_date: None,
                assignee: Seq::<char>::empty(),
                tags: Seq::<Seq<char>>::empty(),
                created_at: now@,
                updated_at: now@,
                changelog: Seq::<ChangeEntryV>::empty(),
                deleted: false,
                deleted_at: None,
            }),
    {
        let created = now.clone();
        let r = Todo {
            id,
            text,
            content: String::new(),
            tab,
            quadrant,
            progress: 0,
            completed: false,
            completed_at: None,
            due_date: None,
            assignee: String::new(),
            tags: Vec::new(),
            created_at: created,
            updated_at: now,
            changelog: Changelog::new(),
            deleted: false,
            deleted_at: None,
        };
        proof {
            assert(r.tags@.map_values(|s: String| s@) =~= Seq::<Seq<char>>::empty());
        }
        r
    }

    /// Builds a fresh task with a generated 8-character identifier and
    /// the current time on both timestamps.
    pub fn new(text: String, tab: Tab, quadrant: Quadrant) -> (r: Self)
        ensures
            r@.id.len() == 8,
            r@.text == text@,
            r@.content.len() == 0,
            r@.tab == tab,
            r@.quadrant == quadrant,
            r@.progress == 0,
            !r@.completed,
            r@.completed_at is None,
            r@.due_date is None,
            r@.assignee.len() == 0,
            r@.tags.len() == 0,
            r@.created_at == r@.updated_at,
            r@.changelog.len() == 0,
            !r@.deleted,
            r@.deleted_at is None,
    {
        let id = fresh_id();
        let now = now_rfc3339();
        Self::new_at(id, text, tab, quadrant, now)
    }

    /// Records a field change carrying the given timestamp: the label is
    /// looked up, the entry appended, the update time stamped.
    pub fn record_change_at(&mut self, field: &str, old_value: &str, new_value: &str, now: &str)
        ensures
            final(self)@ == spec_record(old(self)@, field@, old_value@, new_value@, now@),
    {
        let label = label_for(field);
        let entry = ChangeEntry::new_at(field, label, old_value, new_value, now);
        self.changelog.push(entry);
        self.updated_at = now.to_owned();
    }

    /// Records a field change stamped with the current time.
    pub fn record_change(&mut self, field: &str, old_value: &str, new_value: &str)
        ensures
            exists|ts: Seq<char>|
                final(self)@ == spec_record(old(self)@, field@, old_value@, new_value@, ts),
    {
        let now = now_rfc3339();
        self.record_change_at(field, old_value, new_value, now.as_str());
    }

    /// Sets the progress, as `spec_set_progress` says: clamped to 100,
    /// no-op when unchanged, recorded when changed, auto-completing at
    /// 100.
    pub fn set_progress_at(&mut self, progress: u8, now: &str)
        ensures
            final(self)@ == spec_set_progress(old(self)@, progress, now@),
    {
        let old_progress = self.progress;
        let new_progress = if progress > 100 {
            100
        } else {
            progress
        };
        if old_progress != new_progress {
            let old_s = u8_to_dec(old_progress);
            let new_s = u8_to_dec(new_progress);
            self.record_change_at("progress", old_s.as_str(), new_s.as_str(), now);
            self.progress = new_progress;
            if new_progress == 100 && !self.completed {
                self.set_completed_at(true, now);
            }
        }
    }

    /// Sets the progress, stamped with the current time.
    pub fn set_progress(&mut self, progress: u8)
        ensures
            exists|ts: Seq<char>| final(self)@ == spec_set_progress(old(self)@, progress, ts),
    {
        let now = now_rfc3339();
        self.set_progress_at(progress, now.as_str());
    }

    /// Sets the completion flag, as `spec_set_completed` says.
    pub fn set_completed_at(&mut self, completed: bool, now: &str)
        ensures
            final(self)@ == spec_set_completed(old(self)@, completed, now@),
    {
        if self.completed != completed {
            let old_label = if self.completed {
                "已完成"
            } else {
                "未完成"
            };
            let new_label = if completed {
                "已完成"
            } else {
                "未完成"
            };
            self.record_change_at("completed", old_label, new_label, now);
            self.completed = completed;
            self.completed_at = if completed {
                Some(now.to_owned())
            } else {
                None
            };
        }
    }

    /// Sets the completion flag, stamped with the current time.
    pub fn set_completed(&mut self, completed: bool)
        ensures
            exists|ts: Seq<char>| final(self)@ == spec_set_completed(old(self)@, completed, ts),
    {
        let now = now_rfc3339();
        self.set_completed_at(completed, now.as_str());
    }

    /// Sets the quadrant, as `spec_set_quadrant` says.
    pub fn set_quadrant_at(&mut self, quadrant: Quadrant, now: &str)
        ensures
            final(self)@ == spec_set_quadrant(old(self)@, quadrant, now@),
    {
        if self.quadrant != quadrant {
            let old_label = self.quadrant.label();
            let new_label = quadrant.label();
            self.record_change_at("quadrant", old_label, new_label, now);
            self.quadrant = quadrant;
        }
    }

    /// Sets the quadrant, stamped with the current time.
    pub fn set_quadrant(&mut self, quadrant: Quadrant)
        ensures
            exists|ts: Seq<char>| final(self)@ == spec_set_quadrant(old(self)@, quadrant, ts),
    {
        let now = now_rfc3339();
        self.set_quadrant_at(quadrant, now.as_str());
    }

    /// Sets the tab, as `spec_set_tab` says.
    pub fn set_tab_at(&mut self, tab: Tab, now: &str)
        ensures
            final(self)@ == spec_set_tab(old(self)@, tab, now@),
    {
        if self.tab != tab {
            let old_name = self.tab.as_str();
            let new_name = tab.as_str();
            self.record_change_at("tab", old_name, new_name, now);
            self.tab = tab;
        }
    }

    /// Sets the tab, stamped with the current time.
    pub fn set_tab(&mut self, tab: Tab)
        ensures
            exists|ts: Seq<char>| final(self)@ == spec_set_tab(old(self)@, tab, ts),
    {
        let now = now_rfc3339();
        self.set_tab_at(tab, now.as_str());
    }

    /// Marks the task deleted, as `spec_soft_delete` says. Calling it
    /// again only re-stamps the timestamps.
    pub fn soft_delete_at(&mut self, now: &str)
        ensures
            final(self)@ == spec_soft_delete(old(self)@, now@),
    {
        self.deleted = true;
        self.deleted_at = Some(now.to_owned());
        self.updated_at = now.to_owned();
    }

    /// Marks the task deleted, stamped with the current time.
    pub fn soft_delete(&mut self)
        ensures
            exists|ts: Seq<char>| final(self)@ == spec_soft_delete(old(self)@, ts),
    {
        let now = now_rfc3339();
        self.soft_delete_at(now.as_str());
    }

    /// Clears the deletion mark, as `spec_restore` says.
    pub fn restore_at(&mut self, now: &str)
        ensures
            final(self)@ == spec_restore(old(self)@, now@),
    {
        self.deleted = false;
        self.deleted_at = None;
        self.updated_at = now.to_owned();
    }

    /// Clears the deletion mark, stamped with the current time.
    pub fn restore(&mut self)
        ensures
            exists|ts: Seq<char>| final(self)@ == spec_restore(old(self)@, ts),
    {
        let now = now_rfc3339();
        self.restore_at(now.as_str());
    }
}

/// A partial update: each present field is applied on its own.
#[derive(Debug)]
pub struct TodoUpdate {
    pub text: Option<String>,
    pub content: Option<String>,
    pub tab: Option<Tab>,
    pub quadrant: Option<Quadrant>,
    pub progress: Option<u8>,
    pub completed: Option<bool>,
    pub due_date: Option<String>,
    pub assignee: Option<String>,
    pub tags: Option<Vec<String>>,
}

/// The mathematical shape of a partial update.
pub ghost struct TodoUpdateV {
    pub text: Option<Seq<char>>,
    pub content: Option<Seq<char>>,
    pub tab: Option<Tab>,
    pub quadrant: Option<Quadrant>,
    pub progress: Option<u8>,
    pub completed: Option<bool>,
    pub due_date: Option<Seq<char>>,
    pub assignee: Option<Seq<char>>,
    pub tags: Option<Seq<Seq<char>>>,
}

impl View for TodoUpdate {
    type V = TodoUpdateV;

    open spec fn view(&self) -> TodoUpdateV {
        TodoUpdateV {
            text: opt_view(self.text),
            content: opt_view(self.content),
            tab: self.tab,
            quadrant: self.quadrant,
            progress: self.progress,
            completed: self.completed,
            due_date: opt_view(self.due_date),
            assignee: opt_view(self.assignee),
            tags: match self.tags {
                Some(ts) => Some(ts@.map_values(|s: String| s@)),
                None => None,
            },
        }
    }
}

impl Default for TodoUpdate {
    /// The empty patch: no field present.
    fn default() -> (r: Self)
        ensures
            r@.text is None,
            r@.content is None,
            r@.tab is None,
            r@.quadrant is None,
            r@.progress is None,
            r@.completed is None,
            r@.due_date is None,
            r@.assignee is None,
            r@.tags is None,
    {
        TodoUpdate {
            text: None,
            content: None,
            tab: None,
            quadrant: None,
            progress: None,
            completed: None,
            due_date: None,
            assignee: None,
            tags: None,
        }
    }
}

/// Tags joined for the changelog: comma-and-space between entries.
pub open spec fn spec_join(parts: Seq<Seq<char>>, sep: Seq<char>) -> Seq<char>
    decreases parts.len(),
{
    if parts.len() == 0 {
        Seq::<char>::empty()
    } else if parts.len() == 1 {
        parts[0]
    } else {
        spec_join(parts.drop_last(), sep) + sep + parts.last()
    }
}

/// Joins strings with a separator, as `spec_join` says.
pub fn join_with(parts: &Vec<String>, sep: &str) -> (r: String)
    ensures
        r@ == spec_join(parts@.map_values(|s: String| s@), sep@),
{
    let ghost viewed = parts@.map_values(|s: String| s@);
    let mut r = String::new();
    let mut i: usize = 0;
    while i < parts.len()
        invariant
            0 <= i <= parts@.len(),
            viewed == parts@.map_values(|s: String| s@),
            r@ == spec_join(viewed.take(i as int), sep@),
        decreases parts@.len() - i,
    {
        if i > 0 {
            r.append(sep);
        }
        r.append(parts[i].as_str());
        proof {
            assert(viewed.take(i + 1).drop_last() =~= viewed.take(i as int));
            assert(viewed.take(i + 1).last() == viewed[i as int]);
            if i == 0 {
                assert(viewed.take(1) =~= seq![viewed[0]]);
            }
        }
        i += 1;
    }
    proof {
        assert(viewed.take(parts@.len() as int) =~= viewed);
    }
    r
}

/// The text step of a patch: no-op-guarded, recorded with old and new
/// value.
pub open spec fn spec_upd_text(t: TodoV, o: Option<Seq<char>>, ts: Seq<char>) -> TodoV {
    match o {
        Some(x) => if x == t.text {
            t
        } else {
            TodoV { text: x, ..spec_record(t, "text"@, t.text, x, ts) }
        },
        None => t,
    }
}

/// The content step of a patch: no-op-guarded; the recorded values are a
/// fixed placeholder, not the texts themselves.
pub open spec fn spec_upd_content(t: TodoV, o: Option<Seq<char>>, ts: Seq<char>) -> TodoV {
    match o {
        Some(x) => if x == t.content {
            t
        } else {
            TodoV { content: x, ..spec_record(t, "content"@, "(已更新)"@, "(已更新)"@, ts) }
        },
        None => t,
    }
}

/// The due-date step of a patch: recorded whenever present, even when
/// the value is unchanged.
pub open spec fn spec_upd_due_date(t: TodoV, o: Option<Seq<char>>, ts: Seq<char>) -> TodoV {
    match o {
        Some(x) => {
            let old_s = match t.due_date {
                Some(d) => d,
                None => Seq::<char>::empty(),
            };
            spec_record(TodoV { due_date: Some(x), ..t }, "due_date"@, old_s, x, ts)
        },
        None => t,
    }
}

/// The assignee step of a patch: no-op-guarded, recorded with old and
/// new value.
pub open spec fn spec_upd_assignee(t: TodoV, o: Option<Seq<char>>, ts: Seq<char>) -> TodoV {
    match o {
        Some(x) => if x == t.assignee {
            t
        } else {
            TodoV { assignee: x, ..spec_record(t, "assignee"@, t.assignee, x, ts) }
        },
        None => t,
    }
}

/// The tags step of a patch: guarded and recorded on the joined
/// renderings of the lists.
pub open spec fn spec_upd_tags(t: TodoV, o: Option<Seq<Seq<char>>>, ts: Seq<char>) -> TodoV {
    match o {
        Some(x) => {
            let old_j = spec_join(t.tags, ", "@);
            let new_j = spec_join(x, ", "@);
            if old_j == new_j {
                t
            } else {
                TodoV { tags: x, ..spec_record(t, "tags"@, old_j, new_j, ts) }
            }
        },
        None => t,
    }
}

/// What applying a patch leaves: each present field applied in order
/// (text, content, tab, quadrant, progress, completed, due date,
/// assignee, tags), and the update time stamped whether or not anything
/// changed.
pub open spec fn spec_apply_update(t: TodoV, u: TodoUpdateV, ts: Seq<char>) -> TodoV {
    let t1 = spec_upd_text(t, u.text, ts);
    let t2 = spec_upd_content(t1, u.content, ts);
    let t3 = match u.tab {
        Some(x) => spec_set_tab(t2, x, ts),
        None => t2,
    };
    let t4 = match u.quadrant {
        Some(x) => spec_set_quadrant(t3, x, ts),
        None => t3,
    };
    let t5 = match u.progress {
        Some(x) => spec_set_progress(t4, x, ts),
        None => t4,
    };
    let t6 = match u.completed {
        Some(x) => spec_set_completed(t5, x, ts),
        None => t5,
    };
    let t7 = spec_upd_due_date(t6, u.due_date, ts);
    let t8 = spec_upd_assignee(t7, u.assignee, ts);
    let t9 = spec_upd_tags(t8, u.tags, ts);
    TodoV { updated_at: ts, ..t9 }
}

impl Todo {
    /// The text step of `apply_update`.
    fn step_text(&mut self, o: Option<String>, now: &str)
        ensures
            final(self)@ == spec_upd_text(old(self)@, opt_view(o), now@),
    {
        if let Some(text) = o {
            if !str_eq(self.text.as_str(), text.as_str()) {
                let old_text = self.text.clone();
                self.record_change_at("text", old_text.as_str(), text.as_str(), now);
                self.text = text;
            }
        }
    }

    /// The content step of `apply_update`.
    fn step_content(&mut self, o: Option<String>, now: &str)
        ensures
            final(self)@ == spec_upd_content(old(self)@, opt_view(o), now@),
    {
        if let Some(content) = o {
            if !str_eq(self.content.as_str(), content.as_str()) {
                self.record_change_at("content", "(已更新)", "(已更新)", now);
                self.content = content;
            }
        }
    }

    /// The due-date step of `apply_update`.
    fn step_due_date(&mut self, o: Option<String>, now: &str)
        ensures
            final(self)@ == spec_upd_due_date(old(self)@, opt_view(o), now@),
    {
        if let Some(due_date) = o {
            let old_s = match &self.due_date {
                Some(d) => d.clone(),
                None => String::new(),
            };
            self.due_date = Some(due_date.clone());
            self.record_change_at("due_date", old_s.as_str(), due_date.as_str(), now);
        }
    }

    /// The assignee step of `apply_update`.
    fn step_assignee(&mut self, o: Option<String>, now: &str)
        ensures
            final(self)@ == spec_upd_assignee(old(self)@, opt_view(o), now@),
    {
        if let Some(assignee) = o {
            if !str_eq(self.assignee.as_str(), assignee.as_str()) {
                let old_assignee = self.assignee.clone();
                self.record_change_at("assignee", old_assignee.as_str(), assignee.as_str(), now);
                self.assignee = assignee;
            }
        }
    }

    /// The tags step of `apply_update`.
    fn step_tags(&mut self, o: Option<Vec<String>>, now: &str)
        ensures
            final(self)@ == spec_upd_tags(
                old(self)@,
                match o {
                    Some(ts) => Some(ts@.map_values(|s: String| s@)),
                    None => None,
                },
                now@,
            ),
    {
        if let Some(tags) = o {
            let old_join = join_with(&self.tags, ", ");
            let new_join = join_with(&tags, ", ");
            if !str_eq(old_join.as_str(), new_join.as_str()) {
                self.record_change_at("tags", old_join.as_str(), new_join.as_str(), now);
                self.tags = tags;
            }
        }
    }

    /// Applies a patch, as `spec_apply_update` says.
    pub fn apply_update_at(&mut self, update: TodoUpdate, now: &str)
        ensures
            final(self)@ == spec_apply_update(old(self)@, update@, now@),
    {
        let TodoUpdate { text, content, tab, quadrant, progress, completed, due_date, assignee, tags } =
            update;
        self.step_text(text, now);
        self.step_content(content, now);
        if let Some(tab) = tab {
            self.set_tab_at(tab, now);
        }
        if let Some(quadrant) = quadrant {
            self.set_quadrant_at(quadrant, now);
        }
        if let Some(progress) = progress {
            self.set_progress_at(progress, now);
        }
        if let Some(completed) = completed {
            self.set_completed_at(completed, now);
        }
        self.step_due_date(due_date, now);
        self.step_assignee(assignee, now);
        self.step_tags(tags, now);
        self.updated_at = now.to_owned();
    }

    /// Applies a patch, stamped with the current time.
    pub fn apply_update(&mut self, update: TodoUpdate)
        ensures
            exists|ts: Seq<char>| final(self)@ == spec_apply_update(old(self)@, update@, ts),
    {
        let now = now_rfc3339();
        self.apply_update_at(update, now.as_str());
    }
}

/// Setting the progress stores the value clamped to 100. Reaching 100
/// from another value completes the task, stamps the completion time
/// when it was not completed, and in that case appends exactly two
/// changelog entries (one for the progress, one for the completion),
/// less what the capacity evicts.
pub proof fn lemma_set_progress_law(t: TodoV, p: u8, ts: Seq<char>)
    ensures
        spec_set_progress(t, p, ts).progress == spec_clamp_progress(p),
        spec_clamp_progress(p) == 100 && t.progress != 100 ==> spec_set_progress(t, p, ts).completed,
        spec_clamp_progress(p) == 100 && t.progress != 100 && !t.completed ==> {
            let r = spec_set_progress(t, p, ts);
            &&& r.completed_at == Some(ts)
            &&& r.changelog.len() == (if t.changelog.len() + 2 <= MAX_CHANGELOG_SIZE {
                t.changelog.len() + 2
            } else {
                MAX_CHANGELOG_SIZE as nat
            })
        },
{
}

/// Setting the completion flag twice to the same value is one change at
/// most: the second call is a no-op, and the two calls together append
/// at most one changelog entry.
pub proof fn lemma_set_completed_idempotent(t: TodoV, x: bool, ts1: Seq<char>, ts2: Seq<char>)
    ensures
        spec_set_completed(spec_set_completed(t, x, ts1), x, ts2) == spec_set_completed(t, x, ts1),
        spec_set_completed(t, x, ts1).changelog.len() <= t.changelog.len() + 1,
{
}

} // verus!
