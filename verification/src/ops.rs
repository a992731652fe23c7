//! The operation surface a front end calls: request and reply shapes,
//! and the operations themselves, each acting on a store the caller has
//! loaded and saves afterwards.

use vstd::prelude::*;

use crate::db::{
    RoutineDb, TodoDb, spec_by_tab, spec_db_after_update, spec_has_id, spec_index_of, spec_live,
    spec_open_in, spec_quadrant_str_of, spec_r_has_id, spec_r_index_of,
};
use crate::fresh::{now_rfc3339, today_ymd};
use crate::routine::{Routine, RoutineV, spec_toggle};
use crate::text::{spec_dec, usize_to_dec};
use crate::todo::{
    Quadrant, Tab, Todo, TodoUpdate, TodoUpdateV, TodoV, opt_view, parse_quadrant, parse_tab,
    spec_parse_quadrant, spec_parse_tab, spec_set_progress,
};
use crate::DbError;

verus! {

/// The reply to a listing of todos.
#[derive(Debug)]
pub struct TodosResponse {
    pub success: bool,
    pub items: Vec<Todo>,
    pub message: Option<String>,
}

/// The reply to an operation on one todo.
#[derive(Debug)]
pub struct TodoResponse {
    pub success: bool,
    pub item: Option<Todo>,
    pub message: Option<String>,
}

/// The reply to an operation with no payload.
#[derive(Debug)]
pub struct SimpleResponse {
    pub success: bool,
    pub message: Option<String>,
}

/// The reply carrying the open-work counts of one tab.
#[derive(Debug)]
pub struct CountsResponse {
    pub success: bool,
    pub counts: Vec<(String, usize)>,
}

/// The reply carrying a quote of the day; the embedding program picks
/// the quote.
#[derive(Debug)]
pub struct QuoteResponse {
    pub success: bool,
    pub quote: String,
}

/// What a creation request carries.
#[derive(Debug)]
pub struct CreateTodoRequest {
    pub text: String,
    pub tab: String,
    pub quadrant: String,
    pub content: Option<String>,
    pub progress: Option<u8>,
    pub due_date: Option<String>,
    pub assignee: Option<String>,
}

/// The mathematical shape of a creation request.
pub ghost struct CreateTodoRequestV {
    pub text: Seq<char>,
    pub tab: Seq<char>,
    pub quadrant: Seq<char>,
    pub content: Option<Seq<char>>,
    pub progress: Option<u8>,
    pub due_date: Option<Seq<char>>,
    pub assignee: Option<Seq<char>>,
}

impl View for CreateTodoRequest {
    type V = CreateTodoRequestV;

    open spec fn view(&self) -> CreateTodoRequestV {
        CreateTodoRequestV {
            text: self.text@,
            tab: self.tab@,
            quadrant: self.quadrant@,
            content: opt_view(self.content),
            progress: self.progress,
            due_date: opt_view(self.due_date),
            assignee: opt_view(self.assignee),
        }
    }
}

/// The tab name a creation request takes when none is given.
pub fn default_tab() -> (r: String)
    ensures
        r@ == "today"@,
{
    String::from_str("today")
}

/// The quadrant name a creation request takes when none is given.
pub fn default_quadrant() -> (r: String)
    ensures
        r@ == "not-important-not-urgent"@,
{
    String::from_str("not-important-not-urgent")
}

/// What an update request carries: each present field is applied on its
/// own, the enums by their wire names.
#[derive(Debug)]
pub struct UpdateTodoRequest {
    pub text: Option<String>,
    pub content: Option<String>,
    pub tab: Option<String>,
    pub quadrant: Option<String>,
    pub progress: Option<u8>,
    pub completed: Option<bool>,
    pub due_date: Option<String>,
    pub assignee: Option<String>,
    pub tags: Option<Vec<String>>,
}

/// The patch an update request denotes, the enums read leniently.
pub open spec fn spec_update_of_request(r: UpdateTodoRequest) -> TodoUpdateV {
    TodoUpdateV {
        text: opt_view(r.text),
        content: opt_view(r.content),
        tab: match r.tab {
            Some(s) => Some(spec_parse_tab(s@)),
            None => None,
        },
        quadrant: match r.quadrant {
            Some(s) => Some(spec_parse_quadrant(s@)),
            None => None,
        },
        progress: r.progress,
        completed: r.completed,
        due_date: opt_view(r.due_date),
        assignee: opt_view(r.assignee),
        tags: match r.tags {
            Some(ts) => Some(ts@.map_values(|s: String| s@)),
            None => None,
        },
    }
}

impl UpdateTodoRequest {
    /// The patch this request denotes.
    pub fn into_update(self) -> (r: TodoUpdate)
        ensures
            r@ == spec_update_of_request(self),
    {
        TodoUpdate {
            text: self.text,
            content: self.content,
            tab: match self.tab {
                Some(s) => Some(parse_tab(s.as_str())),
                None => None,
            },
            quadrant: match self.quadrant {
                Some(s) => Some(parse_quadrant(s.as_str())),
                None => None,
            },
            progress: self.progress,
            completed: self.completed,
            due_date: self.due_date,
            assignee: self.assignee,
            tags: self.tags,
        }
    }
}

/// One entry of a batch update, as a drag-and-drop sends it.
#[derive(Debug)]
pub struct BatchUpdateItem {
    pub id: String,
    pub tab: Option<String>,
    pub quadrant: Option<String>,
    pub progress: Option<u8>,
    pub completed: Option<bool>,
}

/// The patch a batch entry denotes.
pub open spec fn spec_update_of_batch(b: BatchUpdateItem) -> TodoUpdateV {
    TodoUpdateV {
        text: None,
        content: None,
        tab: match b.tab {
            Some(s) => Some(spec_parse_tab(s@)),
            None => None,
        },
        quadrant: match b.quadrant {
            Some(s) => Some(spec_parse_quadrant(s@)),
            None => None,
        },
        progress: b.progress,
        completed: b.completed,
        due_date: None,
        assignee: None,
        tags: None,
    }
}

/// What a batch leaves: each entry applied in order to the item carrying
/// its identifier, unknown identifiers skipped, and how many were
/// applied.
pub open spec fn spec_batch(s: Seq<TodoV>, ups: Seq<BatchUpdateItem>, ts: Seq<char>) -> (
    Seq<TodoV>,
    int,
)
    decreases ups.len(),
{
    if ups.len() == 0 {
        (s, 0)
    } else {
        let (s1, n) = spec_batch(s, ups.drop_last(), ts);
        let u = ups.last();
        if spec_has_id(s1, u.id@) {
            (spec_db_after_update(s1, u.id@, spec_update_of_batch(u), ts), n + 1)
        } else {
            (s1, n)
        }
    }
}

/// What creating a todo from a request leaves: a fresh task under the
/// given identifier and time, the optional fields applied (content, due
/// date and assignee set directly; progress through its usual rule).
pub open spec fn spec_create_todo(req: CreateTodoRequestV, id: Seq<char>, ts: Seq<char>) -> TodoV {
    let base = TodoV {
        id: id,
        text: req.text,
        content: Seq::<char>::empty(),
        tab: spec_parse_tab(req.tab),
        quadrant: spec_parse_quadrant(req.quadrant),
        progress: 0,
        completed: false,
        completed_at: None,
        due_date: None,
        assignee: Seq::<char>::empty(),
        tags: Seq::<Seq<char>>::empty(),
        created_at: ts,
        updated_at: ts,
        changelog: Seq::<crate::todo::ChangeEntryV>::empty(),
        deleted: false,
        deleted_at: None,
    };
    let t1 = match req.content {
        Some(c) => TodoV { content: c, ..base },
        None => base,
    };
    let t2 = match req.progress {
        Some(p) => spec_set_progress(t1, p, ts),
        None => t1,
    };
    let t3 = match req.due_date {
        Some(d) => TodoV { due_date: Some(d), ..t2 },
        None => t2,
    };
    match req.assignee {
        Some(a) => TodoV { assignee: a, ..t3 },
        None => t3,
    }
}

/// Lists todos: all live items, or the live items of the named tab.
pub fn get_todos(db: &TodoDb, tab: Option<String>) -> (r: TodosResponse)
    ensures
        r.success,
        r.message is None,
        match tab {
            Some(t) => r.items@.map_values(|t: Todo| t@) == spec_by_tab(
                db@,
                spec_parse_tab(t@),
            ),
            None => r.items@.map_values(|t: Todo| t@) == spec_live(db@),
        },
{
    let items = match &tab {
        Some(t) => {
            let tb = parse_tab(t.as_str());
            db.filter_by_tab(&tb)
        },
        None => db.all(),
    };
    TodosResponse { success: true, items, message: None }
}

/// Fetches one todo by identifier, deleted or not; an unknown
/// identifier is a failure reply naming it.
pub fn get_todo(db: &TodoDb, id: String) -> (r: TodoResponse)
    ensures
        spec_has_id(db@, id@) ==> r.success && (r.item matches Some(t) && t@ == db@[spec_index_of(
            db@,
            id@,
        )]) && r.message is None,
        !spec_has_id(db@, id@) ==> !r.success && r.item is None && (r.message matches Some(m)
            && m@ == "任务不存在: "@ + id@),
{
    match db.get(id.as_str()) {
        Some(t) => TodoResponse { success: true, item: Some(t.clone()), message: None },
        None => TodoResponse {
            success: false,
            item: None,
            message: Some(String::from_str("任务不存在: ").concat(id.as_str())),
        },
    }
}

/// Creates a todo under the given identifier and time and upserts it
/// into the store, as `spec_create_todo` says.
pub fn create_todo_at(db: &mut TodoDb, request: CreateTodoRequest, id: String, now: String) -> (r:
    TodoResponse)
    requires
        old(db).wf(),
    ensures
        db_unchanged_shape(old(db), final(db)),
        final(db)@ == crate::db::spec_upsert(old(db)@, spec_create_todo(request@, id@, now@)),
        r.success,
        r.item matches Some(t) && t@ == spec_create_todo(request@, id@, now@),
        r.message matches Some(m) && m@ == "任务创建成功"@,
{
    let tab = parse_tab(request.tab.as_str());
    let quadrant = parse_quadrant(request.quadrant.as_str());
    let mut todo = Todo::new_at(id, request.text, tab, quadrant, now.clone());
    if let Some(content) = request.content {
        todo.content = content;
    }
    if let Some(progress) = request.progress {
        todo.set_progress_at(progress, now.as_str());
    }
    if let Some(due_date) = request.due_date {
        todo.due_date = Some(due_date);
    }
    if let Some(assignee) = request.assignee {
        todo.assignee = assignee;
    }
    let out = todo.clone();
    db.insert(todo);
    TodoResponse {
        success: true,
        item: Some(out),
        message: Some(String::from_str("任务创建成功")),
    }
}

/// The store keeps its invariant and its path.
pub open spec fn db_unchanged_shape(before: &TodoDb, after: &TodoDb) -> bool {
    after.wf() && after.spec_path() == before.spec_path()
}

/// Creates a todo with a generated identifier and the current time.
pub fn create_todo(db: &mut TodoDb, request: CreateTodoRequest) -> (r: TodoResponse)
    requires
        old(db).wf(),
    ensures
        db_unchanged_shape(old(db), final(db)),
        r.success,
        r.message matches Some(m) && m@ == "任务创建成功"@,
        exists|id: Seq<char>, ts: Seq<char>|
            #![trigger spec_create_todo(request@, id, ts)]
            {
                &&& id.len() == 8
                &&& final(db)@ == crate::db::spec_upsert(
                    old(db)@,
                    spec_create_todo(request@, id, ts),
                )
                &&& r.item matches Some(t) && t@ == spec_create_todo(request@, id, ts)
            },
{
    let id = crate::fresh::fresh_id();
    let now = now_rfc3339();
    create_todo_at(db, request, id, now)
}

/// Applies an update request to the item carrying the identifier at the
/// given time; an unknown identifier is reported and changes nothing.
pub fn update_todo_at(db: &mut TodoDb, id: String, request: UpdateTodoRequest, now: &str) -> (r:
    Result<TodoResponse, DbError>)
    requires
        old(db).wf(),
    ensures
        db_unchanged_shape(old(db), final(db)),
        match r {
            Ok(resp) => spec_has_id(old(db)@, id@) && final(db)@ == spec_db_after_update(
                old(db)@,
                id@,
                spec_update_of_request(request),
                now@,
            ) && resp.success && (resp.item matches Some(t) && t@
                == crate::todo::spec_apply_update(
                old(db)@[spec_index_of(old(db)@, id@)],
                spec_update_of_request(request),
                now@,
            )) && (resp.message matches Some(m) && m@ == "任务更新成功"@),
            Err(e) => !spec_has_id(old(db)@, id@) && final(db)@ == old(db)@ && (
            e matches DbError::NotFound(s) && s@ == id@),
        },
{
    let update = request.into_update();
    let updated = match db.apply_update(id.as_str(), update, now) {
        Ok(t) => t,
        Err(e) => {
            return Err(e);
        },
    };
    proof {
        crate::db::lemma_index_of(old(db)@, id@);
    }
    Ok(
        TodoResponse {
            success: true,
            item: Some(updated),
            message: Some(String::from_str("任务更新成功")),
        },
    )
}

/// Applies an update request at the current time.
pub fn update_todo(db: &mut TodoDb, id: String, request: UpdateTodoRequest) -> (r: Result<
    TodoResponse,
    DbError,
>)
    requires
        old(db).wf(),
    ensures
        db_unchanged_shape(old(db), final(db)),
        match r {
            Ok(resp) => spec_has_id(old(db)@, id@) && resp.success && (resp.message matches Some(m)
                && m@ == "任务更新成功"@) && exists|ts: Seq<char>|
                #![trigger spec_db_after_update(old(db)@, id@, spec_update_of_request(request), ts)]
                {
                    &&& final(db)@ == spec_db_after_update(
                        old(db)@,
                        id@,
                        spec_update_of_request(request),
                        ts,
                    )
                    &&& resp.item matches Some(t) && t@ == crate::todo::spec_apply_update(
                        old(db)@[spec_index_of(old(db)@, id@)],
                        spec_update_of_request(request),
                        ts,
                    )
                },
            Err(e) => !spec_has_id(old(db)@, id@) && final(db)@ == old(db)@ && (
            e matches DbError::NotFound(s) && s@ == id@),
        },
{
    let now = now_rfc3339();
    update_todo_at(db, id, request, now.as_str())
}

/// Soft-deletes the item carrying the identifier at the given time.
pub fn delete_todo_at(db: &mut TodoDb, id: String, now: &str) -> (r: Result<
    SimpleResponse,
    DbError,
>)
    requires
        old(db).wf(),
    ensures
        db_unchanged_shape(old(db), final(db)),
        match r {
            Ok(resp) => spec_has_id(old(db)@, id@) && final(db)@ == old(db)@.update(
                spec_index_of(old(db)@, id@),
                crate::todo::spec_soft_delete(old(db)@[spec_index_of(old(db)@, id@)], now@),
            ) && resp.success && (resp.message matches Some(m) && m@ == "任务已删除"@),
            Err(e) => !spec_has_id(old(db)@, id@) && final(db)@ == old(db)@ && (
            e matches DbError::NotFound(s) && s@ == id@),
        },
{
    match db.soft_delete(id.as_str(), now) {
        Ok(_) => Ok(
            SimpleResponse { success: true, message: Some(String::from_str("任务已删除")) },
        ),
        Err(e) => Err(e),
    }
}

/// Soft-deletes the item carrying the identifier.
pub fn delete_todo(db: &mut TodoDb, id: String) -> (r: Result<SimpleResponse, DbError>)
    requires
        old(db).wf(),
    ensures
        db_unchanged_shape(old(db), final(db)),
        match r {
            Ok(resp) => spec_has_id(old(db)@, id@) && resp.success && (resp.message matches Some(m)
                && m@ == "任务已删除"@) && exists|ts: Seq<char>|
                final(db)@ == old(db)@.update(
                    spec_index_of(old(db)@, id@),
                    #[trigger] crate::todo::spec_soft_delete(
                        old(db)@[spec_index_of(old(db)@, id@)],
                        ts,
                    ),
                ),
            Err(e) => !spec_has_id(old(db)@, id@) && final(db)@ == old(db)@ && (
            e matches DbError::NotFound(s) && s@ == id@),
        },
{
    let now = now_rfc3339();
    delete_todo_at(db, id, now.as_str())
}

/// Restores the item carrying the identifier at the given time.
pub fn restore_todo_at(db: &mut TodoDb, id: String, now: &str) -> (r: Result<
    TodoResponse,
    DbError,
>)
    requires
        old(db).wf(),
    ensures
        db_unchanged_shape(old(db), final(db)),
        match r {
            Ok(resp) => spec_has_id(old(db)@, id@) && final(db)@ == old(db)@.update(
                spec_index_of(old(db)@, id@),
                crate::todo::spec_restore(old(db)@[spec_index_of(old(db)@, id@)], now@),
            ) && resp.success && (resp.item matches Some(t) && t@ == crate::todo::spec_restore(
                old(db)@[spec_index_of(old(db)@, id@)],
                now@,
            )) && (resp.message matches Some(m) && m@ == "任务已恢复"@),
            Err(e) => !spec_has_id(old(db)@, id@) && final(db)@ == old(db)@ && (
            e matches DbError::NotFound(s) && s@ == id@),
        },
{
    match db.restore(id.as_str(), now) {
        Ok(t) => Ok(
            TodoResponse {
                success: true,
                item: Some(t),
                message: Some(String::from_str("任务已恢复")),
            },
        ),
        Err(e) => Err(e),
    }
}

/// Restores the item carrying the identifier.
pub fn restore_todo(db: &mut TodoDb, id: String) -> (r: Result<TodoResponse, DbError>)
    requires
        old(db).wf(),
    ensures
        db_unchanged_shape(old(db), final(db)),
        match r {
            Ok(resp) => spec_has_id(old(db)@, id@) && resp.success && (resp.message matches Some(m)
                && m@ == "任务已恢复"@) && exists|ts: Seq<char>|
                #![trigger crate::todo::spec_restore(old(db)@[spec_index_of(old(db)@, id@)], ts)]
                {
                    &&& final(db)@ == old(db)@.update(
                        spec_index_of(old(db)@, id@),
                        crate::todo::spec_restore(old(db)@[spec_index_of(old(db)@, id@)], ts),
                    )
                    &&& resp.item matches Some(t) && t@ == crate::todo::spec_restore(
                        old(db)@[spec_index_of(old(db)@, id@)],
                        ts,
                    )
                },
            Err(e) => !spec_has_id(old(db)@, id@) && final(db)@ == old(db)@ && (
            e matches DbError::NotFound(s) && s@ == id@),
        },
{
    let now = now_rfc3339();
    restore_todo_at(db, id, now.as_str())
}

/// Removes the item carrying the identifier for good; an unknown
/// identifier is reported and changes nothing.
pub fn permanent_delete_todo(db: &mut TodoDb, id: String) -> (r: Result<SimpleResponse, DbError>)
    requires
        old(db).wf(),
    ensures
        db_unchanged_shape(old(db), final(db)),
        match r {
            Ok(resp) => spec_has_id(old(db)@, id@) && final(db)@ == old(db)@.remove(
                spec_index_of(old(db)@, id@),
            ) && resp.success && (resp.message matches Some(m) && m@ == "任务已永久删除"@),
            Err(e) => !spec_has_id(old(db)@, id@) && final(db)@ == old(db)@ && (
            e matches DbError::NotFound(s) && s@ == id@),
        },
{
    match db.remove(id.as_str()) {
        Some(_) => Ok(
            SimpleResponse {
                success: true,
                message: Some(String::from_str("任务已永久删除")),
            },
        ),
        None => Err(DbError::NotFound(id)),
    }
}

/// Applies a batch of updates at the given time, as `spec_batch` says:
/// each entry on its own, unknown identifiers skipped, and the reply
/// counts the applied ones.
pub fn batch_update_todos_at(db: &mut TodoDb, updates: Vec<BatchUpdateItem>, now: &str) -> (r:
    SimpleResponse)
    requires
        old(db).wf(),
    ensures
        db_unchanged_shape(old(db), final(db)),
        r.success,
        ({
            let (s2, n) = spec_batch(old(db)@, updates@, now@);
            &&& final(db)@ == s2
            &&& r.message matches Some(m) && m@ == "已更新 "@ + spec_dec(n as nat) + " 个任务"@
        }),
{
    let mut count: usize = 0;
    let mut i: usize = 0;
    proof {
        assert(updates@.take(0) =~= Seq::<BatchUpdateItem>::empty());
    }
    while i < updates.len()
        invariant
            old(db).wf(),
            0 <= i <= updates@.len(),
            count <= i,
            db.wf(),
            db.spec_path() == old(db).spec_path(),
            (db@, count as int) == spec_batch(old(db)@, updates@.take(i as int), now@),
        decreases updates@.len() - i,
    {
        let item = &updates[i];
        let update = TodoUpdate {
            text: None,
            content: None,
            tab: match &item.tab {
                Some(s) => Some(parse_tab(s.as_str())),
                None => None,
            },
            quadrant: match &item.quadrant {
                Some(s) => Some(parse_quadrant(s.as_str())),
                None => None,
            },
            progress: item.progress,
            completed: item.completed,
            due_date: None,
            assignee: None,
            tags: None,
        };
        proof {
            assert(update@ == spec_update_of_batch(updates@[i as int]));
            assert(updates@.take(i + 1).drop_last() =~= updates@.take(i as int));
            assert(updates@.take(i + 1).last() == updates@[i as int]);
        }
        match db.apply_update(item.id.as_str(), update, now) {
            Ok(_) => {
                count += 1;
            },
            Err(_) => {},
        }
        i += 1;
    }
    proof {
        assert(updates@.take(updates@.len() as int) =~= updates@);
    }
    let count_str = usize_to_dec(count);
    let message = String::from_str("已更新 ").concat(count_str.as_str()).concat(" 个任务");
    SimpleResponse { success: true, message: Some(message) }
}

/// Applies a batch of updates at the current time.
pub fn batch_update_todos(db: &mut TodoDb, updates: Vec<BatchUpdateItem>) -> (r: SimpleResponse)
    requires
        old(db).wf(),
    ensures
        db_unchanged_shape(old(db), final(db)),
        r.success,
        exists|ts: Seq<char>|
            #![trigger spec_batch(old(db)@, updates@, ts)]
            {
                &&& final(db)@ == spec_batch(old(db)@, updates@, ts).0
                &&& r.message matches Some(m) && m@ == "已更新 "@ + spec_dec(
                    spec_batch(old(db)@, updates@, ts).1 as nat,
                ) + " 个任务"@
            },
{
    let now = now_rfc3339();
    batch_update_todos_at(db, updates, now.as_str())
}

/// The open-work counts of one tab, named leniently, keyed by the
/// quadrants' wire names.
pub fn get_todo_counts(db: &TodoDb, tab: String) -> (r: CountsResponse)
    ensures
        r.success,
        r.counts@.len() == 4,
        ({
            let t = spec_parse_tab(tab@);
            &&& r.counts@[0].0@ == spec_quadrant_str_of(Quadrant::ImportantUrgent)
            &&& r.counts@[0].1 == spec_open_in(db@, t, Quadrant::ImportantUrgent).len()
            &&& r.counts@[1].0@ == spec_quadrant_str_of(Quadrant::ImportantNotUrgent)
            &&& r.counts@[1].1 == spec_open_in(db@, t, Quadrant::ImportantNotUrgent).len()
            &&& r.counts@[2].0@ == spec_quadrant_str_of(Quadrant::NotImportantUrgent)
            &&& r.counts@[2].1 == spec_open_in(db@, t, Quadrant::NotImportantUrgent).len()
            &&& r.counts@[3].0@ == spec_quadrant_str_of(Quadrant::NotImportantNotUrgent)
            &&& r.counts@[3].1 == spec_open_in(db@, t, Quadrant::NotImportantNotUrgent).len()
        }),
{
    let t = parse_tab(tab.as_str());
    let counts = db.count_by_quadrant(&t);
    CountsResponse { success: true, counts }
}

/// The reply to a listing of routines.
#[derive(Debug)]
pub struct RoutinesResponse {
    pub success: bool,
    pub items: Vec<Routine>,
    pub message: Option<String>,
}

/// The reply to an operation on one routine.
#[derive(Debug)]
pub struct RoutineResponse {
    pub success: bool,
    pub item: Option<Routine>,
    pub message: Option<String>,
}

/// The reply to a routine operation with no payload.
#[derive(Debug)]
pub struct RoutineSimpleResponse {
    pub success: bool,
    pub message: Option<String>,
}

/// What a routine creation request carries.
#[derive(Debug)]
pub struct CreateRoutineRequest {
    pub text: String,
}

/// Lists every routine.
pub fn get_routines(db: &RoutineDb) -> (r: RoutinesResponse)
    ensures
        r.success,
        r.message is None,
        r.items@.map_values(|t: Routine| t@) == db@,
{
    RoutinesResponse { success: true, items: db.all(), message: None }
}

/// What a creation request makes of a routine: not completed, no
/// recorded day, created at the given time.
pub open spec fn spec_created_routine(text: Seq<char>, id: Seq<char>, ts: Seq<char>) -> RoutineV {
    RoutineV {
        id: id,
        text: text,
        completed_today: false,
        last_completed_date: None,
        created_at: ts,
    }
}

/// Creates a routine under the given identifier and time and upserts it
/// into the store.
pub fn create_routine_at(db: &mut RoutineDb, request: CreateRoutineRequest, id: String, now: String)
    -> (r: RoutineResponse)
    requires
        old(db).wf(),
    ensures
        final(db).wf(),
        final(db).spec_path() == old(db).spec_path(),
        final(db)@ == crate::db::spec_r_upsert(
            old(db)@,
            spec_created_routine(request.text@, id@, now@),
        ),
        r.success,
        r.item matches Some(t) && t@ == spec_created_routine(request.text@, id@, now@),
        r.message matches Some(m) && m@ == "日常任务创建成功"@,
{
    let routine = Routine::new_at(id, request.text, now);
    let out = routine.clone();
    db.insert(routine);
    RoutineResponse {
        success: true,
        item: Some(out),
        message: Some(String::from_str("日常任务创建成功")),
    }
}

/// Creates a routine with a generated identifier and the current time.
pub fn create_routine(db: &mut RoutineDb, request: CreateRoutineRequest) -> (r: RoutineResponse)
    requires
        old(db).wf(),
    ensures
        final(db).wf(),
        final(db).spec_path() == old(db).spec_path(),
        r.success,
        r.message matches Some(m) && m@ == "日常任务创建成功"@,
        exists|id: Seq<char>, ts: Seq<char>|
            #![trigger spec_created_routine(request.text@, id, ts)]
            {
                &&& id.len() == 8
                &&& final(db)@ == crate::db::spec_r_upsert(
                    old(db)@,
                    spec_created_routine(request.text@, id, ts),
                )
                &&& r.item matches Some(t) && t@ == spec_created_routine(request.text@, id, ts)
            },
{
    let id = crate::fresh::fresh_id();
    let now = now_rfc3339();
    create_routine_at(db, request, id, now)
}

/// Toggles the routine carrying the identifier for the given day; the
/// reply says whether it is now completed.
pub fn toggle_routine_on(db: &mut RoutineDb, id: String, today: &str) -> (r: Result<
    RoutineResponse,
    DbError,
>)
    requires
        old(db).wf(),
    ensures
        final(db).wf(),
        final(db).spec_path() == old(db).spec_path(),
        match r {
            Ok(resp) => spec_r_has_id(old(db)@, id@) && final(db)@ == old(db)@.update(
                spec_r_index_of(old(db)@, id@),
                spec_toggle(old(db)@[spec_r_index_of(old(db)@, id@)], today@),
            ) && resp.success && (resp.item matches Some(t) && t@ == spec_toggle(
                old(db)@[spec_r_index_of(old(db)@, id@)],
                today@,
            )) && (resp.message matches Some(m) && m@ == (if spec_toggle(
                old(db)@[spec_r_index_of(old(db)@, id@)],
                today@,
            ).completed_today {
                "已完成"@
            } else {
                "已取消完成"@
            })),
            Err(e) => !spec_r_has_id(old(db)@, id@) && final(db)@ == old(db)@ && (
            e matches DbError::NotFound(s) && s@ == id@),
        },
{
    let toggled = match db.toggle_on(id.as_str(), today) {
        Ok(t) => t,
        Err(e) => {
            return Err(e);
        },
    };
    let message = if toggled.completed_today {
        String::from_str("已完成")
    } else {
        String::from_str("已取消完成")
    };
    Ok(RoutineResponse { success: true, item: Some(toggled), message: Some(message) })
}

/// Toggles the routine carrying the identifier for the current day.
pub fn toggle_routine(db: &mut RoutineDb, id: String) -> (r: Result<RoutineResponse, DbError>)
    requires
        old(db).wf(),
    ensures
        final(db).wf(),
        final(db).spec_path() == old(db).spec_path(),
        match r {
            Ok(resp) => spec_r_has_id(old(db)@, id@) && resp.success && exists|today: Seq<char>|
                #![trigger spec_toggle(old(db)@[spec_r_index_of(old(db)@, id@)], today)]
                {
                    &&& final(db)@ == old(db)@.update(
                        spec_r_index_of(old(db)@, id@),
                        spec_toggle(old(db)@[spec_r_index_of(old(db)@, id@)], today),
                    )
                    &&& resp.item matches Some(t) && t@ == spec_toggle(
                        old(db)@[spec_r_index_of(old(db)@, id@)],
                        today,
                    )
                    &&& resp.message matches Some(m) && m@ == (if spec_toggle(
                        old(db)@[spec_r_index_of(old(db)@, id@)],
                        today,
                    ).completed_today {
                        "已完成"@
                    } else {
                        "已取消完成"@
                    })
                },
            Err(e) => !spec_r_has_id(old(db)@, id@) && final(db)@ == old(db)@ && (
            e matches DbError::NotFound(s) && s@ == id@),
        },
{
    let today = today_ymd();
    toggle_routine_on(db, id, today.as_str())
}

/// Removes the routine carrying the identifier for good.
pub fn delete_routine(db: &mut RoutineDb, id: String) -> (r: Result<RoutineSimpleResponse, DbError>)
    requires
        old(db).wf(),
    ensures
        final(db).wf(),
        final(db).spec_path() == old(db).spec_path(),
        match r {
            Ok(resp) => spec_r_has_id(old(db)@, id@) && final(db)@ == old(db)@.remove(
                spec_r_index_of(old(db)@, id@),
            ) && resp.success && (resp.message matches Some(m) && m@ == "日常任务已删除"@),
            Err(e) => !spec_r_has_id(old(db)@, id@) && final(db)@ == old(db)@ && (
            e matches DbError::NotFound(s) && s@ == id@),
        },
{
    match db.remove(id.as_str()) {
        Some(_) => Ok(
            RoutineSimpleResponse {
                success: true,
                message: Some(String::from_str("日常任务已删除")),
            },
        ),
        None => Err(DbError::NotFound(id)),
    }
}

} // verus!
