//! The stores: an in-memory, unique-key index of todos or routines,
//! bound to the path of the document it was read from, with the
//! deterministic save-time ordering of todos.

use vstd::prelude::*;
use vstd::multiset::Multiset;

use crate::codec::{
    routines_to_doc, routines_of_doc, spec_routines_doc, spec_todos_doc, todos_of_doc, todos_to_doc,
};
use crate::json::Json;
use crate::routine::{Routine, RoutineV, spec_daily_reset};
use crate::text::{spec_lex_le, lex_le, str_eq};
use crate::todo::{Quadrant, Tab, Todo, TodoV, TodoUpdate, spec_apply_update, spec_soft_delete, spec_restore};
use crate::DbError;

verus! {

/// Whether some item of the sequence carries the identifier.
pub open spec fn spec_has_id(s: Seq<TodoV>, id: Seq<char>) -> bool {
    spec_index_of(s, id) != -1
}

/// The first position carrying the identifier, or -1.
pub open spec fn spec_index_of(s: Seq<TodoV>, id: Seq<char>) -> int
    decreases s.len(),
{
    if s.len() == 0 {
        -1
    } else if s[0].id == id {
        0
    } else {
        let r = spec_index_of(s.skip(1), id);
        if r == -1 {
            -1
        } else {
            r + 1
        }
    }
}

/// What `spec_index_of` finds: a position carrying the identifier, or
/// nothing anywhere.
pub proof fn lemma_index_of(s: Seq<TodoV>, id: Seq<char>)
    ensures
        spec_index_of(s, id) == -1 ==> forall|j: int|
            0 <= j < s.len() ==> (#[trigger] s[j]).id != id,
        spec_index_of(s, id) != -1 ==> 0 <= spec_index_of(s, id) < s.len() && s[spec_index_of(
            s,
            id,
        )].id == id,
    decreases s.len(),
{
    if s.len() > 0 && s[0].id != id {
        lemma_index_of(s.skip(1), id);
        if spec_index_of(s, id) == -1 {
            assert forall|j: int| 0 <= j < s.len() implies (#[trigger] s[j]).id != id by {
                if j > 0 {
                    assert(s.skip(1)[j - 1] == s[j]);
                }
            }
        } else {
            assert(s.skip(1)[spec_index_of(s.skip(1), id)] == s[spec_index_of(s, id)]);
        }
    }
}

/// The first match is at `i` when nothing before `i` matches.
pub proof fn lemma_index_of_first(s: Seq<TodoV>, id: Seq<char>, i: int)
    requires
        0 <= i < s.len(),
        s[i].id == id,
        forall|j: int| 0 <= j < i ==> (#[trigger] s[j]).id != id,
    ensures
        spec_index_of(s, id) == i,
    decreases i,
{
    if i > 0 {
        assert(s[0].id != id);
        lemma_index_of_first(s.skip(1), id, i - 1);
        assert(s.skip(1)[i - 1] == s[i]);
        assert forall|j: int| 0 <= j < i - 1 implies (#[trigger] s.skip(1)[j]).id != id by {
            assert(s.skip(1)[j] == s[j + 1]);
        }
    }
}

/// No two items of the sequence share an identifier.
pub open spec fn spec_unique_ids(s: Seq<TodoV>) -> bool {
    forall|i: int, j: int|
        0 <= i < j < s.len() ==> (#[trigger] s[i]).id != (#[trigger] s[j]).id
}

/// What an upsert leaves: the item replaces the one carrying its
/// identifier, or is appended.
pub open spec fn spec_upsert(s: Seq<TodoV>, t: TodoV) -> Seq<TodoV> {
    if spec_has_id(s, t.id) {
        s.update(spec_index_of(s, t.id), t)
    } else {
        s.push(t)
    }
}

/// The index built over a list read from a document: every item
/// upserted in order, so a later duplicate identifier wins.
pub open spec fn spec_index_seq(items: Seq<TodoV>) -> Seq<TodoV>
    decreases items.len(),
{
    if items.len() == 0 {
        Seq::<TodoV>::empty()
    } else {
        spec_upsert(spec_index_seq(items.drop_last()), items.last())
    }
}

/// An upsert keeps identifiers unique.
pub proof fn lemma_upsert_unique(s: Seq<TodoV>, t: TodoV)
    requires
        spec_unique_ids(s),
    ensures
        spec_unique_ids(spec_upsert(s, t)),
{
    lemma_index_of(s, t.id);
}

/// The id-indexed todo store, bound to the path it was read from.
#[derive(Debug)]
pub struct TodoDb {
    items: Vec<Todo>,
    path: String,
}

impl View for TodoDb {
    type V = Seq<TodoV>;

    closed spec fn view(&self) -> Seq<TodoV> {
        self.items@.map_values(|t: Todo| t@)
    }
}

impl TodoDb {
    /// The path this store reads from and writes to.
    pub closed spec fn spec_path(&self) -> Seq<char> {
        self.path@
    }

    /// Identifiers are unique in the store.
    pub open spec fn wf(&self) -> bool {
        spec_unique_ids(self@)
    }

    /// The bound path.
    pub fn path(&self) -> (r: &str)
        ensures
            r@ == self.spec_path(),
    {
        self.path.as_str()
    }

    /// The empty store bound to a path.
    pub fn new_empty(path: String) -> (r: Self)
        ensures
            r@ == Seq::<TodoV>::empty(),
            r.spec_path() == path@,
            r.wf(),
    {
        let r = TodoDb { items: Vec::new(), path };
        proof {
            assert(r@ =~= Seq::<TodoV>::empty());
        }
        r
    }

    /// Builds a store from a loaded document, or the empty store where
    /// the file was absent. Items are indexed in order, a later
    /// duplicate identifier winning, as `spec_index_seq` says.
    pub fn from_doc(path: String, doc: Option<&Json>) -> (r: Result<Self, DbError>)
        ensures
            match r {
                Ok(db) => db.wf() && db.spec_path() == path@ && match doc {
                    None => db@ == Seq::<TodoV>::empty(),
                    Some(j) => spec_todos_doc(*j) matches Some(items) && db@ == spec_index_seq(
                        items,
                    ),
                },
                Err(e) => doc matches Some(j) && spec_todos_doc(*j) is None && e is Parse,
            },
    {
        let j = match doc {
            None => {
                return Ok(Self::new_empty(path));
            },
            Some(j) => j,
        };
        let loaded = match todos_of_doc(j) {
            Ok(v) => v,
            Err(e) => {
                return Err(e);
            },
        };
        let ghost loaded_v = loaded@.map_values(|t: Todo| t@);
        let mut db = Self::new_empty(path);
        let mut i: usize = 0;
        proof {
            assert(loaded_v.take(0) =~= Seq::<TodoV>::empty());
        }
        while i < loaded.len()
            invariant
                0 <= i <= loaded@.len(),
                loaded_v == loaded@.map_values(|t: Todo| t@),
                db@ == spec_index_seq(loaded_v.take(i as int)),
                db.wf(),
                db.spec_path() == path@,
            decreases loaded@.len() - i,
        {
            let t = loaded[i].clone();
            db.insert(t);
            proof {
                assert(loaded_v.take(i + 1).drop_last() =~= loaded_v.take(i as int));
                assert(loaded_v.take(i + 1).last() == loaded_v[i as int]);
            }
            i += 1;
        }
        proof {
            assert(loaded_v.take(loaded@.len() as int) =~= loaded_v);
        }
        Ok(db)
    }

    /// The position of the identifier, as `spec_index_of` says.
    fn find_index(&self, id: &str) -> (r: Option<usize>)
        ensures
            match r {
                Some(i) => spec_index_of(self@, id@) == i as int && i < self@.len(),
                None => spec_index_of(self@, id@) == -1,
            },
    {
        let mut i: usize = 0;
        while i < self.items.len()
            invariant
                0 <= i <= self@.len(),
                self@.len() == self.items@.len(),
                forall|j: int| 0 <= j < i ==> (#[trigger] self@[j]).id != id@,
            decreases self@.len() - i,
        {
            if str_eq(self.items[i].id.as_str(), id) {
                proof {
                    lemma_index_of_first(self@, id@, i as int);
                }
                return Some(i);
            }
            i += 1;
        }
        proof {
            lemma_index_of(self@, id@);
            if spec_index_of(self@, id@) != -1 {
                assert(self@[spec_index_of(self@, id@)].id == id@);
            }
        }
        None
    }

    /// Looks an item up by identifier, deleted or not.
    pub fn get(&self, id: &str) -> (r: Option<&Todo>)
        ensures
            match r {
                Some(t) => spec_has_id(self@, id@) && t@ == self@[spec_index_of(self@, id@)],
                None => !spec_has_id(self@, id@),
            },
    {
        match self.find_index(id) {
            Some(i) => Some(&self.items[i]),
            None => None,
        }
    }

    /// Borrows the item carrying the identifier for mutation. The store
    /// afterwards holds whatever the caller made of the borrow; keeping
    /// identifiers unique is then the caller's business.
    pub fn get_mut(&mut self, id: &str) -> (r: Option<&mut Todo>)
        ensures
            match r {
                Some(t) => spec_has_id(old(self)@, id@) && (*t)@ == old(self)@[spec_index_of(
                    old(self)@,
                    id@,
                )] && final(self)@ == old(self)@.update(
                    spec_index_of(old(self)@, id@),
                    final(t)@,
                ),
                None => !spec_has_id(old(self)@, id@) && final(self)@ == old(self)@,
            },
            final(self).spec_path() == old(self).spec_path(),
    {
        match self.find_index(id) {
            Some(i) => Some(&mut self.items[i]),
            None => None,
        }
    }

    /// Upserts an item by its identifier, as `spec_upsert` says.
    pub fn insert(&mut self, todo: Todo)
        requires
            old(self).wf(),
        ensures
            final(self)@ == spec_upsert(old(self)@, todo@),
            final(self).wf(),
            final(self).spec_path() == old(self).spec_path(),
    {
        proof {
            lemma_upsert_unique(self@, todo@);
        }
        match self.find_index(todo.id.as_str()) {
            Some(i) => {
                vstd::pervasive::VecAdditionalExecFns::set(&mut self.items, i, todo);
                proof {
                    assert(self@ =~= spec_upsert(old(self)@, todo@));
                }
            },
            None => {
                self.items.push(todo);
                proof {
                    assert(self@ =~= spec_upsert(old(self)@, todo@));
                }
            },
        }
    }

    /// Removes an item permanently, returning it; absent identifiers
    /// leave the store alone.
    pub fn remove(&mut self, id: &str) -> (r: Option<Todo>)
        ensures
            match r {
                Some(t) => spec_has_id(old(self)@, id@) && t@ == old(self)@[spec_index_of(
                    old(self)@,
                    id@,
                )] && final(self)@ == old(self)@.remove(spec_index_of(old(self)@, id@)),
                None => !spec_has_id(old(self)@, id@) && final(self)@ == old(self)@,
            },
            old(self).wf() ==> final(self).wf(),
            final(self).spec_path() == old(self).spec_path(),
    {
        match self.find_index(id) {
            Some(i) => {
                let t = self.items.remove(i);
                proof {
                    assert(self@ =~= old(self)@.remove(i as int));
                    if old(self).wf() {
                        assert forall|a: int, b: int|
                            0 <= a < b < self@.len() implies (#[trigger] self@[a]).id != (
                        #[trigger] self@[b]).id by {
                            assert(self@[a] == old(self)@.remove(i as int)[a]);
                        }
                    }
                }
                Some(t)
            },
            None => None,
        }
    }
}

/// The items a listing shows: the ones not soft-deleted.
pub open spec fn spec_live(s: Seq<TodoV>) -> Seq<TodoV> {
    s.filter(|t: TodoV| !t.deleted)
}

/// The soft-deleted items.
pub open spec fn spec_deleted(s: Seq<TodoV>) -> Seq<TodoV> {
    s.filter(|t: TodoV| t.deleted)
}

/// The live items of one tab.
pub open spec fn spec_by_tab(s: Seq<TodoV>, tab: Tab) -> Seq<TodoV> {
    s.filter(|t: TodoV| !t.deleted && t.tab == tab)
}

/// The live items of one quadrant.
pub open spec fn spec_by_quadrant(s: Seq<TodoV>, quadrant: Quadrant) -> Seq<TodoV> {
    s.filter(|t: TodoV| !t.deleted && t.quadrant == quadrant)
}

/// The live items of one tab and quadrant.
pub open spec fn spec_by_tab_and_quadrant(s: Seq<TodoV>, tab: Tab, quadrant: Quadrant) -> Seq<
    TodoV,
> {
    s.filter(|t: TodoV| !t.deleted && t.tab == tab && t.quadrant == quadrant)
}

/// The open work of one tab and quadrant: neither deleted nor
/// completed.
pub open spec fn spec_open_in(s: Seq<TodoV>, tab: Tab, quadrant: Quadrant) -> Seq<TodoV> {
    s.filter(|t: TodoV| !t.deleted && !t.completed && t.tab == tab && t.quadrant == quadrant)
}

/// The save-time order: incomplete before completed, then ascending by
/// creation time.
pub open spec fn spec_save_le(a: TodoV, b: TodoV) -> bool {
    if a.completed == b.completed {
        spec_lex_le(a.created_at, b.created_at)
    } else {
        !a.completed
    }
}

/// The save-time order is total.
pub proof fn lemma_save_le_total(a: TodoV, b: TodoV)
    ensures
        spec_save_le(a, b) || spec_save_le(b, a),
{
    crate::text::lemma_lex_le_total(a.created_at, b.created_at);
}

/// The save-time order is transitive.
pub proof fn lemma_save_le_trans(a: TodoV, b: TodoV, c: TodoV)
    requires
        spec_save_le(a, b),
        spec_save_le(b, c),
    ensures
        spec_save_le(a, c),
{
    if a.completed == b.completed && b.completed == c.completed {
        crate::text::lemma_lex_le_trans(a.created_at, b.created_at, c.created_at);
    }
}

/// Every pair of the sequence stands in the save-time order.
pub open spec fn spec_sorted_save(s: Seq<TodoV>) -> bool {
    forall|i: int, j: int| 0 <= i < j < s.len() ==> spec_save_le(#[trigger] s[i], #[trigger] s[j])
}

/// Decides the save-time order.
fn todo_le(a: &Todo, b: &Todo) -> (r: bool)
    ensures
        r == spec_save_le(a@, b@),
{
    if a.completed == b.completed {
        lex_le(a.created_at.as_str(), b.created_at.as_str())
    } else {
        !a.completed
    }
}

impl TodoDb {
    /// All items that are not soft-deleted, in store order.
    pub fn all(&self) -> (r: Vec<Todo>)
        ensures
            r@.map_values(|t: Todo| t@) == spec_live(self@),
    {
        let mut out: Vec<Todo> = Vec::new();
        let mut i: usize = 0;
        proof {
            reveal(Seq::filter);
            assert(self@.take(0) =~= Seq::<TodoV>::empty());
            assert(out@.map_values(|t: Todo| t@) =~= spec_live(self@.take(0)));
        }
        while i < self.items.len()
            invariant
                0 <= i <= self@.len(),
                self@.len() == self.items@.len(),
                self@ == self.items@.map_values(|t: Todo| t@),
                out@.map_values(|t: Todo| t@) == spec_live(self@.take(i as int)),
            decreases self@.len() - i,
        {
            proof {
                reveal(Seq::filter);
                assert(self@.take(i + 1).drop_last() =~= self@.take(i as int));
                assert(self@.take(i + 1).last() == self@[i as int]);
            }
            if !self.items[i].deleted {
                let ghost prev = out@;
                out.push(self.items[i].clone());
                proof {
                    assert(out@.map_values(|t: Todo| t@) =~= prev.map_values(|t: Todo| t@).push(
                        out@.last()@,
                    ));
                }
            }
            i += 1;
        }
        proof {
            assert(self@.take(self@.len() as int) =~= self@);
        }
        out
    }

    /// The soft-deleted items, in store order.
    pub fn deleted(&self) -> (r: Vec<Todo>)
        ensures
            r@.map_values(|t: Todo| t@) == spec_deleted(self@),
    {
        let mut out: Vec<Todo> = Vec::new();
        let mut i: usize = 0;
        proof {
            reveal(Seq::filter);
            assert(self@.take(0) =~= Seq::<TodoV>::empty());
            assert(out@.map_values(|t: Todo| t@) =~= spec_deleted(self@.take(0)));
        }
        while i < self.items.len()
            invariant
                0 <= i <= self@.len(),
                self@.len() == self.items@.len(),
                self@ == self.items@.map_values(|t: Todo| t@),
                out@.map_values(|t: Todo| t@) == spec_deleted(self@.take(i as int)),
            decreases self@.len() - i,
        {
            proof {
                reveal(Seq::filter);
                assert(self@.take(i + 1).drop_last() =~= self@.take(i as int));
                assert(self@.take(i + 1).last() == self@[i as int]);
            }
            if self.items[i].deleted {
                let ghost prev = out@;
                out.push(self.items[i].clone());
                proof {
                    assert(out@.map_values(|t: Todo| t@) =~= prev.map_values(|t: Todo| t@).push(
                        out@.last()@,
                    ));
                }
            }
            i += 1;
        }
        proof {
            assert(self@.take(self@.len() as int) =~= self@);
        }
        out
    }

    /// The live items of one tab, in store order.
    pub fn filter_by_tab(&self, tab: &Tab) -> (r: Vec<Todo>)
        ensures
            r@.map_values(|t: Todo| t@) == spec_by_tab(self@, *tab),
    {
        let mut out: Vec<Todo> = Vec::new();
        let mut i: usize = 0;
        proof {
            reveal(Seq::filter);
            assert(self@.take(0) =~= Seq::<TodoV>::empty());
            assert(out@.map_values(|t: Todo| t@) =~= spec_by_tab(self@.take(0), *tab));
        }
        while i < self.items.len()
            invariant
                0 <= i <= self@.len(),
                self@.len() == self.items@.len(),
                self@ == self.items@.map_values(|t: Todo| t@),
                out@.map_values(|t: Todo| t@) == spec_by_tab(self@.take(i as int), *tab),
            decreases self@.len() - i,
        {
            proof {
                reveal(Seq::filter);
                assert(self@.take(i + 1).drop_last() =~= self@.take(i as int));
                assert(self@.take(i + 1).last() == self@[i as int]);
            }
            if !self.items[i].deleted && self.items[i].tab == *tab {
                let ghost prev = out@;
                out.push(self.items[i].clone());
                proof {
                    assert(out@.map_values(|t: Todo| t@) =~= prev.map_values(|t: Todo| t@).push(
                        out@.last()@,
                    ));
                }
            }
            i += 1;
        }
        proof {
            assert(self@.take(self@.len() as int) =~= self@);
        }
        out
    }

    /// The live items of one quadrant, in store order.
    pub fn filter_by_quadrant(&self, quadrant: &Quadrant) -> (r: Vec<Todo>)
        ensures
            r@.map_values(|t: Todo| t@) == spec_by_quadrant(self@, *quadrant),
    {
        let mut out: Vec<Todo> = Vec::new();
        let mut i: usize = 0;
        proof {
            reveal(Seq::filter);
            assert(self@.take(0) =~= Seq::<TodoV>::empty());
            assert(out@.map_values(|t: Todo| t@) =~= spec_by_quadrant(self@.take(0), *quadrant));
        }
        while i < self.items.len()
            invariant
                0 <= i <= self@.len(),
                self@.len() == self.items@.len(),
                self@ == self.items@.map_values(|t: Todo| t@),
                out@.map_values(|t: Todo| t@) == spec_by_quadrant(self@.take(i as int), *quadrant),
            decreases self@.len() - i,
        {
            proof {
                reveal(Seq::filter);
                assert(self@.take(i + 1).drop_last() =~= self@.take(i as int));
                assert(self@.take(i + 1).last() == self@[i as int]);
            }
            if !self.items[i].deleted && self.items[i].quadrant == *quadrant {
                let ghost prev = out@;
                out.push(self.items[i].clone());
                proof {
                    assert(out@.map_values(|t: Todo| t@) =~= prev.map_values(|t: Todo| t@).push(
                        out@.last()@,
                    ));
                }
            }
            i += 1;
        }
        proof {
            assert(self@.take(self@.len() as int) =~= self@);
        }
        out
    }

    /// The live items of one tab and quadrant, in store order.
    pub fn filter_by_tab_and_quadrant(&self, tab: &Tab, quadrant: &Quadrant) -> (r: Vec<Todo>)
        ensures
            r@.map_values(|t: Todo| t@) == spec_by_tab_and_quadrant(self@, *tab, *quadrant),
    {
        let mut out: Vec<Todo> = Vec::new();
        let mut i: usize = 0;
        proof {
            reveal(Seq::filter);
            assert(self@.take(0) =~= Seq::<TodoV>::empty());
            assert(out@.map_values(|t: Todo| t@) =~= spec_by_tab_and_quadrant(
                self@.take(0),
                *tab,
                *quadrant,
            ));
        }
        while i < self.items.len()
            invariant
                0 <= i <= self@.len(),
                self@.len() == self.items@.len(),
                self@ == self.items@.map_values(|t: Todo| t@),
                out@.map_values(|t: Todo| t@) == spec_by_tab_and_quadrant(
                    self@.take(i as int),
                    *tab,
                    *quadrant,
                ),
            decreases self@.len() - i,
        {
            proof {
                reveal(Seq::filter);
                assert(self@.take(i + 1).drop_last() =~= self@.take(i as int));
                assert(self@.take(i + 1).last() == self@[i as int]);
            }
            if !self.items[i].deleted && self.items[i].tab == *tab && self.items[i].quadrant
                == *quadrant {
                let ghost prev = out@;
                out.push(self.items[i].clone());
                proof {
                    assert(out@.map_values(|t: Todo| t@) =~= prev.map_values(|t: Todo| t@).push(
                        out@.last()@,
                    ));
                }
            }
            i += 1;
        }
        proof {
            assert(self@.take(self@.len() as int) =~= self@);
        }
        out
    }

    /// How many items a listing shows.
    pub fn len(&self) -> (r: usize)
        ensures
            r == spec_live(self@).len(),
    {
        let mut count: usize = 0;
        let mut i: usize = 0;
        proof {
            reveal(Seq::filter);
            assert(self@.take(0) =~= Seq::<TodoV>::empty());
        }
        while i < self.items.len()
            invariant
                0 <= i <= self@.len(),
                self@.len() == self.items@.len(),
                self@ == self.items@.map_values(|t: Todo| t@),
                count == spec_live(self@.take(i as int)).len(),
                count <= i,
            decreases self@.len() - i,
        {
            proof {
                reveal(Seq::filter);
                assert(self@.take(i + 1).drop_last() =~= self@.take(i as int));
                assert(self@.take(i + 1).last() == self@[i as int]);
            }
            if !self.items[i].deleted {
                count += 1;
            }
            i += 1;
        }
        proof {
            assert(self@.take(self@.len() as int) =~= self@);
        }
        count
    }

    /// Whether a listing shows nothing.
    pub fn is_empty(&self) -> (r: bool)
        ensures
            r == (spec_live(self@).len() == 0),
    {
        self.len() == 0
    }

    /// How much open work one tab and quadrant holds.
    fn count_open(&self, tab: &Tab, quadrant: &Quadrant) -> (r: usize)
        ensures
            r == spec_open_in(self@, *tab, *quadrant).len(),
    {
        let mut count: usize = 0;
        let mut i: usize = 0;
        proof {
            reveal(Seq::filter);
            assert(self@.take(0) =~= Seq::<TodoV>::empty());
        }
        while i < self.items.len()
            invariant
                0 <= i <= self@.len(),
                self@.len() == self.items@.len(),
                self@ == self.items@.map_values(|t: Todo| t@),
                count == spec_open_in(self@.take(i as int), *tab, *quadrant).len(),
                count <= i,
            decreases self@.len() - i,
        {
            proof {
                reveal(Seq::filter);
                assert(self@.take(i + 1).drop_last() =~= self@.take(i as int));
                assert(self@.take(i + 1).last() == self@[i as int]);
            }
            if !self.items[i].deleted && !self.items[i].completed && self.items[i].tab == *tab
                && self.items[i].quadrant == *quadrant {
                count += 1;
            }
            i += 1;
        }
        proof {
            assert(self@.take(self@.len() as int) =~= self@);
        }
        count
    }

    /// The open-work count of every quadrant of one tab, keyed by the
    /// quadrants' wire names, completed and deleted items not counted.
    pub fn count_by_quadrant(&self, tab: &Tab) -> (r: Vec<(String, usize)>)
        ensures
            r@.len() == 4,
            r@[0].0@ == spec_quadrant_str_of(Quadrant::ImportantUrgent) && r@[0].1 == spec_open_in(
                self@,
                *tab,
                Quadrant::ImportantUrgent,
            ).len(),
            r@[1].0@ == spec_quadrant_str_of(Quadrant::ImportantNotUrgent) && r@[1].1
                == spec_open_in(self@, *tab, Quadrant::ImportantNotUrgent).len(),
            r@[2].0@ == spec_quadrant_str_of(Quadrant::NotImportantUrgent) && r@[2].1
                == spec_open_in(self@, *tab, Quadrant::NotImportantUrgent).len(),
            r@[3].0@ == spec_quadrant_str_of(Quadrant::NotImportantNotUrgent) && r@[3].1
                == spec_open_in(self@, *tab, Quadrant::NotImportantNotUrgent).len(),
    {
        let mut out: Vec<(String, usize)> = Vec::new();
        let q1 = Quadrant::ImportantUrgent;
        let q2 = Quadrant::ImportantNotUrgent;
        let q3 = Quadrant::NotImportantUrgent;
        let q4 = Quadrant::NotImportantNotUrgent;
        out.push((String::from_str(q1.as_str()), self.count_open(tab, &q1)));
        out.push((String::from_str(q2.as_str()), self.count_open(tab, &q2)));
        out.push((String::from_str(q3.as_str()), self.count_open(tab, &q3)));
        out.push((String::from_str(q4.as_str()), self.count_open(tab, &q4)));
        out
    }
}

/// The wire name of a quadrant, as the count mapping keys it.
pub open spec fn spec_quadrant_str_of(q: Quadrant) -> Seq<char> {
    crate::todo::spec_quadrant_str(q)
}

/// Sorts todos into the save-time order by repeatedly extracting a
/// least element. The result carries the same items.
fn sort_todos(items: Vec<Todo>) -> (r: Vec<Todo>)
    requires
        spec_unique_ids(items@.map_values(|t: Todo| t@)),
    ensures
        r@.map_values(|t: Todo| t@).to_multiset() == items@.map_values(
            |t: Todo| t@,
        ).to_multiset(),
        spec_sorted_save(r@.map_values(|t: Todo| t@)),
        spec_unique_ids(r@.map_values(|t: Todo| t@)),
{
    broadcast use vstd::seq_lib::group_to_multiset_ensures;

    let ghost orig = items@.map_values(|t: Todo| t@);
    let mut src = items;
    let mut out: Vec<Todo> = Vec::new();
    proof {
        assert(out@.map_values(|t: Todo| t@) =~= Seq::<TodoV>::empty());
        assert(out@.map_values(|t: Todo| t@).to_multiset().add(
            src@.map_values(|t: Todo| t@).to_multiset(),
        ) =~= orig.to_multiset());
    }
    while src.len() > 0
        invariant
            out@.map_values(|t: Todo| t@).to_multiset().add(
                src@.map_values(|t: Todo| t@).to_multiset(),
            ) == orig.to_multiset(),
            spec_sorted_save(out@.map_values(|t: Todo| t@)),
            forall|i: int, j: int|
                0 <= i < out@.len() && 0 <= j < src@.len() ==> spec_save_le(
                    (#[trigger] out@[i])@,
                    (#[trigger] src@[j])@,
                ),
            spec_unique_ids(out@.map_values(|t: Todo| t@)),
            spec_unique_ids(src@.map_values(|t: Todo| t@)),
            forall|i: int, j: int|
                0 <= i < out@.len() && 0 <= j < src@.len() ==> (#[trigger] out@[i])@.id != (
                #[trigger] src@[j])@.id,
        decreases src@.len(),
    {
        let ghost src_v = src@.map_values(|t: Todo| t@);
        proof {
            lemma_save_le_total(src_v[0], src_v[0]);
        }
        let mut m: usize = 0;
        let mut k: usize = 1;
        while k < src.len()
            invariant
                0 <= m < src@.len(),
                m < k,
                1 <= k <= src@.len(),
                src_v == src@.map_values(|t: Todo| t@),
                forall|j: int| 0 <= j < k ==> spec_save_le(src_v[m as int], #[trigger] src_v[j]),
            decreases src@.len() - k,
        {
            if todo_le(&src[k], &src[m]) {
                proof {
                    assert forall|j: int| 0 <= j < k + 1 implies spec_save_le(
                        src_v[k as int],
                        #[trigger] src_v[j],
                    ) by {
                        if j < k {
                            lemma_save_le_trans(src_v[k as int], src_v[m as int], src_v[j]);
                        } else {
                            lemma_save_le_total(src_v[k as int], src_v[k as int]);
                        }
                    }
                }
                m = k;
            } else {
                proof {
                    lemma_save_le_total(src_v[m as int], src_v[k as int]);
                }
            }
            k += 1;
        }
        let ghost out_v = out@.map_values(|t: Todo| t@);
        let picked = src.remove(m);
        let ghost picked_v = picked@;
        out.push(picked);
        proof {
            out_v.to_multiset_ensures();
            src_v.to_multiset_ensures();
            assert(src@.map_values(|t: Todo| t@) =~= src_v.remove(m as int));
            assert(out@.map_values(|t: Todo| t@) =~= out_v.push(picked_v));
            assert(out_v.push(picked_v).to_multiset() =~= out_v.to_multiset().insert(picked_v));
            assert(src_v.remove(m as int).to_multiset() =~= src_v.to_multiset().remove(picked_v));
            assert(out_v.to_multiset().insert(picked_v).add(
                src_v.to_multiset().remove(picked_v),
            ) =~= orig.to_multiset()) by {
                assert(src_v.to_multiset().count(picked_v) > 0) by {
                    assert(src_v.contains(picked_v));
                }
            }
            let new_out = out_v.push(picked_v);
            assert forall|i: int, j: int| 0 <= i < j < new_out.len() implies spec_save_le(
                #[trigger] new_out[i],
                #[trigger] new_out[j],
            ) by {
                if j == new_out.len() - 1 {
                    assert(spec_save_le(out_v[i], src_v[m as int]));
                }
            }
            let new_src = src_v.remove(m as int);
            assert forall|i: int, j: int|
                0 <= i < new_out.len() && 0 <= j < new_src.len() implies spec_save_le(
                #[trigger] new_out[i],
                #[trigger] new_src[j],
            ) by {
                let oj = if j < m {
                    j
                } else {
                    j + 1
                };
                assert(new_src[j] == src_v[oj]);
                if i == new_out.len() - 1 {
                    assert(spec_save_le(src_v[m as int], src_v[oj]));
                } else {
                    assert(spec_save_le(out_v[i], src_v[oj]));
                }
            }
            assert forall|i: int, j: int|
                0 <= i < out@.len() && 0 <= j < src@.len() implies spec_save_le(
                (#[trigger] out@[i])@,
                (#[trigger] src@[j])@,
            ) by {
                assert(out@[i]@ == new_out[i]);
                assert(src@[j]@ == new_src[j]);
                assert(spec_save_le(new_out[i], new_src[j]));
            }
            assert forall|i: int, j: int| 0 <= i < j < new_out.len() implies (
            #[trigger] new_out[i]).id != (#[trigger] new_out[j]).id by {
                if j == new_out.len() - 1 {
                    assert(new_out[i] == out_v[i]);
                    assert(new_out[j] == src_v[m as int]);
                }
            }
            assert forall|i: int, j: int| 0 <= i < j < new_src.len() implies (
            #[trigger] new_src[i]).id != (#[trigger] new_src[j]).id by {
                let oi = if i < m {
                    i
                } else {
                    i + 1
                };
                let oj = if j < m {
                    j
                } else {
                    j + 1
                };
                assert(new_src[i] == src_v[oi] && new_src[j] == src_v[oj]);
            }
            assert forall|i: int, j: int|
                0 <= i < out@.len() && 0 <= j < src@.len() implies (#[trigger] out@[i])@.id != (
            #[trigger] src@[j])@.id by {
                let oj = if j < m {
                    j
                } else {
                    j + 1
                };
                assert(out@[i]@ == new_out[i] && src@[j]@ == new_src[j]);
                assert(new_src[j] == src_v[oj]);
                if i < new_out.len() - 1 {
                    assert(new_out[i] == out_v[i]);
                } else {
                    assert(new_out[i] == src_v[m as int]);
                }
            }
        }
    }
    proof {
        assert(src@.map_values(|t: Todo| t@).to_multiset() =~= Multiset::<TodoV>::empty());
        assert(out@.map_values(|t: Todo| t@).to_multiset() =~= orig.to_multiset());
    }
    out
}

impl TodoDb {
    /// The items as a save writes them: every item, deleted or not,
    /// incomplete before completed, ascending by creation time within
    /// each group.
    pub fn sorted_items(&self) -> (r: Vec<Todo>)
        requires
            self.wf(),
        ensures
            r@.map_values(|t: Todo| t@).to_multiset() == self@.to_multiset(),
            spec_sorted_save(r@.map_values(|t: Todo| t@)),
            spec_unique_ids(r@.map_values(|t: Todo| t@)),
    {
        let copy = self.clone_items();
        sort_todos(copy)
    }

    /// A copy of every item, in store order.
    fn clone_items(&self) -> (r: Vec<Todo>)
        ensures
            r@.map_values(|t: Todo| t@) == self@,
    {
        let mut out: Vec<Todo> = Vec::new();
        let mut i: usize = 0;
        proof {
            assert(out@.map_values(|t: Todo| t@) =~= self@.take(0));
        }
        while i < self.items.len()
            invariant
                0 <= i <= self@.len(),
                self@.len() == self.items@.len(),
                self@ == self.items@.map_values(|t: Todo| t@),
                out@.map_values(|t: Todo| t@) == self@.take(i as int),
            decreases self@.len() - i,
        {
            let ghost prev = out@;
            out.push(self.items[i].clone());
            proof {
                assert(out@.map_values(|t: Todo| t@) =~= prev.map_values(|t: Todo| t@).push(
                    out@.last()@,
                ));
                assert(self@.take(i + 1) =~= self@.take(i as int).push(self@[i as int]));
            }
            i += 1;
        }
        proof {
            assert(self@.take(self@.len() as int) =~= self@);
        }
        out
    }

    /// Writes the whole store as a document: reading it back yields
    /// exactly the items, in the save-time order.
    pub fn to_doc(&self) -> (j: Json)
        requires
            self.wf(),
        ensures
            match spec_todos_doc(j) {
                Some(ss) => ss.to_multiset() == self@.to_multiset() && spec_sorted_save(ss)
                    && spec_unique_ids(ss),
                None => false,
            },
    {
        let sorted = self.sorted_items();
        todos_to_doc(&sorted)
    }

    /// Applies a patch to the item carrying the identifier; an unknown
    /// identifier is reported and changes nothing.
    pub fn apply_update(&mut self, id: &str, update: TodoUpdate, now: &str) -> (r: Result<
        Todo,
        DbError,
    >)
        requires
            old(self).wf(),
        ensures
            final(self).wf(),
            final(self).spec_path() == old(self).spec_path(),
            match r {
                Ok(t) => spec_has_id(old(self)@, id@) && t@ == spec_apply_update(
                    old(self)@[spec_index_of(old(self)@, id@)],
                    update@,
                    now@,
                ) && final(self)@ == old(self)@.update(spec_index_of(old(self)@, id@), t@),
                Err(e) => !spec_has_id(old(self)@, id@) && final(self)@ == old(self)@ && (
                e matches DbError::NotFound(s) && s@ == id@),
            },
    {
        let i = match self.find_index(id) {
            Some(i) => i,
            None => {
                return Err(DbError::NotFound(id.to_owned()));
            },
        };
        let t = &mut self.items[i];
        t.apply_update_at(update, now);
        let out = t.clone();
        proof {
            assert(self@ =~= old(self)@.update(i as int, out@));
            lemma_apply_update_keeps_id(old(self)@[i as int], update@, now@);
            assert forall|a: int, b: int| 0 <= a < b < self@.len() implies (
            #[trigger] self@[a]).id != (#[trigger] self@[b]).id by {
                assert(old(self)@[a].id != old(self)@[b].id);
            }
        }
        Ok(out)
    }

    /// Soft-deletes the item carrying the identifier; an unknown
    /// identifier is reported and changes nothing.
    pub fn soft_delete(&mut self, id: &str, now: &str) -> (r: Result<(), DbError>)
        requires
            old(self).wf(),
        ensures
            final(self).wf(),
            final(self).spec_path() == old(self).spec_path(),
            match r {
                Ok(_) => spec_has_id(old(self)@, id@) && final(self)@ == old(self)@.update(
                    spec_index_of(old(self)@, id@),
                    spec_soft_delete(old(self)@[spec_index_of(old(self)@, id@)], now@),
                ),
                Err(e) => !spec_has_id(old(self)@, id@) && final(self)@ == old(self)@ && (
                e matches DbError::NotFound(s) && s@ == id@),
            },
    {
        let i = match self.find_index(id) {
            Some(i) => i,
            None => {
                return Err(DbError::NotFound(id.to_owned()));
            },
        };
        let t = &mut self.items[i];
        t.soft_delete_at(now);
        proof {
            assert(self@ =~= old(self)@.update(
                i as int,
                spec_soft_delete(old(self)@[i as int], now@),
            ));
            assert forall|a: int, b: int| 0 <= a < b < self@.len() implies (
            #[trigger] self@[a]).id != (#[trigger] self@[b]).id by {
                assert(old(self)@[a].id != old(self)@[b].id);
            }
        }
        Ok(())
    }

    /// Restores the item carrying the identifier; an unknown identifier
    /// is reported and changes nothing.
    pub fn restore(&mut self, id: &str, now: &str) -> (r: Result<Todo, DbError>)
        requires
            old(self).wf(),
        ensures
            final(self).wf(),
            final(self).spec_path() == old(self).spec_path(),
            match r {
                Ok(t) => spec_has_id(old(self)@, id@) && t@ == spec_restore(
                    old(self)@[spec_index_of(old(self)@, id@)],
                    now@,
                ) && final(self)@ == old(self)@.update(spec_index_of(old(self)@, id@), t@),
                Err(e) => !spec_has_id(old(self)@, id@) && final(self)@ == old(self)@ && (
                e matches DbError::NotFound(s) && s@ == id@),
            },
    {
        let i = match self.find_index(id) {
            Some(i) => i,
            None => {
                return Err(DbError::NotFound(id.to_owned()));
            },
        };
        let t = &mut self.items[i];
        t.restore_at(now);
        let out = t.clone();
        proof {
            assert(self@ =~= old(self)@.update(i as int, out@));
            assert forall|a: int, b: int| 0 <= a < b < self@.len() implies (
            #[trigger] self@[a]).id != (#[trigger] self@[b]).id by {
                assert(old(self)@[a].id != old(self)@[b].id);
            }
        }
        Ok(out)
    }
}

/// The store after one patch lands on the item carrying the identifier.
pub open spec fn spec_db_after_update(
    s: Seq<TodoV>,
    id: Seq<char>,
    u: crate::todo::TodoUpdateV,
    ts: Seq<char>,
) -> Seq<TodoV> {
    s.update(spec_index_of(s, id), spec_apply_update(s[spec_index_of(s, id)], u, ts))
}

/// Applying a patch never changes the identifier.
proof fn lemma_apply_update_keeps_id(t: TodoV, u: crate::todo::TodoUpdateV, ts: Seq<char>)
    ensures
        spec_apply_update(t, u, ts).id == t.id,
{
}

/// The first routine position carrying the identifier, or -1.
pub open spec fn spec_r_index_of(s: Seq<RoutineV>, id: Seq<char>) -> int
    decreases s.len(),
{
    if s.len() == 0 {
        -1
    } else if s[0].id == id {
        0
    } else {
        let r = spec_r_index_of(s.skip(1), id);
        if r == -1 {
            -1
        } else {
            r + 1
        }
    }
}

/// Whether some routine of the sequence carries the identifier.
pub open spec fn spec_r_has_id(s: Seq<RoutineV>, id: Seq<char>) -> bool {
    spec_r_index_of(s, id) != -1
}

/// No two routines of the sequence share an identifier.
pub open spec fn spec_r_unique_ids(s: Seq<RoutineV>) -> bool {
    forall|i: int, j: int|
        0 <= i < j < s.len() ==> (#[trigger] s[i]).id != (#[trigger] s[j]).id
}

/// What an upsert leaves among routines.
pub open spec fn spec_r_upsert(s: Seq<RoutineV>, t: RoutineV) -> Seq<RoutineV> {
    if spec_r_has_id(s, t.id) {
        s.update(spec_r_index_of(s, t.id), t)
    } else {
        s.push(t)
    }
}

/// The index built over a routine list read from a document.
pub open spec fn spec_r_index_seq(items: Seq<RoutineV>) -> Seq<RoutineV>
    decreases items.len(),
{
    if items.len() == 0 {
        Seq::<RoutineV>::empty()
    } else {
        spec_r_upsert(spec_r_index_seq(items.drop_last()), items.last())
    }
}

/// What loading a routine list against a day leaves: the daily reset
/// applied to every item, then the items indexed in order.
pub open spec fn spec_routines_loaded(items: Seq<RoutineV>, today: Seq<char>) -> Seq<RoutineV> {
    spec_r_index_seq(items.map_values(|t: RoutineV| spec_daily_reset(t, today)))
}

/// What `spec_r_index_of` finds.
pub proof fn lemma_r_index_of(s: Seq<RoutineV>, id: Seq<char>)
    ensures
        spec_r_index_of(s, id) == -1 ==> forall|j: int|
            0 <= j < s.len() ==> (#[trigger] s[j]).id != id,
        spec_r_index_of(s, id) != -1 ==> 0 <= spec_r_index_of(s, id) < s.len() && s[spec_r_index_of(
            s,
            id,
        )].id == id,
    decreases s.len(),
{
    if s.len() > 0 && s[0].id != id {
        lemma_r_index_of(s.skip(1), id);
        if spec_r_index_of(s, id) == -1 {
            assert forall|j: int| 0 <= j < s.len() implies (#[trigger] s[j]).id != id by {
                if j > 0 {
                    assert(s.skip(1)[j - 1] == s[j]);
                }
            }
        } else {
            assert(s.skip(1)[spec_r_index_of(s.skip(1), id)] == s[spec_r_index_of(s, id)]);
        }
    }
}

/// The first routine match is at `i` when nothing before `i` matches.
pub proof fn lemma_r_index_of_first(s: Seq<RoutineV>, id: Seq<char>, i: int)
    requires
        0 <= i < s.len(),
        s[i].id == id,
        forall|j: int| 0 <= j < i ==> (#[trigger] s[j]).id != id,
    ensures
        spec_r_index_of(s, id) == i,
    decreases i,
{
    if i > 0 {
        assert(s[0].id != id);
        lemma_r_index_of_first(s.skip(1), id, i - 1);
        assert(s.skip(1)[i - 1] == s[i]);
        assert forall|j: int| 0 <= j < i - 1 implies (#[trigger] s.skip(1)[j]).id != id by {
            assert(s.skip(1)[j] == s[j + 1]);
        }
    }
}

/// An upsert keeps routine identifiers unique.
pub proof fn lemma_r_upsert_unique(s: Seq<RoutineV>, t: RoutineV)
    requires
        spec_r_unique_ids(s),
    ensures
        spec_r_unique_ids(spec_r_upsert(s, t)),
{
    lemma_r_index_of(s, t.id);
}

/// A sequence with unique identifiers indexes to itself: a save that
/// lists each item once builds back the same items.
pub proof fn lemma_index_seq_identity(s: Seq<TodoV>)
    requires
        spec_unique_ids(s),
    ensures
        spec_index_seq(s) == s,
    decreases s.len(),
{
    if s.len() > 0 {
        let pre = s.drop_last();
        assert forall|i: int, j: int| 0 <= i < j < pre.len() implies (#[trigger] pre[i]).id != (
        #[trigger] pre[j]).id by {
            assert(pre[i] == s[i] && pre[j] == s[j]);
        }
        lemma_index_seq_identity(pre);
        lemma_index_of(pre, s.last().id);
        if spec_index_of(pre, s.last().id) != -1 {
            let k = spec_index_of(pre, s.last().id);
            assert(s[k].id == s[s.len() - 1].id);
            assert(false);
        }
        assert(spec_index_seq(s) =~= s);
    }
}

/// Round trip (saving then loading): indexing any save-time listing of
/// a store's items yields exactly those items, item sets equal under
/// their identifiers.
pub proof fn lemma_save_load_round_trip(s: Seq<TodoV>, ss: Seq<TodoV>)
    requires
        spec_unique_ids(ss),
        ss.to_multiset() == s.to_multiset(),
    ensures
        spec_index_seq(ss) == ss,
        spec_index_seq(ss).to_multiset() == s.to_multiset(),
{
    lemma_index_seq_identity(ss);
}

/// Every element of a filtered sequence comes from the sequence.
pub proof fn lemma_filter_elems<A>(s: Seq<A>, pred: spec_fn(A) -> bool)
    ensures
        forall|k: int|
            0 <= k < s.filter(pred).len() ==> s.contains(#[trigger] s.filter(pred)[k]),
    decreases s.len(),
{
    reveal(Seq::filter);
    if s.len() > 0 {
        let pre = s.drop_last();
        lemma_filter_elems(pre, pred);
        assert forall|k: int|
            0 <= k < s.filter(pred).len() implies s.contains(#[trigger] s.filter(pred)[k]) by {
            if k < pre.filter(pred).len() {
                assert(s.filter(pred)[k] == pre.filter(pred)[k]);
                let i = choose|i: int| 0 <= i < pre.len() && pre[i] == pre.filter(pred)[k];
                assert(s[i] == s.filter(pred)[k]);
            } else {
                assert(s.filter(pred)[k] == s.last());
            }
        }
    }
}

/// Soft-delete exclusion: after soft-deleting the item at `i`, no item
/// of the default listing carries its identifier, yet a lookup by that
/// identifier still lands on it; restoring it puts it back in the
/// listing.
pub proof fn lemma_soft_delete_exclusion(s: Seq<TodoV>, i: int, ts: Seq<char>, ts2: Seq<char>)
    requires
        spec_unique_ids(s),
        0 <= i < s.len(),
    ensures
        ({
            let d = s.update(i, spec_soft_delete(s[i], ts));
            &&& forall|k: int|
                0 <= k < spec_live(d).len() ==> (#[trigger] spec_live(d)[k]).id != s[i].id
            &&& spec_index_of(d, s[i].id) == i
            &&& spec_live(d.update(i, spec_restore(d[i], ts2))).contains(
                spec_restore(d[i], ts2),
            )
        }),
{
    broadcast use vstd::seq_lib::group_filter_ensures;

    let d = s.update(i, spec_soft_delete(s[i], ts));
    let pred = |t: TodoV| !t.deleted;
    lemma_filter_elems(d, pred);
    assert forall|k: int|
        0 <= k < spec_live(d).len() implies (#[trigger] spec_live(d)[k]).id != s[i].id by {
        let e = spec_live(d)[k];
        assert(d.contains(e));
        let j = choose|j: int| 0 <= j < d.len() && d[j] == e;
        assert(pred(e));
        if e.id == s[i].id {
            assert(j != i);
            assert(d[j].id == s[j].id && d[i].id == s[i].id);
        }
    }
    assert forall|j: int| 0 <= j < i implies (#[trigger] d[j]).id != s[i].id by {
        assert(d[j].id == s[j].id);
    }
    lemma_index_of_first(d, s[i].id, i);
    let r = d.update(i, spec_restore(d[i], ts2));
    assert(pred(r[i]));
    assert(spec_live(r).contains(r[i]));
}

/// The id-indexed routine store, bound to the path it was read from.
#[derive(Debug)]
pub struct RoutineDb {
    items: Vec<Routine>,
    path: String,
}

impl View for RoutineDb {
    type V = Seq<RoutineV>;

    closed spec fn view(&self) -> Seq<RoutineV> {
        self.items@.map_values(|t: Routine| t@)
    }
}

impl RoutineDb {
    /// The path this store reads from and writes to.
    pub closed spec fn spec_path(&self) -> Seq<char> {
        self.path@
    }

    /// Identifiers are unique in the store.
    pub open spec fn wf(&self) -> bool {
        spec_r_unique_ids(self@)
    }

    /// The bound path.
    pub fn path(&self) -> (r: &str)
        ensures
            r@ == self.spec_path(),
    {
        self.path.as_str()
    }

    /// The empty store bound to a path.
    pub fn new_empty(path: String) -> (r: Self)
        ensures
            r@ == Seq::<RoutineV>::empty(),
            r.spec_path() == path@,
            r.wf(),
    {
        let r = RoutineDb { items: Vec::new(), path };
        proof {
            assert(r@ =~= Seq::<RoutineV>::empty());
        }
        r
    }

    /// Builds a store from a loaded document against the given day: the
    /// daily reset is applied to every item before it is indexed, a
    /// later duplicate identifier winning.
    pub fn from_doc_on(path: String, doc: Option<&Json>, today: &str) -> (r: Result<Self, DbError>)
        ensures
            match r {
                Ok(db) => db.wf() && db.spec_path() == path@ && match doc {
                    None => db@ == Seq::<RoutineV>::empty(),
                    Some(j) => spec_routines_doc(*j) matches Some(items) && db@
                        == spec_routines_loaded(items, today@),
                },
                Err(e) => doc matches Some(j) && spec_routines_doc(*j) is None && e is Parse,
            },
    {
        let j = match doc {
            None => {
                return Ok(Self::new_empty(path));
            },
            Some(j) => j,
        };
        let mut loaded = match routines_of_doc(j) {
            Ok(v) => v,
            Err(e) => {
                return Err(e);
            },
        };
        let ghost items_v = loaded@.map_values(|t: Routine| t@);
        let ghost reset_v = items_v.map_values(|t: RoutineV| spec_daily_reset(t, today@));
        let mut db = Self::new_empty(path);
        let mut i: usize = 0;
        proof {
            assert(reset_v.take(0) =~= Seq::<RoutineV>::empty());
        }
        while i < loaded.len()
            invariant
                0 <= i <= loaded@.len(),
                loaded@.len() == items_v.len(),
                forall|k: int|
                    i <= k < items_v.len() ==> (#[trigger] loaded@[k])@ == items_v[k],
                reset_v == items_v.map_values(|t: RoutineV| spec_daily_reset(t, today@)),
                db@ == spec_r_index_seq(reset_v.take(i as int)),
                db.wf(),
                db.spec_path() == path@,
            decreases loaded@.len() - i,
        {
            let t = &mut loaded[i];
            t.check_daily_reset_on(today);
            let item = t.clone();
            db.insert(item);
            proof {
                assert(reset_v.take(i + 1).drop_last() =~= reset_v.take(i as int));
                assert(reset_v.take(i + 1).last() == reset_v[i as int]);
            }
            i += 1;
        }
        proof {
            assert(reset_v.take(loaded@.len() as int) =~= reset_v);
        }
        Ok(db)
    }

    /// Builds a store from a loaded document against the current
    /// calendar day: whatever day the clock gave, the store holds the
    /// document's items with the daily reset applied against it.
    pub fn from_doc(path: String, doc: Option<&Json>) -> (r: Result<Self, DbError>)
        ensures
            match r {
                Ok(db) => db.wf() && db.spec_path() == path@ && match doc {
                    None => db@ == Seq::<RoutineV>::empty(),
                    Some(j) => spec_routines_doc(*j) matches Some(items) && exists|
                        today: Seq<char>,
                    | db@ == #[trigger] spec_routines_loaded(items, today),
                },
                Err(e) => doc matches Some(j) && spec_routines_doc(*j) is None && e is Parse,
            },
    {
        let today = crate::fresh::today_ymd();
        Self::from_doc_on(path, doc, today.as_str())
    }

    /// The position of the identifier, as `spec_r_index_of` says.
    fn find_index(&self, id: &str) -> (r: Option<usize>)
        ensures
            match r {
                Some(i) => spec_r_index_of(self@, id@) == i as int && i < self@.len(),
                None => spec_r_index_of(self@, id@) == -1,
            },
    {
        let mut i: usize = 0;
        while i < self.items.len()
            invariant
                0 <= i <= self@.len(),
                self@.len() == self.items@.len(),
                forall|j: int| 0 <= j < i ==> (#[trigger] self@[j]).id != id@,
            decreases self@.len() - i,
        {
            if str_eq(self.items[i].id.as_str(), id) {
                proof {
                    lemma_r_index_of_first(self@, id@, i as int);
                }
                return Some(i);
            }
            i += 1;
        }
        proof {
            lemma_r_index_of(self@, id@);
            if spec_r_index_of(self@, id@) != -1 {
                assert(self@[spec_r_index_of(self@, id@)].id == id@);
            }
        }
        None
    }

    /// Every routine, in store order.
    pub fn all(&self) -> (r: Vec<Routine>)
        ensures
            r@.map_values(|t: Routine| t@) == self@,
    {
        let mut out: Vec<Routine> = Vec::new();
        let mut i: usize = 0;
        proof {
            assert(out@.map_values(|t: Routine| t@) =~= self@.take(0));
        }
        while i < self.items.len()
            invariant
                0 <= i <= self@.len(),
                self@.len() == self.items@.len(),
                self@ == self.items@.map_values(|t: Routine| t@),
                out@.map_values(|t: Routine| t@) == self@.take(i as int),
            decreases self@.len() - i,
        {
            let ghost prev = out@;
            out.push(self.items[i].clone());
            proof {
                assert(out@.map_values(|t: Routine| t@) =~= prev.map_values(|t: Routine| t@).push(
                    out@.last()@,
                ));
                assert(self@.take(i + 1) =~= self@.take(i as int).push(self@[i as int]));
            }
            i += 1;
        }
        proof {
            assert(self@.take(self@.len() as int) =~= self@);
        }
        out
    }

    /// Looks a routine up by identifier.
    pub fn get(&self, id: &str) -> (r: Option<&Routine>)
        ensures
            match r {
                Some(t) => spec_r_has_id(self@, id@) && t@ == self@[spec_r_index_of(self@, id@)],
                None => !spec_r_has_id(self@, id@),
            },
    {
        match self.find_index(id) {
            Some(i) => Some(&self.items[i]),
            None => None,
        }
    }

    /// Borrows the routine carrying the identifier for mutation. The
    /// store afterwards holds whatever the caller made of the borrow.
    pub fn get_mut(&mut self, id: &str) -> (r: Option<&mut Routine>)
        ensures
            match r {
                Some(t) => spec_r_has_id(old(self)@, id@) && (*t)@ == old(self)@[spec_r_index_of(
                    old(self)@,
                    id@,
                )] && final(self)@ == old(self)@.update(
                    spec_r_index_of(old(self)@, id@),
                    final(t)@,
                ),
                None => !spec_r_has_id(old(self)@, id@) && final(self)@ == old(self)@,
            },
            final(self).spec_path() == old(self).spec_path(),
    {
        match self.find_index(id) {
            Some(i) => Some(&mut self.items[i]),
            None => None,
        }
    }

    /// Upserts a routine by its identifier, as `spec_r_upsert` says.
    pub fn insert(&mut self, routine: Routine)
        requires
            old(self).wf(),
        ensures
            final(self)@ == spec_r_upsert(old(self)@, routine@),
            final(self).wf(),
            final(self).spec_path() == old(self).spec_path(),
    {
        proof {
            lemma_r_upsert_unique(self@, routine@);
        }
        match self.find_index(routine.id.as_str()) {
            Some(i) => {
                vstd::pervasive::VecAdditionalExecFns::set(&mut self.items, i, routine);
                proof {
                    assert(self@ =~= spec_r_upsert(old(self)@, routine@));
                }
            },
            None => {
                self.items.push(routine);
                proof {
                    assert(self@ =~= spec_r_upsert(old(self)@, routine@));
                }
            },
        }
    }

    /// Removes a routine permanently, returning it.
    pub fn remove(&mut self, id: &str) -> (r: Option<Routine>)
        ensures
            match r {
                Some(t) => spec_r_has_id(old(self)@, id@) && t@ == old(self)@[spec_r_index_of(
                    old(self)@,
                    id@,
                )] && final(self)@ == old(self)@.remove(spec_r_index_of(old(self)@, id@)),
                None => !spec_r_has_id(old(self)@, id@) && final(self)@ == old(self)@,
            },
            old(self).wf() ==> final(self).wf(),
            final(self).spec_path() == old(self).spec_path(),
    {
        match self.find_index(id) {
            Some(i) => {
                let t = self.items.remove(i);
                proof {
                    assert(self@ =~= old(self)@.remove(i as int));
                    if old(self).wf() {
                        assert forall|a: int, b: int|
                            0 <= a < b < self@.len() implies (#[trigger] self@[a]).id != (
                        #[trigger] self@[b]).id by {
                            assert(self@[a] == old(self)@.remove(i as int)[a]);
                        }
                    }
                }
                Some(t)
            },
            None => None,
        }
    }

    /// Flips the flag of the routine carrying the identifier for the
    /// given day; an unknown identifier is reported and changes nothing.
    pub fn toggle_on(&mut self, id: &str, today: &str) -> (r: Result<Routine, DbError>)
        requires
            old(self).wf(),
        ensures
            final(self).wf(),
            final(self).spec_path() == old(self).spec_path(),
            match r {
                Ok(t) => spec_r_has_id(old(self)@, id@) && t@ == crate::routine::spec_toggle(
                    old(self)@[spec_r_index_of(old(self)@, id@)],
                    today@,
                ) && final(self)@ == old(self)@.update(spec_r_index_of(old(self)@, id@), t@),
                Err(e) => !spec_r_has_id(old(self)@, id@) && final(self)@ == old(self)@ && (
                e matches DbError::NotFound(s) && s@ == id@),
            },
    {
        let i = match self.find_index(id) {
            Some(i) => i,
            None => {
                return Err(DbError::NotFound(id.to_owned()));
            },
        };
        let t = &mut self.items[i];
        t.toggle_at(today);
        let out = t.clone();
        proof {
            assert(self@ =~= old(self)@.update(i as int, out@));
            assert forall|a: int, b: int| 0 <= a < b < self@.len() implies (
            #[trigger] self@[a]).id != (#[trigger] self@[b]).id by {
                assert(old(self)@[a].id != old(self)@[b].id);
            }
        }
        Ok(out)
    }

    /// Writes the whole store as a document: reading it back yields
    /// exactly the items, in store order.
    pub fn to_doc(&self) -> (j: Json)
        ensures
            spec_routines_doc(j) == Some(self@),
    {
        let items = self.all();
        routines_to_doc(&items)
    }
}

} // verus!
