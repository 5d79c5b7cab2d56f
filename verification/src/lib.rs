//! A todo-item store together with a family of data-flow pipelines.
//!
//! Every pipeline receives an untrusted byte payload, pushes it through
//! three pure transformation stages (classify, enrich, finalize) and
//! reports, for each downstream sink it feeds, a status line carrying the
//! byte length of the finalized payload.  The central guarantee, proved
//! here, is taint preservation: the payload survives every stage as a
//! contiguous byte substring of the final output.

use vstd::prelude::*;

pub mod clock;
pub mod command_engine;
pub mod directory_engine;
pub mod numeral;
pub mod path_engine;
pub mod redirect_engine;
pub mod sql_engine;
pub mod stream_processor;
pub mod text;
pub mod xpath_engine;

verus! {

/// Represents a single todo item.
pub struct TodoItem {
    pub title: String,
    pub notes: String,
    pub assigned_to: String,
    pub completed: bool,
}

/// Abstract value of a todo item.
pub struct TodoItemView {
    pub title: Seq<char>,
    pub notes: Seq<char>,
    pub assigned_to: Seq<char>,
    pub completed: bool,
}

impl View for TodoItem {
    type V = TodoItemView;

    open spec fn view(&self) -> TodoItemView {
        TodoItemView {
            title: self.title@,
            notes: self.notes@,
            assigned_to: self.assigned_to@,
            completed: self.completed,
        }
    }
}

impl Clone for TodoItem {
    fn clone(&self) -> (r: Self)
        ensures
            r@ == self@,
    {
        TodoItem {
            title: self.title.clone(),
            notes: self.notes.clone(),
            assigned_to: self.assigned_to.clone(),
            completed: self.completed,
        }
    }
}

/// DTO for patching a todo item: absent fields stay as they are.
pub struct UpdateTodoItem {
    pub title: Option<String>,
    pub notes: Option<String>,
    pub assigned_to: Option<String>,
    pub completed: Option<bool>,
}

/// The item that results from applying a patch to an existing value.
pub open spec fn patched_item(it: TodoItemView, up: &UpdateTodoItem) -> TodoItemView {
    TodoItemView {
        title: if up.title is Some {
            up.title->0@
        } else {
            it.title
        },
        notes: if up.notes is Some {
            up.notes->0@
        } else {
            it.notes
        },
        assigned_to: if up.assigned_to is Some {
            up.assigned_to->0@
        } else {
            it.assigned_to
        },
        completed: if up.completed is Some {
            up.completed->0
        } else {
            it.completed
        },
    }
}

/// Represents a todo item with an id.
pub struct IdentifyableTodoItem {
    pub id: usize,
    pub item: TodoItem,
}

/// Abstract value of an identified todo item.
pub struct IdentifyableTodoItemView {
    pub id: nat,
    pub item: TodoItemView,
}

impl View for IdentifyableTodoItem {
    type V = IdentifyableTodoItemView;

    open spec fn view(&self) -> IdentifyableTodoItemView {
        IdentifyableTodoItemView { id: self.id as nat, item: self.item@ }
    }
}

impl Clone for IdentifyableTodoItem {
    fn clone(&self) -> (r: Self)
        ensures
            r@ == self@,
    {
        IdentifyableTodoItem { id: self.id, item: self.item.clone() }
    }
}

impl IdentifyableTodoItem {
    /// Pair an id with an item.
    pub fn new(id: usize, item: TodoItem) -> (r: IdentifyableTodoItem)
        ensures
            r@.id == id as nat,
            r@.item == item@,
    {
        IdentifyableTodoItem { id, item }
    }
}

/// Parameters for pagination over the stored items.
pub struct Pagination {
    pub offset: Option<usize>,
    pub limit: Option<usize>,
}

impl Pagination {
    /// Pack an optional offset and limit.
    pub fn new(offset: Option<usize>, limit: Option<usize>) -> (r: Pagination)
        ensures
            r.offset == offset,
            r.limit == limit,
    {
        Pagination { offset, limit }
    }
}

impl Default for Pagination {
    /// No offset and no limit: the whole store.
    fn default() -> (r: Pagination)
        ensures
            r.offset is None,
            r.limit is None,
    {
        Pagination { offset: None, limit: None }
    }
}

/// Abstract value of the store: the items in insertion order and the
/// id the next insertion will take.
pub struct TodoStoreView {
    pub items: Seq<IdentifyableTodoItemView>,
    pub next_id: nat,
}

/// The abstract values of a sequence of stored items.
pub open spec fn views_of(s: Seq<IdentifyableTodoItem>) -> Seq<IdentifyableTodoItemView> {
    s.map_values(|it: IdentifyableTodoItem| it@)
}

/// Pointwise reading of `views_of`.
pub proof fn lemma_views_of(s: Seq<IdentifyableTodoItem>)
    ensures
        views_of(s).len() == s.len(),
        forall|i: int| 0 <= i < s.len() ==> #[trigger] views_of(s)[i] == s[i]@,
{
}

/// The store's invariant: every stored id lies below the id counter,
/// and no two stored items share an id.
pub open spec fn store_wf(v: TodoStoreView) -> bool {
    &&& forall|i: int| 0 <= i < v.items.len() ==> #[trigger] v.items[i].id < v.next_id
    &&& forall|i: int, j: int|
        0 <= i < j < v.items.len() ==> #[trigger] v.items[i].id != #[trigger] v.items[j].id
}

/// Some stored item carries the id.
pub open spec fn store_has_id(v: TodoStoreView, id: nat) -> bool {
    exists|i: int| 0 <= i < v.items.len() && #[trigger] v.items[i].id == id
}

/// The position of the item carrying the id.
pub open spec fn store_index_of(v: TodoStoreView, id: nat) -> int {
    choose|i: int| 0 <= i < v.items.len() && #[trigger] v.items[i].id == id
}

/// The effect of one `add_todo` call: the fresh item takes the counter
/// as its id, is appended, and the counter moves up by one.
pub open spec fn add_effect(
    pre: TodoStoreView,
    post: TodoStoreView,
    added: IdentifyableTodoItemView,
) -> bool {
    &&& added.id == pre.next_id
    &&& post.items == pre.items.push(added)
    &&& post.next_id == pre.next_id + 1
}

/// Todo items store.
pub struct TodoStore {
    store: Vec<IdentifyableTodoItem>,
    id_generator: usize,
}

impl View for TodoStore {
    type V = TodoStoreView;

    closed spec fn view(&self) -> TodoStoreView {
        TodoStoreView {
            items: views_of(self.store@),
            next_id: self.id_generator as nat,
        }
    }
}

impl Default for TodoStore {
    /// An empty store whose id counter starts at zero.
    fn default() -> (r: TodoStore)
        ensures
            r@.items.len() == 0,
            r@.next_id == 0,
            store_wf(r@),
    {
        let r = TodoStore { store: Vec::new(), id_generator: 0 };
        proof {
            assert(r@.items =~= Seq::<IdentifyableTodoItemView>::empty());
        }
        r
    }
}

impl TodoStore {
    /// Build a store around existing items; the id counter resumes one
    /// past the largest id present.
    pub fn from_hashmap(store: Vec<IdentifyableTodoItem>) -> (r: Self)
        requires
            forall|i: int, j: int|
                0 <= i < j < store@.len() ==> #[trigger] store@[i].id != #[trigger] store@[j].id,
            forall|i: int| 0 <= i < store@.len() ==> #[trigger] store@[i].id < usize::MAX,
        ensures
            r@.items == views_of(store@),
            store_wf(r@),
            r@.items.len() > 0 ==> exists|i: int|
                0 <= i < r@.items.len() && r@.next_id == #[trigger] r@.items[i].id + 1,
            r@.items.len() == 0 ==> r@.next_id == 0,
    {
        let n = store.len();
        let mut id_generator: usize = 0;
        let mut k: usize = 0;
        while k < n
            invariant
                n == store@.len(),
                0 <= k <= n,
                forall|i: int| 0 <= i < store@.len() ==> #[trigger] store@[i].id < usize::MAX,
                forall|i: int| 0 <= i < k ==> #[trigger] store@[i].id < id_generator,
                k > 0 ==> exists|i: int|
                    0 <= i < k && id_generator == #[trigger] store@[i].id + 1,
                k == 0 ==> id_generator == 0,
            decreases n - k,
        {
            let candidate = store[k].id;
            if candidate >= id_generator {
                id_generator = candidate + 1;
            }
            k += 1;
        }
        let r = TodoStore { store, id_generator };
        proof {
            lemma_views_of(r.store@);
            assert forall|i: int| 0 <= i < r@.items.len() implies #[trigger] r@.items[i].id
                < r@.next_id by {
                assert(r@.items[i] == r.store@[i]@);
            }
            assert forall|i: int, j: int|
                0 <= i < j < r@.items.len() implies #[trigger] r@.items[i].id
                != #[trigger] r@.items[j].id by {
                assert(r@.items[i] == r.store@[i]@);
                assert(r@.items[j] == r.store@[j]@);
            }
            if r@.items.len() > 0 {
                let w = choose|i: int|
                    0 <= i < k && id_generator == #[trigger] store@[i].id + 1;
                assert(0 <= w < store@.len() && id_generator == store@[w].id + 1);
                assert(r@.items[w] == r.store@[w]@);
                assert(r@.next_id == #[trigger] r@.items[w].id + 1);
            }
        }
        r
    }

    /// Get the list of todo items, narrowed by the pagination window.
    pub fn get_todos(&self, pagination: Pagination) -> (r: Vec<IdentifyableTodoItem>)
        ensures
            ({
                let len = self@.items.len() as int;
                let start = if pagination.offset is Some {
                    if pagination.offset->0 as int <= len {
                        pagination.offset->0 as int
                    } else {
                        len
                    }
                } else {
                    0
                };
                let end = if pagination.limit is Some && start + pagination.limit->0 as int
                    <= len {
                    start + pagination.limit->0 as int
                } else {
                    len
                };
                views_of(r@) == self@.items.subrange(start, end)
            }),
    {
        let len = self.store.len();
        let start: usize = match pagination.offset {
            Some(off) => if off <= len {
                off
            } else {
                len
            },
            None => 0,
        };
        let end: usize = match pagination.limit {
            Some(lim) => if lim <= len - start {
                start + lim
            } else {
                len
            },
            None => len,
        };
        let mut r: Vec<IdentifyableTodoItem> = Vec::new();
        let mut k: usize = start;
        while k < end
            invariant
                len == self.store@.len(),
                start <= k <= end <= len,
                r@.len() == k - start,
                forall|i: int| 0 <= i < r@.len() ==> #[trigger] r@[i]@ == self@.items[start + i],
            decreases end - k,
        {
            proof {
                lemma_views_of(self.store@);
            }
            r.push(self.store[k].clone());
            k += 1;
        }
        proof {
            lemma_views_of(r@);
            assert(views_of(r@) =~= self@.items.subrange(start as int, end as int));
        }
        r
    }

    /// Get a single todo item by id.
    pub fn get_todo(&self, id: usize) -> (r: Option<&IdentifyableTodoItem>)
        requires
            store_wf(self@),
        ensures
            r is Some <==> store_has_id(self@, id as nat),
            r is Some ==> 0 <= store_index_of(self@, id as nat) < self@.items.len()
                && r->0@ == self@.items[store_index_of(self@, id as nat)],
    {
        let n = self.store.len();
        let mut k: usize = 0;
        while k < n
            invariant
                n == self.store@.len(),
                0 <= k <= n,
                store_wf(self@),
                forall|i: int| 0 <= i < k ==> #[trigger] self@.items[i].id != id as nat,
            decreases n - k,
        {
            if self.store[k].id == id {
                proof {
                    lemma_views_of(self.store@);
                    assert(self@.items[k as int].id == id as nat);
                    assert(store_has_id(self@, id as nat));
                    let w = store_index_of(self@, id as nat);
                    assert(0 <= w < self@.items.len() && self@.items[w].id == id as nat);
                    if w < k as int {
                        assert(self@.items[w].id != self@.items[k as int].id);
                    }
                    if w > k as int {
                        assert(self@.items[k as int].id != self@.items[w].id);
                    }
                }
                return Some(&self.store[k]);
            }
            k += 1;
        }
        None
    }

    /// Create a new todo item under a fresh id.  The caller decides
    /// what else one insertion should set in motion.
    pub fn add_todo(&mut self, todo: TodoItem) -> (r: IdentifyableTodoItem)
        requires
            store_wf(old(self)@),
            old(self)@.next_id < usize::MAX,
        ensures
            store_wf(final(self)@),
            r@.item == todo@,
            add_effect(old(self)@, final(self)@, r@),
    {
        let id = self.id_generator;
        self.id_generator = id + 1;
        let new_item = IdentifyableTodoItem::new(id, todo);
        let cloned = new_item.clone();
        self.store.push(cloned);
        proof {
            lemma_views_of(self.store@);
            lemma_views_of(old(self).store@);
            assert(self@.items =~= old(self)@.items.push(new_item@));
            assert forall|i: int| 0 <= i < self@.items.len() implies #[trigger] self@.items[i].id
                < self@.next_id by {
                if i < old(self)@.items.len() {
                    assert(old(self)@.items[i].id < old(self)@.next_id);
                }
            }
        }
        new_item
    }

    /// Remove a todo item by id; the removed item comes back, and the
    /// id counter does not move.
    pub fn remove_todo(&mut self, id: usize) -> (r: Option<IdentifyableTodoItem>)
        requires
            store_wf(old(self)@),
        ensures
            store_wf(final(self)@),
            final(self)@.next_id == old(self)@.next_id,
            !store_has_id(old(self)@, id as nat) ==> r is None && final(self)@ == old(self)@,
            store_has_id(old(self)@, id as nat) ==> {
                let at = store_index_of(old(self)@, id as nat);
                &&& r is Some
                &&& r->0@ == old(self)@.items[at]
                &&& final(self)@.items == old(self)@.items.subrange(0, at) + old(
                    self,
                )@.items.subrange(at + 1, old(self)@.items.len() as int)
            },
    {
        let n = self.store.len();
        let mut k: usize = 0;
        while k < n
            invariant
                n == self.store@.len(),
                0 <= k <= n,
                self@ == old(self)@,
                store_wf(old(self)@),
                forall|i: int| 0 <= i < k ==> #[trigger] self@.items[i].id != id as nat,
            decreases n - k,
        {
            if self.store[k].id == id {
                proof {
                    assert(self@.items[k as int].id == id as nat);
                }
                let removed = self.store.remove(k);
                proof {
                    lemma_views_of(self.store@);
                    lemma_views_of(old(self).store@);
                    assert(old(self)@.items[k as int].id == id as nat);
                    assert(store_has_id(old(self)@, id as nat));
                    let at = store_index_of(old(self)@, id as nat);
                    assert(0 <= at < old(self)@.items.len() && old(self)@.items[at].id
                        == id as nat);
                    if at < k as int {
                        assert(old(self)@.items[at].id != old(self)@.items[k as int].id);
                    }
                    if at > k as int {
                        assert(old(self)@.items[k as int].id != old(self)@.items[at].id);
                    }
                    assert(at == k as int);
                    assert(self@.items =~= old(self)@.items.subrange(0, k as int) + old(
                        self,
                    )@.items.subrange(k as int + 1, old(self)@.items.len() as int));
                    assert forall|i: int, j: int|
                        0 <= i < j < self@.items.len() implies #[trigger] self@.items[i].id
                        != #[trigger] self@.items[j].id by {
                        let li = if i < k as int {
                            i
                        } else {
                            i + 1
                        };
                        let lj = if j < k as int {
                            j
                        } else {
                            j + 1
                        };
                        assert(li < lj);
                        assert(self@.items[i] == old(self)@.items[li]);
                        assert(self@.items[j] == old(self)@.items[lj]);
                        assert(old(self)@.items[li].id != old(self)@.items[lj].id);
                    }
                }
                return Some(removed);
            }
            k += 1;
        }
        proof {
            assert(!store_has_id(self@, id as nat));
        }
        None
    }

    /// The id the next insertion will take.
    pub fn next_id(&self) -> (r: usize)
        ensures
            r as nat == self@.next_id,
    {
        self.id_generator
    }

    /// Surrender the store's items, in insertion order.
    pub fn into_items(self) -> (r: Vec<IdentifyableTodoItem>)
        ensures
            views_of(r@) == self@.items,
    {
        self.store
    }

    /// Patch a todo item by id; an id that is not present changes
    /// nothing and reports plain absence rather than an error.
    pub fn update_todo(&mut self, id: &usize, todo: UpdateTodoItem) -> (r: Option<
        &IdentifyableTodoItem,
    >)
        requires
            store_wf(old(self)@),
        ensures
            store_wf(final(self)@),
            final(self)@.next_id == old(self)@.next_id,
            !store_has_id(old(self)@, *id as nat) ==> r is None && final(self)@ == old(self)@,
            store_has_id(old(self)@, *id as nat) ==> {
                let at = store_index_of(old(self)@, *id as nat);
                let patched = IdentifyableTodoItemView {
                    id: *id as nat,
                    item: patched_item(old(self)@.items[at].item, &todo),
                };
                &&& r is Some
                &&& r->0@ == patched
                &&& final(self)@.items == old(self)@.items.update(at, patched)
            },
    {
        let n = self.store.len();
        let mut k: usize = 0;
        let mut at: usize = n;
        let mut found = false;
        while k < n
            invariant
                n == self.store@.len(),
                0 <= k <= n,
                self@ == old(self)@,
                store_wf(old(self)@),
                found ==> at < n && self@.items[at as int].id == *id as nat,
                !found ==> forall|i: int| 0 <= i < k ==> #[trigger] self@.items[i].id
                    != *id as nat,
            decreases n - k,
        {
            if !found && self.store[k].id == *id {
                at = k;
                found = true;
            }
            k += 1;
        }
        if found {
            proof {
                assert(store_has_id(old(self)@, *id as nat));
                let w = store_index_of(old(self)@, *id as nat);
                assert(old(self)@.items[w].id == *id as nat);
                if w != at as int {
                    assert(old(self)@.items[w].id != old(self)@.items[at as int].id);
                }
            }
            let UpdateTodoItem { title, notes, assigned_to, completed } = todo;
            let mut fresh = self.store[at].clone();
            match title {
                Some(t) => {
                    fresh.item.title = t;
                },
                None => {},
            }
            match notes {
                Some(t) => {
                    fresh.item.notes = t;
                },
                None => {},
            }
            match assigned_to {
                Some(t) => {
                    fresh.item.assigned_to = t;
                },
                None => {},
            }
            match completed {
                Some(b) => {
                    fresh.item.completed = b;
                },
                None => {},
            }
            proof {
                assert(fresh@ == IdentifyableTodoItemView {
                    id: *id as nat,
                    item: patched_item(
                        old(self)@.items[store_index_of(old(self)@, *id as nat)].item,
                        &todo,
                    ),
                });
            }
            self.store[at] = fresh;
            proof {
                let at_spec = store_index_of(old(self)@, *id as nat);
                assert(self@.items =~= old(self)@.items.update(
                    at_spec,
                    self@.items[at_spec],
                ));
                assert forall|i: int, j: int|
                    0 <= i < j < self@.items.len() implies #[trigger] self@.items[i].id
                    != #[trigger] self@.items[j].id by {
                    assert(self@.items[i].id == old(self)@.items[i].id);
                    assert(self@.items[j].id == old(self)@.items[j].id);
                }
            }
            Some(&self.store[at])
        } else {
            proof {
                assert(!store_has_id(self@, *id as nat));
            }
            None
        }
    }
}

/// Ids never repeat and only grow: one insertion hands out the current
/// counter value; no store operation ever lowers the counter; so of two
/// insertions, in any order of other operations between them, the later
/// one receives the strictly larger id.
pub proof fn lemma_add_ids_strictly_increase(
    pre1: TodoStoreView,
    post1: TodoStoreView,
    a1: IdentifyableTodoItemView,
    pre2: TodoStoreView,
    post2: TodoStoreView,
    a2: IdentifyableTodoItemView,
)
    requires
        add_effect(pre1, post1, a1),
        post1.next_id <= pre2.next_id,
        add_effect(pre2, post2, a2),
    ensures
        a2.id > a1.id,
{
}

/// The id an insertion hands out is carried by no item already stored.
pub proof fn lemma_add_id_fresh(
    pre: TodoStoreView,
    post: TodoStoreView,
    added: IdentifyableTodoItemView,
)
    requires
        store_wf(pre),
        add_effect(pre, post, added),
    ensures
        forall|i: int| 0 <= i < pre.items.len() ==> #[trigger] pre.items[i].id != added.id,
{
}

} // verus!
