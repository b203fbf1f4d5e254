//! The todo list: records, id assignment, and the edits the commands make.
use vstd::prelude::*;

verus! {

/// One entry of the todo list.
#[derive(Debug, PartialEq, Eq)]
pub struct Todo {
    pub id: u64,
    /// Creation time in seconds since the Unix epoch.
    pub time: u64,
    pub text: String,
    pub done: bool,
}

/// Why an edit of the list was refused.
#[derive(Debug, Clone, Copy, PartialEq, Eq, Structural)]
pub enum TodoError {
    /// The text of a new todo was empty.
    EmptyText,
    /// The largest id in use is already `u64::MAX`, so no next id exists.
    IdsExhausted,
    /// An id of zero, or a position outside the list.
    InvalidId,
}

impl Todo {
    /// A field-for-field copy.
    pub fn copy(&self) -> (r: Todo)
        ensures
            r == *self,
    {
        Todo { id: self.id, time: self.time, text: self.text.clone(), done: self.done }
    }
}

/// `t` with its done flag set to `done`.
pub open spec fn with_done(t: Todo, done: bool) -> Todo {
    Todo { id: t.id, time: t.time, text: t.text, done }
}

/// `t` with its id set to `id`.
pub open spec fn with_id(t: Todo, id: u64) -> Todo {
    Todo { id, time: t.time, text: t.text, done: t.done }
}

/// The largest id in `s`, or 0 for an empty list.
pub open spec fn max_id(s: Seq<Todo>) -> nat
    decreases s.len(),
{
    if s.len() == 0 {
        0
    } else {
        let m = max_id(s.drop_last());
        if s.last().id > m {
            s.last().id as nat
        } else {
            m
        }
    }
}

/// No two records share an id.
pub open spec fn ids_unique(s: Seq<Todo>) -> bool {
    forall|i: int, j: int| 0 <= i < j < s.len() ==> s[i].id != s[j].id
}

/// Some record of `s` has id `id`.
pub open spec fn has_id(s: Seq<Todo>, id: u64) -> bool {
    exists|i: int| 0 <= i < s.len() && s[i].id == id
}

/// `p` is the position of the first record of `s` with id `id`.
pub open spec fn first_with_id(s: Seq<Todo>, id: u64, p: int) -> bool {
    &&& 0 <= p < s.len()
    &&& s[p].id == id
    &&& forall|j: int| 0 <= j < p ==> s[j].id != id
}

/// The list after a todo with `text` and `time` is appended under the next id.
pub open spec fn added(s: Seq<Todo>, text: String, time: u64) -> Seq<Todo> {
    s.push(Todo { id: (max_id(s) + 1) as u64, time, text, done: false })
}

/// The list with every id replaced by the record's 1-based position.
pub open spec fn organized(s: Seq<Todo>) -> Seq<Todo> {
    Seq::new(s.len(), |i: int| with_id(s[i], (i + 1) as u64))
}

/// The list as it is shown: records not yet done first, then those done,
/// each group in list order.
pub open spec fn display_order(s: Seq<Todo>) -> Seq<Todo> {
    s.filter(done_is(false)) + s.filter(done_is(true))
}

/// Holds of the records whose done flag is `done`.
pub open spec fn done_is(done: bool) -> spec_fn(Todo) -> bool {
    |t: Todo| t.done == done
}

/// Every id in `s` is at most `max_id(s)`, and `max_id(s)` is one of them
/// unless `s` is empty.
pub proof fn lemma_max_id_bounds(s: Seq<Todo>)
    ensures
        forall|i: int| 0 <= i < s.len() ==> s[i].id <= max_id(s),
        s.len() > 0 ==> exists|i: int| 0 <= i < s.len() && s[i].id == max_id(s),
        max_id(s) <= u64::MAX,
    decreases s.len(),
{
    if s.len() > 0 {
        lemma_max_id_bounds(s.drop_last());
        let d = s.drop_last();
        assert forall|i: int| 0 <= i < s.len() implies s[i].id <= max_id(s) by {
            if i < s.len() - 1 {
                assert(s[i] == d[i]);
            }
        }
        if s.last().id <= max_id(d) && d.len() > 0 {
            let k = choose|k: int| 0 <= k < d.len() && d[k].id == max_id(d);
            assert(s[k] == d[k]);
        }
    }
}

/// The largest id in use, plus one; `None` when that would not fit in a `u64`.
pub fn next_id(todos: &Vec<Todo>) -> (r: Option<u64>)
    ensures
        max_id(todos@) < u64::MAX ==> r == Some((max_id(todos@) + 1) as u64),
        max_id(todos@) >= u64::MAX ==> r is None,
{
    let mut m: u64 = 0;
    let mut i: usize = 0;
    while i < todos.len()
        invariant
            i <= todos@.len(),
            m == max_id(todos@.take(i as int)),
        decreases todos@.len() - i,
    {
        assert(todos@.take(i + 1).drop_last() =~= todos@.take(i as int));
        if todos[i].id > m {
            m = todos[i].id;
        }
        i = i + 1;
    }
    assert(todos@.take(i as int) =~= todos@);
    if m == u64::MAX {
        None
    } else {
        Some(m + 1)
    }
}

/// Appends a todo that is not done, under the largest id in use plus one
/// (1 for an empty list), and returns that id. Ids freed by removals are
/// not reused.
pub fn add_todo(todos: &mut Vec<Todo>, text: String, time: u64) -> (r: Result<u64, TodoError>)
    ensures
        text@.len() == 0 ==> r == Err::<u64, TodoError>(TodoError::EmptyText),
        text@.len() > 0 && max_id(old(todos)@) >= u64::MAX ==> r == Err::<u64, TodoError>(
            TodoError::IdsExhausted,
        ),
        text@.len() > 0 && max_id(old(todos)@) < u64::MAX ==> r == Ok::<u64, TodoError>(
            (max_id(old(todos)@) + 1) as u64,
        ),
        r is Ok ==> final(todos)@ == added(old(todos)@, text, time),
        r is Err ==> final(todos)@ == old(todos)@,
{
    if text.as_str().is_empty() {
        return Err(TodoError::EmptyText);
    }
    match next_id(todos) {
        None => Err(TodoError::IdsExhausted),
        Some(id) => {
            todos.push(Todo { id, time, text, done: false });
            Ok(id)
        },
    }
}

/// The position of the first record with id `id`, if any.
fn position_of(todos: &Vec<Todo>, id: u64) -> (r: Option<usize>)
    ensures
        r matches Some(p) ==> first_with_id(todos@, id, p as int),
        r is None ==> !has_id(todos@, id),
{
    let mut i: usize = 0;
    while i < todos.len()
        invariant
            i <= todos@.len(),
            forall|j: int| 0 <= j < i ==> todos@[j].id != id,
        decreases todos@.len() - i,
    {
        if todos[i].id == id {
            return Some(i);
        }
        i = i + 1;
    }
    None
}

/// Removes the first record whose id is `id` and returns its text; when no
/// record has that id the list is left as it is and the text is empty.
/// An id of zero is refused.
pub fn remove_todo(todos: &mut Vec<Todo>, id: u64) -> (r: Result<String, TodoError>)
    ensures
        id == 0 ==> r == Err::<String, TodoError>(TodoError::InvalidId) && final(todos)@ == old(
            todos,
        )@,
        id > 0 && has_id(old(todos)@, id) ==> exists|p: int|
            first_with_id(old(todos)@, id, p) && final(todos)@ == old(todos)@.remove(p) && r
                == Ok::<String, TodoError>(old(todos)@[p].text),
        id > 0 && !has_id(old(todos)@, id) ==> final(todos)@ == old(todos)@ && (r matches Ok(
            name) && name@.len() == 0),
{
    if id == 0 {
        return Err(TodoError::InvalidId);
    }
    match position_of(todos, id) {
        Some(p) => {
            let t = todos.remove(p);
            Ok(t.text)
        },
        None => Ok(String::new()),
    }
}

/// Marks the first record whose id is `id` as done and returns its text; when
/// no record has that id the list is left as it is and the text is empty.
/// An id of zero is refused.
pub fn mark_done(todos: &mut Vec<Todo>, id: u64) -> (r: Result<String, TodoError>)
    ensures
        id == 0 ==> r == Err::<String, TodoError>(TodoError::InvalidId) && final(todos)@ == old(
            todos,
        )@,
        id > 0 && has_id(old(todos)@, id) ==> exists|p: int|
            first_with_id(old(todos)@, id, p) && final(todos)@ == old(todos)@.update(
                p,
                with_done(old(todos)@[p], true),
            ) && r == Ok::<String, TodoError>(old(todos)@[p].text),
        id > 0 && !has_id(old(todos)@, id) ==> final(todos)@ == old(todos)@ && (r matches Ok(
            name) && name@.len() == 0),
{
    if id == 0 {
        return Err(TodoError::InvalidId);
    }
    match position_of(todos, id) {
        Some(p) => {
            let t = Todo {
                id: todos[p].id,
                time: todos[p].time,
                text: todos[p].text.clone(),
                done: true,
            };
            let name = todos[p].text.clone();
            todos.set(p, t);
            Ok(name)
        },
        None => Ok(String::new()),
    }
}

/// Marks the record at the 1-based position `index` as not done. Unlike
/// `remove_todo` and `mark_done` this goes by position in the list, not by id.
/// A position outside `1..=len` is refused.
pub fn mark_undone(todos: &mut Vec<Todo>, index: usize) -> (r: Result<(), TodoError>)
    ensures
        1 <= index <= old(todos)@.len() ==> r is Ok && final(todos)@ == old(todos)@.update(
            index - 1,
            with_done(old(todos)@[index - 1], false),
        ),
        !(1 <= index <= old(todos)@.len()) ==> r == Err::<(), TodoError>(TodoError::InvalidId)
            && final(todos)@ == old(todos)@,
{
    if index == 0 || index > todos.len() {
        return Err(TodoError::InvalidId);
    }
    let p = index - 1;
    let t = Todo {
        id: todos[p].id,
        time: todos[p].time,
        text: todos[p].text.clone(),
        done: false,
    };
    todos.set(p, t);
    Ok(())
}

/// Renumbers the list: each record's id becomes its 1-based position.
pub fn organize(todos: &mut Vec<Todo>)
    ensures
        final(todos)@ == organized(old(todos)@),
{
    let ghost orig = todos@;
    let mut i: usize = 0;
    while i < todos.len()
        invariant
            todos@.len() == orig.len(),
            i <= orig.len(),
            forall|j: int| 0 <= j < i ==> todos@[j] == with_id(orig[j], (j + 1) as u64),
            forall|j: int| i <= j < orig.len() ==> todos@[j] == orig[j],
        decreases orig.len() - i,
    {
        let t = Todo {
            id: (i + 1) as u64,
            time: todos[i].time,
            text: todos[i].text.clone(),
            done: todos[i].done,
        };
        todos.set(i, t);
        i = i + 1;
    }
    assert(todos@ =~= organized(orig));
}

proof fn lemma_filter_take_step(s: Seq<Todo>, f: spec_fn(Todo) -> bool, i: int)
    requires
        0 <= i < s.len(),
    ensures
        s.take(i + 1).filter(f) == if f(s[i]) {
            s.take(i).filter(f).push(s[i])
        } else {
            s.take(i).filter(f)
        },
{
    reveal(Seq::filter);
    assert(s.take(i + 1).drop_last() =~= s.take(i));
}

/// Copies of the records of `todos` whose done flag is `done`, in list order.
fn copies_with_done(todos: &Vec<Todo>, done: bool) -> (r: Vec<Todo>)
    ensures
        r@ == todos@.filter(done_is(done)),
{
    let ghost f = done_is(done);
    let mut out: Vec<Todo> = Vec::new();
    let mut i: usize = 0;
    while i < todos.len()
        invariant
            i <= todos@.len(),
            f == done_is(done),
            out@ == todos@.take(i as int).filter(f),
        decreases todos@.len() - i,
    {
        proof {
            lemma_filter_take_step(todos@, f, i as int);
        }
        if todos[i].done == done {
            out.push(todos[i].copy());
        }
        i = i + 1;
    }
    assert(todos@.take(i as int) =~= todos@);
    out
}

/// The records in the order they are listed: not done first, then done; a
/// stable partition of the list.
pub fn sorted_for_display(todos: &Vec<Todo>) -> (r: Vec<Todo>)
    ensures
        r@ == display_order(todos@),
{
    let mut open_items = copies_with_done(todos, false);
    let mut done_items = copies_with_done(todos, true);
    open_items.append(&mut done_items);
    open_items
}

/// The list after each `(text, time)` of `entries` is added in turn.
pub open spec fn added_all(s: Seq<Todo>, entries: Seq<(String, u64)>) -> Seq<Todo>
    decreases entries.len(),
{
    if entries.len() == 0 {
        s
    } else {
        let e = entries.last();
        added(added_all(s, entries.drop_last()), e.0, e.1)
    }
}

/// Adding todos to an empty list numbers them 1, 2, ... in the order they
/// were added.
pub proof fn lemma_adds_number_from_one(entries: Seq<(String, u64)>)
    requires
        entries.len() < u64::MAX,
    ensures
        added_all(Seq::empty(), entries).len() == entries.len(),
        max_id(added_all(Seq::empty(), entries)) == entries.len(),
        forall|i: int|
            0 <= i < entries.len() ==> #[trigger] added_all(Seq::empty(), entries)[i] == (Todo {
                id: (i + 1) as u64,
                time: entries[i].1,
                text: entries[i].0,
                done: false,
            }),
    decreases entries.len(),
{
    if entries.len() > 0 {
        let d = entries.drop_last();
        lemma_adds_number_from_one(d);
        let prev = added_all(Seq::empty(), d);
        let cur = added_all(Seq::empty(), entries);
        assert(cur.drop_last() =~= prev);
        assert forall|i: int| 0 <= i < entries.len() implies #[trigger] cur[i] == (Todo {
            id: (i + 1) as u64,
            time: entries[i].1,
            text: entries[i].0,
            done: false,
        }) by {
            if i < d.len() {
                assert(cur[i] == prev[i]);
                assert(entries[i] == d[i]);
            }
        }
    }
}

/// A newly added todo gets an id that no record has yet, so ids stay unique.
pub proof fn lemma_added_keeps_ids_unique(s: Seq<Todo>, text: String, time: u64)
    requires
        ids_unique(s),
        max_id(s) < u64::MAX,
    ensures
        ids_unique(added(s, text, time)),
        !has_id(s, (max_id(s) + 1) as u64),
{
    lemma_max_id_bounds(s);
    let r = added(s, text, time);
    assert forall|i: int, j: int| 0 <= i < j < r.len() implies r[i].id != r[j].id by {
        if j < s.len() {
            assert(r[i] == s[i] && r[j] == s[j]);
        } else {
            assert(r[i] == s[i]);
        }
    }
}

/// Removing a record by an id that is present, in a list with unique ids,
/// leaves no record with that id and shortens the list by exactly one.
pub proof fn lemma_remove_existing_id(s: Seq<Todo>, id: u64, p: int)
    requires
        ids_unique(s),
        first_with_id(s, id, p),
    ensures
        !has_id(s.remove(p), id),
        s.remove(p).len() == s.len() - 1,
        ids_unique(s.remove(p)),
{
    let r = s.remove(p);
    assert forall|i: int| 0 <= i < r.len() implies r[i].id != id by {
        if i < p {
            assert(r[i] == s[i]);
        } else {
            assert(r[i] == s[i + 1]);
        }
    }
    assert forall|i: int, j: int| 0 <= i < j < r.len() implies r[i].id != r[j].id by {
        let si = if i < p { i } else { i + 1 };
        let sj = if j < p { j } else { j + 1 };
        assert(r[i] == s[si] && r[j] == s[sj]);
    }
}

/// After renumbering, the ids are exactly 1..=n in list order (so unique),
/// and every other field is kept.
pub proof fn lemma_organized_numbers_in_order(s: Seq<Todo>)
    requires
        s.len() <= u64::MAX,
    ensures
        organized(s).len() == s.len(),
        forall|i: int| 0 <= i < s.len() ==> #[trigger] organized(s)[i].id == i + 1,
        forall|i: int|
            0 <= i < s.len() ==> #[trigger] organized(s)[i].text == s[i].text && organized(s)[i].time
                == s[i].time && organized(s)[i].done == s[i].done,
        ids_unique(organized(s)),
{
}

/// In a list with unique ids, marking id `id` done sets the done flag of the
/// one record with that id and leaves every other record as it was.
pub proof fn lemma_mark_done_touches_only_match(s: Seq<Todo>, id: u64, p: int)
    requires
        ids_unique(s),
        first_with_id(s, id, p),
    ensures
        forall|j: int|
            0 <= j < s.len() && s[j].id != id ==> #[trigger] s.update(p, with_done(s[p], true))[j]
                == s[j],
        forall|j: int|
            0 <= j < s.len() && s[j].id == id ==> #[trigger] s.update(p, with_done(s[p], true))[j]
                == with_done(s[j], true),
{
    assert forall|j: int| 0 <= j < s.len() && s[j].id == id implies j == p by {
        if j != p {
            if j < p {
                assert(s[j].id != s[p].id);
            } else {
                assert(s[p].id != s[j].id);
            }
        }
    }
}

} // verus!
