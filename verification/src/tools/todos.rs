//! The todo-list tool: validation, updates and the rendered checklist.
use vstd::prelude::*;

use super::{is_err_with, is_ok_with, ToolResult};
use crate::protocol::owned;
use crate::text::{chars_of, eq_str, push_chars, push_str, string_from_chars, trim, trim_chars, trim_end, trim_end_index};

verus! {

/// One todo item.
#[derive(Debug, Clone)]
pub struct TodoItem {
    pub id: String,
    pub content: String,
    pub status: String,
    pub priority: String,
}

/// The fields of a todo item as character sequences.
pub struct TodoModel {
    pub id: Seq<char>,
    pub content: Seq<char>,
    pub status: Seq<char>,
    pub priority: Seq<char>,
}

impl View for TodoItem {
    type V = TodoModel;

    open spec fn view(&self) -> TodoModel {
        TodoModel {
            id: self.id@,
            content: self.content@,
            status: self.status@,
            priority: self.priority@,
        }
    }
}

/// A change to one todo item, addressed by id.
#[derive(Debug, Clone)]
pub struct TodoUpdate {
    pub id: String,
    pub status: Option<String>,
    pub content: Option<String>,
    pub priority: Option<String>,
}

/// The todo list of a session.
#[derive(Debug, Clone)]
pub struct TodoStore {
    pub items: Vec<TodoItem>,
}

/// Views of a list of items.
pub open spec fn models(items: Seq<TodoItem>) -> Seq<TodoModel> {
    items.map_values(|t: TodoItem| t@)
}

/// `pending`, `in_progress` or `completed`.
pub open spec fn valid_status(s: Seq<char>) -> bool {
    s == "pending"@ || s == "in_progress"@ || s == "completed"@
}

/// `high`, `medium` or `low`.
pub open spec fn valid_priority(s: Seq<char>) -> bool {
    s == "high"@ || s == "medium"@ || s == "low"@
}

/// An item with a non-blank id and content and a known status and priority.
pub open spec fn valid_item(t: TodoModel) -> bool {
    trim(t.id).len() > 0 && trim(t.content).len() > 0 && valid_status(t.status) && valid_priority(
        t.priority,
    )
}

/// Every item is valid.
pub open spec fn all_valid(ts: Seq<TodoModel>) -> bool {
    forall|i: int| 0 <= i < ts.len() ==> valid_item(#[trigger] ts[i])
}

/// Whether `status` is a known status.
pub fn is_valid_status(status: &str) -> (r: bool)
    ensures
        r == valid_status(status@),
{
    let s = chars_of(status);
    eq_str(s.as_slice(), "pending") || eq_str(s.as_slice(), "in_progress") || eq_str(
        s.as_slice(),
        "completed",
    )
}

/// Whether `priority` is a known priority.
pub fn is_valid_priority(priority: &str) -> (r: bool)
    ensures
        r == valid_priority(priority@),
{
    let s = chars_of(priority);
    eq_str(s.as_slice(), "high") || eq_str(s.as_slice(), "medium") || eq_str(s.as_slice(), "low")
}

/// Whether a todo item is complete and well-formed.
pub fn is_valid_todo_item(item: &TodoItem) -> (r: bool)
    ensures
        r == valid_item(item@),
{
    let id = chars_of(item.id.as_str());
    let content = chars_of(item.content.as_str());
    trim_chars(id.as_slice()).len() > 0 && trim_chars(content.as_slice()).len() > 0
        && is_valid_status(item.status.as_str()) && is_valid_priority(item.priority.as_str())
}

/// The marker shown for a status.
pub open spec fn marker(status: Seq<char>) -> Seq<char> {
    if status == "completed"@ {
        "●"@
    } else if status == "in_progress"@ {
        "◐"@
    } else {
        "○"@
    }
}

/// The checklist lines of `ts`, the first unindented and the others indented by two spaces.
pub open spec fn todo_lines(ts: Seq<TodoModel>) -> Seq<char>
    decreases ts.len(),
{
    if ts.len() == 0 {
        Seq::empty()
    } else {
        let i = ts.len() - 1;
        todo_lines(ts.drop_last()) + (if i == 0 {
            Seq::empty()
        } else {
            "  "@
        }) + marker(ts.last().status) + " "@ + ts.last().content + "\n"@
    }
}

/// The rendered checklist: a placeholder when empty, otherwise the lines without
/// trailing white space.
pub open spec fn checklist(ts: Seq<TodoModel>) -> Seq<char> {
    if ts.len() == 0 {
        "No todos created yet"@
    } else {
        trim_end(todo_lines(ts))
    }
}

/// Renders a todo list as a checklist.
pub fn format_todo_list(todos: &[TodoItem]) -> (r: String)
    ensures
        r@ == checklist(models(todos@)),
{
    if todos.len() == 0 {
        return owned("No todos created yet");
    }
    let mut out: Vec<char> = Vec::new();
    let mut i: usize = 0;
    while i < todos.len()
        invariant
            i <= todos.len(),
            out@ == todo_lines(models(todos@.take(i as int))),
        decreases todos.len() - i,
    {
        let t = &todos[i];
        if i > 0 {
            push_str(&mut out, "  ");
        }
        let st = chars_of(t.status.as_str());
        if eq_str(st.as_slice(), "completed") {
            push_str(&mut out, "●");
        } else if eq_str(st.as_slice(), "in_progress") {
            push_str(&mut out, "◐");
        } else {
            push_str(&mut out, "○");
        }
        push_str(&mut out, " ");
        push_str(&mut out, t.content.as_str());
        push_str(&mut out, "\n");
        proof {
            let ms = models(todos@.take(i + 1));
            assert(ms.drop_last() =~= models(todos@.take(i as int)));
            assert(ms.last() == todos@[i as int]@);
            assert(ms.len() == i + 1);
        }
        i += 1;
    }
    assert(todos@.take(todos.len() as int) == todos@);
    let j = trim_end_index(out.as_slice(), out.len());
    assert(out@.take(out.len() as int) == out@);
    let kept = crate::text::slice_chars(out.as_slice(), 0, j);
    string_from_chars(kept.as_slice())
}

/// The error reported when a created list holds an invalid item.
pub open spec fn invalid_list_message() -> Seq<char> {
    "Each todo must include id, content, status(pending|in_progress|completed), and priority(high|medium|low)"@
}

/// Replaces the list with `todos` when every item is valid, and reports the checklist;
/// otherwise reports the error and leaves the list unchanged.
pub fn execute_create_todo_list(todos: Vec<TodoItem>, store: &mut TodoStore) -> (r: ToolResult)
    ensures
        all_valid(models(todos@)) ==> models(final(store).items@) == models(todos@) && is_ok_with(
            r,
            checklist(models(todos@)),
        ),
        !all_valid(models(todos@)) ==> models(final(store).items@) == models(old(store).items@)
            && is_err_with(r, invalid_list_message()),
{
    let mut i: usize = 0;
    while i < todos.len()
        invariant
            i <= todos.len(),
            forall|j: int| 0 <= j < i ==> valid_item(#[trigger] todos@[j]@),
        decreases todos.len() - i,
    {
        if !is_valid_todo_item(&todos[i]) {
            proof {
                assert(!valid_item(models(todos@)[i as int]));
            }
            return ToolResult::err(
                "Each todo must include id, content, status(pending|in_progress|completed), and priority(high|medium|low)",
            );
        }
        i += 1;
    }
    assert(all_valid(models(todos@)));
    store.items = todos;
    let out = format_todo_list(store.items.as_slice());
    ToolResult::ok(out.as_str())
}

/// Index of the first item with id `id`, or `ts.len()`.
pub open spec fn index_of_id(ts: Seq<TodoModel>, id: Seq<char>) -> int
    decreases ts.len(),
{
    if ts.len() == 0 {
        0
    } else if ts[0].id == id {
        0
    } else {
        1 + index_of_id(ts.drop_first(), id)
    }
}

proof fn lemma_index_of_id(ts: Seq<TodoModel>, id: Seq<char>)
    ensures
        0 <= index_of_id(ts, id) <= ts.len(),
        index_of_id(ts, id) < ts.len() ==> ts[index_of_id(ts, id)].id == id,
        forall|j: int| 0 <= j < index_of_id(ts, id) ==> (#[trigger] ts[j]).id != id,
    decreases ts.len(),
{
    if ts.len() > 0 && ts[0].id != id {
        lemma_index_of_id(ts.drop_first(), id);
        assert forall|j: int| 0 <= j < index_of_id(ts, id) implies (#[trigger] ts[j]).id != id by {
            if j > 0 {
                assert(ts[j] == ts.drop_first()[j - 1]);
            }
        }
    }
}

/// The result of applying updates: the items reached, and the error that stopped
/// the updates, if one did.
pub struct UpdateModel {
    pub items: Seq<TodoModel>,
    pub error: Option<Seq<char>>,
}

/// The message for an id that is not in the list.
pub open spec fn missing_id_message(id: Seq<char>) -> Seq<char> {
    "Todo with id '"@ + id + "' not found"@
}

/// The message for an unknown status.
pub open spec fn bad_status_message(s: Seq<char>) -> Seq<char> {
    "Invalid status: "@ + s + ". Must be pending, in_progress, or completed"@
}

/// The message for an unknown priority.
pub open spec fn bad_priority_message(p: Seq<char>) -> Seq<char> {
    "Invalid priority: "@ + p + ". Must be high, medium, or low"@
}

/// One update applied to the first item with its id: status, then content, then
/// priority. A bad status stops before any change; a bad priority stops after
/// the status and content were changed.
pub open spec fn apply_update(ts: Seq<TodoModel>, u: TodoUpdate) -> UpdateModel {
    let k = index_of_id(ts, u.id@);
    if k >= ts.len() {
        UpdateModel { items: ts, error: Some(missing_id_message(u.id@)) }
    } else {
        let t = ts[k];
        match u.status {
            Some(s) if !valid_status(s@) => UpdateModel {
                items: ts,
                error: Some(bad_status_message(s@)),
            },
            _ => {
                let t1 = TodoModel {
                    status: match u.status {
                        Some(s) => s@,
                        None => t.status,
                    },
                    content: match u.content {
                        Some(c) => c@,
                        None => t.content,
                    },
                    ..t
                };
                match u.priority {
                    Some(p) => if valid_priority(p@) {
                        UpdateModel { items: ts.update(k, TodoModel { priority: p@, ..t1 }), error: None }
                    } else {
                        UpdateModel { items: ts.update(k, t1), error: Some(bad_priority_message(p@)) }
                    },
                    None => UpdateModel { items: ts.update(k, t1), error: None },
                }
            },
        }
    }
}

/// Updates applied in order, stopping at the first error.
pub open spec fn apply_updates(ts: Seq<TodoModel>, us: Seq<TodoUpdate>) -> UpdateModel
    decreases us.len(),
{
    if us.len() == 0 {
        UpdateModel { items: ts, error: None }
    } else {
        let first = apply_update(ts, us[0]);
        match first.error {
            Some(e) => first,
            None => apply_updates(first.items, us.drop_first()),
        }
    }
}

proof fn lemma_apply_updates_empty(ts: Seq<TodoModel>)
    ensures
        apply_updates(ts, Seq::<TodoUpdate>::empty()) == (UpdateModel { items: ts, error: None }),
{
}

proof fn lemma_apply_updates_step(ts: Seq<TodoModel>, us: Seq<TodoUpdate>, i: int)
    requires
        0 <= i < us.len(),
        apply_updates(ts, us.take(i)).error is None,
    ensures
        apply_updates(ts, us.take(i + 1)) == apply_update(apply_updates(ts, us.take(i)).items, us[i]),
    decreases i,
{
    let first = apply_update(ts, us[0]);
    assert(us.take(i + 1)[0] == us[0]);
    if i == 0 {
        assert(us.take(1).drop_first() =~= Seq::<TodoUpdate>::empty());
        assert(us.take(0) =~= Seq::<TodoUpdate>::empty());
        lemma_apply_updates_empty(ts);
        lemma_apply_updates_empty(first.items);
    } else {
        assert(us.take(i)[0] == us[0]);
        assert(first.error is None);
        let rest = us.drop_first();
        assert(us.take(i + 1).drop_first() =~= rest.take(i));
        assert(us.take(i).drop_first() =~= rest.take(i - 1));
        lemma_apply_updates_step(first.items, rest, i - 1);
        assert(rest[i - 1] == us[i]);
    }
}

proof fn lemma_apply_updates_stop(ts: Seq<TodoModel>, us: Seq<TodoUpdate>, i: int)
    requires
        0 <= i <= us.len(),
        apply_updates(ts, us.take(i)).error is Some,
    ensures
        apply_updates(ts, us) == apply_updates(ts, us.take(i)),
    decreases i,
{
    if i == 0 {
        assert(us.take(0) =~= Seq::<TodoUpdate>::empty());
        lemma_apply_updates_empty(ts);
    } else {
        let first = apply_update(ts, us[0]);
        assert(us.take(i)[0] == us[0]);
        if first.error is None {
            let rest = us.drop_first();
            assert(us.take(i).drop_first() =~= rest.take(i - 1));
            lemma_apply_updates_stop(first.items, rest, i - 1);
        }
    }
}

/// A copy of an item.
pub fn clone_item(t: &TodoItem) -> (r: TodoItem)
    ensures
        r@ == t@,
{
    TodoItem {
        id: t.id.clone(),
        content: t.content.clone(),
        status: t.status.clone(),
        priority: t.priority.clone(),
    }
}

/// Index of the first item with id `id`, or `items.len()`.
fn find_todo_index(items: &[TodoItem], id: &str) -> (k: usize)
    ensures
        k as int == index_of_id(models(items@), id@),
{
    proof {
        lemma_index_of_id(models(items@), id@);
    }
    let uid = chars_of(id);
    let mut k: usize = 0;
    while k < items.len()
        invariant
            k <= items.len(),
            uid@ == id@,
            index_of_id(models(items@), id@) >= k,
            0 <= index_of_id(models(items@), id@) <= items.len(),
            index_of_id(models(items@), id@) < items.len() ==> models(items@)[index_of_id(models(items@), id@)].id == id@,
            forall|j: int| 0 <= j < index_of_id(models(items@), id@) ==> (#[trigger] models(items@)[j]).id != id@,
        decreases items.len() - k,
    {
        let cur = chars_of(items[k].id.as_str());
        assert(models(items@)[k as int] == items@[k as int]@);
        if crate::text::chars_eq(cur.as_slice(), uid.as_slice()) {
            return k;
        }
        k += 1;
    }
    k
}

/// Applies updates to the list in order and reports the checklist; the first
/// failing update stops the rest and is reported, and what was applied before
/// it stays applied.
pub fn execute_update_todo_list(updates: Vec<TodoUpdate>, store: &mut TodoStore) -> (r: ToolResult)
    ensures
        ({
            let m = apply_updates(models(old(store).items@), updates@);
            &&& models(final(store).items@) == m.items
            &&& match m.error {
                Some(e) => is_err_with(r, e),
                None => is_ok_with(r, checklist(m.items)),
            }
        }),
{
    let ghost start = models(store.items@);
    let mut i: usize = 0;
    assert(updates@.take(0) =~= Seq::<TodoUpdate>::empty());
    while i < updates.len()
        invariant
            i <= updates.len(),
            start == models(old(store).items@),
            apply_updates(start, updates@.take(i as int)).error is None,
            models(store.items@) == apply_updates(start, updates@.take(i as int)).items,
        decreases updates.len() - i,
    {
        let u = &updates[i];
        proof {
            lemma_apply_updates_step(start, updates@, i as int);
            lemma_index_of_id(models(store.items@), u.id@);
        }
        let k = find_todo_index(store.items.as_slice(), u.id.as_str());
        let ghost ts = models(store.items@);
        let ghost m1 = apply_update(ts, *u);
        proof {
            assert(apply_updates(start, updates@.take(i + 1)) == m1);
        }
        if k == store.items.len() {
            let mut msg = chars_of("Todo with id '");
            push_str(&mut msg, u.id.as_str());
            push_str(&mut msg, "' not found");
            assert(msg@ =~= missing_id_message(u.id@));
            let s = string_from_chars(msg.as_slice());
            proof {
                assert(index_of_id(ts, u.id@) >= ts.len());
                assert(m1.error == Some(missing_id_message(u.id@)));
                assert(m1.items == ts);
                assert(models(store.items@) == ts);
                lemma_apply_updates_stop(start, updates@, i + 1);
                assert(apply_updates(start, updates@) == m1);
                assert(start == models(old(store).items@));
            }
            let r = ToolResult::err(s.as_str());
            assert(is_err_with(r, missing_id_message(u.id@)));
            return r;
        }
        let mut todo = clone_item(&store.items[k]);
        let ghost t0 = ts[k as int];
        assert(todo@ == t0);
        match &u.status {
            Some(status) => {
                if !is_valid_status(status.as_str()) {
                    let mut msg = chars_of("Invalid status: ");
                    push_str(&mut msg, status.as_str());
                    push_str(&mut msg, ". Must be pending, in_progress, or completed");
                    assert(msg@ =~= bad_status_message(status@));
                    let s = string_from_chars(msg.as_slice());
                    proof {
                        assert(m1.error == Some(bad_status_message(status@)));
                        assert(m1.items == ts);
                        lemma_apply_updates_stop(start, updates@, i + 1);
                    }
                    return ToolResult::err(s.as_str());
                }
                todo.status = status.clone();
            },
            None => {},
        }
        match &u.content {
            Some(content) => {
                todo.content = content.clone();
            },
            None => {},
        }
        match &u.priority {
            Some(priority) => {
                if !is_valid_priority(priority.as_str()) {
                    store.items.set(k, todo);
                    let mut msg = chars_of("Invalid priority: ");
                    push_str(&mut msg, priority.as_str());
                    push_str(&mut msg, ". Must be high, medium, or low");
                    assert(msg@ =~= bad_priority_message(priority@));
                    let s = string_from_chars(msg.as_slice());
                    proof {
                        assert(models(store.items@) =~= m1.items);
                        lemma_apply_updates_stop(start, updates@, i + 1);
                    }
                    return ToolResult::err(s.as_str());
                }
                todo.priority = priority.clone();
            },
            None => {},
        }
        store.items.set(k, todo);
        proof {
            assert(models(store.items@) =~= m1.items);
        }
        i += 1;
    }
    assert(updates@.take(updates.len() as int) == updates@);
    let out = format_todo_list(store.items.as_slice());
    ToolResult::ok(out.as_str())
}

/// Why a saved todo list was refused.
#[derive(Debug, Clone, Copy, PartialEq, Eq, Structural)]
pub enum TodoSnapshotError {
    InvalidItem,
}

impl TodoSnapshotError {
    /// The message shown for the error.
    pub fn message(&self) -> (r: String)
        ensures
            r@ == "Todo snapshot contains invalid item. Expected id/content/status/priority values."@,
    {
        owned("Todo snapshot contains invalid item. Expected id/content/status/priority values.")
    }
}

/// The list a restore leaves: the saved list when every item is valid, otherwise
/// the current list.
pub open spec fn restored_items(current: Seq<TodoModel>, saved: Seq<TodoModel>) -> Seq<TodoModel> {
    if all_valid(saved) {
        saved
    } else {
        current
    }
}

impl TodoStore {
    /// An empty list.
    pub fn new() -> (r: TodoStore)
        ensures
            r.items@.len() == 0,
    {
        TodoStore { items: Vec::new() }
    }

    /// A copy of the items, for saving.
    pub fn snapshot_items(&self) -> (r: Vec<TodoItem>)
        ensures
            models(r@) == models(self.items@),
    {
        let mut out: Vec<TodoItem> = Vec::new();
        let mut i: usize = 0;
        while i < self.items.len()
            invariant
                i <= self.items.len(),
                models(out@) == models(self.items@).take(i as int),
            decreases self.items.len() - i,
        {
            let c = clone_item(&self.items[i]);
            let ghost prev = out@;
            out.push(c);
            assert(models(out@) =~= models(prev).push(c@));
            assert(models(self.items@)[i as int] == self.items@[i as int]@);
            i += 1;
            assert(models(out@) =~= models(self.items@).take(i as int));
        }
        assert(models(self.items@).take(self.items.len() as int) =~= models(self.items@));
        out
    }

    /// Replaces the list with a saved one, refusing a saved list with an invalid item.
    pub fn restore_value(&mut self, items: Vec<TodoItem>) -> (r: Result<(), TodoSnapshotError>)
        ensures
            r is Ok <==> all_valid(models(items@)),
            models(final(self).items@) == restored_items(models(old(self).items@), models(items@)),
    {
        let mut i: usize = 0;
        while i < items.len()
            invariant
                i <= items.len(),
                forall|j: int| 0 <= j < i ==> valid_item(#[trigger] items@[j]@),
            decreases items.len() - i,
        {
            if !is_valid_todo_item(&items[i]) {
                assert(!valid_item(models(items@)[i as int]));
                return Err(TodoSnapshotError::InvalidItem);
            }
            i += 1;
        }
        assert(all_valid(models(items@)));
        self.items = items;
        Ok(())
    }
}

/// A list that `execute_create_todo_list` accepted is restored unchanged from its
/// snapshot: saving and resuming a session keeps the todo list.
pub proof fn law_created_list_survives_restore(
    current: Seq<TodoModel>,
    created: Seq<TodoModel>,
)
    requires
        all_valid(created),
    ensures
        restored_items(current, created) == created,
{
}

/// Updates that name only known statuses and priorities, and keep content non-blank,
/// leave a valid list valid.
pub proof fn law_valid_updates_keep_list_valid(ts: Seq<TodoModel>, us: Seq<TodoUpdate>)
    requires
        all_valid(ts),
        forall|i: int|
            0 <= i < us.len() ==> match (#[trigger] us[i]).content {
                Some(c) => trim(c@).len() > 0,
                None => true,
            },
    ensures
        all_valid(apply_updates(ts, us).items),
    decreases us.len(),
{
    if us.len() > 0 {
        let first = apply_update(ts, us[0]);
        lemma_index_of_id(ts, us[0].id@);
        assert(all_valid(first.items)) by {
            let k = index_of_id(ts, us[0].id@);
            assert forall|j: int| 0 <= j < first.items.len() implies valid_item(#[trigger] first.items[j]) by {
                if j != k {
                    assert(first.items[j] == ts[j]);
                }
            }
        }
        if first.error is None {
            assert forall|i: int| 0 <= i < us.drop_first().len() implies match (#[trigger] us.drop_first()[i]).content {
                Some(c) => trim(c@).len() > 0,
                None => true,
            } by {
                assert(us.drop_first()[i] == us[i + 1]);
            }
            law_valid_updates_keep_list_valid(first.items, us.drop_first());
        }
    }
}


/// An update that succeeds changes only the first item with its id, and on it
/// exactly the fields it names: a given status, content or priority replaces
/// the old one, every field it leaves out (and the id) stays; the other items
/// and the length of the list stay as they were. A list of one update does
/// just that.
pub proof fn law_update_sets_named_fields(ts: Seq<TodoModel>, u: TodoUpdate, k: int)
    requires
        0 <= k < ts.len(),
        ts[k].id == u.id@,
        forall|i: int| 0 <= i < k ==> (#[trigger] ts[i]).id != u.id@,
        apply_update(ts, u).error is None,
    ensures
        apply_updates(ts, seq![u]) == apply_update(ts, u),
        ({
            let r = apply_update(ts, u).items;
            &&& r.len() == ts.len()
            &&& forall|j: int| 0 <= j < ts.len() && j != k ==> #[trigger] r[j] == ts[j]
            &&& r[k].id == ts[k].id
            &&& r[k].content == (match u.content {
                Some(c) => c@,
                None => ts[k].content,
            })
            &&& r[k].status == (match u.status {
                Some(st) => st@,
                None => ts[k].status,
            })
            &&& r[k].priority == (match u.priority {
                Some(p) => p@,
                None => ts[k].priority,
            })
        }),
{
    lemma_index_of_id(ts, u.id@);
    assert(index_of_id(ts, u.id@) == k) by {
        let f = index_of_id(ts, u.id@);
        if f < k {
            assert(ts[f].id != u.id@);
        } else if f > k {
            assert(ts[k].id != u.id@);
        }
    }
    assert(seq![u].drop_first() =~= Seq::<TodoUpdate>::empty());
    lemma_apply_updates_empty(apply_update(ts, u).items);
}

/// An update for an id that is not in the list changes nothing and reports
/// the missing id.
pub proof fn law_update_of_missing_id_fails(ts: Seq<TodoModel>, u: TodoUpdate)
    requires
        forall|i: int| 0 <= i < ts.len() ==> (#[trigger] ts[i]).id != u.id@,
    ensures
        apply_update(ts, u).items == ts,
        apply_update(ts, u).error == Some(missing_id_message(u.id@)),
{
    lemma_index_of_id(ts, u.id@);
}


/// An update with an unknown status for an existing id changes nothing and
/// reports the status; one with an unknown priority reports the priority.
pub proof fn law_update_with_bad_values_fails(ts: Seq<TodoModel>, u: TodoUpdate, k: int)
    requires
        0 <= k < ts.len(),
        ts[k].id == u.id@,
    ensures
        u.status matches Some(st) ==> (!valid_status(st@) ==> (apply_update(ts, u).items == ts
            && apply_update(ts, u).error == Some(bad_status_message(st@)))),
        (u.status matches Some(st) ==> valid_status(st@)) ==> (u.priority matches Some(p) ==> (!valid_priority(
            p@,
        ) ==> apply_update(ts, u).error == Some(bad_priority_message(p@)))),
{
    lemma_index_of_id(ts, u.id@);
    assert(index_of_id(ts, u.id@) < ts.len()) by {
        if index_of_id(ts, u.id@) >= ts.len() {
            assert(ts[k].id != u.id@);
        }
    }
}

} // verus!
