//! The arguments of the built-in tools' calls, read from the JSON text the
//! model sent: an unreadable text counts as an empty object, a missing string
//! argument is an error, and optional arguments get their defaults.
use vstd::prelude::*;

use crate::chunk_json::{opt_text_member, read_opt_text};
use crate::protocol::{opt_view, owned};
use crate::responses_adapter::{get_spec, get_str, json_get, json_get_str, json_of, parse_json, Json};
use crate::tools::todos::{TodoItem, TodoUpdate};
use crate::text::{chars_of, push_str, string_from_chars};

verus! {

/// The arguments of a tool call: its text read as JSON, or an empty object when
/// the text is not JSON.
pub fn tool_arguments(arguments: &str) -> (r: Json)
    ensures
        match json_of(arguments@) {
            Some(j) => r == j,
            None => r matches Json::Object(f) && f@.len() == 0,
        },
{
    match parse_json(arguments) {
        Some(j) => j,
        None => Json::Object(Vec::new()),
    }
}

/// The error for a missing string argument.
pub open spec fn missing_message(key: Seq<char>) -> Seq<char> {
    "Missing '"@ + key + "' argument"@
}

/// A required string argument: its text, or the error naming it.
pub fn required_str(args: &Json, key: &str) -> (r: Result<String, String>)
    ensures
        match get_str(*args, key@) {
            Some(v) => r matches Ok(s) && s@ == v,
            None => r matches Err(e) && e@ == missing_message(key@),
        },
{
    match json_get_str(args, key) {
        Some(v) => Ok(v),
        None => {
            let mut m = chars_of("Missing '");
            push_str(&mut m, key);
            push_str(&mut m, "' argument");
            Err(string_from_chars(m.as_slice()))
        },
    }
}

/// An optional line number: a whole number that fits in `usize`.
pub open spec fn line_arg(args: Json, key: Seq<char>) -> Option<usize> {
    match get_spec(args, key) {
        Some(Json::Number(Some(n))) => if n <= usize::MAX {
            Some(n as usize)
        } else {
            None
        },
        _ => None,
    }
}

/// An optional line number argument (see `line_arg`).
pub fn optional_line(args: &Json, key: &str) -> (r: Option<usize>)
    ensures
        r == line_arg(*args, key@),
{
    match json_get(args, key) {
        Some(Json::Number(Some(n))) => if *n <= usize::MAX as u64 {
            Some(*n as usize)
        } else {
            None
        },
        _ => None,
    }
}

/// An optional flag: `true` only when the argument is the JSON `true`.
pub open spec fn flag_arg(args: Json, key: Seq<char>) -> bool {
    get_spec(args, key) == Some(Json::Bool(true))
}

/// An optional flag argument, `false` unless given as `true`.
pub fn optional_flag(args: &Json, key: &str) -> (r: bool)
    ensures
        r == flag_arg(*args, key@),
{
    match json_get(args, key) {
        Some(Json::Bool(b)) => *b,
        _ => false,
    }
}

/// The arguments of `view_file`.
#[derive(Debug)]
pub struct ViewArgs {
    pub path: String,
    pub start_line: Option<usize>,
    pub end_line: Option<usize>,
}

/// The arguments of `view_file`: `path` is required; `start_line` and
/// `end_line` are optional.
pub fn view_file_args(args: &Json) -> (r: Result<ViewArgs, String>)
    ensures
        match get_str(*args, "path"@) {
            Some(p) => r matches Ok(a) && a.path@ == p && a.start_line == line_arg(*args, "start_line"@)
                && a.end_line == line_arg(*args, "end_line"@),
            None => r matches Err(e) && e@ == missing_message("path"@),
        },
{
    let path = required_str(args, "path")?;
    Ok(ViewArgs { path, start_line: optional_line(args, "start_line"), end_line: optional_line(args, "end_line") })
}

/// The arguments of `create_file`.
#[derive(Debug)]
pub struct CreateArgs {
    pub path: String,
    pub content: String,
}

/// The arguments of `create_file`: `path`, then `content`, both required.
pub fn create_file_args(args: &Json) -> (r: Result<CreateArgs, String>)
    ensures
        match (get_str(*args, "path"@), get_str(*args, "content"@)) {
            (Some(p), Some(c)) => r matches Ok(a) && a.path@ == p && a.content@ == c,
            (None, _) => r matches Err(e) && e@ == missing_message("path"@),
            (Some(_), None) => r matches Err(e) && e@ == missing_message("content"@),
        },
{
    let path = required_str(args, "path")?;
    let content = required_str(args, "content")?;
    Ok(CreateArgs { path, content })
}

/// The arguments of `str_replace_editor`.
#[derive(Debug)]
pub struct EditArgs {
    pub path: String,
    pub old_str: String,
    pub new_str: String,
    pub replace_all: bool,
}

/// The arguments of `str_replace_editor`: `path`, `old_str` and `new_str` are
/// required (the first missing one is named); `replace_all` defaults to false.
pub fn edit_args(args: &Json) -> (r: Result<EditArgs, String>)
    ensures
        match (get_str(*args, "path"@), get_str(*args, "old_str"@), get_str(*args, "new_str"@)) {
            (Some(p), Some(o), Some(n)) => r matches Ok(a) && a.path@ == p && a.old_str@ == o && a.new_str@ == n
                && a.replace_all == flag_arg(*args, "replace_all"@),
            (None, _, _) => r matches Err(e) && e@ == missing_message("path"@),
            (Some(_), None, _) => r matches Err(e) && e@ == missing_message("old_str"@),
            (Some(_), Some(_), None) => r matches Err(e) && e@ == missing_message("new_str"@),
        },
{
    let path = required_str(args, "path")?;
    let old_str = required_str(args, "old_str")?;
    let new_str = required_str(args, "new_str")?;
    Ok(EditArgs { path, old_str, new_str, replace_all: optional_flag(args, "replace_all") })
}

/// The argument of `bash`: its required `command`.
pub fn bash_args(args: &Json) -> (r: Result<String, String>)
    ensures
        match get_str(*args, "command"@) {
            Some(c) => r matches Ok(s) && s@ == c,
            None => r matches Err(e) && e@ == missing_message("command"@),
        },
{
    required_str(args, "command")
}


/// A readable todo item: an object with texts `id`, `content`, `status` and
/// `priority`.
pub open spec fn todo_item_ok(j: Json) -> bool {
    &&& j is Object
    &&& get_str(j, "id"@) is Some
    &&& get_str(j, "content"@) is Some
    &&& get_str(j, "status"@) is Some
    &&& get_str(j, "priority"@) is Some
}

/// The todo item read from `j`.
pub open spec fn todo_item_is(j: Json, t: TodoItem) -> bool {
    &&& t.id@ == get_str(j, "id"@)->0
    &&& t.content@ == get_str(j, "content"@)->0
    &&& t.status@ == get_str(j, "status"@)->0
    &&& t.priority@ == get_str(j, "priority"@)->0
}

/// A readable todo change: an object with a text `id` and optional texts
/// `status`, `content` and `priority`.
pub open spec fn todo_update_ok(j: Json) -> bool {
    &&& j is Object
    &&& get_str(j, "id"@) is Some
    &&& opt_text_member(j, "status"@) is Some
    &&& opt_text_member(j, "content"@) is Some
    &&& opt_text_member(j, "priority"@) is Some
}

/// The todo change read from `j`.
pub open spec fn todo_update_is(j: Json, u: TodoUpdate) -> bool {
    &&& u.id@ == get_str(j, "id"@)->0
    &&& opt_view(u.status) == opt_text_member(j, "status"@)->0
    &&& opt_view(u.content) == opt_text_member(j, "content"@)->0
    &&& opt_view(u.priority) == opt_text_member(j, "priority"@)->0
}

/// The error when the `todos` argument is absent.
pub open spec fn missing_todos_message() -> Seq<char> {
    "Missing 'todos' argument"@
}

/// The error when the `todos` argument cannot be read.
pub open spec fn invalid_todos_message() -> Seq<char> {
    "Invalid 'todos' argument"@
}

/// The error when the `updates` argument is absent.
pub open spec fn missing_updates_message() -> Seq<char> {
    "Missing 'updates' argument"@
}

/// The error when the `updates` argument cannot be read.
pub open spec fn invalid_updates_message() -> Seq<char> {
    "Invalid 'updates' argument"@
}

fn read_todo_item(j: &Json) -> (r: Option<TodoItem>)
    ensures
        todo_item_ok(*j) <==> r is Some,
        r matches Some(t) ==> todo_item_is(*j, t),
{
    if !matches!(j, Json::Object(_)) {
        return None;
    }
    let id = json_get_str(j, "id")?;
    let content = json_get_str(j, "content")?;
    let status = json_get_str(j, "status")?;
    let priority = json_get_str(j, "priority")?;
    Some(TodoItem { id, content, status, priority })
}

fn read_todo_update(j: &Json) -> (r: Option<TodoUpdate>)
    ensures
        todo_update_ok(*j) <==> r is Some,
        r matches Some(u) ==> todo_update_is(*j, u),
{
    if !matches!(j, Json::Object(_)) {
        return None;
    }
    let id = json_get_str(j, "id")?;
    let status = read_opt_text(j, "status")?;
    let content = read_opt_text(j, "content")?;
    let priority = read_opt_text(j, "priority")?;
    Some(TodoUpdate { id, status, content, priority })
}

/// The argument of `create_todo_list`: its array `todos` of items.
pub fn todos_args(args: &Json) -> (r: Result<Vec<TodoItem>, String>)
    ensures
        match get_spec(*args, "todos"@) {
            None => r matches Err(e) && e@ == missing_todos_message(),
            Some(Json::Array(items)) => if forall|k: int| 0 <= k < items@.len() ==> #[trigger] todo_item_ok(items@[k]) {
                r matches Ok(v) && v@.len() == items@.len() && forall|k: int|
                    0 <= k < items@.len() ==> #[trigger] todo_item_is(items@[k], v@[k])
            } else {
                r matches Err(e) && e@ == invalid_todos_message()
            },
            Some(_) => r matches Err(e) && e@ == invalid_todos_message(),
        },
{
    let items = match json_get(args, "todos") {
        None => return Err(owned("Missing 'todos' argument")),
        Some(v) => match v {
            Json::Array(items) => items,
            _ => return Err(owned("Invalid 'todos' argument")),
        },
    };
    let mut out: Vec<TodoItem> = Vec::new();
    let mut k: usize = 0;
    while k < items.len()
        invariant
            k <= items.len(),
            out@.len() == k,
            get_spec(*args, "todos"@) matches Some(Json::Array(its)) && its@ == items@,
            forall|m: int| 0 <= m < k ==> todo_item_ok(#[trigger] items@[m]) && todo_item_is(items@[m], out@[m]),
        decreases items.len() - k,
    {
        match read_todo_item(&items[k]) {
            Some(t) => out.push(t),
            None => {
                assert(!todo_item_ok(items@[k as int]));
                return Err(owned("Invalid 'todos' argument"));
            },
        }
        k += 1;
    }
    Ok(out)
}

/// The argument of `update_todo_list`: its array `updates` of changes.
pub fn updates_args(args: &Json) -> (r: Result<Vec<TodoUpdate>, String>)
    ensures
        match get_spec(*args, "updates"@) {
            None => r matches Err(e) && e@ == missing_updates_message(),
            Some(Json::Array(items)) => if forall|k: int| 0 <= k < items@.len() ==> #[trigger] todo_update_ok(items@[k]) {
                r matches Ok(v) && v@.len() == items@.len() && forall|k: int|
                    0 <= k < items@.len() ==> #[trigger] todo_update_is(items@[k], v@[k])
            } else {
                r matches Err(e) && e@ == invalid_updates_message()
            },
            Some(_) => r matches Err(e) && e@ == invalid_updates_message(),
        },
{
    let items = match json_get(args, "updates") {
        None => return Err(owned("Missing 'updates' argument")),
        Some(v) => match v {
            Json::Array(items) => items,
            _ => return Err(owned("Invalid 'updates' argument")),
        },
    };
    let mut out: Vec<TodoUpdate> = Vec::new();
    let mut k: usize = 0;
    while k < items.len()
        invariant
            k <= items.len(),
            out@.len() == k,
            get_spec(*args, "updates"@) matches Some(Json::Array(its)) && its@ == items@,
            forall|m: int| 0 <= m < k ==> todo_update_ok(#[trigger] items@[m]) && todo_update_is(items@[m], out@[m]),
        decreases items.len() - k,
    {
        match read_todo_update(&items[k]) {
            Some(u) => out.push(u),
            None => {
                assert(!todo_update_ok(items@[k as int]));
                return Err(owned("Invalid 'updates' argument"));
            },
        }
        k += 1;
    }
    Ok(out)
}


/// An optional flag member: absent or `null` is none, a boolean is itself; any
/// other value cannot be read.
pub open spec fn opt_bool_member(j: Json, key: Seq<char>) -> Option<Option<bool>> {
    match get_spec(j, key) {
        None => Some(None),
        Some(Json::Null) => Some(None),
        Some(Json::Bool(b)) => Some(Some(b)),
        _ => None,
    }
}

/// An optional count member: absent or `null` is none, a whole number that
/// fits in `usize` is itself; any other value cannot be read.
pub open spec fn opt_count_member(j: Json, key: Seq<char>) -> Option<Option<usize>> {
    match get_spec(j, key) {
        None => Some(None),
        Some(Json::Null) => Some(None),
        Some(Json::Number(Some(n))) => if n <= usize::MAX {
            Some(Some(n as usize))
        } else {
            None
        },
        _ => None,
    }
}

/// The texts of an array of strings; nothing when an item is not a string.
pub open spec fn string_items(items: Seq<Json>) -> Option<Seq<Seq<char>>>
    decreases items.len(),
{
    if items.len() == 0 {
        Some(Seq::empty())
    } else {
        match (items.last(), string_items(items.drop_last())) {
            (Json::Str(t), Some(rest)) => Some(rest.push(t@)),
            _ => None,
        }
    }
}

/// An optional list of texts: absent or `null` is none, an array of strings is
/// their texts; any other value cannot be read.
pub open spec fn opt_texts_member(j: Json, key: Seq<char>) -> Option<Option<Seq<Seq<char>>>> {
    match get_spec(j, key) {
        None => Some(None),
        Some(Json::Null) => Some(None),
        Some(Json::Array(items)) => match string_items(items@) {
            Some(ts) => Some(Some(ts)),
            None => None,
        },
        _ => None,
    }
}

/// The arguments of `search`.
#[derive(Debug)]
pub struct SearchArgs {
    pub query: String,
    pub search_type: Option<String>,
    pub include_pattern: Option<String>,
    pub exclude_pattern: Option<String>,
    pub case_sensitive: Option<bool>,
    pub whole_word: Option<bool>,
    pub regex: Option<bool>,
    pub max_results: Option<usize>,
    pub file_types: Option<Vec<String>>,
    pub include_hidden: Option<bool>,
}

/// Readable `search` arguments: an object with a text `query` and every other
/// member absent, `null` or of its kind.
pub open spec fn search_ok(j: Json) -> bool {
    &&& j is Object
    &&& get_str(j, "query"@) is Some
    &&& opt_text_member(j, "search_type"@) is Some
    &&& opt_text_member(j, "include_pattern"@) is Some
    &&& opt_text_member(j, "exclude_pattern"@) is Some
    &&& opt_bool_member(j, "case_sensitive"@) is Some
    &&& opt_bool_member(j, "whole_word"@) is Some
    &&& opt_bool_member(j, "regex"@) is Some
    &&& opt_count_member(j, "max_results"@) is Some
    &&& opt_texts_member(j, "file_types"@) is Some
    &&& opt_bool_member(j, "include_hidden"@) is Some
}

/// The `search` arguments read from `j`.
pub open spec fn search_is(j: Json, a: SearchArgs) -> bool {
    &&& a.query@ == get_str(j, "query"@)->0
    &&& opt_view(a.search_type) == opt_text_member(j, "search_type"@)->0
    &&& opt_view(a.include_pattern) == opt_text_member(j, "include_pattern"@)->0
    &&& opt_view(a.exclude_pattern) == opt_text_member(j, "exclude_pattern"@)->0
    &&& a.case_sensitive == opt_bool_member(j, "case_sensitive"@)->0
    &&& a.whole_word == opt_bool_member(j, "whole_word"@)->0
    &&& a.regex == opt_bool_member(j, "regex"@)->0
    &&& a.max_results == opt_count_member(j, "max_results"@)->0
    &&& match a.file_types {
        Some(v) => opt_texts_member(j, "file_types"@)->0 == Some(crate::order::texts(v@)),
        None => opt_texts_member(j, "file_types"@)->0 is None,
    }
    &&& a.include_hidden == opt_bool_member(j, "include_hidden"@)->0
}

/// The error for unreadable `search` arguments.
pub open spec fn invalid_search_message() -> Seq<char> {
    "Invalid search arguments"@
}

fn read_opt_bool(j: &Json, key: &str) -> (r: Option<Option<bool>>)
    ensures
        r == opt_bool_member(*j, key@),
{
    match json_get(j, key) {
        None => Some(None),
        Some(Json::Null) => Some(None),
        Some(Json::Bool(b)) => Some(Some(*b)),
        _ => None,
    }
}

fn read_opt_count(j: &Json, key: &str) -> (r: Option<Option<usize>>)
    ensures
        r == opt_count_member(*j, key@),
{
    match json_get(j, key) {
        None => Some(None),
        Some(Json::Null) => Some(None),
        Some(Json::Number(Some(n))) => if *n <= usize::MAX as u64 {
            Some(Some(*n as usize))
        } else {
            None
        },
        _ => None,
    }
}

fn read_string_items(items: &Vec<Json>) -> (r: Option<Vec<String>>)
    ensures
        match string_items(items@) {
            Some(ts) => r matches Some(v) && crate::order::texts(v@) == ts,
            None => r is None,
        },
{
    let mut out: Vec<String> = Vec::new();
    let mut k: usize = 0;
    while k < items.len()
        invariant
            k <= items.len(),
            string_items(items@.take(k as int)) == Some(crate::order::texts(out@)),
        decreases items.len() - k,
    {
        assert(items@.take(k + 1).drop_last() == items@.take(k as int));
        match &items[k] {
            Json::Str(t) => {
                let ghost before = crate::order::texts(out@);
                out.push(t.clone());
                assert(crate::order::texts(out@) == before.push(t@));
            },
            _ => {
                proof {
                    lemma_string_items_prefix(items@, k as int + 1);
                }
                return None;
            },
        }
        k += 1;
    }
    assert(items@.take(items.len() as int) == items@);
    Some(out)
}

/// A list with an unreadable prefix is unreadable.
proof fn lemma_string_items_prefix(items: Seq<Json>, n: int)
    requires
        0 <= n <= items.len(),
        string_items(items.take(n)) is None,
    ensures
        string_items(items) is None,
    decreases items.len() - n,
{
    if n < items.len() {
        assert(items.take(n + 1).drop_last() == items.take(n));
        lemma_string_items_prefix(items, n + 1);
    } else {
        assert(items.take(n) == items);
    }
}

fn read_opt_texts(j: &Json, key: &str) -> (r: Option<Option<Vec<String>>>)
    ensures
        match opt_texts_member(*j, key@) {
            None => r is None,
            Some(None) => r == Some(None::<Vec<String>>),
            Some(Some(ts)) => r matches Some(Some(v)) && crate::order::texts(v@) == ts,
        },
{
    match json_get(j, key) {
        None => Some(None),
        Some(v) => match v {
            Json::Null => Some(None),
            Json::Array(items) => match read_string_items(items) {
                Some(ts) => Some(Some(ts)),
                None => None,
            },
            _ => None,
        },
    }
}

/// The arguments of `search` (see `search_ok` and `search_is`).
pub fn search_args(args: &Json) -> (r: Result<SearchArgs, String>)
    ensures
        search_ok(*args) <==> r is Ok,
        r matches Ok(a) ==> search_is(*args, a),
        r matches Err(e) ==> e@ == invalid_search_message(),
{
    if !matches!(args, Json::Object(_)) {
        return Err(owned("Invalid search arguments"));
    }
    let fail = owned("Invalid search arguments");
    let query = match json_get_str(args, "query") {
        Some(q) => q,
        None => return Err(fail),
    };
    let search_type = match read_opt_text(args, "search_type") {
        Some(v) => v,
        None => return Err(fail),
    };
    let include_pattern = match read_opt_text(args, "include_pattern") {
        Some(v) => v,
        None => return Err(fail),
    };
    let exclude_pattern = match read_opt_text(args, "exclude_pattern") {
        Some(v) => v,
        None => return Err(fail),
    };
    let case_sensitive = match read_opt_bool(args, "case_sensitive") {
        Some(v) => v,
        None => return Err(fail),
    };
    let whole_word = match read_opt_bool(args, "whole_word") {
        Some(v) => v,
        None => return Err(fail),
    };
    let regex = match read_opt_bool(args, "regex") {
        Some(v) => v,
        None => return Err(fail),
    };
    let max_results = match read_opt_count(args, "max_results") {
        Some(v) => v,
        None => return Err(fail),
    };
    let file_types = match read_opt_texts(args, "file_types") {
        Some(v) => v,
        None => return Err(fail),
    };
    let include_hidden = match read_opt_bool(args, "include_hidden") {
        Some(v) => v,
        None => return Err(fail),
    };
    Ok(
        SearchArgs {
            query,
            search_type,
            include_pattern,
            exclude_pattern,
            case_sensitive,
            whole_word,
            regex,
            max_results,
            file_types,
            include_hidden,
        },
    )
}

} // verus!
