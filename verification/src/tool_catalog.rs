//! Names of the built-in tools, their display names and which ones need confirmation.
use vstd::prelude::*;

use crate::confirmation::ConfirmationOperation;
use crate::order::texts;
use crate::protocol::{owned, ChatTool, ChatToolFunction};
use crate::responses_adapter::{get_spec, get_str, Json};
use crate::text::{eq_str, opt_text};

verus! {

pub const TOOL_VIEW_FILE: &'static str = "view_file";

pub const TOOL_CREATE_FILE: &'static str = "create_file";

pub const TOOL_STR_REPLACE_EDITOR: &'static str = "str_replace_editor";

pub const TOOL_BASH: &'static str = "bash";

pub const TOOL_SEARCH: &'static str = "search";

pub const TOOL_CREATE_TODO_LIST: &'static str = "create_todo_list";

pub const TOOL_UPDATE_TODO_LIST: &'static str = "update_todo_list";

/// The confirmation class of a tool: file edits and shell commands need one.
pub open spec fn confirmation_spec(name: Seq<char>) -> Option<ConfirmationOperation> {
    if name == "create_file"@ || name == "str_replace_editor"@ {
        Some(ConfirmationOperation::File)
    } else if name == "bash"@ {
        Some(ConfirmationOperation::Bash)
    } else {
        None
    }
}

/// The confirmation a tool call needs, if any.
pub fn confirmation_operation_for_tool(tool_name: &str) -> (r: Option<ConfirmationOperation>)
    ensures
        r == confirmation_spec(tool_name@),
{
    let n = crate::text::chars_of(tool_name);
    if eq_str(n.as_slice(), "create_file") || eq_str(n.as_slice(), "str_replace_editor") {
        Some(ConfirmationOperation::File)
    } else if eq_str(n.as_slice(), "bash") {
        Some(ConfirmationOperation::Bash)
    } else {
        None
    }
}

/// The short name shown for a tool.
pub open spec fn display_name_spec(name: Seq<char>) -> Seq<char> {
    if name == "view_file"@ {
        "Read"@
    } else if name == "str_replace_editor"@ {
        "Update"@
    } else if name == "create_file"@ {
        "Create"@
    } else if name == "bash"@ {
        "Bash"@
    } else if name == "search"@ {
        "Search"@
    } else if name == "create_todo_list"@ {
        "TodoCreate"@
    } else if name == "update_todo_list"@ {
        "TodoUpdate"@
    } else {
        "Tool"@
    }
}

/// The short name shown for a tool; unknown tools show as `Tool`.
pub fn tool_display_name(name: &str) -> (r: &'static str)
    ensures
        r@ == display_name_spec(name@),
{
    let n = crate::text::chars_of(name);
    let s = n.as_slice();
    if eq_str(s, "view_file") {
        "Read"
    } else if eq_str(s, "str_replace_editor") {
        "Update"
    } else if eq_str(s, "create_file") {
        "Create"
    } else if eq_str(s, "bash") {
        "Bash"
    } else if eq_str(s, "search") {
        "Search"
    } else if eq_str(s, "create_todo_list") {
        "TodoCreate"
    } else if eq_str(s, "update_todo_list") {
        "TodoUpdate"
    } else {
        "Tool"
    }
}

/// The text of a JSON string (empty for other values).
pub open spec fn str_text(j: Json) -> Seq<char> {
    match j {
        Json::Str(s) => s@,
        _ => Seq::empty(),
    }
}

/// The required members a JSON schema lists.
pub open spec fn required_of(schema: Json) -> Option<Seq<Seq<char>>> {
    match get_spec(schema, "required"@) {
        Some(Json::Array(v)) => Some(v@.map_values(|x: Json| str_text(x))),
        _ => None,
    }
}

/// The names and descriptions of the built-in tools, in the order offered.
pub open spec fn tool_list_spec() -> Seq<(Seq<char>, Seq<char>)> {
    seq![
        (TOOL_VIEW_FILE@, "View contents of a file or list directory contents"@),
        (TOOL_CREATE_FILE@, "Create a new file with specified content"@),
        (TOOL_STR_REPLACE_EDITOR@, "Replace text in an existing file"@),
        (TOOL_BASH@, "Execute a shell command"@),
        (TOOL_SEARCH@, "Unified search for text content and files"@),
        (TOOL_CREATE_TODO_LIST@, "Create a new todo list for planning and tracking tasks"@),
        (TOOL_UPDATE_TODO_LIST@, "Update existing todo items"@),
    ]
}

/// The arguments each built-in tool requires, in the same order.
pub open spec fn required_spec() -> Seq<Seq<Seq<char>>> {
    seq![
        seq!["path"@],
        seq!["path"@, "content"@],
        seq!["path"@, "old_str"@, "new_str"@],
        seq!["command"@],
        seq!["query"@],
        seq!["todos"@],
        seq!["updates"@],
    ]
}

/// A JSON string holding `s`.
pub open spec fn is_text(j: Json, s: Seq<char>) -> bool {
    j matches Json::Str(v) && v@ == s
}

/// A JSON array of strings holding `texts`, in order.
pub open spec fn is_text_array(j: Json, texts: Seq<Seq<char>>) -> bool {
    &&& j matches Json::Array(v)
    &&& j->Array_0@.len() == texts.len()
    &&& forall|i: int| 0 <= i < texts.len() ==> is_text(#[trigger] j->Array_0@[i], texts[i])
}

/// A property of an argument schema: its name, its JSON type, the values it
/// is restricted to (if any) and its description (if any).
pub type PropRow = (Seq<char>, Seq<char>, Option<Seq<Seq<char>>>, Option<Seq<char>>);

/// The schema of a property of a simple type: exactly its `type`, then its
/// `enum` when restricted, then its `description` when it has one.
pub open spec fn scalar_schema(j: Json, row: PropRow) -> bool {
    &&& j matches Json::Object(fields)
    &&& {
        let f = j->Object_0@;
        let d: int = if row.2 is Some { 2 } else { 1 };
        &&& f.len() == d + (if row.3 is Some { 1int } else { 0int })
        &&& f[0].0@ == "type"@
        &&& is_text(f[0].1, row.1)
        &&& (row.2 matches Some(c) ==> (f[1].0@ == "enum"@ && is_text_array(f[1].1, c)))
        &&& (row.3 matches Some(t) ==> (f[d].0@ == "description"@ && is_text(f[d].1, t)))
    }
}

/// The properties of a schema, one for each row, in order.
pub open spec fn props_match(fields: Seq<(String, Json)>, rows: Seq<PropRow>) -> bool {
    &&& fields.len() == rows.len()
    &&& forall|k: int|
        0 <= k < rows.len() ==> (#[trigger] fields[k]).0@ == rows[k].0 && scalar_schema(fields[k].1, rows[k])
}

/// The members of the `properties` object of a schema.
pub open spec fn properties_of(schema: Json) -> Option<Seq<(String, Json)>> {
    match get_spec(schema, "properties"@) {
        Some(Json::Object(f)) => Some(f@),
        _ => None,
    }
}

/// An object schema whose properties are `rows` and which requires `required`.
pub open spec fn object_schema_spec(j: Json, rows: Seq<PropRow>, required: Seq<Seq<char>>) -> bool {
    &&& get_str(j, "type"@) == Some("object"@)
    &&& required_of(j) == Some(required)
    &&& properties_of(j) matches Some(p)
    &&& props_match(properties_of(j)->0, rows)
}

/// An array schema whose items are objects with properties `rows` that
/// require `required`.
pub open spec fn object_list_schema(j: Json, rows: Seq<PropRow>, required: Seq<Seq<char>>) -> bool {
    &&& j matches Json::Object(f)
    &&& j->Object_0@.len() == 2
    &&& j->Object_0@[0].0@ == "type"@
    &&& is_text(j->Object_0@[0].1, "array"@)
    &&& j->Object_0@[1].0@ == "items"@
    &&& object_schema_spec(j->Object_0@[1].1, rows, required)
}

/// An array schema of strings with a description.
pub open spec fn text_list_schema(j: Json, description: Seq<char>) -> bool {
    &&& j matches Json::Object(f)
    &&& j->Object_0@.len() == 3
    &&& j->Object_0@[0].0@ == "type"@
    &&& is_text(j->Object_0@[0].1, "array"@)
    &&& j->Object_0@[1].0@ == "items"@
    &&& scalar_schema(j->Object_0@[1].1, ("items"@, "string"@, None, None))
    &&& j->Object_0@[2].0@ == "description"@
    &&& is_text(j->Object_0@[2].1, description)
}

/// A property row without restricted values.
pub open spec fn row(name: Seq<char>, kind: Seq<char>, description: Option<Seq<char>>) -> PropRow {
    (name, kind, None, description)
}

/// The status values of a todo item.
pub open spec fn status_values() -> Seq<Seq<char>> {
    seq!["pending"@, "in_progress"@, "completed"@]
}

/// The priority values of a todo item.
pub open spec fn priority_values() -> Seq<Seq<char>> {
    seq!["high"@, "medium"@, "low"@]
}

/// The arguments of `view_file`.
pub open spec fn view_file_rows() -> Seq<PropRow> {
    seq![
        row("path"@, "string"@, Some("Path to file or directory"@)),
        row("start_line"@, "number"@, Some("Optional start line"@)),
        row("end_line"@, "number"@, Some("Optional end line"@)),
    ]
}

/// The arguments of `create_file`.
pub open spec fn create_file_rows() -> Seq<PropRow> {
    seq![row("path"@, "string"@, None), row("content"@, "string"@, None)]
}

/// The arguments of `str_replace_editor`.
pub open spec fn edit_rows() -> Seq<PropRow> {
    seq![
        row("path"@, "string"@, None),
        row("old_str"@, "string"@, None),
        row("new_str"@, "string"@, None),
        row("replace_all"@, "boolean"@, None),
    ]
}

/// The arguments of `bash`.
pub open spec fn bash_rows() -> Seq<PropRow> {
    seq![row("command"@, "string"@, None)]
}

/// The arguments of `search` before `file_types`.
pub open spec fn search_rows() -> Seq<PropRow> {
    seq![
        row("query"@, "string"@, Some("Text query or file name pattern"@)),
        ("search_type"@, "string"@, Some(seq!["text"@, "files"@, "both"@]), Some("Search mode (default: both)"@)),
        row("include_pattern"@, "string"@, Some("Optional include glob pattern"@)),
        row("exclude_pattern"@, "string"@, Some("Optional exclude glob pattern"@)),
        row("case_sensitive"@, "boolean"@, Some("Enable case sensitive text matching"@)),
        row("whole_word"@, "boolean"@, Some("Match whole words only for text search"@)),
        row("regex"@, "boolean"@, Some("Treat query as regex for text search"@)),
        row("max_results"@, "number"@, Some("Maximum number of results"@)),
    ]
}

/// The description of the `file_types` argument of `search`.
pub open spec fn file_types_description() -> Seq<char> {
    "Optional file type filters (e.g. ['rs', 'ts'])"@
}

/// The argument of `search` after `file_types`.
pub open spec fn hidden_row() -> PropRow {
    row("include_hidden"@, "boolean"@, Some("Include hidden files"@))
}

/// The members of a new todo item.
pub open spec fn todo_item_rows() -> Seq<PropRow> {
    seq![
        row("id"@, "string"@, None),
        row("content"@, "string"@, None),
        ("status"@, "string"@, Some(status_values()), None),
        ("priority"@, "string"@, Some(priority_values()), None),
    ]
}

/// The members of a todo update.
pub open spec fn todo_update_rows() -> Seq<PropRow> {
    seq![
        row("id"@, "string"@, None),
        ("status"@, "string"@, Some(status_values()), None),
        row("content"@, "string"@, None),
        ("priority"@, "string"@, Some(priority_values()), None),
    ]
}

/// The argument schema of the `k`-th built-in tool: an object schema that
/// requires `required_spec()[k]` and whose properties are, in order, the rows
/// above (for `search`, its rows, `file_types` and `include_hidden`; for the
/// todo tools, a list of item objects).
pub open spec fn parameters_spec(k: int, j: Json) -> bool {
    if k == 0 {
        object_schema_spec(j, view_file_rows(), required_spec()[0])
    } else if k == 1 {
        object_schema_spec(j, create_file_rows(), required_spec()[1])
    } else if k == 2 {
        object_schema_spec(j, edit_rows(), required_spec()[2])
    } else if k == 3 {
        object_schema_spec(j, bash_rows(), required_spec()[3])
    } else if k == 4 {
        &&& get_str(j, "type"@) == Some("object"@)
        &&& required_of(j) == Some(required_spec()[4])
        &&& properties_of(j) matches Some(p)
        &&& {
            let p = properties_of(j)->0;
            &&& p.len() == 10
            &&& props_match(p.take(8), search_rows())
            &&& p[8].0@ == "file_types"@
            &&& text_list_schema(p[8].1, file_types_description())
            &&& p[9].0@ == hidden_row().0
            &&& scalar_schema(p[9].1, hidden_row())
        }
    } else if k == 5 {
        &&& get_str(j, "type"@) == Some("object"@)
        &&& required_of(j) == Some(required_spec()[5])
        &&& properties_of(j) matches Some(p)
        &&& properties_of(j)->0.len() == 1
        &&& properties_of(j)->0[0].0@ == "todos"@
        &&& object_list_schema(properties_of(j)->0[0].1, todo_item_rows(), seq!["id"@, "content"@, "status"@, "priority"@])
    } else {
        &&& get_str(j, "type"@) == Some("object"@)
        &&& required_of(j) == Some(required_spec()[6])
        &&& properties_of(j) matches Some(p)
        &&& properties_of(j)->0.len() == 1
        &&& properties_of(j)->0[0].0@ == "updates"@
        &&& object_list_schema(properties_of(j)->0[0].1, todo_update_rows(), seq!["id"@])
    }
}

/// A JSON string.
fn jstr(s: &str) -> (r: Json)
    ensures
        is_text(r, s@),
{
    Json::Str(owned(s))
}

/// A member of a JSON object.
fn member(key: &str, value: Json) -> (r: (String, Json))
    ensures
        r.0@ == key@,
        r.1 == value,
{
    (owned(key), value)
}

/// A schema property of a simple type, with a description when given.
fn prop(name: &str, kind: &str, description: Option<&str>) -> (r: (String, Json))
    ensures
        r.0@ == name@,
        scalar_schema(r.1, (name@, kind@, None, opt_text(description))),
{
    let mut fields: Vec<(String, Json)> = Vec::new();
    fields.push(member("type", jstr(kind)));
    if let Some(d) = description {
        fields.push(member("description", jstr(d)));
    }
    member(name, Json::Object(fields))
}

/// A schema property of a string type restricted to the given values.
fn enum_prop(name: &str, values: Vec<&'static str>, description: Option<&str>) -> (r: (String, Json))
    ensures
        r.0@ == name@,
        scalar_schema(r.1, (name@, "string"@, Some(values@.map_values(|v: &'static str| v@)), opt_text(description))),
{
    let mut items: Vec<Json> = Vec::new();
    let mut i: usize = 0;
    while i < values.len()
        invariant
            i <= values.len(),
            items@.len() == i,
            forall|j: int| 0 <= j < i ==> is_text(#[trigger] items@[j], values@[j]@),
        decreases values.len() - i,
    {
        items.push(jstr(values[i]));
        i += 1;
    }
    let ghost texts = values@.map_values(|v: &'static str| v@);
    let list = Json::Array(items);
    assert(is_text_array(list, texts));
    let mut fields: Vec<(String, Json)> = Vec::new();
    fields.push(member("type", jstr("string")));
    fields.push(member("enum", list));
    if let Some(d) = description {
        fields.push(member("description", jstr(d)));
    }
    member(name, Json::Object(fields))
}

/// An object schema with the given properties and required members.
fn object_schema(properties: Vec<(String, Json)>, required: Vec<&'static str>) -> (r: Json)
    ensures
        get_str(r, "type"@) == Some("object"@),
        required_of(r) == Some(required@.map_values(|s: &'static str| s@)),
        properties_of(r) == Some(properties@),
{
    let mut req: Vec<Json> = Vec::new();
    let mut i: usize = 0;
    while i < required.len()
        invariant
            i <= required.len(),
            req@.map_values(|x: Json| str_text(x)) == required@.take(i as int).map_values(|s: &'static str| s@),
        decreases required.len() - i,
    {
        let j = jstr(required[i]);
        assert(str_text(j) == required@[i as int]@);
        let ghost before = req@;
        req.push(j);
        assert(req@.map_values(|x: Json| str_text(x)) =~= before.map_values(|x: Json| str_text(x)).push(str_text(j)));
        assert(req@.map_values(|x: Json| str_text(x)) =~= required@.take(i + 1).map_values(|s: &'static str| s@));
        i += 1;
    }
    assert(required@.take(required.len() as int) =~= required@);
    let ghost props = properties@;
    let mut fields: Vec<(String, Json)> = Vec::new();
    fields.push(member("type", jstr("object")));
    fields.push(member("properties", Json::Object(properties)));
    fields.push(member("required", Json::Array(req)));
    proof {
        reveal_strlit("type");
        reveal_strlit("properties");
        reveal_strlit("required");
        reveal_with_fuel(crate::responses_adapter::lookup, 4);
        assert("type"@.len() == 4 && "properties"@.len() == 10 && "required"@.len() == 8);
        assert(fields@.drop_first()[0] == fields@[1]);
        assert(fields@.drop_first().drop_first()[0] == fields@[2]);
    }
    Json::Object(fields)
}

/// A function tool.
fn function_tool(name: &str, description: &str, parameters: Json) -> (r: ChatTool)
    ensures
        r.tool_type@ == "function"@,
        r.function.name@ == name@,
        r.function.description@ == description@,
        r.function.parameters == parameters,
{
    ChatTool {
        tool_type: owned("function"),
        function: ChatToolFunction { name: owned(name), description: owned(description), parameters },
    }
}

/// The argument schema of `view_file`.
fn view_file_parameters() -> (r: Json)
    ensures
        parameters_spec(0, r),
{
    let mut p: Vec<(String, Json)> = Vec::new();
    p.push(prop("path", "string", Some("Path to file or directory")));
    p.push(prop("start_line", "number", Some("Optional start line")));
    p.push(prop("end_line", "number", Some("Optional end line")));
    let ghost rows = view_file_rows();
    assert(props_match(p@, rows));
    let required = vec!["path"];
    assert(required@.map_values(|s: &'static str| s@) =~= seq!["path"@]);
    object_schema(p, required)
}

/// The argument schema of `create_file`.
fn create_file_parameters() -> (r: Json)
    ensures
        parameters_spec(1, r),
{
    let mut p: Vec<(String, Json)> = Vec::new();
    p.push(prop("path", "string", None));
    p.push(prop("content", "string", None));
    assert(props_match(p@, create_file_rows()));
    let required = vec!["path", "content"];
    assert(required@.map_values(|s: &'static str| s@) =~= seq!["path"@, "content"@]);
    object_schema(p, required)
}

/// The argument schema of `str_replace_editor`.
fn edit_parameters() -> (r: Json)
    ensures
        parameters_spec(2, r),
{
    let mut p: Vec<(String, Json)> = Vec::new();
    p.push(prop("path", "string", None));
    p.push(prop("old_str", "string", None));
    p.push(prop("new_str", "string", None));
    p.push(prop("replace_all", "boolean", None));
    assert(props_match(p@, edit_rows()));
    let required = vec!["path", "old_str", "new_str"];
    assert(required@.map_values(|s: &'static str| s@) =~= seq!["path"@, "old_str"@, "new_str"@]);
    object_schema(p, required)
}

/// The argument schema of `bash`.
fn bash_parameters() -> (r: Json)
    ensures
        parameters_spec(3, r),
{
    let mut p: Vec<(String, Json)> = Vec::new();
    p.push(prop("command", "string", None));
    assert(props_match(p@, bash_rows()));
    let required = vec!["command"];
    assert(required@.map_values(|s: &'static str| s@) =~= seq!["command"@]);
    object_schema(p, required)
}

/// The argument schema of `search`.
fn search_parameters() -> (r: Json)
    ensures
        parameters_spec(4, r),
{
    let mut p: Vec<(String, Json)> = Vec::new();
    p.push(prop("query", "string", Some("Text query or file name pattern")));
    p.push(enum_prop("search_type", vec!["text", "files", "both"], Some("Search mode (default: both)")));
    p.push(prop("include_pattern", "string", Some("Optional include glob pattern")));
    p.push(prop("exclude_pattern", "string", Some("Optional exclude glob pattern")));
    p.push(prop("case_sensitive", "boolean", Some("Enable case sensitive text matching")));
    p.push(prop("whole_word", "boolean", Some("Match whole words only for text search")));
    p.push(prop("regex", "boolean", Some("Treat query as regex for text search")));
    p.push(prop("max_results", "number", Some("Maximum number of results")));
    assert(props_match(p@, search_rows()));
    let mut file_types: Vec<(String, Json)> = Vec::new();
    file_types.push(member("type", jstr("array")));
    let mut item_type: Vec<(String, Json)> = Vec::new();
    item_type.push(member("type", jstr("string")));
    file_types.push(member("items", Json::Object(item_type)));
    file_types.push(member("description", jstr("Optional file type filters (e.g. ['rs', 'ts'])")));
    let types = Json::Object(file_types);
    assert(text_list_schema(types, file_types_description()));
    let ghost first = p@;
    p.push(member("file_types", types));
    p.push(prop("include_hidden", "boolean", Some("Include hidden files")));
    assert(p@.take(8) == first);
    let required = vec!["query"];
    assert(required@.map_values(|s: &'static str| s@) =~= seq!["query"@]);
    object_schema(p, required)
}

/// The schema of a list of todo items with the given member rows.
fn todo_list_property(key: &str, item: Vec<(String, Json)>, required: Vec<&'static str>) -> (r: (String, Json))
    ensures
        r.0@ == key@,
        r.1 matches Json::Object(f),
        r.1->Object_0@.len() == 2,
        r.1->Object_0@[0].0@ == "type"@,
        is_text(r.1->Object_0@[0].1, "array"@),
        r.1->Object_0@[1].0@ == "items"@,
        get_str(r.1->Object_0@[1].1, "type"@) == Some("object"@),
        required_of(r.1->Object_0@[1].1) == Some(required@.map_values(|s: &'static str| s@)),
        properties_of(r.1->Object_0@[1].1) == Some(item@),
{
    let mut list: Vec<(String, Json)> = Vec::new();
    list.push(member("type", jstr("array")));
    list.push(member("items", object_schema(item, required)));
    member(key, Json::Object(list))
}

/// The argument schema of `create_todo_list`.
fn create_todo_parameters() -> (r: Json)
    ensures
        parameters_spec(5, r),
{
    let mut item: Vec<(String, Json)> = Vec::new();
    item.push(prop("id", "string", None));
    item.push(prop("content", "string", None));
    item.push(enum_prop("status", vec!["pending", "in_progress", "completed"], None));
    item.push(enum_prop("priority", vec!["high", "medium", "low"], None));
    assert(props_match(item@, todo_item_rows()));
    let required = vec!["id", "content", "status", "priority"];
    assert(required@.map_values(|s: &'static str| s@) == seq!["id"@, "content"@, "status"@, "priority"@]);
    let todos = todo_list_property("todos", item, required);
    assert(object_list_schema(todos.1, todo_item_rows(), seq!["id"@, "content"@, "status"@, "priority"@]));
    let mut p: Vec<(String, Json)> = Vec::new();
    p.push(todos);
    let required = vec!["todos"];
    assert(required@.map_values(|s: &'static str| s@) =~= seq!["todos"@]);
    object_schema(p, required)
}

/// The argument schema of `update_todo_list`.
fn update_todo_parameters() -> (r: Json)
    ensures
        parameters_spec(6, r),
{
    let mut item: Vec<(String, Json)> = Vec::new();
    item.push(prop("id", "string", None));
    item.push(enum_prop("status", vec!["pending", "in_progress", "completed"], None));
    item.push(prop("content", "string", None));
    item.push(enum_prop("priority", vec!["high", "medium", "low"], None));
    assert(props_match(item@, todo_update_rows()));
    let required = vec!["id"];
    assert(required@.map_values(|s: &'static str| s@) == seq!["id"@]);
    let updates = todo_list_property("updates", item, required);
    assert(object_list_schema(updates.1, todo_update_rows(), seq!["id"@]));
    let mut p: Vec<(String, Json)> = Vec::new();
    p.push(updates);
    let required = vec!["updates"];
    assert(required@.map_values(|s: &'static str| s@) =~= seq!["updates"@]);
    object_schema(p, required)
}

/// The built-in tools offered to the model: each a function with its name and
/// description (see `tool_list_spec`) and the argument schema of
/// `parameters_spec`, which requires those of `required_spec`.
pub fn default_tools() -> (r: Vec<ChatTool>)
    ensures
        r@.len() == tool_list_spec().len(),
        forall|k: int|
            0 <= k < r@.len() ==> {
                &&& (#[trigger] r@[k]).tool_type@ == "function"@
                &&& (r@[k].function.name@, r@[k].function.description@) == tool_list_spec()[k]
                &&& get_str(r@[k].function.parameters, "type"@) == Some("object"@)
                &&& required_of(r@[k].function.parameters) == Some(required_spec()[k])
                &&& parameters_spec(k, r@[k].function.parameters)
            },
{
    let mut tools: Vec<ChatTool> = Vec::new();
    tools.push(function_tool(TOOL_VIEW_FILE, "View contents of a file or list directory contents", view_file_parameters()));
    tools.push(function_tool(TOOL_CREATE_FILE, "Create a new file with specified content", create_file_parameters()));
    tools.push(function_tool(TOOL_STR_REPLACE_EDITOR, "Replace text in an existing file", edit_parameters()));
    tools.push(function_tool(TOOL_BASH, "Execute a shell command", bash_parameters()));
    tools.push(function_tool(TOOL_SEARCH, "Unified search for text content and files", search_parameters()));
    tools.push(function_tool(TOOL_CREATE_TODO_LIST, "Create a new todo list for planning and tracking tasks", create_todo_parameters()));
    tools.push(function_tool(TOOL_UPDATE_TODO_LIST, "Update existing todo items", update_todo_parameters()));
    tools
}

/// No two built-in tools share a name.
pub proof fn law_default_tool_names_unique()
    ensures
        forall|a: int, b: int|
            0 <= a < b < tool_list_spec().len() ==> (#[trigger] tool_list_spec()[a]).0 != (#[trigger] tool_list_spec()[b]).0,
{
    reveal_strlit("view_file");
    reveal_strlit("create_file");
    reveal_strlit("str_replace_editor");
    reveal_strlit("bash");
    reveal_strlit("search");
    reveal_strlit("create_todo_list");
    reveal_strlit("update_todo_list");
    assert(TOOL_VIEW_FILE@.len() == 9 && TOOL_CREATE_FILE@.len() == 11 && TOOL_STR_REPLACE_EDITOR@.len() == 18);
    assert(TOOL_BASH@.len() == 4 && TOOL_SEARCH@.len() == 6 && TOOL_CREATE_TODO_LIST@.len() == 16);
    assert(TOOL_UPDATE_TODO_LIST@.len() == 16);
    assert(TOOL_CREATE_TODO_LIST@[0] != TOOL_UPDATE_TODO_LIST@[0]);
}

} // verus!
