//! The request that each command sends: its verb, path, query and body.

use vstd::prelude::*;
use vstd::string::*;
use crate::client::Method;
use crate::error::NotionError;
use crate::json::{put, no_members, extended, members_model, object, single, text, Json, JsonValue};
use crate::text::{decimal, decimal_of, str_eq};

verus! {

/// A request to the API.
#[derive(Debug)]
pub struct Request {
    pub method: Method,
    /// The path under the base URL.
    pub path: String,
    /// Query parameters, in order.
    pub query: Vec<(String, String)>,
    pub body: Option<Json>,
}

/// A request as a value.
pub struct RequestView {
    pub method: Method,
    pub path: Seq<char>,
    pub query: Seq<(Seq<char>, Seq<char>)>,
    pub body: Option<JsonValue>,
}

pub open spec fn params_model(q: Seq<(String, String)>) -> Seq<(Seq<char>, Seq<char>)> {
    Seq::new(q.len(), |i: int| (q[i].0@, q[i].1@))
}

impl View for Request {
    type V = RequestView;

    open spec fn view(&self) -> RequestView {
        RequestView {
            method: self.method,
            path: self.path@,
            query: params_model(self.query@),
            body: match self.body {
                Some(b) => Some(b.model()),
                None => None,
            },
        }
    }
}

pub open spec fn opt_str(o: Option<&str>) -> Option<Seq<char>> {
    match o {
        Some(s) => Some(s@),
        None => None,
    }
}

/// The query parameters for a page size and a cursor, each when given.
pub open spec fn paging_params(page_size: Option<u32>, cursor: Option<Seq<char>>) -> Seq<(Seq<char>, Seq<char>)> {
    (match page_size {
        Some(n) => seq![("page_size"@, decimal_of(n as nat))],
        None => Seq::empty(),
    }) + (match cursor {
        Some(c) => seq![("start_cursor"@, c)],
        None => Seq::empty(),
    })
}

/// The body members for a page size and a cursor, each when given.
pub open spec fn paging_members(page_size: Option<u32>, cursor: Option<Seq<char>>) -> Seq<(Seq<char>, JsonValue)> {
    (match page_size {
        Some(n) => seq![("page_size"@, JsonValue::Int(n as u64))],
        None => Seq::empty(),
    }) + (match cursor {
        Some(c) => seq![("start_cursor"@, JsonValue::Text(c))],
        None => Seq::empty(),
    })
}

/// The member `key` with a value, when there is one.
pub open spec fn opt_member(key: Seq<char>, v: Option<JsonValue>) -> Seq<(Seq<char>, JsonValue)> {
    match v {
        Some(x) => seq![(key, x)],
        None => Seq::empty(),
    }
}

pub open spec fn opt_text(s: Option<Seq<char>>) -> Option<JsonValue> {
    match s {
        Some(t) => Some(JsonValue::Text(t)),
        None => None,
    }
}

pub open spec fn opt_given(v: Option<serde_json::Value>) -> Option<JsonValue> {
    match v {
        Some(x) => Some(JsonValue::Given(x)),
        None => None,
    }
}

/// `[{"type": "text", "text": {"content": content}}]`
pub open spec fn rich_text_of(content: Seq<char>) -> JsonValue {
    JsonValue::Array(
        seq![JsonValue::Object(seq![("type"@, JsonValue::Text("text"@)), ("text"@, JsonValue::Object(seq![("content"@, JsonValue::Text(content))]))])],
    )
}

fn add_param(q: &mut Vec<(String, String)>, key: &str, value: String)
    ensures
        params_model(final(q)@) == params_model(old(q)@).push((key@, value@)),
{
    let ghost v = value;
    q.push((String::from_str(key), value));
    assert(params_model(q@) =~= params_model(old(q)@).push((key@, v@)));
}

fn add_paging_params(q: &mut Vec<(String, String)>, page_size: Option<u32>, cursor: Option<&str>)
    ensures
        params_model(final(q)@) == params_model(old(q)@) + paging_params(page_size, opt_str(cursor)),
{
    let ghost q0 = params_model(q@);
    if let Some(n) = page_size {
        add_param(q, "page_size", decimal(n as u64));
    }
    if let Some(c) = cursor {
        add_param(q, "start_cursor", String::from_str(c));
    }
    assert(params_model(q@) =~= q0 + paging_params(page_size, opt_str(cursor)));
}

fn add_paging_members(fields: &mut Vec<(String, Json)>, page_size: Option<u32>, cursor: Option<&str>)
    ensures
        members_model(final(fields)@) == members_model(old(fields)@) + paging_members(page_size, opt_str(cursor)),
{
    let ghost m0 = members_model(fields@);
    if let Some(n) = page_size {
        put(fields, "page_size", Json::Int(n as u64));
    }
    if let Some(c) = cursor {
        put(fields, "start_cursor", text(c));
    }
    assert(members_model(fields@) =~= m0 + paging_members(page_size, opt_str(cursor)));
}

fn add_opt_text(fields: &mut Vec<(String, Json)>, key: &str, value: Option<&str>)
    ensures
        members_model(final(fields)@) == members_model(old(fields)@) + opt_member(key@, opt_text(opt_str(value))),
{
    let ghost m0 = members_model(fields@);
    if let Some(v) = value {
        put(fields, key, text(v));
    }
    assert(members_model(fields@) =~= m0 + opt_member(key@, opt_text(opt_str(value))));
}

fn add_opt_given(fields: &mut Vec<(String, Json)>, key: &str, value: Option<serde_json::Value>)
    ensures
        members_model(final(fields)@) == members_model(old(fields)@) + opt_member(key@, opt_given(value)),
{
    let ghost m0 = members_model(fields@);
    if let Some(v) = value {
        put(fields, key, Json::Given(v));
    }
    assert(members_model(fields@) =~= m0 + opt_member(key@, opt_given(value)));
}

fn rich_text(content: &str) -> (r: Json)
    ensures
        r.model() == rich_text_of(content@),
{
    let mut inner = no_members();
    put(&mut inner, "content", text(content));
    assert(members_model(inner@) =~= seq![("content"@, JsonValue::Text(content@))]);
    let mut item = no_members();
    put(&mut item, "type", text("text"));
    let inner = object(inner);
    put(&mut item, "text", inner);
    assert(members_model(item@) =~= seq![("type"@, JsonValue::Text("text"@)), ("text"@, JsonValue::Object(seq![("content"@, JsonValue::Text(content@))]))]);
    single(object(item))
}

/// `prefix` followed by an identifier.
fn path1(prefix: &str, id: &str) -> (r: String)
    ensures
        r@ == prefix@ + id@,
{
    String::from_str(prefix).concat(id)
}

/// `prefix`, an identifier, then `suffix`.
fn path2(prefix: &str, id: &str, suffix: &str) -> (r: String)
    ensures
        r@ == prefix@ + id@ + suffix@,
{
    String::from_str(prefix).concat(id).concat(suffix)
}

fn get(path: String, query: Vec<(String, String)>) -> (r: Request)
    ensures
        r@ == (RequestView { method: Method::Get, path: path@, query: params_model(query@), body: None }),
{
    Request { method: Method::Get, path, query, body: None }
}

fn with_body(method: Method, path: String, body: Json) -> (r: Request)
    ensures
        r@ == (RequestView { method, path: path@, query: Seq::empty(), body: Some(body.model()) }),
{
    let r = Request { method, path, query: Vec::new(), body: Some(body) };
    assert(r@.query =~= Seq::empty());
    r
}

/// Searches titles, optionally only pages or only data sources.
pub fn search(query: &str, filter_type: Option<&str>, page_size: Option<u32>, start_cursor: Option<&str>) -> (r: Request)
    ensures
        r@ == (RequestView {
            method: Method::Post,
            path: "/v1/search"@,
            query: Seq::empty(),
            body: Some(JsonValue::Object(
                seq![("query"@, JsonValue::Text(query@))]
                + opt_member("filter"@, match filter_type {
                    Some(f) => Some(JsonValue::Object(seq![("value"@, JsonValue::Text(f@)), ("property"@, JsonValue::Text("object"@))])),
                    None => None,
                })
                + paging_members(page_size, opt_str(start_cursor)),
            )),
        }),
{
    let mut body = no_members();
    put(&mut body, "query", text(query));
    let ghost m1 = members_model(body@);
    if let Some(f) = filter_type {
        let mut filter = no_members();
        put(&mut filter, "value", text(f));
        put(&mut filter, "property", text("object"));
        assert(members_model(filter@) =~= seq![("value"@, JsonValue::Text(f@)), ("property"@, JsonValue::Text("object"@))]);
        put(&mut body, "filter", object(filter));
    }
    let ghost m2 = members_model(body@);
    assert(m2 =~= m1 + opt_member("filter"@, match filter_type {
        Some(f) => Some(JsonValue::Object(seq![("value"@, JsonValue::Text(f@)), ("property"@, JsonValue::Text("object"@))])),
        None => None,
    }));
    add_paging_members(&mut body, page_size, start_cursor);
    with_body(Method::Post, String::from_str("/v1/search"), object(body))
}

/// The bot user of the token.
pub fn user_me() -> (r: Request)
    ensures
        r@ == (RequestView { method: Method::Get, path: "/v1/users/me"@, query: Seq::empty(), body: None }),
{
    let r = get(String::from_str("/v1/users/me"), Vec::new());
    assert(r@.query =~= Seq::empty());
    r
}

/// A user by identifier.
pub fn user_get(user_id: &str) -> (r: Request)
    ensures
        r@ == (RequestView { method: Method::Get, path: "/v1/users/"@ + user_id@, query: Seq::empty(), body: None }),
{
    let r = get(path1("/v1/users/", user_id), Vec::new());
    assert(r@.query =~= Seq::empty());
    r
}

/// All users, a page at a time.
pub fn user_list(page_size: Option<u32>, start_cursor: Option<&str>) -> (r: Request)
    ensures
        r@ == (RequestView {
            method: Method::Get,
            path: "/v1/users"@,
            query: paging_params(page_size, opt_str(start_cursor)),
            body: None,
        }),
{
    let mut q = Vec::new();
    assert(params_model(q@) =~= Seq::empty());
    add_paging_params(&mut q, page_size, start_cursor);
    assert(params_model(q@) =~= paging_params(page_size, opt_str(start_cursor)));
    get(String::from_str("/v1/users"), q)
}

/// A page, optionally only some of its properties.
pub fn page_get(page_id: &str, filter_properties: &Vec<String>) -> (r: Request)
    ensures
        r@ == (RequestView {
            method: Method::Get,
            path: "/v1/pages/"@ + page_id@,
            query: Seq::new(filter_properties@.len(), |i: int| ("filter_properties"@, filter_properties@[i]@)),
            body: None,
        }),
{
    let mut q: Vec<(String, String)> = Vec::new();
    let mut i: usize = 0;
    while i < filter_properties.len()
        invariant
            i <= filter_properties@.len(),
            params_model(q@) =~= Seq::new(i as nat, |j: int| ("filter_properties"@, filter_properties@[j]@)),
        decreases filter_properties@.len() - i,
    {
        add_param(&mut q, "filter_properties", filter_properties[i].clone());
        i = i + 1;
    }
    get(path1("/v1/pages/", page_id), q)
}

/// The parent of a new page: a database or a page.
pub open spec fn page_parent_of(parent_id: Seq<char>, is_database_parent: bool) -> JsonValue {
    if is_database_parent {
        JsonValue::Object(seq![("database_id"@, JsonValue::Text(parent_id))])
    } else {
        JsonValue::Object(seq![("page_id"@, JsonValue::Text(parent_id))])
    }
}

/// Creates a page with the given properties and, optionally, children.
pub fn page_create(
    parent_id: &str,
    properties: serde_json::Value,
    children: Option<serde_json::Value>,
    is_database_parent: bool,
) -> (r: Request)
    ensures
        r@ == (RequestView {
            method: Method::Post,
            path: "/v1/pages"@,
            query: Seq::empty(),
            body: Some(JsonValue::Object(
                seq![("parent"@, page_parent_of(parent_id@, is_database_parent)), ("properties"@, JsonValue::Given(properties))]
                + opt_member("children"@, opt_given(children)),
            )),
        }),
{
    let mut parent = no_members();
    if is_database_parent {
        put(&mut parent, "database_id", text(parent_id));
    } else {
        put(&mut parent, "page_id", text(parent_id));
    }
    assert(JsonValue::Object(members_model(parent@)) == page_parent_of(parent_id@, is_database_parent)) by {
        assert(members_model(parent@) =~= page_parent_of(parent_id@, is_database_parent)->Object_0);
    }
    let mut body = no_members();
    put(&mut body, "parent", object(parent));
    put(&mut body, "properties", Json::Given(properties));
    let ghost m = members_model(body@);
    assert(m =~= seq![("parent"@, page_parent_of(parent_id@, is_database_parent)), ("properties"@, JsonValue::Given(properties))]);
    add_opt_given(&mut body, "children", children);
    with_body(Method::Post, String::from_str("/v1/pages"), object(body))
}

/// Updates a page's properties, and archives or restores it when asked.
pub fn page_update(page_id: &str, properties: serde_json::Value, archived: Option<bool>) -> (r: Request)
    ensures
        r@ == (RequestView {
            method: Method::Patch,
            path: "/v1/pages/"@ + page_id@,
            query: Seq::empty(),
            body: Some(JsonValue::Object(
                seq![("properties"@, JsonValue::Given(properties))]
                + opt_member("archived"@, match archived {
                    Some(a) => Some(JsonValue::Bool(a)),
                    None => None,
                }),
            )),
        }),
{
    let mut body = no_members();
    put(&mut body, "properties", Json::Given(properties));
    if let Some(a) = archived {
        put(&mut body, "archived", Json::Bool(a));
    }
    assert(members_model(body@) =~= seq![("properties"@, JsonValue::Given(properties))]
        + opt_member("archived"@, match archived {
        Some(a) => Some(JsonValue::Bool(a)),
        None => None,
    }));
    with_body(Method::Patch, path1("/v1/pages/", page_id), object(body))
}

/// The parent a page moves to, by the kind of parent named.
pub open spec fn move_parent_of(parent_type: Seq<char>, parent_id: Seq<char>) -> Option<JsonValue> {
    if parent_type == "page"@ {
        Some(JsonValue::Object(seq![("type"@, JsonValue::Text("page_id"@)), ("page_id"@, JsonValue::Text(parent_id))]))
    } else if parent_type == "database"@ {
        Some(JsonValue::Object(seq![("type"@, JsonValue::Text("database_id"@)), ("database_id"@, JsonValue::Text(parent_id))]))
    } else if parent_type == "workspace"@ {
        Some(JsonValue::Object(seq![("type"@, JsonValue::Text("workspace"@))]))
    } else {
        None
    }
}

/// Moves a page under a page, a database or the workspace; any other kind of
/// parent is refused.
pub fn page_move(page_id: &str, parent_type: &str, parent_id: &str) -> (r: Result<Request, NotionError>)
    ensures
        move_parent_of(parent_type@, parent_id@) is None ==> (r matches Err(
            NotionError::InvalidParentType { given },
        ) && given@ == parent_type@),
        move_parent_of(parent_type@, parent_id@) matches Some(p) ==> (r matches Ok(req) && req@ == (
        RequestView {
            method: Method::Post,
            path: "/v1/pages/"@ + page_id@ + "/move"@,
            query: Seq::empty(),
            body: Some(JsonValue::Object(seq![("parent"@, p)])),
        })),
{
    let mut parent = no_members();
    if str_eq(parent_type, "page") {
        put(&mut parent, "type", text("page_id"));
        put(&mut parent, "page_id", text(parent_id));
    } else if str_eq(parent_type, "database") {
        put(&mut parent, "type", text("database_id"));
        put(&mut parent, "database_id", text(parent_id));
    } else if str_eq(parent_type, "workspace") {
        put(&mut parent, "type", text("workspace"));
    } else {
        return Err(NotionError::InvalidParentType { given: String::from_str(parent_type) });
    }
    assert(Some(JsonValue::Object(members_model(parent@))) == move_parent_of(parent_type@, parent_id@)) by {
        assert(members_model(parent@) =~= move_parent_of(parent_type@, parent_id@)->0->Object_0);
    }
    let mut body = no_members();
    let ghost pm = members_model(parent@);
    put(&mut body, "parent", object(parent));
    assert(members_model(body@) =~= seq![("parent"@, JsonValue::Object(pm))]);
    Ok(with_body(Method::Post, path2("/v1/pages/", page_id, "/move"), object(body)))
}

/// One property of a page, a page of values at a time.
pub fn page_property(page_id: &str, property_id: &str, page_size: Option<u32>, start_cursor: Option<&str>) -> (r: Request)
    ensures
        r@ == (RequestView {
            method: Method::Get,
            path: "/v1/pages/"@ + page_id@ + "/properties/"@ + property_id@,
            query: paging_params(page_size, opt_str(start_cursor)),
            body: None,
        }),
{
    let mut q = Vec::new();
    assert(params_model(q@) =~= Seq::empty());
    add_paging_params(&mut q, page_size, start_cursor);
    assert(params_model(q@) =~= paging_params(page_size, opt_str(start_cursor)));
    let path = path2("/v1/pages/", page_id, "/properties/").concat(property_id);
    get(path, q)
}

/// A block.
pub fn block_get(block_id: &str) -> (r: Request)
    ensures
        r@ == (RequestView { method: Method::Get, path: "/v1/blocks/"@ + block_id@, query: Seq::empty(), body: None }),
{
    let r = get(path1("/v1/blocks/", block_id), Vec::new());
    assert(r@.query =~= Seq::empty());
    r
}

/// A block's children, a page at a time.
pub fn block_children(block_id: &str, page_size: Option<u32>, start_cursor: Option<&str>) -> (r: Request)
    ensures
        r@ == (RequestView {
            method: Method::Get,
            path: "/v1/blocks/"@ + block_id@ + "/children"@,
            query: paging_params(page_size, opt_str(start_cursor)),
            body: None,
        }),
{
    let mut q = Vec::new();
    assert(params_model(q@) =~= Seq::empty());
    add_paging_params(&mut q, page_size, start_cursor);
    assert(params_model(q@) =~= paging_params(page_size, opt_str(start_cursor)));
    get(path2("/v1/blocks/", block_id, "/children"), q)
}

/// Appends children to a block, after a given child when one is named.
pub fn block_append(block_id: &str, children: serde_json::Value, after: Option<&str>) -> (r: Request)
    ensures
        r@ == (RequestView {
            method: Method::Patch,
            path: "/v1/blocks/"@ + block_id@ + "/children"@,
            query: Seq::empty(),
            body: Some(JsonValue::Object(
                seq![("children"@, JsonValue::Given(children))] + opt_member("after"@, opt_text(opt_str(after))),
            )),
        }),
{
    let mut body = no_members();
    put(&mut body, "children", Json::Given(children));
    assert(members_model(body@) =~= seq![("children"@, JsonValue::Given(children))]);
    add_opt_text(&mut body, "after", after);
    with_body(Method::Patch, path2("/v1/blocks/", block_id, "/children"), object(body))
}

/// Updates a block with the given data, with `archived` set on it when asked.
pub fn block_update(block_id: &str, data: serde_json::Value, archived: Option<bool>) -> (r: Request)
    ensures
        r@ == (RequestView {
            method: Method::Patch,
            path: "/v1/blocks/"@ + block_id@,
            query: Seq::empty(),
            body: Some(match archived {
                Some(a) => JsonValue::Extended(data, seq![("archived"@, JsonValue::Bool(a))]),
                None => JsonValue::Given(data),
            }),
        }),
{
    let body = match archived {
        Some(a) => {
            let mut set = no_members();
            put(&mut set, "archived", Json::Bool(a));
            assert(members_model(set@) =~= seq![("archived"@, JsonValue::Bool(a))]);
            extended(data, set)
        },
        None => Json::Given(data),
    };
    with_body(Method::Patch, path1("/v1/blocks/", block_id), body)
}

/// Deletes (archives) a block.
pub fn block_delete(block_id: &str) -> (r: Request)
    ensures
        r@ == (RequestView { method: Method::Delete, path: "/v1/blocks/"@ + block_id@, query: Seq::empty(), body: None }),
{
    let r = Request { method: Method::Delete, path: path1("/v1/blocks/", block_id), query: Vec::new(), body: None };
    assert(r@.query =~= Seq::empty());
    r
}

/// The comments on a block or page, a page at a time.
pub fn comment_list(block_id: &str, page_size: Option<u32>, start_cursor: Option<&str>) -> (r: Request)
    ensures
        r@ == (RequestView {
            method: Method::Get,
            path: "/v1/comments"@,
            query: seq![("block_id"@, block_id@)] + paging_params(page_size, opt_str(start_cursor)),
            body: None,
        }),
{
    let mut q = Vec::new();
    assert(params_model(q@) =~= Seq::empty());
    add_param(&mut q, "block_id", String::from_str(block_id));
    assert(params_model(q@) =~= seq![("block_id"@, block_id@)]);
    add_paging_params(&mut q, page_size, start_cursor);
    get(String::from_str("/v1/comments"), q)
}

/// A comment with plain text on a page.
pub fn comment_create(page_id: &str, content: &str) -> (r: Request)
    ensures
        r@ == (RequestView {
            method: Method::Post,
            path: "/v1/comments"@,
            query: Seq::empty(),
            body: Some(JsonValue::Object(
                seq![("parent"@, JsonValue::Object(seq![("page_id"@, JsonValue::Text(page_id@))])), ("rich_text"@, rich_text_of(content@))],
            )),
        }),
{
    let mut parent = no_members();
    put(&mut parent, "page_id", text(page_id));
    assert(members_model(parent@) =~= seq![("page_id"@, JsonValue::Text(page_id@))]);
    let mut body = no_members();
    put(&mut body, "parent", object(parent));
    put(&mut body, "rich_text", rich_text(content));
    assert(members_model(body@) =~= seq![("parent"@, JsonValue::Object(seq![("page_id"@, JsonValue::Text(page_id@))])), ("rich_text"@, rich_text_of(content@))]);
    with_body(Method::Post, String::from_str("/v1/comments"), object(body))
}

/// A database's metadata.
pub fn database_get(database_id: &str) -> (r: Request)
    ensures
        r@ == (RequestView { method: Method::Get, path: "/v1/databases/"@ + database_id@, query: Seq::empty(), body: None }),
{
    let r = get(path1("/v1/databases/", database_id), Vec::new());
    assert(r@.query =~= Seq::empty());
    r
}

/// A data source.
pub fn data_source_get(ds_id: &str) -> (r: Request)
    ensures
        r@ == (RequestView { method: Method::Get, path: "/v1/data_sources/"@ + ds_id@, query: Seq::empty(), body: None }),
{
    let r = get(path1("/v1/data_sources/", ds_id), Vec::new());
    assert(r@.query =~= Seq::empty());
    r
}

/// Creates a data source under a page, with a title and, optionally, a schema.
pub fn data_source_create(parent_id: &str, title: &str, properties: Option<serde_json::Value>) -> (r: Request)
    ensures
        r@ == (RequestView {
            method: Method::Post,
            path: "/v1/data_sources"@,
            query: Seq::empty(),
            body: Some(JsonValue::Object(
                seq![("parent"@, JsonValue::Object(seq![("page_id"@, JsonValue::Text(parent_id@))])), ("title"@, rich_text_of(title@))]
                + opt_member("properties"@, opt_given(properties)),
            )),
        }),
{
    let mut parent = no_members();
    put(&mut parent, "page_id", text(parent_id));
    assert(members_model(parent@) =~= seq![("page_id"@, JsonValue::Text(parent_id@))]);
    let mut body = no_members();
    put(&mut body, "parent", object(parent));
    put(&mut body, "title", rich_text(title));
    assert(members_model(body@) =~= seq![("parent"@, JsonValue::Object(seq![("page_id"@, JsonValue::Text(parent_id@))])), ("title"@, rich_text_of(title@))]);
    add_opt_given(&mut body, "properties", properties);
    with_body(Method::Post, String::from_str("/v1/data_sources"), object(body))
}

/// Updates a data source with the given data.
pub fn data_source_update(ds_id: &str, data: serde_json::Value) -> (r: Request)
    ensures
        r@ == (RequestView {
            method: Method::Patch,
            path: "/v1/data_sources/"@ + ds_id@,
            query: Seq::empty(),
            body: Some(JsonValue::Given(data)),
        }),
{
    with_body(Method::Patch, path1("/v1/data_sources/", ds_id), Json::Given(data))
}

/// Queries a data source, optionally filtered and sorted, a page at a time.
pub fn data_source_query(
    ds_id: &str,
    filter: Option<serde_json::Value>,
    sorts: Option<serde_json::Value>,
    page_size: Option<u32>,
    start_cursor: Option<&str>,
) -> (r: Request)
    ensures
        r@ == (RequestView {
            method: Method::Post,
            path: "/v1/data_sources/"@ + ds_id@ + "/query"@,
            query: Seq::empty(),
            body: Some(JsonValue::Object(
                opt_member("filter"@, opt_given(filter)) + opt_member("sorts"@, opt_given(sorts))
                + paging_members(page_size, opt_str(start_cursor)),
            )),
        }),
{
    let mut body = no_members();
    add_opt_given(&mut body, "filter", filter);
    add_opt_given(&mut body, "sorts", sorts);
    add_paging_members(&mut body, page_size, start_cursor);
    assert(members_model(body@) =~= opt_member("filter"@, opt_given(filter)) + opt_member("sorts"@, opt_given(sorts))
        + paging_members(page_size, opt_str(start_cursor)));
    with_body(Method::Post, path2("/v1/data_sources/", ds_id, "/query"), object(body))
}

/// The templates of a data source.
pub fn data_source_templates(ds_id: &str) -> (r: Request)
    ensures
        r@ == (RequestView {
            method: Method::Get,
            path: "/v1/data_sources/"@ + ds_id@ + "/templates"@,
            query: Seq::empty(),
            body: None,
        }),
{
    let r = get(path2("/v1/data_sources/", ds_id, "/templates"), Vec::new());
    assert(r@.query =~= Seq::empty());
    r
}

/// Opens an upload session in the given mode, with the details each mode needs.
pub fn file_upload_create(
    mode: &str,
    filename: Option<&str>,
    content_type: Option<&str>,
    number_of_parts: Option<u32>,
    external_url: Option<&str>,
) -> (r: Request)
    ensures
        r@ == (RequestView {
            method: Method::Post,
            path: "/v1/file_uploads"@,
            query: Seq::empty(),
            body: Some(JsonValue::Object(
                seq![("mode"@, JsonValue::Text(mode@))]
                + opt_member("filename"@, opt_text(opt_str(filename)))
                + opt_member("content_type"@, opt_text(opt_str(content_type)))
                + opt_member("number_of_parts"@, match number_of_parts {
                    Some(n) => Some(JsonValue::Int(n as u64)),
                    None => None,
                })
                + opt_member("external_url"@, opt_text(opt_str(external_url))),
            )),
        }),
{
    let mut body = no_members();
    put(&mut body, "mode", text(mode));
    assert(members_model(body@) =~= seq![("mode"@, JsonValue::Text(mode@))]);
    add_opt_text(&mut body, "filename", filename);
    add_opt_text(&mut body, "content_type", content_type);
    let ghost m = members_model(body@);
    if let Some(n) = number_of_parts {
        put(&mut body, "number_of_parts", Json::Int(n as u64));
    }
    assert(members_model(body@) =~= m + opt_member("number_of_parts"@, match number_of_parts {
        Some(n) => Some(JsonValue::Int(n as u64)),
        None => None,
    }));
    add_opt_text(&mut body, "external_url", external_url);
    with_body(Method::Post, String::from_str("/v1/file_uploads"), object(body))
}

/// Completes an upload session.
pub fn file_upload_complete(upload_id: &str) -> (r: Request)
    ensures
        r@ == (RequestView {
            method: Method::Post,
            path: crate::upload::complete_path_of(upload_id@),
            query: Seq::empty(),
            body: None,
        }),
{
    let r = Request { method: Method::Post, path: crate::upload::complete_path(upload_id), query: Vec::new(), body: None };
    assert(r@.query =~= Seq::empty());
    r
}

/// An upload session.
pub fn file_upload_get(upload_id: &str) -> (r: Request)
    ensures
        r@ == (RequestView { method: Method::Get, path: "/v1/file_uploads/"@ + upload_id@, query: Seq::empty(), body: None }),
{
    let r = get(path1("/v1/file_uploads/", upload_id), Vec::new());
    assert(r@.query =~= Seq::empty());
    r
}

/// Upload sessions, optionally by status, a page at a time.
pub fn file_upload_list(status: Option<&str>, page_size: Option<u32>, start_cursor: Option<&str>) -> (r: Request)
    ensures
        r@ == (RequestView {
            method: Method::Get,
            path: "/v1/file_uploads"@,
            query: (match status {
                Some(s) => seq![("status"@, s@)],
                None => Seq::empty(),
            }) + paging_params(page_size, opt_str(start_cursor)),
            body: None,
        }),
{
    let mut q = Vec::new();
    assert(params_model(q@) =~= Seq::empty());
    if let Some(s) = status {
        add_param(&mut q, "status", String::from_str(s));
    }
    let ghost q1 = params_model(q@);
    assert(q1 =~= (match status {
        Some(s) => seq![("status"@, s@)],
        None => Seq::<(Seq<char>, Seq<char>)>::empty(),
    }));
    add_paging_params(&mut q, page_size, start_cursor);
    get(String::from_str("/v1/file_uploads"), q)
}

} // verus!
