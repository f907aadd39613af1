use notion_cli::client::Method;
use notion_cli::error::NotionError;
use notion_cli::json::{json_arg, Json};
use notion_cli::requests::{
    block_append, block_update, comment_create, comment_list, data_source_query, file_upload_create,
    file_upload_list, page_create, page_get, page_move, search, user_list, Request,
};

/// The JSON text of a request body, members in order.
fn render(j: &Json) -> String {
    match j {
        Json::Bool(b) => b.to_string(),
        Json::Int(n) => n.to_string(),
        Json::Text(s) => format!("{:?}", s),
        Json::Object(fields) => {
            let parts: Vec<String> = fields.iter().map(|(k, v)| format!("{:?}:{}", k, render(v))).collect();
            format!("{{{}}}", parts.join(","))
        }
        Json::Array(items) => {
            let parts: Vec<String> = items.iter().map(render).collect();
            format!("[{}]", parts.join(","))
        }
        Json::Given(v) => v.to_string(),
        Json::Extended(v, fields) => {
            let parts: Vec<String> = fields.iter().map(|(k, x)| format!("{:?}:{}", k, render(x))).collect();
            format!("{}+{{{}}}", v, parts.join(","))
        }
    }
}

fn body(r: &Request) -> String {
    render(r.body.as_ref().unwrap())
}

fn query(r: &Request) -> Vec<(&str, &str)> {
    r.query.iter().map(|(k, v)| (k.as_str(), v.as_str())).collect()
}

#[test]
fn search_body_holds_query_filter_and_paging() {
    let r = search("test", Some("page"), Some(10), Some("abc"));
    assert_eq!(r.method, Method::Post);
    assert_eq!(r.path, "/v1/search");
    assert_eq!(
        body(&r),
        r#"{"query":"test","filter":{"value":"page","property":"object"},"page_size":10,"start_cursor":"abc"}"#
    );
    let r = search("only", None, None, None);
    assert_eq!(body(&r), r#"{"query":"only"}"#);
}

#[test]
fn paging_goes_into_the_query() {
    let r = user_list(Some(10), None);
    assert_eq!(r.path, "/v1/users");
    assert_eq!(query(&r), vec![("page_size", "10")]);
    assert!(r.body.is_none());
    let r = comment_list("blk-1", Some(5), Some("cur"));
    assert_eq!(
        query(&r),
        vec![("block_id", "blk-1"), ("page_size", "5"), ("start_cursor", "cur")]
    );
    let r = file_upload_list(Some("upload_completed"), None, None);
    assert_eq!(r.path, "/v1/file_uploads");
    assert_eq!(query(&r), vec![("status", "upload_completed")]);
}

#[test]
fn page_get_repeats_filter_properties() {
    let r = page_get("page-abc", &vec!["title".to_string(), "status".to_string()]);
    assert_eq!(r.path, "/v1/pages/page-abc");
    assert_eq!(query(&r), vec![("filter_properties", "title"), ("filter_properties", "status")]);
}

#[test]
fn page_create_names_the_parent_kind() {
    let props = json_arg(r#"{"Name":{"title":[]}}"#, "properties").unwrap();
    let r = page_create("db-1", props, None, true);
    assert_eq!(r.path, "/v1/pages");
    assert_eq!(body(&r), r#"{"parent":{"database_id":"db-1"},"properties":{"Name":{"title":[]}}}"#);
    let props = json_arg("{}", "properties").unwrap();
    let children = json_arg("[]", "children").unwrap();
    let r = page_create("p-1", props, Some(children), false);
    assert_eq!(body(&r), r#"{"parent":{"page_id":"p-1"},"properties":{},"children":[]}"#);
}

#[test]
fn page_move_targets() {
    let r = page_move("p1", "database", "db9").unwrap();
    assert_eq!(r.path, "/v1/pages/p1/move");
    assert_eq!(body(&r), r#"{"parent":{"type":"database_id","database_id":"db9"}}"#);
    let r = page_move("p1", "workspace", "").unwrap();
    assert_eq!(body(&r), r#"{"parent":{"type":"workspace"}}"#);
    let r = page_move("p1", "page", "p2").unwrap();
    assert_eq!(body(&r), r#"{"parent":{"type":"page_id","page_id":"p2"}}"#);
    let err = page_move("p1", "folder", "x").unwrap_err();
    assert_eq!(
        err.message(),
        "Invalid parent type: folder. Use 'page', 'database', or 'workspace'"
    );
}

#[test]
fn comment_body_is_rich_text() {
    let r = comment_create("page-1", "Hello");
    assert_eq!(
        body(&r),
        r#"{"parent":{"page_id":"page-1"},"rich_text":[{"type":"text","text":{"content":"Hello"}}]}"#
    );
}

#[test]
fn block_requests() {
    let children = json_arg(r#"[{"type":"paragraph"}]"#, "children").unwrap();
    let r = block_append("b1", children, Some("b0"));
    assert_eq!(r.method, Method::Patch);
    assert_eq!(r.path, "/v1/blocks/b1/children");
    assert_eq!(body(&r), r#"{"children":[{"type":"paragraph"}],"after":"b0"}"#);
    let data = json_arg(r#"{"paragraph":{}}"#, "block data").unwrap();
    let r = block_update("b1", data, Some(true));
    assert_eq!(body(&r), r#"{"paragraph":{}}+{"archived":true}"#);
}

#[test]
fn data_source_query_body() {
    let filter = json_arg(r#"{"property":"Done"}"#, "filter").unwrap();
    let r = data_source_query("ds1", Some(filter), None, Some(3), None);
    assert_eq!(r.path, "/v1/data_sources/ds1/query");
    assert_eq!(body(&r), r#"{"filter":{"property":"Done"},"page_size":3}"#);
    let r = data_source_query("ds1", None, None, None, None);
    assert_eq!(body(&r), "{}");
}

#[test]
fn file_upload_create_body() {
    let r = file_upload_create("single_part", Some("test.png"), None, None, None);
    assert_eq!(body(&r), r#"{"mode":"single_part","filename":"test.png"}"#);
    let r = file_upload_create("multi_part", None, Some("video/mp4"), Some(3), None);
    assert_eq!(body(&r), r#"{"mode":"multi_part","content_type":"video/mp4","number_of_parts":3}"#);
}

#[test]
fn bad_json_argument_is_named() {
    let err = json_arg("{not json", "properties").unwrap_err();
    assert!(matches!(err, NotionError::InvalidJson { .. }));
    assert_eq!(err.message(), "Invalid JSON for properties");
}
