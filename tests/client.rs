use notion_cli::client::{
    default_headers, handle_response_with_status, header_value_ok, Method, MultipartPlan, NotionClient, Plan,
    NOTION_VERSION,
};
use notion_cli::error::{status_text, NotionError};
use notion_cli::mime::mime_from_filename;

#[test]
fn client_test_new_client_with_valid_token() {
    let client = NotionClient::new("ntn_test_token");
    assert!(client.is_ok());
}

#[test]
fn client_tests_test_new_client_with_valid_token() {
    let client = NotionClient::new("ntn_test_token");
    assert!(client.is_ok());
}

#[test]
fn client_test_new_client_with_empty_token() {
    // An empty token is accepted here and refused by the API later.
    let client = NotionClient::new("");
    assert!(client.is_ok());
}

#[test]
fn client_tests_test_new_client_with_empty_token() {
    let client = NotionClient::new("");
    assert!(client.is_ok());
}

#[test]
fn client_test_with_base_url() {
    let client = NotionClient::with_base_url("token", "http://localhost:8080").unwrap();
    assert_eq!(client.base_url, "http://localhost:8080");
}

#[test]
fn client_tests_test_with_base_url() {
    let client = NotionClient::with_base_url("token", "http://localhost:8080").unwrap();
    assert_eq!(client.base_url, "http://localhost:8080");
}

#[test]
fn client_test_default_base_url() {
    let client = NotionClient::new("token").unwrap();
    assert_eq!(client.base_url, "https://api.notion.com");
}

#[test]
fn client_tests_test_default_base_url() {
    let client = NotionClient::new("token").unwrap();
    assert_eq!(client.base_url, "https://api.notion.com");
}

#[test]
fn client_test_notion_version_constant() {
    assert_eq!(NOTION_VERSION, "2025-09-03");
}

#[test]
fn client_tests_test_notion_version_constant() {
    assert_eq!(NOTION_VERSION, "2025-09-03");
}

#[test]
fn client_test_dry_run_default_is_false() {
    let client = NotionClient::new("token").unwrap();
    assert!(!client.dry_run);
}

#[test]
fn client_tests_test_dry_run_default_is_false() {
    let client = NotionClient::new("token").unwrap();
    assert!(!client.dry_run);
}

#[test]
fn client_test_set_dry_run() {
    let mut client = NotionClient::new("token").unwrap();
    client.set_dry_run(true);
    assert!(client.dry_run);
}

#[test]
fn client_tests_test_set_dry_run() {
    let mut client = NotionClient::new("token").unwrap();
    client.set_dry_run(true);
    assert!(client.dry_run);
}

#[test]
fn client_test_mime_from_filename() {
    assert_eq!(mime_from_filename("photo.png"), "image/png");
    assert_eq!(mime_from_filename("doc.pdf"), "application/pdf");
    assert_eq!(mime_from_filename("data.csv"), "text/csv");
    assert_eq!(mime_from_filename("unknown.xyz"), "application/octet-stream");
    assert_eq!(mime_from_filename("IMAGE.JPG"), "image/jpeg");
}

#[test]
fn client_tests_test_mime_from_filename() {
    assert_eq!(mime_from_filename("photo.png"), "image/png");
    assert_eq!(mime_from_filename("doc.pdf"), "application/pdf");
    assert_eq!(mime_from_filename("data.csv"), "text/csv");
    assert_eq!(
        mime_from_filename("unknown.xyz"),
        "application/octet-stream"
    );
    assert_eq!(mime_from_filename("IMAGE.JPG"), "image/jpeg");
}

#[test]
fn test_mime_from_filename_all_types() {
    assert_eq!(mime_from_filename("a.gif"), "image/gif");
    assert_eq!(mime_from_filename("a.webp"), "image/webp");
    assert_eq!(mime_from_filename("a.svg"), "image/svg+xml");
    assert_eq!(mime_from_filename("a.html"), "text/html");
    assert_eq!(mime_from_filename("a.htm"), "text/html");
    assert_eq!(mime_from_filename("a.mp4"), "video/mp4");
    assert_eq!(mime_from_filename("a.mp3"), "audio/mpeg");
    assert_eq!(mime_from_filename("a.zip"), "application/zip");
    assert_eq!(mime_from_filename("a.doc"), "application/msword");
    assert_eq!(
        mime_from_filename("a.docx"),
        "application/vnd.openxmlformats-officedocument.wordprocessingml.document"
    );
    assert_eq!(mime_from_filename("a.xls"), "application/vnd.ms-excel");
    assert_eq!(
        mime_from_filename("a.xlsx"),
        "application/vnd.openxmlformats-officedocument.spreadsheetml.sheet"
    );
    assert_eq!(mime_from_filename("a.json"), "application/json");
    assert_eq!(mime_from_filename("a.txt"), "text/plain");
    assert_eq!(mime_from_filename("a.jpeg"), "image/jpeg");
}

#[test]
fn mime_uses_last_extension_and_whole_name_without_dot() {
    assert_eq!(mime_from_filename("archive.tar.zip"), "application/zip");
    assert_eq!(mime_from_filename("png"), "image/png");
    assert_eq!(mime_from_filename("photo."), "application/octet-stream");
    assert_eq!(mime_from_filename(""), "application/octet-stream");
    assert_eq!(mime_from_filename("Report.PdF"), "application/pdf");
}

#[test]
fn token_that_cannot_be_a_header_is_refused() {
    let result = NotionClient::new("bad\ntoken");
    assert!(matches!(result, Err(NotionError::InvalidToken)));
    let result = NotionClient::with_base_url("bad\u{7f}", "http://localhost");
    assert!(matches!(result, Err(NotionError::InvalidToken)));
    assert!(NotionClient::new("tab\tand non-ascii é").is_ok());
}

#[test]
fn error_401_names_code_and_message() {
    let body = br#"{"object":"error","status":401,"code":"unauthorized","message":"API token is invalid."}"#;
    let err = handle_response_with_status(401, body).unwrap_err();
    let text = err.message();
    assert!(text.contains("unauthorized"));
    assert!(text.contains("API token is invalid"));
    assert_eq!(
        text,
        "Notion API error (401 Unauthorized): [unauthorized] API token is invalid."
    );
}

#[test]
fn error_404_names_code() {
    let body = br#"{"object":"error","status":404,"code":"object_not_found","message":"Could not find page."}"#;
    match handle_response_with_status(404, body) {
        Err(NotionError::Api { status, code, message }) => {
            assert_eq!(status, 404);
            assert_eq!(code, "object_not_found");
            assert_eq!(message, "Could not find page.");
        }
        other => panic!("unexpected {:?}", other),
    }
}

#[test]
fn error_without_fields_uses_defaults() {
    let err = handle_response_with_status(500, br#"{"unexpected":"format"}"#).unwrap_err();
    let text = err.message();
    assert!(text.contains("Unknown error"));
    assert!(text.contains("unknown"));
    assert_eq!(
        text,
        "Notion API error (500 Internal Server Error): [unknown] Unknown error"
    );
}

#[test]
fn error_fields_that_are_not_strings_use_defaults() {
    let err = handle_response_with_status(400, br#"{"code":7,"message":null}"#).unwrap_err();
    assert!(matches!(
        err,
        NotionError::Api { ref code, ref message, .. } if code == "unknown" && message == "Unknown error"
    ));
    let err = handle_response_with_status(400, br#"["code","message"]"#).unwrap_err();
    assert!(err.message().contains("[unknown] Unknown error"));
}

#[test]
fn body_that_is_not_json_fails_to_parse() {
    assert!(matches!(
        handle_response_with_status(200, b"<html>"),
        Err(NotionError::ResponseParse)
    ));
    assert!(matches!(
        handle_response_with_status(502, b"Bad gateway"),
        Err(NotionError::ResponseParse)
    ));
}

#[test]
fn success_returns_the_body() {
    let v = handle_response_with_status(200, br#"{"object":"user","name":"Test Bot"}"#).unwrap();
    assert_eq!(v["object"], "user");
    assert_eq!(v["name"], "Test Bot");
    let v = handle_response_with_status(204, b"{}").unwrap();
    assert!(v.as_object().unwrap().is_empty());
}

#[test]
fn rate_limited_answer_is_an_error_when_final() {
    let body = br#"{"object":"error","status":429,"code":"rate_limited","message":"Rate limited"}"#;
    let err = handle_response_with_status(429, body).unwrap_err();
    assert_eq!(
        err.message(),
        "Notion API error (429 Too Many Requests): [rate_limited] Rate limited"
    );
}

#[test]
fn status_text_matches_http() {
    assert_eq!(status_text(404), "404 Not Found");
    assert_eq!(status_text(200), "200 OK");
    assert_eq!(status_text(599), "599 <unknown status code>");
    assert_eq!(status_text(42), "42 <unknown status code>");
}

#[test]
fn dry_run_holds_back_writes_but_not_reads() {
    let mut client = NotionClient::with_base_url("token", "http://localhost:9").unwrap();
    client.set_dry_run(true);
    for method in [Method::Post, Method::Patch, Method::Delete] {
        match client.plan(method, "/v1/pages") {
            Plan::Preview(d) => {
                assert_eq!(d.method, method);
                assert_eq!(d.path, "/v1/pages");
                assert_eq!(d.url, "http://localhost:9/v1/pages");
                assert!(d.file.is_none());
            }
            Plan::Send { .. } => panic!("a write was sent in dry-run mode"),
        }
    }
    match client.plan(Method::Get, "/v1/users/me") {
        Plan::Send { url } => assert_eq!(url, "http://localhost:9/v1/users/me"),
        Plan::Preview(_) => panic!("a read was held back"),
    }
}

#[test]
fn without_dry_run_everything_is_sent() {
    let client = NotionClient::with_base_url("token", "http://localhost:9").unwrap();
    for method in [Method::Get, Method::Post, Method::Patch, Method::Delete] {
        assert!(matches!(client.plan(method, "/v1/x"), Plan::Send { ref url } if url == "http://localhost:9/v1/x"));
    }
    assert_eq!(Method::Delete.as_str(), "DELETE");
    assert_eq!(Method::Patch.as_str(), "PATCH");
}

#[test]
fn multipart_unreadable_file_fails_before_sending() {
    let client = NotionClient::with_base_url("token", "http://localhost:9").unwrap();
    let r = client.plan_multipart("/v1/file_uploads/fu-1/send", "/nonexistent/file.txt", Some("file.txt"), None, None);
    match r {
        Err(e) => {
            assert!(matches!(e, NotionError::FileRead { .. }));
            assert!(e.message().contains("Failed to read file"));
            assert_eq!(e.message(), "Failed to read file: /nonexistent/file.txt");
        }
        Ok(_) => panic!("an unreadable file was planned"),
    }
    let mut client = client;
    client.set_dry_run(true);
    assert!(client
        .plan_multipart("/p", "/nonexistent/file.txt", Some("file.txt"), None, None)
        .is_err());
}

#[test]
fn multipart_dry_run_reports_the_file() {
    let mut client = NotionClient::with_base_url("token", "http://localhost:9").unwrap();
    client.set_dry_run(true);
    match client
        .plan_multipart("/v1/file_uploads/upload-1/send", "/tmp/test.txt", Some("test.txt"), Some(5), Some(1))
        .unwrap()
    {
        MultipartPlan::Preview(d) => {
            assert_eq!(d.method, Method::Post);
            assert_eq!(d.path, "/v1/file_uploads/upload-1/send");
            let f = d.file.unwrap();
            assert_eq!(f.file, "/tmp/test.txt");
            assert_eq!(f.file_size, 5);
            assert_eq!(f.part_number, Some(1));
        }
        MultipartPlan::Send(_) => panic!("sent in dry-run mode"),
    }
}

#[test]
fn multipart_send_names_and_types_the_file() {
    let client = NotionClient::with_base_url("token", "http://localhost:9").unwrap();
    match client
        .plan_multipart("/v1/file_uploads/fu-1/send", "/tmp/chunk.PNG", Some("chunk.PNG"), Some(10), Some(2))
        .unwrap()
    {
        MultipartPlan::Send(m) => {
            assert_eq!(m.url, "http://localhost:9/v1/file_uploads/fu-1/send");
            assert_eq!(m.file_name, "chunk.PNG");
            assert_eq!(m.mime, "image/png");
            assert_eq!(m.part_number.as_deref(), Some("2"));
        }
        MultipartPlan::Preview(_) => panic!("held back without dry-run"),
    }
    match client.plan_multipart("/p", "/", None, Some(0), None).unwrap() {
        MultipartPlan::Send(m) => {
            assert_eq!(m.file_name, "file");
            assert_eq!(m.mime, "application/octet-stream");
            assert!(m.part_number.is_none());
        }
        MultipartPlan::Preview(_) => panic!("held back without dry-run"),
    }
}

#[test]
fn client_sends_bearer_version_and_content_type() {
    let expected = vec![
        ("authorization".to_string(), "Bearer ntn_test_token".to_string()),
        ("notion-version".to_string(), "2025-09-03".to_string()),
        ("content-type".to_string(), "application/json".to_string()),
    ];
    assert_eq!(default_headers("ntn_test_token"), expected);
    let mut client = NotionClient::with_base_url("ntn_test_token", "http://localhost:8080").unwrap();
    assert_eq!(client.headers, expected);
    client.set_dry_run(true);
    assert_eq!(client.headers, expected);
    assert_eq!(client.base_url, "http://localhost:8080");
}

#[test]
fn header_value_check_follows_header_bytes() {
    assert!(header_value_ok("Bearer abc"));
    assert!(header_value_ok(""));
    assert!(header_value_ok("tab\there é"));
    assert!(!header_value_ok("line\nbreak"));
    assert!(!header_value_ok("del\u{7f}"));
    assert!(!header_value_ok("nul\u{0}"));
}
