use comic_universe::error::PluginError;
use comic_universe::fallback::fallback_results;
use comic_universe::hqnow::{
    chapters_in, chapters_result, details_in, details_result, fetched_document, search_results,
    store_chapter, titles_in, HttpOutcome, RemoteCall,
};
use comic_universe::json::JsonValue;
use comic_universe::response::PluginResponse;

fn body(text: &str) -> HttpOutcome {
    HttpOutcome::Answered { status: 200, body: Ok(text.to_string()) }
}

fn failure() -> HttpOutcome {
    HttpOutcome::Failed("connection refused".to_string())
}

fn data_text(response: &PluginResponse) -> String {
    response.data.as_ref().unwrap().to_text()
}

#[test]
fn search_with_network_failure_falls_back_for_batman() {
    let r = RemoteCall::search("batman").complete(&failure());
    assert!(r.success);
    assert_eq!(r.error, None);
    let items = r.data.as_ref().unwrap().as_array().unwrap();
    assert_eq!(items.len(), 2);
    assert_eq!(items, &fallback_results("batman"));
}

#[test]
fn search_with_network_failure_falls_back_for_the_empty_term() {
    let r = RemoteCall::search("").complete(&failure());
    assert!(r.success);
    let items = r.data.as_ref().unwrap().as_array().unwrap();
    assert_eq!(items.len(), 2);
    assert_eq!(items[0].text_field("siteId"), Some("500"));
    assert_ne!(items, &fallback_results("batman"));
}

#[test]
fn search_with_network_failure_and_unknown_term_is_empty() {
    let r = RemoteCall::search("zzzznomatch").complete(&failure());
    assert!(r.success);
    assert_eq!(data_text(&r), "[]");
}

#[test]
fn search_falls_back_on_every_kind_of_failure() {
    let expected = PluginResponse::ok(JsonValue::array(fallback_results("Spider")));
    let outcomes = vec![
        failure(),
        HttpOutcome::Answered { status: 500, body: Ok("{}".to_string()) },
        HttpOutcome::Answered { status: 200, body: Err("reset".to_string()) },
        body("no json"),
        body("{\"errors\": [{\"message\": \"boom\"}]}"),
    ];
    for outcome in &outcomes {
        assert_eq!(RemoteCall::search("Spider").complete(outcome), expected);
    }
}

#[test]
fn search_gives_the_titles_of_the_answer() {
    let r = RemoteCall::search("x").complete(&body(
        "{\"data\": {\"getHqsByName\": [{\"siteId\": 7, \"name\": \"Seven\"}, 3]}}",
    ));
    assert!(r.success);
    assert_eq!(data_text(&r), "[{\"name\":\"Seven\",\"siteId\":7},3]");
}

#[test]
fn search_without_titles_or_errors_is_empty() {
    let r = RemoteCall::search("batman").complete(&body("{\"data\": {}}"));
    assert!(r.success);
    assert_eq!(data_text(&r), "[]");
    let s = RemoteCall::search("batman").complete(&body("{\"data\": {\"getHqsByName\": null}}"));
    assert_eq!(data_text(&s), "[]");
}

#[test]
fn list_reports_its_failures() {
    let call = RemoteCall::list();
    let r = call.complete(&failure());
    assert!(!r.success);
    assert_eq!(r.data, None);
    assert_eq!(r.error.as_deref(), Some("GetList failed: Network error: connection refused"));
    let s = call.complete(&HttpOutcome::Answered { status: 404, body: Ok(String::new()) });
    assert_eq!(s.error.as_deref(), Some("GetList failed: HTTP error: 404 Not Found"));
    let t = call.complete(&HttpOutcome::Answered { status: 200, body: Err("cut".to_string()) });
    assert_eq!(t.error.as_deref(), Some("GetList failed: Failed to read response: cut"));
    let u = call.complete(&body("<html>"));
    assert_eq!(
        u.error.as_deref(),
        Some("GetList failed: Failed to parse JSON: expected value at line 1 column 1")
    );
    let v = call.complete(&body("{\"errors\": [\"bad\"]}"));
    assert_eq!(v.error.as_deref(), Some("GetList failed: GraphQL errors: [\"bad\"]"));
}

#[test]
fn list_gives_the_titles_of_the_answer() {
    let r = RemoteCall::list().complete(&body("{\"data\": {\"getHqsByName\": [{\"name\": \"A\"}]}}"));
    assert!(r.success);
    assert_eq!(data_text(&r), "[{\"name\":\"A\"}]");
}

#[test]
fn status_codes_outside_200_to_299_are_failures() {
    for status in [100u16, 199, 300, 301, 404, 500, 999] {
        let outcome = HttpOutcome::Answered { status, body: Ok("{\"data\":{}}".to_string()) };
        assert!(fetched_document(&outcome, true).is_err(), "status {}", status);
    }
    for status in [200u16, 201, 204, 299] {
        let outcome = HttpOutcome::Answered { status, body: Ok("{\"data\":{}}".to_string()) };
        assert!(fetched_document(&outcome, true).is_ok(), "status {}", status);
    }
}

#[test]
fn status_line_names_the_code() {
    let known = HttpOutcome::Answered { status: 503, body: Ok(String::new()) };
    assert_eq!(
        fetched_document(&known, false),
        Err(PluginError::Network("HTTP error: 503 Service Unavailable".to_string()))
    );
    let unknown = HttpOutcome::Answered { status: 799, body: Ok(String::new()) };
    assert_eq!(
        fetched_document(&unknown, false),
        Err(PluginError::Network("HTTP error: 799 <unknown status code>".to_string()))
    );
    let none = HttpOutcome::Answered { status: 42, body: Ok(String::new()) };
    assert_eq!(
        fetched_document(&none, false),
        Err(PluginError::Network("HTTP error: invalid status code".to_string()))
    );
}

#[test]
fn failures_carry_a_label_only_where_asked() {
    assert_eq!(
        fetched_document(&failure(), true),
        Err(PluginError::Network("Network error: connection refused".to_string()))
    );
    assert_eq!(
        fetched_document(&failure(), false),
        Err(PluginError::Network("connection refused".to_string()))
    );
    assert_eq!(
        fetched_document(&body("{"), false),
        Err(PluginError::Parse("EOF while parsing an object at line 1 column 1".to_string()))
    );
    assert_eq!(
        fetched_document(&body("{"), true),
        Err(PluginError::Parse(
            "Failed to parse JSON: EOF while parsing an object at line 1 column 1".to_string()
        ))
    );
    let cut = HttpOutcome::Answered { status: 200, body: Err("cut".to_string()) };
    assert_eq!(fetched_document(&cut, false), Err(PluginError::Network("cut".to_string())));
    assert_eq!(
        fetched_document(&cut, true),
        Err(PluginError::Network("Failed to read response: cut".to_string()))
    );
}

#[test]
fn details_with_an_empty_result_set_are_not_found() {
    let call = RemoteCall::details("42", 42);
    let r = call.complete(&body("{\"data\": {\"getHqsById\": []}}"));
    assert!(!r.success);
    assert_eq!(r.data, None);
    assert_eq!(r.error.as_deref(), Some("GetDetails failed: No data found"));
    let s = call.complete(&body("{\"data\": null}"));
    assert_eq!(s.error.as_deref(), Some("GetDetails failed: No data found"));
}

#[test]
fn details_are_tagged_with_the_identifier_and_the_type() {
    let r = RemoteCall::details("42", 42).complete(&body(
        "{\"data\": {\"getHqsById\": [{\"cover\": \"c.png\", \"publisher\": \"P\", \"siteId\": 1}, {\"cover\": \"other\"}]}}",
    ));
    assert!(r.success);
    assert_eq!(
        data_text(&r),
        "{\"cover\":\"c.png\",\"publisher\":\"P\",\"siteId\":\"42\",\"type\":\"hq\"}"
    );
}

#[test]
fn details_of_a_null_record_hold_the_tags_alone() {
    let doc = JsonValue::parse("{\"data\": {\"getHqsById\": [null]}}").unwrap();
    assert_eq!(details_in(&doc, "9").unwrap().to_text(), "{\"siteId\":\"9\",\"type\":\"hq\"}");
}

#[test]
fn details_of_a_record_that_is_no_object_are_an_error() {
    let doc = JsonValue::parse("{\"data\": {\"getHqsById\": [5]}}").unwrap();
    assert_eq!(details_in(&doc, "9"), Err(PluginError::Parse("Malformed record".to_string())));
    let none = JsonValue::parse("{\"data\": {\"getHqsById\": []}}").unwrap();
    assert_eq!(details_in(&none, "9"), Err(PluginError::NotFound("No data found".to_string())));
    let errors = JsonValue::parse("{\"errors\": [\"e\"]}").unwrap();
    assert_eq!(
        details_in(&errors, "9"),
        Err(PluginError::Api("GraphQL errors: [\"e\"]".to_string()))
    );
}

#[test]
fn details_report_failures_without_labels() {
    let call = RemoteCall::details("42", 42);
    assert_eq!(
        call.complete(&failure()).error.as_deref(),
        Some("GetDetails failed: connection refused")
    );
    assert_eq!(
        call.complete(&body("{\"errors\": {\"m\": 1}}")).error.as_deref(),
        Some("GetDetails failed: GraphQL errors: {\"m\":1}")
    );
    assert_eq!(
        call.complete(&HttpOutcome::Answered { status: 401, body: Ok(String::new()) }).error.as_deref(),
        Some("GetDetails failed: HTTP error: 401 Unauthorized")
    );
    assert_eq!(
        details_result(&failure(), "1"),
        Err(PluginError::Network("connection refused".to_string()))
    );
}

#[test]
fn chapters_carry_offline_false_and_pages_as_text() {
    let r = RemoteCall::chapters("42", 42).complete(&body(
        "{\"data\": {\"getChaptersByHqId\": [{\"name\": \"One\", \"number\": \"1\", \"siteId\": 10, \"pages\": [{\"filename\": \"a.jpg\", \"path\": \"http://x/a.jpg\"}]}, {\"name\": \"Two\", \"offline\": true}]}}",
    ));
    assert!(r.success);
    let items = r.data.as_ref().unwrap().as_array().unwrap();
    assert_eq!(items.len(), 2);
    for item in items {
        assert_eq!(item.get("offline"), Some(&JsonValue::Bool(false)));
        assert_eq!(item.text_field("siteId"), Some("42"));
    }
    assert_eq!(
        items[0].get("pages"),
        Some(&JsonValue::text("[{\"filename\":\"a.jpg\",\"path\":\"http://x/a.jpg\"}]"))
    );
    assert_eq!(items[1].get("pages"), None);
    assert_eq!(
        items[1].to_text(),
        "{\"name\":\"Two\",\"offline\":false,\"siteId\":\"42\"}"
    );
}

#[test]
fn pages_that_are_text_already_are_written_as_json_text() {
    let chapter = JsonValue::parse("{\"pages\": \"p\"}").unwrap();
    let stored = store_chapter(&chapter, "3").unwrap();
    assert_eq!(stored.get("pages"), Some(&JsonValue::text("\"p\"")));
    let empty = JsonValue::parse("{\"pages\": null}").unwrap();
    assert_eq!(store_chapter(&empty, "3").unwrap().get("pages"), Some(&JsonValue::text("null")));
    assert_eq!(store_chapter(&JsonValue::integer(1), "3"), None);
}

#[test]
fn chapters_without_a_list_are_empty_or_an_error() {
    let call = RemoteCall::chapters("42", 42);
    let r = call.complete(&body("{\"data\": {}}"));
    assert!(r.success);
    assert_eq!(data_text(&r), "[]");
    let s = call.complete(&body("{\"errors\": \"e\"}"));
    assert_eq!(s.error.as_deref(), Some("GetChapters failed: GraphQL errors: \"e\""));
    let t = call.complete(&failure());
    assert_eq!(t.error.as_deref(), Some("GetChapters failed: connection refused"));
    assert_eq!(chapters_result(&body("{}"), "1"), Ok(vec![]));
}

#[test]
fn chapters_with_a_record_that_is_no_object_are_an_error() {
    let doc = JsonValue::parse("{\"data\": {\"getChaptersByHqId\": [{}, \"x\"]}}").unwrap();
    assert_eq!(chapters_in(&doc, "1"), Err(PluginError::Parse("Malformed record".to_string())));
}

#[test]
fn titles_take_the_list_before_the_errors() {
    let doc = JsonValue::parse("{\"data\": {\"getHqsByName\": []}, \"errors\": [1]}").unwrap();
    assert_eq!(titles_in(&doc), Ok(vec![]));
    let other = JsonValue::parse("{\"data\": {\"getHqsByName\": {}}, \"errors\": [1]}").unwrap();
    assert_eq!(titles_in(&other), Err(PluginError::Api("GraphQL errors: [1]".to_string())));
    assert_eq!(search_results(&body("[]")), Ok(vec![]));
}

#[test]
fn requests_hold_the_query_and_its_variables() {
    let search = RemoteCall::search("bat \"man\"");
    assert_eq!(
        search.body().text_field("query"),
        Some(
            r#"
            query getHqsByName($search: String!) {
                getHqsByName(name: $search) {
                    siteId: id
                    name
                    synopsis
                    status
                }
            }
        "#
        )
    );
    assert_eq!(
        search.body().get("variables").unwrap().to_text(),
        "{\"search\":\"bat \\\"man\\\"\"}"
    );
    assert_eq!(search.body().get("variables").unwrap().text_field("search"), Some("bat \"man\""));
    match search.body() {
        JsonValue::Object(o) => {
            let mut keys = o.keys();
            keys.sort();
            assert_eq!(keys, vec!["query".to_string(), "variables".to_string()]);
        }
        other => panic!("not an object: {:?}", other),
    }
    assert_eq!(RemoteCall::list().body().text_field("query"), search.body().text_field("query"));
    assert_eq!(
        RemoteCall::list().body().get("variables").unwrap().to_text(),
        "{\"search\":\"A\"}"
    );
    let details = RemoteCall::details("-5", -5);
    assert_eq!(details.body().get("variables").unwrap().to_text(), "{\"id\":-5}");
    assert_eq!(
        details.body().text_field("query"),
        Some(
            r#"
            query getHqsById($id: Int!) {
                getHqsById(id: $id) {
                    cover: hqCover
                    publisher: publisherName
                }
            }
        "#
        )
    );
    let chapters = RemoteCall::chapters("77", 77);
    assert_eq!(chapters.body().get("variables").unwrap().to_text(), "{\"id\":77}");
    assert_eq!(
        chapters.body().text_field("query"),
        Some(
            r#"
            query getChaptersByHqId($id: Int!) {
                getChaptersByHqId(hqId: $id) {
                    name
                    number
                    siteId: id
                    pages: pictures {
                        filename: image
                        path: pictureUrl
                    }
                }
            }
        "#
        )
    );
}

#[test]
fn requests_go_to_the_catalogue_with_a_bounded_wait() {
    assert_eq!(RemoteCall::endpoint(), "https://admin.hq-now.com/graphql");
    assert_eq!(RemoteCall::timeout_seconds(), 10);
    assert_eq!(RemoteCall::search("x").user_agent(), Some("Comic-Universe-Tauri/1.0"));
    assert_eq!(RemoteCall::list().user_agent(), Some("Comic-Universe-Tauri/1.0"));
    assert_eq!(RemoteCall::details("1", 1).user_agent(), None);
    assert_eq!(RemoteCall::chapters("1", 1).user_agent(), None);
}
