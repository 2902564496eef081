use comic_universe::commands::{execute_plugin_method, get_list, path_join, plugin_for, results, search};
use comic_universe::error::PluginError;
use comic_universe::hqnow::RemoteCall;
use comic_universe::json::JsonValue;
use comic_universe::plugins::{Activation, PluginManager};
use comic_universe::response::PluginResponse;
use comic_universe::simple_plugin_runner::{Execution, SimplePluginRunner};
use comic_universe::utils::{ComicUniverseApi, FileUtils, GitHubApi};

fn active_manager() -> PluginManager {
    let mut m = PluginManager::new("/plugins".to_string());
    m.activation_pass(&vec![Activation::Tested(
        SimplePluginRunner::new(
            "/plugins/hq/index.js".to_string(),
            "comic-universe-plugin-hqnow".to_string(),
        )
        .unwrap(),
        PluginResponse::ok(JsonValue::array(vec![])),
    )]);
    m
}

#[test]
fn only_the_built_in_source_has_a_plugin() {
    assert_eq!(plugin_for("hqnow"), Some("comic-universe-plugin-hqnow"));
    assert_eq!(plugin_for("HQNow"), None);
    assert_eq!(plugin_for(""), None);
}

#[test]
fn a_search_on_an_unknown_source_is_refused() {
    let m = active_manager();
    assert_eq!(
        search(&m, "other", JsonValue::Null),
        Err(PluginError::NotFound("Unknown repository: other".to_string()))
    );
    assert_eq!(get_list(&m, ""), Err(PluginError::NotFound("Unknown repository: ".to_string())));
}

#[test]
fn a_search_on_an_inactive_source_is_refused() {
    let m = PluginManager::new("/plugins".to_string());
    assert_eq!(
        search(&m, "hqnow", JsonValue::Null),
        Err(PluginError::NotFound("Plugin for repository 'hqnow' is not active".to_string()))
    );
    assert_eq!(
        get_list(&m, "hqnow"),
        Err(PluginError::NotFound("Plugin for repository 'hqnow' is not active".to_string()))
    );
}

#[test]
fn a_search_on_the_active_source_calls_the_plugin() {
    let m = active_manager();
    let data = JsonValue::parse("{\"data\": {\"search\": \"flash\"}}").unwrap();
    assert_eq!(search(&m, "hqnow", data), Ok(Execution::Fetch(RemoteCall::search("flash"))));
    assert_eq!(get_list(&m, "hqnow"), Ok(Execution::Fetch(RemoteCall::list())));
}

#[test]
fn results_are_the_elements_of_an_array() {
    let items = vec![JsonValue::integer(1), JsonValue::text("two")];
    let response = PluginResponse::ok(JsonValue::array(items.clone()));
    assert_eq!(results(&response, "Search failed"), Ok(items));
}

#[test]
fn results_of_data_that_is_no_array_are_the_data_alone() {
    let response = PluginResponse::ok(JsonValue::text("one"));
    assert_eq!(results(&response, "Search failed"), Ok(vec![JsonValue::text("one")]));
    let bare = PluginResponse { success: true, data: None, error: None };
    assert_eq!(results(&bare, "Search failed"), Ok(vec![]));
}

#[test]
fn results_of_a_failure_are_its_error() {
    let response = PluginResponse::fail("GetList failed: x".to_string());
    assert_eq!(results(&response, "Get list failed"), Err("GetList failed: x".to_string()));
    let silent = PluginResponse { success: false, data: Some(JsonValue::Null), error: None };
    assert_eq!(results(&silent, "Get list failed"), Err("Get list failed".to_string()));
    assert_eq!(results(&silent, "Search failed"), Err("Search failed".to_string()));
}

#[test]
fn the_value_of_a_response_is_its_data_or_null() {
    assert_eq!(execute_plugin_method(&PluginResponse::ok(JsonValue::integer(3))), Ok(JsonValue::integer(3)));
    let bare = PluginResponse { success: true, data: None, error: None };
    assert_eq!(execute_plugin_method(&bare), Ok(JsonValue::Null));
    assert_eq!(execute_plugin_method(&PluginResponse::fail("e".to_string())), Err("e".to_string()));
    let silent = PluginResponse { success: false, data: None, error: None };
    assert_eq!(execute_plugin_method(&silent), Err("Unknown plugin error".to_string()));
}

#[test]
fn paths_are_joined_part_by_part() {
    let parts = vec!["/a".to_string(), "b".to_string(), "c.txt".to_string()];
    assert_eq!(FileUtils::join_path(&parts), "/a/b/c.txt");
    assert_eq!(path_join(parts), "/a/b/c.txt");
    assert_eq!(FileUtils::join_path(&[]), "");
    assert_eq!(FileUtils::join_path(&["rel".to_string()]), "rel");
    assert_eq!(FileUtils::join_path(&["a".to_string(), "/abs".to_string(), "x".to_string()]), "/abs/x");
}

#[test]
fn the_parent_of_a_path() {
    assert_eq!(FileUtils::get_parent_dir("/a/b/c.txt"), Some("/a/b".to_string()));
    assert_eq!(FileUtils::get_parent_dir("file"), Some(String::new()));
    assert_eq!(FileUtils::get_parent_dir("/"), None);
    assert_eq!(FileUtils::get_parent_dir(""), None);
}

#[test]
fn a_download_is_stored_under_the_last_segment() {
    assert_eq!(
        FileUtils::download_target("https://example.com/files/plugin-1.0.tgz?x=1", "/plugins"),
        Ok("/plugins/plugin-1.0.tgz".to_string())
    );
    assert_eq!(FileUtils::download_target("https://example.com", "/plugins"), Ok("/plugins/".to_string()));
    assert_eq!(
        FileUtils::download_target("https://example.com/a b", "/d"),
        Ok("/d/a%20b".to_string())
    );
}

#[test]
fn a_download_needs_an_address_with_a_path() {
    assert_eq!(
        FileUtils::download_target("data:text/plain,Hello", "/plugins"),
        Err(PluginError::Parse("Could not extract filename from URL".to_string()))
    );
    assert_eq!(
        FileUtils::download_target("not an address", "/plugins"),
        Err(PluginError::Parse("relative URL without a base".to_string()))
    );
}

#[test]
fn addresses_of_the_interfaces() {
    let hub = GitHubApi::new();
    assert_eq!(
        hub.latest_release_address("owner/repo"),
        "https://api.github.com/repos/owner/repo/releases/latest"
    );
    assert_eq!(hub.address("users/x"), "https://api.github.com/users/x");
    assert_eq!(ComicUniverseApi::new().address("plugins"), "https://api.comic-universe.app/plugins");
}

#[test]
fn the_plugin_list_has_to_be_an_array() {
    let list = JsonValue::parse("[{\"name\": \"a\"}, 2]").unwrap();
    assert_eq!(
        ComicUniverseApi::plugin_list(&list),
        Ok(vec![JsonValue::parse("{\"name\": \"a\"}").unwrap(), JsonValue::integer(2)])
    );
    assert_eq!(
        ComicUniverseApi::plugin_list(&JsonValue::parse("{\"plugins\": []}").unwrap()),
        Err(PluginError::Parse("Invalid response format from plugins API".to_string()))
    );
}

#[test]
fn the_status_of_an_answer_is_checked() {
    assert_eq!(GitHubApi::check(200), Ok(()));
    assert_eq!(GitHubApi::check(299), Ok(()));
    assert_eq!(
        GitHubApi::check(404),
        Err(PluginError::Network("GitHub API request failed: HTTP 404 Not Found".to_string()))
    );
    assert_eq!(
        ComicUniverseApi::check(500),
        Err(PluginError::Network(
            "Comic Universe API request failed: HTTP 500 Internal Server Error".to_string()
        ))
    );
    assert_eq!(ComicUniverseApi::check(204), Ok(()));
    assert_eq!(FileUtils::check_download(201), Ok(()));
    assert_eq!(
        FileUtils::check_download(301),
        Err(PluginError::Network("Failed to download file: HTTP 301 Moved Permanently".to_string()))
    );
    assert_eq!(
        comic_universe::utils::check_status("x: ", 199),
        Err(PluginError::Network("x: 199 <unknown status code>".to_string()))
    );
}

#[test]
fn the_file_name_is_the_last_segment() {
    let parts = vec!["files".to_string(), "v1".to_string(), "plugin.tgz".to_string()];
    assert_eq!(FileUtils::file_name(&parts), Some("plugin.tgz"));
    assert_eq!(FileUtils::file_name(&vec!["only".to_string()]), Some("only"));
    assert_eq!(FileUtils::file_name(&vec!["a".to_string(), String::new()]), Some(""));
    assert_eq!(FileUtils::file_name(&vec![]), None);
    assert_eq!(FileUtils::target(&Some(parts), "/d"), Ok("/d/plugin.tgz".to_string()));
    assert_eq!(
        FileUtils::target(&Some(vec![]), "/d"),
        Err(PluginError::Parse("Could not extract filename from URL".to_string()))
    );
    assert_eq!(
        FileUtils::target(&None, "/d"),
        Err(PluginError::Parse("Could not extract filename from URL".to_string()))
    );
}

#[test]
fn a_download_takes_the_last_of_several_segments() {
    assert_eq!(
        FileUtils::download_target("https://example.com/first/second/third.bin#frag", "/d"),
        Ok("/d/third.bin".to_string())
    );
    assert_eq!(
        FileUtils::download_target("https://example.com/first/second/", "/d"),
        Ok("/d/".to_string())
    );
}
