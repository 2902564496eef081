use comic_universe::error::PluginError;
use comic_universe::hqnow::{HttpOutcome, RemoteCall};
use comic_universe::json::JsonValue;
use comic_universe::models::{PluginInfo, RepoOption};
use comic_universe::plugins::{Activation, InstalledFolder, PluginManager};
use comic_universe::response::PluginResponse;
use comic_universe::simple_plugin_runner::{Execution, SimplePluginRunner};

const CATALOGUE: &str = "comic-universe-plugin-hqnow";

fn runner(name: &str) -> SimplePluginRunner {
    SimplePluginRunner::new(format!("/plugins/{}/index.js", name), name.to_string()).unwrap()
}

fn passed(name: &str) -> Activation {
    Activation::Tested(runner(name), PluginResponse::ok(JsonValue::array(vec![])))
}

fn failed(name: &str) -> Activation {
    Activation::Tested(runner(name), PluginResponse::fail("GetList failed: offline".to_string()))
}

fn missing(name: &str) -> Activation {
    Activation::Missing(name.to_string())
}

fn manager_with(names: &[&str]) -> PluginManager {
    let mut m = PluginManager::new("/plugins".to_string());
    m.activation_pass(&names.iter().map(|n| passed(n)).collect());
    m
}

fn sorted(mut names: Vec<String>) -> Vec<String> {
    names.sort();
    names
}

fn info(name: &str, path: &str) -> PluginInfo {
    PluginInfo {
        name: name.to_string(),
        path: path.to_string(),
        author: None,
        version: "1.0.0".to_string(),
        repository: String::new(),
        icon_path: String::new(),
    }
}

#[test]
fn a_new_manager_has_no_active_plugin() {
    let m = PluginManager::new("/plugins".to_string());
    assert_eq!(m.plugins_path(), "/plugins");
    assert_eq!(m.get_active_plugin_names(), Vec::<String>::new());
    assert!(!m.is_plugin_active("any"));
    assert_eq!(m.get_repo_list(), Vec::<RepoOption>::new());
    assert_eq!(m.runner("any"), None);
}

#[test]
fn dispatch_to_a_plugin_that_is_not_active_says_so() {
    let m = manager_with(&["one"]);
    for name in ["two", "", "ONE", "one "] {
        let step = m.execute_plugin_method(name, "search", JsonValue::Null);
        assert_eq!(
            step,
            Execution::Done(PluginResponse {
                success: false,
                data: None,
                error: Some(format!("Plugin '{}' not found or not active", name)),
            })
        );
    }
}

#[test]
fn dispatch_to_an_active_plugin_is_its_runners_answer() {
    let m = manager_with(&["one", CATALOGUE]);
    let args = JsonValue::parse("{\"data\": {\"search\": \"x\"}}").unwrap();
    assert_eq!(
        m.execute_plugin_method("one", "search", args.clone()),
        runner("one").execute_method("search", args.clone())
    );
    assert_eq!(
        m.execute_plugin_method(CATALOGUE, "search", args.clone()),
        Execution::Fetch(RemoteCall::search("x"))
    );
    assert_eq!(
        m.execute_plugin_method_async(CATALOGUE, "getList", args.clone()),
        Execution::Fetch(RemoteCall::list())
    );
}

#[test]
fn dispatches_do_not_mix_their_arguments() {
    let m = manager_with(&["one", "two", CATALOGUE]);
    let mut steps = Vec::new();
    for i in 0..20i64 {
        let name = if i % 2 == 0 { "one" } else { "two" };
        steps.push((i, name, m.execute_plugin_method(name, "m", JsonValue::integer(i))));
        let term = format!("term {}", i);
        let args = JsonValue::parse(&format!("{{\"data\": {{\"search\": \"{}\"}}}}", term)).unwrap();
        assert_eq!(
            m.execute_plugin_method(CATALOGUE, "search", args),
            Execution::Fetch(RemoteCall::search(&term))
        );
    }
    for (i, name, step) in steps {
        match step {
            Execution::Done(r) => {
                let data = r.data.unwrap();
                assert_eq!(data.get("args"), Some(&JsonValue::integer(i)));
                assert_eq!(data.text_field("plugin"), Some(name));
            }
            other => panic!("unexpected {:?}", other),
        }
    }
}

#[test]
fn a_passed_test_activates_and_a_failed_one_deactivates() {
    let mut m = PluginManager::new("/plugins".to_string());
    m.activation_pass(&vec![passed("a"), passed("b")]);
    assert!(m.is_plugin_active("a"));
    assert!(m.is_plugin_active("b"));
    m.activation_pass(&vec![failed("a"), passed("b")]);
    assert!(!m.is_plugin_active("a"));
    assert!(m.is_plugin_active("b"));
    m.activation_pass(&vec![missing("a"), passed("b"), failed("never"), missing("gone")]);
    assert_eq!(m.get_active_plugin_names(), vec!["b".to_string()]);
    m.activation_pass(&vec![passed("a"), missing("b")]);
    assert_eq!(m.get_active_plugin_names(), vec!["a".to_string()]);
}

#[test]
fn a_plugin_that_vanished_between_two_passes_is_not_active() {
    let mut m = PluginManager::new("/plugins".to_string());
    m.activation_pass(&vec![passed("stays"), passed("vanishes"), passed(CATALOGUE)]);
    assert_eq!(
        sorted(m.get_active_plugin_names()),
        vec![CATALOGUE.to_string(), "stays".to_string(), "vanishes".to_string()]
    );
    m.activation_pass(&vec![passed("stays")]);
    assert_eq!(m.get_active_plugin_names(), vec!["stays".to_string()]);
    assert!(!m.is_plugin_active("vanishes"));
    assert!(!m.is_plugin_active(CATALOGUE));
    assert_eq!(m.runner("vanishes"), None);
    assert_eq!(m.get_repo_list(), Vec::<RepoOption>::new());
    assert_eq!(
        m.execute_plugin_method("vanishes", "getList", JsonValue::Null),
        Execution::Done(PluginResponse::fail(
            "Plugin 'vanishes' not found or not active".to_string()
        ))
    );
}

#[test]
fn a_pass_over_nothing_leaves_no_plugin_active() {
    let mut m = manager_with(&["a", "b"]);
    assert_eq!(sorted(m.get_active_plugin_names()), vec!["a".to_string(), "b".to_string()]);
    m.activation_pass(&vec![]);
    assert_eq!(m.get_active_plugin_names(), Vec::<String>::new());
    assert!(!m.is_plugin_active("a"));
    assert_eq!(m.plugins_path(), "/plugins");
}

#[test]
fn the_active_plugins_are_those_that_passed_in_the_latest_pass() {
    let mut m = PluginManager::new("/plugins".to_string());
    m.activation_pass(&vec![passed("a"), passed("b"), failed("c"), passed("d")]);
    m.activation_pass(&vec![failed("a"), passed("c"), passed("d"), missing("e")]);
    assert_eq!(sorted(m.get_active_plugin_names()), vec!["c".to_string(), "d".to_string()]);
}

#[test]
fn a_plugin_is_active_exactly_if_its_test_succeeded() {
    let mut m = PluginManager::new("/plugins".to_string());
    let pass = vec![
        Activation::Tested(runner("good"), PluginResponse::ok(JsonValue::array(vec![]))),
        Activation::Tested(runner("bad"), PluginResponse::fail("GetList failed: x".to_string())),
        Activation::Tested(runner("empty"), PluginResponse { success: true, data: None, error: None }),
        missing("missing"),
    ];
    assert!(pass[0].has_passed());
    assert!(!pass[1].has_passed());
    assert!(pass[2].has_passed());
    assert!(!pass[3].has_passed());
    m.activation_pass(&pass);
    assert_eq!(sorted(m.get_active_plugin_names()), vec!["empty".to_string(), "good".to_string()]);
    assert!(!m.is_plugin_active("bad"));
    assert!(!m.is_plugin_active("missing"));
}

#[test]
fn a_later_pass_removes_a_plugin_whose_test_fails_now() {
    let mut m = manager_with(&["a", CATALOGUE]);
    assert_eq!(m.get_repo_list(), vec![RepoOption { label: "HQ Now".to_string(), value: "hqnow".to_string() }]);
    let call = RemoteCall::list();
    let response = call.complete(&HttpOutcome::Failed("offline".to_string()));
    assert!(!response.success);
    m.activation_pass(&vec![passed("a"), Activation::Tested(runner(CATALOGUE), response)]);
    assert_eq!(m.get_active_plugin_names(), vec!["a".to_string()]);
    assert!(!m.is_plugin_active(CATALOGUE));
    assert_eq!(m.get_repo_list(), Vec::<RepoOption>::new());
}

#[test]
fn the_last_of_two_activations_of_a_plugin_decides() {
    let mut m = PluginManager::new("/plugins".to_string());
    m.activation_pass(&vec![passed("a"), failed("a"), failed("b"), passed("b")]);
    assert_eq!(m.get_active_plugin_names(), vec!["b".to_string()]);
}

#[test]
fn a_passed_test_replaces_the_runner() {
    let mut m = manager_with(&["a"]);
    assert_eq!(m.runner("a"), Some(runner("a")));
    let newer = SimplePluginRunner::new("/elsewhere/main.js".to_string(), "a".to_string()).unwrap();
    m.activation_pass(&vec![
        passed("a"),
        Activation::Tested(newer.clone(), PluginResponse::ok(JsonValue::Null)),
    ]);
    assert_eq!(m.get_active_plugin_names(), vec!["a".to_string()]);
    assert_eq!(m.runner("a"), Some(newer));
}

#[test]
fn the_names_of_the_active_plugins_occur_once() {
    let m = manager_with(&["c", "a", "b", "a", "c"]);
    assert_eq!(
        sorted(m.get_active_plugin_names()),
        vec!["a".to_string(), "b".to_string(), "c".to_string()]
    );
}

#[test]
fn the_repo_list_follows_the_catalogue_plugin() {
    assert_eq!(manager_with(&["hqnow"]).get_repo_list(), Vec::<RepoOption>::new());
    let repos = manager_with(&["x", CATALOGUE]).get_repo_list();
    assert_eq!(repos.len(), 1);
    assert_eq!(repos[0].label, "HQ Now");
    assert_eq!(repos[0].value, "hqnow");
}

#[test]
fn a_candidate_needs_its_entry_file() {
    let m = PluginManager::new("/plugins".to_string());
    let found = m.candidate(&info("other", "main.js"), true).unwrap();
    assert_eq!(found.runner.plugin_name(), "other");
    assert_eq!(found.runner.plugin_path(), "/plugins/other/main.js");
    assert_eq!(found.test, found.runner.test_plugin());
    assert_eq!(m.entry_path(&info("other", "main.js")), "/plugins/other/main.js");
    assert_eq!(m.candidate(&info("other", "main.js"), false), Err(missing("other")));
    let direct = m.candidate(&info(CATALOGUE, "index.js"), true).unwrap();
    assert_eq!(direct.test, Execution::Fetch(RemoteCall::list()));
}

#[test]
fn the_plugins_root_depends_on_the_mode() {
    assert_eq!(PluginManager::plugins_root(true, "/work/src-tauri"), Ok("/work/plugins".to_string()));
    assert_eq!(
        PluginManager::plugins_root(true, "/"),
        Err(PluginError::Io("Could not find project root directory".to_string()))
    );
    assert_eq!(
        PluginManager::plugins_root(false, "/home/u/.local/share"),
        Ok("/home/u/.local/share/comic-universe/plugins".to_string())
    );
}

#[test]
fn a_manifest_gives_the_fields_of_a_plugin() {
    let m = PluginManager::new("/plugins".to_string());
    assert_eq!(m.manifest_path("hq"), "/plugins/hq/package.json");
    let text = "{\"name\": \"comic-universe-plugin-hqnow\", \"main\": \"dist/index.js\", \"author\": \"P\", \"version\": \"0.4.1\", \"repository\": \"u/r\", \"icon\": \"hq.png\"}";
    assert_eq!(
        m.describe("hq", text),
        Some(PluginInfo {
            name: "comic-universe-plugin-hqnow".to_string(),
            path: "dist/index.js".to_string(),
            author: Some("P".to_string()),
            version: "0.4.1".to_string(),
            repository: "u/r".to_string(),
            icon_path: "/plugins/hq/hq.png".to_string(),
        })
    );
}

#[test]
fn a_manifest_without_fields_gets_the_defaults() {
    let m = PluginManager::new("/plugins".to_string());
    let expected = PluginInfo {
        name: "folder".to_string(),
        path: "index.js".to_string(),
        author: None,
        version: "0.0.0".to_string(),
        repository: String::new(),
        icon_path: "/plugins/folder/icon.png".to_string(),
    };
    assert_eq!(m.describe("folder", "{}"), Some(expected.clone()));
    assert_eq!(m.describe("folder", "[1]"), Some(expected.clone()));
    assert_eq!(
        m.describe("folder", "{\"name\": 1, \"main\": null, \"author\": {}, \"version\": 2, \"repository\": {\"url\": \"x\"}, \"icon\": []}"),
        Some(expected)
    );
    assert_eq!(m.describe("folder", "not json"), None);
}

#[test]
fn directories_without_a_manifest_are_passed_over() {
    let m = PluginManager::new("/plugins".to_string());
    let folders = vec![
        InstalledFolder { name: "a".to_string(), manifest: Some("{\"version\": \"1\"}".to_string()) },
        InstalledFolder { name: "b".to_string(), manifest: None },
        InstalledFolder { name: "c".to_string(), manifest: Some("{broken".to_string()) },
        InstalledFolder { name: "d".to_string(), manifest: Some("{\"name\": \"dee\"}".to_string()) },
    ];
    let list = m.get_plugin_info_list(&folders);
    assert_eq!(list.len(), 2);
    assert_eq!(list[0], m.describe("a", "{\"version\": \"1\"}").unwrap());
    assert_eq!(list[0].name, "a");
    assert_eq!(list[0].version, "1");
    assert_eq!(list[1].name, "dee");
    assert_eq!(list[1].icon_path, "/plugins/d/icon.png");
    assert_eq!(m.get_plugin_info_list(&vec![]), Vec::<PluginInfo>::new());
}

#[test]
fn the_fields_of_a_plugin_come_from_its_manifest() {
    let m = PluginManager::new("/plugins".to_string());
    let doc = JsonValue::parse("{\"name\": \"n\", \"icon\": \"/abs/i.png\", \"author\": \"\"}").unwrap();
    let found = m.info_from("dir", &doc);
    assert_eq!(found.name, "n");
    assert_eq!(found.path, "index.js");
    assert_eq!(found.author, Some(String::new()));
    assert_eq!(found.version, "0.0.0");
    assert_eq!(found.repository, "");
    assert_eq!(found.icon_path, "/abs/i.png");
    assert_eq!(m.info_from("dir", &JsonValue::Null).name, "dir");
}

struct Source;

impl comic_universe::plugins::PluginRepository for Source {
    fn repo_name(&self) -> &str {
        "HQ Now"
    }

    fn repo_tag(&self) -> &str {
        "hqnow"
    }
}

#[test]
fn a_content_source_has_a_name_and_a_tag() {
    let source: &dyn comic_universe::plugins::PluginRepository = &Source;
    assert_eq!(source.repo_name(), "HQ Now");
    assert_eq!(source.repo_tag(), "hqnow");
}

#[test]
fn a_candidate_without_adapter_is_tested_without_a_request() {
    let m = PluginManager::new("/plugins".to_string());
    let candidate = m.candidate(&info("other", "main.js"), true).unwrap();
    assert_eq!(candidate.request(), None);
    let expected = runner("other").test_plugin().conclude(&None).unwrap();
    let activation = candidate.conclude(&None);
    assert!(activation.has_passed());
    assert_eq!(
        activation,
        Activation::Tested(
            SimplePluginRunner::new("/plugins/other/main.js".to_string(), "other".to_string()).unwrap(),
            expected
        )
    );
}

#[test]
fn a_candidate_of_the_catalogue_is_tested_by_its_request() {
    let m = PluginManager::new("/plugins".to_string());
    let good = HttpOutcome::Answered {
        status: 200,
        body: Ok("{\"data\": {\"getHqsByName\": [{\"name\": \"A\"}]}}".to_string()),
    };
    let candidate = m.candidate(&info(CATALOGUE, "index.js"), true).unwrap();
    assert_eq!(candidate.request(), Some(&RemoteCall::list()));
    let passed = candidate.conclude(&Some(good));
    assert!(passed.has_passed());
    match &passed {
        Activation::Tested(r, response) => {
            assert_eq!(r.plugin_name(), CATALOGUE);
            assert_eq!(r.plugin_path(), "/plugins/comic-universe-plugin-hqnow/index.js");
            assert_eq!(response.data.as_ref().unwrap().to_text(), "[{\"name\":\"A\"}]");
        }
        other => panic!("unexpected {:?}", other),
    }

    let offline = m.candidate(&info(CATALOGUE, "index.js"), true).unwrap();
    let failed = offline.conclude(&Some(HttpOutcome::Failed("offline".to_string())));
    assert!(!failed.has_passed());
    match &failed {
        Activation::Tested(_, response) => assert_eq!(
            response.error.as_deref(),
            Some("GetList failed: Network error: offline")
        ),
        other => panic!("unexpected {:?}", other),
    }

    let unasked = m.candidate(&info(CATALOGUE, "index.js"), true).unwrap();
    assert_eq!(unasked.conclude(&None), missing(CATALOGUE));

    let mut manager = PluginManager::new("/plugins".to_string());
    manager.activation_pass(&vec![passed]);
    assert!(manager.is_plugin_active(CATALOGUE));
    manager.activation_pass(&vec![failed]);
    assert!(!manager.is_plugin_active(CATALOGUE));
}
