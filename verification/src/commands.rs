use crate::error::{ErrorModel, PluginError};
use crate::json::{copy_items, models, JsonModel, JsonObject, JsonValue};
use crate::plugins::{catalogue_plugin, PluginManager};
use crate::response::{PluginResponse, ResponseModel};
use crate::simple_plugin_runner::{planned, Execution};
use crate::text::{join, same_text, texts};
use crate::utils::{joined_all, FileUtils};
use vstd::prelude::*;

verus! {

/// The plugin behind a content source: the one source that is built in has
/// one, no other has.
pub open spec fn plugin_of(repo: Seq<char>) -> Option<Seq<char>> {
    if repo == "hqnow"@ {
        Some(catalogue_plugin())
    } else {
        None
    }
}

/// Why a call on the content source `repo` is not made, if it is not: the
/// source is not known, or the plugin behind it is not active.
pub open spec fn refusal(active: Map<Seq<char>, Seq<char>>, repo: Seq<char>) -> Option<
    ErrorModel,
> {
    match plugin_of(repo) {
        None => Some(ErrorModel::NotFound("Unknown repository: "@ + repo)),
        Some(plugin) => if active.dom().contains(plugin) {
            None
        } else {
            Some(ErrorModel::NotFound("Plugin for repository '"@ + repo + "' is not active"@))
        },
    }
}

/// The list that a response amounts to: the elements of its data where
/// that is an array, its data alone where it is anything else, nothing
/// where it has none; the error of a response that tells of a failure, or
/// `fallback` where it gives none.
pub open spec fn results_of(response: ResponseModel, fallback: Seq<char>) -> Result<
    Seq<JsonModel>,
    Seq<char>,
> {
    if response.success {
        match response.data {
            Some(data) => match data.items() {
                Some(items) => Ok(items),
                None => Ok(seq![data]),
            },
            None => Ok(Seq::empty()),
        }
    } else {
        match response.error {
            Some(e) => Err(e),
            None => Err(fallback),
        }
    }
}

/// The value that a response amounts to: its data, `null` where it has
/// none; the error of a response that tells of a failure.
pub open spec fn value_of(response: ResponseModel) -> Result<JsonModel, Seq<char>> {
    if response.success {
        match response.data {
            Some(data) => Ok(data),
            None => Ok(JsonModel::Null),
        }
    } else {
        match response.error {
            Some(e) => Err(e),
            None => Err("Unknown plugin error"@),
        }
    }
}

/// The plugin behind the content source `repo`.
pub fn plugin_for(repo: &str) -> (r: Option<&'static str>)
    ensures
        match r {
            Some(plugin) => plugin_of(repo@) == Some(plugin@),
            None => plugin_of(repo@) is None,
        },
{
    if same_text(repo, "hqnow") {
        Some("comic-universe-plugin-hqnow")
    } else {
        None
    }
}

fn on_source(manager: &PluginManager, repo: &str, method: &str, args: JsonValue) -> (r: Result<
    Execution,
    PluginError,
>)
    ensures
        match r {
            Ok(step) => refusal(manager.active(), repo@) is None && step@ == planned(
                catalogue_plugin(),
                method@,
                args@,
            ),
            Err(e) => refusal(manager.active(), repo@) == Some(e@),
        },
{
    match plugin_for(repo) {
        None => Err(PluginError::NotFound(join("Unknown repository: ", repo))),
        Some(plugin) => {
            if !manager.is_plugin_active(plugin) {
                Err(
                    PluginError::NotFound(
                        join(join("Plugin for repository '", repo).as_str(), "' is not active"),
                    ),
                )
            } else {
                Ok(manager.execute_plugin_method(plugin, method, args))
            }
        },
    }
}

/// A search on the content source `repo` with the arguments `data`: the
/// call of `search` on the plugin behind it, or why there is no such call.
pub fn search(manager: &PluginManager, repo: &str, data: JsonValue) -> (r: Result<
    Execution,
    PluginError,
>)
    ensures
        match r {
            Ok(step) => refusal(manager.active(), repo@) is None && step@ == planned(
                catalogue_plugin(),
                "search"@,
                data@,
            ),
            Err(e) => refusal(manager.active(), repo@) == Some(e@),
        },
{
    on_source(manager, repo, "search", data)
}

/// The list of the content source `repo`: the call of `getList` on the
/// plugin behind it, or why there is no such call.
pub fn get_list(manager: &PluginManager, repo: &str) -> (r: Result<Execution, PluginError>)
    ensures
        match r {
            Ok(step) => refusal(manager.active(), repo@) is None && step@ == planned(
                catalogue_plugin(),
                "getList"@,
                JsonModel::Object(Map::empty()),
            ),
            Err(e) => refusal(manager.active(), repo@) == Some(e@),
        },
{
    on_source(manager, repo, "getList", JsonValue::object(JsonObject::new()))
}

/// The list that a response amounts to, with `fallback` as the error of a
/// failure that gives none.
pub fn results(response: &PluginResponse, fallback: &str) -> (r: Result<Vec<JsonValue>, String>)
    ensures
        match r {
            Ok(items) => results_of(response@, fallback@) == Ok::<Seq<JsonModel>, Seq<char>>(
                models(items@),
            ),
            Err(e) => results_of(response@, fallback@) == Err::<Seq<JsonModel>, Seq<char>>(e@),
        },
{
    if response.success {
        match &response.data {
            Some(data) => match data.as_array() {
                Some(items) => Ok(copy_items(items)),
                None => {
                    let mut one: Vec<JsonValue> = Vec::new();
                    one.push(data.clone());
                    assert(models(one@) =~= seq![data@]);
                    Ok(one)
                },
            },
            None => {
                let none: Vec<JsonValue> = Vec::new();
                assert(models(none@) =~= Seq::<JsonModel>::empty());
                Ok(none)
            },
        }
    } else {
        match &response.error {
            Some(e) => Err(e.clone()),
            None => Err(fallback.to_owned()),
        }
    }
}

/// The value that the response to a call of a plugin's method amounts to.
pub fn execute_plugin_method(response: &PluginResponse) -> (r: Result<JsonValue, String>)
    ensures
        match r {
            Ok(v) => value_of(response@) == Ok::<JsonModel, Seq<char>>(v@),
            Err(e) => value_of(response@) == Err::<JsonModel, Seq<char>>(e@),
        },
{
    if response.success {
        match &response.data {
            Some(data) => Ok(data.clone()),
            None => Ok(JsonValue::Null),
        }
    } else {
        match &response.error {
            Some(e) => Err(e.clone()),
            None => Err("Unknown plugin error".to_owned()),
        }
    }
}

/// The path that `args` make when each is joined to those before it.
pub fn path_join(args: Vec<String>) -> (r: String)
    ensures
        r@ == joined_all(texts(args@)),
{
    FileUtils::join_path(args.as_slice())
}

} // verus!
