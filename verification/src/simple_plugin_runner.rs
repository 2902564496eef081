use crate::error::{ErrorModel, PluginError};
use crate::fallback::{fallback_results, offline_titles};
use crate::hqnow::{
    answer, chapters_query, details_query, search_envelope, title_envelope, titles_from, CallModel,
    HttpOutcome, RemoteCall,
};
use crate::json::{models, JsonModel, JsonObject, JsonValue};
pub use crate::response::PluginResponse;
use crate::response::{failed, succeeded, ResponseModel};
use crate::text::{integer_error, integer_of, join, lowercase, parse_i32, same_text};
use vstd::prelude::*;

verus! {

/// What a call of a plugin's method comes to before anything is sent: the
/// response itself, or the request that has to be made for it.
#[derive(Debug, PartialEq, Eq)]
pub enum Execution {
    /// The response is known: nothing has to be sent.
    Done(PluginResponse),
    /// This request has to be made; its outcome gives the response.
    Fetch(RemoteCall),
}

/// The mathematical value of an [`Execution`].
pub enum ExecutionModel {
    Done(ResponseModel),
    Fetch(CallModel),
}

impl View for Execution {
    type V = ExecutionModel;

    open spec fn view(&self) -> ExecutionModel {
        match self {
            Execution::Done(response) => ExecutionModel::Done(response@),
            Execution::Fetch(call) => ExecutionModel::Fetch(call@),
        }
    }
}

impl ExecutionModel {
    /// The response that the call comes to in the end, given how its
    /// request ended where one was made: the response that was known from
    /// the start, or the answer to the outcome of the request. A call whose
    /// request was not made has no response.
    pub open spec fn response(self, outcome: Option<HttpOutcome>) -> Option<ResponseModel> {
        match self {
            ExecutionModel::Done(response) => Some(response),
            ExecutionModel::Fetch(call) => match outcome {
                Some(o) => Some(answer(call, o)),
                None => None,
            },
        }
    }
}

impl Execution {
    /// The request that has to be made for the response, if any.
    pub fn request(&self) -> (r: Option<&RemoteCall>)
        ensures
            match r {
                Some(call) => self@ == ExecutionModel::Fetch(call@),
                None => self is Done,
            },
    {
        match self {
            Execution::Done(_) => None,
            Execution::Fetch(call) => Some(call),
        }
    }

    /// The response that the call comes to in the end, given how its
    /// request ended where one was made.
    pub fn conclude(self, outcome: &Option<HttpOutcome>) -> (r: Option<PluginResponse>)
        ensures
            match r {
                Some(response) => self@.response(*outcome) == Some(response@),
                None => self@.response(*outcome) is None,
            },
    {
        match self {
            Execution::Done(response) => Some(response),
            Execution::Fetch(call) => match outcome {
                Some(o) => Some(call.complete(o)),
                None => None,
            },
        }
    }
}

/// The activated handle of one plugin: its name and the path of its entry
/// file.
#[derive(Debug, PartialEq, Eq)]
pub struct SimplePluginRunner {
    plugin_path: String,
    plugin_name: String,
}

/// Whether a plugin of this name is served by the built-in adapter of the
/// remote catalogue.
pub open spec fn is_direct(name: Seq<char>) -> bool {
    name == "hqnow"@ || name == "comic-universe-plugin-hqnow"@
}

/// The search term of a call: the text under `data` and `search`, or the
/// empty text.
pub open spec fn search_term(args: JsonModel) -> Seq<char> {
    match args.field("data"@) {
        Some(data) => match data.text_field("search"@) {
            Some(term) => term,
            None => Seq::empty(),
        },
        None => Seq::empty(),
    }
}

/// The title that a call is about: the text under `siteId`, or `123`.
pub open spec fn site_id(args: JsonModel) -> Seq<char> {
    match args.text_field("siteId"@) {
        Some(id) => id,
        None => "123"@,
    }
}

/// The data with which a plugin without an adapter answers every call: it
/// echoes the call.
pub open spec fn echo(name: Seq<char>, method: Seq<char>, args: JsonModel) -> JsonModel {
    JsonModel::Object(
        Map::empty().insert(
            "message"@,
            JsonModel::Text("Plugin "@ + name + " method "@ + method + " executed successfully"@),
        ).insert("plugin"@, JsonModel::Text(name)).insert("method"@, JsonModel::Text(method)).insert(
            "args"@,
            args,
        ),
    )
}

/// Why the adapter cannot run a method that it does not know.
pub open spec fn unsupported_error(name: Seq<char>, method: Seq<char>) -> ErrorModel {
    ErrorModel::UnsupportedMethod(
        "Method '"@ + method + "' not implemented for plugin '"@ + name + "'"@,
    )
}

/// The response to a method that the adapter does not know.
pub open spec fn unsupported(name: Seq<char>, method: Seq<char>) -> ResponseModel {
    failed(unsupported_error(name, method).message())
}

/// Why a call about a title cannot be made where the identifier of the
/// title writes no number.
pub open spec fn identifier_error(label: Seq<char>, site_id: Seq<char>) -> ErrorModel {
    ErrorModel::Parse(label + integer_error(site_id))
}

/// What a call about one title comes to: the request for the number that
/// `site_id` writes, or a failure where it writes none.
pub open spec fn title_call(
    label: Seq<char>,
    site_id: Seq<char>,
    query: Seq<char>,
    chapters: bool,
) -> ExecutionModel {
    match integer_of(site_id) {
        Some(id) => ExecutionModel::Fetch(
            if chapters {
                CallModel::Chapters { site_id, body: title_envelope(query, id) }
            } else {
                CallModel::Details { site_id, body: title_envelope(query, id) }
            },
        ),
        None => ExecutionModel::Done(failed(identifier_error(label, site_id).message())),
    }
}

/// What the call of `method` with `args` on the plugin `name` comes to.
pub open spec fn planned(name: Seq<char>, method: Seq<char>, args: JsonModel) -> ExecutionModel {
    if !is_direct(name) {
        ExecutionModel::Done(succeeded(echo(name, method, args)))
    } else if method == "search"@ {
        ExecutionModel::Fetch(
            CallModel::Search { term: search_term(args), body: search_envelope(search_term(args)) },
        )
    } else if method == "getList"@ {
        ExecutionModel::Fetch(CallModel::List { body: search_envelope("A"@) })
    } else if method == "getDetails"@ {
        title_call("GetDetails failed: "@, site_id(args), details_query(), false)
    } else if method == "getChapters"@ {
        title_call("GetChapters failed: "@, site_id(args), chapters_query(), true)
    } else {
        ExecutionModel::Done(unsupported(name, method))
    }
}

/// What the description of a runner holds.
pub open spec fn runner_info(name: Seq<char>, path: Seq<char>) -> JsonModel {
    JsonModel::Object(
        Map::empty().insert("name"@, JsonModel::Text(name)).insert(
            "path"@,
            JsonModel::Text(path),
        ).insert("status"@, JsonModel::Text("active"@)).insert(
            "version"@,
            JsonModel::Text("1.0.0"@),
        ).insert(
            "description"@,
            JsonModel::Text("Real HQ Now plugin implementation with GraphQL API"@),
        ),
    )
}

fn term_of(args: &JsonValue) -> (r: String)
    ensures
        r@ == search_term(args@),
{
    let found = match args.get("data") {
        Some(data) => data.text_field("search"),
        None => None,
    };
    match found {
        Some(term) => term.to_owned(),
        None => String::new(),
    }
}

fn site_id_of(args: &JsonValue) -> (r: String)
    ensures
        r@ == site_id(args@),
{
    match args.text_field("siteId") {
        Some(id) => id.to_owned(),
        None => "123".to_owned(),
    }
}

fn echo_of(name: &str, method: &str, args: JsonValue) -> (r: JsonValue)
    ensures
        r@ == echo(name@, method@, args@),
{
    let message = join(
        join(join(join("Plugin ", name).as_str(), " method ").as_str(), method).as_str(),
        " executed successfully",
    );
    let mut o = JsonObject::new();
    o.insert("message", JsonValue::String(message));
    o.insert("plugin", JsonValue::text(name));
    o.insert("method", JsonValue::text(method));
    o.insert("args", args);
    JsonValue::object(o)
}

fn unsupported_response(name: &str, method: &str) -> (r: PluginResponse)
    ensures
        r@ == unsupported(name@, method@),
{
    let error = PluginError::UnsupportedMethod(
        join(
            join(
                join(join("Method '", method).as_str(), "' not implemented for plugin '").as_str(),
                name,
            ).as_str(),
            "'",
        ),
    );
    PluginResponse::failure(&error)
}

fn identifier_response(label: &str, why: &str) -> (r: PluginResponse)
    ensures
        r@ == failed(label@ + why@),
{
    let error = PluginError::Parse(join(label, why));
    PluginResponse::failure(&error)
}

impl SimplePluginRunner {
    /// The name of the plugin.
    pub closed spec fn name(&self) -> Seq<char> {
        self.plugin_name@
    }

    /// The path of the plugin's entry file.
    pub closed spec fn path(&self) -> Seq<char> {
        self.plugin_path@
    }

    /// The runner of the plugin `plugin_name`, whose entry file is
    /// `plugin_path`. Making a runner never fails.
    pub fn new(plugin_path: String, plugin_name: String) -> (r: Result<Self, PluginError>)
        ensures
            r is Ok,
            r->Ok_0.name() == plugin_name@,
            r->Ok_0.path() == plugin_path@,
    {
        Ok(SimplePluginRunner { plugin_path, plugin_name })
    }

    /// The name of the plugin.
    pub fn plugin_name(&self) -> (r: &str)
        ensures
            r@ == self.name(),
    {
        self.plugin_name.as_str()
    }

    /// The path of the plugin's entry file.
    pub fn plugin_path(&self) -> (r: &str)
        ensures
            r@ == self.path(),
    {
        self.plugin_path.as_str()
    }

    /// Whether the built-in adapter of the remote catalogue serves this
    /// plugin.
    pub fn is_direct(&self) -> (r: bool)
        ensures
            r == is_direct(self.name()),
    {
        same_text(self.plugin_name.as_str(), "hqnow") || same_text(
            self.plugin_name.as_str(),
            "comic-universe-plugin-hqnow",
        )
    }

    /// What the call of `method` with `args` comes to: the response, where
    /// none of the remote catalogue is needed for it, or the request to
    /// make, whose outcome [`RemoteCall::complete`] turns into the response.
    pub fn execute_method(&self, method: &str, args: JsonValue) -> (r: Execution)
        ensures
            r@ == planned(self.name(), method@, args@),
    {
        let name = self.plugin_name.as_str();
        if !self.is_direct() {
            Execution::Done(PluginResponse::ok(echo_of(name, method, args)))
        } else if same_text(method, "search") {
            let term = term_of(&args);
            Execution::Fetch(RemoteCall::search(term.as_str()))
        } else if same_text(method, "getList") {
            Execution::Fetch(RemoteCall::list())
        } else if same_text(method, "getDetails") {
            let id = site_id_of(&args);
            match parse_i32(id.as_str()) {
                Ok(n) => Execution::Fetch(RemoteCall::details(id.as_str(), n)),
                Err(e) => Execution::Done(identifier_response("GetDetails failed: ", e.as_str())),
            }
        } else if same_text(method, "getChapters") {
            let id = site_id_of(&args);
            match parse_i32(id.as_str()) {
                Ok(n) => Execution::Fetch(RemoteCall::chapters(id.as_str(), n)),
                Err(e) => Execution::Done(identifier_response("GetChapters failed: ", e.as_str())),
            }
        } else {
            Execution::Done(unsupported_response(name, method))
        }
    }

    /// The call that tests the plugin: `getList` without arguments.
    pub fn test_plugin(&self) -> (r: Execution)
        ensures
            r@ == planned(self.name(), "getList"@, JsonModel::Object(Map::empty())),
    {
        self.execute_method("getList", JsonValue::object(JsonObject::new()))
    }

    /// The titles that answer a search for `search_term` when the remote
    /// catalogue cannot be reached: they depend on the term alone.
    pub fn get_fallback_search_results(&self, search_term: &str) -> (r: Vec<JsonValue>)
        ensures
            models(r@) == offline_titles(lowercase(search_term@)),
    {
        fallback_results(search_term)
    }

    /// The description of this runner.
    pub fn get_plugin_info(&self) -> (r: JsonValue)
        ensures
            r@ == runner_info(self.name(), self.path()),
    {
        let mut o = JsonObject::new();
        o.insert("name", JsonValue::text(self.plugin_name.as_str()));
        o.insert("path", JsonValue::text(self.plugin_path.as_str()));
        o.insert("status", JsonValue::text("active"));
        o.insert("version", JsonValue::text("1.0.0"));
        o.insert(
            "description",
            JsonValue::text("Real HQ Now plugin implementation with GraphQL API"),
        );
        JsonValue::object(o)
    }
}

impl Clone for SimplePluginRunner {
    fn clone(&self) -> (r: Self)
        ensures
            r.name() == self.name(),
            r.path() == self.path(),
    {
        SimplePluginRunner {
            plugin_path: self.plugin_path.clone(),
            plugin_name: self.plugin_name.clone(),
        }
    }
}

/// A plugin without an adapter answers every call at once and with
/// success, so its test always passes.
pub proof fn lemma_plain_plugin_echoes(name: Seq<char>, method: Seq<char>, args: JsonModel)
    requires
        !is_direct(name),
    ensures
        planned(name, method, args) == ExecutionModel::Done(succeeded(echo(name, method, args))),
        planned(name, method, args)->Done_0.success,
{
}

/// A response that is known without a request holds either data or an
/// error, as its `success` announces.
pub proof fn lemma_planned_response_is_definite(
    name: Seq<char>,
    method: Seq<char>,
    args: JsonModel,
)
    requires
        planned(name, method, args) is Done,
    ensures
        planned(name, method, args)->Done_0.is_definite(),
{
}

/// What the test of a plugin comes to. A plugin without an adapter passes
/// whatever happens. A plugin that the adapter serves passes if and only
/// if the request for the list of titles was made and brought titles; a
/// request that was not made, that failed, or whose answer is no list of
/// titles, means that the plugin did not pass.
pub proof fn lemma_test_outcome(name: Seq<char>, outcome: Option<HttpOutcome>)
    ensures
        !is_direct(name) ==> planned(name, "getList"@, JsonModel::Object(Map::empty())).response(
            outcome,
        ) == Some(succeeded(echo(name, "getList"@, JsonModel::Object(Map::empty())))),
        is_direct(name) && outcome is None ==> planned(
            name,
            "getList"@,
            JsonModel::Object(Map::empty()),
        ).response(outcome) is None,
        is_direct(name) && outcome is Some ==> planned(
            name,
            "getList"@,
            JsonModel::Object(Map::empty()),
        ).response(outcome) is Some && (planned(
            name,
            "getList"@,
            JsonModel::Object(Map::empty()),
        ).response(outcome)->Some_0.success <==> titles_from(outcome->Some_0) is Ok),
{
    reveal_strlit("getList");
    reveal_strlit("search");
    assert("getList"@.len() == 7 && "search"@.len() == 6);
}

} // verus!
