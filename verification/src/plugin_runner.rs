use crate::error::{ErrorModel, PluginError};
use crate::json::{json_text, parsed_document, JsonModel, JsonObject, JsonValue};
pub use crate::response::PluginResponse;
use crate::response::{failed, succeeded, ResponseModel};
use crate::text::{
    debug_format, debug_text, from_utf8_lossy, join, lossy_text, texts, trim, trimmed,
};
use crate::utils::{joined_path, parent_path, path_join, path_parent};
use vstd::prelude::*;

verus! {

/// A method of a plugin with the arguments of one call.
#[derive(Debug, PartialEq, Eq)]
pub struct PluginMethod {
    pub name: String,
    pub args: JsonValue,
}

/// The command that runs one call of a plugin in a process of its own.
#[derive(Debug, PartialEq, Eq)]
pub struct ProcessCall {
    pub program: String,
    pub arguments: Vec<String>,
}

/// What a process left behind: whether it ended well, and what it wrote.
#[derive(Debug, PartialEq, Eq)]
pub struct ProcessOutput {
    pub success: bool,
    pub stdout: Vec<u8>,
    pub stderr: Vec<u8>,
}

/// The handle of a plugin that runs in a process of its own.
#[derive(Debug, PartialEq, Eq)]
pub struct PluginRunner {
    plugin_path: String,
    plugin_name: String,
}

/// The script that runs a plugin: `plugins/plugin-runner.js` below the
/// parent of the working directory.
pub open spec fn script_path(working_dir: Seq<char>) -> Result<Seq<char>, ErrorModel> {
    match parent_path(working_dir) {
        Some(parent) => Ok(joined_path(joined_path(parent, "plugins"@), "plugin-runner.js"@)),
        None => Err(ErrorModel::Io("Could not find project root directory"@)),
    }
}

/// The arguments of the command that runs one call: the script, the
/// plugin's entry file, the method, its arguments as JSON text, and the
/// plugin's name.
pub open spec fn command_arguments(
    script: Seq<char>,
    path: Seq<char>,
    name: Seq<char>,
    method: Seq<char>,
    args: JsonModel,
) -> Seq<Seq<char>> {
    seq![
        script,
        path,
        "--method"@,
        method,
        "--args"@,
        json_text(args),
        "--plugin-name"@,
        name,
    ]
}

/// The data that stands for an output that is no JSON text: the output
/// without the white space around it, under `result`.
pub open spec fn plain_result(output: Seq<char>) -> JsonModel {
    JsonModel::Object(Map::empty().insert("result"@, JsonModel::Text(trimmed(output))))
}

/// The response that a document written by a plugin amounts to: a document
/// with an `error` field tells of a failure, any other is the data.
pub open spec fn document_answer(doc: JsonModel) -> ResponseModel {
    match doc.field("error"@) {
        Some(error) => failed(
            match error.text() {
                Some(text) => text,
                None => "Unknown error"@,
            },
        ),
        None => succeeded(doc),
    }
}

/// The response that the output of a process amounts to. A process that
/// did not end well tells of a failure with what it wrote as errors.
/// Otherwise its output is read as JSON; an output that is no JSON text is
/// data all the same.
pub open spec fn process_answer(success: bool, stdout: Seq<u8>, stderr: Seq<u8>) -> ResponseModel {
    if !success {
        failed("Plugin execution failed: "@ + lossy_text(stderr))
    } else {
        match parsed_document(lossy_text(stdout)) {
            Ok(doc) => document_answer(doc),
            Err(_) => succeeded(plain_result(lossy_text(stdout))),
        }
    }
}

/// What the response to `getInfo` holds: its data, an empty object where
/// it has none, or the failure.
pub open spec fn info_of(response: ResponseModel) -> Result<JsonModel, ErrorModel> {
    if response.success {
        match response.data {
            Some(data) => Ok(data),
            None => Ok(JsonModel::Object(Map::empty())),
        }
    } else {
        Err(ErrorModel::Api("Failed to get plugin info: "@ + debug_text(response.error)))
    }
}

impl PluginRunner {
    /// The name of the plugin.
    pub closed spec fn name(&self) -> Seq<char> {
        self.plugin_name@
    }

    /// The path of the plugin's entry file.
    pub closed spec fn path(&self) -> Seq<char> {
        self.plugin_path@
    }

    /// What the call of `method` with `args` comes to when the process is
    /// started in `working_dir`.
    pub open spec fn call(
        &self,
        working_dir: Seq<char>,
        method: Seq<char>,
        args: JsonModel,
    ) -> Result<Seq<Seq<char>>, ErrorModel> {
        match script_path(working_dir) {
            Ok(script) => Ok(command_arguments(script, self.path(), self.name(), method, args)),
            Err(e) => Err(e),
        }
    }

    /// The runner of the plugin `plugin_name`, whose entry file is
    /// `plugin_path`.
    pub fn new(plugin_path: String, plugin_name: String) -> (r: Self)
        ensures
            r.name() == plugin_name@,
            r.path() == plugin_path@,
    {
        PluginRunner { plugin_path, plugin_name }
    }

    /// The command that runs the call of `method` with `args`, for a
    /// process that is started in `working_dir`; an error where that
    /// directory has no parent.
    pub fn execute_method(&self, working_dir: &str, method: &str, args: &JsonValue) -> (r: Result<
        ProcessCall,
        PluginError,
    >)
        ensures
            match r {
                Ok(c) => c.program@ == "node"@ && self.call(working_dir@, method@, args@) == Ok::<
                    Seq<Seq<char>>,
                    ErrorModel,
                >(texts(c.arguments@)),
                Err(e) => self.call(working_dir@, method@, args@) == Err::<
                    Seq<Seq<char>>,
                    ErrorModel,
                >(e@),
            },
    {
        match path_parent(working_dir) {
            Some(parent) => {
                let plugins = path_join(parent.as_str(), "plugins");
                let script = path_join(plugins.as_str(), "plugin-runner.js");
                let mut arguments: Vec<String> = Vec::new();
                arguments.push(script);
                arguments.push(self.plugin_path.clone());
                arguments.push("--method".to_owned());
                arguments.push(method.to_owned());
                arguments.push("--args".to_owned());
                arguments.push(args.to_text());
                arguments.push("--plugin-name".to_owned());
                arguments.push(self.plugin_name.clone());
                assert(texts(arguments@) =~= command_arguments(
                    joined_path(joined_path(parent@, "plugins"@), "plugin-runner.js"@),
                    self.path(),
                    self.name(),
                    method@,
                    args@,
                ));
                Ok(ProcessCall { program: "node".to_owned(), arguments })
            },
            None => Err(PluginError::Io("Could not find project root directory".to_owned())),
        }
    }

    /// The same as [`PluginRunner::execute_method`]: the caller decides
    /// whether it waits for the process or not.
    pub fn execute_method_async(&self, working_dir: &str, method: &str, args: &JsonValue) -> (r:
        Result<ProcessCall, PluginError>)
        ensures
            match r {
                Ok(c) => c.program@ == "node"@ && self.call(working_dir@, method@, args@) == Ok::<
                    Seq<Seq<char>>,
                    ErrorModel,
                >(texts(c.arguments@)),
                Err(e) => self.call(working_dir@, method@, args@) == Err::<
                    Seq<Seq<char>>,
                    ErrorModel,
                >(e@),
            },
    {
        self.execute_method(working_dir, method, args)
    }

    /// The response that a document written by a plugin amounts to.
    pub fn document_response(doc: JsonValue) -> (r: PluginResponse)
        ensures
            r@ == document_answer(doc@),
    {
        let error = match doc.get("error") {
            Some(error) => Some(
                match error.as_str() {
                    Some(text) => text.to_owned(),
                    None => "Unknown error".to_owned(),
                },
            ),
            None => None,
        };
        match error {
            Some(e) => PluginResponse::fail(e),
            None => PluginResponse::ok(doc),
        }
    }

    /// The response that stands for an output that is no JSON text, given
    /// the output without the white space around it.
    pub fn text_response(text: &str) -> (r: PluginResponse)
        ensures
            r@ == succeeded(
                JsonModel::Object(Map::empty().insert("result"@, JsonModel::Text(text@))),
            ),
    {
        let mut o = JsonObject::new();
        o.insert("result", JsonValue::text(text));
        PluginResponse::ok(JsonValue::object(o))
    }

    /// The response that the output of the process amounts to.
    pub fn complete(output: &ProcessOutput) -> (r: PluginResponse)
        ensures
            r@ == process_answer(output.success, output.stdout@, output.stderr@),
    {
        if !output.success {
            let errors = from_utf8_lossy(output.stderr.as_slice());
            return PluginResponse::fail(join("Plugin execution failed: ", errors.as_str()));
        }
        let text = from_utf8_lossy(output.stdout.as_slice());
        match JsonValue::parse(text.as_str()) {
            Ok(doc) => PluginRunner::document_response(doc),
            Err(_) => PluginRunner::text_response(trim(text.as_str())),
        }
    }

    /// The command that tests the plugin: `getList` without arguments.
    pub fn test_plugin(&self, working_dir: &str) -> (r: Result<ProcessCall, PluginError>)
        ensures
            match r {
                Ok(c) => c.program@ == "node"@ && self.call(
                    working_dir@,
                    "getList"@,
                    JsonModel::Object(Map::empty()),
                ) == Ok::<Seq<Seq<char>>, ErrorModel>(texts(c.arguments@)),
                Err(e) => self.call(working_dir@, "getList"@, JsonModel::Object(Map::empty()))
                    == Err::<Seq<Seq<char>>, ErrorModel>(e@),
            },
    {
        let args = JsonValue::object(JsonObject::new());
        self.execute_method(working_dir, "getList", &args)
    }

    /// Whether the response to the test call tells that the plugin works.
    pub fn test_passed(response: &PluginResponse) -> (r: bool)
        ensures
            r == response.success,
    {
        response.success
    }

    /// The command that asks the plugin about itself: `getInfo` without
    /// arguments.
    pub fn get_plugin_info(&self, working_dir: &str) -> (r: Result<ProcessCall, PluginError>)
        ensures
            match r {
                Ok(c) => c.program@ == "node"@ && self.call(
                    working_dir@,
                    "getInfo"@,
                    JsonModel::Object(Map::empty()),
                ) == Ok::<Seq<Seq<char>>, ErrorModel>(texts(c.arguments@)),
                Err(e) => self.call(working_dir@, "getInfo"@, JsonModel::Object(Map::empty()))
                    == Err::<Seq<Seq<char>>, ErrorModel>(e@),
            },
    {
        let args = JsonValue::object(JsonObject::new());
        self.execute_method(working_dir, "getInfo", &args)
    }

    /// What the plugin said about itself, given the response to `getInfo`.
    pub fn plugin_info(response: &PluginResponse) -> (r: Result<JsonValue, PluginError>)
        ensures
            match r {
                Ok(info) => info_of(response@) == Ok::<JsonModel, ErrorModel>(info@),
                Err(e) => info_of(response@) == Err::<JsonModel, ErrorModel>(e@),
            },
    {
        if response.success {
            match &response.data {
                Some(data) => Ok(data.clone()),
                None => Ok(JsonValue::object(JsonObject::new())),
            }
        } else {
            let shown = debug_format(&response.error);
            Err(PluginError::Api(join("Failed to get plugin info: ", shown.as_str())))
        }
    }
}

/// The runner of the plugin `plugin_name`, whose entry file is
/// `plugin_path`.
pub fn create_plugin_runner(plugin_path: &str, plugin_name: &str) -> (r: PluginRunner)
    ensures
        r.name() == plugin_name@,
        r.path() == plugin_path@,
{
    PluginRunner::new(plugin_path.to_owned(), plugin_name.to_owned())
}

/// The command that runs the call of `method` with `args` on the plugin
/// `plugin_name`.
pub fn execute_plugin_method(
    plugin_path: &str,
    plugin_name: &str,
    working_dir: &str,
    method: &str,
    args: &JsonValue,
) -> (r: Result<ProcessCall, PluginError>)
    ensures
        match r {
            Ok(c) => c.program@ == "node"@ && script_path(working_dir@) is Ok && texts(c.arguments@)
                == command_arguments(
                script_path(working_dir@)->Ok_0,
                plugin_path@,
                plugin_name@,
                method@,
                args@,
            ),
            Err(e) => script_path(working_dir@) == Err::<Seq<char>, ErrorModel>(e@),
        },
{
    let runner = create_plugin_runner(plugin_path, plugin_name);
    runner.execute_method(working_dir, method, args)
}

/// The same as [`execute_plugin_method`]: the caller decides whether it
/// waits for the process or not.
pub fn execute_plugin_method_async(
    plugin_path: &str,
    plugin_name: &str,
    working_dir: &str,
    method: &str,
    args: &JsonValue,
) -> (r: Result<ProcessCall, PluginError>)
    ensures
        match r {
            Ok(c) => c.program@ == "node"@ && script_path(working_dir@) is Ok && texts(c.arguments@)
                == command_arguments(
                script_path(working_dir@)->Ok_0,
                plugin_path@,
                plugin_name@,
                method@,
                args@,
            ),
            Err(e) => script_path(working_dir@) == Err::<Seq<char>, ErrorModel>(e@),
        },
{
    execute_plugin_method(plugin_path, plugin_name, working_dir, method, args)
}

/// Whatever a process left behind, the response holds either data or an
/// error, as its `success` announces; and a process that did not end well
/// never gives a successful response.
pub proof fn lemma_process_answer_is_definite(success: bool, stdout: Seq<u8>, stderr: Seq<u8>)
    ensures
        process_answer(success, stdout, stderr).is_definite(),
        !success ==> !process_answer(success, stdout, stderr).success,
{
}

} // verus!
