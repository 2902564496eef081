use crate::error::PluginError;
use crate::json::{JsonModel, JsonValue};
use vstd::prelude::*;

verus! {

/// What a plugin answers to one call: either `success` with its `data`, or
/// no success with the `error` that says why.
#[derive(Debug, PartialEq, Eq)]
pub struct PluginResponse {
    pub success: bool,
    pub data: Option<JsonValue>,
    pub error: Option<String>,
}

/// The mathematical value of a [`PluginResponse`].
pub struct ResponseModel {
    pub success: bool,
    pub data: Option<JsonModel>,
    pub error: Option<Seq<char>>,
}

/// The answer of a call that went well.
pub open spec fn succeeded(data: JsonModel) -> ResponseModel {
    ResponseModel { success: true, data: Some(data), error: None }
}

/// The answer of a call that did not go well.
pub open spec fn failed(error: Seq<char>) -> ResponseModel {
    ResponseModel { success: false, data: None, error: Some(error) }
}

impl ResponseModel {
    /// Whether the response holds exactly what its `success` announces:
    /// data and no error, or an error and no data.
    pub open spec fn is_definite(self) -> bool {
        if self.success {
            self.data is Some && self.error is None
        } else {
            self.data is None && self.error is Some
        }
    }
}

impl View for PluginResponse {
    type V = ResponseModel;

    open spec fn view(&self) -> ResponseModel {
        ResponseModel {
            success: self.success,
            data: match self.data {
                Some(d) => Some(d@),
                None => None,
            },
            error: match self.error {
                Some(e) => Some(e@),
                None => None,
            },
        }
    }
}

impl Clone for PluginResponse {
    fn clone(&self) -> (r: Self)
        ensures
            r@ == self@,
    {
        PluginResponse {
            success: self.success,
            data: match &self.data {
                Some(d) => Some(d.clone()),
                None => None,
            },
            error: match &self.error {
                Some(e) => Some(e.clone()),
                None => None,
            },
        }
    }
}

impl PluginResponse {
    /// The answer of a call that went well.
    pub fn ok(data: JsonValue) -> (r: Self)
        ensures
            r@ == succeeded(data@),
    {
        PluginResponse { success: true, data: Some(data), error: None }
    }

    /// The answer of a call that did not go well.
    pub fn fail(error: String) -> (r: Self)
        ensures
            r@ == failed(error@),
    {
        PluginResponse { success: false, data: None, error: Some(error) }
    }

    /// The answer of a call that did not go well, with the message of the
    /// error that says why.
    pub fn failure(error: &PluginError) -> (r: Self)
        ensures
            r@ == failed(error@.message()),
    {
        PluginResponse::fail(error.to_string())
    }
}

} // verus!
