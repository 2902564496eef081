use vstd::prelude::*;

verus! {

/// Why something could not be done, by kind, with the message for the
/// user.
#[derive(Debug, PartialEq, Eq)]
pub enum PluginError {
    /// A file or directory is not where it has to be.
    Io(String),
    /// The remote side could not be reached, did not answer in time, or
    /// answered with a status that tells of no success.
    Network(String),
    /// The remote side answered with errors of its own.
    Api(String),
    /// What was asked for does not exist.
    NotFound(String),
    /// The plugin has no such method.
    UnsupportedMethod(String),
    /// A text or a document does not have the form it has to have.
    Parse(String),
}

/// The mathematical value of a [`PluginError`].
pub enum ErrorModel {
    Io(Seq<char>),
    Network(Seq<char>),
    Api(Seq<char>),
    NotFound(Seq<char>),
    UnsupportedMethod(Seq<char>),
    Parse(Seq<char>),
}

impl ErrorModel {
    /// The message for the user.
    pub open spec fn message(self) -> Seq<char> {
        match self {
            ErrorModel::Io(m) => m,
            ErrorModel::Network(m) => m,
            ErrorModel::Api(m) => m,
            ErrorModel::NotFound(m) => m,
            ErrorModel::UnsupportedMethod(m) => m,
            ErrorModel::Parse(m) => m,
        }
    }
}

impl View for PluginError {
    type V = ErrorModel;

    open spec fn view(&self) -> ErrorModel {
        match self {
            PluginError::Io(m) => ErrorModel::Io(m@),
            PluginError::Network(m) => ErrorModel::Network(m@),
            PluginError::Api(m) => ErrorModel::Api(m@),
            PluginError::NotFound(m) => ErrorModel::NotFound(m@),
            PluginError::UnsupportedMethod(m) => ErrorModel::UnsupportedMethod(m@),
            PluginError::Parse(m) => ErrorModel::Parse(m@),
        }
    }
}

impl PluginError {
    /// The message for the user.
    pub fn message(&self) -> (r: &str)
        ensures
            r@ == self@.message(),
    {
        match self {
            PluginError::Io(m) => m.as_str(),
            PluginError::Network(m) => m.as_str(),
            PluginError::Api(m) => m.as_str(),
            PluginError::NotFound(m) => m.as_str(),
            PluginError::UnsupportedMethod(m) => m.as_str(),
            PluginError::Parse(m) => m.as_str(),
        }
    }

    /// The message for the user, as a text of its own.
    pub fn to_string(&self) -> (r: String)
        ensures
            r@ == self@.message(),
    {
        self.message().to_owned()
    }
}

impl Clone for PluginError {
    fn clone(&self) -> (r: Self)
        ensures
            r@ == self@,
    {
        match self {
            PluginError::Io(m) => PluginError::Io(m.clone()),
            PluginError::Network(m) => PluginError::Network(m.clone()),
            PluginError::Api(m) => PluginError::Api(m.clone()),
            PluginError::NotFound(m) => PluginError::NotFound(m.clone()),
            PluginError::UnsupportedMethod(m) => PluginError::UnsupportedMethod(m.clone()),
            PluginError::Parse(m) => PluginError::Parse(m.clone()),
        }
    }
}

} // verus!
