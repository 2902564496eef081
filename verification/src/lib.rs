//! The plugin runtime of a comic reader: it knows which packages wait to be
//! unpacked and where to, reads the manifests of the installed plugins,
//! keeps the registry of the plugins that passed their test, and says for
//! every call of a plugin's method what the response is or which request
//! has to be made for it. It touches neither disk nor network: the caller
//! lists, reads, sends and runs, and hands over what came of it.

pub mod commands;
pub mod database;
pub mod error;
pub mod fallback;
pub mod hqnow;
pub mod installer;
pub mod json;
pub mod models;
pub mod plugin_runner;
pub mod plugins;
pub mod response;
pub mod simple_plugin_runner;
pub mod text;
pub mod utils;
