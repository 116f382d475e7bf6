//! Verified core of the FTL tooling: the ftl.toml data model, its
//! validation, and its transpilation into a Spin manifest.
pub mod app_display;
pub mod auth_status;
pub mod build_command;
pub mod commands;
pub mod compose;
pub mod credentials;
pub mod deploy;
pub mod documents;
pub mod ftl_config;
pub mod ftl_language;
pub mod javascript;
pub mod language;
pub mod lines;
pub mod manifest_text;
pub mod new_tool;
pub mod process;
pub mod registry;
pub mod registry_config;
pub mod resolver;
pub mod settings;
pub mod spin_config;
pub mod spin_validation;
pub mod strmap;
pub mod transpiler;
pub mod transpiler_laws;
pub mod text;
pub mod tool_check;
pub mod tools;
pub mod user_config;

use vstd::prelude::*;

verus! {

} // verus!
