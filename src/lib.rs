//! Query classification, dispatch and the plugin protocol of a desktop
//! quick-search launcher, with the presentation layer left to the caller.

pub mod actions;
pub mod apps;
pub mod classify;
pub mod config;
pub mod exec;
pub mod file;
pub mod format;
pub mod model;
pub mod plugin;
pub mod response;
pub mod search;
pub mod session;
pub mod text;

pub use actions::{action_step, replace_placeholders, split_words, ActionStep};
pub use apps::{get_exec, select_entries, select_scored, AppEntry, SearchEvent};
pub use classify::{detect_input_type, expression_of, InputType};
pub use config::{config_dir, config_file, get_scripts_dir, is_plugin_file, ConfigArgs, Entity};
pub use exec::{exec, file_target, plugin_queries, Observed, MAX_INPUT_CHARS};
pub use file::{describe_file, expand_home, file_response, FileInfo};
pub use format::format_size;
pub use model::{
    new_plugin_action, Align, Config, DataType, Element, ElementBuilder, Look, Orientation,
    PluginAction, PluginActionType, PluginConfig, PluginResponse,
};
pub use plugin::{plugin_contribution, plugin_payload, resolve_command};
pub use response::{
    command, get_section_title, mathematical, mathematical_error, mathematical_result, url,
    wrap_section,
};
pub use search::{fan_out, search};
pub use session::Session;
