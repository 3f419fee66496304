//! Lifecycle management of plugins for a scriptable host: a registry of
//! plugins, a transactional builder for their configuration, and the decisions
//! behind installing, updating and applying them. The library talks to no
//! host itself: it composes the commands and decides what each answer means,
//! and its caller hands the commands to the host.
pub mod apply;
pub mod error;
pub mod host;
pub mod install;
pub mod interop;
pub mod laws;
pub mod lua;
pub mod pman;
pub mod registry;
pub mod statement;
pub mod text;

pub use apply::{load_plugin_configs, ApplyProgress, ApplyTask, Attempt, Stage, Warning};
pub use error::Error;
pub use host::{autocmd, checked_command, exec_lua, opt, require_setup, setup_lsp, status_to_result};
pub use install::{install_plugins, update_plugins, FetchPass, PassKind, PluginCommand};
pub use interop::{
    nvim_buf_set_keymap, nvim_create_augroup, nvim_create_augroup_lua, nvim_create_autocmd,
    nvim_create_autocmd_lua, nvim_create_keymap, nvim_create_user_command, nvim_exec_command,
    nvim_set_global, nvim_set_option_bool, nvim_set_option_int, nvim_set_option_string,
};
pub use lua::{
    luaopen_init, register_extra_lua_functions, register_nvim_interop_functions,
    register_plugin_functions, Binding, Field, Lua, LuaState, LuaValue,
};
pub use pman::{
    configure_plugin, plugin_config_add_keymap, plugin_config_add_server, plugin_config_begin,
    plugin_config_end, plugin_config_set_mapping, plugin_config_set_server_option, register_plugin,
    ConfigTransaction, PluginManager,
};
pub use registry::{Plugin, PluginRegistry};
