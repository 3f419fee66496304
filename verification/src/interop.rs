//! Commands that set options, variables, mappings, user commands and
//! autocommands of the host.
use vstd::prelude::*;
use vstd::string::StringExecFns;
use crate::error::Error;
use crate::host::{checked_command, is_checked, map_text};
use crate::text::{escape_quotes, escape_quotes_text, integer_text, integer_to_text};

verus! {

/// The command that switches the option `name` on or off.
pub open spec fn option_bool_text(name: Seq<char>, on: bool) -> Seq<char> {
    if on {
        "set "@ + name
    } else {
        "set no"@ + name
    }
}

/// The command that sets the option `name` to the number `value`.
pub open spec fn option_int_text(name: Seq<char>, value: int) -> Seq<char> {
    "set "@ + name + "="@ + integer_text(value)
}

/// The command that sets the option `name` to the text `value`.
pub open spec fn option_string_text(name: Seq<char>, value: Seq<char>) -> Seq<char> {
    "set "@ + name + "="@ + value
}

/// The command that sets the global variable `name` to the text `value`,
/// written between double quotes with its own double quotes escaped.
pub open spec fn set_global_text(name: Seq<char>, value: Seq<char>) -> Seq<char> {
    "let g:"@ + name + "=\""@ + escape_quotes_text(value) + "\""@
}

/// The command that defines the user command `name` as `command`.
pub open spec fn user_command_text(name: Seq<char>, command: Seq<char>) -> Seq<char> {
    "command! "@ + name + " "@ + command
}

/// The part of an autocommand's options that names its group.
pub open spec fn group_text(group: Option<Seq<char>>) -> Seq<char> {
    match group {
        Some(g) => ", group = '"@ + g + "' "@,
        None => Seq::empty(),
    }
}

/// The command that creates an autocommand, in a group if one is given.
pub open spec fn create_autocmd_text(
    event: Seq<char>,
    pattern: Seq<char>,
    command: Seq<char>,
    group: Option<Seq<char>>,
) -> Seq<char> {
    "lua vim.api.nvim_create_autocmd('"@ + event + "', { pattern = '"@ + pattern
        + "', command = '"@ + command + "' "@ + group_text(group) + "})"@
}

/// The command that creates the autocommand group `name`.
pub open spec fn create_augroup_text(name: Seq<char>, clear: bool) -> Seq<char> {
    "lua vim.api.nvim_create_augroup('"@ + name + "', { clear = "@ + (if clear {
        "true"@
    } else {
        "false"@
    }) + " })"@
}

/// The command that maps `lhs` to `rhs` in `mode` for the current buffer.
pub open spec fn buffer_map_text(mode: Seq<char>, lhs: Seq<char>, rhs: Seq<char>) -> Seq<char> {
    mode + "map <buffer> "@ + lhs + " "@ + rhs
}

/// The view of an optional text.
pub open spec fn optional_str(t: Option<&str>) -> Option<Seq<char>> {
    match t {
        Some(s) => Some(s@),
        None => None,
    }
}

/// Composes the command that switches the option `name` on if `value` is not
/// zero, and off if it is.
pub fn nvim_set_option_bool(name: &str, value: i32) -> (r: Result<String, Error>)
    ensures
        is_checked(r, option_bool_text(name@, value != 0)),
{
    let mut text = String::new();
    if value != 0 {
        text.append("set ");
    } else {
        text.append("set no");
    }
    text.append(name);
    checked_command(text)
}

/// Composes the command that sets the option `name` to the number `value`.
pub fn nvim_set_option_int(name: &str, value: i32) -> (r: Result<String, Error>)
    ensures
        is_checked(r, option_int_text(name@, value as int)),
{
    let mut text = String::new();
    text.append("set ");
    text.append(name);
    text.append("=");
    text.append(integer_to_text(value).as_str());
    checked_command(text)
}

/// Composes the command that sets the option `name` to the text `value`.
pub fn nvim_set_option_string(name: &str, value: &str) -> (r: Result<String, Error>)
    ensures
        is_checked(r, option_string_text(name@, value@)),
{
    let mut text = String::new();
    text.append("set ");
    text.append(name);
    text.append("=");
    text.append(value);
    checked_command(text)
}

/// Composes the command that sets the global variable `name` to the text
/// `value`.
pub fn nvim_set_global(name: &str, value: &str) -> (r: Result<String, Error>)
    ensures
        is_checked(r, set_global_text(name@, value@)),
{
    let mut text = String::new();
    text.append("let g:");
    text.append(name);
    text.append("=\"");
    text.append(escape_quotes(value).as_str());
    text.append("\"");
    checked_command(text)
}

/// Composes the command that maps `lhs` to `rhs` in `mode`. `_opts` is
/// accepted and not used.
pub fn nvim_create_keymap(mode: &str, lhs: &str, rhs: &str, _opts: Option<&str>) -> (r: Result<
    String,
    Error,
>)
    ensures
        is_checked(r, map_text(mode@, lhs@, rhs@)),
{
    let mut text = String::new();
    text.append(mode);
    text.append("map ");
    text.append(lhs);
    text.append(" ");
    text.append(rhs);
    checked_command(text)
}

/// Composes the command that defines the user command `name` as `command`.
/// `_opts` is accepted and not used.
pub fn nvim_create_user_command(name: &str, command: &str, _opts: Option<&str>) -> (r: Result<
    String,
    Error,
>)
    ensures
        is_checked(r, user_command_text(name@, command@)),
{
    let mut text = String::new();
    text.append("command! ");
    text.append(name);
    text.append(" ");
    text.append(command);
    checked_command(text)
}

/// Composes the command that creates an autocommand running `command` on
/// `event` for files that match `pattern`, in `group` if one is given.
pub fn nvim_create_autocmd(event: &str, pattern: &str, command: &str, group: Option<&str>) -> (r:
    Result<String, Error>)
    ensures
        is_checked(r, create_autocmd_text(event@, pattern@, command@, optional_str(group))),
{
    let mut text = String::new();
    text.append("lua vim.api.nvim_create_autocmd('");
    text.append(event);
    text.append("', { pattern = '");
    text.append(pattern);
    text.append("', command = '");
    text.append(command);
    text.append("' ");
    match group {
        Some(g) => {
            text.append(", group = '");
            text.append(g);
            text.append("' ");
        },
        None => {},
    }
    text.append("})");
    assert(text@ =~= create_autocmd_text(event@, pattern@, command@, optional_str(group)));
    checked_command(text)
}

/// Composes the command that creates the autocommand group `name`, cleared
/// first if `clear` is not zero.
pub fn nvim_create_augroup(name: &str, clear: i32) -> (r: Result<String, Error>)
    ensures
        is_checked(r, create_augroup_text(name@, clear != 0)),
{
    let mut text = String::new();
    text.append("lua vim.api.nvim_create_augroup('");
    text.append(name);
    text.append("', { clear = ");
    if clear != 0 {
        text.append("true");
    } else {
        text.append("false");
    }
    text.append(" })");
    checked_command(text)
}

/// The same command as `nvim_create_augroup` composes.
pub fn nvim_create_augroup_lua(name: &str, clear: i32) -> (r: Result<String, Error>)
    ensures
        is_checked(r, create_augroup_text(name@, clear != 0)),
{
    nvim_create_augroup(name, clear)
}

/// The same command as `nvim_create_autocmd` composes.
pub fn nvim_create_autocmd_lua(event: &str, pattern: &str, command: &str, group: Option<&str>) -> (r:
    Result<String, Error>)
    ensures
        is_checked(r, create_autocmd_text(event@, pattern@, command@, optional_str(group))),
{
    nvim_create_autocmd(event, pattern, command, group)
}

/// Composes the command that maps `lhs` to `rhs` in `mode` for the current
/// buffer. `_buffer` and `_opts` are accepted and not used.
pub fn nvim_buf_set_keymap(_buffer: i32, mode: &str, lhs: &str, rhs: &str, _opts: Option<&str>) -> (r:
    Result<String, Error>)
    ensures
        is_checked(r, buffer_map_text(mode@, lhs@, rhs@)),
{
    let mut text = String::new();
    text.append(mode);
    text.append("map <buffer> ");
    text.append(lhs);
    text.append(" ");
    text.append(rhs);
    checked_command(text)
}

/// Checks `command` and returns it as the command to run.
pub fn nvim_exec_command(command: &str) -> (r: Result<String, Error>)
    ensures
        is_checked(r, command@),
{
    checked_command(command.to_owned())
}

} // verus!
