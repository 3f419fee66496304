//! Commands for the host, and what the host's answer means. A command is put
//! together from its arguments as they are; it can be run only if the whole
//! text is representable.
use vstd::prelude::*;
use vstd::string::StringExecFns;
use crate::error::Error;
use crate::text::{is_representable, representable};

verus! {

/// `r` is what checking the command `text` gives: the text itself if it is
/// representable, else `InvalidInput`.
pub open spec fn is_checked(r: Result<String, Error>, text: Seq<char>) -> bool {
    match r {
        Ok(command) => representable(text) && command@ == text,
        Err(e) => !representable(text) && e == Error::InvalidInput,
    }
}

/// Checks that the command `text` can be handed to the host.
pub fn checked_command(text: String) -> (r: Result<String, Error>)
    ensures
        is_checked(r, text@),
{
    if is_representable(text.as_str()) {
        Ok(text)
    } else {
        Err(Error::InvalidInput)
    }
}

/// What the status that the host returns for a command means: zero is
/// success, anything else a failed execution.
pub fn status_to_result(status: i32) -> (r: Result<(), Error>)
    ensures
        status == 0 ==> r is Ok,
        status != 0 ==> r == Err::<(), Error>(Error::ExecutionFailure),
{
    if status == 0 {
        Ok(())
    } else {
        Err(Error::ExecutionFailure)
    }
}

/// The command that sets the option `key` to `old_val`, a comma and `new_val`.
pub open spec fn opt_text(key: Seq<char>, old_val: Seq<char>, new_val: Seq<char>) -> Seq<char> {
    "set "@ + key + "="@ + old_val + ","@ + new_val
}

/// The command that sets up `module` with `config`.
pub open spec fn require_setup_text(module: Seq<char>, config: Seq<char>) -> Seq<char> {
    "require_setup "@ + module + " "@ + config
}

/// The command that defines an autocommand.
pub open spec fn autocmd_text(event: Seq<char>, pattern: Seq<char>, command: Seq<char>) -> Seq<
    char,
> {
    "autocmd "@ + event + " "@ + pattern + " "@ + command
}

/// The command that sets up the language server `server` with `config`.
pub open spec fn setup_lsp_text(server: Seq<char>, config: Seq<char>) -> Seq<char> {
    "lua require'lspconfig'."@ + server + ".setup("@ + config + ")"@
}

/// The command that runs `code` as a script.
pub open spec fn exec_lua_text(code: Seq<char>) -> Seq<char> {
    "lua "@ + code
}

/// The command that runs the script file at `path`.
pub open spec fn load_config_text(path: Seq<char>) -> Seq<char> {
    "luafile "@ + path
}

/// The command that maps `lhs` to `rhs` in `mode`.
pub open spec fn map_text(mode: Seq<char>, lhs: Seq<char>, rhs: Seq<char>) -> Seq<char> {
    mode + "map "@ + lhs + " "@ + rhs
}

/// The command that sets the global variable `key` to the expression `val`.
pub open spec fn global_text(key: Seq<char>, val: Seq<char>) -> Seq<char> {
    "let g:"@ + key + " = "@ + val
}

/// Composes the command that sets the option `key` to the old value extended
/// by the new one.
pub fn opt(key: &str, old_val: &str, new_val: &str) -> (r: Result<String, Error>)
    ensures
        is_checked(r, opt_text(key@, old_val@, new_val@)),
{
    let mut text = String::new();
    text.append("set ");
    text.append(key);
    text.append("=");
    text.append(old_val);
    text.append(",");
    text.append(new_val);
    checked_command(text)
}

/// Composes the command that sets up `module` with `config`.
pub fn require_setup(module: &str, config: &str) -> (r: Result<String, Error>)
    ensures
        is_checked(r, require_setup_text(module@, config@)),
{
    let mut text = String::new();
    text.append("require_setup ");
    text.append(module);
    text.append(" ");
    text.append(config);
    checked_command(text)
}

/// Composes the command that runs `command` on `event` for files that match
/// `pattern`.
pub fn autocmd(event: &str, pattern: &str, command: &str) -> (r: Result<String, Error>)
    ensures
        is_checked(r, autocmd_text(event@, pattern@, command@)),
{
    let mut text = String::new();
    text.append("autocmd ");
    text.append(event);
    text.append(" ");
    text.append(pattern);
    text.append(" ");
    text.append(command);
    checked_command(text)
}

/// Composes the command that sets up the language server `server` with the
/// settings `config_json`.
pub fn setup_lsp(server: &str, config_json: &str) -> (r: Result<String, Error>)
    ensures
        is_checked(r, setup_lsp_text(server@, config_json@)),
{
    let mut text = String::new();
    text.append("lua require'lspconfig'.");
    text.append(server);
    text.append(".setup(");
    text.append(config_json);
    text.append(")");
    checked_command(text)
}

/// Composes the command that runs `code` as a script.
pub fn exec_lua(code: &str) -> (r: Result<String, Error>)
    ensures
        is_checked(r, exec_lua_text(code@)),
{
    let mut text = String::new();
    text.append("lua ");
    text.append(code);
    checked_command(text)
}

/// Composes the command that runs the script file at `path`.
pub fn load_config_command(path: &str) -> (r: Result<String, Error>)
    ensures
        is_checked(r, load_config_text(path@)),
{
    let mut text = String::new();
    text.append("luafile ");
    text.append(path);
    checked_command(text)
}

/// Composes the command that maps `lhs` to `rhs` in `mode`.
pub fn map_command(mode: &str, lhs: &str, rhs: &str) -> (r: Result<String, Error>)
    ensures
        is_checked(r, map_text(mode@, lhs@, rhs@)),
{
    let mut text = String::new();
    text.append(mode);
    text.append("map ");
    text.append(lhs);
    text.append(" ");
    text.append(rhs);
    checked_command(text)
}

/// Composes the command that sets the global variable `key` to the expression
/// `val`.
pub fn global_command(key: &str, val: &str) -> (r: Result<String, Error>)
    ensures
        is_checked(r, global_text(key@, val@)),
{
    let mut text = String::new();
    text.append("let g:");
    text.append(key);
    text.append(" = ");
    text.append(val);
    checked_command(text)
}

} // verus!
