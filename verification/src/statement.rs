//! The text that the manager generates: statements of a plugin's
//! configuration, and commands for the host. Arguments are put into the text
//! as they are, without escaping.
use vstd::prelude::*;
use vstd::string::StringExecFns;
use crate::text::{lemma_representable_concat, representable};

verus! {

/// The host command that creates the host's plugin table if it is missing and
/// enters `name` in it with its address, enabled.
pub open spec fn bootstrap_text(name: Seq<char>, url: Seq<char>) -> Seq<char> {
    "lua if not _G.plugins then _G.plugins = {} end;_G.plugins['"@ + name + "'] = { url = '"@ + url
        + "', enabled = true }"@
}

/// The host command that stores `config` under the entry `name` of the host's
/// plugin table, between delimiters that let quotes and line ends through.
pub open spec fn config_text(name: Seq<char>, config: Seq<char>) -> Seq<char> {
    "lua if _G.plugins and _G.plugins['"@ + name + "'] then _G.plugins['"@ + name
        + "'].config = [===["@ + config + "]===] end"@
}

/// The statement that sets up the language server `server` with no settings.
pub open spec fn server_setup_text(server: Seq<char>) -> Seq<char> {
    "require('lspconfig')."@ + server + ".setup({});\n"@
}

/// The statement that sets up the language server `server` with one setting.
pub open spec fn server_option_text(server: Seq<char>, option: Seq<char>, value: Seq<char>) -> Seq<
    char,
> {
    "require('lspconfig')."@ + server + ".setup({ settings = { ['"@ + server + "'] = { "@ + option
        + " = '"@ + value + "' } } });\n"@
}

/// The statement that gives the module `plugin` one default mapping.
pub open spec fn mapping_text(
    plugin: Seq<char>,
    mode: Seq<char>,
    key: Seq<char>,
    action: Seq<char>,
) -> Seq<char> {
    "require('"@ + plugin + "').setup({ defaults = { mappings = { "@ + mode + " = { ['"@ + key
        + "'] = '"@ + action + "' } } } });\n"@
}

/// The statement that binds `key` in `mode` to the picker command `command`.
pub open spec fn keymap_text(mode: Seq<char>, key: Seq<char>, command: Seq<char>) -> Seq<char> {
    "vim.keymap.set('"@ + mode + "', '"@ + key + "', '<cmd>Telescope "@ + command + "<CR>');\n"@
}

/// A statement of one of the four kinds is representable when its arguments
/// are.
pub proof fn lemma_statements_representable(a: Seq<char>, b: Seq<char>, c: Seq<char>, d: Seq<char>)
    ensures
        representable(a) ==> representable(server_setup_text(a)),
        representable(a) && representable(b) && representable(c) ==> representable(
            server_option_text(a, b, c),
        ),
        representable(a) && representable(b) && representable(c) && representable(d)
            ==> representable(mapping_text(a, b, c, d)),
        representable(a) && representable(b) && representable(c) ==> representable(
            keymap_text(a, b, c),
        ),
{
    reveal_strlit("require('lspconfig').");
    reveal_strlit(".setup({});\n");
    reveal_strlit(".setup({ settings = { ['");
    reveal_strlit("'] = { ");
    reveal_strlit(" = '");
    reveal_strlit("' } } });\n");
    reveal_strlit("require('");
    reveal_strlit("').setup({ defaults = { mappings = { ");
    reveal_strlit(" = { ['");
    reveal_strlit("'] = '");
    reveal_strlit("' } } } });\n");
    reveal_strlit("vim.keymap.set('");
    reveal_strlit("', '");
    reveal_strlit("', '<cmd>Telescope ");
    reveal_strlit("<CR>');\n");
    let l1 = "require('lspconfig')."@;
    lemma_representable_concat(l1, a);
    lemma_representable_concat(l1 + a, ".setup({});\n"@);
    let o1 = l1 + a + ".setup({ settings = { ['"@;
    lemma_representable_concat(l1 + a, ".setup({ settings = { ['"@);
    lemma_representable_concat(o1, a);
    lemma_representable_concat(o1 + a, "'] = { "@);
    lemma_representable_concat(o1 + a + "'] = { "@, b);
    lemma_representable_concat(o1 + a + "'] = { "@ + b, " = '"@);
    lemma_representable_concat(o1 + a + "'] = { "@ + b + " = '"@, c);
    lemma_representable_concat(o1 + a + "'] = { "@ + b + " = '"@ + c, "' } } });\n"@);
    let m1 = "require('"@ + a;
    lemma_representable_concat("require('"@, a);
    lemma_representable_concat(m1, "').setup({ defaults = { mappings = { "@);
    let m2 = m1 + "').setup({ defaults = { mappings = { "@;
    lemma_representable_concat(m2, b);
    lemma_representable_concat(m2 + b, " = { ['"@);
    lemma_representable_concat(m2 + b + " = { ['"@, c);
    lemma_representable_concat(m2 + b + " = { ['"@ + c, "'] = '"@);
    lemma_representable_concat(m2 + b + " = { ['"@ + c + "'] = '"@, d);
    lemma_representable_concat(m2 + b + " = { ['"@ + c + "'] = '"@ + d, "' } } } });\n"@);
    let k1 = "vim.keymap.set('"@ + a;
    lemma_representable_concat("vim.keymap.set('"@, a);
    lemma_representable_concat(k1, "', '"@);
    lemma_representable_concat(k1 + "', '"@, b);
    lemma_representable_concat(k1 + "', '"@ + b, "', '<cmd>Telescope "@);
    lemma_representable_concat(k1 + "', '"@ + b + "', '<cmd>Telescope "@, c);
    lemma_representable_concat(k1 + "', '"@ + b + "', '<cmd>Telescope "@ + c, "<CR>');\n"@);
}

pub fn bootstrap_command(name: &str, url: &str) -> (r: String)
    ensures
        r@ == bootstrap_text(name@, url@),
{
    let mut r = String::new();
    r.append("lua if not _G.plugins then _G.plugins = {} end;_G.plugins['");
    r.append(name);
    r.append("'] = { url = '");
    r.append(url);
    r.append("', enabled = true }");
    r
}

pub fn config_command(name: &str, config: &str) -> (r: String)
    ensures
        r@ == config_text(name@, config@),
{
    let mut r = String::new();
    r.append("lua if _G.plugins and _G.plugins['");
    r.append(name);
    r.append("'] then _G.plugins['");
    r.append(name);
    r.append("'].config = [===[");
    r.append(config);
    r.append("]===] end");
    r
}

pub fn server_setup_statement(server: &str) -> (r: String)
    ensures
        r@ == server_setup_text(server@),
{
    let mut r = String::new();
    r.append("require('lspconfig').");
    r.append(server);
    r.append(".setup({});\n");
    r
}

pub fn server_option_statement(server: &str, option: &str, value: &str) -> (r: String)
    ensures
        r@ == server_option_text(server@, option@, value@),
{
    let mut r = String::new();
    r.append("require('lspconfig').");
    r.append(server);
    r.append(".setup({ settings = { ['");
    r.append(server);
    r.append("'] = { ");
    r.append(option);
    r.append(" = '");
    r.append(value);
    r.append("' } } });\n");
    r
}

pub fn mapping_statement(plugin: &str, mode: &str, key: &str, action: &str) -> (r: String)
    ensures
        r@ == mapping_text(plugin@, mode@, key@, action@),
{
    let mut r = String::new();
    r.append("require('");
    r.append(plugin);
    r.append("').setup({ defaults = { mappings = { ");
    r.append(mode);
    r.append(" = { ['");
    r.append(key);
    r.append("'] = '");
    r.append(action);
    r.append("' } } } });\n");
    r
}

pub fn keymap_statement(mode: &str, key: &str, command: &str) -> (r: String)
    ensures
        r@ == keymap_text(mode@, key@, command@),
{
    let mut r = String::new();
    r.append("vim.keymap.set('");
    r.append(mode);
    r.append("', '");
    r.append(key);
    r.append("', '<cmd>Telescope ");
    r.append(command);
    r.append("<CR>');\n");
    r
}

} // verus!
