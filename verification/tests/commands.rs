use rns::text::{escape_quotes, integer_to_text, is_representable, is_valid_name};
use rns::{
    autocmd, checked_command, exec_lua, nvim_buf_set_keymap, nvim_create_augroup,
    nvim_create_augroup_lua, nvim_create_autocmd, nvim_create_autocmd_lua, nvim_create_keymap,
    nvim_create_user_command, nvim_exec_command, nvim_set_global, nvim_set_option_bool,
    nvim_set_option_int, nvim_set_option_string, opt, require_setup, setup_lsp, status_to_result,
    Error,
};

fn ok(text: &str) -> Result<String, Error> {
    Ok(text.to_string())
}

#[test]
fn representable_means_no_nul() {
    assert!(is_representable(""));
    assert!(is_representable("plain text"));
    assert!(is_representable("späte Grüße ✓"));
    assert!(!is_representable("\0"));
    assert!(!is_representable("a\0b"));
    assert!(!is_representable("tail\0"));
}

#[test]
fn valid_name_is_representable_and_not_empty() {
    assert!(is_valid_name("telescope.nvim"));
    assert!(!is_valid_name(""));
    assert!(!is_valid_name("a\0"));
}

#[test]
fn status_zero_is_success() {
    assert_eq!(status_to_result(0), Ok(()));
    assert_eq!(status_to_result(1), Err(Error::ExecutionFailure));
    assert_eq!(status_to_result(-1), Err(Error::ExecutionFailure));
    assert_eq!(status_to_result(i32::MIN), Err(Error::ExecutionFailure));
}

#[test]
fn checked_command_rejects_nul() {
    assert_eq!(checked_command("echo 1".to_string()), ok("echo 1"));
    assert_eq!(checked_command("echo\0 1".to_string()), Err(Error::InvalidInput));
    assert_eq!(checked_command(String::new()), ok(""));
}

#[test]
fn opt_joins_old_and_new_value_with_a_comma() {
    assert_eq!(opt("wildignore", "*.o", "*.pyc"), ok("set wildignore=*.o,*.pyc"));
    assert_eq!(opt("path", "", ""), ok("set path=,"));
    assert_eq!(opt("pa\0th", "a", "b"), Err(Error::InvalidInput));
    assert_eq!(opt("path", "a\0", "b"), Err(Error::InvalidInput));
    assert_eq!(opt("path", "a", "\0b"), Err(Error::InvalidInput));
}

#[test]
fn require_setup_command() {
    assert_eq!(require_setup("telescope", "{}"), ok("require_setup telescope {}"));
    assert_eq!(require_setup("telescope", "\0"), Err(Error::InvalidInput));
}

#[test]
fn autocmd_command() {
    assert_eq!(
        autocmd("BufWritePre", "*.rs", "lua vim.lsp.buf.format()"),
        ok("autocmd BufWritePre *.rs lua vim.lsp.buf.format()")
    );
    assert_eq!(autocmd("BufWritePre", "*.rs", "\0"), Err(Error::InvalidInput));
}

#[test]
fn setup_lsp_command() {
    assert_eq!(
        setup_lsp("pyright", "{ settings = {} }"),
        ok("lua require'lspconfig'.pyright.setup({ settings = {} })")
    );
    assert_eq!(setup_lsp("py\0", "{}"), Err(Error::InvalidInput));
}

#[test]
fn exec_lua_command() {
    assert_eq!(exec_lua("print(1)"), ok("lua print(1)"));
    assert_eq!(exec_lua(""), ok("lua "));
    assert_eq!(exec_lua("print(\0)"), Err(Error::InvalidInput));
}

#[test]
fn set_option_bool_command() {
    assert_eq!(nvim_set_option_bool("number", 1), ok("set number"));
    assert_eq!(nvim_set_option_bool("number", -7), ok("set number"));
    assert_eq!(nvim_set_option_bool("number", 0), ok("set nonumber"));
    assert_eq!(nvim_set_option_bool("num\0ber", 0), Err(Error::InvalidInput));
}

#[test]
fn set_option_int_command() {
    assert_eq!(nvim_set_option_int("tabstop", 4), ok("set tabstop=4"));
    assert_eq!(nvim_set_option_int("tabstop", 0), ok("set tabstop=0"));
    assert_eq!(nvim_set_option_int("scrolloff", -12), ok("set scrolloff=-12"));
    assert_eq!(nvim_set_option_int("x", i32::MAX), ok("set x=2147483647"));
    assert_eq!(nvim_set_option_int("x", i32::MIN), ok("set x=-2147483648"));
    assert_eq!(nvim_set_option_int("\0", 1), Err(Error::InvalidInput));
}

#[test]
fn integer_to_text_matches_decimal_notation() {
    for v in [0, 1, 9, 10, 11, 99, 100, 101, 1000, 65535, -1, -9, -10, -100, i32::MAX, i32::MIN] {
        assert_eq!(integer_to_text(v), format!("{}", v));
    }
}

#[test]
fn set_option_string_command() {
    assert_eq!(nvim_set_option_string("mouse", "a"), ok("set mouse=a"));
    assert_eq!(nvim_set_option_string("mouse", ""), ok("set mouse="));
    assert_eq!(nvim_set_option_string("mouse", "\0"), Err(Error::InvalidInput));
}

#[test]
fn set_global_escapes_double_quotes() {
    assert_eq!(nvim_set_global("mapleader", " "), ok("let g:mapleader=\" \""));
    assert_eq!(
        nvim_set_global("greeting", "say \"hi\""),
        ok("let g:greeting=\"say \\\"hi\\\"\"")
    );
    assert_eq!(nvim_set_global("greeting", "a\0"), Err(Error::InvalidInput));
}

#[test]
fn escape_quotes_puts_a_backslash_before_each_quote() {
    assert_eq!(escape_quotes(""), "");
    assert_eq!(escape_quotes("plain"), "plain");
    assert_eq!(escape_quotes("\""), "\\\"");
    assert_eq!(escape_quotes("\"\""), "\\\"\\\"");
    assert_eq!(escape_quotes("a\"b'c\\d"), "a\\\"b'c\\d");
    assert_eq!(escape_quotes("é\"ü"), "é\\\"ü");
    assert_eq!(escape_quotes("a\"b"), "a\"b".replace('"', "\\\""));
}

#[test]
fn create_keymap_command() {
    assert_eq!(nvim_create_keymap("n", "<leader>w", ":w<CR>", None), ok("nmap <leader>w :w<CR>"));
    assert_eq!(
        nvim_create_keymap("i", "jk", "<Esc>", Some("noremap")),
        ok("imap jk <Esc>")
    );
    assert_eq!(nvim_create_keymap("", "a", "b", None), ok("map a b"));
    assert_eq!(nvim_create_keymap("n", "\0", "b", None), Err(Error::InvalidInput));
}

#[test]
fn create_user_command_command() {
    assert_eq!(
        nvim_create_user_command("Hello", "echo 'hi'", None),
        ok("command! Hello echo 'hi'")
    );
    assert_eq!(nvim_create_user_command("Hello", "\0", None), Err(Error::InvalidInput));
}

#[test]
fn create_autocmd_without_group() {
    assert_eq!(
        nvim_create_autocmd("BufEnter", "*.md", "setlocal spell", None),
        ok("lua vim.api.nvim_create_autocmd('BufEnter', { pattern = '*.md', command = 'setlocal spell' })")
    );
}

#[test]
fn create_autocmd_with_group() {
    assert_eq!(
        nvim_create_autocmd("BufEnter", "*.md", "setlocal spell", Some("markdown")),
        ok("lua vim.api.nvim_create_autocmd('BufEnter', { pattern = '*.md', command = 'setlocal spell' , group = 'markdown' })")
    );
    assert_eq!(
        nvim_create_autocmd("BufEnter", "*.md", "setlocal spell", Some("\0")),
        Err(Error::InvalidInput)
    );
    assert_eq!(
        nvim_create_autocmd_lua("BufEnter", "*.md", "setlocal spell", Some("markdown")),
        nvim_create_autocmd("BufEnter", "*.md", "setlocal spell", Some("markdown"))
    );
    assert_eq!(
        nvim_create_autocmd_lua("E", "p", "c", None),
        ok("lua vim.api.nvim_create_autocmd('E', { pattern = 'p', command = 'c' })")
    );
}

#[test]
fn create_augroup_command() {
    assert_eq!(
        nvim_create_augroup("fmt", 1),
        ok("lua vim.api.nvim_create_augroup('fmt', { clear = true })")
    );
    assert_eq!(
        nvim_create_augroup("fmt", 0),
        ok("lua vim.api.nvim_create_augroup('fmt', { clear = false })")
    );
    assert_eq!(
        nvim_create_augroup_lua("fmt", 5),
        ok("lua vim.api.nvim_create_augroup('fmt', { clear = true })")
    );
    assert_eq!(nvim_create_augroup_lua("f\0", 0), Err(Error::InvalidInput));
}

#[test]
fn buf_set_keymap_command() {
    assert_eq!(
        nvim_buf_set_keymap(3, "n", "K", ":help<CR>", None),
        ok("nmap <buffer> K :help<CR>")
    );
    assert_eq!(nvim_buf_set_keymap(0, "n", "K", "\0", Some("x")), Err(Error::InvalidInput));
}

#[test]
fn exec_command_is_the_command_itself() {
    assert_eq!(nvim_exec_command("colorscheme desert"), ok("colorscheme desert"));
    assert_eq!(nvim_exec_command("color\0scheme"), Err(Error::InvalidInput));
}
