use rns::lua::{
    lua_autocmd, lua_configure_plugin, lua_exec, lua_g, lua_load_config, lua_map,
    lua_nvim_create_keymap, lua_nvim_set_option_bool, lua_opt, lua_register_plugin,
};
use rns::{
    luaopen_init, register_extra_lua_functions, register_nvim_interop_functions,
    register_plugin_functions, Binding, Error, Lua, LuaState, LuaValue, PluginManager,
};

fn call_with(arguments: Vec<LuaValue>) -> Lua {
    let mut state = LuaState::new();
    for value in arguments {
        state.push(value);
    }
    Lua::new(state)
}

fn text(s: &str) -> LuaValue {
    LuaValue::Text(s.to_string())
}

fn table_on_top(lua: &Lua) -> Vec<(String, Binding)> {
    match lua.state().stack.last() {
        Some(LuaValue::Table(fields)) => {
            fields.iter().map(|f| (f.key.clone(), f.value)).collect()
        },
        other => panic!("no table on top: {:?}", other),
    }
}

#[test]
fn luaopen_init_leaves_the_module_table_on_the_stack() {
    let mut lua = call_with(vec![]);
    assert_eq!(luaopen_init(&mut lua), 1);
    assert_eq!(lua.state().stack.len(), 1);
    let expected: Vec<(String, Binding)> = vec![
        ("load_config", Binding::LoadConfig),
        ("opt", Binding::Opt),
        ("map", Binding::Mapping),
        ("g", Binding::Global),
        ("autocmd", Binding::Autocmd),
        ("exec_lua", Binding::ExecLua),
        ("register_plugin", Binding::RegisterPlugin),
        ("configure_plugin", Binding::ConfigurePlugin),
        ("install_plugins", Binding::InstallPlugins),
        ("update_plugins", Binding::UpdatePlugins),
        ("load_configs", Binding::LoadConfigs),
        ("set_option_bool", Binding::SetOptionBool),
        ("create_keymap", Binding::CreateKeymap),
        ("rns", Binding::Init),
    ]
    .into_iter()
    .map(|(k, b)| (k.to_string(), b))
    .collect();
    assert_eq!(table_on_top(&lua), expected);
}

#[test]
fn luaopen_init_keeps_what_was_on_the_stack() {
    let mut lua = call_with(vec![text("init")]);
    assert_eq!(luaopen_init(&mut lua), 1);
    let state = lua.into_state();
    assert_eq!(state.stack.len(), 2);
    assert!(matches!(&state.stack[0], LuaValue::Text(t) if t == "init"));
    assert!(matches!(&state.stack[1], LuaValue::Table(fields) if fields.len() == 14));
}

#[test]
fn register_functions_need_a_table_on_top() {
    let mut lua = call_with(vec![text("not a table")]);
    assert_eq!(register_extra_lua_functions(&mut lua), Err(Error::InvalidInput));
    // The function that could not be bound is left on the stack.
    assert_eq!(lua.state().stack.len(), 2);
    assert!(matches!(lua.state().stack[1], LuaValue::Function(Binding::Autocmd)));

    let mut lua = call_with(vec![]);
    assert_eq!(register_plugin_functions(&mut lua), Err(Error::InvalidInput));
    assert!(matches!(lua.state().stack[0], LuaValue::Function(Binding::RegisterPlugin)));

    let mut lua = call_with(vec![LuaValue::Nil]);
    assert_eq!(register_nvim_interop_functions(&mut lua), Err(Error::InvalidInput));
    assert!(matches!(lua.state().stack[1], LuaValue::Function(Binding::SetOptionBool)));
}

#[test]
fn register_functions_add_to_the_table_on_top() {
    let mut lua = call_with(vec![]);
    lua.create_table(0, 0);
    assert_eq!(register_plugin_functions(&mut lua), Ok(()));
    assert_eq!(register_nvim_interop_functions(&mut lua), Ok(()));
    assert_eq!(register_extra_lua_functions(&mut lua), Ok(()));
    let keys: Vec<String> = table_on_top(&lua).into_iter().map(|(k, _)| k).collect();
    assert_eq!(
        keys,
        vec![
            "register_plugin",
            "configure_plugin",
            "install_plugins",
            "update_plugins",
            "load_configs",
            "set_option_bool",
            "create_keymap",
            "autocmd",
            "exec_lua"
        ]
    );
    assert_eq!(lua.state().stack.len(), 1);
}

#[test]
fn set_field_moves_the_function_into_the_table() {
    let mut lua = call_with(vec![]);
    lua.create_table(0, 0);
    lua.push_cclosure(Binding::Opt, 0);
    assert_eq!(lua.state().stack.len(), 2);
    assert_eq!(lua.set_field(-2, "opt"), Ok(()));
    assert_eq!(lua.state().stack.len(), 1);
    assert_eq!(table_on_top(&lua), vec![("opt".to_string(), Binding::Opt)]);

    lua.push_cclosure(Binding::Global, 0);
    assert_eq!(lua.set_field(1, "g"), Ok(()));
    assert_eq!(
        table_on_top(&lua),
        vec![("opt".to_string(), Binding::Opt), ("g".to_string(), Binding::Global)]
    );
}

#[test]
fn set_field_fails_without_changing_the_stack() {
    let mut lua = call_with(vec![]);
    lua.create_table(0, 0);
    lua.push_cclosure(Binding::Opt, 0);
    assert_eq!(lua.set_field(-2, "o\0pt"), Err(Error::InvalidInput));
    assert_eq!(lua.set_field(-1, "opt"), Err(Error::InvalidInput));
    assert_eq!(lua.set_field(-3, "opt"), Err(Error::InvalidInput));
    assert_eq!(lua.set_field(0, "opt"), Err(Error::InvalidInput));
    assert_eq!(lua.set_field(3, "opt"), Err(Error::InvalidInput));
    assert_eq!(lua.state().stack.len(), 2);
    assert!(matches!(&lua.state().stack[0], LuaValue::Table(f) if f.is_empty()));

    let mut lua = call_with(vec![]);
    assert_eq!(lua.set_field(-2, "opt"), Err(Error::InvalidInput));
    lua.create_table(0, 0);
    lua.create_table(0, 0);
    // A table on top is no function.
    assert_eq!(lua.set_field(-2, "opt"), Err(Error::InvalidInput));
    assert_eq!(lua.state().stack.len(), 2);
}

#[test]
fn push_cclosure_takes_its_upvalues_from_the_stack() {
    let mut lua = call_with(vec![text("a"), text("b"), text("c")]);
    lua.push_cclosure(Binding::Init, 2);
    assert_eq!(lua.state().stack.len(), 2);
    assert!(matches!(&lua.state().stack[0], LuaValue::Text(t) if t == "a"));
    assert!(matches!(lua.state().stack[1], LuaValue::Function(Binding::Init)));
    lua.push_cclosure(Binding::Opt, 3);
    assert_eq!(lua.state().stack.len(), 2);
    lua.push_cclosure(Binding::Opt, -1);
    assert_eq!(lua.state().stack.len(), 2);
}

#[test]
fn check_string_reads_positive_and_negative_indices() {
    let lua = call_with(vec![text("first"), LuaValue::Boolean(true), text("last")]);
    assert_eq!(lua.check_string(1), Ok("first".to_string()));
    assert_eq!(lua.check_string(3), Ok("last".to_string()));
    assert_eq!(lua.check_string(-1), Ok("last".to_string()));
    assert_eq!(lua.check_string(-3), Ok("first".to_string()));
    assert_eq!(lua.check_string(2), Err(Error::InvalidInput));
    assert_eq!(lua.check_string(0), Err(Error::InvalidInput));
    assert_eq!(lua.check_string(4), Err(Error::InvalidInput));
    assert_eq!(lua.check_string(-4), Err(Error::InvalidInput));
    assert_eq!(lua.check_string(i32::MIN), Err(Error::InvalidInput));
    assert_eq!(lua.check_string(i32::MAX), Err(Error::InvalidInput));
}

#[test]
fn to_boolean_is_false_only_for_nil_false_and_nothing() {
    let mut lua = call_with(vec![
        LuaValue::Nil,
        LuaValue::Boolean(false),
        LuaValue::Boolean(true),
        text(""),
    ]);
    lua.create_table(0, 0);
    lua.push_cclosure(Binding::Opt, 0);
    assert!(!lua.to_boolean(1));
    assert!(!lua.to_boolean(2));
    assert!(lua.to_boolean(3));
    assert!(lua.to_boolean(4));
    assert!(lua.to_boolean(5));
    assert!(lua.to_boolean(6));
    assert!(!lua.to_boolean(7));
    assert!(!lua.to_boolean(0));
    assert!(lua.to_boolean(-1));
}

#[test]
fn load_config_function() {
    assert_eq!(
        lua_load_config(&call_with(vec![text("~/.config/nvim/extra.lua")])),
        Ok("luafile ~/.config/nvim/extra.lua".to_string())
    );
    assert_eq!(lua_load_config(&call_with(vec![])), Err(Error::InvalidInput));
    assert_eq!(lua_load_config(&call_with(vec![LuaValue::Nil])), Err(Error::InvalidInput));
    assert_eq!(lua_load_config(&call_with(vec![text("a\0")])), Err(Error::InvalidInput));
}

#[test]
fn opt_function() {
    assert_eq!(
        lua_opt(&call_with(vec![text("wildignore"), text("*.o"), text("*.pyc")])),
        Ok("set wildignore=*.o,*.pyc".to_string())
    );
    assert_eq!(
        lua_opt(&call_with(vec![text("wildignore"), text("*.o")])),
        Err(Error::InvalidInput)
    );
}

#[test]
fn map_function() {
    assert_eq!(
        lua_map(&call_with(vec![text("n"), text("<leader>x"), text(":echo 'Hello'<CR>")])),
        Ok("nmap <leader>x :echo 'Hello'<CR>".to_string())
    );
    assert_eq!(
        lua_map(&call_with(vec![text("n"), LuaValue::Boolean(true), text("x")])),
        Err(Error::InvalidInput)
    );
}

#[test]
fn g_function() {
    assert_eq!(
        lua_g(&call_with(vec![text("my_var"), text("'value'")])),
        Ok("let g:my_var = 'value'".to_string())
    );
    assert_eq!(lua_g(&call_with(vec![text("my_var")])), Err(Error::InvalidInput));
}

#[test]
fn autocmd_and_exec_functions() {
    assert_eq!(
        lua_autocmd(&call_with(vec![text("BufRead"), text("*.txt"), text("set wrap")])),
        Ok("autocmd BufRead *.txt set wrap".to_string())
    );
    assert_eq!(lua_autocmd(&call_with(vec![text("BufRead")])), Err(Error::InvalidInput));
    assert_eq!(lua_exec(&call_with(vec![text("print(2)")])), Ok("lua print(2)".to_string()));
    assert_eq!(lua_exec(&call_with(vec![])), Err(Error::InvalidInput));
}

#[test]
fn set_option_bool_function_uses_truthiness() {
    assert_eq!(
        lua_nvim_set_option_bool(&call_with(vec![text("number"), LuaValue::Boolean(true)])),
        Ok("set number".to_string())
    );
    assert_eq!(
        lua_nvim_set_option_bool(&call_with(vec![text("number"), LuaValue::Boolean(false)])),
        Ok("set nonumber".to_string())
    );
    assert_eq!(
        lua_nvim_set_option_bool(&call_with(vec![text("number")])),
        Ok("set nonumber".to_string())
    );
    assert_eq!(
        lua_nvim_set_option_bool(&call_with(vec![text("number"), text("yes")])),
        Ok("set number".to_string())
    );
    assert_eq!(
        lua_nvim_set_option_bool(&call_with(vec![LuaValue::Boolean(true)])),
        Err(Error::InvalidInput)
    );
}

#[test]
fn create_keymap_function_takes_an_optional_fourth_argument() {
    assert_eq!(
        lua_nvim_create_keymap(&call_with(vec![text("n"), text("a"), text("b")])),
        Ok("nmap a b".to_string())
    );
    assert_eq!(
        lua_nvim_create_keymap(&call_with(vec![text("n"), text("a"), text("b"), text("silent")])),
        Ok("nmap a b".to_string())
    );
    assert_eq!(
        lua_nvim_create_keymap(&call_with(vec![text("n"), text("a")])),
        Err(Error::InvalidInput)
    );
}

#[test]
fn register_plugin_function_reads_name_and_address() {
    let mut manager = PluginManager::new();
    let lua = call_with(vec![text("foo"), text("https://example/foo.git")]);
    assert_eq!(
        lua_register_plugin(&lua, &mut manager),
        Ok("lua if not _G.plugins then _G.plugins = {} end;_G.plugins['foo'] = { url = 'https://example/foo.git', enabled = true }".to_string())
    );
    assert_eq!(manager.registry().get("foo").unwrap().source_url, "https://example/foo.git");

    let lua = call_with(vec![text("bar")]);
    assert_eq!(lua_register_plugin(&lua, &mut manager), Err(Error::InvalidInput));
    assert_eq!(manager.registry().len(), 1);
}

#[test]
fn configure_plugin_function_reads_name_and_config() {
    let mut manager = PluginManager::new();
    let lua = call_with(vec![text("foo"), text("x = 1")]);
    assert_eq!(lua_configure_plugin(&lua, &mut manager), Err(Error::NotFound));
    lua_register_plugin(&call_with(vec![text("foo"), text("u")]), &mut manager).unwrap();
    assert_eq!(
        lua_configure_plugin(&lua, &mut manager),
        Ok("lua if _G.plugins and _G.plugins['foo'] then _G.plugins['foo'].config = [===[x = 1]===] end".to_string())
    );
    assert_eq!(manager.registry().get("foo").unwrap().config.as_deref(), Some("x = 1"));
    assert_eq!(
        lua_configure_plugin(&call_with(vec![text("foo")]), &mut manager),
        Err(Error::InvalidInput)
    );
}
