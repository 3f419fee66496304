use rns::{configure_plugin, register_plugin, Error, PluginManager, PluginRegistry};

#[test]
fn register_adds_an_enabled_plugin_without_config_or_path() {
    let mut registry = PluginRegistry::new();
    assert_eq!(registry.register("foo", "https://example/foo.git"), Ok(()));
    assert_eq!(registry.len(), 1);
    let plugin = registry.get("foo").unwrap();
    assert_eq!(plugin.name, "foo");
    assert_eq!(plugin.source_url, "https://example/foo.git");
    assert!(plugin.enabled);
    assert_eq!(plugin.config, None);
    assert_eq!(plugin.install_path, None);
}

#[test]
fn register_again_keeps_config_and_install_path() {
    let mut registry = PluginRegistry::new();
    registry.register("foo", "https://example/foo.git").unwrap();
    registry.register("bar", "https://example/bar.git").unwrap();
    registry.set_config("foo", "print('hi')").unwrap();
    registry.set_install_path("foo", "site/pack/managed/start/foo").unwrap();
    registry.set_enabled("foo", false).unwrap();

    assert_eq!(registry.register("foo", "https://mirror/foo.git"), Ok(()));

    assert_eq!(registry.len(), 2);
    let foo = registry.get("foo").unwrap();
    assert_eq!(foo.source_url, "https://mirror/foo.git");
    assert!(foo.enabled);
    assert_eq!(foo.config.as_deref(), Some("print('hi')"));
    assert_eq!(foo.install_path.as_deref(), Some("site/pack/managed/start/foo"));
    let bar = registry.get("bar").unwrap();
    assert_eq!(bar.source_url, "https://example/bar.git");
    assert_eq!(bar.config, None);
}

#[test]
fn register_rejects_malformed_input() {
    let mut registry = PluginRegistry::new();
    assert_eq!(registry.register("", "https://example/foo.git"), Err(Error::InvalidInput));
    assert_eq!(registry.register("fo\0o", "https://example/foo.git"), Err(Error::InvalidInput));
    assert_eq!(registry.register("foo", "https://exa\0mple"), Err(Error::InvalidInput));
    assert_eq!(registry.len(), 0);
    assert!(registry.get("foo").is_none());
}

#[test]
fn set_config_on_unregistered_plugin_is_not_found() {
    let mut registry = PluginRegistry::new();
    registry.register("foo", "u").unwrap();
    assert_eq!(registry.set_config("bar", "x = 1"), Err(Error::NotFound));
    assert_eq!(registry.get("foo").unwrap().config, None);
    assert_eq!(registry.len(), 1);
}

#[test]
fn set_config_rejects_malformed_input_before_looking_up() {
    let mut registry = PluginRegistry::new();
    registry.register("foo", "u").unwrap();
    assert_eq!(registry.set_config("", "x = 1"), Err(Error::InvalidInput));
    assert_eq!(registry.set_config("foo", "x = \0"), Err(Error::InvalidInput));
    assert_eq!(registry.set_config("bar", "x = \0"), Err(Error::InvalidInput));
    assert_eq!(registry.get("foo").unwrap().config, None);
}

#[test]
fn set_config_overwrites() {
    let mut registry = PluginRegistry::new();
    registry.register("foo", "u").unwrap();
    registry.set_config("foo", "a").unwrap();
    registry.set_config("foo", "b").unwrap();
    assert_eq!(registry.get("foo").unwrap().config.as_deref(), Some("b"));
}

#[test]
fn set_enabled_and_install_path_need_a_registered_plugin() {
    let mut registry = PluginRegistry::new();
    assert_eq!(registry.set_enabled("foo", false), Err(Error::NotFound));
    assert_eq!(registry.set_enabled("", false), Err(Error::InvalidInput));
    assert_eq!(registry.set_install_path("foo", "p"), Err(Error::NotFound));
    assert_eq!(registry.set_install_path("foo", "p\0"), Err(Error::InvalidInput));
    registry.register("foo", "u").unwrap();
    assert_eq!(registry.set_enabled("foo", false), Ok(()));
    assert!(!registry.get("foo").unwrap().enabled);
}

#[test]
fn enumerate_lists_every_plugin_once() {
    let mut registry = PluginRegistry::new();
    registry.register("a", "ua").unwrap();
    registry.register("b", "ub").unwrap();
    registry.register("a", "ua2").unwrap();
    registry.register("c", "uc").unwrap();
    let snapshot = registry.enumerate();
    let mut names: Vec<String> = snapshot.iter().map(|p| p.name.clone()).collect();
    names.sort();
    assert_eq!(names, vec!["a".to_string(), "b".to_string(), "c".to_string()]);
    let a = snapshot.iter().find(|p| p.name == "a").unwrap();
    assert_eq!(a.source_url, "ua2");
    assert_eq!(registry.entry(1).name, "b");
}

#[test]
fn register_plugin_returns_the_bootstrap_command() {
    let mut manager = PluginManager::new();
    let command = register_plugin(&mut manager, "foo", "https://example/foo.git");
    assert_eq!(
        command,
        Ok("lua if not _G.plugins then _G.plugins = {} end;_G.plugins['foo'] = { url = 'https://example/foo.git', enabled = true }".to_string())
    );
    assert_eq!(manager.registry().len(), 1);
    assert!(manager.transaction().is_none());
}

#[test]
fn register_plugin_rejects_malformed_input() {
    let mut manager = PluginManager::new();
    assert_eq!(register_plugin(&mut manager, "", "u"), Err(Error::InvalidInput));
    assert_eq!(register_plugin(&mut manager, "a\0", "u"), Err(Error::InvalidInput));
    assert_eq!(register_plugin(&mut manager, "a", "\0"), Err(Error::InvalidInput));
    assert_eq!(manager.registry().len(), 0);
}

#[test]
fn configure_plugin_returns_the_host_command() {
    let mut manager = PluginManager::new();
    register_plugin(&mut manager, "foo", "u").unwrap();
    let command = configure_plugin(&mut manager, "foo", "vim.g.x = \"1\"\nprint('y')");
    assert_eq!(
        command,
        Ok("lua if _G.plugins and _G.plugins['foo'] then _G.plugins['foo'].config = [===[vim.g.x = \"1\"\nprint('y')]===] end".to_string())
    );
    assert_eq!(
        manager.registry().get("foo").unwrap().config.as_deref(),
        Some("vim.g.x = \"1\"\nprint('y')")
    );
}

#[test]
fn configure_plugin_fails_for_unknown_plugin() {
    let mut manager = PluginManager::new();
    assert_eq!(configure_plugin(&mut manager, "foo", "x"), Err(Error::NotFound));
    assert_eq!(configure_plugin(&mut manager, "", "x"), Err(Error::InvalidInput));
    assert_eq!(manager.registry().len(), 0);
}
