use rns::{
    configure_plugin, load_plugin_configs, register_plugin, ApplyProgress, ApplyTask, Attempt,
    Error, PluginManager, Stage, Warning,
};

/// A stand-in for the host and its scheduler: answers are taken from a list,
/// retries wait in a queue until the tick ends.
struct FakeHost {
    answers: Vec<bool>,
    executed: Vec<String>,
    deferred: Vec<ApplyTask>,
    warnings: Vec<Warning>,
}

impl FakeHost {
    fn new(answers: &[bool]) -> FakeHost {
        FakeHost {
            answers: answers.to_vec(),
            executed: Vec::new(),
            deferred: Vec::new(),
            warnings: Vec::new(),
        }
    }

    fn execute(&mut self, command: String) -> bool {
        self.executed.push(command);
        if self.answers.is_empty() {
            true
        } else {
            self.answers.remove(0)
        }
    }

    fn run(&mut self, task: ApplyTask) {
        let mut task = task;
        loop {
            let ok = self.execute(task.command());
            match task.advance(ok) {
                ApplyProgress::Continue(next) => task = next,
                ApplyProgress::Applied => return,
                ApplyProgress::Retry(next) => {
                    self.deferred.push(next);
                    return;
                },
                ApplyProgress::Warn(warning) => {
                    self.executed.push(warning.command());
                    self.warnings.push(warning);
                    return;
                },
            }
        }
    }

    fn apply_all(&mut self, manager: &PluginManager) {
        for task in load_plugin_configs(manager) {
            self.run(task);
        }
    }

    fn next_tick(&mut self) {
        let due: Vec<ApplyTask> = self.deferred.drain(..).collect();
        for task in due {
            self.run(task);
        }
    }
}

fn configured(names: &[&str]) -> PluginManager {
    let mut manager = PluginManager::new();
    for name in names {
        register_plugin(&mut manager, name, "u").unwrap();
        configure_plugin(&mut manager, name, "vim.g.loaded = 1").unwrap();
    }
    manager
}

#[test]
fn apply_runs_load_then_config() {
    let manager = configured(&["foo"]);
    let mut host = FakeHost::new(&[]);
    host.apply_all(&manager);
    assert_eq!(
        host.executed,
        vec![
            "lua require('foo')".to_string(),
            "lua local chunk, err = loadstring([===[vim.g.loaded = 1]===]); if chunk then chunk() else error('Failed to parse configuration: ' .. err) end".to_string(),
        ]
    );
    assert!(host.deferred.is_empty());
    assert!(host.warnings.is_empty());
}

#[test]
fn failure_then_successful_retry_gives_no_warning() {
    let manager = configured(&["foo"]);
    let mut host = FakeHost::new(&[true, false, true, true]);
    host.apply_all(&manager);
    assert!(host.warnings.is_empty());
    assert_eq!(host.deferred.len(), 1);
    assert_eq!(host.deferred[0].plugin(), "foo");
    assert_eq!(host.deferred[0].attempt(), Attempt::Deferred);
    assert_eq!(host.deferred[0].stage(), Stage::Load);
    assert_eq!(host.executed.len(), 2);

    host.next_tick();
    assert!(host.warnings.is_empty());
    assert!(host.deferred.is_empty());
    assert_eq!(host.executed.len(), 4);
    assert_eq!(host.executed[2], "lua require('foo')");
}

#[test]
fn load_failure_then_successful_retry_gives_no_warning() {
    let manager = configured(&["foo"]);
    let mut host = FakeHost::new(&[false, true, true]);
    host.apply_all(&manager);
    assert_eq!(host.executed.len(), 1);
    host.next_tick();
    assert!(host.warnings.is_empty());
    assert_eq!(host.executed.len(), 3);
}

#[test]
fn failure_on_both_attempts_gives_exactly_one_warning() {
    let manager = configured(&["foo"]);
    let mut host = FakeHost::new(&[true, false, true, false]);
    host.apply_all(&manager);
    assert!(host.warnings.is_empty());
    host.next_tick();
    assert_eq!(host.warnings.len(), 1);
    assert_eq!(host.warnings[0].plugin, "foo");
    assert_eq!(host.warnings[0].error, Error::ExecutionFailure);
    assert_eq!(
        host.executed.last().unwrap(),
        "lua vim.notify('Cannot configure foo: Command failed', vim.log.levels.WARN)"
    );
    assert!(host.deferred.is_empty());
    host.next_tick();
    assert_eq!(host.warnings.len(), 1);
}

#[test]
fn module_that_never_loads_gives_a_load_failure_warning() {
    let manager = configured(&["foo"]);
    let mut host = FakeHost::new(&[false, false]);
    host.apply_all(&manager);
    host.next_tick();
    assert_eq!(host.warnings.len(), 1);
    assert_eq!(host.warnings[0].plugin, "foo");
    assert_eq!(host.warnings[0].error, Error::LoadFailure);
    assert_eq!(
        host.warnings[0].command(),
        "lua vim.notify('Cannot configure foo: Module not found', vim.log.levels.WARN)"
    );
    assert_eq!(host.executed.len(), 3);
}

#[test]
fn one_failing_plugin_does_not_keep_the_others_from_being_applied() {
    let manager = configured(&["a", "b", "c"]);
    // a: loads and runs; b: fails to load now and later; c: loads and runs.
    let mut host = FakeHost::new(&[true, true, false, true, true, false]);
    host.apply_all(&manager);
    assert_eq!(host.deferred.len(), 1);
    assert_eq!(host.deferred[0].plugin(), "b");
    host.next_tick();
    assert_eq!(host.warnings.len(), 1);
    assert_eq!(host.warnings[0].plugin, "b");
}

#[test]
fn only_enabled_plugins_with_a_config_that_is_not_empty_are_applied() {
    let mut manager = PluginManager::new();
    register_plugin(&mut manager, "bare", "u").unwrap();
    register_plugin(&mut manager, "empty", "u").unwrap();
    configure_plugin(&mut manager, "empty", "").unwrap();
    register_plugin(&mut manager, "off", "u").unwrap();
    configure_plugin(&mut manager, "off", "x = 1").unwrap();
    manager.registry_mut().set_enabled("off", false).unwrap();
    register_plugin(&mut manager, "on", "u").unwrap();
    configure_plugin(&mut manager, "on", "y = 2").unwrap();

    let tasks = load_plugin_configs(&manager);
    assert_eq!(tasks.len(), 1);
    assert_eq!(tasks[0].plugin(), "on");
    assert_eq!(tasks[0].config(), "y = 2");
    assert_eq!(tasks[0].attempt(), Attempt::Immediate);
    assert_eq!(tasks[0].stage(), Stage::Load);
}

#[test]
fn applying_does_not_need_the_plugin_to_be_installed() {
    let manager = configured(&["foo"]);
    assert!(manager.registry().get("foo").unwrap().install_path.is_none());
    assert_eq!(load_plugin_configs(&manager).len(), 1);
}

#[test]
fn advance_walks_through_the_stages() {
    let manager = configured(&["foo"]);
    let task = load_plugin_configs(&manager).pop().unwrap();
    let task = match task.advance(true) {
        ApplyProgress::Continue(t) => t,
        other => panic!("unexpected {:?}", other),
    };
    assert_eq!(task.stage(), Stage::Execute);
    assert_eq!(task.attempt(), Attempt::Immediate);
    let task = match task.advance(false) {
        ApplyProgress::Retry(t) => t,
        other => panic!("unexpected {:?}", other),
    };
    assert_eq!(task.stage(), Stage::Load);
    assert_eq!(task.attempt(), Attempt::Deferred);
    let task = match task.advance(true) {
        ApplyProgress::Continue(t) => t,
        other => panic!("unexpected {:?}", other),
    };
    assert_eq!(task.attempt(), Attempt::Deferred);
    assert!(matches!(task.advance(true), ApplyProgress::Applied));
}

#[test]
fn error_descriptions() {
    assert_eq!(Error::InvalidInput.description(), "Invalid input");
    assert_eq!(Error::NotFound.description(), "Not found");
    assert_eq!(Error::ExecutionFailure.description(), "Command failed");
    assert_eq!(Error::LoadFailure.description(), "Module not found");
}
