//! Applying configurations: each enabled plugin with a configuration is tried
//! at once, in two steps; if either fails the same two steps are tried once
//! more on a later tick of the host's loop, and only if that fails too does the
//! user get a warning. The caller hands each command to the host, reports
//! back whether it succeeded, and schedules what is to be retried.
use vstd::prelude::*;
use vstd::string::StringExecFns;
use crate::error::{description_text, Error};
use crate::pman::PluginManager;
use crate::registry::PluginModel;

verus! {

/// Which try at a plugin's configuration a task is in.
#[derive(Debug, Clone, Copy, PartialEq, Eq, Structural)]
pub enum Attempt {
    /// The try made at once.
    Immediate,
    /// The one retry, made on a later tick.
    Deferred,
}

/// Which of the two steps of a try comes next.
#[derive(Debug, Clone, Copy, PartialEq, Eq, Structural)]
pub enum Stage {
    /// Confirm that the plugin's module can be loaded.
    Load,
    /// Execute the plugin's configuration.
    Execute,
}

/// A task as a mathematical value.
pub struct TaskModel {
    pub plugin: Seq<char>,
    pub config: Seq<char>,
    pub attempt: Attempt,
    pub stage: Stage,
}

/// The work left to apply one plugin's configuration.
#[derive(Debug)]
pub struct ApplyTask {
    plugin: String,
    config: String,
    attempt: Attempt,
    stage: Stage,
}

impl View for ApplyTask {
    type V = TaskModel;

    closed spec fn view(&self) -> TaskModel {
        TaskModel {
            plugin: self.plugin@,
            config: self.config@,
            attempt: self.attempt,
            stage: self.stage,
        }
    }
}

/// A warning as a mathematical value.
pub struct WarningModel {
    pub plugin: Seq<char>,
    pub error: Error,
}

/// A warning for the user: the configuration of `plugin` could not be applied.
/// It is not fatal.
#[derive(Debug)]
pub struct Warning {
    pub plugin: String,
    pub error: Error,
}

impl View for Warning {
    type V = WarningModel;

    open spec fn view(&self) -> WarningModel {
        WarningModel { plugin: self.plugin@, error: self.error }
    }
}

/// What comes after a step of a task, as a mathematical value.
pub enum ProgressModel {
    Continue(TaskModel),
    Applied,
    Retry(TaskModel),
    Warn(WarningModel),
}

/// What comes after a step of a task.
#[derive(Debug)]
pub enum ApplyProgress {
    /// The step succeeded: the command of the task inside is due now.
    Continue(ApplyTask),
    /// Both steps succeeded: the configuration is applied.
    Applied,
    /// The immediate try failed: the task inside is due once, after the
    /// current tick.
    Retry(ApplyTask),
    /// The retry failed too: show this warning.
    Warn(Warning),
}

impl View for ApplyProgress {
    type V = ProgressModel;

    open spec fn view(&self) -> ProgressModel {
        match self {
            ApplyProgress::Continue(t) => ProgressModel::Continue(t@),
            ApplyProgress::Applied => ProgressModel::Applied,
            ApplyProgress::Retry(t) => ProgressModel::Retry(t@),
            ApplyProgress::Warn(w) => ProgressModel::Warn(w@),
        }
    }
}

/// The host command that loads the module of the plugin `name`.
pub open spec fn load_text(name: Seq<char>) -> Seq<char> {
    "lua require('"@ + name + "')"@
}

/// The host command that parses and runs `config`.
pub open spec fn execute_text(config: Seq<char>) -> Seq<char> {
    "lua local chunk, err = loadstring([===["@ + config
        + "]===]); if chunk then chunk() else error('Failed to parse configuration: ' .. err) end"@
}

/// The host command that shows a warning.
pub open spec fn warning_text(w: WarningModel) -> Seq<char> {
    "lua vim.notify('Cannot configure "@ + w.plugin + ": "@ + description_text(w.error)
        + "', vim.log.levels.WARN)"@
}

/// The host command of the step that `t` is at.
pub open spec fn task_text(t: TaskModel) -> Seq<char> {
    match t.stage {
        Stage::Load => load_text(t.plugin),
        Stage::Execute => execute_text(t.config),
    }
}

/// The error that a failure at `stage` stands for.
pub open spec fn stage_error(stage: Stage) -> Error {
    match stage {
        Stage::Load => Error::LoadFailure,
        Stage::Execute => Error::ExecutionFailure,
    }
}

/// The first step of the immediate try for a plugin.
pub open spec fn first_task(plugin: Seq<char>, config: Seq<char>) -> TaskModel {
    TaskModel { plugin, config, attempt: Attempt::Immediate, stage: Stage::Load }
}

/// What comes after the step that `t` is at, given its outcome.
///
/// A success leads from loading to executing, and from executing to the end.
/// A failure of the immediate try, at either step, leads to the retry, which
/// starts over at loading. A failure of the retry leads to a warning.
pub open spec fn advance_model(t: TaskModel, succeeded: bool) -> ProgressModel {
    if succeeded {
        match t.stage {
            Stage::Load => ProgressModel::Continue(
                TaskModel { plugin: t.plugin, config: t.config, attempt: t.attempt, stage: Stage::Execute },
            ),
            Stage::Execute => ProgressModel::Applied,
        }
    } else {
        match t.attempt {
            Attempt::Immediate => ProgressModel::Retry(
                TaskModel {
                    plugin: t.plugin,
                    config: t.config,
                    attempt: Attempt::Deferred,
                    stage: Stage::Load,
                },
            ),
            Attempt::Deferred => ProgressModel::Warn(
                WarningModel { plugin: t.plugin, error: stage_error(t.stage) },
            ),
        }
    }
}

/// The answers of the host during one try: whether loading succeeded, and if
/// it did, whether executing succeeded.
pub open spec fn try_outcomes(load_ok: bool, execute_ok: bool) -> Seq<bool> {
    if load_ok {
        seq![true, execute_ok]
    } else {
        seq![false]
    }
}

/// The warnings raised while the task `t` is driven by the host's answers
/// `outcomes`, taken in order; answers that come after the task has ended are
/// not looked at.
pub open spec fn warnings_model(t: TaskModel, outcomes: Seq<bool>) -> Seq<WarningModel>
    decreases outcomes.len(),
{
    if outcomes.len() == 0 {
        Seq::empty()
    } else {
        match advance_model(t, outcomes.first()) {
            ProgressModel::Continue(next) => warnings_model(next, outcomes.drop_first()),
            ProgressModel::Retry(next) => warnings_model(next, outcomes.drop_first()),
            ProgressModel::Applied => Seq::empty(),
            ProgressModel::Warn(w) => seq![w],
        }
    }
}

/// The task with which applying starts for `p`, if its configuration is to be
/// applied: `p` is enabled and has a configuration that is not empty.
pub open spec fn apply_step(p: PluginModel) -> Option<TaskModel> {
    if p.enabled && p.config is Some && p.config->0.len() > 0 {
        Some(first_task(p.name, p.config->0))
    } else {
        None
    }
}

/// The tasks with which applying starts, in the registry's order.
pub open spec fn apply_plan(entries: Seq<PluginModel>) -> Seq<TaskModel> {
    entries.filter_map(|p: PluginModel| apply_step(p))
}

/// The views of a list of tasks.
pub open spec fn tasks(v: Seq<ApplyTask>) -> Seq<TaskModel> {
    v.map_values(|t: ApplyTask| t@)
}

impl Warning {
    /// The host command that shows the warning; it names the plugin and the
    /// error.
    pub fn command(&self) -> (r: String)
        ensures
            r@ == warning_text(self@),
    {
        let mut r = String::new();
        r.append("lua vim.notify('Cannot configure ");
        r.append(self.plugin.as_str());
        r.append(": ");
        r.append(self.error.description().as_str());
        r.append("', vim.log.levels.WARN)");
        r
    }
}

impl ApplyTask {
    /// The plugin whose configuration the task applies.
    pub fn plugin(&self) -> (r: &str)
        ensures
            r@ == self@.plugin,
    {
        self.plugin.as_str()
    }

    /// The configuration that the task applies.
    pub fn config(&self) -> (r: &str)
        ensures
            r@ == self@.config,
    {
        self.config.as_str()
    }

    /// Which try the task is in.
    pub fn attempt(&self) -> (r: Attempt)
        ensures
            r == self@.attempt,
    {
        self.attempt
    }

    /// Which step comes next.
    pub fn stage(&self) -> (r: Stage)
        ensures
            r == self@.stage,
    {
        self.stage
    }

    /// The command to hand to the host for the step that the task is at.
    pub fn command(&self) -> (r: String)
        ensures
            r@ == task_text(self@),
    {
        let mut r = String::new();
        match self.stage {
            Stage::Load => {
                r.append("lua require('");
                r.append(self.plugin.as_str());
                r.append("')");
            },
            Stage::Execute => {
                r.append("lua local chunk, err = loadstring([===[");
                r.append(self.config.as_str());
                r.append(
                    "]===]); if chunk then chunk() else error('Failed to parse configuration: ' .. err) end",
                );
            },
        }
        r
    }

    /// Takes the outcome of the step that the task is at and says what comes
    /// next.
    pub fn advance(self, succeeded: bool) -> (r: ApplyProgress)
        ensures
            r@ == advance_model(self@, succeeded),
    {
        if succeeded {
            match self.stage {
                Stage::Load => ApplyProgress::Continue(
                    ApplyTask {
                        plugin: self.plugin,
                        config: self.config,
                        attempt: self.attempt,
                        stage: Stage::Execute,
                    },
                ),
                Stage::Execute => ApplyProgress::Applied,
            }
        } else {
            match self.attempt {
                Attempt::Immediate => ApplyProgress::Retry(
                    ApplyTask {
                        plugin: self.plugin,
                        config: self.config,
                        attempt: Attempt::Deferred,
                        stage: Stage::Load,
                    },
                ),
                Attempt::Deferred => ApplyProgress::Warn(
                    Warning {
                        plugin: self.plugin,
                        error: match self.stage {
                            Stage::Load => Error::LoadFailure,
                            Stage::Execute => Error::ExecutionFailure,
                        },
                    },
                ),
            }
        }
    }
}

/// Starts applying configurations: one task for each enabled plugin whose
/// configuration is present and not empty, each at the first step of its
/// immediate try.
pub fn load_plugin_configs(manager: &PluginManager) -> (r: Vec<ApplyTask>)
    ensures
        tasks(r@) == apply_plan(manager@.registry),
{
    let mut r: Vec<ApplyTask> = Vec::new();
    let registry = manager.registry();
    let mut i: usize = 0;
    while i < registry.len()
        invariant
            i <= registry@.len(),
            tasks(r@) == apply_plan(registry@.take(i as int)),
        decreases registry@.len() - i,
    {
        let p = registry.entry(i);
        proof {
            registry@.lemma_filter_map_take_succ(|p: PluginModel| apply_step(p), i as int);
        }
        if p.enabled {
            match &p.config {
                Some(config) => {
                    if !config.as_str().is_empty() {
                        r.push(
                            ApplyTask {
                                plugin: p.name.clone(),
                                config: config.clone(),
                                attempt: Attempt::Immediate,
                                stage: Stage::Load,
                            },
                        );
                    }
                },
                None => {},
            }
        }
        i += 1;
    }
    assert(registry@.take(i as int) =~= registry@);
    r
}

} // verus!
