//! Installing and updating: which plugins to fetch, what each outcome means
//! for the registry, and which commands close a pass. The caller hands each
//! command to the host and reports back whether it succeeded; a failure for one
//! plugin never keeps the others from being processed.
use vstd::prelude::*;
use vstd::string::StringExecFns;
use crate::pman::{ManagerModel, PluginManager};
use crate::registry::{named_result, set_install_path_model, PluginModel};
use crate::text::{lemma_representable_concat, representable};

verus! {

/// A command for the host, issued for one plugin, as a mathematical value.
pub struct CommandModel {
    pub plugin: Seq<char>,
    pub command: Seq<char>,
}

/// A command for the host, issued for one plugin.
#[derive(Debug)]
pub struct PluginCommand {
    pub plugin: String,
    pub command: String,
}

impl View for PluginCommand {
    type V = CommandModel;

    open spec fn view(&self) -> CommandModel {
        CommandModel { plugin: self.plugin@, command: self.command@ }
    }
}

/// The views of a list of texts.
pub open spec fn texts(v: Seq<String>) -> Seq<Seq<char>> {
    v.map_values(|s: String| s@)
}

/// The views of a list of commands.
pub open spec fn commands(v: Seq<PluginCommand>) -> Seq<CommandModel> {
    v.map_values(|c: PluginCommand| c@)
}

/// Where the plugin `name` is installed, below the host's data directory.
pub open spec fn install_path_text(name: Seq<char>) -> Seq<char> {
    "site/pack/managed/start/"@ + name
}

/// The host command that clones `url` into the directory of the plugin `name`
/// unless that directory exists, and fails if the clone fails.
pub open spec fn fetch_text(name: Seq<char>, url: Seq<char>) -> Seq<char> {
    "lua local path = vim.fn.stdpath('data') .. '/"@ + install_path_text(name)
        + "'; if vim.fn.isdirectory(path) == 0 then vim.notify('Installing "@ + name
        + "...'); vim.fn.system({'git', 'clone', '--depth', '1', '"@ + url
        + "', path}); if vim.v.shell_error ~= 0 then error('git clone failed') end end"@
}

/// The host command that refreshes the plugin `name` in place at `path`,
/// fast-forward only, and fails if the refresh fails.
pub open spec fn pull_text(name: Seq<char>, path: Seq<char>) -> Seq<char> {
    "lua local path = vim.fn.stdpath('data') .. '/"@ + path
        + "'; if vim.fn.isdirectory(path) == 1 then vim.notify('Updating "@ + name
        + "'); vim.fn.system({'git', '-C', path, 'pull', '--ff-only'}); if vim.v.shell_error ~= 0 then error('git pull failed') end end"@
}

/// The host command that puts the directory `path` on the host's load path.
pub open spec fn activate_text(path: Seq<char>) -> Seq<char> {
    "lua vim.opt.rtp:prepend(vim.fn.stdpath('data') .. '/"@ + path + "')"@
}

/// The commands of the host's plugin-loading pass.
pub open spec fn load_pass_texts() -> Seq<Seq<char>> {
    seq!["packloadall"@, "runtime! plugin/**/*.vim plugin/**/*.lua"@, "silent! helptags ALL"@]
}

/// A plugin is to be installed when it is enabled and has no install path.
pub open spec fn needs_install(p: PluginModel) -> bool {
    p.enabled && p.install_path is None
}

/// A plugin is to be updated when it is enabled and installed.
pub open spec fn needs_update(p: PluginModel) -> bool {
    p.enabled && p.install_path is Some
}

/// The fetch that installing asks for `p`, if any.
pub open spec fn install_step(p: PluginModel) -> Option<CommandModel> {
    if needs_install(p) {
        Some(CommandModel { plugin: p.name, command: fetch_text(p.name, p.source_url) })
    } else {
        None
    }
}

/// The fetch that updating asks for `p`, if any.
pub open spec fn update_step(p: PluginModel) -> Option<CommandModel> {
    if needs_update(p) {
        Some(CommandModel { plugin: p.name, command: pull_text(p.name, p.install_path->0) })
    } else {
        None
    }
}

/// The activation that closes an install pass for `p`, if any.
pub open spec fn activation_step(p: PluginModel) -> Option<Seq<char>> {
    if needs_update(p) {
        Some(activate_text(p.install_path->0))
    } else {
        None
    }
}

/// The fetches of an install pass: one for each plugin to be installed, in the
/// registry's order.
pub open spec fn install_plan(entries: Seq<PluginModel>) -> Seq<CommandModel> {
    entries.filter_map(|p: PluginModel| install_step(p))
}

/// The fetches of an update pass: one for each plugin to be updated, in the
/// registry's order.
pub open spec fn update_plan(entries: Seq<PluginModel>) -> Seq<CommandModel> {
    entries.filter_map(|p: PluginModel| update_step(p))
}

/// The activations that close an install pass.
pub open spec fn activation_plan(entries: Seq<PluginModel>) -> Seq<Seq<char>> {
    entries.filter_map(|p: PluginModel| activation_step(p))
}

/// The install path of a plugin with a representable name is representable.
pub proof fn lemma_install_path_representable(name: Seq<char>)
    requires
        representable(name),
    ensures
        representable(install_path_text(name)),
{
    reveal_strlit("site/pack/managed/start/");
    lemma_representable_concat("site/pack/managed/start/"@, name);
}

pub fn install_path(name: &str) -> (r: String)
    ensures
        r@ == install_path_text(name@),
{
    let mut r = String::new();
    r.append("site/pack/managed/start/");
    r.append(name);
    r
}

pub fn fetch_command(name: &str, url: &str) -> (r: String)
    ensures
        r@ == fetch_text(name@, url@),
{
    let mut r = String::new();
    r.append("lua local path = vim.fn.stdpath('data') .. '/");
    r.append("site/pack/managed/start/");
    r.append(name);
    r.append("'; if vim.fn.isdirectory(path) == 0 then vim.notify('Installing ");
    r.append(name);
    r.append("...'); vim.fn.system({'git', 'clone', '--depth', '1', '");
    r.append(url);
    r.append("', path}); if vim.v.shell_error ~= 0 then error('git clone failed') end end");
    r
}

pub fn pull_command(name: &str, path: &str) -> (r: String)
    ensures
        r@ == pull_text(name@, path@),
{
    let mut r = String::new();
    r.append("lua local path = vim.fn.stdpath('data') .. '/");
    r.append(path);
    r.append("'; if vim.fn.isdirectory(path) == 1 then vim.notify('Updating ");
    r.append(name);
    r.append(
        "'); vim.fn.system({'git', '-C', path, 'pull', '--ff-only'}); if vim.v.shell_error ~= 0 then error('git pull failed') end end",
    );
    r
}

pub fn activate_command(path: &str) -> (r: String)
    ensures
        r@ == activate_text(path@),
{
    let mut r = String::new();
    r.append("lua vim.opt.rtp:prepend(vim.fn.stdpath('data') .. '/");
    r.append(path);
    r.append("')");
    r
}

/// What a pass is for.
#[derive(Debug, Clone, Copy, PartialEq, Eq, Structural)]
pub enum PassKind {
    /// Fetch the plugins that are not installed yet.
    Install,
    /// Refresh the plugins that are installed.
    Update,
}

/// A pass as a mathematical value: its fetches, how many of them have been
/// answered, and the plugins whose fetch failed, in the order of the answers.
pub struct PassModel {
    pub kind: PassKind,
    pub steps: Seq<CommandModel>,
    pub done: nat,
    pub failed: Seq<Seq<char>>,
}

/// The pass still waits for the outcome of a fetch.
pub open spec fn pass_pending(pass: PassModel) -> bool {
    pass.done < pass.steps.len()
}

/// The pending fetch installs its plugin: the host succeeded, the pass
/// installs, and the plugin is registered under a valid name.
pub open spec fn step_installs(pass: PassModel, entries: Seq<PluginModel>, succeeded: bool) -> bool {
    &&& pass_pending(pass)
    &&& succeeded
    &&& pass.kind is Install
    &&& named_result(entries, pass.steps[pass.done as int].plugin) is Ok
}

/// The pending fetch counts as failed: the host failed, or the plugin that was
/// to be installed is not in the registry under a valid name.
pub open spec fn step_fails(pass: PassModel, entries: Seq<PluginModel>, succeeded: bool) -> bool {
    &&& pass_pending(pass)
    &&& (!succeeded || (pass.kind is Install && named_result(
        entries,
        pass.steps[pass.done as int].plugin,
    ) is Err))
}

/// The pass after the outcome of its pending fetch. Without a pending fetch
/// nothing changes.
pub open spec fn record_pass(pass: PassModel, entries: Seq<PluginModel>, succeeded: bool) -> PassModel {
    if pass_pending(pass) {
        PassModel {
            kind: pass.kind,
            steps: pass.steps,
            done: pass.done + 1,
            failed: if step_fails(pass, entries, succeeded) {
                pass.failed.push(pass.steps[pass.done as int].plugin)
            } else {
                pass.failed
            },
        }
    } else {
        pass
    }
}

/// The registry after the outcome of the pending fetch of `pass`: a plugin
/// that was installed gets its install path, and nothing else changes.
pub open spec fn record_registry(
    pass: PassModel,
    entries: Seq<PluginModel>,
    succeeded: bool,
) -> Seq<PluginModel> {
    if step_installs(pass, entries, succeeded) {
        let name = pass.steps[pass.done as int].plugin;
        set_install_path_model(entries, name, install_path_text(name))
    } else {
        entries
    }
}

/// One of `steps` is for the plugin `name`.
pub open spec fn fetched(steps: Seq<CommandModel>, name: Seq<char>) -> bool {
    exists|i: int| 0 <= i < steps.len() && (#[trigger] steps[i]).plugin == name
}

/// Among the first `outcomes.len()` of `steps`, one is for the plugin `name`
/// and was answered with success.
pub open spec fn fetched_with_success(
    steps: Seq<CommandModel>,
    outcomes: Seq<bool>,
    name: Seq<char>,
) -> bool {
    exists|i: int|
        0 <= i < steps.len() && i < outcomes.len() && (#[trigger] steps[i]).plugin == name
            && outcomes[i]
}

/// A pass that has just started, with the fetches `steps`.
pub open spec fn fresh_pass(kind: PassKind, steps: Seq<CommandModel>) -> PassModel {
    PassModel { kind, steps, done: 0, failed: Seq::empty() }
}

/// The pass and the registry after the host's answers `outcomes` have been
/// recorded one by one, in order.
pub open spec fn run_pass(pass: PassModel, entries: Seq<PluginModel>, outcomes: Seq<bool>) -> (
    PassModel,
    Seq<PluginModel>,
)
    decreases outcomes.len(),
{
    if outcomes.len() == 0 {
        (pass, entries)
    } else {
        let (p, e) = run_pass(pass, entries, outcomes.drop_last());
        (record_pass(p, e, outcomes.last()), record_registry(p, e, outcomes.last()))
    }
}

/// The commands that close a pass: after installing, one activation for each
/// enabled installed plugin; then, for either kind, the host's plugin-loading
/// pass.
pub open spec fn closing_texts(kind: PassKind, entries: Seq<PluginModel>) -> Seq<Seq<char>> {
    match kind {
        PassKind::Install => activation_plan(entries) + load_pass_texts(),
        PassKind::Update => load_pass_texts(),
    }
}

/// One pass over the registry that installs or updates plugins: a list of
/// fetches, answered one by one.
pub struct FetchPass {
    kind: PassKind,
    steps: Vec<PluginCommand>,
    done: usize,
    failed: Vec<String>,
}

impl View for FetchPass {
    type V = PassModel;

    closed spec fn view(&self) -> PassModel {
        PassModel {
            kind: self.kind,
            steps: commands(self.steps@),
            done: self.done as nat,
            failed: texts(self.failed@),
        }
    }
}

impl FetchPass {
    /// What the pass is for.
    pub fn kind(&self) -> (k: PassKind)
        ensures
            k == self@.kind,
    {
        self.kind
    }

    /// Every fetch of the pass, answered or not.
    pub fn steps(&self) -> (r: &Vec<PluginCommand>)
        ensures
            commands(r@) == self@.steps,
    {
        &self.steps
    }

    /// The fetch to hand to the host next, if one is left.
    pub fn pending(&self) -> (r: Option<&PluginCommand>)
        ensures
            match r {
                Some(c) => pass_pending(self@) && c@ == self@.steps[self@.done as int],
                None => !pass_pending(self@),
            },
    {
        if self.done < self.steps.len() {
            Some(&self.steps[self.done])
        } else {
            None
        }
    }

    /// The plugins whose fetch failed so far.
    pub fn failures(&self) -> (r: &Vec<String>)
        ensures
            texts(r@) == self@.failed,
    {
        &self.failed
    }

    /// Takes the outcome of the pending fetch. A successful install gives the
    /// plugin its install path; a failure is noted and the pass goes on to the
    /// next fetch either way. Without a pending fetch nothing changes.
    pub fn record(&mut self, manager: &mut PluginManager, succeeded: bool)
        requires
            old(manager).wf(),
        ensures
            final(manager).wf(),
            final(self)@ == record_pass(old(self)@, old(manager)@.registry, succeeded),
            final(manager)@ == (ManagerModel {
                registry: record_registry(old(self)@, old(manager)@.registry, succeeded),
                transaction: old(manager)@.transaction,
            }),
    {
        if self.done >= self.steps.len() {
            return ;
        }
        let mut installed = succeeded;
        if succeeded {
            match self.kind {
                PassKind::Install => {
                    let name = self.steps[self.done].plugin.as_str();
                    let path = install_path(name);
                    proof {
                        if representable(name@) {
                            lemma_install_path_representable(name@);
                        }
                    }
                    let registry = manager.registry_mut();
                    match registry.set_install_path(name, path.as_str()) {
                        Ok(()) => {},
                        Err(_) => {
                            installed = false;
                        },
                    }
                },
                PassKind::Update => {},
            }
        }
        if !installed {
            self.failed.push(self.steps[self.done].plugin.clone());
            assert(texts(self.failed@) =~= texts(old(self).failed@).push(
                old(self)@.steps[old(self)@.done as int].plugin,
            ));
        }
        self.done = self.done + 1;
    }

    /// The commands that close the pass, to be handed to the host once no
    /// fetch is pending.
    pub fn closing_commands(&self, manager: &PluginManager) -> (r: Vec<String>)
        ensures
            texts(r@) == closing_texts(self@.kind, manager@.registry),
    {
        let mut r: Vec<String> = Vec::new();
        let registry = manager.registry();
        match self.kind {
            PassKind::Install => {
                let mut i: usize = 0;
                while i < registry.len()
                    invariant
                        i <= registry@.len(),
                        texts(r@) == activation_plan(registry@.take(i as int)),
                    decreases registry@.len() - i,
                {
                    let p = registry.entry(i);
                    proof {
                        registry@.lemma_filter_map_take_succ(
                            |p: PluginModel| activation_step(p),
                            i as int,
                        );
                    }
                    if p.enabled {
                        match &p.install_path {
                            Some(path) => {
                                r.push(activate_command(path.as_str()));
                            },
                            None => {},
                        }
                    }
                    i += 1;
                }
                assert(registry@.take(i as int) =~= registry@);
            },
            PassKind::Update => {},
        }
        r.push("packloadall".to_owned());
        r.push("runtime! plugin/**/*.vim plugin/**/*.lua".to_owned());
        r.push("silent! helptags ALL".to_owned());
        r
    }
}

/// Starts an install pass: one fetch for each enabled plugin that has no
/// install path, none answered yet.
pub fn install_plugins(manager: &PluginManager) -> (pass: FetchPass)
    ensures
        pass@ == fresh_pass(PassKind::Install, install_plan(manager@.registry)),
{
    let mut steps: Vec<PluginCommand> = Vec::new();
    let registry = manager.registry();
    let mut i: usize = 0;
    while i < registry.len()
        invariant
            i <= registry@.len(),
            commands(steps@) == install_plan(registry@.take(i as int)),
        decreases registry@.len() - i,
    {
        let p = registry.entry(i);
        proof {
            registry@.lemma_filter_map_take_succ(|p: PluginModel| install_step(p), i as int);
        }
        if p.enabled && p.install_path.is_none() {
            steps.push(
                PluginCommand {
                    plugin: p.name.clone(),
                    command: fetch_command(p.name.as_str(), p.source_url.as_str()),
                },
            );
        }
        i += 1;
    }
    assert(registry@.take(i as int) =~= registry@);
    let pass = FetchPass { kind: PassKind::Install, steps, done: 0, failed: Vec::new() };
    assert(pass@.failed =~= Seq::empty());
    pass
}

/// Starts an update pass: one fetch for each enabled plugin that is
/// installed, none answered yet. A plugin that was never installed is passed
/// over.
pub fn update_plugins(manager: &PluginManager) -> (pass: FetchPass)
    ensures
        pass@ == fresh_pass(PassKind::Update, update_plan(manager@.registry)),
{
    let mut steps: Vec<PluginCommand> = Vec::new();
    let registry = manager.registry();
    let mut i: usize = 0;
    while i < registry.len()
        invariant
            i <= registry@.len(),
            commands(steps@) == update_plan(registry@.take(i as int)),
        decreases registry@.len() - i,
    {
        let p = registry.entry(i);
        proof {
            registry@.lemma_filter_map_take_succ(|p: PluginModel| update_step(p), i as int);
        }
        if p.enabled {
            match &p.install_path {
                Some(path) => {
                    steps.push(
                        PluginCommand {
                            plugin: p.name.clone(),
                            command: pull_command(p.name.as_str(), path.as_str()),
                        },
                    );
                },
                None => {},
            }
        }
        i += 1;
    }
    assert(registry@.take(i as int) =~= registry@);
    let pass = FetchPass { kind: PassKind::Update, steps, done: 0, failed: Vec::new() };
    assert(pass@.failed =~= Seq::empty());
    pass
}

} // verus!
