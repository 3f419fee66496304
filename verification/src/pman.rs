//! The plugin manager: one registry and one transaction slot, owned by a
//! single value that every operation takes.
use vstd::prelude::*;
use vstd::string::StringExecFns;
use crate::error::Error;
use crate::registry::{
    register_model, registered, set_config_model, store_result, well_formed, PluginModel,
    PluginRegistry,
};
use crate::statement::{
    bootstrap_command, bootstrap_text, config_command, config_text, keymap_statement, keymap_text,
    lemma_statements_representable, mapping_statement, mapping_text, server_option_statement,
    server_option_text, server_setup_statement, server_setup_text,
};
use crate::text::{is_representable, is_valid_name, lemma_representable_concat, representable, valid_name};

verus! {

/// An open transaction as a mathematical value: the plugin it is for, and the
/// statements gathered so far.
pub struct TransactionModel {
    pub target: Seq<char>,
    pub buffer: Seq<char>,
}

/// The statements gathered for one plugin between begin and end.
pub struct ConfigTransaction {
    target: String,
    buffer: String,
}

impl View for ConfigTransaction {
    type V = TransactionModel;

    closed spec fn view(&self) -> TransactionModel {
        TransactionModel { target: self.target@, buffer: self.buffer@ }
    }
}

impl ConfigTransaction {
    /// The name of the plugin that the transaction is for.
    pub fn target(&self) -> (r: &str)
        ensures
            r@ == self@.target,
    {
        self.target.as_str()
    }

    /// The statements gathered so far.
    pub fn buffer(&self) -> (r: &str)
        ensures
            r@ == self@.buffer,
    {
        self.buffer.as_str()
    }
}

/// The manager as a mathematical value.
pub struct ManagerModel {
    pub registry: Seq<PluginModel>,
    pub transaction: Option<TransactionModel>,
}

/// The manager's invariant: the registry is well-formed, and an open
/// transaction has a valid target and a representable buffer.
pub open spec fn manager_wf(m: ManagerModel) -> bool {
    &&& well_formed(m.registry)
    &&& m.transaction matches Some(t) ==> valid_name(t.target) && representable(t.buffer)
}

/// The manager once a transaction for `name` has been opened: a fresh empty
/// buffer takes the slot, whatever was in it.
pub open spec fn begin_model(m: ManagerModel, name: Seq<char>) -> ManagerModel {
    ManagerModel {
        registry: m.registry,
        transaction: Some(TransactionModel { target: name, buffer: Seq::empty() }),
    }
}

/// The manager once `statement` has been added to the open transaction.
pub open spec fn append_model(m: ManagerModel, statement: Seq<char>) -> ManagerModel {
    match m.transaction {
        Some(t) => ManagerModel {
            registry: m.registry,
            transaction: Some(TransactionModel { target: t.target, buffer: t.buffer + statement }),
        },
        None => m,
    }
}

/// The manager once the open transaction has been closed: its buffer becomes
/// the configuration of its target, if that is registered, and the slot is
/// empty.
pub open spec fn end_model(m: ManagerModel) -> ManagerModel {
    match m.transaction {
        Some(t) => ManagerModel {
            registry: set_config_model(m.registry, t.target, t.buffer),
            transaction: None,
        },
        None => m,
    }
}

/// What adding a statement returns: arguments are checked first, then the
/// slot.
pub open spec fn append_result(m: ManagerModel, arguments_ok: bool) -> Result<(), Error> {
    if !arguments_ok {
        Err(Error::InvalidInput)
    } else if m.transaction is None {
        Err(Error::NotFound)
    } else {
        Ok(())
    }
}

/// Whether closing the transaction succeeds: one must be open, for a
/// registered plugin.
pub open spec fn end_succeeds(m: ManagerModel) -> bool {
    m.transaction matches Some(t) && registered(m.registry, t.target)
}

/// The registry of plugins and the single transaction slot.
pub struct PluginManager {
    registry: PluginRegistry,
    transaction: Option<ConfigTransaction>,
}

impl View for PluginManager {
    type V = ManagerModel;

    closed spec fn view(&self) -> ManagerModel {
        ManagerModel {
            registry: self.registry@,
            transaction: match self.transaction {
                Some(t) => Some(t@),
                None => None,
            },
        }
    }
}

impl PluginManager {
    /// The invariant that every operation keeps.
    pub open spec fn wf(&self) -> bool {
        manager_wf(self@)
    }

    /// A manager with no plugin and no open transaction.
    pub fn new() -> (m: Self)
        ensures
            m.wf(),
            m@ == (ManagerModel { registry: Seq::empty(), transaction: None }),
    {
        PluginManager { registry: PluginRegistry::new(), transaction: None }
    }

    /// The registry.
    pub fn registry(&self) -> (r: &PluginRegistry)
        ensures
            r@ == self@.registry,
    {
        &self.registry
    }

    /// The registry, to change it.
    pub fn registry_mut(&mut self) -> (r: &mut PluginRegistry)
        ensures
            r@ == old(self)@.registry,
            final(self)@.registry == final(r)@,
            final(self)@.transaction == old(self)@.transaction,
    {
        &mut self.registry
    }

    /// The open transaction, if there is one.
    pub fn transaction(&self) -> (r: Option<&ConfigTransaction>)
        ensures
            match r {
                Some(t) => self@.transaction == Some(t@),
                None => self@.transaction is None,
            },
    {
        match &self.transaction {
            Some(t) => Some(t),
            None => None,
        }
    }

    fn append_statement(&mut self, statement: String) -> (r: Result<(), Error>)
        requires
            old(self).wf(),
            representable(statement@),
        ensures
            final(self).wf(),
            r == append_result(old(self)@, true),
            final(self)@ == append_model(old(self)@, statement@),
    {
        match &mut self.transaction {
            Some(t) => {
                proof {
                    lemma_representable_concat(t.buffer@, statement@);
                }
                t.buffer.append(statement.as_str());
                Ok(())
            },
            None => Err(Error::NotFound),
        }
    }
}

/// What registering `name` with `url` does to the manager `before`: on
/// well-formed arguments the registry gets the entry, the transaction slot is
/// left alone and the host's command is returned; otherwise nothing changes
/// and the error is `InvalidInput`.
pub open spec fn register_plugin_post(
    before: ManagerModel,
    name: Seq<char>,
    url: Seq<char>,
    r: Result<String, Error>,
    after: ManagerModel,
) -> bool {
    match r {
        Ok(command) => {
            &&& valid_name(name) && representable(url)
            &&& command@ == bootstrap_text(name, url)
            &&& after == (ManagerModel {
                registry: register_model(before.registry, name, url),
                transaction: before.transaction,
            })
        },
        Err(e) => {
            &&& !(valid_name(name) && representable(url))
            &&& e == Error::InvalidInput
            &&& after == before
        },
    }
}

/// What configuring `name` with `config` does to the manager `before`: if
/// the arguments are well-formed and the plugin is registered, its
/// configuration is replaced and the host's command is returned; otherwise
/// nothing changes and the error says which of the two failed.
pub open spec fn configure_plugin_post(
    before: ManagerModel,
    name: Seq<char>,
    config: Seq<char>,
    r: Result<String, Error>,
    after: ManagerModel,
) -> bool {
    match r {
        Ok(command) => {
            &&& store_result(before.registry, name, config) is Ok
            &&& command@ == config_text(name, config)
            &&& after == (ManagerModel {
                registry: set_config_model(before.registry, name, config),
                transaction: before.transaction,
            })
        },
        Err(e) => {
            &&& store_result(before.registry, name, config) == Err::<(), Error>(e)
            &&& after == before
        },
    }
}

/// Registers the plugin `name` with the address `url` and returns the command
/// that enters it in the host's plugin table. Re-registering keeps the
/// plugin's configuration and install path. Fails with `InvalidInput` on a
/// malformed name or address, and then changes nothing.
pub fn register_plugin(manager: &mut PluginManager, name: &str, url: &str) -> (r: Result<
    String,
    Error,
>)
    requires
        old(manager).wf(),
    ensures
        final(manager).wf(),
        register_plugin_post(old(manager)@, name@, url@, r, final(manager)@),
{
    match manager.registry.register(name, url) {
        Ok(()) => Ok(bootstrap_command(name, url)),
        Err(e) => Err(e),
    }
}

/// Replaces the configuration of the plugin `name` by `config` and returns
/// the command that stores it in the host's plugin table. Fails with
/// `InvalidInput` on a malformed name or text, else with `NotFound` if the
/// plugin is not registered; a failure changes nothing.
pub fn configure_plugin(manager: &mut PluginManager, name: &str, config: &str) -> (r: Result<
    String,
    Error,
>)
    requires
        old(manager).wf(),
    ensures
        final(manager).wf(),
        configure_plugin_post(old(manager)@, name@, config@, r, final(manager)@),
{
    match manager.registry.set_config(name, config) {
        Ok(()) => Ok(config_command(name, config)),
        Err(e) => Err(e),
    }
}

/// Opens a transaction for the plugin `plugin_name` with an empty buffer. A
/// transaction that was still open is discarded, its statements with it.
/// The plugin need not be registered yet. Fails with `InvalidInput` on a
/// malformed name, and then changes nothing.
pub fn plugin_config_begin(manager: &mut PluginManager, plugin_name: &str) -> (r: Result<(), Error>)
    requires
        old(manager).wf(),
    ensures
        final(manager).wf(),
        valid_name(plugin_name@) ==> r is Ok && final(manager)@ == begin_model(
            old(manager)@,
            plugin_name@,
        ),
        !valid_name(plugin_name@) ==> r == Err::<(), Error>(Error::InvalidInput) && final(manager)@
            == old(manager)@,
{
    if !is_valid_name(plugin_name) {
        return Err(Error::InvalidInput);
    }
    manager.transaction = Some(
        ConfigTransaction { target: plugin_name.to_owned(), buffer: String::new() },
    );
    Ok(())
}

/// Closes the open transaction: its buffer becomes the configuration of its
/// plugin, and the command that stores it in the host's plugin table is
/// returned. Fails with `NotFound` if no transaction is open, which changes
/// nothing, or if the plugin is not registered, which empties the slot and
/// leaves the registry as it was.
pub fn plugin_config_end(manager: &mut PluginManager) -> (r: Result<String, Error>)
    requires
        old(manager).wf(),
    ensures
        final(manager).wf(),
        old(manager)@.transaction is None ==> r is Err && final(manager)@ == old(manager)@,
        match r {
            Ok(command) => {
                &&& end_succeeds(old(manager)@)
                &&& command@ == config_text(
                    old(manager)@.transaction->0.target,
                    old(manager)@.transaction->0.buffer,
                )
                &&& final(manager)@ == end_model(old(manager)@)
            },
            Err(e) => {
                &&& !end_succeeds(old(manager)@)
                &&& e == Error::NotFound
                &&& final(manager)@ == (ManagerModel {
                    registry: old(manager)@.registry,
                    transaction: None,
                })
            },
        },
{
    let slot = manager.transaction.take();
    match slot {
        Some(t) => {
            match manager.registry.set_config(t.target.as_str(), t.buffer.as_str()) {
                Ok(()) => Ok(config_command(t.target.as_str(), t.buffer.as_str())),
                Err(e) => Err(e),
            }
        },
        None => Err(Error::NotFound),
    }
}

/// Adds to the open transaction the statement that sets up the language
/// server `server_name`. Fails with `InvalidInput` on a malformed argument,
/// else with `NotFound` if no transaction is open; a failure changes nothing.
pub fn plugin_config_add_server(manager: &mut PluginManager, server_name: &str) -> (r: Result<
    (),
    Error,
>)
    requires
        old(manager).wf(),
    ensures
        final(manager).wf(),
        r == append_result(old(manager)@, representable(server_name@)),
        r is Ok ==> final(manager)@ == append_model(
            old(manager)@,
            server_setup_text(server_name@),
        ),
        r is Err ==> final(manager)@ == old(manager)@,
{
    if !is_representable(server_name) {
        return Err(Error::InvalidInput);
    }
    let statement = server_setup_statement(server_name);
    proof {
        lemma_statements_representable(server_name@, server_name@, server_name@, server_name@);
    }
    manager.append_statement(statement)
}

/// Adds to the open transaction the statement that sets up the language
/// server `server` with the setting `option` at `value`. Fails with
/// `InvalidInput` on a malformed argument, else with `NotFound` if no
/// transaction is open; a failure changes nothing.
pub fn plugin_config_set_server_option(
    manager: &mut PluginManager,
    server: &str,
    option: &str,
    value: &str,
) -> (r: Result<(), Error>)
    requires
        old(manager).wf(),
    ensures
        final(manager).wf(),
        r == append_result(
            old(manager)@,
            representable(server@) && representable(option@) && representable(value@),
        ),
        r is Ok ==> final(manager)@ == append_model(
            old(manager)@,
            server_option_text(server@, option@, value@),
        ),
        r is Err ==> final(manager)@ == old(manager)@,
{
    if !is_representable(server) || !is_representable(option) || !is_representable(value) {
        return Err(Error::InvalidInput);
    }
    let statement = server_option_statement(server, option, value);
    proof {
        lemma_statements_representable(server@, option@, value@, value@);
    }
    manager.append_statement(statement)
}

/// Adds to the open transaction the statement that gives the module `plugin`
/// a default mapping of `key` to `action` in `mode`. The module is the one
/// named here, whatever plugin the transaction is for. Fails with
/// `InvalidInput` on a malformed argument, else with `NotFound` if no
/// transaction is open; a failure changes nothing.
pub fn plugin_config_set_mapping(
    manager: &mut PluginManager,
    plugin: &str,
    mode: &str,
    key: &str,
    action: &str,
) -> (r: Result<(), Error>)
    requires
        old(manager).wf(),
    ensures
        final(manager).wf(),
        r == append_result(
            old(manager)@,
            representable(plugin@) && representable(mode@) && representable(key@) && representable(
                action@,
            ),
        ),
        r is Ok ==> final(manager)@ == append_model(
            old(manager)@,
            mapping_text(plugin@, mode@, key@, action@),
        ),
        r is Err ==> final(manager)@ == old(manager)@,
{
    if !is_representable(plugin) || !is_representable(mode) || !is_representable(key)
        || !is_representable(action) {
        return Err(Error::InvalidInput);
    }
    let statement = mapping_statement(plugin, mode, key, action);
    proof {
        lemma_statements_representable(plugin@, mode@, key@, action@);
    }
    manager.append_statement(statement)
}

/// Adds to the open transaction the statement that binds `key` in `mode` to
/// the picker command `command`. `_plugin` is accepted and not used. Fails
/// with `InvalidInput` on a malformed `mode`, `key` or `command`, else with
/// `NotFound` if no transaction is open; a failure changes nothing.
pub fn plugin_config_add_keymap(
    manager: &mut PluginManager,
    mode: &str,
    key: &str,
    _plugin: &str,
    command: &str,
) -> (r: Result<(), Error>)
    requires
        old(manager).wf(),
    ensures
        final(manager).wf(),
        r == append_result(
            old(manager)@,
            representable(mode@) && representable(key@) && representable(command@),
        ),
        r is Ok ==> final(manager)@ == append_model(
            old(manager)@,
            keymap_text(mode@, key@, command@),
        ),
        r is Err ==> final(manager)@ == old(manager)@,
{
    if !is_representable(mode) || !is_representable(key) || !is_representable(command) {
        return Err(Error::InvalidInput);
    }
    let statement = keymap_statement(mode, key, command);
    proof {
        lemma_statements_representable(mode@, key@, command@, command@);
    }
    manager.append_statement(statement)
}

} // verus!
