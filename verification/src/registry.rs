use vstd::prelude::*;
use crate::error::Error;
use crate::text::{is_representable, is_valid_name, representable, valid_name};

verus! {

/// What the registry knows of one plugin, as a mathematical value.
pub struct PluginModel {
    pub name: Seq<char>,
    pub source_url: Seq<char>,
    pub enabled: bool,
    pub config: Option<Seq<char>>,
    pub install_path: Option<Seq<char>>,
}

/// A named extension of the host, fetched from `source_url`.
///
/// `config` is absent until a transaction has been committed for the plugin,
/// `install_path` until the plugin has been installed.
#[derive(Debug)]
pub struct Plugin {
    pub name: String,
    pub source_url: String,
    pub enabled: bool,
    pub config: Option<String>,
    pub install_path: Option<String>,
}

/// The view of an optional text.
pub open spec fn optional_text(t: Option<String>) -> Option<Seq<char>> {
    match t {
        Some(s) => Some(s@),
        None => None,
    }
}

impl View for Plugin {
    type V = PluginModel;

    open spec fn view(&self) -> PluginModel {
        PluginModel {
            name: self.name@,
            source_url: self.source_url@,
            enabled: self.enabled,
            config: optional_text(self.config),
            install_path: optional_text(self.install_path),
        }
    }
}

impl Clone for Plugin {
    fn clone(&self) -> (p: Self)
        ensures
            p@ == self@,
    {
        Plugin {
            name: self.name.clone(),
            source_url: self.source_url.clone(),
            enabled: self.enabled,
            config: match &self.config {
                Some(c) => Some(c.clone()),
                None => None,
            },
            install_path: match &self.install_path {
                Some(c) => Some(c.clone()),
                None => None,
            },
        }
    }
}

/// `name` is the name of one of `entries`.
pub open spec fn registered(entries: Seq<PluginModel>, name: Seq<char>) -> bool {
    exists|i: int| 0 <= i < entries.len() && (#[trigger] entries[i]).name == name
}

/// The place of the entry named `name`, where there is one.
pub open spec fn position(entries: Seq<PluginModel>, name: Seq<char>) -> int {
    choose|i: int| 0 <= i < entries.len() && (#[trigger] entries[i]).name == name
}

/// The entry named `name`, if there is one.
pub open spec fn lookup(entries: Seq<PluginModel>, name: Seq<char>) -> Option<PluginModel> {
    if registered(entries, name) {
        Some(entries[position(entries, name)])
    } else {
        None
    }
}

/// The registry's invariant: every entry has a valid name, and no two entries
/// share one.
pub open spec fn well_formed(entries: Seq<PluginModel>) -> bool {
    &&& forall|i: int| 0 <= i < entries.len() ==> valid_name((#[trigger] entries[i]).name)
    &&& forall|i: int, j: int|
        0 <= i < j < entries.len() ==> (#[trigger] entries[i]).name != (#[trigger] entries[j]).name
}

/// The entries after `name` has been registered with `url`: an entry of that
/// name gets the new address and is enabled again, keeping its configuration
/// and its install path; otherwise a fresh entry is added at the end.
pub open spec fn register_model(entries: Seq<PluginModel>, name: Seq<char>, url: Seq<char>) -> Seq<
    PluginModel,
> {
    if registered(entries, name) {
        let i = position(entries, name);
        entries.update(i, PluginModel { source_url: url, enabled: true, ..entries[i] })
    } else {
        entries.push(
            PluginModel { name, source_url: url, enabled: true, config: None, install_path: None },
        )
    }
}

/// The entries after the configuration of the entry named `name` has been
/// replaced by `config`. Without such an entry nothing changes.
pub open spec fn set_config_model(
    entries: Seq<PluginModel>,
    name: Seq<char>,
    config: Seq<char>,
) -> Seq<PluginModel> {
    if registered(entries, name) {
        let i = position(entries, name);
        entries.update(i, PluginModel { config: Some(config), ..entries[i] })
    } else {
        entries
    }
}

/// The entries after the entry named `name` has been enabled or disabled.
/// Without such an entry nothing changes.
pub open spec fn set_enabled_model(entries: Seq<PluginModel>, name: Seq<char>, enabled: bool) -> Seq<
    PluginModel,
> {
    if registered(entries, name) {
        let i = position(entries, name);
        entries.update(i, PluginModel { enabled, ..entries[i] })
    } else {
        entries
    }
}

/// The entries after the entry named `name` has been installed at `path`.
/// Without such an entry nothing changes.
pub open spec fn set_install_path_model(
    entries: Seq<PluginModel>,
    name: Seq<char>,
    path: Seq<char>,
) -> Seq<PluginModel> {
    if registered(entries, name) {
        let i = position(entries, name);
        entries.update(i, PluginModel { install_path: Some(path), ..entries[i] })
    } else {
        entries
    }
}

/// What registering returns: it fails on a malformed name or address only.
pub open spec fn register_result(name: Seq<char>, url: Seq<char>) -> Result<(), Error> {
    if valid_name(name) && representable(url) {
        Ok(())
    } else {
        Err(Error::InvalidInput)
    }
}

/// What an operation on the plugin `name` returns when its other arguments are
/// well-formed.
pub open spec fn named_result(entries: Seq<PluginModel>, name: Seq<char>) -> Result<(), Error> {
    if !valid_name(name) {
        Err(Error::InvalidInput)
    } else if !registered(entries, name) {
        Err(Error::NotFound)
    } else {
        Ok(())
    }
}

/// What an operation returns that stores `text` for the plugin `name`.
pub open spec fn store_result(
    entries: Seq<PluginModel>,
    name: Seq<char>,
    text: Seq<char>,
) -> Result<(), Error> {
    if !representable(text) {
        Err(Error::InvalidInput)
    } else {
        named_result(entries, name)
    }
}

/// In a well-formed registry a name is found at one place only.
pub proof fn lemma_position_unique(entries: Seq<PluginModel>, name: Seq<char>, i: int)
    requires
        well_formed(entries),
        0 <= i < entries.len(),
        entries[i].name == name,
    ensures
        registered(entries, name),
        position(entries, name) == i,
        lookup(entries, name) == Some(entries[i]),
{
    let p = position(entries, name);
    assert(0 <= p < entries.len() && entries[p].name == name);
    if p < i {
        assert(entries[p].name != entries[i].name);
    } else if i < p {
        assert(entries[i].name != entries[p].name);
    }
}

/// The plugins known to the manager, at most one for each name.
pub struct PluginRegistry {
    plugins: Vec<Plugin>,
}

impl View for PluginRegistry {
    type V = Seq<PluginModel>;

    closed spec fn view(&self) -> Seq<PluginModel> {
        self.plugins@.map_values(|p: Plugin| p@)
    }
}

impl PluginRegistry {
    /// The invariant that every operation keeps.
    pub open spec fn wf(&self) -> bool {
        well_formed(self@)
    }

    /// An empty registry.
    pub fn new() -> (r: Self)
        ensures
            r.wf(),
            r@ == Seq::<PluginModel>::empty(),
    {
        PluginRegistry { plugins: Vec::new() }
    }

    /// The number of registered plugins.
    pub fn len(&self) -> (n: usize)
        ensures
            n == self@.len(),
    {
        self.plugins.len()
    }

    /// The plugin at place `i`, in the order of first registration.
    pub fn entry(&self, i: usize) -> (p: &Plugin)
        requires
            i < self@.len(),
        ensures
            p@ == self@[i as int],
    {
        &self.plugins[i]
    }

    fn find(&self, name: &str) -> (r: Option<usize>)
        ensures
            match r {
                Some(i) => i < self@.len() && self@[i as int].name == name@,
                None => !registered(self@, name@),
            },
    {
        let key = name.to_owned();
        let mut i: usize = 0;
        while i < self.plugins.len()
            invariant
                i <= self.plugins.len(),
                key@ == name@,
                forall|j: int| 0 <= j < i ==> (#[trigger] self@[j]).name != name@,
            decreases self.plugins.len() - i,
        {
            if self.plugins[i].name == key {
                return Some(i);
            }
            i += 1;
        }
        None
    }

    /// The plugin registered under `name`, if there is one.
    pub fn get(&self, name: &str) -> (r: Option<&Plugin>)
        requires
            self.wf(),
        ensures
            match r {
                Some(p) => lookup(self@, name@) == Some(p@),
                None => lookup(self@, name@) is None,
            },
    {
        match self.find(name) {
            Some(i) => {
                proof {
                    lemma_position_unique(self@, name@, i as int);
                }
                Some(&self.plugins[i])
            },
            None => None,
        }
    }

    /// Registers `name` with the address `url`, enabled. An entry of that name
    /// is overwritten, but keeps its configuration and its install path.
    /// Fails on a malformed name or address, and then changes nothing.
    pub fn register(&mut self, name: &str, url: &str) -> (r: Result<(), Error>)
        requires
            old(self).wf(),
        ensures
            final(self).wf(),
            r == register_result(name@, url@),
            r is Ok ==> final(self)@ == register_model(old(self)@, name@, url@),
            r is Err ==> final(self)@ == old(self)@,
    {
        if !is_valid_name(name) || !is_representable(url) {
            return Err(Error::InvalidInput);
        }
        match self.find(name) {
            Some(i) => {
                proof {
                    lemma_position_unique(self@, name@, i as int);
                }
                self.plugins[i].source_url = url.to_owned();
                self.plugins[i].enabled = true;
                assert(self@ =~= register_model(old(self)@, name@, url@));
            },
            None => {
                self.plugins.push(
                    Plugin {
                        name: name.to_owned(),
                        source_url: url.to_owned(),
                        enabled: true,
                        config: None,
                        install_path: None,
                    },
                );
                assert(self@ =~= register_model(old(self)@, name@, url@));
            },
        }
        Ok(())
    }

    /// Replaces the configuration of the plugin `name` by `config`.
    /// Fails with `InvalidInput` on a malformed name or text, else with
    /// `NotFound` if no plugin of that name is registered; a failure changes
    /// nothing.
    pub fn set_config(&mut self, name: &str, config: &str) -> (r: Result<(), Error>)
        requires
            old(self).wf(),
        ensures
            final(self).wf(),
            r == store_result(old(self)@, name@, config@),
            r is Ok ==> final(self)@ == set_config_model(old(self)@, name@, config@),
            r is Err ==> final(self)@ == old(self)@,
    {
        if !is_valid_name(name) || !is_representable(config) {
            return Err(Error::InvalidInput);
        }
        match self.find(name) {
            Some(i) => {
                proof {
                    lemma_position_unique(self@, name@, i as int);
                }
                self.plugins[i].config = Some(config.to_owned());
                assert(self@ =~= set_config_model(old(self)@, name@, config@));
                Ok(())
            },
            None => Err(Error::NotFound),
        }
    }

    /// Enables or disables the plugin `name`. Fails with `InvalidInput` on a
    /// malformed name, else with `NotFound` if no plugin of that name is
    /// registered; a failure changes nothing.
    pub fn set_enabled(&mut self, name: &str, enabled: bool) -> (r: Result<(), Error>)
        requires
            old(self).wf(),
        ensures
            final(self).wf(),
            r == named_result(old(self)@, name@),
            r is Ok ==> final(self)@ == set_enabled_model(old(self)@, name@, enabled),
            r is Err ==> final(self)@ == old(self)@,
    {
        if !is_valid_name(name) {
            return Err(Error::InvalidInput);
        }
        match self.find(name) {
            Some(i) => {
                proof {
                    lemma_position_unique(self@, name@, i as int);
                }
                self.plugins[i].enabled = enabled;
                assert(self@ =~= set_enabled_model(old(self)@, name@, enabled));
                Ok(())
            },
            None => Err(Error::NotFound),
        }
    }

    /// Records that the plugin `name` is installed at `path`. Fails with
    /// `InvalidInput` on a malformed name or path, else with `NotFound` if no
    /// plugin of that name is registered; a failure changes nothing.
    pub fn set_install_path(&mut self, name: &str, path: &str) -> (r: Result<(), Error>)
        requires
            old(self).wf(),
        ensures
            final(self).wf(),
            r == store_result(old(self)@, name@, path@),
            r is Ok ==> final(self)@ == set_install_path_model(old(self)@, name@, path@),
            r is Err ==> final(self)@ == old(self)@,
    {
        if !is_valid_name(name) || !is_representable(path) {
            return Err(Error::InvalidInput);
        }
        match self.find(name) {
            Some(i) => {
                proof {
                    lemma_position_unique(self@, name@, i as int);
                }
                self.plugins[i].install_path = Some(path.to_owned());
                assert(self@ =~= set_install_path_model(old(self)@, name@, path@));
                Ok(())
            },
            None => Err(Error::NotFound),
        }
    }

    /// A snapshot of every registered plugin, each exactly once. The order is
    /// that of first registration; callers should not depend on it.
    pub fn enumerate(&self) -> (r: Vec<Plugin>)
        ensures
            r@.len() == self@.len(),
            forall|i: int| 0 <= i < r@.len() ==> (#[trigger] r@[i])@ == self@[i],
    {
        let mut r: Vec<Plugin> = Vec::new();
        let mut i: usize = 0;
        while i < self.plugins.len()
            invariant
                i <= self.plugins.len(),
                r@.len() == i,
                forall|j: int| 0 <= j < i ==> (#[trigger] r@[j])@ == self@[j],
            decreases self.plugins.len() - i,
        {
            r.push(self.plugins[i].clone());
            i += 1;
        }
        r
    }
}

} // verus!
