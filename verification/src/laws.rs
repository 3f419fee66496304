//! Laws that relate the operations of the manager to one another. Each is
//! stated over the models that the operations' contracts use.
use vstd::prelude::*;
use crate::apply::{first_task, try_outcomes, warnings_model, WarningModel};
use crate::error::Error;
use crate::install::{
    fetched, fetched_with_success, fresh_pass, install_path_text, install_plan, install_step,
    needs_install, record_pass, record_registry, run_pass, update_plan, update_step, CommandModel,
    PassKind,
};
use crate::pman::{
    append_model, begin_model, end_model, end_succeeds, manager_wf, ManagerModel,
};
use crate::registry::{
    lemma_position_unique, lookup, position, register_model, registered, set_config_model,
    well_formed, PluginModel,
};

verus! {

/// Registering a name that is registered already keeps the plugin's
/// configuration and install path: only its address and its enabled flag are
/// set anew, and no other plugin is touched.
pub proof fn law_register_again_keeps_config_and_path(
    entries: Seq<PluginModel>,
    name: Seq<char>,
    url: Seq<char>,
)
    requires
        well_formed(entries),
        registered(entries, name),
    ensures
        well_formed(register_model(entries, name, url)),
        register_model(entries, name, url).len() == entries.len(),
        lookup(register_model(entries, name, url), name) == Some(
            PluginModel {
                name,
                source_url: url,
                enabled: true,
                config: lookup(entries, name)->0.config,
                install_path: lookup(entries, name)->0.install_path,
            },
        ),
        forall|other: Seq<char>|
            other != name ==> lookup(#[trigger] register_model(entries, name, url), other)
                == lookup(entries, other),
{
    let i = position(entries, name);
    let after = register_model(entries, name, url);
    assert(after.len() == entries.len());
    assert forall|k: int| 0 <= k < after.len() implies (#[trigger] after[k]).name
        == entries[k].name by {}
    lemma_position_unique(after, name, i);
    assert forall|other: Seq<char>| other != name implies lookup(after, other) == lookup(
        entries,
        other,
    ) by {
        if registered(entries, other) {
            let j = position(entries, other);
            assert(after[j] == entries[j]);
            lemma_position_unique(after, other, j);
        } else if registered(after, other) {
            let j = position(after, other);
            assert(entries[j].name == other);
        }
    }
}

/// Opening a transaction for a registered plugin and closing it at once, with
/// no statement added, commits the empty text as the plugin's configuration
/// and leaves the slot empty.
pub proof fn law_begin_then_end_commits_empty_config(m: ManagerModel, name: Seq<char>)
    requires
        manager_wf(m),
        registered(m.registry, name),
    ensures
        end_succeeds(begin_model(m, name)),
        end_model(begin_model(m, name)).transaction is None,
        lookup(end_model(begin_model(m, name)).registry, name) is Some,
        lookup(end_model(begin_model(m, name)).registry, name)->0.config == Some(
            Seq::<char>::empty(),
        ),
{
    let i = position(m.registry, name);
    let after = end_model(begin_model(m, name)).registry;
    assert(after == set_config_model(m.registry, name, Seq::<char>::empty()));
    assert forall|k: int| 0 <= k < after.len() implies (#[trigger] after[k]).name
        == m.registry[k].name by {}
    lemma_position_unique(after, name, i);
}

/// Opening a second transaction while one is open discards the first: what it
/// had gathered is committed nowhere, and the manager is as if the first had
/// never been opened.
pub proof fn law_second_begin_discards_first(
    m: ManagerModel,
    first: Seq<char>,
    gathered: Seq<char>,
    second: Seq<char>,
)
    ensures
        begin_model(append_model(begin_model(m, first), gathered), second) == begin_model(m, second),
        begin_model(append_model(begin_model(m, first), gathered), second).registry == m.registry,
{
}

/// Every element that `f` keeps is found in the filtered list.
proof fn lemma_filter_map_covers<A, B>(s: Seq<A>, f: spec_fn(A) -> Option<B>, j: int)
    requires
        0 <= j < s.len(),
        f(s[j]) is Some,
    ensures
        s.filter_map(f).contains(f(s[j])->0),
    decreases s.len(),
{
    let out = s.filter_map(f);
    let rest = s.drop_last().filter_map(f);
    if j == s.len() - 1 {
        assert(out == rest + seq![f(s[j])->0]);
        assert(out[out.len() - 1] == f(s[j])->0);
    } else {
        lemma_filter_map_covers(s.drop_last(), f, j);
        let k = choose|k: int| 0 <= k < rest.len() && rest[k] == f(s[j])->0;
        match f(s.last()) {
            Some(b) => {
                assert(out == rest + seq![b]);
                assert(out[k] == rest[k]);
            },
            None => {
                assert(out == rest);
            },
        }
    }
}

/// Where `f` keeps nothing, the filtered list is empty.
proof fn lemma_filter_map_nothing<A, B>(s: Seq<A>, f: spec_fn(A) -> Option<B>)
    requires
        forall|j: int| 0 <= j < s.len() ==> f(#[trigger] s[j]) is None,
    ensures
        s.filter_map(f) == Seq::<B>::empty(),
    decreases s.len(),
{
    if s.len() > 0 {
        assert(f(s[s.len() - 1]) is None);
        assert forall|j: int| 0 <= j < s.drop_last().len() implies f(
            #[trigger] s.drop_last()[j],
        ) is None by {
            assert(s.drop_last()[j] == s[j]);
        }
        lemma_filter_map_nothing(s.drop_last(), f);
    }
}

/// Every fetch of a plan comes from an entry that the plan's rule keeps, and
/// is for that entry's plugin.
proof fn lemma_step_origin(
    entries: Seq<PluginModel>,
    f: spec_fn(PluginModel) -> Option<CommandModel>,
    i: int,
) -> (j: int)
    requires
        0 <= i < entries.filter_map(f).len(),
    ensures
        0 <= j < entries.len(),
        f(entries[j]) == Some(entries.filter_map(f)[i]),
{
    let plan = entries.filter_map(f);
    assert(plan.contains(plan[i]));
    entries.lemma_filter_map_contains(f, plan[i]);
    let t = choose|t: PluginModel| #[trigger] entries.contains(t) && f(t) == Some(plan[i]);
    let j = choose|j: int| 0 <= j < entries.len() && entries[j] == t;
    j
}

/// In a plan whose fetches are for the plugins they come from, no plugin of a
/// well-formed registry gets two fetches.
proof fn lemma_steps_distinct(
    entries: Seq<PluginModel>,
    f: spec_fn(PluginModel) -> Option<CommandModel>,
)
    requires
        well_formed(entries),
        forall|p: PluginModel| (#[trigger] f(p)) is Some ==> f(p)->0.plugin == p.name,
    ensures
        forall|i: int, j: int|
            0 <= i < j < entries.filter_map(f).len() ==> (#[trigger] entries.filter_map(f)[i]).plugin
                != (#[trigger] entries.filter_map(f)[j]).plugin,
    decreases entries.len(),
{
    let plan = entries.filter_map(f);
    if entries.len() > 0 {
        let front = entries.drop_last();
        let rest = front.filter_map(f);
        assert forall|k: int| 0 <= k < front.len() implies (#[trigger] front[k]) == entries[k] by {}
        lemma_steps_distinct(front, f);
        match f(entries.last()) {
            Some(b) => {
                assert(plan == rest + seq![b]);
                assert forall|i: int, j: int| 0 <= i < j < plan.len() implies (#[trigger] plan[i]).plugin
                    != (#[trigger] plan[j]).plugin by {
                    if j < rest.len() {
                        assert(plan[i] == rest[i] && plan[j] == rest[j]);
                    } else {
                        assert(plan[i] == rest[i]);
                        let k = lemma_step_origin(front, f, i);
                        assert(front[k] == entries[k]);
                        assert(entries[k].name != entries[entries.len() - 1].name);
                    }
                }
            },
            None => {
                assert(plan == rest);
            },
        }
    }
}

/// What a run of an install pass makes of the registry: a plugin whose fetch
/// was answered with success has its install path, and nothing else has
/// changed.
proof fn lemma_install_run(entries: Seq<PluginModel>, outcomes: Seq<bool>)
    requires
        well_formed(entries),
        outcomes.len() <= install_plan(entries).len(),
    ensures
        ({
            let plan = install_plan(entries);
            let (pass, after) = run_pass(fresh_pass(PassKind::Install, plan), entries, outcomes);
            &&& pass.kind == PassKind::Install
            &&& pass.steps == plan
            &&& pass.done == outcomes.len()
            &&& after.len() == entries.len()
            &&& forall|j: int|
                0 <= j < after.len() ==> #[trigger] after[j] == if fetched_with_success(
                    plan,
                    outcomes,
                    entries[j].name,
                ) {
                    PluginModel {
                        install_path: Some(install_path_text(entries[j].name)),
                        ..entries[j]
                    }
                } else {
                    entries[j]
                }
        }),
    decreases outcomes.len(),
{
    let plan = install_plan(entries);
    let f = |p: PluginModel| install_step(p);
    if outcomes.len() > 0 {
        let before = outcomes.drop_last();
        let b = outcomes.last();
        let k = before.len() as int;
        lemma_install_run(entries, before);
        let (p0, e0) = run_pass(fresh_pass(PassKind::Install, plan), entries, before);
        let (p1, e1) = run_pass(fresh_pass(PassKind::Install, plan), entries, outcomes);
        assert(p1 == record_pass(p0, e0, b));
        assert(e1 == record_registry(p0, e0, b));
        let name = plan[k].plugin;
        let j = lemma_step_origin(entries, f, k);
        assert(entries[j].name == name);
        assert forall|x: int| 0 <= x < e0.len() implies (#[trigger] e0[x]).name == entries[x].name by {}
        assert(well_formed(e0));
        lemma_position_unique(e0, name, j);
        lemma_steps_distinct(entries, f);
        assert forall|x: int| 0 <= x < e1.len() implies #[trigger] e1[x] == if fetched_with_success(
            plan,
            outcomes,
            entries[x].name,
        ) {
            PluginModel { install_path: Some(install_path_text(entries[x].name)), ..entries[x] }
        } else {
            entries[x]
        } by {
            let n = entries[x].name;
            if x == j {
                if b {
                    assert(plan[k].plugin == n && outcomes[k]);
                } else {
                    if fetched_with_success(plan, outcomes, n) {
                        let i = choose|i: int|
                            0 <= i < plan.len() && i < outcomes.len() && (#[trigger] plan[i]).plugin
                                == n && outcomes[i];
                        assert(i != k);
                        assert(before[i] == outcomes[i]);
                        assert(fetched_with_success(plan, before, n));
                    }
                    if fetched_with_success(plan, before, n) {
                        let i = choose|i: int|
                            0 <= i < plan.len() && i < before.len() && (#[trigger] plan[i]).plugin
                                == n && before[i];
                        assert(before[i] == outcomes[i]);
                        assert(fetched_with_success(plan, outcomes, n));
                    }
                }
            } else {
                assert(e1[x] == e0[x]);
                if x < j {
                    assert(entries[x].name != entries[j].name);
                } else {
                    assert(entries[j].name != entries[x].name);
                }
                if fetched_with_success(plan, outcomes, n) {
                    let i = choose|i: int|
                        0 <= i < plan.len() && i < outcomes.len() && (#[trigger] plan[i]).plugin == n
                            && outcomes[i];
                    assert(i != k);
                    assert(before[i] == outcomes[i]);
                    assert(fetched_with_success(plan, before, n));
                }
                if fetched_with_success(plan, before, n) {
                    let i = choose|i: int|
                        0 <= i < plan.len() && i < before.len() && (#[trigger] plan[i]).plugin == n
                            && before[i];
                    assert(before[i] == outcomes[i]);
                    assert(fetched_with_success(plan, outcomes, n));
                }
            }
        }
    }
}

/// Installing twice fetches once. An install pass has exactly one fetch for
/// each plugin that is enabled and not installed. Whatever the host answers,
/// the next pass has no fetch for a plugin whose fetch succeeded; if every
/// fetch succeeded, the next pass has no fetch at all.
pub proof fn law_install_twice_fetches_once(entries: Seq<PluginModel>, outcomes: Seq<bool>)
    requires
        well_formed(entries),
        outcomes.len() == install_plan(entries).len(),
    ensures
        forall|i: int, j: int|
            0 <= i < j < install_plan(entries).len() ==> (#[trigger] install_plan(entries)[i]).plugin
                != (#[trigger] install_plan(entries)[j]).plugin,
        forall|j: int|
            0 <= j < entries.len() ==> (needs_install(#[trigger] entries[j]) <==> fetched(
                install_plan(entries),
                entries[j].name,
            )),
        ({
            let first = install_plan(entries);
            let after = run_pass(fresh_pass(PassKind::Install, first), entries, outcomes).1;
            let second = install_plan(after);
            &&& well_formed(after)
            &&& forall|name: Seq<char>|
                fetched_with_success(first, outcomes, name) ==> !#[trigger] fetched(second, name)
            &&& (forall|i: int| 0 <= i < outcomes.len() ==> outcomes[i]) ==> second == Seq::<
                CommandModel,
            >::empty()
        }),
{
    let f = |p: PluginModel| install_step(p);
    let first = install_plan(entries);
    lemma_steps_distinct(entries, f);
    assert forall|j: int| 0 <= j < entries.len() implies (needs_install(#[trigger] entries[j])
        <==> fetched(first, entries[j].name)) by {
        if needs_install(entries[j]) {
            lemma_filter_map_covers(entries, f, j);
            let i = choose|i: int| 0 <= i < first.len() && first[i] == f(entries[j])->0;
            assert(first[i].plugin == entries[j].name);
        }
        if fetched(first, entries[j].name) {
            let i = choose|i: int| 0 <= i < first.len() && (#[trigger] first[i]).plugin == entries[j].name;
            let k = lemma_step_origin(entries, f, i);
            if k < j {
                assert(entries[k].name != entries[j].name);
            } else if j < k {
                assert(entries[j].name != entries[k].name);
            }
        }
    }
    lemma_install_run(entries, outcomes);
    let after = run_pass(fresh_pass(PassKind::Install, first), entries, outcomes).1;
    let second = install_plan(after);
    assert forall|x: int| 0 <= x < after.len() implies (#[trigger] after[x]).name == entries[x].name by {}
    assert(well_formed(after));
    assert forall|name: Seq<char>| fetched_with_success(first, outcomes, name) implies !#[trigger] fetched(
        second,
        name,
    ) by {
        if fetched(second, name) {
            let i = choose|i: int| 0 <= i < second.len() && (#[trigger] second[i]).plugin == name;
            let k = lemma_step_origin(after, f, i);
            assert(after[k].name == name);
            assert(needs_install(after[k]));
            assert(entries[k].name == name);
        }
    }
    if forall|i: int| 0 <= i < outcomes.len() ==> outcomes[i] {
        assert forall|x: int| 0 <= x < after.len() implies f(#[trigger] after[x]) is None by {
            if needs_install(entries[x]) {
                let i = choose|i: int|
                    0 <= i < first.len() && (#[trigger] first[i]).plugin == entries[x].name;
                assert(outcomes[i]);
                assert(fetched_with_success(first, outcomes, entries[x].name));
            }
        }
        lemma_filter_map_nothing(after, f);
    }
}

/// Updating passes over what was never installed. Every fetch of an update
/// pass is for a registered plugin that is enabled and has an install path,
/// so a plugin without one gets no fetch; and no plugin gets two.
pub proof fn law_update_skips_uninstalled(entries: Seq<PluginModel>)
    requires
        well_formed(entries),
    ensures
        forall|i: int|
            0 <= i < update_plan(entries).len() ==> {
                let p = lookup(entries, (#[trigger] update_plan(entries)[i]).plugin);
                p is Some && p->0.enabled && p->0.install_path is Some
            },
        forall|j: int|
            0 <= j < entries.len() && (#[trigger] entries[j]).install_path is None ==> !fetched(
                update_plan(entries),
                entries[j].name,
            ),
        forall|i: int, j: int|
            0 <= i < j < update_plan(entries).len() ==> (#[trigger] update_plan(entries)[i]).plugin
                != (#[trigger] update_plan(entries)[j]).plugin,
{
    let f = |p: PluginModel| update_step(p);
    let plan = update_plan(entries);
    lemma_steps_distinct(entries, f);
    assert forall|i: int| 0 <= i < plan.len() implies {
        let p = lookup(entries, (#[trigger] plan[i]).plugin);
        p is Some && p->0.enabled && p->0.install_path is Some
    } by {
        let k = lemma_step_origin(entries, f, i);
        lemma_position_unique(entries, plan[i].plugin, k);
    }
    assert forall|j: int|
        0 <= j < entries.len() && (#[trigger] entries[j]).install_path is None implies !fetched(
        plan,
        entries[j].name,
    ) by {
        if fetched(plan, entries[j].name) {
            let i = choose|i: int| 0 <= i < plan.len() && (#[trigger] plan[i]).plugin == entries[j].name;
            let k = lemma_step_origin(entries, f, i);
            lemma_position_unique(entries, entries[j].name, k);
            lemma_position_unique(entries, entries[j].name, j);
        }
    }
}

/// One failed try is forgiven, two are not. If the immediate try or the retry
/// succeeds, no warning is raised. If both fail, exactly one warning is
/// raised; it names the plugin, and its error tells at which step the retry
/// failed.
pub proof fn law_warning_only_after_failed_retry(
    plugin: Seq<char>,
    config: Seq<char>,
    first_load: bool,
    first_execute: bool,
    retry_load: bool,
    retry_execute: bool,
)
    ensures
        (first_load && first_execute) || (retry_load && retry_execute) ==> warnings_model(
            first_task(plugin, config),
            try_outcomes(first_load, first_execute) + try_outcomes(retry_load, retry_execute),
        ) == Seq::<WarningModel>::empty(),
        !(first_load && first_execute) && !(retry_load && retry_execute) ==> warnings_model(
            first_task(plugin, config),
            try_outcomes(first_load, first_execute) + try_outcomes(retry_load, retry_execute),
        ) == seq![
            WarningModel {
                plugin,
                error: if retry_load {
                    Error::ExecutionFailure
                } else {
                    Error::LoadFailure
                },
            },
        ],
{
    reveal_with_fuel(warnings_model, 5);
}

} // verus!
