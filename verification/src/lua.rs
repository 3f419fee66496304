//! The module that the host's script engine loads: the table of functions it
//! offers, and what each of them makes of its arguments. The engine's stack
//! is held as plain values; the caller moves values between the engine and
//! this model.
use vstd::prelude::*;
use crate::error::Error;
use crate::host::{
    autocmd, autocmd_text, exec_lua, exec_lua_text, global_command, global_text, is_checked,
    load_config_command, load_config_text, map_command, map_text, opt, opt_text,
};
use crate::interop::{nvim_create_keymap, nvim_set_option_bool, option_bool_text};
use crate::pman::{
    configure_plugin, configure_plugin_post, register_plugin, register_plugin_post, PluginManager,
};
use crate::text::{is_representable, representable};

verus! {

/// The functions that the module offers to scripts.
#[derive(Debug, Clone, Copy, PartialEq, Eq, Structural)]
pub enum Binding {
    LoadConfig,
    Opt,
    Mapping,
    Global,
    Autocmd,
    ExecLua,
    RegisterPlugin,
    ConfigurePlugin,
    InstallPlugins,
    UpdatePlugins,
    LoadConfigs,
    SetOptionBool,
    CreateKeymap,
    Init,
}

/// A field of a table, as a mathematical value.
pub struct FieldModel {
    pub key: Seq<char>,
    pub value: Binding,
}

/// A field of a table: a function of the module under a key.
#[derive(Debug)]
pub struct Field {
    pub key: String,
    pub value: Binding,
}

impl View for Field {
    type V = FieldModel;

    open spec fn view(&self) -> FieldModel {
        FieldModel { key: self.key@, value: self.value }
    }
}

/// The views of a list of fields.
pub open spec fn fields(v: Seq<Field>) -> Seq<FieldModel> {
    v.map_values(|f: Field| f@)
}

/// A value of the engine, as a mathematical value.
pub enum ValueModel {
    Nil,
    Boolean(bool),
    Text(Seq<char>),
    Function(Binding),
    Table(Seq<FieldModel>),
}

/// A value of the engine, as far as the module deals with it. A table holds
/// its fields in the order in which they were set; a later field of the same
/// key stands for an overwritten one.
#[derive(Debug)]
pub enum LuaValue {
    Nil,
    Boolean(bool),
    Text(String),
    Function(Binding),
    Table(Vec<Field>),
}

impl View for LuaValue {
    type V = ValueModel;

    open spec fn view(&self) -> ValueModel {
        match self {
            LuaValue::Nil => ValueModel::Nil,
            LuaValue::Boolean(b) => ValueModel::Boolean(*b),
            LuaValue::Text(t) => ValueModel::Text(t@),
            LuaValue::Function(f) => ValueModel::Function(*f),
            LuaValue::Table(t) => ValueModel::Table(fields(t@)),
        }
    }
}

/// The views of a list of values.
pub open spec fn values(v: Seq<LuaValue>) -> Seq<ValueModel> {
    v.map_values(|x: LuaValue| x@)
}

/// The engine's stack during one call, bottom first.
#[derive(Debug)]
pub struct LuaState {
    pub stack: Vec<LuaValue>,
}

impl View for LuaState {
    type V = Seq<ValueModel>;

    open spec fn view(&self) -> Seq<ValueModel> {
        values(self.stack@)
    }
}

impl LuaState {
    /// An empty stack.
    pub fn new() -> (s: Self)
        ensures
            s@ == Seq::<ValueModel>::empty(),
    {
        let s = LuaState { stack: Vec::new() };
        assert(s@ =~= Seq::<ValueModel>::empty());
        s
    }

    /// Puts `value` on top of the stack.
    pub fn push(&mut self, value: LuaValue)
        ensures
            final(self)@ == old(self)@.push(value@),
    {
        self.stack.push(value);
        assert(self@ =~= old(self)@.push(value@));
    }
}

/// The place in a stack of `len` values that the index `idx` stands for:
/// positive indices count from the bottom, starting at 1, negative ones from
/// the top, starting at -1.
pub open spec fn slot(len: nat, idx: int) -> Option<int> {
    if 1 <= idx <= len {
        Some(idx - 1)
    } else if -(len as int) <= idx <= -1 {
        Some(len + idx)
    } else {
        None
    }
}

/// The text at the index `idx`, if a text is there.
pub open spec fn text_arg(stack: Seq<ValueModel>, idx: int) -> Option<Seq<char>> {
    match slot(stack.len(), idx) {
        Some(p) => match stack[p] {
            ValueModel::Text(t) => Some(t),
            _ => None,
        },
        None => None,
    }
}

/// Whether the value at the index `idx` counts as true: every value does but
/// nil, false, and the lack of a value.
pub open spec fn truthy_arg(stack: Seq<ValueModel>, idx: int) -> bool {
    match slot(stack.len(), idx) {
        Some(p) => match stack[p] {
            ValueModel::Nil => false,
            ValueModel::Boolean(b) => b,
            _ => true,
        },
        None => false,
    }
}

/// Whether a field can be set: the key is representable, a function is on
/// top of the stack, and a table is at the index `idx`.
pub open spec fn can_set_field(stack: Seq<ValueModel>, idx: int, key: Seq<char>) -> bool {
    &&& representable(key)
    &&& stack.len() > 0
    &&& stack.last() is Function
    &&& slot(stack.len(), idx) is Some
    &&& stack[slot(stack.len(), idx)->0] is Table
}

/// The stack after a field has been set: the function on top has left the
/// stack and is the last field of the table, under `key`. Where the field
/// cannot be set the stack is unchanged.
pub open spec fn set_field_model(stack: Seq<ValueModel>, idx: int, key: Seq<char>) -> Seq<
    ValueModel,
> {
    if can_set_field(stack, idx, key) {
        let p = slot(stack.len(), idx)->0;
        stack.update(
            p,
            ValueModel::Table(
                stack[p]->Table_0.push(FieldModel { key, value: stack.last()->Function_0 }),
            ),
        ).drop_last()
    } else {
        stack
    }
}

/// The stack after a function has been made from the topmost `n` values.
/// Where the stack holds fewer, or `n` is negative, it is unchanged.
pub open spec fn push_closure_model(stack: Seq<ValueModel>, f: Binding, n: int) -> Seq<ValueModel> {
    if 0 <= n <= stack.len() {
        stack.take(stack.len() - n).push(ValueModel::Function(f))
    } else {
        stack
    }
}

/// The module's access to the engine's stack.
#[derive(Debug)]
pub struct Lua {
    state: LuaState,
}

impl View for Lua {
    type V = Seq<ValueModel>;

    closed spec fn view(&self) -> Seq<ValueModel> {
        self.state@
    }
}

impl Lua {
    /// Access to the stack `state`.
    pub fn new(state: LuaState) -> (lua: Self)
        ensures
            lua@ == state@,
    {
        Lua { state }
    }

    /// The stack as it is now.
    pub fn state(&self) -> (s: &LuaState)
        ensures
            s@ == self@,
    {
        &self.state
    }

    /// Gives the stack back.
    pub fn into_state(self) -> (s: LuaState)
        ensures
            s@ == self@,
    {
        self.state
    }

    fn resolve(&self, idx: i32) -> (r: Option<usize>)
        ensures
            match r {
                Some(p) => slot(self@.len(), idx as int) == Some(p as int) && p < self@.len(),
                None => slot(self@.len(), idx as int) is None,
            },
    {
        let len = self.state.stack.len();
        if idx >= 1 {
            let i = idx as usize;
            if i <= len {
                Some(i - 1)
            } else {
                None
            }
        } else if idx <= -1 {
            let back = (-(idx as i64)) as usize;
            if back <= len {
                Some(len - back)
            } else {
                None
            }
        } else {
            None
        }
    }

    /// Puts a new empty table on top of the stack. The two size hints are
    /// accepted and not used.
    pub fn create_table(&mut self, _narr: i32, _nrec: i32)
        ensures
            final(self)@ == old(self)@.push(ValueModel::Table(Seq::empty())),
    {
        let table = LuaValue::Table(Vec::new());
        assert(table@ == ValueModel::Table(Seq::empty())) by {
            assert(table@->Table_0 =~= Seq::<FieldModel>::empty());
        }
        self.state.push(table);
    }

    /// Makes a function value for `f` from the topmost `n` values, which
    /// leave the stack, and puts it on top.
    pub fn push_cclosure(&mut self, f: Binding, n: i32)
        ensures
            final(self)@ == push_closure_model(old(self)@, f, n as int),
    {
        if n < 0 || n as usize > self.state.stack.len() {
            return ;
        }
        let keep = self.state.stack.len() - n as usize;
        self.state.stack.truncate(keep);
        self.state.stack.push(LuaValue::Function(f));
        assert(self@ =~= push_closure_model(old(self)@, f, n as int));
    }

    /// Sets the field `k` of the table at `idx` to the function on top of the
    /// stack, which leaves the stack. Fails with `InvalidInput`, changing
    /// nothing, if the key is malformed, if no function is on top, or if no
    /// table is at `idx`.
    pub fn set_field(&mut self, idx: i32, k: &str) -> (r: Result<(), Error>)
        ensures
            can_set_field(old(self)@, idx as int, k@) ==> r is Ok,
            !can_set_field(old(self)@, idx as int, k@) ==> r == Err::<(), Error>(
                Error::InvalidInput,
            ),
            final(self)@ == set_field_model(old(self)@, idx as int, k@),
    {
        if !is_representable(k) {
            return Err(Error::InvalidInput);
        }
        let len = self.state.stack.len();
        if len == 0 {
            return Err(Error::InvalidInput);
        }
        let p = match self.resolve(idx) {
            Some(p) => p,
            None => {
                return Err(Error::InvalidInput);
            },
        };
        let value = match &self.state.stack[len - 1] {
            LuaValue::Function(f) => *f,
            _ => {
                return Err(Error::InvalidInput);
            },
        };
        match &self.state.stack[p] {
            LuaValue::Table(_) => {},
            _ => {
                return Err(Error::InvalidInput);
            },
        }
        self.state.stack.pop();
        match &mut self.state.stack[p] {
            LuaValue::Table(t) => {
                t.push(Field { key: k.to_owned(), value });
            },
            _ => {},
        }
        assert(self@ =~= set_field_model(old(self)@, idx as int, k@)) by {
            let q = p as int;
            assert(self@[q]->Table_0 =~= old(self)@[q]->Table_0.push(
                FieldModel { key: k@, value },
            ));
        }
        Ok(())
    }

    /// The text at the index `idx`. Fails with `InvalidInput` if no text is
    /// there.
    pub fn check_string(&self, idx: i32) -> (r: Result<String, Error>)
        ensures
            match r {
                Ok(t) => text_arg(self@, idx as int) == Some(t@),
                Err(e) => text_arg(self@, idx as int) is None && e == Error::InvalidInput,
            },
    {
        match self.resolve(idx) {
            Some(p) => match &self.state.stack[p] {
                LuaValue::Text(t) => Ok(t.clone()),
                _ => Err(Error::InvalidInput),
            },
            None => Err(Error::InvalidInput),
        }
    }

    /// Whether the value at the index `idx` counts as true.
    pub fn to_boolean(&self, idx: i32) -> (r: bool)
        ensures
            r == truthy_arg(self@, idx as int),
    {
        match self.resolve(idx) {
            Some(p) => match &self.state.stack[p] {
                LuaValue::Nil => false,
                LuaValue::Boolean(b) => *b,
                _ => true,
            },
            None => false,
        }
    }
}

/// Whether a function can be bound under `key`: the key is representable and
/// a table is on top of the stack.
pub open spec fn can_bind(stack: Seq<ValueModel>, key: Seq<char>) -> bool {
    representable(key) && stack.len() > 0 && stack.last() is Table
}

/// The stack after an attempt to bind `field`: the table on top has it as its
/// last field, or, where it cannot be bound, the function is left on top of
/// the stack.
pub open spec fn bind_model(stack: Seq<ValueModel>, field: FieldModel) -> Seq<ValueModel> {
    if can_bind(stack, field.key) {
        stack.update(stack.len() - 1, ValueModel::Table(stack.last()->Table_0.push(field)))
    } else {
        stack.push(ValueModel::Function(field.value))
    }
}

/// The stack after an attempt to bind `fs` one after the other, which ends at
/// the first that cannot be bound, and whether all were bound.
pub open spec fn bind_all_model(stack: Seq<ValueModel>, fs: Seq<FieldModel>) -> (
    Seq<ValueModel>,
    bool,
)
    decreases fs.len(),
{
    if fs.len() == 0 {
        (stack, true)
    } else {
        let (s, ok) = bind_all_model(stack, fs.drop_last());
        if ok {
            (bind_model(s, fs.last()), can_bind(s, fs.last().key))
        } else {
            (s, false)
        }
    }
}

/// The functions for autocommands and scripts.
pub open spec fn extra_fields() -> Seq<FieldModel> {
    seq![
        FieldModel { key: "autocmd"@, value: Binding::Autocmd },
        FieldModel { key: "exec_lua"@, value: Binding::ExecLua },
    ]
}

/// The functions of the plugin manager.
pub open spec fn plugin_fields() -> Seq<FieldModel> {
    seq![
        FieldModel { key: "register_plugin"@, value: Binding::RegisterPlugin },
        FieldModel { key: "configure_plugin"@, value: Binding::ConfigurePlugin },
        FieldModel { key: "install_plugins"@, value: Binding::InstallPlugins },
        FieldModel { key: "update_plugins"@, value: Binding::UpdatePlugins },
        FieldModel { key: "load_configs"@, value: Binding::LoadConfigs },
    ]
}

/// The functions for options and mappings.
pub open spec fn interop_fields() -> Seq<FieldModel> {
    seq![
        FieldModel { key: "set_option_bool"@, value: Binding::SetOptionBool },
        FieldModel { key: "create_keymap"@, value: Binding::CreateKeymap },
    ]
}

/// The basic functions of the module.
pub open spec fn basic_fields() -> Seq<FieldModel> {
    seq![
        FieldModel { key: "load_config"@, value: Binding::LoadConfig },
        FieldModel { key: "opt"@, value: Binding::Opt },
        FieldModel { key: "map"@, value: Binding::Mapping },
        FieldModel { key: "g"@, value: Binding::Global },
    ]
}

/// Every function of the module, in the order in which it is bound; the last
/// is the module's own entry.
pub open spec fn module_fields() -> Seq<FieldModel> {
    basic_fields() + extra_fields() + plugin_fields() + interop_fields() + seq![
        FieldModel { key: "rns"@, value: Binding::Init },
    ]
}

/// Binding fields with representable keys to the table on top of the stack
/// succeeds and adds them to the table in order.
pub proof fn lemma_bind_all(stack: Seq<ValueModel>, fs: Seq<FieldModel>)
    requires
        stack.len() > 0,
        stack.last() is Table,
        forall|i: int| 0 <= i < fs.len() ==> representable((#[trigger] fs[i]).key),
    ensures
        bind_all_model(stack, fs) == (
            stack.update(stack.len() - 1, ValueModel::Table(stack.last()->Table_0 + fs)),
            true,
        ),
    decreases fs.len(),
{
    if fs.len() == 0 {
        assert(stack.last()->Table_0 + fs =~= stack.last()->Table_0);
        assert(stack.update(stack.len() - 1, ValueModel::Table(stack.last()->Table_0 + fs)) =~= stack);
    } else {
        let front = fs.drop_last();
        assert forall|i: int| 0 <= i < front.len() implies representable((#[trigger] front[i]).key) by {
            assert(front[i] == fs[i]);
        }
        lemma_bind_all(stack, front);
        let s = bind_all_model(stack, front).0;
        assert(representable(fs[fs.len() - 1].key));
        assert((stack.last()->Table_0 + front).push(fs.last()) =~= stack.last()->Table_0 + fs);
        assert(bind_model(s, fs.last()) =~= stack.update(
            stack.len() - 1,
            ValueModel::Table(stack.last()->Table_0 + fs),
        ));
    }
}

/// The keys of the module's functions are representable.
pub proof fn lemma_module_keys_representable()
    ensures
        forall|i: int|
            0 <= i < basic_fields().len() ==> representable((#[trigger] basic_fields()[i]).key),
        forall|i: int|
            0 <= i < extra_fields().len() ==> representable((#[trigger] extra_fields()[i]).key),
        forall|i: int|
            0 <= i < plugin_fields().len() ==> representable((#[trigger] plugin_fields()[i]).key),
        forall|i: int|
            0 <= i < interop_fields().len() ==> representable(
                (#[trigger] interop_fields()[i]).key,
            ),
        representable("rns"@),
{
    reveal_strlit("load_config");
    reveal_strlit("opt");
    reveal_strlit("map");
    reveal_strlit("g");
    reveal_strlit("autocmd");
    reveal_strlit("exec_lua");
    reveal_strlit("register_plugin");
    reveal_strlit("configure_plugin");
    reveal_strlit("install_plugins");
    reveal_strlit("update_plugins");
    reveal_strlit("load_configs");
    reveal_strlit("set_option_bool");
    reveal_strlit("create_keymap");
    reveal_strlit("rns");
}

fn bind(lua: &mut Lua, key: &str, f: Binding) -> (r: Result<(), Error>)
    ensures
        can_bind(old(lua)@, key@) ==> r is Ok,
        !can_bind(old(lua)@, key@) ==> r == Err::<(), Error>(Error::InvalidInput),
        final(lua)@ == bind_model(old(lua)@, FieldModel { key: key@, value: f }),
{
    lua.push_cclosure(f, 0);
    assert(lua@ =~= old(lua)@.push(ValueModel::Function(f)));
    let r = lua.set_field(-2, key);
    assert(lua@ =~= bind_model(old(lua)@, FieldModel { key: key@, value: f }));
    r
}

/// Binds the functions for autocommands and scripts to the table on top of
/// the stack. Fails with `InvalidInput` at the first that cannot be bound.
pub fn register_extra_lua_functions(lua: &mut Lua) -> (r: Result<(), Error>)
    ensures
        (final(lua)@, r is Ok) == bind_all_model(old(lua)@, extra_fields()),
        r is Err ==> r == Err::<(), Error>(Error::InvalidInput),
{
    proof {
        reveal_with_fuel(bind_all_model, 3);
        assert(extra_fields().drop_last() =~= seq![extra_fields()[0]]);
        assert(extra_fields().drop_last().drop_last() =~= Seq::<FieldModel>::empty());
    }
    bind(lua, "autocmd", Binding::Autocmd)?;
    bind(lua, "exec_lua", Binding::ExecLua)?;
    Ok(())
}

/// Binds the functions of the plugin manager to the table on top of the
/// stack. Fails with `InvalidInput` at the first that cannot be bound.
pub fn register_plugin_functions(lua: &mut Lua) -> (r: Result<(), Error>)
    ensures
        (final(lua)@, r is Ok) == bind_all_model(old(lua)@, plugin_fields()),
        r is Err ==> r == Err::<(), Error>(Error::InvalidInput),
{
    proof {
        reveal_with_fuel(bind_all_model, 6);
        let f = plugin_fields();
        assert(f.drop_last() =~= seq![f[0], f[1], f[2], f[3]]);
        assert(f.drop_last().drop_last() =~= seq![f[0], f[1], f[2]]);
        assert(f.drop_last().drop_last().drop_last() =~= seq![f[0], f[1]]);
        assert(f.drop_last().drop_last().drop_last().drop_last() =~= seq![f[0]]);
        assert(f.drop_last().drop_last().drop_last().drop_last().drop_last() =~= Seq::<
            FieldModel,
        >::empty());
    }
    bind(lua, "register_plugin", Binding::RegisterPlugin)?;
    bind(lua, "configure_plugin", Binding::ConfigurePlugin)?;
    bind(lua, "install_plugins", Binding::InstallPlugins)?;
    bind(lua, "update_plugins", Binding::UpdatePlugins)?;
    bind(lua, "load_configs", Binding::LoadConfigs)?;
    Ok(())
}

/// Binds the functions for options and mappings to the table on top of the
/// stack. Fails with `InvalidInput` at the first that cannot be bound.
pub fn register_nvim_interop_functions(lua: &mut Lua) -> (r: Result<(), Error>)
    ensures
        (final(lua)@, r is Ok) == bind_all_model(old(lua)@, interop_fields()),
        r is Err ==> r == Err::<(), Error>(Error::InvalidInput),
{
    proof {
        reveal_with_fuel(bind_all_model, 3);
        assert(interop_fields().drop_last() =~= seq![interop_fields()[0]]);
        assert(interop_fields().drop_last().drop_last() =~= Seq::<FieldModel>::empty());
    }
    bind(lua, "set_option_bool", Binding::SetOptionBool)?;
    bind(lua, "create_keymap", Binding::CreateKeymap)?;
    Ok(())
}

/// Opens the module: puts a table on top of the stack that holds every
/// function of the module, and returns 1, the number of values it leaves for
/// the engine.
pub fn luaopen_init(lua: &mut Lua) -> (r: i32)
    ensures
        r == 1,
        final(lua)@ == old(lua)@.push(ValueModel::Table(module_fields())),
{
    lua.create_table(0, 0);
    let ghost opened = lua@;
    proof {
        lemma_module_keys_representable();
        lemma_bind_all(opened, basic_fields());
        reveal_with_fuel(bind_all_model, 5);
        let f = basic_fields();
        assert(f.drop_last() =~= seq![f[0], f[1], f[2]]);
        assert(f.drop_last().drop_last() =~= seq![f[0], f[1]]);
        assert(f.drop_last().drop_last().drop_last() =~= seq![f[0]]);
        assert(f.drop_last().drop_last().drop_last().drop_last() =~= Seq::<FieldModel>::empty());
    }
    if bind(lua, "load_config", Binding::LoadConfig).is_err() {
        return 0;
    }
    if bind(lua, "opt", Binding::Opt).is_err() {
        return 0;
    }
    if bind(lua, "map", Binding::Mapping).is_err() {
        return 0;
    }
    if bind(lua, "g", Binding::Global).is_err() {
        return 0;
    }
    let ghost basic = lua@;
    assert(basic == bind_all_model(opened, basic_fields()).0);
    proof {
        lemma_bind_all(basic, extra_fields());
    }
    if register_extra_lua_functions(lua).is_err() {
        return 0;
    }
    let ghost extra = lua@;
    proof {
        lemma_bind_all(extra, plugin_fields());
    }
    if register_plugin_functions(lua).is_err() {
        return 0;
    }
    let ghost plugins = lua@;
    proof {
        lemma_bind_all(plugins, interop_fields());
    }
    if register_nvim_interop_functions(lua).is_err() {
        return 0;
    }
    if bind(lua, "rns", Binding::Init).is_err() {
        return 0;
    }
    assert(lua@ =~= old(lua)@.push(ValueModel::Table(module_fields()))) by {
        assert(lua@[lua@.len() - 1]->Table_0 =~= module_fields());
    }
    1
}

/// `r` is the command composed from one text argument, or `InvalidInput` if
/// the argument is missing.
pub open spec fn composed1(
    r: Result<String, Error>,
    a: Option<Seq<char>>,
    text: spec_fn(Seq<char>) -> Seq<char>,
) -> bool {
    match a {
        Some(a) => is_checked(r, text(a)),
        None => r matches Err(e) && e == Error::InvalidInput,
    }
}

/// `r` is the command composed from two text arguments, or `InvalidInput` if
/// one of them is missing.
pub open spec fn composed2(
    r: Result<String, Error>,
    a: Option<Seq<char>>,
    b: Option<Seq<char>>,
    text: spec_fn(Seq<char>, Seq<char>) -> Seq<char>,
) -> bool {
    match (a, b) {
        (Some(a), Some(b)) => is_checked(r, text(a, b)),
        _ => r matches Err(e) && e == Error::InvalidInput,
    }
}

/// `r` is the command composed from three text arguments, or `InvalidInput`
/// if one of them is missing.
pub open spec fn composed3(
    r: Result<String, Error>,
    a: Option<Seq<char>>,
    b: Option<Seq<char>>,
    c: Option<Seq<char>>,
    text: spec_fn(Seq<char>, Seq<char>, Seq<char>) -> Seq<char>,
) -> bool {
    match (a, b, c) {
        (Some(a), Some(b), Some(c)) => is_checked(r, text(a, b, c)),
        _ => r matches Err(e) && e == Error::InvalidInput,
    }
}

/// The module's `load_config`: the command that runs the script file named
/// by the first argument.
pub fn lua_load_config(lua: &Lua) -> (r: Result<String, Error>)
    ensures
        composed1(r, text_arg(lua@, 1), |path: Seq<char>| load_config_text(path)),
{
    let path = lua.check_string(1)?;
    load_config_command(path.as_str())
}

/// The module's `opt`: the command that sets the option named by the first
/// argument to the second argument, a comma and the third.
pub fn lua_opt(lua: &Lua) -> (r: Result<String, Error>)
    ensures
        composed3(
            r,
            text_arg(lua@, 1),
            text_arg(lua@, 2),
            text_arg(lua@, 3),
            |key: Seq<char>, old_val: Seq<char>, new_val: Seq<char>| opt_text(key, old_val, new_val),
        ),
{
    let key = lua.check_string(1)?;
    let old_val = lua.check_string(2)?;
    let new_val = lua.check_string(3)?;
    opt(key.as_str(), old_val.as_str(), new_val.as_str())
}

/// The module's `map`: the command that maps the second argument to the third
/// in the mode named by the first.
pub fn lua_map(lua: &Lua) -> (r: Result<String, Error>)
    ensures
        composed3(
            r,
            text_arg(lua@, 1),
            text_arg(lua@, 2),
            text_arg(lua@, 3),
            |mode: Seq<char>, lhs: Seq<char>, rhs: Seq<char>| map_text(mode, lhs, rhs),
        ),
{
    let mode = lua.check_string(1)?;
    let lhs = lua.check_string(2)?;
    let rhs = lua.check_string(3)?;
    map_command(mode.as_str(), lhs.as_str(), rhs.as_str())
}

/// The module's `g`: the command that sets the global variable named by the
/// first argument to the second.
pub fn lua_g(lua: &Lua) -> (r: Result<String, Error>)
    ensures
        composed2(
            r,
            text_arg(lua@, 1),
            text_arg(lua@, 2),
            |key: Seq<char>, val: Seq<char>| global_text(key, val),
        ),
{
    let key = lua.check_string(1)?;
    let val = lua.check_string(2)?;
    global_command(key.as_str(), val.as_str())
}

/// The module's `autocmd`: the command that defines an autocommand from the
/// event, the pattern and the command in the first three arguments.
pub fn lua_autocmd(lua: &Lua) -> (r: Result<String, Error>)
    ensures
        composed3(
            r,
            text_arg(lua@, 1),
            text_arg(lua@, 2),
            text_arg(lua@, 3),
            |event: Seq<char>, pattern: Seq<char>, command: Seq<char>|
                autocmd_text(event, pattern, command),
        ),
{
    let event = lua.check_string(1)?;
    let pattern = lua.check_string(2)?;
    let command = lua.check_string(3)?;
    autocmd(event.as_str(), pattern.as_str(), command.as_str())
}

/// The module's `exec_lua`: the command that runs the first argument as a
/// script.
pub fn lua_exec(lua: &Lua) -> (r: Result<String, Error>)
    ensures
        composed1(r, text_arg(lua@, 1), |code: Seq<char>| exec_lua_text(code)),
{
    let code = lua.check_string(1)?;
    exec_lua(code.as_str())
}

/// The module's `set_option_bool`: the command that switches the option named
/// by the first argument on if the second counts as true, and off if not.
pub fn lua_nvim_set_option_bool(lua: &Lua) -> (r: Result<String, Error>)
    ensures
        composed1(
            r,
            text_arg(lua@, 1),
            |name: Seq<char>| option_bool_text(name, truthy_arg(lua@, 2)),
        ),
{
    let name = lua.check_string(1)?;
    let value: i32 = if lua.to_boolean(2) {
        1
    } else {
        0
    };
    nvim_set_option_bool(name.as_str(), value)
}

/// The module's `create_keymap`: the command that maps the second argument to
/// the third in the mode named by the first. A fourth argument is accepted
/// and not used.
pub fn lua_nvim_create_keymap(lua: &Lua) -> (r: Result<String, Error>)
    ensures
        composed3(
            r,
            text_arg(lua@, 1),
            text_arg(lua@, 2),
            text_arg(lua@, 3),
            |mode: Seq<char>, lhs: Seq<char>, rhs: Seq<char>| map_text(mode, lhs, rhs),
        ),
{
    let mode = lua.check_string(1)?;
    let lhs = lua.check_string(2)?;
    let rhs = lua.check_string(3)?;
    match lua.check_string(4) {
        Ok(opts) => nvim_create_keymap(
            mode.as_str(),
            lhs.as_str(),
            rhs.as_str(),
            Some(opts.as_str()),
        ),
        Err(_) => nvim_create_keymap(mode.as_str(), lhs.as_str(), rhs.as_str(), None),
    }
}

/// The module's `register_plugin`: registers the plugin named by the first
/// argument with the address in the second. Fails with `InvalidInput`,
/// changing nothing, if one of them is missing.
pub fn lua_register_plugin(lua: &Lua, manager: &mut PluginManager) -> (r: Result<String, Error>)
    requires
        old(manager).wf(),
    ensures
        final(manager).wf(),
        match (text_arg(lua@, 1), text_arg(lua@, 2)) {
            (Some(name), Some(url)) => register_plugin_post(
                old(manager)@,
                name,
                url,
                r,
                final(manager)@,
            ),
            _ => (r matches Err(e) && e == Error::InvalidInput) && final(manager)@ == old(manager)@,
        },
{
    let name = lua.check_string(1)?;
    let url = lua.check_string(2)?;
    register_plugin(manager, name.as_str(), url.as_str())
}

/// The module's `configure_plugin`: replaces the configuration of the plugin
/// named by the first argument by the second. Fails with `InvalidInput`,
/// changing nothing, if one of them is missing.
pub fn lua_configure_plugin(lua: &Lua, manager: &mut PluginManager) -> (r: Result<String, Error>)
    requires
        old(manager).wf(),
    ensures
        final(manager).wf(),
        match (text_arg(lua@, 1), text_arg(lua@, 2)) {
            (Some(name), Some(config)) => configure_plugin_post(
                old(manager)@,
                name,
                config,
                r,
                final(manager)@,
            ),
            _ => (r matches Err(e) && e == Error::InvalidInput) && final(manager)@ == old(manager)@,
        },
{
    let name = lua.check_string(1)?;
    let config = lua.check_string(2)?;
    configure_plugin(manager, name.as_str(), config.as_str())
}

} // verus!
