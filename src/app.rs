//! The operations on the configuration document's `mcpServers` table:
//! install, uninstall, the installed check, the per-app environment, and the
//! status report.
//!
//! Each operation works on a document that the caller has loaded and, where
//! the operation reports a change, will persist. Where an operation fails, the
//! document is left exactly as it was.
use crate::json::{
    as_object_view, as_str_view, is_str_array, member, obj_contains, obj_get, obj_insert, obj_take,
    obj_view, JsonValue,
};
use crate::registry::{configs_view, find_app, lookup_app, strings_view, AppConfigView};
use crate::text::concat_text;
use vstd::prelude::*;
use vstd::string::*;

pub use crate::registry::{get_app_configs, AppConfig};

verus! {

/// Why an operation on an app's configuration did not go through.
#[derive(Clone, Copy, Debug, PartialEq, Eq, Structural)]
pub enum AppError {
    /// The registry has no app of that name.
    NoConfiguration,
    /// The document has no `mcpServers` object.
    MissingServers,
    /// The app has no entry (or no usable `env`) in `mcpServers`.
    NotInstalled,
    /// The environment values given are not a JSON object.
    InvalidEnvFormat,
}

/// What `install` did.
#[derive(Debug)]
pub enum InstallOutcome {
    /// The entry under `mcp_key` was written.
    Added { mcp_key: String },
    /// The registry has no app of that name: nothing to do.
    NoConfiguration,
}

/// What `uninstall` did.
#[derive(Debug)]
pub enum UninstallOutcome {
    /// The entry under `mcp_key` was removed.
    Removed { mcp_key: String },
    /// The app is known but its entry was absent.
    NotFound,
    /// The registry has no app of that name: nothing to do.
    NoConfiguration,
}

/// The server table of a document, where it has one.
pub open spec fn servers_view(doc: JsonValue) -> Option<Map<Seq<char>, JsonValue>> {
    match member(doc, "mcpServers"@) {
        Some(s) => as_object_view(s),
        None => None,
    }
}

/// The top-level members of a document other than the server table.
pub open spec fn others_view(doc: JsonValue) -> Map<Seq<char>, JsonValue> {
    match as_object_view(doc) {
        Some(m) => m.remove("mcpServers"@),
        None => Map::empty(),
    }
}

/// `new_doc` differs from `old_doc` only in its server table, which is `servers`.
pub open spec fn servers_replaced(
    old_doc: JsonValue,
    new_doc: JsonValue,
    servers: Map<Seq<char>, JsonValue>,
) -> bool {
    &&& servers_view(new_doc) == Some(servers)
    &&& others_view(new_doc) == others_view(old_doc)
}

/// `e` is a server entry `{command, args, env?}` with exactly these parts.
pub open spec fn describes_entry(
    e: JsonValue,
    command: Seq<char>,
    args: Seq<Seq<char>>,
    env: Option<JsonValue>,
) -> bool {
    match as_object_view(e) {
        Some(m) => {
            &&& m.contains_key("command"@)
            &&& as_str_view(m["command"@]) == Some(command)
            &&& m.contains_key("args"@)
            &&& is_str_array(m["args"@], args)
            &&& match env {
                Some(v) => m.dom() == set!["command"@, "args"@, "env"@] && m["env"@] == v,
                None => m.dom() == set!["command"@, "args"@],
            }
        },
        None => false,
    }
}

/// What `install` does to a document.
pub open spec fn install_post(
    old_doc: JsonValue,
    new_doc: JsonValue,
    configs: Seq<(Seq<char>, AppConfigView)>,
    name: Seq<char>,
    env: Option<JsonValue>,
    r: Result<InstallOutcome, AppError>,
) -> bool {
    match lookup_app(configs, name) {
        None => r is Ok && r->Ok_0 is NoConfiguration && new_doc == old_doc,
        Some(c) => match servers_view(old_doc) {
            None => r == Err::<InstallOutcome, AppError>(AppError::MissingServers) && new_doc
                == old_doc,
            Some(s) => {
                let ns = servers_view(new_doc)->0;
                &&& r is Ok && r->Ok_0 is Added && r->Ok_0->Added_mcp_key@ == c.mcp_key
                &&& servers_replaced(old_doc, new_doc, s.insert(c.mcp_key, ns[c.mcp_key]))
                &&& describes_entry(ns[c.mcp_key], c.command, c.args, env)
            },
        },
    }
}

/// What `uninstall` does to a document.
pub open spec fn uninstall_post(
    old_doc: JsonValue,
    new_doc: JsonValue,
    configs: Seq<(Seq<char>, AppConfigView)>,
    name: Seq<char>,
    r: Result<UninstallOutcome, AppError>,
) -> bool {
    match lookup_app(configs, name) {
        None => r is Ok && r->Ok_0 is NoConfiguration && new_doc == old_doc,
        Some(c) => match servers_view(old_doc) {
            None => r == Err::<UninstallOutcome, AppError>(AppError::MissingServers) && new_doc
                == old_doc,
            Some(s) => if s.contains_key(c.mcp_key) {
                &&& r is Ok && r->Ok_0 is Removed && r->Ok_0->Removed_mcp_key@ == c.mcp_key
                &&& servers_replaced(old_doc, new_doc, s.remove(c.mcp_key))
            } else {
                r is Ok && r->Ok_0 is NotFound && new_doc == old_doc
            },
        },
    }
}

/// Whether the app named `name` has an entry in the document.
pub open spec fn installed_spec(
    doc: JsonValue,
    configs: Seq<(Seq<char>, AppConfigView)>,
    name: Seq<char>,
) -> bool {
    match lookup_app(configs, name) {
        None => false,
        Some(c) => match servers_view(doc) {
            Some(s) => s.contains_key(c.mcp_key),
            None => false,
        },
    }
}

/// The environment map of a server entry: empty where it has none, `None`
/// where the entry is no object or its `env` is no object.
pub open spec fn entry_env_view(entry: JsonValue) -> Option<Map<Seq<char>, JsonValue>> {
    match as_object_view(entry) {
        None => None,
        Some(m) => if m.contains_key("env"@) {
            as_object_view(m["env"@])
        } else {
            Some(Map::empty())
        },
    }
}

/// The environment map of an installed app, where it has a usable one.
pub open spec fn app_env_view(
    doc: JsonValue,
    configs: Seq<(Seq<char>, AppConfigView)>,
    name: Seq<char>,
) -> Option<Map<Seq<char>, JsonValue>> {
    match lookup_app(configs, name) {
        None => None,
        Some(c) => match servers_view(doc) {
            Some(s) => if s.contains_key(c.mcp_key) {
                entry_env_view(s[c.mcp_key])
            } else {
                None
            },
            None => None,
        },
    }
}

/// The error that `save_app_env` gives, if any.
pub open spec fn save_env_error(
    doc: JsonValue,
    configs: Seq<(Seq<char>, AppConfigView)>,
    name: Seq<char>,
    values: JsonValue,
) -> Option<AppError> {
    match lookup_app(configs, name) {
        None => Some(AppError::NoConfiguration),
        Some(c) => match servers_view(doc) {
            None => Some(AppError::MissingServers),
            Some(s) => if !s.contains_key(c.mcp_key) || entry_env_view(s[c.mcp_key]) is None {
                Some(AppError::NotInstalled)
            } else if as_object_view(values) is None {
                Some(AppError::InvalidEnvFormat)
            } else {
                None
            },
        },
    }
}

/// What `save_app_env` does to a document.
pub open spec fn save_env_post(
    old_doc: JsonValue,
    new_doc: JsonValue,
    configs: Seq<(Seq<char>, AppConfigView)>,
    name: Seq<char>,
    values: JsonValue,
    r: Result<(), AppError>,
) -> bool {
    match save_env_error(old_doc, configs, name, values) {
        Some(e) => r == Err::<(), AppError>(e) && new_doc == old_doc,
        None => {
            let key = lookup_app(configs, name)->0.mcp_key;
            let s = servers_view(old_doc)->0;
            let ns = servers_view(new_doc)->0;
            &&& r is Ok
            &&& servers_replaced(old_doc, new_doc, s.insert(key, ns[key]))
            &&& as_object_view(ns[key]) is Some
            &&& as_object_view(ns[key])->0.contains_key("env"@)
            &&& as_object_view(ns[key])->0.remove("env"@) == as_object_view(s[key])->0.remove(
                "env"@,
            )
            &&& entry_env_view(ns[key]) == Some(
                entry_env_view(s[key])->0.union_prefer_right(as_object_view(values)->0),
            )
        },
    }
}

/// What `get_app_env` answers for a document: the error, or the entry's `env`
/// member as it stands (`None` where the entry has none).
pub open spec fn get_env_spec(
    doc: JsonValue,
    configs: Seq<(Seq<char>, AppConfigView)>,
    name: Seq<char>,
) -> Result<Option<JsonValue>, AppError> {
    match lookup_app(configs, name) {
        None => Err(AppError::NoConfiguration),
        Some(c) => match servers_view(doc) {
            None => Err(AppError::MissingServers),
            Some(s) => if s.contains_key(c.mcp_key) && as_object_view(s[c.mcp_key]) is Some {
                Ok(member(s[c.mcp_key], "env"@))
            } else {
                Err(AppError::NotInstalled)
            },
        },
    }
}

/// The server table of a document, for reading.
pub fn servers_ref(doc: &JsonValue) -> (r: Option<&Vec<(String, JsonValue)>>)
    ensures
        r is Some <==> servers_view(*doc) is Some,
        r is Some ==> servers_view(*doc) == Some(obj_view(r->0@)),
{
    match doc {
        JsonValue::Object(fields) => match obj_get(fields, "mcpServers") {
            Some(JsonValue::Object(servers)) => Some(servers),
            _ => None,
        },
        _ => None,
    }
}

/// Take the server table out of a document that has one.
fn take_servers(doc: &mut JsonValue) -> (r: Vec<(String, JsonValue)>)
    requires
        servers_view(*old(doc)) is Some,
    ensures
        servers_view(*old(doc)) == Some(obj_view(r@)),
        *final(doc) is Object,
        as_object_view(*final(doc)) == Some(others_view(*old(doc))),
{
    match doc {
        JsonValue::Object(fields) => match obj_take(fields, "mcpServers") {
            Some(JsonValue::Object(servers)) => servers,
            _ => Vec::new(),
        },
        _ => Vec::new(),
    }
}

/// Put a server table back into a document taken apart by `take_servers`.
fn put_servers(doc: &mut JsonValue, servers: Vec<(String, JsonValue)>)
    requires
        *old(doc) is Object,
    ensures
        servers_view(*final(doc)) == Some(obj_view(servers@)),
        others_view(*final(doc)) == as_object_view(*old(doc))->0.remove("mcpServers"@),
{
    let ghost sv = JsonValue::Object(servers);
    match doc {
        JsonValue::Object(fields) => {
            obj_insert(fields, "mcpServers".to_owned(), JsonValue::Object(servers));
            assert(obj_view(fields@).remove("mcpServers"@) =~= obj_view(old(doc)->Object_0@).remove(
                "mcpServers"@,
            ).insert("mcpServers"@, sv).remove("mcpServers"@));
        },
        _ => {},
    }
    assert(obj_view(old(doc)->Object_0@).insert("mcpServers"@, sv).remove("mcpServers"@)
        =~= obj_view(old(doc)->Object_0@).remove("mcpServers"@));
}

/// The server entry `{command, args, env?}` for an app.
pub fn server_entry(command: &String, args: &Vec<String>, env: Option<JsonValue>) -> (r: JsonValue)
    ensures
        describes_entry(r, command@, strings_view(args@), env),
{
    let mut items: Vec<JsonValue> = Vec::new();
    let mut i: usize = 0;
    while i < args.len()
        invariant
            i <= args@.len(),
            items@.len() == i,
            forall|j: int| 0 <= j < i ==> #[trigger] as_str_view(items@[j]) == Some(args@[j]@),
        decreases args@.len() - i,
    {
        items.push(JsonValue::Str(args[i].clone()));
        i = i + 1;
    }
    let ghost arr = JsonValue::Array(items);
    assert(is_str_array(arr, strings_view(args@)));
    let cmd_text = command.clone();
    let ghost cmd = JsonValue::Str(cmd_text);
    let mut fields: Vec<(String, JsonValue)> = Vec::new();
    assert(obj_view(fields@) =~= Map::empty());
    let command_key = "command".to_owned();
    let args_key = "args".to_owned();
    let env_key = "env".to_owned();
    proof {
        reveal_strlit("command");
        reveal_strlit("args");
        reveal_strlit("env");
    }
    let ghost (ck, ak, ek) = (command_key@, args_key@, env_key@);
    obj_insert(&mut fields, command_key, JsonValue::Str(cmd_text));
    obj_insert(&mut fields, args_key, JsonValue::Array(items));
    let ghost two = Map::<Seq<char>, JsonValue>::empty().insert(ck, cmd).insert(ak, arr);
    assert(obj_view(fields@) == two);
    assert(ck.len() != ak.len() && ck.len() != ek.len() && ak.len() != ek.len());
    assert(two[ck] == cmd && two[ak] == arr);
    match env {
        Some(v) => {
            obj_insert(&mut fields, env_key, v);
            assert(obj_view(fields@) == two.insert(ek, v));
            assert(obj_view(fields@).dom() =~= set!["command"@, "args"@, "env"@]);
        },
        None => {
            assert(obj_view(fields@).dom() =~= set!["command"@, "args"@]);
        },
    }
    JsonValue::Object(fields)
}

/// Register the app named `app_name` under its `mcpKey`, replacing any entry
/// that was there. An app the registry does not know is no error: nothing is
/// done.
pub fn install(
    doc: &mut JsonValue,
    configs: &Vec<(String, AppConfig)>,
    app_name: &str,
    env_vars: Option<JsonValue>,
) -> (r: Result<InstallOutcome, AppError>)
    ensures
        install_post(*old(doc), *final(doc), configs_view(configs@), app_name@, env_vars, r),
{
    let i = match find_app(configs, app_name) {
        Some(i) => i,
        None => {
            return Ok(InstallOutcome::NoConfiguration);
        },
    };
    let config = &configs[i].1;
    if servers_ref(doc).is_none() {
        return Err(AppError::MissingServers);
    }
    let entry = server_entry(&config.command, &config.args, env_vars);
    let ghost e = entry;
    let mut servers = take_servers(doc);
    let ghost s = obj_view(servers@);
    obj_insert(&mut servers, config.mcp_key.clone(), entry);
    put_servers(doc, servers);
    proof {
        assert(s.insert(config.mcp_key@, e) == s.insert(config.mcp_key@, e).insert(
            config.mcp_key@,
            e,
        ));
        assert(others_view(*old(doc)).remove("mcpServers"@) =~= others_view(*old(doc)));
    }
    Ok(InstallOutcome::Added { mcp_key: config.mcp_key.clone() })
}

/// Remove the entry of the app named `app_name`. An unknown app, or a known
/// one without an entry, is no error.
pub fn uninstall(doc: &mut JsonValue, configs: &Vec<(String, AppConfig)>, app_name: &str) -> (r:
    Result<UninstallOutcome, AppError>)
    ensures
        uninstall_post(*old(doc), *final(doc), configs_view(configs@), app_name@, r),
{
    let i = match find_app(configs, app_name) {
        Some(i) => i,
        None => {
            return Ok(UninstallOutcome::NoConfiguration);
        },
    };
    let config = &configs[i].1;
    match servers_ref(doc) {
        None => {
            return Err(AppError::MissingServers);
        },
        Some(servers) => {
            if !obj_contains(servers, config.mcp_key.as_str()) {
                return Ok(UninstallOutcome::NotFound);
            }
        },
    }
    let mut servers = take_servers(doc);
    let _ = obj_take(&mut servers, config.mcp_key.as_str());
    put_servers(doc, servers);
    assert(others_view(*old(doc)).remove("mcpServers"@) =~= others_view(*old(doc)));
    Ok(UninstallOutcome::Removed { mcp_key: config.mcp_key.clone() })
}

/// Whether the app named `app_name` has an entry; an unknown app has none.
pub fn is_installed(doc: &JsonValue, configs: &Vec<(String, AppConfig)>, app_name: &str) -> (r:
    bool)
    ensures
        r == installed_spec(*doc, configs_view(configs@), app_name@),
{
    match find_app(configs, app_name) {
        None => false,
        Some(i) => match servers_ref(doc) {
            Some(servers) => obj_contains(servers, configs[i].1.mcp_key.as_str()),
            None => false,
        },
    }
}

/// Merge the members of `values` into `env`, later ones replacing earlier ones.
fn merge_members(env: &mut Vec<(String, JsonValue)>, values: Vec<(String, JsonValue)>)
    ensures
        obj_view(final(env)@) == obj_view(old(env)@).union_prefer_right(obj_view(values@)),
{
    let ghost orig = values@;
    let ghost base = obj_view(env@);
    let mut rest = values;
    let ghost mut n: int = 0;
    assert(orig.take(0) =~= Seq::<(String, JsonValue)>::empty());
    assert(base.union_prefer_right(obj_view(orig.take(0))) =~= base);
    while rest.len() > 0
        invariant
            0 <= n <= orig.len(),
            rest@ == orig.skip(n),
            obj_view(env@) == base.union_prefer_right(obj_view(orig.take(n))),
        decreases rest@.len(),
    {
        let (k, v) = rest.remove(0);
        proof {
            assert(orig.take(n + 1).drop_last() =~= orig.take(n));
            assert(orig.take(n + 1).last() == orig[n]);
            assert(orig.skip(n + 1) =~= orig.skip(n).remove(0));
            assert(base.union_prefer_right(obj_view(orig.take(n))).insert(k@, v)
                =~= base.union_prefer_right(obj_view(orig.take(n)).insert(k@, v)));
            n = n + 1;
        }
        obj_insert(env, k, v);
    }
    assert(orig.take(n) =~= orig);
}

/// Whether a server entry is an object whose `env`, if any, is an object.
fn entry_env_usable(entry: &JsonValue) -> (r: bool)
    ensures
        r == (entry_env_view(*entry) is Some),
{
    match entry {
        JsonValue::Object(fields) => match obj_get(fields, "env") {
            None => true,
            Some(JsonValue::Object(_)) => true,
            Some(_) => false,
        },
        _ => false,
    }
}

/// Add the members of `env_values` to the `env` of an installed app, keeping
/// the members already there unless `env_values` gives them anew.
pub fn save_app_env(
    doc: &mut JsonValue,
    configs: &Vec<(String, AppConfig)>,
    app_name: &str,
    env_values: JsonValue,
) -> (r: Result<(), AppError>)
    ensures
        save_env_post(*old(doc), *final(doc), configs_view(configs@), app_name@, env_values, r),
{
    let i = match find_app(configs, app_name) {
        Some(i) => i,
        None => {
            return Err(AppError::NoConfiguration);
        },
    };
    let key = &configs[i].1.mcp_key;
    match servers_ref(doc) {
        None => {
            return Err(AppError::MissingServers);
        },
        Some(servers) => match obj_get(servers, key.as_str()) {
            None => {
                return Err(AppError::NotInstalled);
            },
            Some(entry) => {
                if !entry_env_usable(entry) {
                    return Err(AppError::NotInstalled);
                }
            },
        },
    }
    let values = match env_values {
        JsonValue::Object(values) => values,
        _ => {
            return Err(AppError::InvalidEnvFormat);
        },
    };
    let ghost vals = obj_view(values@);
    let mut servers = take_servers(doc);
    let ghost s = obj_view(servers@);
    let mut entry_fields = match obj_take(&mut servers, key.as_str()) {
        Some(JsonValue::Object(f)) => f,
        _ => Vec::new(),
    };
    let ghost em = obj_view(entry_fields@);
    let mut env = match obj_take(&mut entry_fields, "env") {
        Some(JsonValue::Object(f)) => f,
        _ => Vec::new(),
    };
    assert(obj_view(env@) == entry_env_view(JsonValue::Object(
        s[key@]->Object_0,
    ))->0) by {
        if !em.contains_key("env"@) {
            assert(obj_view(env@) =~= Map::empty());
        }
    }
    merge_members(&mut env, values);
    let ghost new_env = JsonValue::Object(env);
    obj_insert(&mut entry_fields, "env".to_owned(), JsonValue::Object(env));
    let ghost new_entry = JsonValue::Object(entry_fields);
    obj_insert(&mut servers, key.clone(), JsonValue::Object(entry_fields));
    put_servers(doc, servers);
    proof {
        assert(s.remove(key@).insert(key@, new_entry) =~= s.insert(key@, new_entry));
        assert(others_view(*old(doc)).remove("mcpServers"@) =~= others_view(*old(doc)));
        assert(em.remove("env"@).insert("env"@, new_env).remove("env"@) =~= em.remove("env"@));
    }
    Ok(())
}

/// The `env` member of an installed app's entry as it stands, `None` where
/// the entry has none yet (which reads as the empty map).
pub fn get_app_env<'a>(doc: &'a JsonValue, configs: &Vec<(String, AppConfig)>, app_name: &str) -> (r:
    Result<Option<&'a JsonValue>, AppError>)
    ensures
        match r {
            Ok(Some(v)) => get_env_spec(*doc, configs_view(configs@), app_name@) == Ok::<
                Option<JsonValue>,
                AppError,
            >(Some(*v)),
            Ok(None) => get_env_spec(*doc, configs_view(configs@), app_name@) == Ok::<
                Option<JsonValue>,
                AppError,
            >(None),
            Err(e) => get_env_spec(*doc, configs_view(configs@), app_name@) == Err::<
                Option<JsonValue>,
                AppError,
            >(e),
        },
{
    let i = match find_app(configs, app_name) {
        Some(i) => i,
        None => {
            return Err(AppError::NoConfiguration);
        },
    };
    match servers_ref(doc) {
        None => Err(AppError::MissingServers),
        Some(servers) => match obj_get(servers, configs[i].1.mcp_key.as_str()) {
            Some(JsonValue::Object(fields)) => Ok(obj_get(fields, "env")),
            _ => Err(AppError::NotInstalled),
        },
    }
}

/// The installed and configured flags of every registered app, in registry order.
pub struct AppStatuses {
    pub installed: Vec<(String, bool)>,
    pub configured: Vec<(String, bool)>,
}

/// Report, for each registered app, whether it has an entry and whether its
/// command is non-empty. A document without a server table reports nothing.
pub fn get_app_statuses(doc: &JsonValue, configs: &Vec<(String, AppConfig)>) -> (r: AppStatuses)
    ensures
        servers_view(*doc) is None ==> r.installed@.len() == 0 && r.configured@.len() == 0,
        servers_view(*doc) is Some ==> {
            &&& r.installed@.len() == configs@.len()
            &&& r.configured@.len() == configs@.len()
            &&& forall|i: int|
                0 <= i < configs@.len() ==> {
                    &&& (#[trigger] r.installed@[i]).0@ == configs@[i].0@
                    &&& r.installed@[i].1 == servers_view(*doc)->0.contains_key(
                        configs@[i].1.mcp_key@,
                    )
                    &&& r.configured@[i].0@ == configs@[i].0@
                    &&& r.configured@[i].1 == (configs@[i].1.command@.len() > 0)
                }
        },
{
    let mut installed: Vec<(String, bool)> = Vec::new();
    let mut configured: Vec<(String, bool)> = Vec::new();
    let servers = match servers_ref(doc) {
        Some(s) => s,
        None => {
            return AppStatuses { installed, configured };
        },
    };
    let mut i: usize = 0;
    while i < configs.len()
        invariant
            i <= configs@.len(),
            servers_view(*doc) == Some(obj_view(servers@)),
            installed@.len() == i,
            configured@.len() == i,
            forall|j: int|
                0 <= j < i ==> {
                    &&& (#[trigger] installed@[j]).0@ == configs@[j].0@
                    &&& installed@[j].1 == obj_view(servers@).contains_key(configs@[j].1.mcp_key@)
                    &&& configured@[j].0@ == configs@[j].0@
                    &&& configured@[j].1 == (configs@[j].1.command@.len() > 0)
                },
        decreases configs@.len() - i,
    {
        let name = &configs[i].0;
        let config = &configs[i].1;
        let present = obj_contains(servers, config.mcp_key.as_str());
        let nonempty = config.command.as_str().unicode_len() > 0;
        let ghost (before_installed, before_configured) = (installed@, configured@);
        installed.push((name.clone(), present));
        configured.push((name.clone(), nonempty));
        assert forall|j: int| 0 <= j < i + 1 implies {
            &&& (#[trigger] installed@[j]).0@ == configs@[j].0@
            &&& installed@[j].1 == obj_view(servers@).contains_key(configs@[j].1.mcp_key@)
            &&& configured@[j].0@ == configs@[j].0@
            &&& configured@[j].1 == (configs@[j].1.command@.len() > 0)
        } by {
            if j < i {
                assert(installed@[j] == before_installed[j]);
                assert(configured@[j] == before_configured[j]);
            }
        }
        i = i + 1;
    }
    AppStatuses { installed, configured }
}

/// `a + b + c`
fn concat3(a: &str, b: &str, c: &str) -> (r: String)
    ensures
        r@ == a@ + b@ + c@,
{
    let ab = concat_text(a, b);
    concat_text(ab.as_str(), c)
}

impl AppError {
    /// The text reported for this error on the app named `app_name`.
    pub fn message(&self, app_name: &str) -> (r: String)
        ensures
            *self == AppError::NoConfiguration ==> r@ == "No configuration available for '"@
                + app_name@ + "'"@,
            *self == AppError::MissingServers ==> r@ == "Failed to find mcpServers in config"@,
            *self == AppError::NotInstalled ==> r@ == "App '"@ + app_name@ + "' is not installed"@,
            *self == AppError::InvalidEnvFormat ==> r@ == "Invalid env_values format"@,
    {
        match self {
            AppError::NoConfiguration => concat3("No configuration available for '", app_name, "'"),
            AppError::MissingServers => "Failed to find mcpServers in config".to_owned(),
            AppError::NotInstalled => concat3("App '", app_name, "' is not installed"),
            AppError::InvalidEnvFormat => "Invalid env_values format".to_owned(),
        }
    }
}

impl InstallOutcome {
    /// The text reported for this outcome on the app named `app_name`.
    pub fn message(&self, app_name: &str) -> (r: String)
        ensures
            match self {
                InstallOutcome::Added { mcp_key } => r@ == "Added "@ + mcp_key@
                    + " configuration for "@ + app_name@,
                InstallOutcome::NoConfiguration => r@ == "No configuration available for "@
                    + app_name@,
            },
    {
        match self {
            InstallOutcome::Added { mcp_key } => {
                let head = concat3("Added ", mcp_key.as_str(), " configuration for ");
                concat_text(head.as_str(), app_name)
            },
            InstallOutcome::NoConfiguration => concat_text("No configuration available for ", app_name),
        }
    }
}

impl UninstallOutcome {
    /// The text reported for this outcome on the app named `app_name`.
    pub fn message(&self, app_name: &str) -> (r: String)
        ensures
            match self {
                UninstallOutcome::Removed { mcp_key } => r@ == "Removed "@ + mcp_key@
                    + " configuration for "@ + app_name@,
                UninstallOutcome::NotFound => r@ == "Configuration for "@ + app_name@
                    + " was not found"@,
                UninstallOutcome::NoConfiguration => r@ == "No configuration available for "@
                    + app_name@,
            },
    {
        match self {
            UninstallOutcome::Removed { mcp_key } => {
                let head = concat3("Removed ", mcp_key.as_str(), " configuration for ");
                concat_text(head.as_str(), app_name)
            },
            UninstallOutcome::NotFound => concat3("Configuration for ", app_name, " was not found"),
            UninstallOutcome::NoConfiguration => concat_text("No configuration available for ", app_name),
        }
    }
}

/// The text reported after environment values were saved for `app_name`.
pub fn env_saved_message(app_name: &str) -> (r: String)
    ensures
        r@ == "Saved ENV values for app '"@ + app_name@ + "'"@,
{
    concat3("Saved ENV values for app '", app_name, "'")
}

/// An app that the registry does not know is harmless: installing and
/// uninstalling it succeed with the informational outcome and change nothing,
/// and it never counts as installed.
pub proof fn law_unknown_app_is_harmless(
    doc: JsonValue,
    configs: Seq<(Seq<char>, AppConfigView)>,
    name: Seq<char>,
    env: Option<JsonValue>,
    installed: JsonValue,
    install_r: Result<InstallOutcome, AppError>,
    uninstalled: JsonValue,
    uninstall_r: Result<UninstallOutcome, AppError>,
)
    requires
        lookup_app(configs, name) is None,
        install_post(doc, installed, configs, name, env, install_r),
        uninstall_post(doc, uninstalled, configs, name, uninstall_r),
    ensures
        install_r is Ok && install_r->Ok_0 is NoConfiguration && installed == doc,
        uninstall_r is Ok && uninstall_r->Ok_0 is NoConfiguration && uninstalled == doc,
        !installed_spec(doc, configs, name),
{
}

/// Installing the same app twice with the same arguments leaves the same
/// table as installing it once: the second call overwrites the entry with one
/// of the same command, arguments and environment, and touches nothing else.
pub proof fn law_install_idempotent(
    d0: JsonValue,
    d1: JsonValue,
    d2: JsonValue,
    configs: Seq<(Seq<char>, AppConfigView)>,
    name: Seq<char>,
    env: Option<JsonValue>,
    r1: Result<InstallOutcome, AppError>,
    r2: Result<InstallOutcome, AppError>,
)
    requires
        install_post(d0, d1, configs, name, env, r1),
        install_post(d1, d2, configs, name, env, r2),
    ensures
        others_view(d2) == others_view(d1),
        servers_view(d2) is Some <==> servers_view(d1) is Some,
        r1 is Ok <==> r2 is Ok,
        match (lookup_app(configs, name), servers_view(d1), servers_view(d2)) {
            (Some(c), Some(s1), Some(s2)) => {
                &&& s1.contains_key(c.mcp_key) && s2.contains_key(c.mcp_key)
                &&& s2.remove(c.mcp_key) == s1.remove(c.mcp_key)
                &&& s2.dom() == s1.dom()
                &&& describes_entry(s1[c.mcp_key], c.command, c.args, env)
                &&& describes_entry(s2[c.mcp_key], c.command, c.args, env)
            },
            _ => d2 == d1,
        },
{
    match lookup_app(configs, name) {
        Some(c) => {
            if servers_view(d0) is Some {
                let s1 = servers_view(d1)->0;
                let s2 = servers_view(d2)->0;
                assert(s2.remove(c.mcp_key) =~= s1.remove(c.mcp_key));
                assert(s2.dom() =~= s1.dom());
            }
        },
        None => {},
    }
}

/// Installing an app and then uninstalling it removes its key from the table:
/// afterwards the app is not installed.
pub proof fn law_install_then_uninstall(
    d0: JsonValue,
    d1: JsonValue,
    d2: JsonValue,
    configs: Seq<(Seq<char>, AppConfigView)>,
    name: Seq<char>,
    env: Option<JsonValue>,
    r1: Result<InstallOutcome, AppError>,
    r2: Result<UninstallOutcome, AppError>,
)
    requires
        install_post(d0, d1, configs, name, env, r1),
        r1 is Ok,
        uninstall_post(d1, d2, configs, name, r2),
    ensures
        r2 is Ok,
        lookup_app(configs, name) is Some ==> r2->Ok_0 is Removed && servers_view(d2) is Some
            && !servers_view(d2)->0.contains_key(lookup_app(configs, name)->0.mcp_key),
        !installed_spec(d2, configs, name),
{
}

/// Saving environment values twice merges both into the app's environment:
/// keys accumulate, and a key given again takes its latest value.
pub proof fn law_env_merge(
    d0: JsonValue,
    d1: JsonValue,
    d2: JsonValue,
    configs: Seq<(Seq<char>, AppConfigView)>,
    name: Seq<char>,
    v1: JsonValue,
    v2: JsonValue,
    r1: Result<(), AppError>,
    r2: Result<(), AppError>,
)
    requires
        save_env_post(d0, d1, configs, name, v1, r1),
        r1 is Ok,
        save_env_post(d1, d2, configs, name, v2, r2),
        r2 is Ok,
    ensures
        app_env_view(d2, configs, name) == Some(
            app_env_view(d0, configs, name)->0.union_prefer_right(
                as_object_view(v1)->0,
            ).union_prefer_right(as_object_view(v2)->0),
        ),
        get_env_spec(d2, configs, name) is Ok,
        get_env_spec(d2, configs, name)->Ok_0 is Some,
        as_object_view(get_env_spec(d2, configs, name)->Ok_0->0) == app_env_view(
            d2,
            configs,
            name,
        ),
{
    let c = lookup_app(configs, name)->0;
    let s1 = servers_view(d1)->0;
    let s2 = servers_view(d2)->0;
    assert(s1.contains_key(c.mcp_key));
    assert(s2.contains_key(c.mcp_key));
    assert(as_object_view(s2[c.mcp_key]) is Some);
    assert(entry_env_view(s2[c.mcp_key]) is Some);
}

/// Saving environment values for a registered app that is not installed
/// fails with `NotInstalled` and leaves the document as it was.
pub proof fn law_save_env_needs_install(
    doc: JsonValue,
    after: JsonValue,
    configs: Seq<(Seq<char>, AppConfigView)>,
    name: Seq<char>,
    values: JsonValue,
    r: Result<(), AppError>,
)
    requires
        lookup_app(configs, name) is Some,
        servers_view(doc) is Some,
        !installed_spec(doc, configs, name),
        save_env_post(doc, after, configs, name, values, r),
    ensures
        r == Err::<(), AppError>(AppError::NotInstalled),
        after == doc,
{
}

} // verus!
