//! The app registry: a JSON array of installable apps, each resolved into the
//! command and arguments that the configuration document will hold.
use crate::json::{as_object_view, as_str_view, member, obj_get, JsonValue};
use crate::text::{contains, contains_spec, str_eq};
use vstd::prelude::*;

verus! {

/// How one registered app is launched.
#[derive(Debug)]
pub struct AppConfig {
    pub mcp_key: String,
    pub command: String,
    pub args: Vec<String>,
}

pub struct AppConfigView {
    pub mcp_key: Seq<char>,
    pub command: Seq<char>,
    pub args: Seq<Seq<char>>,
}

pub open spec fn strings_view(v: Seq<String>) -> Seq<Seq<char>> {
    v.map_values(|s: String| s@)
}

impl View for AppConfig {
    type V = AppConfigView;

    open spec fn view(&self) -> AppConfigView {
        AppConfigView { mcp_key: self.mcp_key@, command: self.command@, args: strings_view(self.args@) }
    }
}

/// A registry that cannot be resolved, by the first thing found missing.
#[derive(Clone, Copy, Debug, PartialEq, Eq, Structural)]
pub enum RegistryError {
    NotAnArray,
    NameMissing,
    ConfigMissing,
    McpKeyMissing,
    RuntimeMissing,
    ArgsMissing,
}

impl RegistryError {
    pub fn message(&self) -> (r: &'static str)
        ensures
            *self == RegistryError::NotAnArray ==> r@ == "App registry is not an array"@,
            *self == RegistryError::NameMissing ==> r@ == "App name is missing"@,
            *self == RegistryError::ConfigMissing ==> r@ == "App config is missing"@,
            *self == RegistryError::McpKeyMissing ==> r@ == "mcpKey is missing"@,
            *self == RegistryError::RuntimeMissing ==> r@ == "runtime is missing"@,
            *self == RegistryError::ArgsMissing ==> r@ == "args is missing"@,
    {
        match self {
            RegistryError::NotAnArray => "App registry is not an array",
            RegistryError::NameMissing => "App name is missing",
            RegistryError::ConfigMissing => "App config is missing",
            RegistryError::McpKeyMissing => "mcpKey is missing",
            RegistryError::RuntimeMissing => "runtime is missing",
            RegistryError::ArgsMissing => "args is missing",
        }
    }
}

/// The command an app runs: the package runner goes through the shim, the
/// Python tool runner through its resolved path, anything else as written.
pub open spec fn runtime_command(runtime: Seq<char>, npx_shim: Seq<char>, uvx_path: Seq<char>) -> Seq<
    char,
> {
    if runtime == "npx"@ {
        npx_shim
    } else if runtime == "uvx"@ {
        uvx_path
    } else {
        runtime
    }
}

/// An argument's text; an argument that is no string counts as empty.
pub open spec fn arg_text(v: JsonValue) -> Seq<char> {
    match v {
        JsonValue::Str(s) => s@,
        _ => Seq::empty(),
    }
}

pub open spec fn member_str(v: JsonValue, key: Seq<char>) -> Option<Seq<char>> {
    match member(v, key) {
        Some(x) => as_str_view(x),
        None => None,
    }
}

/// One registry element, resolved to its name and launch configuration.
pub open spec fn resolve_app(app: JsonValue, npx_shim: Seq<char>, uvx_path: Seq<char>) -> Result<
    (Seq<char>, AppConfigView),
    RegistryError,
> {
    match member_str(app, "name"@) {
        None => Err(RegistryError::NameMissing),
        Some(name) => {
            let config = member(app, "config"@);
            if config is None || as_object_view(config->0) is None {
                Err(RegistryError::ConfigMissing)
            } else {
                let config = config->0;
                match (member_str(config, "mcpKey"@), member_str(config, "runtime"@)) {
                    (None, _) => Err(RegistryError::McpKeyMissing),
                    (Some(_), None) => Err(RegistryError::RuntimeMissing),
                    (Some(mcp_key), Some(runtime)) => match member(config, "args"@) {
                        Some(JsonValue::Array(items)) => Ok(
                            (
                                name,
                                AppConfigView {
                                    mcp_key,
                                    command: runtime_command(runtime, npx_shim, uvx_path),
                                    args: items@.map_values(|a: JsonValue| arg_text(a)),
                                },
                            ),
                        ),
                        _ => Err(RegistryError::ArgsMissing),
                    },
                }
            }
        },
    }
}

/// Every element resolved in order; the first element that fails decides the error.
pub open spec fn resolve_all(apps: Seq<JsonValue>, npx_shim: Seq<char>, uvx_path: Seq<char>) -> Result<
    Seq<(Seq<char>, AppConfigView)>,
    RegistryError,
>
    decreases apps.len(),
{
    if apps.len() == 0 {
        Ok(Seq::empty())
    } else {
        match resolve_all(apps.drop_last(), npx_shim, uvx_path) {
            Err(e) => Err(e),
            Ok(done) => match resolve_app(apps.last(), npx_shim, uvx_path) {
                Err(e) => Err(e),
                Ok(c) => Ok(done.push(c)),
            },
        }
    }
}

pub open spec fn resolve_registry(registry: JsonValue, npx_shim: Seq<char>, uvx_path: Seq<char>) -> Result<
    Seq<(Seq<char>, AppConfigView)>,
    RegistryError,
> {
    match registry {
        JsonValue::Array(apps) => resolve_all(apps@, npx_shim, uvx_path),
        _ => Err(RegistryError::NotAnArray),
    }
}

pub open spec fn configs_view(configs: Seq<(String, AppConfig)>) -> Seq<(Seq<char>, AppConfigView)> {
    configs.map_values(|c: (String, AppConfig)| (c.0@, c.1@))
}

/// The configuration of the first app named `name`.
pub open spec fn lookup_app(configs: Seq<(Seq<char>, AppConfigView)>, name: Seq<char>) -> Option<
    AppConfigView,
>
    decreases configs.len(),
{
    if configs.len() == 0 {
        None
    } else if configs[0].0 == name {
        Some(configs[0].1)
    } else {
        lookup_app(configs.drop_first(), name)
    }
}

fn member_text(fields: &Vec<(String, JsonValue)>, key: &str) -> (r: Option<String>)
    ensures
        match r {
            Some(s) => member_str(JsonValue::Object(*fields), key@) == Some(s@),
            None => member_str(JsonValue::Object(*fields), key@) is None,
        },
{
    match obj_get(fields, key) {
        Some(JsonValue::Str(s)) => Some(s.clone()),
        _ => None,
    }
}

fn resolve_command(runtime: String, npx_shim: &str, uvx_path: &str) -> (r: String)
    ensures
        r@ == runtime_command(runtime@, npx_shim@, uvx_path@),
{
    if str_eq(runtime.as_str(), "npx") {
        npx_shim.to_owned()
    } else if str_eq(runtime.as_str(), "uvx") {
        uvx_path.to_owned()
    } else {
        runtime
    }
}

fn arg_texts(items: &Vec<JsonValue>) -> (r: Vec<String>)
    ensures
        strings_view(r@) == items@.map_values(|a: JsonValue| arg_text(a)),
{
    let mut out: Vec<String> = Vec::new();
    let mut i: usize = 0;
    while i < items.len()
        invariant
            i <= items@.len(),
            out@.len() == i,
            forall|j: int| 0 <= j < i ==> #[trigger] out@[j]@ == arg_text(items@[j]),
        decreases items@.len() - i,
    {
        let text = match &items[i] {
            JsonValue::Str(s) => s.clone(),
            _ => String::new(),
        };
        out.push(text);
        i = i + 1;
    }
    assert(strings_view(out@) =~= items@.map_values(|a: JsonValue| arg_text(a)));
    out
}

/// Resolve one registry element.
pub fn resolve_app_entry(app: &JsonValue, npx_shim: &str, uvx_path: &str) -> (r: Result<
    (String, AppConfig),
    RegistryError,
>)
    ensures
        match r {
            Ok(c) => resolve_app(*app, npx_shim@, uvx_path@) == Ok::<_, RegistryError>((c.0@, c.1@)),
            Err(e) => resolve_app(*app, npx_shim@, uvx_path@) == Err::<(Seq<char>, AppConfigView), _>(
                e,
            ),
        },
{
    let fields = match app {
        JsonValue::Object(fields) => fields,
        _ => {
            return Err(RegistryError::NameMissing);
        },
    };
    let name = match member_text(fields, "name") {
        Some(n) => n,
        None => {
            return Err(RegistryError::NameMissing);
        },
    };
    let config = match obj_get(fields, "config") {
        Some(JsonValue::Object(c)) => c,
        _ => {
            return Err(RegistryError::ConfigMissing);
        },
    };
    let mcp_key = match member_text(config, "mcpKey") {
        Some(k) => k,
        None => {
            return Err(RegistryError::McpKeyMissing);
        },
    };
    let runtime = match member_text(config, "runtime") {
        Some(k) => k,
        None => {
            return Err(RegistryError::RuntimeMissing);
        },
    };
    let command = resolve_command(runtime, npx_shim, uvx_path);
    let args = match obj_get(config, "args") {
        Some(JsonValue::Array(items)) => arg_texts(items),
        _ => {
            return Err(RegistryError::ArgsMissing);
        },
    };
    Ok((name, AppConfig { mcp_key, command, args }))
}

/// Resolve every app of the registry, with the shim path standing for the
/// package runner and `uvx_path` for the Python tool runner. A registry with
/// any incomplete element is refused whole.
pub fn get_app_configs(registry: &JsonValue, npx_shim: &str, uvx_path: &str) -> (r: Result<
    Vec<(String, AppConfig)>,
    RegistryError,
>)
    ensures
        match r {
            Ok(v) => resolve_registry(*registry, npx_shim@, uvx_path@) == Ok::<_, RegistryError>(
                configs_view(v@),
            ),
            Err(e) => resolve_registry(*registry, npx_shim@, uvx_path@) == Err::<
                Seq<(Seq<char>, AppConfigView)>,
                _,
            >(e),
        },
{
    let apps = match registry {
        JsonValue::Array(apps) => apps,
        _ => {
            return Err(RegistryError::NotAnArray);
        },
    };
    assert(resolve_registry(*registry, npx_shim@, uvx_path@) == resolve_all(
        apps@,
        npx_shim@,
        uvx_path@,
    ));
    let mut configs: Vec<(String, AppConfig)> = Vec::new();
    let mut i: usize = 0;
    assert(apps@.take(0) =~= Seq::<JsonValue>::empty());
    assert(configs_view(configs@) =~= Seq::empty());
    while i < apps.len()
        invariant
            i <= apps@.len(),
            resolve_registry(*registry, npx_shim@, uvx_path@) == resolve_all(apps@, npx_shim@, uvx_path@),
            resolve_all(apps@.take(i as int), npx_shim@, uvx_path@) == Ok::<_, RegistryError>(
                configs_view(configs@),
            ),
        decreases apps@.len() - i,
    {
        proof {
            assert(apps@.take(i + 1).drop_last() =~= apps@.take(i as int));
        }
        match resolve_app_entry(&apps[i], npx_shim, uvx_path) {
            Ok(c) => {
                let ghost before = configs@;
                configs.push(c);
                assert(configs_view(configs@) =~= configs_view(before).push((c.0@, c.1@)));
            },
            Err(e) => {
                assert(resolve_all(apps@.take(i + 1), npx_shim@, uvx_path@) == Err::<
                    Seq<(Seq<char>, AppConfigView)>,
                    _,
                >(e));
                proof {
                    lemma_resolve_all_prefix_err(apps@, i + 1, npx_shim@, uvx_path@);
                }
                return Err(e);
            },
        }
        i = i + 1;
    }
    assert(apps@.take(i as int) =~= apps@);
    Ok(configs)
}

/// Once a prefix of the registry fails, the whole registry fails the same way.
proof fn lemma_resolve_all_prefix_err(apps: Seq<JsonValue>, n: int, npx_shim: Seq<char>, uvx_path: Seq<char>)
    requires
        0 <= n <= apps.len(),
        resolve_all(apps.take(n), npx_shim, uvx_path) is Err,
    ensures
        resolve_all(apps, npx_shim, uvx_path) == resolve_all(apps.take(n), npx_shim, uvx_path),
    decreases apps.len() - n,
{
    if n < apps.len() {
        assert(apps.take(n + 1).drop_last() =~= apps.take(n));
        lemma_resolve_all_prefix_err(apps, n + 1, npx_shim, uvx_path);
    } else {
        assert(apps.take(n) =~= apps);
    }
}

/// The position of the first app named `name`.
pub fn find_app(configs: &Vec<(String, AppConfig)>, name: &str) -> (r: Option<usize>)
    ensures
        match r {
            Some(i) => i < configs@.len() && lookup_app(configs_view(configs@), name@) == Some(
                configs@[i as int].1@,
            ),
            None => lookup_app(configs_view(configs@), name@) is None,
        },
{
    let ghost cs = configs_view(configs@);
    let mut i: usize = 0;
    assert(cs.skip(0) =~= cs);
    while i < configs.len()
        invariant
            i <= configs@.len(),
            cs == configs_view(configs@),
            lookup_app(cs, name@) == lookup_app(cs.skip(i as int), name@),
        decreases configs@.len() - i,
    {
        assert(cs.skip(i as int)[0] == cs[i as int]);
        if str_eq(configs[i].0.as_str(), name) {
            return Some(i);
        }
        assert(cs.skip(i as int).drop_first() =~= cs.skip(i + 1));
        i = i + 1;
    }
    None
}

/// The package whose download cache is warmed after an install: the second
/// argument of an app whose command goes through the package runner.
pub fn package_to_warm(config: &AppConfig) -> (r: Option<String>)
    ensures
        r is Some <==> (contains_spec(config.command@, "npx"@) && config.args@.len() > 1),
        r is Some ==> r->0@ == config.args@[1]@,
{
    if contains(config.command.as_str(), "npx") && config.args.len() > 1 {
        Some(config.args[1].clone())
    } else {
        None
    }
}

} // verus!
