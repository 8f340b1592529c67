use fleur::app::servers_ref;
use fleur::json::{obj_contains, obj_get, obj_insert, obj_take, JsonValue};
use fleur::registry::{find_app, get_app_configs, package_to_warm, AppConfig, RegistryError};
use fleur::store::{default_config, ensure_mcp_servers, ConfigError, ConfigStore};
use fleur::text::{concat_text, contains, first_line, str_eq, trim};

fn s(text: &str) -> JsonValue {
    JsonValue::Str(text.to_string())
}

fn obj(members: Vec<(&str, JsonValue)>) -> JsonValue {
    JsonValue::Object(members.into_iter().map(|(k, v)| (k.to_string(), v)).collect())
}

fn entry(name: &str, runtime: &str, args: JsonValue) -> JsonValue {
    obj(vec![("name", s(name)), ("config", obj(vec![("mcpKey", s("k")), ("runtime", s(runtime)), ("args", args)]))])
}

fn resolve(apps: Vec<JsonValue>) -> Result<Vec<(String, AppConfig)>, RegistryError> {
    get_app_configs(&JsonValue::Array(apps), "/shim", "/usr/bin/uvx")
}

#[test]
fn runtimes_map_to_commands() {
    let none = JsonValue::Array(vec![]);
    let configs = resolve(vec![
        entry("A", "npx", JsonValue::Array(vec![s("a")])),
        entry("B", "uvx", JsonValue::Array(vec![s("b"), JsonValue::Null])),
        entry("C", "docker", none),
    ])
    .unwrap();
    assert_eq!(configs[0].1.command, "/shim");
    assert_eq!(configs[1].1.command, "/usr/bin/uvx");
    assert_eq!(configs[1].1.args, vec!["b".to_string(), String::new()]);
    assert_eq!(configs[2].1.command, "docker");
    assert_eq!(configs[2].0, "C");
}

#[test]
fn each_missing_field_is_its_own_error() {
    let args = || JsonValue::Array(vec![]);
    assert_eq!(get_app_configs(&obj(vec![]), "/s", "/u").err(), Some(RegistryError::NotAnArray));
    assert_eq!(resolve(vec![obj(vec![("config", obj(vec![]))])]).err(), Some(RegistryError::NameMissing));
    assert_eq!(resolve(vec![obj(vec![("name", s("A"))])]).err(), Some(RegistryError::ConfigMissing));
    assert_eq!(
        resolve(vec![obj(vec![("name", s("A")), ("config", obj(vec![("runtime", s("npx"))]))])]).err(),
        Some(RegistryError::McpKeyMissing)
    );
    assert_eq!(
        resolve(vec![obj(vec![("name", s("A")), ("config", obj(vec![("mcpKey", s("k"))]))])]).err(),
        Some(RegistryError::RuntimeMissing)
    );
    assert_eq!(resolve(vec![entry("A", "npx", s("x"))]).err(), Some(RegistryError::ArgsMissing));
    assert_eq!(resolve(vec![entry("A", "npx", args()), s("junk")]).err(), Some(RegistryError::NameMissing));
    assert_eq!(RegistryError::ArgsMissing.message(), "args is missing");
    assert_eq!(RegistryError::NotAnArray.message(), "App registry is not an array");
}

#[test]
fn first_app_of_a_name_wins() {
    let configs = resolve(vec![
        entry("A", "first", JsonValue::Array(vec![])),
        entry("A", "second", JsonValue::Array(vec![])),
    ])
    .unwrap();
    assert_eq!(find_app(&configs, "A"), Some(0));
    assert_eq!(find_app(&configs, "B"), None);
}

#[test]
fn warm_package_is_second_argument_of_npx_apps() {
    let app = |command: &str, args: &[&str]| AppConfig {
        mcp_key: "k".to_string(),
        command: command.to_string(),
        args: args.iter().map(|a| a.to_string()).collect(),
    };
    assert_eq!(package_to_warm(&app("/bin/npx-fleur", &["-y", "pkg"])), Some("pkg".to_string()));
    assert_eq!(package_to_warm(&app("/bin/npx-fleur", &["-y"])), None);
    assert_eq!(package_to_warm(&app("/usr/bin/uvx", &["-y", "pkg"])), None);
}

#[test]
fn store_path_and_cache() {
    let mut store = ConfigStore::new("Library/Application Support/Host/config.json".to_string());
    assert_eq!(store.config_path_for(None), Err(ConfigError::NoHomeDirectory));
    assert_eq!(ConfigError::NoHomeDirectory.message(), "Could not find home directory");
    assert_eq!(
        store.config_path_for(Some("/Users/me".to_string())).unwrap(),
        "/Users/me/Library/Application Support/Host/config.json"
    );
    store.loaded(obj(vec![("x", s("1"))])).unwrap();
    assert!(store.cached().is_some());
    store.set_test_config_path(Some("/tmp/c.json".to_string()));
    assert!(store.cached().is_none());
    assert_eq!(store.get_config_path().unwrap(), "/tmp/c.json");
    assert_eq!(store.config_path_for(None).unwrap(), "/tmp/c.json");
    assert_eq!(store.loaded(s("no object")), Err(ConfigError::NotAnObject));
    assert!(store.cached().is_none());
}

#[test]
fn loading_adds_a_server_table() {
    let mut doc = obj(vec![("theme", s("dark"))]);
    ensure_mcp_servers(&mut doc).unwrap();
    let servers = servers_ref(&doc).expect("server table");
    assert!(servers.is_empty());
    let mut arr = JsonValue::Array(vec![]);
    assert_eq!(ensure_mcp_servers(&mut arr), Err(ConfigError::NotAnObject));
    assert!(servers_ref(&default_config()).unwrap().is_empty());
}

#[test]
fn object_members() {
    let mut fields = vec![("a".to_string(), s("1")), ("b".to_string(), s("2")), ("a".to_string(), s("3"))];
    assert!(matches!(obj_get(&fields, "a"), Some(JsonValue::Str(t)) if t == "3"));
    assert!(obj_contains(&fields, "b") && !obj_contains(&fields, "c"));
    assert!(matches!(obj_take(&mut fields, "a"), Some(JsonValue::Str(t)) if t == "3"));
    assert_eq!(fields.len(), 1);
    obj_insert(&mut fields, "b".to_string(), s("4"));
    assert_eq!(fields.len(), 1);
    assert!(matches!(obj_get(&fields, "b"), Some(JsonValue::Str(t)) if t == "4"));
}

#[test]
fn text_helpers() {
    assert_eq!(trim("\t v20.9.0 \r\n"), "v20.9.0");
    assert_eq!(trim("   "), "");
    assert!(contains("/h/.nvm/versions/node/x", ".nvm/versions/node"));
    assert!(!contains("/usr/bin", ".nvm/versions/node"));
    assert!(contains("abc", ""));
    assert_eq!(first_line("a\nb\n"), Some(("a".to_string(), "b\n".to_string())));
    assert_eq!(first_line("only"), Some(("only".to_string(), String::new())));
    assert_eq!(first_line(""), None);
    assert!(str_eq("é", "é") && !str_eq("a", "ab"));
    assert_eq!(concat_text("ab", "cd"), "abcd");
}
