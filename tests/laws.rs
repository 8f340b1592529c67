use fleur::app::{
    get_app_env, install, is_installed, save_app_env, uninstall, AppError, InstallOutcome,
    UninstallOutcome,
};
use fleur::json::JsonValue;
use fleur::registry::{get_app_configs, AppConfig};
use fleur::store::default_config;

fn s(text: &str) -> JsonValue {
    JsonValue::Str(text.to_string())
}

fn obj(members: Vec<(&str, JsonValue)>) -> JsonValue {
    JsonValue::Object(members.into_iter().map(|(k, v)| (k.to_string(), v)).collect())
}

fn get<'a>(v: &'a JsonValue, key: &str) -> Option<&'a JsonValue> {
    match v {
        JsonValue::Object(fields) => fields.iter().rev().find(|(k, _)| k == key).map(|(_, v)| v),
        _ => None,
    }
}

fn text(v: Option<&JsonValue>) -> String {
    match v {
        Some(JsonValue::Str(t)) => t.clone(),
        _ => String::new(),
    }
}

/// The members of an object, as sorted `(key, rendering)` pairs.
fn render(v: &JsonValue) -> String {
    match v {
        JsonValue::Null => "null".to_string(),
        JsonValue::Bool(b) => b.to_string(),
        JsonValue::Number(n) => n.clone(),
        JsonValue::Str(t) => format!("{:?}", t),
        JsonValue::Array(items) => {
            let parts: Vec<String> = items.iter().map(render).collect();
            format!("[{}]", parts.join(","))
        }
        JsonValue::Object(fields) => {
            let mut map = std::collections::BTreeMap::new();
            for (k, v) in fields {
                map.insert(k.clone(), render(v));
            }
            let parts: Vec<String> = map.into_iter().map(|(k, v)| format!("{:?}:{}", k, v)).collect();
            format!("{{{}}}", parts.join(","))
        }
    }
}

fn configs() -> Vec<(String, AppConfig)> {
    let app = |name: &str, key: &str| {
        obj(vec![
            ("name", s(name)),
            (
                "config",
                obj(vec![("mcpKey", s(key)), ("runtime", s("npx")), ("args", JsonValue::Array(vec![s("-y"), s(key)]))]),
            ),
        ])
    };
    let registry = JsonValue::Array(vec![app("X", "x-key"), app("Y", "y-key")]);
    get_app_configs(&registry, "/shim", "/uvx").unwrap()
}

#[test]
fn unknown_app_is_informational() {
    let configs = configs();
    let mut doc = default_config();
    let before = render(&doc);
    let r = install(&mut doc, &configs, "Nobody", None).unwrap();
    assert!(matches!(r, InstallOutcome::NoConfiguration));
    assert_eq!(r.message("Nobody"), "No configuration available for Nobody");
    let r = uninstall(&mut doc, &configs, "Nobody").unwrap();
    assert!(matches!(r, UninstallOutcome::NoConfiguration));
    assert!(!is_installed(&doc, &configs, "Nobody"));
    assert_eq!(render(&doc), before);
}

#[test]
fn install_twice_gives_the_same_entry() {
    let configs = configs();
    let mut doc = default_config();
    install(&mut doc, &configs, "X", Some(obj(vec![("A", s("1"))]))).unwrap();
    let once = render(&doc);
    install(&mut doc, &configs, "X", Some(obj(vec![("A", s("1"))]))).unwrap();
    assert_eq!(render(&doc), once);
    match get(&doc, "mcpServers") {
        Some(JsonValue::Object(servers)) => assert_eq!(servers.len(), 1),
        _ => panic!("mcpServers"),
    }
}

#[test]
fn install_then_uninstall_removes_the_key() {
    let configs = configs();
    let mut doc = default_config();
    install(&mut doc, &configs, "X", None).unwrap();
    let r = uninstall(&mut doc, &configs, "X").unwrap();
    assert_eq!(r.message("X"), "Removed x-key configuration for X");
    assert!(get(get(&doc, "mcpServers").unwrap(), "x-key").is_none());
    assert!(!is_installed(&doc, &configs, "X"));
    let again = uninstall(&mut doc, &configs, "X").unwrap();
    assert!(matches!(again, UninstallOutcome::NotFound));
}

#[test]
fn env_keys_accumulate() {
    let configs = configs();
    let mut doc = default_config();
    install(&mut doc, &configs, "X", None).unwrap();
    save_app_env(&mut doc, &configs, "X", obj(vec![("A", s("1"))])).unwrap();
    save_app_env(&mut doc, &configs, "X", obj(vec![("B", s("2"))])).unwrap();
    let env = get_app_env(&doc, &configs, "X").unwrap().unwrap();
    assert_eq!(render(env), r#"{"A":"1","B":"2"}"#);
    assert_eq!(text(get(env, "A")), "1");
}

#[test]
fn env_of_uninstalled_app_is_refused() {
    let configs = configs();
    let mut doc = default_config();
    install(&mut doc, &configs, "X", None).unwrap();
    let before = render(&doc);
    let r = save_app_env(&mut doc, &configs, "Y", obj(vec![("A", s("1"))]));
    assert_eq!(r, Err(AppError::NotInstalled));
    assert_eq!(AppError::NotInstalled.message("Y"), "App 'Y' is not installed");
    assert_eq!(render(&doc), before);
}
