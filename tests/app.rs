use fleur::app::{
    self, env_saved_message, get_app_env, get_app_statuses, is_installed, save_app_env, uninstall,
    AppError, InstallOutcome, UninstallOutcome,
};
use fleur::json::JsonValue;
use fleur::registry::{get_app_configs, AppConfig};
use fleur::store::{default_config, ConfigStore, RegistryCache};

const SHIM: &str = "/test/.local/share/fleur/bin/npx-fleur";
const UVX: &str = "/test/uvx";

fn s(text: &str) -> JsonValue {
    JsonValue::Str(text.to_string())
}

fn obj(members: Vec<(&str, JsonValue)>) -> JsonValue {
    JsonValue::Object(members.into_iter().map(|(k, v)| (k.to_string(), v)).collect())
}

fn strs(items: &[&str]) -> JsonValue {
    JsonValue::Array(items.iter().map(|t| s(t)).collect())
}

fn get<'a>(v: &'a JsonValue, key: &str) -> Option<&'a JsonValue> {
    match v {
        JsonValue::Object(fields) => fields.iter().rev().find(|(k, _)| k == key).map(|(_, v)| v),
        _ => None,
    }
}

fn text(v: Option<&JsonValue>) -> &str {
    match v {
        Some(JsonValue::Str(t)) => t.as_str(),
        _ => "",
    }
}

fn mock_app(name: &str, developer: &str, mcp_key: &str, package: &str) -> JsonValue {
    obj(vec![
        ("name", s(name)),
        ("description", s("An app of the test registry")),
        ("category", s("Utilities")),
        ("price", s("Free")),
        ("developer", s(developer)),
        (
            "config",
            obj(vec![
                ("mcpKey", s(mcp_key)),
                ("runtime", s("npx")),
                ("args", strs(&["-y", package, "--debug"])),
            ]),
        ),
        ("setup", JsonValue::Array(vec![])),
    ])
}

fn setup_mock_registry() -> JsonValue {
    JsonValue::Array(vec![
        mock_app("Browser", "Google LLC", "puppeteer", "@modelcontextprotocol/server-puppeteer"),
        mock_app("Time", "Anthropic", "time", "mcp-server-time"),
    ])
}

fn configs() -> Vec<(String, AppConfig)> {
    get_app_configs(&setup_mock_registry(), SHIM, UVX).expect("Failed to get app configs")
}

fn setup_test_config() -> JsonValue {
    let mut store = ConfigStore::new("Library/Application Support/Host/config.json".to_string());
    store.set_test_config_path(Some(
        "/tmp/host/config.json".to_string(),
    ));
    store.loaded(default_config()).unwrap();
    store.cache.take().expect("a loaded document is cached")
}

fn servers(doc: &JsonValue) -> &JsonValue {
    get(doc, "mcpServers").expect("mcpServers")
}

#[test]
fn test_get_app_configs() {
    let mock_registry = setup_mock_registry();
    let configs = get_app_configs(&mock_registry, SHIM, UVX).expect("Failed to get app configs");
    let n = match &mock_registry {
        JsonValue::Array(apps) => apps.len(),
        _ => 0,
    };
    assert_eq!(configs.len(), n, "Expected the same number of apps as in the mock registry");

    let browser = configs.iter().find(|(name, _)| name == "Browser").expect("Browser app not found");
    assert_eq!(browser.1.mcp_key, "puppeteer");
    assert!(browser.1.command.contains("npx"), "Expected command to contain 'npx'");
    assert_eq!(browser.1.args.len(), 3, "Expected 3 arguments for Browser app");

    let time_app = configs.iter().find(|(name, _)| name == "Time").expect("Time app not found");
    assert_eq!(time_app.1.mcp_key, "time");
    assert_eq!(time_app.1.args[1], "mcp-server-time");
}

#[test]
fn test_install() {
    let mut config = setup_test_config();
    let configs = configs();

    let result = app::install(&mut config, &configs, "Browser", None);
    assert!(result.is_ok(), "Installation failed with error: {:?}", result.err());

    let puppeteer = get(servers(&config), "puppeteer").expect("puppeteer");
    assert!(matches!(puppeteer, JsonValue::Object(_)), "Puppeteer config should be an object");
    assert_eq!(text(get(puppeteer, "command")), SHIM, "Command doesn't match expected value");
    let args = match get(puppeteer, "args") {
        Some(JsonValue::Array(a)) => a,
        _ => panic!("Args should be an array"),
    };
    assert_eq!(args.len(), 3, "Expected 3 arguments");
    assert_eq!(text(args.first()), "-y");
    assert_eq!(text(args.get(1)), "@modelcontextprotocol/server-puppeteer");
    assert_eq!(text(args.get(2)), "--debug");

    let env_vars = obj(vec![("API_KEY", s("test-key")), ("DEBUG", s("true"))]);
    let result = app::install(&mut config, &configs, "Time", Some(env_vars));
    assert!(result.is_ok(), "Installation with env vars failed: {:?}", result.err());

    let time_config = get(servers(&config), "time").expect("time");
    assert!(matches!(time_config, JsonValue::Object(_)), "Time config should be an object");
    let env = get(time_config, "env").expect("env");
    assert_eq!(text(get(env, "API_KEY")), "test-key");
    assert_eq!(text(get(env, "DEBUG")), "true");
}

#[test]
fn test_uninstall() {
    let configs = configs();
    let mut config = obj(vec![(
        "mcpServers",
        obj(vec![
            (
                "puppeteer",
                obj(vec![
                    ("command", s("npx")),
                    ("args", strs(&["-y", "@modelcontextprotocol/server-puppeteer", "--debug"])),
                ]),
            ),
            (
                "time",
                obj(vec![("command", s("npx")), ("args", strs(&["-y", "mcp-server-time", "--debug"]))]),
            ),
        ]),
    )]);

    let result = uninstall(&mut config, &configs, "Browser");
    assert!(result.is_ok(), "Failed to uninstall Browser app: {:?}", result.err());
    assert!(matches!(result, Ok(UninstallOutcome::Removed { .. })));

    assert!(get(servers(&config), "puppeteer").is_none(), "Puppeteer config should be removed after uninstall");
    assert!(get(servers(&config), "time").is_some(), "Time app should still be present");
}

#[test]
fn test_is_installed() {
    let mut config = setup_test_config();
    let configs = configs();

    assert!(!is_installed(&config, &configs, "Browser"), "App should not be installed initially");
    app::install(&mut config, &configs, "Browser", None).expect("Failed to install Browser app");
    assert!(is_installed(&config, &configs, "Browser"), "App should be installed after installation");
    uninstall(&mut config, &configs, "Browser").expect("Failed to uninstall Browser app");
    assert!(!is_installed(&config, &configs, "Browser"), "App should not be installed after uninstallation");
}

#[test]
fn test_app_env() {
    let mut config = setup_test_config();
    let configs = configs();
    app::install(&mut config, &configs, "Browser", None).expect("Failed to install Browser app");

    let env_values = obj(vec![("API_KEY", s("test-key")), ("DEBUG", s("true"))]);
    let result = save_app_env(&mut config, &configs, "Browser", env_values);
    assert!(result.is_ok(), "Failed to save app env: {:?}", result.err());

    let app_env = get_app_env(&config, &configs, "Browser").expect("Failed to get app env").unwrap();
    assert_eq!(text(get(app_env, "API_KEY")), "test-key");
    assert_eq!(text(get(app_env, "DEBUG")), "true");

    let updated_env = obj(vec![("API_KEY", s("new-key")), ("LOG_LEVEL", s("debug"))]);
    let result = save_app_env(&mut config, &configs, "Browser", updated_env);
    assert!(result.is_ok(), "Failed to update app env: {:?}", result.err());

    let updated_app_env =
        get_app_env(&config, &configs, "Browser").expect("Failed to get updated app env").unwrap();
    assert_eq!(text(get(updated_app_env, "API_KEY")), "new-key");
    assert_eq!(text(get(updated_app_env, "DEBUG")), "true");
    assert_eq!(text(get(updated_app_env, "LOG_LEVEL")), "debug");
}

fn status_of(list: &[(String, bool)], name: &str) -> Option<bool> {
    list.iter().rev().find(|(n, _)| n == name).map(|(_, b)| *b)
}

#[test]
fn test_app_statuses() {
    let mut config = setup_test_config();
    let configs = configs();

    let statuses = get_app_statuses(&config, &configs);
    assert!(!status_of(&statuses.installed, "Browser").unwrap_or(true), "Browser should not be installed initially");
    assert!(!status_of(&statuses.installed, "Time").unwrap_or(true), "Time should not be installed initially");
    assert!(status_of(&statuses.configured, "Browser").unwrap_or(false), "Browser should be configured");
    assert!(status_of(&statuses.configured, "Time").unwrap_or(false), "Time should be configured");

    app::install(&mut config, &configs, "Browser", None).expect("Failed to install Browser app");

    let statuses_after = get_app_statuses(&config, &configs);
    assert!(status_of(&statuses_after.installed, "Browser").unwrap_or(false), "Browser should be installed");
    assert!(!status_of(&statuses_after.installed, "Time").unwrap_or(true), "Time should not be installed");
}

#[test]
fn test_get_app_registry() {
    let mut cache = RegistryCache::new();
    assert!(cache.get_app_registry().is_none());
    cache.fetched(setup_mock_registry());
    let registry = cache.get_app_registry().expect("Failed to get app registry");

    let apps = match registry {
        JsonValue::Array(apps) => apps,
        _ => panic!("Registry should be an array"),
    };
    assert_eq!(apps.len(), 2, "Registry should contain 2 apps");

    let browser = apps
        .iter()
        .find(|a| text(get(a, "name")) == "Browser")
        .expect("Browser app not found in registry");
    assert_eq!(text(get(get(browser, "config").unwrap(), "mcpKey")), "puppeteer");
    assert_eq!(text(get(browser, "category")), "Utilities");

    let time = apps.iter().find(|a| text(get(a, "name")) == "Time").expect("Time app not found in registry");
    assert_eq!(text(get(get(time, "config").unwrap(), "mcpKey")), "time");
    assert_eq!(text(get(time, "developer")), "Anthropic");

    cache.clear();
    assert!(cache.get_app_registry().is_none());
}

#[test]
fn browser_scenario_writes_shim_command_and_args() {
    let registry = JsonValue::Array(vec![obj(vec![
        ("name", s("Browser")),
        (
            "config",
            obj(vec![
                ("mcpKey", s("puppeteer")),
                ("runtime", s("npx")),
                ("args", strs(&["-y", "@pkg/server-puppeteer", "--debug"])),
            ]),
        ),
    ])]);
    let configs = get_app_configs(&registry, SHIM, UVX).unwrap();
    let mut doc = default_config();
    let r = app::install(&mut doc, &configs, "Browser", None).unwrap();
    assert_eq!(r.message("Browser"), "Added puppeteer configuration for Browser");
    let entry = get(servers(&doc), "puppeteer").unwrap();
    assert_eq!(text(get(entry, "command")), SHIM);
    assert_ne!(text(get(entry, "command")), "npx");
    match get(entry, "args") {
        Some(JsonValue::Array(a)) => {
            let got: Vec<&str> = a.iter().map(|v| text(Some(v))).collect();
            assert_eq!(got, vec!["-y", "@pkg/server-puppeteer", "--debug"]);
        }
        _ => panic!("args should be an array"),
    }
    assert!(get(entry, "env").is_none());
}

#[test]
fn messages_of_outcomes_and_errors() {
    let added = InstallOutcome::Added { mcp_key: "time".to_string() };
    assert_eq!(added.message("Time"), "Added time configuration for Time");
    assert_eq!(InstallOutcome::NoConfiguration.message("X"), "No configuration available for X");
    let removed = UninstallOutcome::Removed { mcp_key: "time".to_string() };
    assert_eq!(removed.message("Time"), "Removed time configuration for Time");
    assert_eq!(UninstallOutcome::NotFound.message("Time"), "Configuration for Time was not found");
    assert_eq!(AppError::NoConfiguration.message("Y"), "No configuration available for 'Y'");
    assert_eq!(AppError::MissingServers.message("Y"), "Failed to find mcpServers in config");
    assert_eq!(AppError::NotInstalled.message("Y"), "App 'Y' is not installed");
    assert_eq!(AppError::InvalidEnvFormat.message("Y"), "Invalid env_values format");
    assert_eq!(env_saved_message("Browser"), "Saved ENV values for app 'Browser'");
}

#[test]
fn operations_without_server_table_fail() {
    let configs = configs();
    let mut doc = obj(vec![("other", s("kept"))]);
    assert_eq!(app::install(&mut doc, &configs, "Browser", None).err(), Some(AppError::MissingServers));
    assert_eq!(uninstall(&mut doc, &configs, "Browser").err(), Some(AppError::MissingServers));
    assert!(!is_installed(&doc, &configs, "Browser"));
    assert_eq!(get_app_env(&doc, &configs, "Browser").err(), Some(AppError::MissingServers));
    let statuses = get_app_statuses(&doc, &configs);
    assert!(statuses.installed.is_empty() && statuses.configured.is_empty());
    assert_eq!(text(get(&doc, "other")), "kept");
}

#[test]
fn save_env_rejects_non_object_values() {
    let configs = configs();
    let mut doc = default_config();
    app::install(&mut doc, &configs, "Browser", None).unwrap();
    let r = save_app_env(&mut doc, &configs, "Browser", s("not an object"));
    assert_eq!(r, Err(AppError::InvalidEnvFormat));
    assert!(get(get(servers(&doc), "puppeteer").unwrap(), "env").is_none());
    let r = save_app_env(&mut doc, &configs, "Nope", obj(vec![]));
    assert_eq!(r, Err(AppError::NoConfiguration));
}

#[test]
fn get_env_of_entry_without_env_is_none() {
    let configs = configs();
    let mut doc = default_config();
    app::install(&mut doc, &configs, "Time", None).unwrap();
    assert!(get_app_env(&doc, &configs, "Time").unwrap().is_none());
    assert_eq!(get_app_env(&doc, &configs, "Browser").err(), Some(AppError::NotInstalled));
}

#[test]
fn unknown_top_level_keys_are_kept() {
    let configs = configs();
    let mut doc = obj(vec![("theme", s("dark")), ("mcpServers", obj(vec![]))]);
    app::install(&mut doc, &configs, "Browser", None).unwrap();
    uninstall(&mut doc, &configs, "Browser").unwrap();
    assert_eq!(text(get(&doc, "theme")), "dark");
}
