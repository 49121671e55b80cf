use ezhomie::config::{
    check_init, default_confirm_seconds, default_quit_timeout_secs, default_shutdown,
    expand_tilde, join_path_string, resolve_config_path, Config, InitError, OffConfig, PathError,
    DEFAULT_CONFIG,
};

#[test]
fn default_off_config_values() {
    let off = OffConfig::default();
    assert_eq!(off.confirm_seconds, 10);
    assert!(off.shutdown);
    assert_eq!(off.quit_timeout_secs, 15);
    assert_eq!(default_confirm_seconds(), 10);
    assert!(default_shutdown());
    assert_eq!(default_quit_timeout_secs(), 15);
}

#[test]
fn default_config_values() {
    let config = Config::default();
    assert_eq!(config.off, OffConfig::default());
    assert_eq!(config.apps.len(), 2);
    assert_eq!(config.apps[0].name, "Cursor");
    assert_eq!(config.apps[0].delay_ms, 500);
    assert_eq!(config.apps[0].timeout_secs, None);
    assert_eq!(config.apps[1].name, "Google Chrome");
    assert_eq!(config.urls.len(), 1);
    assert_eq!(config.urls[0].url, "https://calendar.google.com");
    assert_eq!(config.urls[0].delay_ms, 300);
    assert_eq!(config.commands.len(), 1);
    assert_eq!(config.commands[0].name.as_deref(), Some("start dev service"));
    assert_eq!(config.commands[0].cmd, "cd ~/project && npm run dev");
    assert_eq!(config.commands[0].delay_ms, 0);
}

#[test]
fn default_config_text_names_the_default_targets() {
    assert!(DEFAULT_CONFIG.contains("confirm_seconds = 10"));
    assert!(DEFAULT_CONFIG.contains("name = \"Google Chrome\""));
    assert!(DEFAULT_CONFIG.contains("url = \"https://calendar.google.com\""));
}

fn home() -> Option<String> {
    Some("/Users/me".to_string())
}

#[test]
fn expands_tilde_alone() {
    assert_eq!(expand_tilde("~".to_string(), home()), Ok("/Users/me".to_string()));
    assert_eq!(expand_tilde("~".to_string(), None), Err(PathError::HomeNotSet));
}

#[test]
fn expands_tilde_prefix() {
    assert_eq!(
        expand_tilde("~/work/cfg.toml".to_string(), home()),
        Ok("/Users/me/work/cfg.toml".to_string())
    );
    assert_eq!(expand_tilde("~/".to_string(), home()), Ok("/Users/me/".to_string()));
    assert_eq!(expand_tilde("~/x".to_string(), None), Err(PathError::HomeNotSet));
}

#[test]
fn leaves_other_paths_alone() {
    for p in ["./config.toml", "/etc/ezhomie.toml", "~user/x", "", "a~/b"] {
        assert_eq!(expand_tilde(p.to_string(), None), Ok(p.to_string()));
    }
}

#[test]
fn joins_paths_as_unix_does() {
    assert_eq!(join_path_string("/home/u", "a/b"), "/home/u/a/b");
    assert_eq!(join_path_string("/home/u/", "a"), "/home/u/a");
    assert_eq!(join_path_string("", "a"), "a");
    assert_eq!(join_path_string("/home/u", "/etc/x"), "/etc/x");
    assert_eq!(expand_tilde("~//etc/x".to_string(), home()), Ok("/etc/x".to_string()));
}

#[test]
fn resolves_config_path() {
    assert_eq!(
        resolve_config_path(None, home()),
        Ok("/Users/me/.config/ezhomie/config.toml".to_string())
    );
    assert_eq!(resolve_config_path(None, None), Err(PathError::HomeNotSetNoOverride));
    assert_eq!(
        resolve_config_path(Some("./config.toml".to_string()), None),
        Ok("./config.toml".to_string())
    );
    assert_eq!(
        resolve_config_path(Some("~/c.toml".to_string()), home()),
        Ok("/Users/me/c.toml".to_string())
    );
    assert_eq!(
        resolve_config_path(Some("~/c.toml".to_string()), None),
        Err(PathError::HomeNotSet)
    );
}

#[test]
fn path_error_messages() {
    assert_eq!(PathError::HomeNotSet.message(), "HOME is not set");
    assert_eq!(
        PathError::HomeNotSetNoOverride.message(),
        "HOME is not set; pass --config <PATH> instead"
    );
}

#[test]
fn init_refuses_to_overwrite_unless_forced() {
    assert_eq!(check_init(true, false), Err(InitError::AlreadyExists));
    assert_eq!(check_init(true, true), Ok(()));
    assert_eq!(check_init(false, false), Ok(()));
    assert_eq!(check_init(false, true), Ok(()));
}

#[test]
fn default_config_text_holds_the_default_config() {
    let table: toml::Table = DEFAULT_CONFIG.parse().unwrap();
    let config = Config::default();

    let off = table["off"].as_table().unwrap();
    assert_eq!(off["confirm_seconds"].as_integer(), Some(config.off.confirm_seconds as i64));
    assert_eq!(off["shutdown"].as_bool(), Some(config.off.shutdown));
    assert_eq!(off["quit_timeout_secs"].as_integer(), Some(config.off.quit_timeout_secs as i64));

    let apps = table["apps"].as_array().unwrap();
    assert_eq!(apps.len(), config.apps.len());
    for (entry, app) in apps.iter().zip(config.apps.iter()) {
        assert_eq!(entry["name"].as_str(), Some(app.name.as_str()));
        assert_eq!(entry["delay_ms"].as_integer(), Some(app.delay_ms as i64));
        assert!(entry.get("timeout_secs").is_none());
        assert!(app.timeout_secs.is_none());
    }

    let urls = table["urls"].as_array().unwrap();
    assert_eq!(urls.len(), config.urls.len());
    assert_eq!(urls[0]["url"].as_str(), Some(config.urls[0].url.as_str()));
    assert_eq!(urls[0]["delay_ms"].as_integer(), Some(config.urls[0].delay_ms as i64));

    let commands = table["commands"].as_array().unwrap();
    assert_eq!(commands.len(), config.commands.len());
    assert_eq!(commands[0]["name"].as_str(), config.commands[0].name.as_deref());
    assert_eq!(commands[0]["cmd"].as_str(), Some(config.commands[0].cmd.as_str()));
    assert_eq!(commands[0]["delay_ms"].as_integer(), Some(config.commands[0].delay_ms as i64));
}
