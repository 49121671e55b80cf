use ezhomie::config::{AppTarget, CommandTarget, Config, OffConfig, UrlTarget};
use ezhomie::planner::{build_off_plan, build_on_plan, describe_delay, Action};

#[test]
fn builds_on_plan_in_config_order() {
    let config = Config {
        off: OffConfig::default(),
        apps: vec![AppTarget {
            name: "Cursor".to_string(),
            delay_ms: 100,
            timeout_secs: None,
        }],
        urls: vec![UrlTarget {
            url: "https://example.com".to_string(),
            delay_ms: 200,
        }],
        commands: vec![CommandTarget {
            name: Some("dev".to_string()),
            cmd: "npm run dev".to_string(),
            delay_ms: 300,
        }],
    };

    assert_eq!(
        build_on_plan(&config),
        vec![
            Action::OpenApp {
                name: "Cursor".to_string(),
                delay_ms: 100
            },
            Action::OpenUrl {
                url: "https://example.com".to_string(),
                delay_ms: 200
            },
            Action::RunCommand {
                name: Some("dev".to_string()),
                cmd: "npm run dev".to_string(),
                delay_ms: 300
            }
        ]
    );
}

#[test]
fn builds_off_plan_in_reverse_app_order() {
    let mut config = Config::default();
    config.apps = vec![
        AppTarget {
            name: "A".to_string(),
            delay_ms: 0,
            timeout_secs: None,
        },
        AppTarget {
            name: "B".to_string(),
            delay_ms: 0,
            timeout_secs: Some(3),
        },
    ];

    assert_eq!(
        build_off_plan(&config),
        vec![
            Action::QuitApp {
                name: "B".to_string(),
                timeout_secs: 3
            },
            Action::QuitApp {
                name: "A".to_string(),
                timeout_secs: config.off.quit_timeout_secs
            }
        ]
    );
}

#[test]
fn on_plan_of_default_config() {
    let plan = build_on_plan(&Config::default());
    assert_eq!(
        plan,
        vec![
            Action::OpenApp { name: "Cursor".to_string(), delay_ms: 500 },
            Action::OpenApp { name: "Google Chrome".to_string(), delay_ms: 500 },
            Action::OpenUrl { url: "https://calendar.google.com".to_string(), delay_ms: 300 },
            Action::RunCommand {
                name: Some("start dev service".to_string()),
                cmd: "cd ~/project && npm run dev".to_string(),
                delay_ms: 0
            },
        ]
    );
}

#[test]
fn empty_config_gives_empty_plans() {
    let config = Config { off: OffConfig::default(), apps: vec![], urls: vec![], commands: vec![] };
    assert!(build_on_plan(&config).is_empty());
    assert!(build_off_plan(&config).is_empty());
}

#[test]
fn off_plan_quits_opened_apps_last_first() {
    let config = Config::default();
    let on: Vec<String> = build_on_plan(&config)
        .into_iter()
        .filter_map(|a| match a {
            Action::OpenApp { name, .. } => Some(name),
            _ => None,
        })
        .collect();
    let off: Vec<String> = build_off_plan(&config)
        .into_iter()
        .map(|a| match a {
            Action::QuitApp { name, timeout_secs } => {
                assert_eq!(timeout_secs, 15);
                name
            }
            other => panic!("unexpected action {:?}", other),
        })
        .collect();
    let mut reversed = on.clone();
    reversed.reverse();
    assert_eq!(off, reversed);
    assert_eq!(off, vec!["Google Chrome".to_string(), "Cursor".to_string()]);
}

#[test]
fn describes_each_action() {
    let open = Action::OpenApp { name: "Cursor".to_string(), delay_ms: 500 };
    assert_eq!(open.describe(), "open app: Cursor (delay 500ms)");
    let url = Action::OpenUrl { url: "https://x.org".to_string(), delay_ms: 0 };
    assert_eq!(url.describe(), "open url: https://x.org");
    let named = Action::RunCommand {
        name: Some("dev".to_string()),
        cmd: "npm run dev".to_string(),
        delay_ms: 7,
    };
    assert_eq!(named.describe(), "run command: dev (delay 7ms)");
    let unnamed = Action::RunCommand { name: None, cmd: "ls -la".to_string(), delay_ms: 0 };
    assert_eq!(unnamed.describe(), "run command: ls -la");
    let quit = Action::QuitApp { name: "Slack".to_string(), timeout_secs: 15 };
    assert_eq!(quit.describe(), "quit app: Slack (timeout 15s)");
    let quit_now = Action::QuitApp { name: "Slack".to_string(), timeout_secs: 0 };
    assert_eq!(quit_now.describe(), "quit app: Slack (timeout 0s)");
}

#[test]
fn delay_of_each_action() {
    assert_eq!(Action::OpenApp { name: "a".to_string(), delay_ms: 5 }.delay_ms(), 5);
    assert_eq!(Action::OpenUrl { url: "u".to_string(), delay_ms: 6 }.delay_ms(), 6);
    assert_eq!(
        Action::RunCommand { name: None, cmd: "c".to_string(), delay_ms: 7 }.delay_ms(),
        7
    );
    assert_eq!(Action::QuitApp { name: "a".to_string(), timeout_secs: 9 }.delay_ms(), 0);
}

#[test]
fn describes_delays() {
    assert_eq!(describe_delay(0), "");
    assert_eq!(describe_delay(1), " (delay 1ms)");
    assert_eq!(describe_delay(18446744073709551615), " (delay 18446744073709551615ms)");
}
