use ezhomie::config::{AppTarget, Config, OffConfig};
use ezhomie::planner::{build_off_plan, build_on_plan, Action};
use ezhomie::runner::{
    countdown_line, plan_shutdown, plan_steps, shutdown_notice, status_lines, ShutdownPlan, Step,
    SystemCall,
};
use ezhomie::text::decimal_string;

#[test]
fn dry_run_does_not_call_system() {
    let config = Config::default();
    let on_plan = build_on_plan(&config);
    let off_plan = build_off_plan(&config);

    for plan in [on_plan, off_plan] {
        let steps = plan_steps(&plan, true);
        assert_eq!(steps.len(), plan.len());
        for (step, action) in steps.iter().zip(plan.iter()) {
            assert_eq!(step, &Step::Print(action.describe()));
        }
    }
}

#[test]
fn empty_plan_says_nothing_to_do() {
    let empty: Vec<Action> = Vec::new();
    assert_eq!(plan_steps(&empty, false), vec![Step::Print("Nothing to do.".to_string())]);
    assert_eq!(plan_steps(&empty, true), vec![Step::Print("Nothing to do.".to_string())]);
}

#[test]
fn wet_run_announces_calls_and_waits() {
    let plan = vec![
        Action::OpenApp { name: "Cursor".to_string(), delay_ms: 500 },
        Action::RunCommand { name: None, cmd: "make".to_string(), delay_ms: 0 },
        Action::QuitApp { name: "Mail".to_string(), timeout_secs: 4 },
    ];
    assert_eq!(
        plan_steps(&plan, false),
        vec![
            Step::Print("open app: Cursor (delay 500ms)".to_string()),
            Step::Call(SystemCall::OpenApp { name: "Cursor".to_string() }),
            Step::SleepMs(500),
            Step::Print("run command: make".to_string()),
            Step::Call(SystemCall::RunCommand { cmd: "make".to_string() }),
            Step::Print("quit app: Mail (timeout 4s)".to_string()),
            Step::Call(SystemCall::QuitApp { name: "Mail".to_string(), timeout_secs: 4 }),
        ]
    );
}

#[test]
fn wet_run_calls_each_action_once_in_order() {
    let plan = build_on_plan(&Config::default());
    let calls: Vec<SystemCall> = plan_steps(&plan, false)
        .into_iter()
        .filter_map(|s| match s {
            Step::Call(c) => Some(c),
            _ => None,
        })
        .collect();
    assert_eq!(
        calls,
        vec![
            SystemCall::OpenApp { name: "Cursor".to_string() },
            SystemCall::OpenApp { name: "Google Chrome".to_string() },
            SystemCall::OpenUrl { url: "https://calendar.google.com".to_string() },
            SystemCall::RunCommand { cmd: "cd ~/project && npm run dev".to_string() },
        ]
    );
}

#[test]
fn off_plan_steps_use_app_timeouts() {
    let mut config = Config::default();
    config.apps = vec![AppTarget { name: "X".to_string(), delay_ms: 50, timeout_secs: Some(2) }];
    let steps = plan_steps(&build_off_plan(&config), false);
    assert_eq!(
        steps,
        vec![
            Step::Print("quit app: X (timeout 2s)".to_string()),
            Step::Call(SystemCall::QuitApp { name: "X".to_string(), timeout_secs: 2 }),
        ]
    );
}

#[test]
fn shutdown_decisions() {
    let on = OffConfig { confirm_seconds: 10, shutdown: true, quit_timeout_secs: 15 };
    let off = OffConfig { confirm_seconds: 10, shutdown: false, quit_timeout_secs: 15 };
    assert_eq!(
        plan_shutdown(&on, true, false),
        ShutdownPlan::Report("shutdown: enabled after 10s confirmation".to_string())
    );
    assert_eq!(
        plan_shutdown(&off, true, true),
        ShutdownPlan::Report("shutdown: disabled".to_string())
    );
    assert_eq!(plan_shutdown(&off, false, false), ShutdownPlan::Skip);
    assert_eq!(plan_shutdown(&on, false, true), ShutdownPlan::Immediate);
    assert_eq!(plan_shutdown(&on, false, false), ShutdownPlan::Countdown(10));
}

#[test]
fn shutdown_texts() {
    assert_eq!(
        shutdown_notice(10),
        "EzHomie will shut down this Mac in 10 seconds. Press Ctrl+C to cancel."
    );
    assert_eq!(countdown_line(3), "\rShutting down in 3s ");
}

#[test]
fn status_report_lines() {
    let lines = status_lines("/Users/me/.config/ezhomie/config.toml", &Config::default());
    assert_eq!(
        lines,
        vec![
            "Config: /Users/me/.config/ezhomie/config.toml".to_string(),
            "Apps: 2".to_string(),
            "URLs: 1".to_string(),
            "Commands: 1".to_string(),
            "Shutdown on off: true".to_string(),
            "Confirm seconds: 10".to_string(),
        ]
    );
}

#[test]
fn decimal_strings() {
    assert_eq!(decimal_string(0), "0");
    assert_eq!(decimal_string(9), "9");
    assert_eq!(decimal_string(10), "10");
    assert_eq!(decimal_string(1234567890), "1234567890");
    assert_eq!(decimal_string(u64::MAX), u64::MAX.to_string());
}
