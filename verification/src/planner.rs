//! Turning a configuration into an ordered plan of actions, and the text
//! that announces each action.

use vstd::prelude::*;
use vstd::string::*;

use crate::config::{
    AppTarget, AppTargetView, CommandTarget, CommandTargetView, Config, ConfigView, UrlTarget,
    UrlTargetView, opt_view,
};
use crate::text::{decimal, decimal_string};

verus! {

/// One step of a plan.
#[derive(Debug, Clone, PartialEq, Eq)]
pub enum Action {
    OpenApp { name: String, delay_ms: u64 },
    OpenUrl { url: String, delay_ms: u64 },
    RunCommand { name: Option<String>, cmd: String, delay_ms: u64 },
    QuitApp { name: String, timeout_secs: u64 },
}

/// An [`Action`] as a mathematical value.
pub enum ActionView {
    OpenApp { name: Seq<char>, delay_ms: u64 },
    OpenUrl { url: Seq<char>, delay_ms: u64 },
    RunCommand { name: Option<Seq<char>>, cmd: Seq<char>, delay_ms: u64 },
    QuitApp { name: Seq<char>, timeout_secs: u64 },
}

impl View for Action {
    type V = ActionView;

    open spec fn view(&self) -> ActionView {
        match self {
            Action::OpenApp { name, delay_ms } => ActionView::OpenApp {
                name: name@,
                delay_ms: *delay_ms,
            },
            Action::OpenUrl { url, delay_ms } => ActionView::OpenUrl { url: url@, delay_ms: *delay_ms },
            Action::RunCommand { name, cmd, delay_ms } => ActionView::RunCommand {
                name: opt_view(*name),
                cmd: cmd@,
                delay_ms: *delay_ms,
            },
            Action::QuitApp { name, timeout_secs } => ActionView::QuitApp {
                name: name@,
                timeout_secs: *timeout_secs,
            },
        }
    }
}

/// The views of a list of actions.
pub open spec fn actions_view(actions: Seq<Action>) -> Seq<ActionView> {
    actions.map_values(|a: Action| a@)
}

/// How long to wait after an action, in milliseconds.
pub open spec fn action_delay(a: ActionView) -> u64 {
    match a {
        ActionView::OpenApp { delay_ms, .. } => delay_ms,
        ActionView::OpenUrl { delay_ms, .. } => delay_ms,
        ActionView::RunCommand { delay_ms, .. } => delay_ms,
        ActionView::QuitApp { .. } => 0,
    }
}

/// The text that follows an action's description to announce its delay:
/// nothing for no delay.
pub open spec fn delay_suffix(delay_ms: u64) -> Seq<char> {
    if delay_ms == 0 {
        Seq::empty()
    } else {
        " (delay "@ + decimal(delay_ms as nat) + "ms)"@
    }
}

/// The line that announces an action.
pub open spec fn action_text(a: ActionView) -> Seq<char> {
    match a {
        ActionView::OpenApp { name, delay_ms } => "open app: "@ + name + delay_suffix(delay_ms),
        ActionView::OpenUrl { url, delay_ms } => "open url: "@ + url + delay_suffix(delay_ms),
        ActionView::RunCommand { name, cmd, delay_ms } => "run command: "@ + (match name {
            Some(n) => n,
            None => cmd,
        }) + delay_suffix(delay_ms),
        ActionView::QuitApp { name, timeout_secs } => "quit app: "@ + name + " (timeout "@
            + decimal(timeout_secs as nat) + "s)"@,
    }
}

/// The action that opens an app target.
pub open spec fn open_app_action(a: AppTargetView) -> ActionView {
    ActionView::OpenApp { name: a.name, delay_ms: a.delay_ms }
}

/// The action that opens a URL target.
pub open spec fn open_url_action(u: UrlTargetView) -> ActionView {
    ActionView::OpenUrl { url: u.url, delay_ms: u.delay_ms }
}

/// The action that runs a command target.
pub open spec fn run_command_action(c: CommandTargetView) -> ActionView {
    ActionView::RunCommand { name: c.name, cmd: c.cmd, delay_ms: c.delay_ms }
}

/// The action that quits an app target, waiting its own timeout or else `default_timeout`.
pub open spec fn quit_app_action(a: AppTargetView, default_timeout: u64) -> ActionView {
    ActionView::QuitApp {
        name: a.name,
        timeout_secs: match a.timeout_secs {
            Some(t) => t,
            None => default_timeout,
        },
    }
}

/// The morning plan: every app, then every URL, then every command, each
/// group in the order of the configuration.
pub open spec fn on_plan(c: ConfigView) -> Seq<ActionView> {
    c.apps.map_values(|a: AppTargetView| open_app_action(a)) + c.urls.map_values(
        |u: UrlTargetView| open_url_action(u),
    ) + c.commands.map_values(|m: CommandTargetView| run_command_action(m))
}

/// The evening plan: every app quit, in the reverse of the configured order.
pub open spec fn off_plan(c: ConfigView) -> Seq<ActionView> {
    c.apps.reverse().map_values(|a: AppTargetView| quit_app_action(a, c.off.quit_timeout_secs))
}

/// The text that announces a delay: empty for none, else ` (delay <ms>ms)`.
pub fn describe_delay(delay_ms: u64) -> (s: String)
    ensures
        s@ == delay_suffix(delay_ms),
        s@.len() == 0 <==> delay_ms == 0,
        delay_ms > 0 ==> s@ == " (delay "@ + decimal(delay_ms as nat) + "ms)"@,
{
    if delay_ms == 0 {
        String::new()
    } else {
        let mut s = String::from_str(" (delay ");
        let digits = decimal_string(delay_ms);
        s.append(digits.as_str());
        s.append("ms)");
        s
    }
}

fn clone_opt_string(s: &Option<String>) -> (r: Option<String>)
    ensures
        opt_view(r) == opt_view(*s),
{
    match s {
        Some(t) => Some(t.clone()),
        None => None,
    }
}

impl Action {
    /// The line printed before the action is carried out.
    pub fn describe(&self) -> (s: String)
        ensures
            s@ == action_text(self@),
            self matches Action::OpenApp { name, delay_ms } ==> s@ == "open app: "@ + name@
                + (if *delay_ms == 0 { Seq::<char>::empty() } else { " (delay "@ + decimal(*delay_ms as nat) + "ms)"@ }),
            self matches Action::OpenUrl { url, delay_ms } ==> s@ == "open url: "@ + url@
                + (if *delay_ms == 0 { Seq::<char>::empty() } else { " (delay "@ + decimal(*delay_ms as nat) + "ms)"@ }),
            self matches Action::RunCommand { name, cmd, delay_ms } ==> s@ == "run command: "@
                + (match name {
                Some(n) => n@,
                None => cmd@,
            }) + (if *delay_ms == 0 { Seq::<char>::empty() } else { " (delay "@ + decimal(*delay_ms as nat) + "ms)"@ }),
            self matches Action::QuitApp { name, timeout_secs } ==> s@ == "quit app: "@ + name@
                + " (timeout "@ + decimal(*timeout_secs as nat) + "s)"@,
    {
        match self {
            Action::OpenApp { name, delay_ms } => {
                let mut s = String::from_str("open app: ");
                s.append(name.as_str());
                let d = describe_delay(*delay_ms);
                s.append(d.as_str());
                s
            },
            Action::OpenUrl { url, delay_ms } => {
                let mut s = String::from_str("open url: ");
                s.append(url.as_str());
                let d = describe_delay(*delay_ms);
                s.append(d.as_str());
                s
            },
            Action::RunCommand { name, cmd, delay_ms } => {
                let mut s = String::from_str("run command: ");
                match name {
                    Some(n) => s.append(n.as_str()),
                    None => s.append(cmd.as_str()),
                }
                let d = describe_delay(*delay_ms);
                s.append(d.as_str());
                s
            },
            Action::QuitApp { name, timeout_secs } => {
                let mut s = String::from_str("quit app: ");
                s.append(name.as_str());
                s.append(" (timeout ");
                let t = decimal_string(*timeout_secs);
                s.append(t.as_str());
                s.append("s)");
                s
            },
        }
    }

    /// Milliseconds to wait after the action; quitting an app waits inside
    /// the quit itself, so it is followed by no delay.
    pub fn delay_ms(&self) -> (d: u64)
        ensures
            d == action_delay(self@),
            self matches Action::OpenApp { delay_ms, .. } ==> d == *delay_ms,
            self matches Action::OpenUrl { delay_ms, .. } ==> d == *delay_ms,
            self matches Action::RunCommand { delay_ms, .. } ==> d == *delay_ms,
            self is QuitApp ==> d == 0,
    {
        match self {
            Action::OpenApp { delay_ms, .. } => *delay_ms,
            Action::OpenUrl { delay_ms, .. } => *delay_ms,
            Action::RunCommand { delay_ms, .. } => *delay_ms,
            Action::QuitApp { .. } => 0,
        }
    }
}

/// The morning plan of a configuration: its apps, URLs and commands, in that
/// order and each in the configured order.
pub fn build_on_plan(config: &Config) -> (actions: Vec<Action>)
    ensures
        actions_view(actions@) == on_plan(config@),
        actions.len() == config.apps.len() + config.urls.len() + config.commands.len(),
        forall|j: int|
            0 <= j < config.apps.len() ==> #[trigger] actions@[j]@ == (ActionView::OpenApp {
                name: config.apps@[j].name@,
                delay_ms: config.apps@[j].delay_ms,
            }),
        forall|j: int|
            0 <= j < config.urls.len() ==> actions@[config.apps.len() + j]@ == (ActionView::OpenUrl {
                url: (#[trigger] config.urls@[j]).url@,
                delay_ms: config.urls@[j].delay_ms,
            }),
        forall|j: int|
            0 <= j < config.commands.len() ==> actions@[config.apps.len() + config.urls.len()
                + j]@ == (ActionView::RunCommand {
                name: opt_view((#[trigger] config.commands@[j]).name),
                cmd: config.commands@[j].cmd@,
                delay_ms: config.commands@[j].delay_ms,
            }),
{
    let ghost c = config@;
    let mut actions: Vec<Action> = Vec::new();
    let na = config.apps.len();
    for i in 0..na
        invariant
            na == config.apps.len(),
            c == config@,
            actions.len() == i,
            forall|j: int| 0 <= j < i ==> #[trigger] actions@[j]@ == open_app_action(c.apps[j]),
    {
        let app = &config.apps[i];
        actions.push(Action::OpenApp { name: app.name.clone(), delay_ms: app.delay_ms });
    }
    let nu = config.urls.len();
    for i in 0..nu
        invariant
            na == config.apps.len(),
            nu == config.urls.len(),
            c == config@,
            actions.len() == na + i,
            forall|j: int| 0 <= j < na ==> #[trigger] actions@[j]@ == open_app_action(c.apps[j]),
            forall|j: int|
                0 <= j < i ==> #[trigger] actions@[na + j]@ == open_url_action(c.urls[j]),
    {
        let url = &config.urls[i];
        actions.push(Action::OpenUrl { url: url.url.clone(), delay_ms: url.delay_ms });
    }
    let nc = config.commands.len();
    for i in 0..nc
        invariant
            na == config.apps.len(),
            nu == config.urls.len(),
            nc == config.commands.len(),
            c == config@,
            actions.len() == na + nu + i,
            forall|j: int| 0 <= j < na ==> #[trigger] actions@[j]@ == open_app_action(c.apps[j]),
            forall|j: int|
                0 <= j < nu ==> #[trigger] actions@[na + j]@ == open_url_action(c.urls[j]),
            forall|j: int|
                0 <= j < i ==> #[trigger] actions@[na + nu + j]@ == run_command_action(
                    c.commands[j],
                ),
    {
        let command = &config.commands[i];
        actions.push(
            Action::RunCommand {
                name: clone_opt_string(&command.name),
                cmd: command.cmd.clone(),
                delay_ms: command.delay_ms,
            },
        );
    }
    assert forall|j: int| 0 <= j < actions@.len() implies #[trigger] actions_view(actions@)[j]
        == on_plan(c)[j] by {
        if j < na {
        } else if j < na + nu {
            assert(actions@[na + (j - na)]@ == open_url_action(c.urls[j - na]));
        } else {
            assert(actions@[na + nu + (j - na - nu)]@ == run_command_action(
                c.commands[j - na - nu],
            ));
        }
    }
    assert(actions_view(actions@) =~= on_plan(c));
    proof {
        lemma_on_plan_keeps_config_order(c);
        assert forall|j: int| 0 <= j < actions@.len() implies #[trigger] actions@[j]@
            == on_plan(c)[j] by {
            assert(actions_view(actions@)[j] == actions@[j]@);
        }
        assert forall|j: int| 0 <= j < nu implies actions@[na + j]@ == (ActionView::OpenUrl {
            url: (#[trigger] config.urls@[j]).url@,
            delay_ms: config.urls@[j].delay_ms,
        }) by {
            assert(c.urls[j] == config.urls@[j]@);
        }
        assert forall|j: int| 0 <= j < nc implies actions@[na + nu + j]@
            == (ActionView::RunCommand {
            name: opt_view((#[trigger] config.commands@[j]).name),
            cmd: config.commands@[j].cmd@,
            delay_ms: config.commands@[j].delay_ms,
        }) by {
            assert(c.commands[j] == config.commands@[j]@);
        }
        assert forall|j: int| 0 <= j < na implies #[trigger] actions@[j]@ == (ActionView::OpenApp {
            name: config.apps@[j].name@,
            delay_ms: config.apps@[j].delay_ms,
        }) by {
            assert(c.apps[j] == config.apps@[j]@);
        }
    }
    actions
}

/// The evening plan of a configuration: each app quit, last configured
/// first, waiting the app's own timeout or else the configured default.
pub fn build_off_plan(config: &Config) -> (actions: Vec<Action>)
    ensures
        actions_view(actions@) == off_plan(config@),
        actions.len() == config.apps.len(),
        forall|j: int|
            0 <= j < config.apps.len() ==> #[trigger] actions@[j]@ == (ActionView::QuitApp {
                name: config.apps@[config.apps.len() - 1 - j].name@,
                timeout_secs: match config.apps@[config.apps.len() - 1 - j].timeout_secs {
                    Some(t) => t,
                    None => config.off.quit_timeout_secs,
                },
            }),
{
    let ghost c = config@;
    let mut actions: Vec<Action> = Vec::new();
    let n = config.apps.len();
    for i in 0..n
        invariant
            n == config.apps.len(),
            c == config@,
            actions.len() == i,
            forall|j: int|
                0 <= j < i ==> #[trigger] actions@[j]@ == quit_app_action(
                    c.apps[n - 1 - j],
                    c.off.quit_timeout_secs,
                ),
    {
        let app = &config.apps[n - 1 - i];
        let timeout_secs = match app.timeout_secs {
            Some(t) => t,
            None => config.off.quit_timeout_secs,
        };
        actions.push(Action::QuitApp { name: app.name.clone(), timeout_secs });
    }
    assert(actions_view(actions@) =~= off_plan(c));
    proof {
        assert forall|j: int| 0 <= j < n implies #[trigger] actions@[j]@ == (ActionView::QuitApp {
            name: config.apps@[n - 1 - j].name@,
            timeout_secs: match config.apps@[n - 1 - j].timeout_secs {
                Some(t) => t,
                None => config.off.quit_timeout_secs,
            },
        }) by {
            assert(c.apps[n - 1 - j] == config.apps@[n - 1 - j]@);
        }
    }
    actions
}

/// The app that an action opens or quits, if it is about an app.
pub open spec fn app_of(a: ActionView) -> Option<Seq<char>> {
    match a {
        ActionView::OpenApp { name, .. } => Some(name),
        ActionView::QuitApp { name, .. } => Some(name),
        _ => None,
    }
}

/// The evening undoes the morning's apps: the evening plan quits exactly the
/// apps that the morning plan opens, one quit per open, the last opened
/// first, and waits for each the app's own timeout or else the default.
pub proof fn lemma_off_plan_quits_opened_apps_in_reverse(c: ConfigView)
    ensures
        off_plan(c).len() == c.apps.len(),
        c.apps.len() <= on_plan(c).len(),
        forall|i: int|
            0 <= i < c.apps.len() ==> {
                &&& #[trigger] off_plan(c)[i] is QuitApp
                &&& on_plan(c)[c.apps.len() - 1 - i] is OpenApp
                &&& app_of(off_plan(c)[i]) == app_of(on_plan(c)[c.apps.len() - 1 - i])
                &&& off_plan(c)[i]->timeout_secs == match c.apps[c.apps.len() - 1 - i].timeout_secs {
                    Some(t) => t,
                    None => c.off.quit_timeout_secs,
                }
            },
{
    let n = c.apps.len();
    assert forall|i: int| 0 <= i < n implies {
        &&& #[trigger] off_plan(c)[i] is QuitApp
        &&& on_plan(c)[n - 1 - i] is OpenApp
        &&& app_of(off_plan(c)[i]) == app_of(on_plan(c)[n - 1 - i])
    } by {
        assert(c.apps.reverse()[i] == c.apps[n - 1 - i]);
        assert(on_plan(c)[n - 1 - i] == open_app_action(c.apps[n - 1 - i]));
    }
}

/// Quitting waits inside the quit, so the evening plan pauses after no action.
pub proof fn lemma_off_plan_has_no_delays(c: ConfigView)
    ensures
        forall|i: int| 0 <= i < off_plan(c).len() ==> action_delay(#[trigger] off_plan(c)[i]) == 0,
{
}

/// The morning plan keeps the configured order: first each app, then each
/// URL, then each command, each group exactly as configured, and nothing else.
pub proof fn lemma_on_plan_keeps_config_order(c: ConfigView)
    ensures
        on_plan(c).len() == c.apps.len() + c.urls.len() + c.commands.len(),
        forall|j: int|
            0 <= j < c.apps.len() ==> #[trigger] on_plan(c)[j] == (ActionView::OpenApp {
                name: c.apps[j].name,
                delay_ms: c.apps[j].delay_ms,
            }),
        forall|j: int|
            0 <= j < c.urls.len() ==> on_plan(c)[c.apps.len() + j] == (ActionView::OpenUrl {
                url: (#[trigger] c.urls[j]).url,
                delay_ms: c.urls[j].delay_ms,
            }),
        forall|j: int|
            0 <= j < c.commands.len() ==> on_plan(c)[c.apps.len() + c.urls.len() + j]
                == (ActionView::RunCommand {
                name: (#[trigger] c.commands[j]).name,
                cmd: c.commands[j].cmd,
                delay_ms: c.commands[j].delay_ms,
            }),
{
    let a = c.apps.map_values(|a: AppTargetView| open_app_action(a));
    let u = c.urls.map_values(|u: UrlTargetView| open_url_action(u));
    let m = c.commands.map_values(|m: CommandTargetView| run_command_action(m));
    assert(on_plan(c) == a + u + m);
    assert forall|j: int| 0 <= j < c.urls.len() implies on_plan(c)[c.apps.len() + j]
        == (ActionView::OpenUrl { url: (#[trigger] c.urls[j]).url, delay_ms: c.urls[j].delay_ms }) by {
        assert((a + u)[c.apps.len() + j] == u[j]);
    }
    assert forall|j: int| 0 <= j < c.commands.len() implies on_plan(c)[c.apps.len()
        + c.urls.len() + j] == (ActionView::RunCommand {
        name: (#[trigger] c.commands[j]).name,
        cmd: c.commands[j].cmd,
        delay_ms: c.commands[j].delay_ms,
    }) by {
        assert((a + u + m)[c.apps.len() + c.urls.len() + j] == m[j]);
    }
}

/// What each announcement says: the kind of action and its target (a
/// command's name, or else the command itself), then its delay if it has one,
/// or for a quit its timeout.
pub proof fn lemma_action_texts(a: ActionView)
    ensures
        a matches ActionView::OpenApp { name, delay_ms } ==> action_text(a) == "open app: "@ + name
            + (if delay_ms == 0 { Seq::<char>::empty() } else { " (delay "@ + decimal(delay_ms as nat) + "ms)"@ }),
        a matches ActionView::OpenUrl { url, delay_ms } ==> action_text(a) == "open url: "@ + url
            + (if delay_ms == 0 { Seq::<char>::empty() } else { " (delay "@ + decimal(delay_ms as nat) + "ms)"@ }),
        a matches ActionView::RunCommand { name, cmd, delay_ms } ==> action_text(a)
            == "run command: "@ + (match name {
            Some(n) => n,
            None => cmd,
        }) + (if delay_ms == 0 { Seq::<char>::empty() } else { " (delay "@ + decimal(delay_ms as nat) + "ms)"@ }),
        a matches ActionView::QuitApp { name, timeout_secs } ==> action_text(a) == "quit app: "@
            + name + " (timeout "@ + decimal(timeout_secs as nat) + "s)"@,
{
}

/// Every action that waits afterwards announces the wait at the end of its
/// line, in milliseconds.
pub proof fn lemma_delay_is_announced(a: ActionView)
    ensures
        action_delay(a) > 0 ==> {
            let t = action_text(a);
            let d = " (delay "@ + decimal(action_delay(a) as nat) + "ms)"@;
            &&& d.len() <= t.len()
            &&& t.subrange(t.len() - d.len(), t.len() as int) == d
        },
{
    if action_delay(a) > 0 {
        let t = action_text(a);
        let d = " (delay "@ + decimal(action_delay(a) as nat) + "ms)"@;
        let head = match a {
            ActionView::OpenApp { name, .. } => "open app: "@ + name,
            ActionView::OpenUrl { url, .. } => "open url: "@ + url,
            ActionView::RunCommand { name, cmd, .. } => "run command: "@ + (match name {
                Some(n) => n,
                None => cmd,
            }),
            ActionView::QuitApp { .. } => Seq::empty(),
        };
        assert(t == head + d);
        assert(t.subrange(t.len() - d.len(), t.len() as int) =~= d);
    }
}

} // verus!
