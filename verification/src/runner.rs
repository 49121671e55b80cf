//! Carrying plans out: the exact sequence of messages, system calls and
//! pauses that a plan stands for, and the decisions and text of the evening
//! shutdown and of the status report.

use vstd::prelude::*;
use vstd::string::*;

use crate::config::{Config, OffConfig};
use crate::planner::{Action, ActionView, action_delay, action_text, actions_view};
use crate::text::{decimal, decimal_string, joined};

verus! {

/// A request to the operating system.
#[derive(Debug, Clone, PartialEq, Eq)]
pub enum SystemCall {
    OpenApp { name: String },
    OpenUrl { url: String },
    RunCommand { cmd: String },
    QuitApp { name: String, timeout_secs: u64 },
}

/// One thing to do while a plan runs. A failed call ends the run.
#[derive(Debug, Clone, PartialEq, Eq)]
pub enum Step {
    /// Print the text on a line of its own.
    Print(String),
    /// Make the system call.
    Call(SystemCall),
    /// Pause for the given number of milliseconds.
    SleepMs(u64),
}

/// A [`SystemCall`] as a mathematical value.
pub enum SystemCallView {
    OpenApp { name: Seq<char> },
    OpenUrl { url: Seq<char> },
    RunCommand { cmd: Seq<char> },
    QuitApp { name: Seq<char>, timeout_secs: u64 },
}

/// A [`Step`] as a mathematical value.
pub enum StepView {
    Print(Seq<char>),
    Call(SystemCallView),
    SleepMs(u64),
}

impl View for SystemCall {
    type V = SystemCallView;

    open spec fn view(&self) -> SystemCallView {
        match self {
            SystemCall::OpenApp { name } => SystemCallView::OpenApp { name: name@ },
            SystemCall::OpenUrl { url } => SystemCallView::OpenUrl { url: url@ },
            SystemCall::RunCommand { cmd } => SystemCallView::RunCommand { cmd: cmd@ },
            SystemCall::QuitApp { name, timeout_secs } => SystemCallView::QuitApp {
                name: name@,
                timeout_secs: *timeout_secs,
            },
        }
    }
}

impl View for Step {
    type V = StepView;

    open spec fn view(&self) -> StepView {
        match self {
            Step::Print(s) => StepView::Print(s@),
            Step::Call(c) => StepView::Call(c@),
            Step::SleepMs(ms) => StepView::SleepMs(*ms),
        }
    }
}

/// The views of a list of steps.
pub open spec fn steps_view(steps: Seq<Step>) -> Seq<StepView> {
    steps.map_values(|s: Step| s@)
}

/// The system call that carries an action out.
pub open spec fn call_of(a: ActionView) -> SystemCallView {
    match a {
        ActionView::OpenApp { name, .. } => SystemCallView::OpenApp { name },
        ActionView::OpenUrl { url, .. } => SystemCallView::OpenUrl { url },
        ActionView::RunCommand { cmd, .. } => SystemCallView::RunCommand { cmd },
        ActionView::QuitApp { name, timeout_secs } => SystemCallView::QuitApp { name, timeout_secs },
    }
}

/// The steps of one action: announce it; unless this is a dry run, make its
/// call and then wait its delay, if it has one.
pub open spec fn action_steps(a: ActionView, dry_run: bool) -> Seq<StepView> {
    seq![StepView::Print(action_text(a))] + if dry_run {
        Seq::empty()
    } else {
        seq![StepView::Call(call_of(a))] + if action_delay(a) > 0 {
            seq![StepView::SleepMs(action_delay(a))]
        } else {
            Seq::empty()
        }
    }
}

/// The steps of all actions of a plan, one action after the other.
pub open spec fn steps_of(plan: Seq<ActionView>, dry_run: bool) -> Seq<StepView>
    decreases plan.len(),
{
    if plan.len() == 0 {
        Seq::empty()
    } else {
        steps_of(plan.drop_last(), dry_run) + action_steps(plan.last(), dry_run)
    }
}

/// What running a plan does: an empty plan only says so.
pub open spec fn run_steps(plan: Seq<ActionView>, dry_run: bool) -> Seq<StepView> {
    if plan.len() == 0 {
        seq![StepView::Print("Nothing to do."@)]
    } else {
        steps_of(plan, dry_run)
    }
}

/// The system calls among some steps, in order.
pub open spec fn calls_in(steps: Seq<StepView>) -> Seq<SystemCallView>
    decreases steps.len(),
{
    if steps.len() == 0 {
        Seq::empty()
    } else {
        calls_in(steps.drop_last()) + match steps.last() {
            StepView::Call(c) => seq![c],
            _ => Seq::empty(),
        }
    }
}

fn call_for(action: &Action) -> (c: SystemCall)
    ensures
        c@ == call_of(action@),
{
    match action {
        Action::OpenApp { name, .. } => SystemCall::OpenApp { name: name.clone() },
        Action::OpenUrl { url, .. } => SystemCall::OpenUrl { url: url.clone() },
        Action::RunCommand { cmd, .. } => SystemCall::RunCommand { cmd: cmd.clone() },
        Action::QuitApp { name, timeout_secs } => SystemCall::QuitApp {
            name: name.clone(),
            timeout_secs: *timeout_secs,
        },
    }
}

/// The steps that carry a plan out, in order: for each action its
/// announcement, and unless `dry_run` its call and its delay; for an empty
/// plan the one message `Nothing to do.`.
pub fn plan_steps(plan: &Vec<Action>, dry_run: bool) -> (steps: Vec<Step>)
    ensures
        steps_view(steps@) == run_steps(actions_view(plan@), dry_run),
{
    let ghost p = actions_view(plan@);
    let mut steps: Vec<Step> = Vec::new();
    if plan.len() == 0 {
        steps.push(Step::Print(String::from_str("Nothing to do.")));
        assert(steps_view(steps@) =~= run_steps(p, dry_run));
        return steps;
    }
    let n = plan.len();
    for i in 0..n
        invariant
            n == plan.len(),
            p == actions_view(plan@),
            steps_view(steps@) == steps_of(p.take(i as int), dry_run),
    {
        let action = &plan[i];
        let ghost before = steps_view(steps@);
        let ghost a = action@;
        steps.push(Step::Print(action.describe()));
        if !dry_run {
            steps.push(Step::Call(call_for(action)));
            let delay = action.delay_ms();
            if delay > 0 {
                steps.push(Step::SleepMs(delay));
            }
        }
        proof {
            assert(p.take(i + 1).drop_last() =~= p.take(i as int));
            assert(p.take(i + 1).last() == a);
            assert(steps_view(steps@) =~= before + action_steps(a, dry_run));
        }
    }
    assert(p.take(n as int) =~= p);
    steps
}

/// The calls among two runs of steps are those of the first, then those of the second.
pub proof fn lemma_calls_in_concat(a: Seq<StepView>, b: Seq<StepView>)
    ensures
        calls_in(a + b) == calls_in(a) + calls_in(b),
    decreases b.len(),
{
    if b.len() == 0 {
        assert(a + b =~= a);
        assert(calls_in(a) + calls_in(b) =~= calls_in(a));
    } else {
        lemma_calls_in_concat(a, b.drop_last());
        assert((a + b).drop_last() =~= a + b.drop_last());
        assert((a + b).last() == b.last());
        let tail = match b.last() {
            StepView::Call(c) => seq![c],
            _ => Seq::<SystemCallView>::empty(),
        };
        assert(calls_in(a) + calls_in(b.drop_last()) + tail =~= calls_in(a) + (calls_in(
            b.drop_last(),
        ) + tail));
    }
}

/// The announcements of the actions of a plan, in order.
pub open spec fn announcements(plan: Seq<ActionView>) -> Seq<StepView> {
    plan.map_values(|a: ActionView| StepView::Print(action_text(a)))
}

/// The calls of the actions of a plan, in order.
pub open spec fn calls_of(plan: Seq<ActionView>) -> Seq<SystemCallView> {
    plan.map_values(|a: ActionView| call_of(a))
}

/// What one more step adds to the calls.
proof fn lemma_calls_in_push(s: Seq<StepView>, x: StepView)
    ensures
        calls_in(s.push(x)) == calls_in(s) + match x {
            StepView::Call(c) => seq![c],
            _ => Seq::<SystemCallView>::empty(),
        },
{
    assert(s.push(x).drop_last() =~= s);
    assert(s.push(x).last() == x);
}

/// A dry run makes no system call and never pauses: it only prints the
/// announcement of each action, in plan order.
pub proof fn lemma_dry_run_only_prints(plan: Seq<ActionView>)
    ensures
        plan.len() > 0 ==> run_steps(plan, true) == announcements(plan),
        calls_in(run_steps(plan, true)).len() == 0,
    decreases plan.len(),
{
    if plan.len() > 0 {
        lemma_dry_run_only_prints(plan.drop_last());
        let a = plan.last();
        assert(action_steps(a, true) =~= seq![StepView::Print(action_text(a))]);
        if plan.len() == 1 {
            assert(steps_of(plan.drop_last(), true) =~= Seq::<StepView>::empty());
            assert(announcements(plan.drop_last()) =~= Seq::<StepView>::empty());
        }
        assert(steps_of(plan.drop_last(), true) == announcements(plan.drop_last()));
        assert(announcements(plan) =~= announcements(plan.drop_last()).push(
            StepView::Print(action_text(a)),
        ));
        lemma_no_calls_in_announcements(plan);
        assert(run_steps(plan, true) == announcements(plan));
    } else {
        let s = run_steps(plan, true);
        lemma_calls_in_push(Seq::<StepView>::empty(), StepView::Print("Nothing to do."@));
        assert(s =~= Seq::<StepView>::empty().push(StepView::Print("Nothing to do."@)));
        assert(calls_in(Seq::<StepView>::empty()) =~= Seq::<SystemCallView>::empty());
        assert(calls_in(s).len() == 0);
    }
}

/// Announcements alone hold no system call.
proof fn lemma_no_calls_in_announcements(plan: Seq<ActionView>)
    ensures
        calls_in(announcements(plan)).len() == 0,
    decreases plan.len(),
{
    if plan.len() > 0 {
        lemma_no_calls_in_announcements(plan.drop_last());
        assert(announcements(plan) =~= announcements(plan.drop_last()).push(
            StepView::Print(action_text(plan.last())),
        ));
        lemma_calls_in_push(
            announcements(plan.drop_last()),
            StepView::Print(action_text(plan.last())),
        );
    }
}

/// A run that is not dry makes exactly one system call per action, each the
/// call of its action, in plan order.
pub proof fn lemma_run_calls_each_action_once(plan: Seq<ActionView>)
    ensures
        calls_in(steps_of(plan, false)) == calls_of(plan),
    decreases plan.len(),
{
    if plan.len() > 0 {
        lemma_run_calls_each_action_once(plan.drop_last());
        let a = plan.last();
        lemma_calls_in_concat(steps_of(plan.drop_last(), false), action_steps(a, false));
        let p = StepView::Print(action_text(a));
        let c = StepView::Call(call_of(a));
        let e = Seq::<StepView>::empty();
        lemma_calls_in_push(e, p);
        lemma_calls_in_push(e.push(p), c);
        assert(calls_in(e) =~= Seq::<SystemCallView>::empty());
        if action_delay(a) > 0 {
            let w = StepView::SleepMs(action_delay(a));
            lemma_calls_in_push(e.push(p).push(c), w);
            assert(action_steps(a, false) =~= e.push(p).push(c).push(w));
        } else {
            assert(action_steps(a, false) =~= e.push(p).push(c));
        }
        assert(calls_in(action_steps(a, false)) =~= seq![call_of(a)]);
        assert(calls_of(plan) =~= calls_of(plan.drop_last()).push(call_of(a)));
    } else {
        assert(calls_of(plan) =~= Seq::<SystemCallView>::empty());
    }
}

/// What the evening run does after quitting the apps.
#[derive(Debug, Clone, PartialEq, Eq)]
pub enum ShutdownPlan {
    /// A dry run: print this line about the shutdown, and do nothing more.
    Report(String),
    /// Shutdown is off: end here.
    Skip,
    /// Shut down at once.
    Immediate,
    /// Warn, count down this many seconds, then shut down.
    Countdown(u64),
}

/// The line a dry run prints about the shutdown.
pub open spec fn shutdown_report(off: OffConfig) -> Seq<char> {
    if off.shutdown {
        "shutdown: enabled after "@ + decimal(off.confirm_seconds as nat) + "s confirmation"@
    } else {
        "shutdown: disabled"@
    }
}

/// Decides how the evening run ends: a dry run only reports; otherwise a
/// disabled shutdown ends the run, a confirmed one (`yes`) shuts down at
/// once, and any other counts down the configured seconds first.
pub fn plan_shutdown(off: &OffConfig, dry_run: bool, yes: bool) -> (p: ShutdownPlan)
    ensures
        dry_run ==> (p matches ShutdownPlan::Report(line) && line@ == shutdown_report(*off)),
        dry_run && off.shutdown ==> (p matches ShutdownPlan::Report(line) && line@
            == "shutdown: enabled after "@ + decimal(off.confirm_seconds as nat)
            + "s confirmation"@),
        dry_run && !off.shutdown ==> (p matches ShutdownPlan::Report(line) && line@
            == "shutdown: disabled"@),
        !dry_run && !off.shutdown ==> p == ShutdownPlan::Skip,
        !dry_run && off.shutdown && yes ==> p == ShutdownPlan::Immediate,
        !dry_run && off.shutdown && !yes ==> p == ShutdownPlan::Countdown(off.confirm_seconds),
{
    if dry_run {
        if off.shutdown {
            let mut line = String::from_str("shutdown: enabled after ");
            let n = decimal_string(off.confirm_seconds);
            line.append(n.as_str());
            line.append("s confirmation");
            ShutdownPlan::Report(line)
        } else {
            ShutdownPlan::Report(String::from_str("shutdown: disabled"))
        }
    } else if !off.shutdown {
        ShutdownPlan::Skip
    } else if yes {
        ShutdownPlan::Immediate
    } else {
        ShutdownPlan::Countdown(off.confirm_seconds)
    }
}

/// The warning printed before the countdown.
pub fn shutdown_notice(confirm_seconds: u64) -> (s: String)
    ensures
        s@ == "EzHomie will shut down this Mac in "@ + decimal(confirm_seconds as nat)
            + " seconds. Press Ctrl+C to cancel."@,
{
    let mut s = String::from_str("EzHomie will shut down this Mac in ");
    let n = decimal_string(confirm_seconds);
    s.append(n.as_str());
    s.append(" seconds. Press Ctrl+C to cancel.");
    s
}

/// The countdown text for the seconds that remain; it returns to the start
/// of the line so that each second overwrites the one before.
pub fn countdown_line(remaining: u64) -> (s: String)
    ensures
        s@ == "\rShutting down in "@ + decimal(remaining as nat) + "s "@,
{
    let mut s = String::from_str("\rShutting down in ");
    let n = decimal_string(remaining);
    s.append(n.as_str());
    s.append("s ");
    s
}

/// How a flag is printed.
pub open spec fn bool_text(b: bool) -> Seq<char> {
    if b {
        "true"@
    } else {
        "false"@
    }
}

/// The views of a list of strings.
pub open spec fn strings_view(v: Seq<String>) -> Seq<Seq<char>> {
    v.map_values(|s: String| s@)
}

/// The lines of the status report.
pub open spec fn status_report(path: Seq<char>, c: crate::config::ConfigView) -> Seq<Seq<char>> {
    seq![
        "Config: "@ + path,
        "Apps: "@ + decimal(c.apps.len()),
        "URLs: "@ + decimal(c.urls.len()),
        "Commands: "@ + decimal(c.commands.len()),
        "Shutdown on off: "@ + bool_text(c.off.shutdown),
        "Confirm seconds: "@ + decimal(c.off.confirm_seconds as nat),
    ]
}

fn labelled_count(label: &str, n: usize) -> (s: String)
    ensures
        s@ == label@ + decimal(n as nat),
{
    let digits = decimal_string(n as u64);
    joined(label, digits.as_str())
}

/// The status report: the configuration path, how many apps, URLs and
/// commands are configured, and the shutdown settings.
pub fn status_lines(config_path: &str, config: &Config) -> (lines: Vec<String>)
    ensures
        strings_view(lines@) == status_report(config_path@, config@),
        lines.len() == 6,
        lines@[0]@ == "Config: "@ + config_path@,
        lines@[1]@ == "Apps: "@ + decimal(config.apps.len() as nat),
        lines@[2]@ == "URLs: "@ + decimal(config.urls.len() as nat),
        lines@[3]@ == "Commands: "@ + decimal(config.commands.len() as nat),
        config.off.shutdown ==> lines@[4]@ == "Shutdown on off: true"@,
        !config.off.shutdown ==> lines@[4]@ == "Shutdown on off: false"@,
        lines@[5]@ == "Confirm seconds: "@ + decimal(config.off.confirm_seconds as nat),
{
    let mut lines: Vec<String> = Vec::new();
    lines.push(joined("Config: ", config_path));
    lines.push(labelled_count("Apps: ", config.apps.len()));
    lines.push(labelled_count("URLs: ", config.urls.len()));
    lines.push(labelled_count("Commands: ", config.commands.len()));
    let flag = if config.off.shutdown {
        "true"
    } else {
        "false"
    };
    lines.push(joined("Shutdown on off: ", flag));
    let seconds = decimal_string(config.off.confirm_seconds);
    lines.push(joined("Confirm seconds: ", seconds.as_str()));
    assert(strings_view(lines@) =~= status_report(config_path@, config@));
    proof {
        lemma_status_report_lines(config_path@, config@);
        assert forall|i: int| 0 <= i < 6 implies #[trigger] lines@[i]@ == strings_view(lines@)[i] by {}
        reveal_strlit("Shutdown on off: ");
        reveal_strlit("Shutdown on off: true");
        reveal_strlit("Shutdown on off: false");
        reveal_strlit("true");
        reveal_strlit("false");
        assert("Shutdown on off: "@ + "true"@ =~= "Shutdown on off: true"@);
        assert("Shutdown on off: "@ + "false"@ =~= "Shutdown on off: false"@);
    }
    lines
}

/// Each line of the status report states one setting: the path, the number
/// of configured apps, URLs and commands, and the shutdown settings, in that
/// order; and each count line depends on its own list only.
pub proof fn lemma_status_report_lines(path: Seq<char>, c: crate::config::ConfigView)
    ensures
        status_report(path, c).len() == 6,
        status_report(path, c)[0] == "Config: "@ + path,
        status_report(path, c)[1] == "Apps: "@ + decimal(c.apps.len()),
        status_report(path, c)[2] == "URLs: "@ + decimal(c.urls.len()),
        status_report(path, c)[3] == "Commands: "@ + decimal(c.commands.len()),
        c.off.shutdown ==> status_report(path, c)[4] == "Shutdown on off: "@ + "true"@,
        !c.off.shutdown ==> status_report(path, c)[4] == "Shutdown on off: "@ + "false"@,
        status_report(path, c)[5] == "Confirm seconds: "@ + decimal(c.off.confirm_seconds as nat),
        forall|d: crate::config::ConfigView|
            #![trigger status_report(path, d)]
            {
                &&& d.apps.len() == c.apps.len() ==> status_report(path, d)[1] == status_report(
                    path,
                    c,
                )[1]
                &&& d.urls.len() == c.urls.len() ==> status_report(path, d)[2] == status_report(
                    path,
                    c,
                )[2]
                &&& d.commands.len() == c.commands.len() ==> status_report(path, d)[3]
                    == status_report(path, c)[3]
            },
{
}

/// Running two plans one after the other takes the steps of the first, then
/// those of the second.
pub proof fn lemma_steps_of_concat(p: Seq<ActionView>, q: Seq<ActionView>, dry_run: bool)
    ensures
        steps_of(p + q, dry_run) == steps_of(p, dry_run) + steps_of(q, dry_run),
    decreases q.len(),
{
    if q.len() == 0 {
        assert(p + q =~= p);
        assert(steps_of(p, dry_run) + steps_of(q, dry_run) =~= steps_of(p, dry_run));
    } else {
        lemma_steps_of_concat(p, q.drop_last(), dry_run);
        assert((p + q).drop_last() =~= p + q.drop_last());
        assert((p + q).last() == q.last());
        assert(steps_of(p, dry_run) + steps_of(q.drop_last(), dry_run) + action_steps(
            q.last(),
            dry_run,
        ) =~= steps_of(p, dry_run) + (steps_of(q.drop_last(), dry_run) + action_steps(
            q.last(),
            dry_run,
        )));
    }
}

/// What a run that is not dry does for each kind of action: announce it,
/// make the matching call on the action's own target, and then pause for the
/// action's delay if it has one; a quit never pauses afterwards.
pub proof fn lemma_wet_steps_of_action(a: ActionView)
    ensures
        a matches ActionView::OpenApp { name, delay_ms } ==> action_steps(a, false) == seq![
            StepView::Print(action_text(a)),
            StepView::Call(SystemCallView::OpenApp { name }),
        ] + (if delay_ms > 0 {
            seq![StepView::SleepMs(delay_ms)]
        } else {
            Seq::empty()
        }),
        a matches ActionView::OpenUrl { url, delay_ms } ==> action_steps(a, false) == seq![
            StepView::Print(action_text(a)),
            StepView::Call(SystemCallView::OpenUrl { url }),
        ] + (if delay_ms > 0 {
            seq![StepView::SleepMs(delay_ms)]
        } else {
            Seq::empty()
        }),
        a matches ActionView::RunCommand { cmd, delay_ms, .. } ==> action_steps(a, false) == seq![
            StepView::Print(action_text(a)),
            StepView::Call(SystemCallView::RunCommand { cmd }),
        ] + (if delay_ms > 0 {
            seq![StepView::SleepMs(delay_ms)]
        } else {
            Seq::empty()
        }),
        a matches ActionView::QuitApp { name, timeout_secs } ==> action_steps(a, false) == seq![
            StepView::Print(action_text(a)),
            StepView::Call(SystemCallView::QuitApp { name, timeout_secs }),
        ],
{
    assert(action_steps(a, false) =~= seq![
        StepView::Print(action_text(a)),
        StepView::Call(call_of(a)),
    ] + if action_delay(a) > 0 {
        seq![StepView::SleepMs(action_delay(a))]
    } else {
        Seq::empty()
    });
    if a is QuitApp {
        assert(action_steps(a, false) =~= seq![
            StepView::Print(action_text(a)),
            StepView::Call(call_of(a)),
        ]);
    }
}

} // verus!
