use vstd::prelude::*;
use vstd::string::*;
use crate::command::{CommandSpec, CommandView, LunaraError, LunaraResult};
use crate::models::{AppEntry, AppEntryView, opt_view, strings_view};
use crate::text::{trim, trim_str, str_eq};

verus! {

broadcast use vstd::string::group_string_axioms;

/// The contents of a `LunaraError`.
pub enum ErrorView {
    MissingCmd,
    CommandFailed(Seq<char>),
}

impl View for LunaraError {
    type V = ErrorView;

    open spec fn view(&self) -> ErrorView {
        match *self {
            LunaraError::MissingCmd => ErrorView::MissingCmd,
            LunaraError::CommandFailed(m) => ErrorView::CommandFailed(m@),
        }
    }
}

/// The contents of an operation's result.
pub open spec fn result_view(r: LunaraResult<()>) -> Result<(), ErrorView> {
    match r {
        Ok(_) => Ok(()),
        Err(e) => Err(e@),
    }
}

/// `bspc desktop -f <desktop>`: show a desktop.
pub open spec fn cmd_focus_desktop(d: Seq<char>) -> CommandView {
    CommandView { program: "bspc"@, args: seq!["desktop"@, "-f"@, d] }
}

/// `xdotool search --class <class>`: find windows of a class.
pub open spec fn cmd_probe(wm_class: Seq<char>) -> CommandView {
    CommandView { program: "xdotool"@, args: seq!["search"@, "--class"@, wm_class] }
}

/// `bspc rule -r <class>:*:*`: drop the window rules of a class.
pub open spec fn cmd_rule_remove(wm_class: Seq<char>) -> CommandView {
    CommandView { program: "bspc"@, args: seq!["rule"@, "-r"@, wm_class + ":*:*"@] }
}

/// `bspc rule -a <class> -o "desktop=<desktop> follow=on"`: send the next window of a
/// class to a desktop.
pub open spec fn cmd_rule_add(wm_class: Seq<char>, d: Seq<char>) -> CommandView {
    CommandView {
        program: "bspc"@,
        args: seq!["rule"@, "-a"@, wm_class, "-o"@, "desktop="@ + d + " follow=on"@],
    }
}

/// The command that starts an application: its first word, with the rest as arguments.
pub open spec fn cmd_spawn(a: AppEntryView) -> CommandView {
    CommandView { program: a.cmd[0], args: a.cmd.drop_first() }
}

/// A window probe shows the application running: it ran, succeeded and printed something.
/// `outcome` is `None` when the probe could not be run, else (exit success, output not empty).
pub open spec fn probe_running(outcome: Option<(bool, bool)>) -> bool {
    outcome == Some((true, true))
}

/// Whether a probe outcome shows the application running.
pub fn probe_says_running(outcome: Option<(bool, bool)>) -> (r: bool)
    ensures
        r == probe_running(outcome),
{
    match outcome {
        Some((success, has_output)) => success && has_output,
        None => false,
    }
}

fn strs(v: &[&str]) -> (r: Vec<String>)
    ensures
        r@.len() == v@.len(),
        forall|i: int| 0 <= i < v@.len() ==> #[trigger] r@[i]@ == v@[i]@,
{
    let mut r: Vec<String> = Vec::new();
    let mut i: usize = 0;
    while i < v.len()
        invariant
            i <= v@.len(),
            r@.len() == i,
            forall|j: int| 0 <= j < i ==> #[trigger] r@[j]@ == v@[j]@,
        decreases v@.len() - i,
    {
        r.push(String::from_str(v[i]));
        i = i + 1;
    }
    r
}

/// The probe that finds out whether an application runs: none for an application
/// without a window class, which counts as not running.
pub fn running_probe(app: &AppEntry) -> (r: Option<CommandSpec>)
    ensures
        match app@.wm_class {
            Some(wc) => r matches Some(c) && c@ == cmd_probe(wc),
            None => r is None,
        },
{
    match &app.wm_class {
        Some(wc) => {
            let c = CommandSpec {
                program: String::from_str("xdotool"),
                args: strs(&["search", "--class", wc.as_str()]),
            };
            assert(c@.args =~= seq!["search"@, "--class"@, wc@]);
            Some(c)
        },
        None => None,
    }
}

/// The command that shows the launcher's desktop: `bspc desktop -f ^1`.
pub fn focus_lunara() -> (r: CommandSpec)
    ensures
        r@ == cmd_focus_desktop("^1"@),
{
    let c = CommandSpec { program: String::from_str("bspc"), args: strs(&["desktop", "-f", "^1"]) };
    assert(c@.args =~= seq!["desktop"@, "-f"@, "^1"@]);
    c
}

/// The command that shows an application's desktop; none when it has no desktop
/// (focusing then reports `false` without running anything).
pub fn focus_app(app: &AppEntry) -> (r: Option<CommandSpec>)
    ensures
        match app@.bspwm_desktop {
            Some(d) => r matches Some(c) && c@ == cmd_focus_desktop(d),
            None => r is None,
        },
{
    match &app.bspwm_desktop {
        Some(d) => Some(focus_desktop_command(d)),
        None => None,
    }
}

fn focus_desktop_command(d: &String) -> (r: CommandSpec)
    ensures
        r@ == cmd_focus_desktop(d@),
{
    let c = CommandSpec { program: String::from_str("bspc"), args: strs(&["desktop", "-f", d.as_str()]) };
    assert(c@.args =~= seq!["desktop"@, "-f"@, d@]);
    c
}

/// The command that starts an application, or `MissingCmd` when it has none.
pub fn spawn_command(app: &AppEntry) -> (r: LunaraResult<CommandSpec>)
    ensures
        app@.cmd.len() == 0 ==> (r matches Err(e) && e@ == ErrorView::MissingCmd),
        app@.cmd.len() > 0 ==> (r matches Ok(c) && c@ == cmd_spawn(app@)),
{
    if app.cmd.len() == 0 {
        return Err(LunaraError::MissingCmd);
    }
    let program = app.cmd[0].clone();
    let mut args: Vec<String> = Vec::new();
    let mut i: usize = 1;
    while i < app.cmd.len()
        invariant
            1 <= i <= app.cmd@.len(),
            args@.len() == i - 1,
            forall|j: int| 0 <= j < i - 1 ==> #[trigger] args@[j]@ == app.cmd@[j + 1]@,
        decreases app.cmd@.len() - i,
    {
        args.push(app.cmd[i].clone());
        i = i + 1;
    }
    let c = CommandSpec { program, args };
    assert(c@.args =~= app@.cmd.drop_first());
    Ok(c)
}

fn rule_remove_command(wc: &String) -> (r: CommandSpec)
    ensures
        r@ == cmd_rule_remove(wc@),
{
    let mut pat = wc.clone();
    pat.append(":*:*");
    let c = CommandSpec { program: String::from_str("bspc"), args: strs(&["rule", "-r", pat.as_str()]) };
    assert(c@.args =~= seq!["rule"@, "-r"@, wc@ + ":*:*"@]);
    c
}

fn rule_add_command(wc: &String, d: &String) -> (r: CommandSpec)
    ensures
        r@ == cmd_rule_add(wc@, d@),
{
    let mut rule = String::from_str("desktop=");
    rule.append(d.as_str());
    rule.append(" follow=on");
    let c = CommandSpec {
        program: String::from_str("bspc"),
        args: strs(&["rule", "-a", wc.as_str(), "-o", rule.as_str()]),
    };
    assert(c@.args =~= seq!["rule"@, "-a"@, wc@, "-o"@, "desktop="@ + d@ + " follow=on"@]);
    c
}


/// Where launching an application stands.
#[derive(Debug, Clone, Copy, PartialEq, Eq, Structural)]
pub enum LaunchStage {
    /// Waiting for the first window probe.
    FirstProbe,
    /// The application runs; waiting for its desktop to be shown.
    FocusRunning,
    /// Waiting for the old window rules to be dropped.
    RemoveRule,
    /// Waiting for the new window rule to be added.
    AddRule,
    /// Waiting for the window probe made just before starting.
    SecondProbe,
    /// Waiting for the application to be started.
    Spawn,
    /// Waiting for the application's desktop to be shown.
    FinalFocus,
    /// Finished.
    Done,
}

/// What the caller must do next to launch or focus an application.
#[derive(Debug)]
pub enum LaunchAction {
    /// Run the probe and report `LaunchEvent::Probed`.
    Probe(CommandSpec),
    /// Run the command and report `LaunchEvent::Ran` with its result.
    Run(CommandSpec),
    /// Start the command without waiting and report `LaunchEvent::Spawned`.
    Spawn(CommandSpec),
    /// The operation is over, with this result.
    Finish(LunaraResult<()>),
}

/// What the caller observed.
#[derive(Debug)]
pub enum LaunchEvent {
    /// The probe's outcome: `None` if it could not run, else (exit success, output not empty).
    Probed(Option<(bool, bool)>),
    /// The command's result.
    Ran(LunaraResult<()>),
    /// Whether the command started; the error text otherwise.
    Spawned(Result<(), String>),
}

/// The contents of a `LaunchAction`.
pub enum LaunchActionView {
    Probe(CommandView),
    Run(CommandView),
    Spawn(CommandView),
    Finish(Result<(), ErrorView>),
}

impl View for LaunchAction {
    type V = LaunchActionView;

    open spec fn view(&self) -> LaunchActionView {
        match *self {
            LaunchAction::Probe(c) => LaunchActionView::Probe(c@),
            LaunchAction::Run(c) => LaunchActionView::Run(c@),
            LaunchAction::Spawn(c) => LaunchActionView::Spawn(c@),
            LaunchAction::Finish(r) => LaunchActionView::Finish(result_view(r)),
        }
    }
}

/// The contents of a `LaunchEvent`.
pub enum LaunchEventView {
    Probed(Option<(bool, bool)>),
    Ran(Result<(), ErrorView>),
    Spawned(Result<(), Seq<char>>),
}

impl View for LaunchEvent {
    type V = LaunchEventView;

    open spec fn view(&self) -> LaunchEventView {
        match *self {
            LaunchEvent::Probed(o) => LaunchEventView::Probed(o),
            LaunchEvent::Ran(r) => LaunchEventView::Ran(result_view(r)),
            LaunchEvent::Spawned(r) => LaunchEventView::Spawned(
                match r {
                    Ok(_) => Ok(()),
                    Err(m) => Err(m@),
                },
            ),
        }
    }
}

/// The event kind that answers the action a stage waits on.
pub open spec fn event_fits(stage: LaunchStage, ev: LaunchEventView) -> bool {
    match stage {
        LaunchStage::FirstProbe | LaunchStage::SecondProbe => ev is Probed,
        LaunchStage::FocusRunning | LaunchStage::RemoveRule | LaunchStage::AddRule
        | LaunchStage::FinalFocus => ev is Ran,
        LaunchStage::Spawn => ev is Spawned,
        LaunchStage::Done => false,
    }
}

/// Show the application's desktop last (when it has one).
pub open spec fn spec_final_focus(a: AppEntryView) -> (LaunchStage, LaunchActionView) {
    match a.bspwm_desktop {
        Some(d) => (LaunchStage::FinalFocus, LaunchActionView::Run(cmd_focus_desktop(d))),
        None => (LaunchStage::Done, LaunchActionView::Finish(Ok(()))),
    }
}

/// Start the application; without a command, fail (`strict`) or go on to focusing.
pub open spec fn spec_spawn_or_fail(a: AppEntryView, strict: bool) -> (LaunchStage, LaunchActionView) {
    if a.cmd.len() == 0 {
        if strict {
            (LaunchStage::Done, LaunchActionView::Finish(Err(ErrorView::MissingCmd)))
        } else {
            spec_final_focus(a)
        }
    } else {
        (LaunchStage::Spawn, LaunchActionView::Spawn(cmd_spawn(a)))
    }
}

/// Probe again before starting (an application without a window class counts as not running).
pub open spec fn spec_before_spawn(a: AppEntryView, strict: bool) -> (LaunchStage, LaunchActionView) {
    match a.wm_class {
        Some(wc) => (LaunchStage::SecondProbe, LaunchActionView::Probe(cmd_probe(wc))),
        None => spec_spawn_or_fail(a, strict),
    }
}

/// The application does not run: with a window class and a desktop, first direct its
/// next window to that desktop.
pub open spec fn spec_after_not_running(a: AppEntryView, strict: bool) -> (LaunchStage, LaunchActionView) {
    match (a.wm_class, a.bspwm_desktop) {
        (Some(wc), Some(_)) => (LaunchStage::RemoveRule, LaunchActionView::Run(cmd_rule_remove(wc))),
        _ => spec_before_spawn(a, strict),
    }
}

/// The first step of launching or focusing an application.
pub open spec fn spec_launch_start(a: AppEntryView, strict: bool) -> (LaunchStage, LaunchActionView) {
    match a.wm_class {
        Some(wc) => (LaunchStage::FirstProbe, LaunchActionView::Probe(cmd_probe(wc))),
        None => spec_after_not_running(a, strict),
    }
}

/// The next step after `ev` answered the action of `stage`. A running application is
/// only focused; otherwise its window rule is set (failures end the launch), it is
/// started unless a last probe finds it running, and its desktop is shown. With
/// `strict`, a missing command and failures to start or to focus end the launch with
/// that error; without, they are ignored.
pub open spec fn spec_launch_step(a: AppEntryView, strict: bool, stage: LaunchStage, ev: LaunchEventView) -> (LaunchStage, LaunchActionView) {
    match (stage, ev) {
        (LaunchStage::FirstProbe, LaunchEventView::Probed(o)) => if probe_running(o) {
            match a.bspwm_desktop {
                Some(d) => (LaunchStage::FocusRunning, LaunchActionView::Run(cmd_focus_desktop(d))),
                None => (LaunchStage::Done, LaunchActionView::Finish(Ok(()))),
            }
        } else {
            spec_after_not_running(a, strict)
        },
        (LaunchStage::FocusRunning, LaunchEventView::Ran(_)) => (LaunchStage::Done, LaunchActionView::Finish(Ok(()))),
        (LaunchStage::RemoveRule, LaunchEventView::Ran(r)) => match r {
            Err(e) => (LaunchStage::Done, LaunchActionView::Finish(Err(e))),
            Ok(_) => (LaunchStage::AddRule, LaunchActionView::Run(cmd_rule_add(a.wm_class->0, a.bspwm_desktop->0))),
        },
        (LaunchStage::AddRule, LaunchEventView::Ran(r)) => match r {
            Err(e) => (LaunchStage::Done, LaunchActionView::Finish(Err(e))),
            Ok(_) => spec_before_spawn(a, strict),
        },
        (LaunchStage::SecondProbe, LaunchEventView::Probed(o)) => if probe_running(o) {
            spec_final_focus(a)
        } else {
            spec_spawn_or_fail(a, strict)
        },
        (LaunchStage::Spawn, LaunchEventView::Spawned(r)) => match r {
            Err(m) => if strict {
                (LaunchStage::Done, LaunchActionView::Finish(Err(ErrorView::CommandFailed("spawn failed: "@ + m))))
            } else {
                spec_final_focus(a)
            },
            Ok(_) => spec_final_focus(a),
        },
        (LaunchStage::FinalFocus, LaunchEventView::Ran(r)) => (LaunchStage::Done, LaunchActionView::Finish(
            if strict { r } else { Ok(()) },
        )),
        _ => (stage, LaunchActionView::Finish(Ok(()))),
    }
}

/// An ongoing launch of an application.
pub struct LaunchTask {
    app: AppEntry,
    strict: bool,
    stage: LaunchStage,
}

impl LaunchTask {
    /// The application being launched.
    pub closed spec fn app(&self) -> AppEntryView {
        self.app@
    }

    /// Whether failures after the window rules end the launch.
    pub closed spec fn strict(&self) -> bool {
        self.strict
    }

    /// Where the launch stands.
    pub closed spec fn stage(&self) -> LaunchStage {
        self.stage
    }

    /// Window rules are only handled for an application with a window class and a desktop.
    pub closed spec fn wf(&self) -> bool {
        (self.stage == LaunchStage::RemoveRule || self.stage == LaunchStage::AddRule)
            ==> (self.app@.wm_class is Some && self.app@.bspwm_desktop is Some)
    }

    /// Where the launch stands.
    pub fn current_stage(&self) -> (r: LaunchStage)
        ensures
            r == self.stage(),
    {
        self.stage
    }

    /// Whether `ev` answers the action this launch waits on.
    pub fn expects(&self, ev: &LaunchEvent) -> (r: bool)
        ensures
            r == event_fits(self.stage(), ev@),
    {
        match (self.stage, ev) {
            (LaunchStage::FirstProbe, LaunchEvent::Probed(_)) => true,
            (LaunchStage::SecondProbe, LaunchEvent::Probed(_)) => true,
            (LaunchStage::FocusRunning, LaunchEvent::Ran(_)) => true,
            (LaunchStage::RemoveRule, LaunchEvent::Ran(_)) => true,
            (LaunchStage::AddRule, LaunchEvent::Ran(_)) => true,
            (LaunchStage::FinalFocus, LaunchEvent::Ran(_)) => true,
            (LaunchStage::Spawn, LaunchEvent::Spawned(_)) => true,
            _ => false,
        }
    }

    fn final_focus(&mut self) -> (r: LaunchAction)
        ensures
            final(self).app() == old(self).app(),
            final(self).strict() == old(self).strict(),
            final(self).wf(),
            (final(self).stage(), r@) == spec_final_focus(old(self).app()),
    {
        match focus_app(&self.app) {
            Some(c) => {
                self.stage = LaunchStage::FinalFocus;
                LaunchAction::Run(c)
            },
            None => {
                self.stage = LaunchStage::Done;
                LaunchAction::Finish(Ok(()))
            },
        }
    }

    fn spawn_or_fail(&mut self) -> (r: LaunchAction)
        ensures
            final(self).app() == old(self).app(),
            final(self).strict() == old(self).strict(),
            final(self).wf(),
            (final(self).stage(), r@) == spec_spawn_or_fail(old(self).app(), old(self).strict()),
    {
        match spawn_command(&self.app) {
            Ok(c) => {
                self.stage = LaunchStage::Spawn;
                LaunchAction::Spawn(c)
            },
            Err(e) => {
                if self.strict {
                    self.stage = LaunchStage::Done;
                    LaunchAction::Finish(Err(e))
                } else {
                    self.final_focus()
                }
            },
        }
    }

    fn before_spawn(&mut self) -> (r: LaunchAction)
        ensures
            final(self).app() == old(self).app(),
            final(self).strict() == old(self).strict(),
            final(self).wf(),
            (final(self).stage(), r@) == spec_before_spawn(old(self).app(), old(self).strict()),
    {
        match running_probe(&self.app) {
            Some(c) => {
                self.stage = LaunchStage::SecondProbe;
                LaunchAction::Probe(c)
            },
            None => self.spawn_or_fail(),
        }
    }

    fn after_not_running(&mut self) -> (r: LaunchAction)
        ensures
            final(self).app() == old(self).app(),
            final(self).strict() == old(self).strict(),
            final(self).wf(),
            (final(self).stage(), r@) == spec_after_not_running(old(self).app(), old(self).strict()),
    {
        if self.app.wm_class.is_some() && self.app.bspwm_desktop.is_some() {
            let c = match &self.app.wm_class {
                Some(wc) => rule_remove_command(wc),
                None => {
                    assert(false);
                    focus_lunara()
                },
            };
            self.stage = LaunchStage::RemoveRule;
            LaunchAction::Run(c)
        } else {
            self.before_spawn()
        }
    }

    /// Starts launching or focusing `app`; see `spec_launch_step` for the steps.
    pub fn start(app: &AppEntry, strict: bool) -> (r: (LaunchTask, LaunchAction))
        ensures
            r.0.app() == app@,
            r.0.strict() == strict,
            r.0.wf(),
            (r.0.stage(), r.1@) == spec_launch_start(app@, strict),
    {
        let mut t = LaunchTask { app: app.duplicate(), strict, stage: LaunchStage::FirstProbe };
        let a = match running_probe(&t.app) {
            Some(c) => LaunchAction::Probe(c),
            None => t.after_not_running(),
        };
        (t, a)
    }

    /// Takes what the caller observed for the last action and gives the next action.
    pub fn step(&mut self, ev: LaunchEvent) -> (r: LaunchAction)
        requires
            old(self).wf(),
            event_fits(old(self).stage(), ev@),
        ensures
            final(self).app() == old(self).app(),
            final(self).strict() == old(self).strict(),
            final(self).wf(),
            (final(self).stage(), r@) == spec_launch_step(old(self).app(), old(self).strict(), old(self).stage(), ev@),
    {
        match ev {
            LaunchEvent::Probed(o) => {
                let running = probe_says_running(o);
                if self.stage == LaunchStage::FirstProbe {
                    if running {
                        match focus_app(&self.app) {
                            Some(c) => {
                                self.stage = LaunchStage::FocusRunning;
                                LaunchAction::Run(c)
                            },
                            None => {
                                self.stage = LaunchStage::Done;
                                LaunchAction::Finish(Ok(()))
                            },
                        }
                    } else {
                        self.after_not_running()
                    }
                } else {
                    if running {
                        self.final_focus()
                    } else {
                        self.spawn_or_fail()
                    }
                }
            },
            LaunchEvent::Ran(r) => {
                if self.stage == LaunchStage::FocusRunning {
                    self.stage = LaunchStage::Done;
                    LaunchAction::Finish(Ok(()))
                } else if self.stage == LaunchStage::RemoveRule {
                    match r {
                        Err(e) => {
                            self.stage = LaunchStage::Done;
                            LaunchAction::Finish(Err(e))
                        },
                        Ok(_) => {
                            let c = match (&self.app.wm_class, &self.app.bspwm_desktop) {
                                (Some(wc), Some(d)) => rule_add_command(wc, d),
                                _ => {
                                    // a rule is only removed for an application with both
                                    assert(false);
                                    focus_lunara()
                                },
                            };
                            self.stage = LaunchStage::AddRule;
                            LaunchAction::Run(c)
                        },
                    }
                } else if self.stage == LaunchStage::AddRule {
                    match r {
                        Err(e) => {
                            self.stage = LaunchStage::Done;
                            LaunchAction::Finish(Err(e))
                        },
                        Ok(_) => self.before_spawn(),
                    }
                } else {
                    self.stage = LaunchStage::Done;
                    if self.strict {
                        LaunchAction::Finish(r)
                    } else {
                        LaunchAction::Finish(Ok(()))
                    }
                }
            },
            LaunchEvent::Spawned(r) => match r {
                Err(m) => {
                    if self.strict {
                        let mut msg = String::from_str("spawn failed: ");
                        msg.append(m.as_str());
                        self.stage = LaunchStage::Done;
                        LaunchAction::Finish(Err(LunaraError::CommandFailed(msg)))
                    } else {
                        self.final_focus()
                    }
                },
                Ok(_) => self.final_focus(),
            },
        }
    }
}


/// Starts launching or focusing `app`, going on after failures to start or to show it
/// (only failures to set its window rules end the launch with an error).
pub fn launch_or_focus(app: &AppEntry) -> (r: (LaunchTask, LaunchAction))
    ensures
        r.0.app() == app@,
        !r.0.strict(),
        r.0.wf(),
        (r.0.stage(), r.1@) == spec_launch_start(app@, false),
{
    LaunchTask::start(app, false)
}

/// How far a launch has come; every step moves it further.
pub open spec fn stage_rank(s: LaunchStage) -> int {
    match s {
        LaunchStage::FirstProbe => 0,
        LaunchStage::FocusRunning => 1,
        LaunchStage::RemoveRule => 1,
        LaunchStage::AddRule => 2,
        LaunchStage::SecondProbe => 3,
        LaunchStage::Spawn => 4,
        LaunchStage::FinalFocus => 5,
        LaunchStage::Done => 6,
    }
}

/// A launch always progresses: each step moves to a later stage, so a launch ends after
/// at most seven steps; and it ends exactly when the step finishes it.
pub proof fn law_launch_progresses(a: AppEntryView, strict: bool, stage: LaunchStage, ev: LaunchEventView)
    requires
        event_fits(stage, ev),
    ensures
        stage_rank(spec_launch_step(a, strict, stage, ev).0) > stage_rank(stage),
        (spec_launch_step(a, strict, stage, ev).0 == LaunchStage::Done) <==> (spec_launch_step(a, strict, stage, ev).1 is Finish),
{
}

/// A launch that starts is either finished at once or waits on a later stage; it is
/// finished exactly when the first action finishes it.
pub proof fn law_launch_start(a: AppEntryView, strict: bool)
    ensures
        (spec_launch_start(a, strict).0 == LaunchStage::Done) <==> (spec_launch_start(a, strict).1 is Finish),
{
}

/// An application with a window class is only started right after a probe found no
/// window of that class.
pub proof fn law_no_spawn_while_running(a: AppEntryView, strict: bool, stage: LaunchStage, ev: LaunchEventView)
    requires
        event_fits(stage, ev),
    ensures
        spec_launch_start(a, strict).1 is Spawn ==> a.wm_class is None,
        spec_launch_step(a, strict, stage, ev).1 is Spawn ==> (a.wm_class is None || (
            stage == LaunchStage::SecondProbe && (ev matches LaunchEventView::Probed(o) && !probe_running(o)))),
{
}

/// Controls the bspwm window manager: remembers the desktop that was shown before the
/// launcher took the focus.
pub struct BspwmWMController {
    last_focused_desktop: Option<String>,
}

impl BspwmWMController {
    /// The desktop to go back to, if known.
    pub closed spec fn last_focused(&self) -> Option<Seq<char>> {
        opt_view(self.last_focused_desktop)
    }

    /// A controller with no desktop to go back to.
    pub fn new() -> (r: BspwmWMController)
        ensures
            r.last_focused() is None,
    {
        BspwmWMController { last_focused_desktop: None }
    }

    /// The query for the focused desktop's name: `bspc query --desktops -d focused --names`.
    pub fn current_desktop_query() -> (r: CommandSpec)
        ensures
            r@ == (CommandView {
                program: "bspc"@,
                args: seq!["query"@, "--desktops"@, "-d"@, "focused"@, "--names"@],
            }),
    {
        let c = CommandSpec {
            program: String::from_str("bspc"),
            args: strs(&["query", "--desktops", "-d", "focused", "--names"]),
        };
        assert(c@.args =~= seq!["query"@, "--desktops"@, "-d"@, "focused"@, "--names"@]);
        c
    }

    /// The focused desktop's name from the output of `current_desktop_query`, trimmed;
    /// none when the query failed.
    pub fn get_current_dekstop(output: LunaraResult<String>) -> (r: Option<String>)
        ensures
            opt_view(r) == match output {
                Ok(v) => Some(trim(v@)),
                Err(_) => None,
            },
    {
        match output {
            Ok(v) => Some(trim_str(v.as_str())),
            Err(_) => None,
        }
    }

    /// Remembers the desktop shown now (`current`, from `get_current_dekstop`) and gives the
    /// command that shows the launcher's desktop.
    pub fn focus_lunara(&mut self, current: Option<String>) -> (r: CommandSpec)
        ensures
            final(self).last_focused() == opt_view(current),
            r@ == cmd_focus_desktop("^1"@),
    {
        self.last_focused_desktop = current;
        focus_lunara()
    }

    /// The command that shows the remembered desktop again; none when there is none
    /// (nothing to do then).
    pub fn focus_last_app(&self) -> (r: Option<CommandSpec>)
        ensures
            match self.last_focused() {
                Some(d) => r matches Some(c) && c@ == cmd_focus_desktop(d),
                None => r is None,
            },
    {
        match &self.last_focused_desktop {
            Some(d) => Some(focus_desktop_command(d)),
            None => None,
        }
    }

    /// The probe that tells whether `app` runs (none: it counts as not running).
    pub fn is_running(&self, app: &AppEntry) -> (r: Option<CommandSpec>)
        ensures
            match app@.wm_class {
                Some(wc) => r matches Some(c) && c@ == cmd_probe(wc),
                None => r is None,
            },
    {
        running_probe(app)
    }

    /// The command that shows `app`'s desktop; none when it has no desktop.
    pub fn focus_app(app: &AppEntry) -> (r: Option<CommandSpec>)
        ensures
            match app@.bspwm_desktop {
                Some(d) => r matches Some(c) && c@ == cmd_focus_desktop(d),
                None => r is None,
            },
    {
        focus_app(app)
    }

    /// Starts launching or focusing `app`; failures to start or to show it end the launch
    /// with that error.
    pub fn launch_or_focus(&mut self, app: &AppEntry) -> (r: (LaunchTask, LaunchAction))
        ensures
            final(self).last_focused() == old(self).last_focused(),
            r.0.app() == app@,
            r.0.strict(),
            r.0.wf(),
            (r.0.stage(), r.1@) == spec_launch_start(app@, true),
    {
        LaunchTask::start(app, true)
    }
}

/// The window-manager controller for a window manager's name; only `bspwm` has one.
pub fn get_wm_from_name(name: &str) -> (r: Result<BspwmWMController, String>)
    ensures
        name@ == "bspwm"@ ==> (r matches Ok(c) && c.last_focused() is None),
        name@ != "bspwm"@ ==> (r matches Err(m) && m@ == "Can't find WM for "@ + name@),
{
    if str_eq(name, "bspwm") {
        Ok(BspwmWMController::new())
    } else {
        let mut m = String::from_str("Can't find WM for ");
        m.append(name);
        Err(m)
    }
}

/// Whether or not failures are strict, an application with a window class `wc` and a
/// desktop `d` that a probe finds not running gets its window rule before it is
/// started: first `bspc rule -r <wc>:*:*`, then, if that succeeded,
/// `bspc rule -a <wc> -o "desktop=<d> follow=on"`, then, if that succeeded, a second
/// probe `xdotool search --class <wc>`. A failure of either rule command ends the launch
/// with that error. These steps are the same for strict and lenient launches.
pub proof fn law_rule_set_before_start(a: AppEntryView, strict: bool, o: Option<(bool, bool)>, e: ErrorView)
    requires
        a.wm_class is Some,
        a.bspwm_desktop is Some,
        o != Some((true, true)),
    ensures
        ({
            let wc = a.wm_class->0;
            let d = a.bspwm_desktop->0;
            &&& spec_launch_start(a, strict) == (LaunchStage::FirstProbe, LaunchActionView::Probe(
                CommandView { program: "xdotool"@, args: seq!["search"@, "--class"@, wc] }))
            &&& spec_launch_step(a, strict, LaunchStage::FirstProbe, LaunchEventView::Probed(o))
                == (LaunchStage::RemoveRule, LaunchActionView::Run(
                    CommandView { program: "bspc"@, args: seq!["rule"@, "-r"@, wc + ":*:*"@] }))
            &&& spec_launch_step(a, strict, LaunchStage::RemoveRule, LaunchEventView::Ran(Ok(())))
                == (LaunchStage::AddRule, LaunchActionView::Run(CommandView {
                    program: "bspc"@,
                    args: seq!["rule"@, "-a"@, wc, "-o"@, "desktop="@ + d + " follow=on"@],
                }))
            &&& spec_launch_step(a, strict, LaunchStage::AddRule, LaunchEventView::Ran(Ok(())))
                == (LaunchStage::SecondProbe, LaunchActionView::Probe(
                    CommandView { program: "xdotool"@, args: seq!["search"@, "--class"@, wc] }))
            &&& spec_launch_step(a, strict, LaunchStage::RemoveRule, LaunchEventView::Ran(Err(e)))
                == (LaunchStage::Done, LaunchActionView::Finish(Err(e)))
            &&& spec_launch_step(a, strict, LaunchStage::AddRule, LaunchEventView::Ran(Err(e)))
                == (LaunchStage::Done, LaunchActionView::Finish(Err(e)))
            &&& spec_launch_step(a, strict, LaunchStage::FirstProbe, LaunchEventView::Probed(o))
                == spec_launch_step(a, !strict, LaunchStage::FirstProbe, LaunchEventView::Probed(o))
        }),
{
}

/// A probe that finds the application running only shows its desktop (when it has one):
/// no rule is set and nothing is started.
pub proof fn law_running_app_only_focused(a: AppEntryView, strict: bool)
    ensures
        match a.bspwm_desktop {
            Some(d) => spec_launch_step(a, strict, LaunchStage::FirstProbe, LaunchEventView::Probed(Some((true, true))))
                == (LaunchStage::FocusRunning, LaunchActionView::Run(
                    CommandView { program: "bspc"@, args: seq!["desktop"@, "-f"@, d] })),
            None => spec_launch_step(a, strict, LaunchStage::FirstProbe, LaunchEventView::Probed(Some((true, true))))
                == (LaunchStage::Done, LaunchActionView::Finish(Ok(()))),
        },
{
}

} // verus!
