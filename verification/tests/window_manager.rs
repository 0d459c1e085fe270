use lunara::bspwm::{
    focus_app, focus_lunara, get_wm_from_name, launch_or_focus, probe_says_running, running_probe,
    spawn_command, BspwmWMController, LaunchAction, LaunchEvent, LaunchStage, LaunchTask,
};
use lunara::command::{CommandSpec, LunaraError};
use lunara::models::AppEntry;

fn app(wm_class: Option<&str>, desk: Option<&str>, cmd: &[&str]) -> AppEntry {
    AppEntry {
        id: "term".to_string(),
        name: "Terminal".to_string(),
        cmd: cmd.iter().map(|s| s.to_string()).collect(),
        wm_class: wm_class.map(|s| s.to_string()),
        icon: None,
        bspwm_desktop: desk.map(|s| s.to_string()),
    }
}

fn line(c: &CommandSpec) -> String {
    let mut v = vec![c.program.clone()];
    v.extend(c.args.iter().cloned());
    v.join(" ")
}

fn show(a: &LaunchAction) -> String {
    match a {
        LaunchAction::Probe(c) => format!("probe {}", line(c)),
        LaunchAction::Run(c) => format!("run {}", line(c)),
        LaunchAction::Spawn(c) => format!("spawn {}", line(c)),
        LaunchAction::Finish(Ok(())) => "ok".to_string(),
        LaunchAction::Finish(Err(LunaraError::MissingCmd)) => "missing cmd".to_string(),
        LaunchAction::Finish(Err(LunaraError::CommandFailed(m))) => format!("failed: {m}"),
    }
}

/// Runs a launch, answering each action with the next event of `events`.
fn drive(start: (LaunchTask, LaunchAction), events: Vec<LaunchEvent>) -> Vec<String> {
    let (mut task, mut action) = start;
    let mut seen = vec![show(&action)];
    for ev in events {
        assert!(task.expects(&ev));
        action = task.step(ev);
        seen.push(show(&action));
    }
    assert_eq!(task.current_stage(), LaunchStage::Done);
    seen
}

fn ok() -> LaunchEvent {
    LaunchEvent::Ran(Ok(()))
}

#[test]
fn simple_commands() {
    assert_eq!(line(&focus_lunara()), "bspc desktop -f ^1");
    assert_eq!(line(&focus_app(&app(None, Some("web"), &["x"])).unwrap()), "bspc desktop -f web");
    assert!(focus_app(&app(None, None, &["x"])).is_none());
    assert_eq!(line(&running_probe(&app(Some("Alacritty"), None, &["x"])).unwrap()), "xdotool search --class Alacritty");
    assert!(running_probe(&app(None, None, &["x"])).is_none());
    assert!(probe_says_running(Some((true, true))));
    assert!(!probe_says_running(Some((true, false))));
    assert!(!probe_says_running(None));
    assert_eq!(line(&spawn_command(&app(None, None, &["alacritty", "-e", "htop"])).unwrap()), "alacritty -e htop");
    assert!(matches!(spawn_command(&app(None, None, &[])), Err(LunaraError::MissingCmd)));
}

#[test]
fn running_app_is_only_focused() {
    let a = app(Some("Alacritty"), Some("term"), &["alacritty"]);
    let seen = drive(launch_or_focus(&a), vec![LaunchEvent::Probed(Some((true, true))), LaunchEvent::Ran(Err(LunaraError::MissingCmd))]);
    assert_eq!(seen, vec!["probe xdotool search --class Alacritty", "run bspc desktop -f term", "ok"]);
}

#[test]
fn new_app_gets_rule_then_starts() {
    let a = app(Some("Alacritty"), Some("term"), &["alacritty", "-e", "htop"]);
    let seen = drive(
        launch_or_focus(&a),
        vec![
            LaunchEvent::Probed(Some((true, false))),
            ok(),
            ok(),
            LaunchEvent::Probed(None),
            LaunchEvent::Spawned(Ok(())),
            ok(),
        ],
    );
    assert_eq!(
        seen,
        vec![
            "probe xdotool search --class Alacritty",
            "run bspc rule -r Alacritty:*:*",
            "run bspc rule -a Alacritty -o desktop=term follow=on",
            "probe xdotool search --class Alacritty",
            "spawn alacritty -e htop",
            "run bspc desktop -f term",
            "ok",
        ]
    );
}

#[test]
fn rule_failure_ends_launch() {
    let a = app(Some("A"), Some("d"), &["a"]);
    let seen = drive(launch_or_focus(&a), vec![LaunchEvent::Probed(None), LaunchEvent::Ran(Err(LunaraError::CommandFailed("bspc".to_string())))]);
    assert_eq!(seen.last().unwrap(), "failed: bspc");
}

#[test]
fn lenient_and_strict_spawn_failures() {
    let a = app(None, Some("d"), &["a"]);
    let lenient = drive(launch_or_focus(&a), vec![LaunchEvent::Spawned(Err("no such file".to_string())), ok()]);
    assert_eq!(lenient, vec!["spawn a", "run bspc desktop -f d", "ok"]);
    let mut ctl = BspwmWMController::new();
    let strict = drive(ctl.launch_or_focus(&a), vec![LaunchEvent::Spawned(Err("no such file".to_string()))]);
    assert_eq!(strict, vec!["spawn a", "failed: spawn failed: no such file"]);
}

#[test]
fn missing_command() {
    let a = app(None, None, &[]);
    assert_eq!(drive(launch_or_focus(&a), vec![]), vec!["ok"]);
    let mut ctl = BspwmWMController::new();
    assert_eq!(drive(ctl.launch_or_focus(&a), vec![]), vec!["missing cmd"]);
}

#[test]
fn strict_focus_failure_is_reported() {
    let a = app(None, Some("d"), &["a"]);
    let mut ctl = BspwmWMController::new();
    let seen = drive(ctl.launch_or_focus(&a), vec![LaunchEvent::Spawned(Ok(())), LaunchEvent::Ran(Err(LunaraError::CommandFailed("x".to_string())))]);
    assert_eq!(seen.last().unwrap(), "failed: x");
}

#[test]
fn controller_remembers_desktop() {
    let mut ctl = BspwmWMController::new();
    assert!(ctl.focus_last_app().is_none());
    assert_eq!(line(&BspwmWMController::current_desktop_query()), "bspc query --desktops -d focused --names");
    let current = BspwmWMController::get_current_dekstop(Ok(" 2 \n".to_string()));
    assert_eq!(current.as_deref(), Some("2"));
    assert!(BspwmWMController::get_current_dekstop(Err(LunaraError::MissingCmd)).is_none());
    assert_eq!(line(&ctl.focus_lunara(current)), "bspc desktop -f ^1");
    assert_eq!(line(&ctl.focus_last_app().unwrap()), "bspc desktop -f 2");
}

#[test]
fn window_manager_by_name() {
    assert!(get_wm_from_name("bspwm").is_ok());
    match get_wm_from_name("i3") {
        Err(m) => assert_eq!(m, "Can't find WM for i3"),
        Ok(_) => panic!("i3 has no controller"),
    }
}
