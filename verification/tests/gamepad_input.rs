use lunara::config::{
    GamepadButton, LunaraConfig, LunaraConfigGamapedKeyEntry, LunaraConfigGamepadKeymapEntry,
    LunaraConfigKeyboard, LunaraConfigStickMode,
};
use lunara::gamepad::{
    button_label, dominant_dir, exec_keyboard_binding, exec_lunara_gampad_key, f32_abs, f32_less,
    Direction, GamepadAction, GamepadManager, RefreshCounter, StickAxis, StickState, DEADZONE_BITS,
};

type Action = GamepadAction<u8, u8>;

fn floats() -> Vec<f32> {
    vec![
        0.0, -0.0, 0.35, -0.35, 0.3499999, 0.3500001, 1.0, -1.0, 0.5, -0.5, f32::INFINITY, f32::NEG_INFINITY,
        f32::NAN, -f32::NAN, f32::MIN_POSITIVE, -f32::MIN_POSITIVE, 1e-45, -1e-45, f32::MAX, f32::MIN, 0.7, -0.9,
    ]
}

fn original_dominant_dir(x: f32, y: f32, deadzone: f32) -> Direction {
    let ax = x.abs();
    let ay = y.abs();
    if ax < deadzone && ay < deadzone {
        Direction::Neutral
    } else if ax > ay {
        if x > 0.0 { Direction::Right } else { Direction::Left }
    } else if y > 0.0 {
        Direction::Down
    } else {
        Direction::Up
    }
}

fn acts(v: &[Action]) -> Vec<String> {
    v.iter().map(|a| format!("{a:?}")).collect()
}

fn entry_cmd(cmd: &str) -> LunaraConfigGamapedKeyEntry<u8, u8> {
    LunaraConfigGamapedKeyEntry { home: false, mouse: None, keyboard: None, cmd: Some(cmd.to_string()), args: None }
}

fn keymap(keys: Vec<(GamepadButton, LunaraConfigGamapedKeyEntry<u8, u8>)>) -> LunaraConfigGamepadKeymapEntry<u8, u8> {
    LunaraConfigGamepadKeymapEntry { left_stick_mode: LunaraConfigStickMode::Off, right_stick_mode: LunaraConfigStickMode::Off, keys }
}

fn config() -> LunaraConfig<u8, u8> {
    let mut c: LunaraConfig<u8, u8> = LunaraConfig::default_with(Some("bspwm".to_string()));
    c.global_keymap = keymap(vec![(GamepadButton::Mode, LunaraConfigGamapedKeyEntry { home: true, ..Default::default() })]);
    c.lunara_keymap = keymap(vec![(GamepadButton::Start, entry_cmd("menu"))]);
    let mut game = keymap(vec![(GamepadButton::South, entry_cmd("jump"))]);
    game.left_stick_mode = LunaraConfigStickMode::Arrow;
    game.right_stick_mode = LunaraConfigStickMode::Off;
    c.desktop_keymap = vec![("game".to_string(), game)];
    c.global_keymap.right_stick_mode = LunaraConfigStickMode::Mouse;
    c.global_keymap.left_stick_mode = LunaraConfigStickMode::Scroll;
    c
}

#[test]
fn float_comparison_on_bits_agrees_with_f32() {
    for a in floats() {
        for b in floats() {
            assert_eq!(f32_less(a.to_bits(), b.to_bits()), a < b, "{a} < {b}");
        }
        assert_eq!(f32_abs(a.to_bits()), a.abs().to_bits());
    }
    assert_eq!(DEADZONE_BITS, 0.35f32.to_bits());
}

#[test]
fn dominant_direction_agrees_with_f32() {
    for x in floats() {
        for y in floats() {
            assert_eq!(
                dominant_dir(x.to_bits(), y.to_bits(), DEADZONE_BITS),
                original_dominant_dir(x, y, 0.35),
                "({x}, {y})"
            );
        }
    }
}

#[test]
fn direction_names() {
    assert_eq!(Direction::Up.to_string(), "up");
    assert_eq!(Direction::Down.to_string(), "down");
    assert_eq!(Direction::Left.to_string(), "left");
    assert_eq!(Direction::Right.to_string(), "right");
    assert_eq!(Direction::Neutral.to_string(), "none");
    assert_eq!(button_label(GamepadButton::North), Some("Y"));
    assert_eq!(button_label(GamepadButton::Start), None);
}

#[test]
fn stick_repeat_timing() {
    let mut s = StickState::default();
    s.x = 1.0f32.to_bits();
    assert_eq!(s.stick_update(1000), Direction::Right);
    assert_eq!(s.next_time, 1250);
    assert_eq!(s.stick_update(1100), Direction::Neutral);
    assert_eq!(s.stick_update(1250), Direction::Right);
    assert_eq!(s.next_time, 1450);
    assert_eq!(s.stick_update(1449), Direction::Neutral);
    assert_eq!(s.stick_update(1450), Direction::Right);
    s.y = (-2.0f32).to_bits();
    assert_eq!(s.stick_update(1460), Direction::Up);
    s.x = 0.0f32.to_bits();
    s.y = 0.1f32.to_bits();
    assert_eq!(s.stick_update(1470), Direction::Neutral);
    assert_eq!(s.next_time, 0);
}

#[test]
fn keyboard_chord_order() {
    let kb = LunaraConfigKeyboard { modifier: Some(vec![1u8, 2u8]), keys: vec!['a', 'é'] };
    let a: Vec<Action> = exec_keyboard_binding(&kb);
    assert_eq!(acts(&a), vec!["KeyPress(1)", "KeyPress(2)", "TypeChar(97)", "TypeChar(233)", "KeyRelease(2)", "KeyRelease(1)"]);
}

#[test]
fn key_entry_acts_on_release() {
    let e = LunaraConfigGamapedKeyEntry {
        home: false,
        mouse: Some(9u8),
        keyboard: Some(LunaraConfigKeyboard { modifier: None, keys: vec!['x'] }),
        cmd: Some("notify".to_string()),
        args: Some(vec!["hi".to_string()]),
    };
    assert!(exec_lunara_gampad_key(true, &e, false).is_empty());
    let a: Vec<Action> = exec_lunara_gampad_key(false, &e, false);
    assert_eq!(a.len(), 3);
    assert!(matches!(&a[0], GamepadAction::RunCommand(c) if c.program == "notify" && c.args == vec!["hi".to_string()]));
    assert_eq!(acts(&a[1..]), vec!["TypeChar(120)", "MouseClick(9)"]);
    let home: LunaraConfigGamapedKeyEntry<u8, u8> = LunaraConfigGamapedKeyEntry { home: true, ..Default::default() };
    assert_eq!(acts(&exec_lunara_gampad_key(false, &home, true)), vec!["FocusLastApp"]);
    assert_eq!(acts(&exec_lunara_gampad_key(false, &home, false)), vec!["FocusLunara"]);
}

#[test]
fn default_config_window_manager() {
    let c: LunaraConfig<u8, u8> = LunaraConfig::default_with(None);
    assert_eq!(c.window_manager, "bspwm");
    assert_eq!(c.user_name, "Alice");
    let c: LunaraConfig<u8, u8> = LunaraConfig::default_with(Some("  ".to_string()));
    assert_eq!(c.window_manager, "bspwm");
    let c: LunaraConfig<u8, u8> = LunaraConfig::default_with(Some("i3".to_string()));
    assert_eq!(c.window_manager, "i3");
}

#[test]
fn button_priority_desktop_then_global_then_launcher() {
    let mut g = GamepadManager::new(config());
    // no focused desktop keymap yet: South is an action button for the launcher
    assert!(g.button_pressed_releassed(true, GamepadButton::South, true, None).is_empty());
    assert_eq!(acts(&g.button_pressed_releassed(false, GamepadButton::South, true, None)), vec!["EmitButton(\"A\")"]);
    assert!(g.button_pressed_releassed(false, GamepadButton::South, false, None).is_empty());
    // global home binding
    assert_eq!(acts(&g.button_pressed_releassed(false, GamepadButton::Mode, false, None)), vec!["FocusLunara"]);
    // launcher binding only while focused
    let a = g.button_pressed_releassed(false, GamepadButton::Start, true, None);
    assert!(matches!(&a[..], [GamepadAction::RunCommand(c)] if c.program == "menu"));
    assert!(g.button_pressed_releassed(false, GamepadButton::Start, false, None).is_empty());
    // focused desktop keymap takes over South
    g.refresh_current_focused(Some("game".to_string()));
    let a = g.button_pressed_releassed(false, GamepadButton::South, true, None);
    assert!(matches!(&a[..], [GamepadAction::RunCommand(c)] if c.program == "jump"));
    g.refresh_current_focused(None);
    let a = g.button_pressed_releassed(false, GamepadButton::South, false, None);
    assert_eq!(a.len(), 1);
    g.refresh_current_focused(Some("other".to_string()));
    assert!(g.button_pressed_releassed(false, GamepadButton::South, false, None).is_empty());
}

#[test]
fn dpad_navigation_repeats() {
    let mut g = GamepadManager::new(config());
    assert!(g.needs_event_age(true, GamepadButton::DPadUp, true));
    assert!(!g.needs_event_age(false, GamepadButton::DPadUp, true));
    assert_eq!(acts(&g.button_pressed_releassed(true, GamepadButton::DPadUp, true, Some(0))), vec!["EmitDirection(Up)"]);
    assert!(g.button_pressed_releassed(true, GamepadButton::DPadUp, true, Some(100)).is_empty());
    assert_eq!(acts(&g.button_pressed_releassed(true, GamepadButton::DPadUp, true, Some(250))), vec!["EmitDirection(Up)"]);
    assert!(g.button_pressed_releassed(false, GamepadButton::DPadDown, true, None).is_empty());
    assert!(g.button_pressed_releassed(true, GamepadButton::DPadUp, true, Some(300)).is_empty());
    assert!(g.button_pressed_releassed(false, GamepadButton::DPadUp, true, None).is_empty());
    assert_eq!(acts(&g.button_pressed_releassed(true, GamepadButton::DPadUp, true, Some(5))), vec!["EmitDirection(Up)"]);
    assert_eq!(acts(&g.button_pressed_releassed(true, GamepadButton::DPadLeft, true, Some(6))), vec!["EmitDirection(Left)"]);
}

#[test]
fn sticks_follow_modes() {
    let mut g = GamepadManager::new(config());
    let x = 0.9f32.to_bits();
    g.axis_change(StickAxis::LeftStickX, x);
    g.axis_change(StickAxis::RightStickY, 0.5f32.to_bits());
    g.axis_change(StickAxis::Other, 1.0f32.to_bits());
    // launcher focused: left stick navigates
    assert_eq!(acts(&g.axis_update_all(1000, true)), vec!["EmitDirection(Right)"]);
    assert_eq!(acts(&g.axis_update_all(1010, true)), vec!["EmitDirection(Neutral)"]);
    // elsewhere: global modes (right: mouse, left: scroll)
    let a = g.axis_update_all(1020, false);
    assert_eq!(acts(&a), vec![format!("MoveMouse(0, {})", 0.5f32.to_bits()), format!("Scroll({x}, 0)")]);
    // desktop keymap: left stick arrows, right stick falls back to the global mode
    g.refresh_current_focused(Some("game".to_string()));
    let a = g.axis_update_all(1300, false);
    assert_eq!(acts(&a), vec!["ArrowKey(Right)".to_string(), format!("MoveMouse(0, {})", 0.5f32.to_bits())]);
}

#[test]
fn refresh_every_sixty_polls() {
    let mut c = RefreshCounter::new();
    for _ in 0..59 {
        assert!(!c.tick());
    }
    assert!(c.tick());
    assert!(!c.tick());
}

#[test]
fn refresh_count_over_many_polls() {
    let mut c = RefreshCounter::new();
    let mut due_polls = Vec::new();
    for k in 1..=200u32 {
        if c.tick() {
            due_polls.push(k);
        }
    }
    assert_eq!(due_polls, vec![60, 120, 180]);
}
