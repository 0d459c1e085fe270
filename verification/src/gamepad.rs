use vstd::prelude::*;
use vstd::string::*;
use crate::command::{CommandSpec, CommandView};
use crate::config::{
    GamepadButton, LunaraConfig, LunaraConfigGamapedKeyEntry, LunaraConfigGamepadKeymapEntry,
    LunaraConfigKeyboard, LunaraConfigStickMode, ConfigView, KeymapView, KeyEntryView,
    KeyboardView, binding_of, keymap_of, spec_is_action, spec_is_dpad,
};
use crate::models::opt_view;

verus! {

broadcast use vstd::string::group_string_axioms;

/// Stick deflection (as `f32` bits) below which a stick counts as centred: 0.35.
pub const DEADZONE_BITS: u32 = 0x3eb3_3333;

/// Delay before a held direction repeats, in milliseconds.
pub const INIT_DELAY_MS: u128 = 250;

/// Delay between repeats of a held direction, in milliseconds.
pub const REPEAT_DELAY_MS: u128 = 200;

/// A direction of a stick or of the D-pad.
#[derive(Debug, Clone, Copy, PartialEq, Eq, Structural)]
pub enum Direction {
    Up,
    Down,
    Left,
    Right,
    /// No direction (`none`).
    Neutral,
}

/// The name of a direction in interface events.
pub open spec fn spec_direction_name(d: Direction) -> Seq<char> {
    match d {
        Direction::Up => "up"@,
        Direction::Down => "down"@,
        Direction::Left => "left"@,
        Direction::Right => "right"@,
        Direction::Neutral => "none"@,
    }
}

impl Direction {
    /// The name of the direction in interface events.
    pub fn to_string(&self) -> (r: &'static str)
        ensures
            r@ == spec_direction_name(*self),
            *self == Direction::Up ==> r@ == "up"@,
            *self == Direction::Down ==> r@ == "down"@,
            *self == Direction::Left ==> r@ == "left"@,
            *self == Direction::Right ==> r@ == "right"@,
            *self == Direction::Neutral ==> r@ == "none"@,
    {
        match self {
            Direction::Up => "up",
            Direction::Down => "down",
            Direction::Left => "left",
            Direction::Right => "right",
            Direction::Neutral => "none",
        }
    }
}

// `f32` values are carried as their IEEE-754 bit patterns; the functions below give
// the meaning of `f32` comparisons and `abs` on those patterns.

/// The bit pattern has its sign bit set.
pub open spec fn f32_sign(b: u32) -> bool {
    b >= 0x8000_0000
}

/// The bit pattern without its sign bit: the magnitude, ordered as the values are.
pub open spec fn f32_mag(b: u32) -> u32 {
    if f32_sign(b) {
        (b - 0x8000_0000) as u32
    } else {
        b
    }
}

/// The bit pattern is a NaN.
pub open spec fn f32_nan(b: u32) -> bool {
    f32_mag(b) > 0x7f80_0000
}

/// A number ordered as the (non-NaN) value is; both zeros map to 0.
pub open spec fn f32_key(b: u32) -> int {
    if f32_sign(b) {
        -(f32_mag(b) as int)
    } else {
        f32_mag(b) as int
    }
}

/// `a < b` on `f32` values (false when either is NaN).
pub open spec fn f32_lt(a: u32, b: u32) -> bool {
    !f32_nan(a) && !f32_nan(b) && f32_key(a) < f32_key(b)
}

/// `f32::abs`: clears the sign bit.
pub fn f32_abs(b: u32) -> (r: u32)
    ensures
        r == f32_mag(b),
{
    if b >= 0x8000_0000 {
        b - 0x8000_0000
    } else {
        b
    }
}

/// `a < b` on `f32` values given by their bits.
pub fn f32_less(a: u32, b: u32) -> (r: bool)
    ensures
        r == f32_lt(a, b),
{
    let ma = f32_abs(a);
    let mb = f32_abs(b);
    if ma > 0x7f80_0000 || mb > 0x7f80_0000 {
        return false;
    }
    let na = a >= 0x8000_0000;
    let nb = b >= 0x8000_0000;
    if na && nb {
        mb < ma
    } else if na && !nb {
        ma != 0 || mb != 0
    } else if !na && nb {
        false
    } else {
        ma < mb
    }
}

/// The direction a stick at `(x, y)` points to: none inside the dead zone, else the
/// axis with the larger deflection decides (`y` grows downwards).
pub open spec fn spec_dominant_dir(x: u32, y: u32, deadzone: u32) -> Direction {
    let ax = f32_mag(x);
    let ay = f32_mag(y);
    if f32_lt(ax, deadzone) && f32_lt(ay, deadzone) {
        Direction::Neutral
    } else if f32_lt(ay, ax) {
        if f32_lt(0, x) {
            Direction::Right
        } else {
            Direction::Left
        }
    } else {
        if f32_lt(0, y) {
            Direction::Down
        } else {
            Direction::Up
        }
    }
}

/// The direction a stick at `(x, y)` points to (all three as `f32` bits).
pub fn dominant_dir(x: u32, y: u32, deadzone: u32) -> (r: Direction)
    ensures
        r == spec_dominant_dir(x, y, deadzone),
{
    let ax = f32_abs(x);
    let ay = f32_abs(y);
    if f32_less(ax, deadzone) && f32_less(ay, deadzone) {
        Direction::Neutral
    } else if f32_less(ay, ax) {
        if f32_less(0, x) {
            Direction::Right
        } else {
            Direction::Left
        }
    } else {
        if f32_less(0, y) {
            Direction::Down
        } else {
            Direction::Up
        }
    }
}

/// The state of one analog stick: its deflection (`f32` bits), the direction it pointed
/// to at the last update, and when a held direction next repeats (0: not scheduled).
#[derive(Debug, Clone, Copy)]
pub struct StickState {
    pub x: u32,
    pub y: u32,
    pub dir: Direction,
    pub next_time: u128,
}

impl Default for StickState {
    fn default() -> (r: StickState)
        ensures
            r == (StickState { x: 0, y: 0, dir: Direction::Neutral, next_time: 0 }),
    {
        StickState { x: 0, y: 0, dir: Direction::Neutral, next_time: 0 }
    }
}

/// The stick after an update at time `t` (milliseconds), and the direction it reports
/// for this tick: a new direction at once, a held one when its repeat time has come.
pub open spec fn spec_stick_update(s: StickState, t: u128) -> (StickState, Direction) {
    let dir = spec_dominant_dir(s.x, s.y, DEADZONE_BITS);
    if dir == Direction::Neutral {
        (StickState { dir, next_time: 0, ..s }, Direction::Neutral)
    } else if dir != s.dir {
        (StickState { dir, next_time: (t + INIT_DELAY_MS) as u128, ..s }, dir)
    } else if t >= s.next_time {
        (StickState { dir, next_time: (t + REPEAT_DELAY_MS) as u128, ..s }, dir)
    } else {
        (StickState { dir, ..s }, Direction::Neutral)
    }
}

impl StickState {
    /// Updates the stick at time `t` (milliseconds since the Unix epoch) and returns the
    /// direction to report for this tick (`Neutral` for none).
    pub fn stick_update(&mut self, t: u128) -> (r: Direction)
        requires
            t <= u128::MAX - INIT_DELAY_MS,
        ensures
            (*final(self), r) == spec_stick_update(*old(self), t),
    {
        let dir = dominant_dir(self.x, self.y, DEADZONE_BITS);
        let mut dir_this_tick = Direction::Neutral;
        if dir == Direction::Neutral {
            self.next_time = 0;
        } else if dir != self.dir {
            self.next_time = t + INIT_DELAY_MS;
            dir_this_tick = dir;
        } else if t >= self.next_time {
            self.next_time = t + REPEAT_DELAY_MS;
            dir_this_tick = dir;
        }
        self.dir = dir;
        dir_this_tick
    }
}


/// Something the gamepad handler asks its caller to do. `K` and `M` are the keyboard
/// keys and mouse buttons of the input backend.
#[derive(Debug, Clone)]
pub enum GamepadAction<K, M> {
    /// Run a command, ignoring its output.
    RunCommand(CommandSpec),
    /// Give the focus back to the application used before the launcher.
    FocusLastApp,
    /// Give the focus to the launcher.
    FocusLunara,
    /// Press and hold a key.
    KeyPress(K),
    /// Release a held key.
    KeyRelease(K),
    /// Type one character, given by its code point.
    TypeChar(u32),
    /// Click a mouse button.
    MouseClick(M),
    /// Move the pointer by the stick deflection (`f32` bits of x and y), scaled by the caller.
    MoveMouse(u32, u32),
    /// Scroll by the stick deflection (`f32` bits of x and y), scaled by the caller.
    Scroll(u32, u32),
    /// Click the arrow key of a direction.
    ArrowKey(Direction),
    /// Tell the interface that a direction was input.
    EmitDirection(Direction),
    /// Tell the interface that an action button was released (its label).
    EmitButton(String),
}

/// The contents of a `GamepadAction`.
pub enum ActionView<K, M> {
    RunCommand(CommandView),
    FocusLastApp,
    FocusLunara,
    KeyPress(K),
    KeyRelease(K),
    /// The code point of the character typed.
    TypeChar(u32),
    MouseClick(M),
    MoveMouse(u32, u32),
    Scroll(u32, u32),
    ArrowKey(Direction),
    EmitDirection(Direction),
    EmitButton(Seq<char>),
}

impl<K, M> View for GamepadAction<K, M> {
    type V = ActionView<K, M>;

    open spec fn view(&self) -> ActionView<K, M> {
        match *self {
            GamepadAction::RunCommand(c) => ActionView::RunCommand(c@),
            GamepadAction::FocusLastApp => ActionView::FocusLastApp,
            GamepadAction::FocusLunara => ActionView::FocusLunara,
            GamepadAction::KeyPress(k) => ActionView::KeyPress(k),
            GamepadAction::KeyRelease(k) => ActionView::KeyRelease(k),
            GamepadAction::TypeChar(c) => ActionView::TypeChar(c),
            GamepadAction::MouseClick(m) => ActionView::MouseClick(m),
            GamepadAction::MoveMouse(x, y) => ActionView::MoveMouse(x, y),
            GamepadAction::Scroll(x, y) => ActionView::Scroll(x, y),
            GamepadAction::ArrowKey(d) => ActionView::ArrowKey(d),
            GamepadAction::EmitDirection(d) => ActionView::EmitDirection(d),
            GamepadAction::EmitButton(l) => ActionView::EmitButton(l@),
        }
    }
}

/// The contents of each action of a list.
pub open spec fn actions_view<K, M>(v: Seq<GamepadAction<K, M>>) -> Seq<ActionView<K, M>> {
    v.map_values(|a: GamepadAction<K, M>| a@)
}

/// What the home binding does: leave the launcher when it has the focus, else go to it.
pub open spec fn spec_home_action<K, M>(lunara_focused: bool) -> ActionView<K, M> {
    if lunara_focused {
        ActionView::FocusLastApp
    } else {
        ActionView::FocusLunara
    }
}

/// Typing one character.
pub open spec fn type_char_action<K, M>(c: char) -> ActionView<K, M> {
    ActionView::TypeChar(c as u32)
}

/// A key chord: press the modifiers in order, type the characters, release the
/// modifiers in the reverse order.
pub open spec fn spec_keyboard_actions<K, M>(kb: KeyboardView<K>) -> Seq<ActionView<K, M>> {
    let mods = match kb.modifier {
        Some(m) => m,
        None => Seq::empty(),
    };
    mods.map_values(|k: K| ActionView::<K, M>::KeyPress(k)) + kb.keys.map_values(
        |c: char| type_char_action::<K, M>(c),
    ) + mods.reverse().map_values(|k: K| ActionView::<K, M>::KeyRelease(k))
}

/// What a binding does when its button is pressed (nothing) or released: go home, or
/// run its command, type its chord and click its mouse button, in that order.
pub open spec fn spec_key_actions<K, M>(press: bool, e: KeyEntryView<K, M>, lunara_focused: bool) -> Seq<ActionView<K, M>> {
    if press {
        Seq::empty()
    } else if e.home {
        seq![spec_home_action(lunara_focused)]
    } else {
        let cmd_part = match e.cmd {
            Some(c) => seq![
                ActionView::RunCommand(
                    CommandView {
                        program: c,
                        args: match e.args {
                            Some(a) => a,
                            None => Seq::empty(),
                        },
                    },
                ),
            ],
            None => Seq::empty(),
        };
        let kb_part = match e.keyboard {
            Some(kb) => spec_keyboard_actions(kb),
            None => Seq::empty(),
        };
        let mouse_part = match e.mouse {
            Some(m) => seq![ActionView::MouseClick(m)],
            None => Seq::empty(),
        };
        cmd_part + kb_part + mouse_part
    }
}

/// The actions of a key chord.
pub fn exec_keyboard_binding<K: Copy, M>(kb: &LunaraConfigKeyboard<K>) -> (r: Vec<GamepadAction<K, M>>)
    ensures
        actions_view(r@) == spec_keyboard_actions::<K, M>(kb@),
{
    let ghost mods = match kb@.modifier {
        Some(m) => m,
        None => Seq::<K>::empty(),
    };
    let mut r: Vec<GamepadAction<K, M>> = Vec::new();
    if let Some(modifiers) = &kb.modifier {
        let mut i: usize = 0;
        while i < modifiers.len()
            invariant
                mods == modifiers@,
                i <= modifiers.len(),
                actions_view(r@) == mods.take(i as int).map_values(|k: K| ActionView::<K, M>::KeyPress(k)),
            decreases modifiers.len() - i,
        {
            let ghost before = r@;
            r.push(GamepadAction::KeyPress(modifiers[i]));
            proof {
                assert(mods.take(i + 1) =~= mods.take(i as int).push(mods[i as int]));
                assert(actions_view(r@) =~= actions_view(before).push(ActionView::KeyPress(mods[i as int])));
                assert(mods.take(i + 1).map_values(|k: K| ActionView::<K, M>::KeyPress(k)) =~= mods.take(
                    i as int,
                ).map_values(|k: K| ActionView::<K, M>::KeyPress(k)).push(ActionView::KeyPress(mods[i as int])));
            }
            i = i + 1;
        }
        proof {
            assert(mods.take(i as int) =~= mods);
        }
    } else {
        assert(actions_view(r@) =~= mods.map_values(|k: K| ActionView::<K, M>::KeyPress(k)));
    }
    let ghost p1 = actions_view(r@);
    let ghost ks = kb.keys@;
    assert(actions_view(r@) =~= p1 + ks.take(0).map_values(|c: char| type_char_action::<K, M>(c)));
    let mut j: usize = 0;
    while j < kb.keys.len()
        invariant
            ks == kb.keys@,
            j <= ks.len(),
            actions_view(r@) == p1 + ks.take(j as int).map_values(|c: char| type_char_action::<K, M>(c)),
        decreases ks.len() - j,
    {
        let ghost before = r@;
        let c = kb.keys[j];
        r.push(GamepadAction::TypeChar(c as u32));
        proof {
            assert(c == ks[j as int]);
            assert(ks.take(j + 1) =~= ks.take(j as int).push(ks[j as int]));
            assert(actions_view(r@) =~= actions_view(before).push(type_char_action::<K, M>(ks[j as int])));
            assert(ks.take(j + 1).map_values(|c: char| type_char_action::<K, M>(c)) =~= ks.take(
                j as int,
            ).map_values(|c: char| type_char_action::<K, M>(c)).push(type_char_action::<K, M>(ks[j as int])));
        }
        j = j + 1;
    }
    proof {
        assert(ks.take(j as int) =~= ks);
        assert(ks == kb@.keys);
    }
    let ghost p2 = actions_view(r@);
    if let Some(modifiers) = &kb.modifier {
        let n = modifiers.len();
        let mut i: usize = n;
        while i > 0
            invariant
                mods == modifiers@,
                n == mods.len(),
                i <= n,
                actions_view(r@) == p2 + mods.reverse().take((n - i) as int).map_values(
                    |k: K| ActionView::<K, M>::KeyRelease(k),
                ),
            decreases i,
        {
            let ghost before = r@;
            r.push(GamepadAction::KeyRelease(modifiers[i - 1]));
            proof {
                let rv = mods.reverse();
                assert(rv[(n - i) as int] == mods[i - 1]);
                assert(rv.take((n - i + 1) as int) =~= rv.take((n - i) as int).push(rv[(n - i) as int]));
                assert(actions_view(r@) =~= actions_view(before).push(ActionView::KeyRelease(mods[i - 1])));
                assert(rv.take((n - i + 1) as int).map_values(|k: K| ActionView::<K, M>::KeyRelease(k))
                    =~= rv.take((n - i) as int).map_values(|k: K| ActionView::<K, M>::KeyRelease(k)).push(
                    ActionView::KeyRelease(rv[(n - i) as int]),
                ));
            }
            i = i - 1;
        }
        proof {
            assert(mods.reverse().take(n as int) =~= mods.reverse());
        }
    } else {
        assert(actions_view(r@) =~= p2 + mods.reverse().map_values(|k: K| ActionView::<K, M>::KeyRelease(k)));
    }
    r
}

/// The actions of a binding when its button is pressed or released.
pub fn exec_lunara_gampad_key<K: Copy, M: Copy>(
    press: bool,
    key: &LunaraConfigGamapedKeyEntry<K, M>,
    lunara_focused: bool,
) -> (r: Vec<GamepadAction<K, M>>)
    ensures
        actions_view(r@) == spec_key_actions(press, key@, lunara_focused),
{
    let mut r: Vec<GamepadAction<K, M>> = Vec::new();
    if press {
        assert(actions_view(r@) =~= Seq::<ActionView<K, M>>::empty());
        return r;
    }
    if key.home {
        if lunara_focused {
            r.push(GamepadAction::FocusLastApp);
        } else {
            r.push(GamepadAction::FocusLunara);
        }
        assert(actions_view(r@) =~= seq![spec_home_action::<K, M>(lunara_focused)]);
        return r;
    }
    if let Some(cmd) = &key.cmd {
        r.push(GamepadAction::RunCommand(CommandSpec::with_opt_args(cmd, &key.args)));
    }
    let ghost p1 = actions_view(r@);
    if let Some(kb) = &key.keyboard {
        let mut more = exec_keyboard_binding(kb);
        r.append(&mut more);
    }
    let ghost p2 = actions_view(r@);
    if let Some(m) = key.mouse {
        r.push(GamepadAction::MouseClick(m));
    }
    proof {
        let e = key@;
        let cmd_part = match e.cmd {
            Some(c) => seq![
                ActionView::<K, M>::RunCommand(
                    CommandView { program: c, args: match e.args { Some(a) => a, None => Seq::empty() } },
                ),
            ],
            None => Seq::empty(),
        };
        let kb_part = match e.keyboard {
            Some(kb) => spec_keyboard_actions::<K, M>(kb),
            None => Seq::empty(),
        };
        let mouse_part = match e.mouse {
            Some(m) => seq![ActionView::<K, M>::MouseClick(m)],
            None => Seq::empty(),
        };
        assert(p1 =~= cmd_part);
        assert(p2 =~= cmd_part + kb_part);
        assert(actions_view(r@) =~= cmd_part + kb_part + mouse_part);
    }
    r
}


/// The label the interface shows for an action button.
pub open spec fn spec_button_label(b: GamepadButton) -> Option<Seq<char>> {
    match b {
        GamepadButton::North => Some("Y"@),
        GamepadButton::South => Some("A"@),
        GamepadButton::East => Some("B"@),
        GamepadButton::West => Some("X"@),
        GamepadButton::C => Some("C"@),
        GamepadButton::Z => Some("Z"@),
        _ => None,
    }
}

/// The label of an action button.
pub fn button_label(b: GamepadButton) -> (r: Option<&'static str>)
    ensures
        match r {
            Some(l) => spec_button_label(b) == Some(l@),
            None => spec_button_label(b) is None,
        },
{
    match b {
        GamepadButton::North => Some("Y"),
        GamepadButton::South => Some("A"),
        GamepadButton::East => Some("B"),
        GamepadButton::West => Some("X"),
        GamepadButton::C => Some("C"),
        GamepadButton::Z => Some("Z"),
        _ => None,
    }
}

/// The direction of a D-pad button.
pub open spec fn spec_dpad_dir(b: GamepadButton) -> Option<Direction> {
    match b {
        GamepadButton::DPadUp => Some(Direction::Up),
        GamepadButton::DPadDown => Some(Direction::Down),
        GamepadButton::DPadLeft => Some(Direction::Left),
        GamepadButton::DPadRight => Some(Direction::Right),
        _ => None,
    }
}

/// An analog stick axis (the axes `gilrs` reports that the handler follows).
#[derive(Debug, Clone, Copy, PartialEq, Eq, Structural)]
pub enum StickAxis {
    LeftStickX,
    LeftStickY,
    RightStickX,
    RightStickY,
    /// Any other axis; ignored.
    Other,
}

/// The state of the gamepad handler.
pub struct GamepadView<K, M> {
    pub config: ConfigView<K, M>,
    pub current_focus: Seq<char>,
    pub focus_keymap: Option<KeymapView<K, M>>,
    pub stick_left: StickState,
    pub stick_right: StickState,
    pub dpad_dir: Direction,
    pub dpad_next_time: u128,
}

/// Turns gamepad events into actions: bindings of the focused desktop first, then
/// global bindings, then the launcher's own navigation while it has the focus.
pub struct GamepadManager<K, M> {
    config: LunaraConfig<K, M>,
    current_focus: String,
    current_focus_keymap: Option<LunaraConfigGamepadKeymapEntry<K, M>>,
    stick_left: StickState,
    stick_right: StickState,
    dpad_dir: Direction,
    dpad_next_time: u128,
}

impl<K, M> View for GamepadManager<K, M> {
    type V = GamepadView<K, M>;

    closed spec fn view(&self) -> GamepadView<K, M> {
        GamepadView {
            config: self.config@,
            current_focus: self.current_focus@,
            focus_keymap: opt_keymap_view(self.current_focus_keymap),
            stick_left: self.stick_left,
            stick_right: self.stick_right,
            dpad_dir: self.dpad_dir,
            dpad_next_time: self.dpad_next_time,
        }
    }
}

/// The binding of `btn` in the keymap of the focused desktop, if any.
pub open spec fn focus_binding<K, M>(s: GamepadView<K, M>, btn: GamepadButton) -> Option<KeyEntryView<K, M>> {
    match s.focus_keymap {
        Some(km) => binding_of(km.keys, btn),
        None => None,
    }
}

/// Handling the event needs the age of the event (a D-pad press seen by the launcher).
pub open spec fn spec_needs_age<K, M>(s: GamepadView<K, M>, press: bool, btn: GamepadButton, lunara_focused: bool) -> bool {
    focus_binding(s, btn) is None && lunara_focused && spec_is_dpad(btn) && press
}

/// A D-pad event: pressing a direction holds it and reports it at once; a later press of
/// the held direction reports it again when its `age` has reached the schedule (250 ms
/// past the first report's age, then 200 ms past each repeat's age). The schedule
/// compares event ages, not wall-clock times. Releasing the held direction clears it.
/// `age` is how long ago the event happened, in milliseconds.
pub open spec fn spec_dpad_event<K, M>(s: GamepadView<K, M>, age: u128, btn: GamepadButton, press: bool) -> (GamepadView<K, M>, Seq<ActionView<K, M>>) {
    match spec_dpad_dir(btn) {
        None => (s, Seq::empty()),
        Some(dir) => if !press {
            if s.dpad_dir == dir {
                (GamepadView { dpad_dir: Direction::Neutral, dpad_next_time: 0, ..s }, Seq::empty())
            } else {
                (s, Seq::empty())
            }
        } else {
            let s1 = if s.dpad_dir != dir {
                GamepadView { dpad_dir: dir, dpad_next_time: 0, ..s }
            } else {
                s
            };
            if s1.dpad_dir == Direction::Neutral {
                (s1, Seq::empty())
            } else if s1.dpad_next_time == 0 {
                (GamepadView { dpad_next_time: (age + INIT_DELAY_MS) as u128, ..s1 }, seq![ActionView::EmitDirection(s1.dpad_dir)])
            } else if age >= s1.dpad_next_time {
                (GamepadView { dpad_next_time: (age + REPEAT_DELAY_MS) as u128, ..s1 }, seq![ActionView::EmitDirection(s1.dpad_dir)])
            } else {
                (s1, Seq::empty())
            }
        },
    }
}

/// A button pressed (`press`) or released: the focused desktop's binding alone if it
/// has one; else the global binding, followed, while the launcher has the focus, by
/// D-pad navigation, the action-button event (on release), or the launcher's binding.
pub open spec fn spec_button<K, M>(
    s: GamepadView<K, M>,
    press: bool,
    btn: GamepadButton,
    lunara_focused: bool,
    age: Option<u128>,
) -> (GamepadView<K, M>, Seq<ActionView<K, M>>) {
    match focus_binding(s, btn) {
        Some(e) => (s, spec_key_actions(press, e, lunara_focused)),
        None => {
            let global = match binding_of(s.config.global_keymap.keys, btn) {
                Some(e) => spec_key_actions(press, e, lunara_focused),
                None => Seq::empty(),
            };
            if !lunara_focused {
                (s, global)
            } else if spec_is_dpad(btn) {
                let (s2, d) = spec_dpad_event(s, match age { Some(a) => a, None => 0 }, btn, press);
                (s2, global + d)
            } else if spec_is_action(btn) && press {
                (s, global)
            } else if spec_is_action(btn) && spec_button_label(btn) is Some {
                (s, global.push(ActionView::EmitButton(spec_button_label(btn)->0)))
            } else {
                (s, global + match binding_of(s.config.lunara_keymap.keys, btn) {
                    Some(e) => spec_key_actions(press, e, lunara_focused),
                    None => Seq::empty(),
                })
            }
        },
    }
}

/// What a stick does in a mode: whether the mode handles the stick, and the actions.
pub open spec fn spec_stick_mode<K, M>(st: StickState, dir: Direction, mode: LunaraConfigStickMode) -> (bool, Seq<ActionView<K, M>>) {
    match mode {
        LunaraConfigStickMode::Mouse => (true, seq![ActionView::MoveMouse(st.x, st.y)]),
        LunaraConfigStickMode::Arrow => (true, if dir == Direction::Neutral {
            Seq::empty()
        } else {
            seq![ActionView::ArrowKey(dir)]
        }),
        LunaraConfigStickMode::Scroll => (true, seq![ActionView::Scroll(st.x, st.y)]),
        LunaraConfigStickMode::Off => (false, Seq::empty()),
    }
}

/// A poll of both sticks at time `t`: while the launcher has the focus the left stick
/// navigates; otherwise each stick acts in the mode of the focused desktop's keymap,
/// or, where that mode is off or there is no such keymap, in the global mode.
pub open spec fn spec_axis_update_all<K, M>(s: GamepadView<K, M>, t: u128, lunara_focused: bool) -> (GamepadView<K, M>, Seq<ActionView<K, M>>) {
    let (r_st, rd) = spec_stick_update(s.stick_right, t);
    let (l_st, ld) = spec_stick_update(s.stick_left, t);
    let s1 = GamepadView { stick_right: r_st, stick_left: l_st, ..s };
    if lunara_focused {
        (s1, if l_st.dir != Direction::Neutral {
            seq![ActionView::EmitDirection(ld)]
        } else {
            Seq::empty()
        })
    } else {
        (s1, spec_sticks_elsewhere(
            stick_modes(s.focus_keymap),
            s.config.global_keymap.right_stick_mode,
            s.config.global_keymap.left_stick_mode,
            r_st,
            rd,
            l_st,
            ld,
        ))
    }
}

/// What a stick does in a mode: whether the mode handles it, and the actions.
pub fn stick_process_mode<K, M>(stick: &StickState, dir: Direction, mode: LunaraConfigStickMode) -> (r: (bool, Vec<GamepadAction<K, M>>))
    ensures
        (r.0, actions_view(r.1@)) == spec_stick_mode::<K, M>(*stick, dir, mode),
{
    let mut v: Vec<GamepadAction<K, M>> = Vec::new();
    if mode == LunaraConfigStickMode::Mouse {
        v.push(GamepadAction::MoveMouse(stick.x, stick.y));
        assert(actions_view(v@) =~= seq![ActionView::<K, M>::MoveMouse(stick.x, stick.y)]);
        return (true, v);
    }
    if mode == LunaraConfigStickMode::Arrow {
        if dir != Direction::Neutral {
            v.push(GamepadAction::ArrowKey(dir));
            assert(actions_view(v@) =~= seq![ActionView::<K, M>::ArrowKey(dir)]);
        } else {
            assert(actions_view(v@) =~= Seq::<ActionView<K, M>>::empty());
        }
        return (true, v);
    }
    if mode == LunaraConfigStickMode::Scroll {
        v.push(GamepadAction::Scroll(stick.x, stick.y));
        assert(actions_view(v@) =~= seq![ActionView::<K, M>::Scroll(stick.x, stick.y)]);
        return (true, v);
    }
    assert(actions_view(v@) =~= Seq::<ActionView<K, M>>::empty());
    (false, v)
}

/// The stick actions while the launcher does not have the focus: each stick in the mode
/// of the focused desktop's keymap (`focus_modes`: right, left), or in the global mode
/// where that one does not handle it.
pub open spec fn spec_sticks_elsewhere<K, M>(
    focus_modes: Option<(LunaraConfigStickMode, LunaraConfigStickMode)>,
    global_right: LunaraConfigStickMode,
    global_left: LunaraConfigStickMode,
    r_st: StickState,
    rd: Direction,
    l_st: StickState,
    ld: Direction,
) -> Seq<ActionView<K, M>> {
    let (skip_r, a1) = match focus_modes {
        Some(m) => spec_stick_mode(r_st, rd, m.0),
        None => (false, Seq::empty()),
    };
    let (skip_l, a2) = match focus_modes {
        Some(m) => spec_stick_mode(l_st, ld, m.1),
        None => (false, Seq::empty()),
    };
    let a3 = if !skip_r {
        spec_stick_mode(r_st, rd, global_right).1
    } else {
        Seq::empty()
    };
    let a4 = if !skip_l {
        spec_stick_mode(l_st, ld, global_left).1
    } else {
        Seq::empty()
    };
    a1 + a2 + a3 + a4
}

/// The contents of an optional keymap.
pub open spec fn opt_keymap_view<K, M>(o: Option<LunaraConfigGamepadKeymapEntry<K, M>>) -> Option<KeymapView<K, M>> {
    match o {
        Some(k) => Some(k@),
        None => None,
    }
}

/// The stick modes (right, left) of an optional keymap.
pub open spec fn stick_modes<K, M>(o: Option<KeymapView<K, M>>) -> Option<(LunaraConfigStickMode, LunaraConfigStickMode)> {
    match o {
        Some(k) => Some((k.right_stick_mode, k.left_stick_mode)),
        None => None,
    }
}

/// The stick actions while the launcher does not have the focus.
pub fn sticks_elsewhere<K, M>(
    focus_modes: Option<(LunaraConfigStickMode, LunaraConfigStickMode)>,
    global_right: LunaraConfigStickMode,
    global_left: LunaraConfigStickMode,
    right: &StickState,
    right_dir: Direction,
    left: &StickState,
    left_dir: Direction,
) -> (r: Vec<GamepadAction<K, M>>)
    ensures
        actions_view(r@) == spec_sticks_elsewhere::<K, M>(
            focus_modes,
            global_right,
            global_left,
            *right,
            right_dir,
            *left,
            left_dir,
        ),
{
    let mut out: Vec<GamepadAction<K, M>> = Vec::new();
    let mut skip_right = false;
    let mut skip_left = false;
    if let Some(m) = focus_modes {
        let (sr, mut a1) = stick_process_mode(right, right_dir, m.0);
        let (sl, mut a2) = stick_process_mode(left, left_dir, m.1);
        skip_right = sr;
        skip_left = sl;
        out.append(&mut a1);
        out.append(&mut a2);
    }
    let ghost p12 = actions_view(out@);
    if !skip_right {
        let (_, mut a3) = stick_process_mode(right, right_dir, global_right);
        out.append(&mut a3);
    }
    let ghost p123 = actions_view(out@);
    if !skip_left {
        let (_, mut a4) = stick_process_mode(left, left_dir, global_left);
        out.append(&mut a4);
    }
    proof {
        let (skip_r, a1) = match focus_modes {
            Some(m) => spec_stick_mode::<K, M>(*right, right_dir, m.0),
            None => (false, Seq::empty()),
        };
        let (skip_l, a2) = match focus_modes {
            Some(m) => spec_stick_mode::<K, M>(*left, left_dir, m.1),
            None => (false, Seq::empty()),
        };
        assert(p12 =~= a1 + a2);
        let a3 = if !skip_r { spec_stick_mode::<K, M>(*right, right_dir, global_right).1 } else { Seq::empty() };
        assert(p123 =~= a1 + a2 + a3);
    }
    out
}

impl<K: Copy, M: Copy> GamepadManager<K, M> {
    /// A handler for the configuration: nothing focused, sticks centred, D-pad released.
    pub fn new(config: LunaraConfig<K, M>) -> (r: Self)
        ensures
            r@.config == config@,
            r@.current_focus == Seq::<char>::empty(),
            r@.focus_keymap is None,
            r@.stick_left == (StickState { x: 0, y: 0, dir: Direction::Neutral, next_time: 0 }),
            r@.stick_right == (StickState { x: 0, y: 0, dir: Direction::Neutral, next_time: 0 }),
            r@.dpad_dir == Direction::Neutral,
            r@.dpad_next_time == 0,
    {
        GamepadManager {
            config,
            current_focus: String::new(),
            current_focus_keymap: None,
            stick_left: StickState::default(),
            stick_right: StickState::default(),
            dpad_dir: Direction::Neutral,
            dpad_next_time: 0,
        }
    }

    /// Takes the name of the focused desktop (`None` when it could not be found out,
    /// which leaves everything as it was) and selects that desktop's keymap.
    pub fn refresh_current_focused(&mut self, focused: Option<String>)
        ensures
            focused is None ==> final(self)@ == old(self)@,
            focused matches Some(v) ==> final(self)@ == (GamepadView {
                current_focus: v@,
                focus_keymap: keymap_of(old(self)@.config.desktop_keymap, v@),
                ..old(self)@
            }),
    {
        if let Some(v) = focused {
            let km = match self.config.desktop_keymap_for(v.as_str()) {
                Some(k) => Some(k.duplicate()),
                None => None,
            };
            self.current_focus_keymap = km;
            self.current_focus = v;
        }
    }

    /// What the home binding does (see `spec_home_action`).
    pub fn home_button_pressed(&self, lunara_focused: bool) -> (r: GamepadAction<K, M>)
        ensures
            r@ == spec_home_action::<K, M>(lunara_focused),
    {
        if lunara_focused {
            GamepadAction::FocusLastApp
        } else {
            GamepadAction::FocusLunara
        }
    }

    /// Whether handling this button event needs the age of the event.
    pub fn needs_event_age(&self, press: bool, btn: GamepadButton, lunara_focused: bool) -> (r: bool)
        ensures
            r == spec_needs_age(self@, press, btn, lunara_focused),
    {
        let bound = match &self.current_focus_keymap {
            Some(km) => km.binding(btn).is_some(),
            None => false,
        };
        !bound && lunara_focused && btn.is_dpad() && press
    }

    /// A D-pad event seen by the launcher; `age` is how long ago it happened (ms).
    fn dpad_event(&mut self, age: u128, btn: GamepadButton, press: bool) -> (r: Vec<GamepadAction<K, M>>)
        requires
            press ==> age <= u128::MAX - INIT_DELAY_MS,
        ensures
            (final(self)@, actions_view(r@)) == spec_dpad_event(old(self)@, age, btn, press),
    {
        let mut v: Vec<GamepadAction<K, M>> = Vec::new();
        let dir = match btn {
            GamepadButton::DPadUp => Direction::Up,
            GamepadButton::DPadDown => Direction::Down,
            GamepadButton::DPadLeft => Direction::Left,
            GamepadButton::DPadRight => Direction::Right,
            _ => {
                assert(actions_view(v@) =~= Seq::<ActionView<K, M>>::empty());
                return v;
            },
        };
        if press {
            if self.dpad_dir != dir {
                self.dpad_dir = dir;
                self.dpad_next_time = 0;
            }
        } else {
            if self.dpad_dir == dir {
                self.dpad_dir = Direction::Neutral;
                self.dpad_next_time = 0;
            }
            assert(actions_view(v@) =~= Seq::<ActionView<K, M>>::empty());
            return v;
        }
        if self.dpad_dir != Direction::Neutral {
            if self.dpad_next_time == 0 {
                self.dpad_next_time = age + INIT_DELAY_MS;
                v.push(GamepadAction::EmitDirection(self.dpad_dir));
            } else if age >= self.dpad_next_time {
                self.dpad_next_time = age + REPEAT_DELAY_MS;
                v.push(GamepadAction::EmitDirection(self.dpad_dir));
            }
        }
        assert(actions_view(v@) =~= spec_dpad_event(old(self)@, age, btn, press).1);
        v
    }

    /// A button pressed (`press`) or released, with whether the launcher has the focus and,
    /// where `needs_event_age` says so, how long ago the event happened (ms).
    pub fn button_pressed_releassed(
        &mut self,
        press: bool,
        btn: GamepadButton,
        lunara_focused: bool,
        age: Option<u128>,
    ) -> (r: Vec<GamepadAction<K, M>>)
        requires
            spec_needs_age(old(self)@, press, btn, lunara_focused) ==> (age matches Some(a) && a <= u128::MAX - INIT_DELAY_MS),
        ensures
            (final(self)@, actions_view(r@)) == spec_button(old(self)@, press, btn, lunara_focused, age),
    {
        // the focused desktop's bindings
        if let Some(km) = &self.current_focus_keymap {
            if let Some(k) = km.binding(btn) {
                return exec_lunara_gampad_key(press, k, lunara_focused);
            }
        }
        // global bindings
        let mut out: Vec<GamepadAction<K, M>> = match self.config.global_keymap.binding(btn) {
            Some(k) => exec_lunara_gampad_key(press, k, lunara_focused),
            None => Vec::new(),
        };
        let ghost global = actions_view(out@);
        assert(global =~= match binding_of(old(self)@.config.global_keymap.keys, btn) {
            Some(e) => spec_key_actions(press, e, lunara_focused),
            None => Seq::<ActionView<K, M>>::empty(),
        });
        // the launcher's own navigation
        if lunara_focused {
            if btn.is_dpad() {
                let a = match age {
                    Some(a) => a,
                    None => 0,
                };
                let mut more = self.dpad_event(a, btn, press);
                out.append(&mut more);
                return out;
            }
            if btn.is_action() {
                if press {
                    return out;
                }
                if let Some(label) = button_label(btn) {
                    out.push(GamepadAction::EmitButton(String::from_str(label)));
                    assert(actions_view(out@) =~= global.push(ActionView::EmitButton(spec_button_label(btn)->0)));
                    return out;
                }
            }
            if let Some(k) = self.config.lunara_keymap.binding(btn) {
                let mut more = exec_lunara_gampad_key(press, k, lunara_focused);
                out.append(&mut more);
            } else {
                assert(actions_view(out@) =~= global + Seq::<ActionView<K, M>>::empty());
            }
            return out;
        }
        out
    }

    /// A new position of a stick axis (`f32` bits); other axes are ignored.
    pub fn axis_change(&mut self, axis: StickAxis, value: u32)
        ensures
            final(self)@ == match axis {
                StickAxis::LeftStickX => GamepadView { stick_left: StickState { x: value, ..old(self)@.stick_left }, ..old(self)@ },
                StickAxis::LeftStickY => GamepadView { stick_left: StickState { y: value, ..old(self)@.stick_left }, ..old(self)@ },
                StickAxis::RightStickX => GamepadView { stick_right: StickState { x: value, ..old(self)@.stick_right }, ..old(self)@ },
                StickAxis::RightStickY => GamepadView { stick_right: StickState { y: value, ..old(self)@.stick_right }, ..old(self)@ },
                StickAxis::Other => old(self)@,
            },
    {
        if axis == StickAxis::LeftStickX {
            self.stick_left.x = value
        } else if axis == StickAxis::LeftStickY {
            self.stick_left.y = value
        } else if axis == StickAxis::RightStickX {
            self.stick_right.x = value
        } else if axis == StickAxis::RightStickY {
            self.stick_right.y = value
        }
    }

    /// Polls both sticks at time `t` (milliseconds since the Unix epoch).
    pub fn axis_update_all(&mut self, t: u128, lunara_focused: bool) -> (r: Vec<GamepadAction<K, M>>)
        requires
            t <= u128::MAX - INIT_DELAY_MS,
        ensures
            (final(self)@, actions_view(r@)) == spec_axis_update_all(old(self)@, t, lunara_focused),
    {
        let right_dir = self.stick_right.stick_update(t);
        let left_dir = self.stick_left.stick_update(t);
        let mut out: Vec<GamepadAction<K, M>> = Vec::new();
        if lunara_focused {
            if self.stick_left.dir != Direction::Neutral {
                out.push(GamepadAction::EmitDirection(left_dir));
                assert(actions_view(out@) =~= seq![ActionView::<K, M>::EmitDirection(left_dir)]);
            } else {
                assert(actions_view(out@) =~= Seq::<ActionView<K, M>>::empty());
            }
            return out;
        }
        let right = self.stick_right;
        let left = self.stick_left;
        let focus_modes = match &self.current_focus_keymap {
            Some(km) => Some((km.right_stick_mode, km.left_stick_mode)),
            None => None,
        };
        sticks_elsewhere(
            focus_modes,
            self.config.global_keymap.right_stick_mode,
            self.config.global_keymap.left_stick_mode,
            &right,
            right_dir,
            &left,
            left_dir,
        )
    }
}

/// Counts the polls of the gamepad loop to refresh the focused desktop about once a
/// second (every 60 polls of 16 ms).
pub struct RefreshCounter {
    counter: u32,
}

impl RefreshCounter {
    /// Polls since the last refresh.
    pub closed spec fn count(&self) -> u32 {
        self.counter
    }

    /// No poll yet.
    pub fn new() -> (r: RefreshCounter)
        ensures
            r.count() == 0,
    {
        RefreshCounter { counter: 0 }
    }

    /// Counts a poll; tells whether the focused desktop is due for a refresh (every
    /// 60th poll), and then starts counting again.
    pub fn tick(&mut self) -> (due: bool)
        requires
            old(self).count() < 60,
        ensures
            due == (old(self).count() + 1 >= 60),
            final(self).count() == if due { 0 } else { (old(self).count() + 1) as u32 },
            final(self).count() < 60,
            (due, final(self).count() as nat) == refresh_tick(old(self).count() as nat),
    {
        self.counter = self.counter + 1;
        if self.counter >= 60 {
            self.counter = 0;
            true
        } else {
            false
        }
    }
}


/// One poll of the refresh counter from count `c`: whether a refresh is due, and the
/// new count.
pub open spec fn refresh_tick(c: nat) -> (bool, nat) {
    if c + 1 >= 60 {
        (true, 0)
    } else {
        (false, c + 1)
    }
}

/// The count of a fresh counter after `k` polls.
pub open spec fn refresh_count_after(k: nat) -> nat
    decreases k,
{
    if k == 0 {
        0
    } else {
        refresh_tick(refresh_count_after((k - 1) as nat)).1
    }
}

/// The number of refreshes that the first `k` polls of a fresh counter make due.
pub open spec fn refreshes_in(k: nat) -> nat
    decreases k,
{
    if k == 0 {
        0
    } else {
        refreshes_in((k - 1) as nat) + if refresh_tick(refresh_count_after((k - 1) as nat)).0 { 1nat } else { 0nat }
    }
}

/// The focused desktop is refreshed on every 60th poll of the gamepad loop and on no
/// other: after `k` polls of a fresh counter its count is `k % 60`, the `k`-th poll is
/// due exactly when `k` is a multiple of 60, and `k` polls make `k / 60` refreshes.
pub proof fn law_refresh_every_sixtieth_poll(k: nat)
    ensures
        refresh_count_after(k) == k % 60,
        k > 0 ==> (refresh_tick(refresh_count_after((k - 1) as nat)).0 <==> k % 60 == 0),
        refreshes_in(k) == k / 60,
    decreases k,
{
    if k > 0 {
        law_refresh_every_sixtieth_poll((k - 1) as nat);
        assert(((k - 1) as nat) % 60 + 1 >= 60 <==> k % 60 == 0);
        assert(refreshes_in(k) == k / 60);
    }
}

/// A centred stick reports nothing and clears its repeat schedule.
pub proof fn law_centred_stick_is_silent(s: StickState, t: u128)
    requires
        spec_dominant_dir(s.x, s.y, DEADZONE_BITS) == Direction::Neutral,
    ensures
        spec_stick_update(s, t).1 == Direction::Neutral,
        spec_stick_update(s, t).0.next_time == 0,
{
}

/// A stick pushed to a new direction reports it at once, and next repeats it 250 ms later.
pub proof fn law_new_direction_reported_at_once(s: StickState, t: u128)
    requires
        t <= u128::MAX - INIT_DELAY_MS,
        spec_dominant_dir(s.x, s.y, DEADZONE_BITS) != Direction::Neutral,
        spec_dominant_dir(s.x, s.y, DEADZONE_BITS) != s.dir,
    ensures
        spec_stick_update(s, t).1 == spec_dominant_dir(s.x, s.y, DEADZONE_BITS),
        spec_stick_update(s, t).0.next_time == t + INIT_DELAY_MS,
{
}

/// A held direction repeats no sooner than 200 ms after it was last reported: after an
/// update at `t` that reported a direction, an update of the same stick before `t + 200`
/// reports nothing.
pub proof fn law_held_direction_repeat_spacing(s: StickState, t: u128, t2: u128)
    requires
        t <= u128::MAX - INIT_DELAY_MS,
        spec_stick_update(s, t).1 != Direction::Neutral,
        t2 < t + REPEAT_DELAY_MS,
    ensures
        spec_stick_update(spec_stick_update(s, t).0, t2).1 == Direction::Neutral,
{
}

/// A held direction is reported again once its repeat time has come.
pub proof fn law_held_direction_repeats(s: StickState, t: u128, t2: u128)
    requires
        t <= u128::MAX - INIT_DELAY_MS,
        spec_stick_update(s, t).1 != Direction::Neutral,
        t2 >= spec_stick_update(s, t).0.next_time,
    ensures
        spec_stick_update(spec_stick_update(s, t).0, t2).1 == spec_stick_update(s, t).1,
{
}

/// A binding of the focused desktop takes precedence: only it acts, and the handler's
/// state does not change.
pub proof fn law_focused_binding_first<K, M>(
    s: GamepadView<K, M>,
    press: bool,
    btn: GamepadButton,
    lunara_focused: bool,
    age: Option<u128>,
)
    requires
        focus_binding(s, btn) is Some,
    ensures
        spec_button(s, press, btn, lunara_focused, age) == (s, spec_key_actions(press, focus_binding(s, btn)->0, lunara_focused)),
{
}

/// Pressing a button never triggers a binding (bindings act on release), and outside the
/// launcher a press changes nothing.
pub proof fn law_bindings_act_on_release<K, M>(
    s: GamepadView<K, M>,
    btn: GamepadButton,
    age: Option<u128>,
)
    ensures
        spec_button(s, true, btn, false, age) == (s, Seq::<ActionView<K, M>>::empty()),
{
}

/// Releasing the held D-pad direction stops it.
pub proof fn law_dpad_release_stops<K, M>(s: GamepadView<K, M>, age: u128, btn: GamepadButton)
    requires
        spec_dpad_dir(btn) == Some(s.dpad_dir),
    ensures
        spec_dpad_event(s, age, btn, false).0.dpad_dir == Direction::Neutral,
        spec_dpad_event(s, age, btn, false).1.len() == 0,
{
}

/// Pressing a D-pad direction that is not held reports it at once.
pub proof fn law_dpad_press_reported_at_once<K, M>(s: GamepadView<K, M>, age: u128, btn: GamepadButton)
    requires
        spec_dpad_dir(btn) is Some,
        spec_dpad_dir(btn) != Some(s.dpad_dir),
        age <= u128::MAX - INIT_DELAY_MS,
    ensures
        spec_dpad_event(s, age, btn, true).1 == seq![ActionView::<K, M>::EmitDirection(spec_dpad_dir(btn)->0)],
        spec_dpad_event(s, age, btn, true).0.dpad_next_time == age + INIT_DELAY_MS,
{
}

/// A key chord releases exactly the modifiers it pressed, in the reverse order.
pub proof fn law_chord_releases_what_it_presses<K, M>(kb: KeyboardView<K>)
    requires
        kb.modifier is Some,
    ensures
        ({
            let m = kb.modifier->0;
            let acts = spec_keyboard_actions::<K, M>(kb);
            &&& acts.len() == 2 * m.len() + kb.keys.len()
            &&& forall|i: int| 0 <= i < m.len() ==> #[trigger] acts[i] == ActionView::<K, M>::KeyPress(m[i])
                && acts[acts.len() - 1 - i] == ActionView::<K, M>::KeyRelease(m[i])
        }),
{
    let m = kb.modifier->0;
    let acts = spec_keyboard_actions::<K, M>(kb);
    let presses = m.map_values(|k: K| ActionView::<K, M>::KeyPress(k));
    let chars = kb.keys.map_values(|c: char| type_char_action::<K, M>(c));
    let releases = m.reverse().map_values(|k: K| ActionView::<K, M>::KeyRelease(k));
    assert(acts == presses + chars + releases);
    assert forall|i: int| 0 <= i < m.len() implies #[trigger] acts[i] == ActionView::<K, M>::KeyPress(m[i])
        && acts[acts.len() - 1 - i] == ActionView::<K, M>::KeyRelease(m[i]) by {
        assert(acts[i] == presses[i]);
        let j = acts.len() - 1 - i;
        assert(j - presses.len() - chars.len() == m.len() - 1 - i);
        assert(acts[j] == releases[m.len() - 1 - i]);
        assert(m.reverse()[m.len() - 1 - i] == m[i]);
    }
}

/// A binding never acts when its button is pressed, whether or not the launcher has the
/// focus: for every binding the press yields no action.
pub proof fn law_binding_press_does_nothing<K, M>(e: KeyEntryView<K, M>, lunara_focused: bool)
    ensures
        spec_key_actions::<K, M>(true, e, lunara_focused) == Seq::<ActionView<K, M>>::empty(),
{
}

/// Pressing any button other than a D-pad direction yields no action and changes
/// nothing, whether or not the launcher has the focus: bindings (of the focused desktop,
/// global or the launcher's) and action-button labels all act on release.
pub proof fn law_press_acts_only_for_dpad<K, M>(
    s: GamepadView<K, M>,
    btn: GamepadButton,
    lunara_focused: bool,
    age: Option<u128>,
)
    requires
        !spec_is_dpad(btn),
    ensures
        spec_button(s, true, btn, lunara_focused, age) == (s, Seq::<ActionView<K, M>>::empty()),
{
}

/// A release of a button with a binding gives that binding's actions, and a binding with
/// a command runs exactly that command first.
pub proof fn law_release_runs_binding_command<K, M>(e: KeyEntryView<K, M>, lunara_focused: bool)
    requires
        !e.home,
        e.cmd is Some,
    ensures
        spec_key_actions::<K, M>(false, e, lunara_focused).len() >= 1,
        spec_key_actions::<K, M>(false, e, lunara_focused)[0] == ActionView::<K, M>::RunCommand(CommandView {
            program: e.cmd->0,
            args: match e.args { Some(a) => a, None => Seq::empty() },
        }),
{
}

/// In arrow mode a stick that reports a direction clicks the arrow key of that same
/// direction, once; a stick that reports none clicks nothing.
pub proof fn law_arrow_mode_clicks_same_direction<K, M>(st: StickState, dir: Direction)
    ensures
        dir == Direction::Up ==> spec_stick_mode::<K, M>(st, dir, LunaraConfigStickMode::Arrow)
            == (true, seq![ActionView::<K, M>::ArrowKey(Direction::Up)]),
        dir == Direction::Down ==> spec_stick_mode::<K, M>(st, dir, LunaraConfigStickMode::Arrow)
            == (true, seq![ActionView::<K, M>::ArrowKey(Direction::Down)]),
        dir == Direction::Left ==> spec_stick_mode::<K, M>(st, dir, LunaraConfigStickMode::Arrow)
            == (true, seq![ActionView::<K, M>::ArrowKey(Direction::Left)]),
        dir == Direction::Right ==> spec_stick_mode::<K, M>(st, dir, LunaraConfigStickMode::Arrow)
            == (true, seq![ActionView::<K, M>::ArrowKey(Direction::Right)]),
        dir == Direction::Neutral ==> spec_stick_mode::<K, M>(st, dir, LunaraConfigStickMode::Arrow)
            == (true, Seq::<ActionView<K, M>>::empty()),
{
}

/// Outside the launcher, with no keymap for the focused desktop, a left stick in arrow
/// mode (right stick off) clicks the arrow key of the direction the left stick reports
/// in this poll, and nothing else.
pub proof fn law_left_stick_arrows_outside_launcher<K, M>(s: GamepadView<K, M>, t: u128)
    requires
        s.focus_keymap is None,
        s.config.global_keymap.left_stick_mode == LunaraConfigStickMode::Arrow,
        s.config.global_keymap.right_stick_mode == LunaraConfigStickMode::Off,
    ensures
        ({
            let d = spec_stick_update(s.stick_left, t).1;
            spec_axis_update_all(s, t, false).1 == if d == Direction::Neutral {
                Seq::<ActionView<K, M>>::empty()
            } else {
                seq![ActionView::<K, M>::ArrowKey(d)]
            }
        }),
{
    let d = spec_stick_update(s.stick_left, t).1;
    assert(spec_axis_update_all(s, t, false).1 =~= if d == Direction::Neutral {
        Seq::<ActionView<K, M>>::empty()
    } else {
        seq![ActionView::<K, M>::ArrowKey(d)]
    });
}

/// Releasing an action button while the launcher has the focus (and the focused desktop
/// does not bind it) reports the button's fixed label last: North `Y`, South `A`,
/// East `B`, West `X`, `C` and `Z`.
pub proof fn law_action_button_labels<K, M>(s: GamepadView<K, M>, btn: GamepadButton, age: Option<u128>)
    requires
        spec_is_action(btn),
        focus_binding(s, btn) is None,
    ensures
        ({
            let acts = spec_button(s, false, btn, true, age).1;
            &&& acts.len() >= 1
            &&& btn == GamepadButton::North ==> acts.last() == ActionView::<K, M>::EmitButton("Y"@)
            &&& btn == GamepadButton::South ==> acts.last() == ActionView::<K, M>::EmitButton("A"@)
            &&& btn == GamepadButton::East ==> acts.last() == ActionView::<K, M>::EmitButton("B"@)
            &&& btn == GamepadButton::West ==> acts.last() == ActionView::<K, M>::EmitButton("X"@)
            &&& btn == GamepadButton::C ==> acts.last() == ActionView::<K, M>::EmitButton("C"@)
            &&& btn == GamepadButton::Z ==> acts.last() == ActionView::<K, M>::EmitButton("Z"@)
        }),
{
}

/// Pressing a D-pad button that is not held, in the launcher (with no binding of the
/// focused desktop for it), reports exactly its own direction: up, down, left or right.
pub proof fn law_dpad_reports_own_direction<K, M>(s: GamepadView<K, M>, btn: GamepadButton, age: u128)
    requires
        spec_is_dpad(btn),
        focus_binding(s, btn) is None,
        age <= u128::MAX - INIT_DELAY_MS,
    ensures
        ({
            let acts = spec_button(s, true, btn, true, Some(age)).1;
            &&& (btn == GamepadButton::DPadUp && s.dpad_dir != Direction::Up)
                ==> acts == seq![ActionView::<K, M>::EmitDirection(Direction::Up)]
            &&& (btn == GamepadButton::DPadDown && s.dpad_dir != Direction::Down)
                ==> acts == seq![ActionView::<K, M>::EmitDirection(Direction::Down)]
            &&& (btn == GamepadButton::DPadLeft && s.dpad_dir != Direction::Left)
                ==> acts == seq![ActionView::<K, M>::EmitDirection(Direction::Left)]
            &&& (btn == GamepadButton::DPadRight && s.dpad_dir != Direction::Right)
                ==> acts == seq![ActionView::<K, M>::EmitDirection(Direction::Right)]
        }),
{
    let global = match binding_of(s.config.global_keymap.keys, btn) {
        Some(e) => spec_key_actions::<K, M>(true, e, true),
        None => Seq::<ActionView<K, M>>::empty(),
    };
    assert(global =~= Seq::<ActionView<K, M>>::empty());
    let d = spec_dpad_event(s, age, btn, true).1;
    assert(global + d =~= d);
}

/// The direction of a stick follows the sign of its larger deflection: inside the dead
/// zone on both axes it points nowhere; else, when the horizontal deflection is the
/// larger, a positive `x` points right and a negative one left; otherwise a positive
/// `y` points down and a negative or zero one up. (Values given as `f32` bits; no NaN;
/// a positive dead zone.)
pub proof fn law_direction_follows_sign(x: u32, y: u32, deadzone: u32)
    requires
        !f32_nan(x),
        !f32_nan(y),
        !f32_nan(deadzone),
        !f32_sign(deadzone),
    ensures
        (f32_mag(x) < f32_mag(deadzone) && f32_mag(y) < f32_mag(deadzone))
            ==> spec_dominant_dir(x, y, deadzone) == Direction::Neutral,
        (f32_mag(x) >= f32_mag(deadzone) || f32_mag(y) >= f32_mag(deadzone)) && f32_mag(y) < f32_mag(x) ==> {
            &&& !f32_sign(x) ==> spec_dominant_dir(x, y, deadzone) == Direction::Right
            &&& f32_sign(x) ==> spec_dominant_dir(x, y, deadzone) == Direction::Left
        },
        (f32_mag(x) >= f32_mag(deadzone) || f32_mag(y) >= f32_mag(deadzone)) && f32_mag(x) <= f32_mag(y) ==> {
            &&& (!f32_sign(y) && f32_mag(y) > 0) ==> spec_dominant_dir(x, y, deadzone) == Direction::Down
            &&& (f32_sign(y) || f32_mag(y) == 0) ==> spec_dominant_dir(x, y, deadzone) == Direction::Up
        },
{
}

/// Releasing a home binding toggles the focus: back to the last application when the
/// launcher has the focus, to the launcher otherwise; nothing else happens.
pub proof fn law_home_binding_toggles<K, M>(e: KeyEntryView<K, M>)
    requires
        e.home,
    ensures
        spec_key_actions::<K, M>(false, e, true) == seq![ActionView::<K, M>::FocusLastApp],
        spec_key_actions::<K, M>(false, e, false) == seq![ActionView::<K, M>::FocusLunara],
{
}

} // verus!
