use vstd::prelude::*;
use vstd::string::*;
use crate::models::{opt_view, opt_strings_view, copy_opt_string, copy_opt_strings};
use crate::text::{trim, trim_str, char_len};

verus! {

broadcast use vstd::string::group_string_axioms;

/// A gamepad button (the buttons `gilrs` reports).
#[derive(Debug, Clone, Copy, PartialEq, Eq, Structural)]
pub enum GamepadButton {
    South,
    East,
    North,
    West,
    C,
    Z,
    LeftTrigger,
    LeftTrigger2,
    RightTrigger,
    RightTrigger2,
    Select,
    Start,
    Mode,
    LeftThumb,
    RightThumb,
    DPadUp,
    DPadDown,
    DPadLeft,
    DPadRight,
    Unknown,
}

/// One of the four face buttons or the `C`/`Z` buttons (`Button::is_action` of `gilrs`).
pub open spec fn spec_is_action(b: GamepadButton) -> bool {
    b is South || b is East || b is North || b is West || b is C || b is Z
}

/// One of the four D-pad buttons (`Button::is_dpad` of `gilrs`).
pub open spec fn spec_is_dpad(b: GamepadButton) -> bool {
    b is DPadUp || b is DPadDown || b is DPadLeft || b is DPadRight
}

impl GamepadButton {
    /// Whether this is an action button.
    pub fn is_action(self) -> (r: bool)
        ensures
            r == spec_is_action(self),
    {
        match self {
            GamepadButton::South | GamepadButton::East | GamepadButton::North | GamepadButton::West
            | GamepadButton::C | GamepadButton::Z => true,
            _ => false,
        }
    }

    /// Whether this is a D-pad button.
    pub fn is_dpad(self) -> (r: bool)
        ensures
            r == spec_is_dpad(self),
    {
        match self {
            GamepadButton::DPadUp | GamepadButton::DPadDown | GamepadButton::DPadLeft
            | GamepadButton::DPadRight => true,
            _ => false,
        }
    }
}

/// What a stick does while the launcher does not have the focus.
#[derive(Debug, Clone, Copy, PartialEq, Eq, Structural)]
pub enum LunaraConfigStickMode {
    /// Moves the mouse pointer.
    Mouse,
    /// Presses arrow keys.
    Arrow,
    /// Scrolls.
    Scroll,
    /// Does nothing (`none` in configuration files).
    Off,
}

impl Default for LunaraConfigStickMode {
    fn default() -> (r: LunaraConfigStickMode)
        ensures
            r == LunaraConfigStickMode::Off,
    {
        LunaraConfigStickMode::Off
    }
}

/// A key chord bound to a gamepad button: the modifiers are held while the characters
/// are typed. `K` stands for a keyboard key of the input backend.
#[derive(Debug, Clone)]
pub struct LunaraConfigKeyboard<K> {
    pub modifier: Option<Vec<K>>,
    pub keys: Vec<char>,
}

/// The contents of a `LunaraConfigKeyboard`.
pub struct KeyboardView<K> {
    pub modifier: Option<Seq<K>>,
    pub keys: Seq<char>,
}

impl<K> View for LunaraConfigKeyboard<K> {
    type V = KeyboardView<K>;

    open spec fn view(&self) -> KeyboardView<K> {
        KeyboardView {
            modifier: match self.modifier {
                Some(m) => Some(m@),
                None => None,
            },
            keys: self.keys@,
        }
    }
}

/// What pressing a gamepad button does: go home, run a command, type a chord, click a
/// mouse button. `M` stands for a mouse button of the input backend.
#[derive(Debug, Clone)]
pub struct LunaraConfigGamapedKeyEntry<K, M> {
    pub home: bool,
    pub mouse: Option<M>,
    pub keyboard: Option<LunaraConfigKeyboard<K>>,
    pub cmd: Option<String>,
    pub args: Option<Vec<String>>,
}

/// The contents of a `LunaraConfigGamapedKeyEntry`.
pub struct KeyEntryView<K, M> {
    pub home: bool,
    pub mouse: Option<M>,
    pub keyboard: Option<KeyboardView<K>>,
    pub cmd: Option<Seq<char>>,
    pub args: Option<Seq<Seq<char>>>,
}

impl<K, M> View for LunaraConfigGamapedKeyEntry<K, M> {
    type V = KeyEntryView<K, M>;

    open spec fn view(&self) -> KeyEntryView<K, M> {
        KeyEntryView {
            home: self.home,
            mouse: self.mouse,
            keyboard: match self.keyboard {
                Some(k) => Some(k@),
                None => None,
            },
            cmd: opt_view(self.cmd),
            args: opt_strings_view(self.args),
        }
    }
}

/// The bindings of a keymap: stick modes and, per button, what it does.
#[derive(Debug, Clone)]
pub struct LunaraConfigGamepadKeymapEntry<K, M> {
    pub left_stick_mode: LunaraConfigStickMode,
    pub right_stick_mode: LunaraConfigStickMode,
    /// What each button does. A button is looked up by its first entry; a keymap read
    /// from a configuration file lists each button once (see `buttons_unique`).
    pub keys: Vec<(GamepadButton, LunaraConfigGamapedKeyEntry<K, M>)>,
}

/// The contents of a `LunaraConfigGamepadKeymapEntry`.
pub struct KeymapView<K, M> {
    pub left_stick_mode: LunaraConfigStickMode,
    pub right_stick_mode: LunaraConfigStickMode,
    pub keys: Seq<(GamepadButton, KeyEntryView<K, M>)>,
}

impl<K, M> View for LunaraConfigGamepadKeymapEntry<K, M> {
    type V = KeymapView<K, M>;

    open spec fn view(&self) -> KeymapView<K, M> {
        KeymapView {
            left_stick_mode: self.left_stick_mode,
            right_stick_mode: self.right_stick_mode,
            keys: self.keys@.map_values(
                |e: (GamepadButton, LunaraConfigGamapedKeyEntry<K, M>)| (e.0, e.1@),
            ),
        }
    }
}

/// The binding of `b` in a keymap: that of its first entry for `b`.
pub open spec fn binding_of<K, M>(keys: Seq<(GamepadButton, KeyEntryView<K, M>)>, b: GamepadButton) -> Option<KeyEntryView<K, M>>
    decreases keys.len(),
{
    if keys.len() == 0 {
        None
    } else if keys[0].0 == b {
        Some(keys[0].1)
    } else {
        binding_of(keys.drop_first(), b)
    }
}

/// No button occurs twice among a keymap's bindings, as in a map keyed by button.
pub open spec fn buttons_unique<K, M>(keys: Seq<(GamepadButton, KeyEntryView<K, M>)>) -> bool {
    forall|i: int, j: int| 0 <= i < j < keys.len() ==> keys[i].0 != keys[j].0
}

/// Where no button occurs twice, the bindings behave as a map: a listed button has the
/// entry listed for it, and a button that is not listed has none.
pub proof fn lemma_binding_of_unique<K, M>(keys: Seq<(GamepadButton, KeyEntryView<K, M>)>, b: GamepadButton)
    requires
        buttons_unique(keys),
    ensures
        forall|i: int| 0 <= i < keys.len() && keys[i].0 == b ==> binding_of(keys, b) == Some(#[trigger] keys[i].1),
        (forall|i: int| 0 <= i < keys.len() ==> #[trigger] keys[i].0 != b) ==> binding_of(keys, b) is None,
    decreases keys.len(),
{
    if keys.len() > 0 {
        let rest = keys.drop_first();
        assert forall|i: int, j: int| 0 <= i < j < rest.len() implies rest[i].0 != rest[j].0 by {
            assert(rest[i] == keys[i + 1] && rest[j] == keys[j + 1]);
        }
        lemma_binding_of_unique(rest, b);
        assert forall|i: int| 0 <= i < keys.len() && keys[i].0 == b implies binding_of(keys, b) == Some(#[trigger] keys[i].1) by {
            if i > 0 {
                assert(keys[0].0 != keys[i].0);
                assert(rest[i - 1] == keys[i]);
            }
        }
        if forall|i: int| 0 <= i < keys.len() ==> #[trigger] keys[i].0 != b {
            assert forall|i: int| 0 <= i < rest.len() implies #[trigger] rest[i].0 != b by {
                assert(rest[i] == keys[i + 1]);
            }
            assert(keys[0].0 != b);
        }
    }
}

/// No desktop name occurs twice among the per-desktop keymaps, as in a map keyed by name.
pub open spec fn names_unique<K, M>(m: Seq<(Seq<char>, KeymapView<K, M>)>) -> bool {
    forall|i: int, j: int| 0 <= i < j < m.len() ==> m[i].0 != m[j].0
}

/// Where no desktop name occurs twice, the per-desktop keymaps behave as a map: a listed
/// name has the keymap listed for it, and a name that is not listed has none.
pub proof fn lemma_keymap_of_unique<K, M>(m: Seq<(Seq<char>, KeymapView<K, M>)>, name: Seq<char>)
    requires
        names_unique(m),
    ensures
        forall|i: int| 0 <= i < m.len() && m[i].0 == name ==> keymap_of(m, name) == Some(#[trigger] m[i].1),
        (forall|i: int| 0 <= i < m.len() ==> #[trigger] m[i].0 != name) ==> keymap_of(m, name) is None,
    decreases m.len(),
{
    if m.len() > 0 {
        let rest = m.drop_first();
        assert forall|i: int, j: int| 0 <= i < j < rest.len() implies rest[i].0 != rest[j].0 by {
            assert(rest[i] == m[i + 1] && rest[j] == m[j + 1]);
        }
        lemma_keymap_of_unique(rest, name);
        assert forall|i: int| 0 <= i < m.len() && m[i].0 == name implies keymap_of(m, name) == Some(#[trigger] m[i].1) by {
            if i > 0 {
                assert(m[0].0 != m[i].0);
                assert(rest[i - 1] == m[i]);
            }
        }
        if forall|i: int| 0 <= i < m.len() ==> #[trigger] m[i].0 != name {
            assert forall|i: int| 0 <= i < rest.len() implies #[trigger] rest[i].0 != name by {
                assert(rest[i] == m[i + 1]);
            }
            assert(m[0].0 != name);
        }
    }
}

/// The launcher configuration.
#[derive(Debug, Clone)]
pub struct LunaraConfig<K, M> {
    pub window_manager: String,
    pub user_name: String,
    /// Bindings that apply everywhere.
    pub global_keymap: LunaraConfigGamepadKeymapEntry<K, M>,
    /// Bindings that apply while the launcher has the focus.
    pub lunara_keymap: LunaraConfigGamepadKeymapEntry<K, M>,
    /// Bindings per focused desktop name. A name is looked up by its first entry; a
    /// configuration read from a file lists each name once (see `names_unique`).
    pub desktop_keymap: Vec<(String, LunaraConfigGamepadKeymapEntry<K, M>)>,
}

/// The contents of a `LunaraConfig`.
pub struct ConfigView<K, M> {
    pub window_manager: Seq<char>,
    pub user_name: Seq<char>,
    pub global_keymap: KeymapView<K, M>,
    pub lunara_keymap: KeymapView<K, M>,
    pub desktop_keymap: Seq<(Seq<char>, KeymapView<K, M>)>,
}

impl<K, M> View for LunaraConfig<K, M> {
    type V = ConfigView<K, M>;

    open spec fn view(&self) -> ConfigView<K, M> {
        ConfigView {
            window_manager: self.window_manager@,
            user_name: self.user_name@,
            global_keymap: self.global_keymap@,
            lunara_keymap: self.lunara_keymap@,
            desktop_keymap: self.desktop_keymap@.map_values(
                |e: (String, LunaraConfigGamepadKeymapEntry<K, M>)| (e.0@, e.1@),
            ),
        }
    }
}

/// The keymap for a desktop name: that of its first entry.
pub open spec fn keymap_of<K, M>(m: Seq<(Seq<char>, KeymapView<K, M>)>, name: Seq<char>) -> Option<KeymapView<K, M>>
    decreases m.len(),
{
    if m.len() == 0 {
        None
    } else if m[0].0 == name {
        Some(m[0].1)
    } else {
        keymap_of(m.drop_first(), name)
    }
}

/// The window manager named by `XDG_CURRENT_DESKTOP` unless it is unset or blank,
/// else `bspwm`.
pub open spec fn spec_default_wm(current_desktop: Option<Seq<char>>) -> Seq<char> {
    match current_desktop {
        Some(d) => if trim(d).len() > 0 {
            d
        } else {
            "bspwm"@
        },
        None => "bspwm"@,
    }
}

/// A copy of a list of keys.
fn copy_keys<K: Copy>(v: &Vec<K>) -> (r: Vec<K>)
    ensures
        r@ == v@,
{
    let mut r: Vec<K> = Vec::new();
    let mut i: usize = 0;
    while i < v.len()
        invariant
            i <= v.len(),
            r@ == v@.take(i as int),
        decreases v.len() - i,
    {
        r.push(v[i]);
        proof {
            assert(v@.take(i + 1) =~= v@.take(i as int).push(v@[i as int]));
        }
        i = i + 1;
    }
    proof {
        assert(v@.take(i as int) =~= v@);
    }
    r
}

impl<K: Copy> LunaraConfigKeyboard<K> {
    /// A copy of `self`.
    pub fn duplicate(&self) -> (r: Self)
        ensures
            r@ == self@,
    {
        LunaraConfigKeyboard {
            modifier: match &self.modifier {
                Some(m) => Some(copy_keys(m)),
                None => None,
            },
            keys: copy_keys(&self.keys),
        }
    }
}

impl<K: Copy, M: Copy> LunaraConfigGamapedKeyEntry<K, M> {
    /// A copy of `self`.
    pub fn duplicate(&self) -> (r: Self)
        ensures
            r@ == self@,
    {
        LunaraConfigGamapedKeyEntry {
            home: self.home,
            mouse: self.mouse,
            keyboard: match &self.keyboard {
                Some(k) => Some(k.duplicate()),
                None => None,
            },
            cmd: copy_opt_string(&self.cmd),
            args: copy_opt_strings(&self.args),
        }
    }
}

impl<K, M> Default for LunaraConfigGamapedKeyEntry<K, M> {
    fn default() -> (r: Self)
        ensures
            r@ == (KeyEntryView::<K, M> { home: false, mouse: None, keyboard: None, cmd: None, args: None }),
    {
        LunaraConfigGamapedKeyEntry { home: false, mouse: None, keyboard: None, cmd: None, args: None }
    }
}

impl<K: Copy, M: Copy> LunaraConfigGamepadKeymapEntry<K, M> {
    /// A copy of `self`.
    pub fn duplicate(&self) -> (r: Self)
        ensures
            r@ == self@,
    {
        let mut keys: Vec<(GamepadButton, LunaraConfigGamapedKeyEntry<K, M>)> = Vec::new();
        let mut i: usize = 0;
        while i < self.keys.len()
            invariant
                i <= self.keys.len(),
                keys@.len() == i,
                forall|j: int| 0 <= j < i ==> #[trigger] keys@[j].0 == self.keys@[j].0 && keys@[j].1@ == self.keys@[j].1@,
            decreases self.keys.len() - i,
        {
            let e = &self.keys[i];
            let d = e.1.duplicate();
            keys.push((e.0, d));
            assert(keys@[i as int].0 == self.keys@[i as int].0 && keys@[i as int].1@ == self.keys@[i as int].1@);
            i = i + 1;
        }
        let r = LunaraConfigGamepadKeymapEntry {
            left_stick_mode: self.left_stick_mode,
            right_stick_mode: self.right_stick_mode,
            keys,
        };
        assert(r@.keys =~= self@.keys);
        r
    }

    /// The binding of button `b`.
    pub fn binding(&self, b: GamepadButton) -> (r: Option<&LunaraConfigGamapedKeyEntry<K, M>>)
        ensures
            match r {
                Some(e) => binding_of(self@.keys, b) == Some(e@),
                None => binding_of(self@.keys, b) is None,
            },
    {
        let ghost ks = self@.keys;
        assert(ks.skip(0) =~= ks);
        let mut i: usize = 0;
        while i < self.keys.len()
            invariant
                i <= self.keys.len(),
                ks == self@.keys,
                binding_of(ks, b) == binding_of(ks.skip(i as int), b),
            decreases self.keys.len() - i,
        {
            proof {
                assert(ks.skip(i as int).drop_first() =~= ks.skip(i + 1));
            }
            if self.keys[i].0 == b {
                return Some(&self.keys[i].1);
            }
            i = i + 1;
        }
        None
    }
}

impl<K, M> Default for LunaraConfigGamepadKeymapEntry<K, M> {
    fn default() -> (r: Self)
        ensures
            r@.left_stick_mode == LunaraConfigStickMode::Off,
            r@.right_stick_mode == LunaraConfigStickMode::Off,
            r@.keys == Seq::<(GamepadButton, KeyEntryView<K, M>)>::empty(),
    {
        let r = LunaraConfigGamepadKeymapEntry {
            left_stick_mode: LunaraConfigStickMode::Off,
            right_stick_mode: LunaraConfigStickMode::Off,
            keys: Vec::new(),
        };
        assert(r@.keys =~= Seq::<(GamepadButton, KeyEntryView<K, M>)>::empty());
        r
    }
}

impl<K: Copy, M: Copy> LunaraConfig<K, M> {
    /// The configuration used when there is no configuration file: the window manager
    /// from `XDG_CURRENT_DESKTOP` (its value, `None` when unset), user `Alice`, no bindings.
    pub fn default_with(current_desktop: Option<String>) -> (r: Self)
        ensures
            r@.window_manager == spec_default_wm(opt_view(current_desktop)),
            r@.user_name == "Alice"@,
            r@.global_keymap.keys.len() == 0,
            r@.global_keymap.left_stick_mode == LunaraConfigStickMode::Off,
            r@.global_keymap.right_stick_mode == LunaraConfigStickMode::Off,
            r@.lunara_keymap.keys.len() == 0,
            r@.lunara_keymap.left_stick_mode == LunaraConfigStickMode::Off,
            r@.lunara_keymap.right_stick_mode == LunaraConfigStickMode::Off,
            r@.desktop_keymap.len() == 0,
    {
        let wm = match current_desktop {
            Some(d) => {
                let t = trim_str(d.as_str());
                if char_len(t.as_str()) > 0 {
                    d
                } else {
                    String::from_str("bspwm")
                }
            },
            None => String::from_str("bspwm"),
        };
        LunaraConfig {
            window_manager: wm,
            user_name: String::from_str("Alice"),
            global_keymap: LunaraConfigGamepadKeymapEntry::default(),
            lunara_keymap: LunaraConfigGamepadKeymapEntry::default(),
            desktop_keymap: Vec::new(),
        }
    }

    /// The keymap for the desktop named `name`.
    pub fn desktop_keymap_for(&self, name: &str) -> (r: Option<&LunaraConfigGamepadKeymapEntry<K, M>>)
        ensures
            match r {
                Some(e) => keymap_of(self@.desktop_keymap, name@) == Some(e@),
                None => keymap_of(self@.desktop_keymap, name@) is None,
            },
    {
        let ghost ks = self@.desktop_keymap;
        assert(ks.skip(0) =~= ks);
        let mut i: usize = 0;
        while i < self.desktop_keymap.len()
            invariant
                i <= self.desktop_keymap.len(),
                ks == self@.desktop_keymap,
                keymap_of(ks, name@) == keymap_of(ks.skip(i as int), name@),
            decreases self.desktop_keymap.len() - i,
        {
            proof {
                assert(ks.skip(i as int).drop_first() =~= ks.skip(i + 1));
            }
            if crate::text::str_eq(self.desktop_keymap[i].0.as_str(), name) {
                return Some(&self.desktop_keymap[i].1);
            }
            i = i + 1;
        }
        None
    }
}

} // verus!
