use crate::menu_button::{ButtonView, MenuButton, Rgb};
use vstd::prelude::*;
use vstd::string::StringExecFns;

verus! {

/// Command of a button whose slot has no configured command.
pub const DEFAULT_COMMAND: &'static str = "echo";

/// Icon name of a button whose slot has no configured icon.
pub const DEFAULT_ICON_NAME: &'static str = "poweroff";

/// Directory of the icons, relative to the home directory.
pub const ICON_DIR: &'static str = "/.config/rpower/icons/";

/// File extension of an icon.
pub const ICON_EXTENSION: &'static str = ".svg";

/// Grey level of the icon colour of a button whose slot has no configured
/// icon colour.
pub const DEFAULT_ICON_LEVEL: u8 = 85;

/// Grey level of the background of a button whose slot has no configured
/// normal colour.
pub const DEFAULT_NORMAL_LEVEL: u8 = 33;

/// Grey level of the highlight of a button whose slot has no configured
/// hover colour.
pub const DEFAULT_HOVER_LEVEL: u8 = 60;

/// The grey whose three components are `level`.
pub open spec fn grey(level: u8) -> Rgb {
    Rgb(level, level, level)
}

/// The grey whose three components are `level`.
pub fn make_grey(level: u8) -> (r: Rgb)
    ensures
        r == grey(level),
{
    Rgb(level, level, level)
}

/// The menu's configuration: window geometry and background, and five
/// independent lists, one per button field, indexed by button slot.
/// The lists need not have the same length.
#[derive(Debug, Default)]
pub struct RPowerConfig {
    pub width: u32,
    pub height: u32,
    pub background: Rgb,
    pub commands: Vec<String>,
    pub icon_names: Vec<String>,
    pub icon_colors: Vec<Rgb>,
    pub normal_colors: Vec<Rgb>,
    pub hover_colors: Vec<Rgb>,
}

/// The entry at index `i` of `s`, or `default` where `s` has none.
pub open spec fn entry_or<T>(s: Seq<T>, i: int, default: T) -> T {
    if 0 <= i < s.len() {
        s[i]
    } else {
        default
    }
}

/// The larger of two naturals.
pub open spec fn max_nat(a: nat, b: nat) -> nat {
    if a >= b {
        a
    } else {
        b
    }
}

/// The path of the icon named `name` under the home directory `home`.
pub open spec fn icon_path_of(home: Seq<char>, name: Seq<char>) -> Seq<char> {
    home + ICON_DIR@ + name + ICON_EXTENSION@
}

impl RPowerConfig {
    /// The number of buttons: the length of the longest of the five lists.
    pub open spec fn num_buttons(&self) -> nat {
        max_nat(
            self.commands.len() as nat,
            max_nat(
                self.icon_names.len() as nat,
                max_nat(
                    self.icon_colors.len() as nat,
                    max_nat(self.normal_colors.len() as nat, self.hover_colors.len() as nat),
                ),
            ),
        )
    }

    /// The button of slot `i`: each field from its own list where the list
    /// reaches slot `i`, and from that field's default otherwise.
    pub open spec fn button_at(&self, home: Seq<char>, i: int) -> ButtonView {
        ButtonView {
            selected: false,
            command: entry_or(self.commands@.map_values(|s: String| s@), i, DEFAULT_COMMAND@),
            icon_path: icon_path_of(
                home,
                entry_or(self.icon_names@.map_values(|s: String| s@), i, DEFAULT_ICON_NAME@),
            ),
            icon_color: entry_or(self.icon_colors@, i, grey(DEFAULT_ICON_LEVEL)),
            normal_color: entry_or(self.normal_colors@, i, grey(DEFAULT_NORMAL_LEVEL)),
            hover_color: entry_or(self.hover_colors@, i, grey(DEFAULT_HOVER_LEVEL)),
        }
    }

    /// All buttons that the configuration describes, in slot order.
    pub open spec fn buttons(&self, home: Seq<char>) -> Seq<ButtonView> {
        Seq::new(self.num_buttons(), |i: int| self.button_at(home, i))
    }

    /// The number of buttons: the length of the longest of the five lists.
    pub fn button_count(&self) -> (n: usize)
        ensures
            n == self.num_buttons(),
    {
        let mut n: usize = self.commands.len();
        if self.icon_names.len() > n {
            n = self.icon_names.len();
        }
        if self.icon_colors.len() > n {
            n = self.icon_colors.len();
        }
        if self.normal_colors.len() > n {
            n = self.normal_colors.len();
        }
        if self.hover_colors.len() > n {
            n = self.hover_colors.len();
        }
        n
    }

    /// Builds the buttons of the menu; `home_dir` is the directory the icon
    /// paths are resolved under. Never fails: a list that ends early leaves
    /// the later buttons with that field's default.
    pub fn assemble(&self, home_dir: &str) -> (r: Vec<MenuButton>)
        ensures
            r@.len() == self.num_buttons(),
            forall|i: int| 0 <= i < r@.len() ==> #[trigger] r@[i]@ == self.button_at(home_dir@, i),
            r@.map_values(|b: MenuButton| b@) == self.buttons(home_dir@),
    {
        let n = self.button_count();
        let mut buttons: Vec<MenuButton> = Vec::new();
        let mut i: usize = 0;
        while i < n
            invariant
                n == self.num_buttons(),
                i <= n,
                buttons@.len() == i,
                forall|j: int| 0 <= j < i ==> #[trigger] buttons@[j]@ == self.button_at(home_dir@, j),
            decreases n - i,
        {
            let command = if i < self.commands.len() {
                self.commands[i].clone()
            } else {
                String::from_str(DEFAULT_COMMAND)
            };
            let mut icon_path = String::from_str(home_dir);
            icon_path.append(ICON_DIR);
            if i < self.icon_names.len() {
                icon_path.append(self.icon_names[i].as_str());
            } else {
                icon_path.append(DEFAULT_ICON_NAME);
            }
            icon_path.append(ICON_EXTENSION);
            let icon_color = if i < self.icon_colors.len() {
                self.icon_colors[i]
            } else {
                make_grey(DEFAULT_ICON_LEVEL)
            };
            let normal_color = if i < self.normal_colors.len() {
                self.normal_colors[i]
            } else {
                make_grey(DEFAULT_NORMAL_LEVEL)
            };
            let hover_color = if i < self.hover_colors.len() {
                self.hover_colors[i]
            } else {
                make_grey(DEFAULT_HOVER_LEVEL)
            };
            let button = MenuButton::new(command, icon_path, icon_color, normal_color, hover_color);
            buttons.push(button);
            i = i + 1;
        }
        assert(buttons@.map_values(|b: MenuButton| b@) =~= self.buttons(home_dir@));
        buttons
    }
}

/// A key, as far as the menu tells keys apart.
#[derive(Debug, Clone, Copy, PartialEq, Eq, Structural)]
pub enum KeyCode {
    Escape,
    Enter,
    Left,
    Right,
    A,
    D,
    H,
    L,
    Other,
}

/// An input event delivered by the windowing layer.
#[derive(Debug, Clone, Copy, PartialEq, Eq, Structural)]
pub enum Event {
    KeyPressed(KeyCode),
    MouseEntered,
    MouseLeft,
    Other,
}

/// A message handled by the menu.
#[derive(Debug)]
pub enum RPowerMessage {
    /// A button was activated with the pointer; it carries the button's command.
    MenuButtonPressed(String),
    EventOccured(Event),
}

/// Which input source governs navigation.
#[derive(Debug, Clone, Copy, PartialEq, Eq, Structural)]
pub enum InputMode {
    Keyboard,
    Mouse,
}

/// What the caller is to do after a message was handled.
#[derive(Debug)]
pub enum Outcome {
    /// Keep the window open and wait for the next message.
    NoOp,
    /// Run the command through a shell, then close the window.
    TerminateWithCommand(String),
    /// Close the window without running anything.
    TerminateWithoutCommand,
}

/// The mathematical value of an `Outcome`.
pub enum OutcomeView {
    NoOp,
    TerminateWithCommand(Seq<char>),
    TerminateWithoutCommand,
}

impl View for Outcome {
    type V = OutcomeView;

    open spec fn view(&self) -> OutcomeView {
        match self {
            Outcome::NoOp => OutcomeView::NoOp,
            Outcome::TerminateWithCommand(c) => OutcomeView::TerminateWithCommand(c@),
            Outcome::TerminateWithoutCommand => OutcomeView::TerminateWithoutCommand,
        }
    }
}

/// The menu: its buttons, the selection cursor and the input mode.
#[derive(Debug)]
pub struct RPower {
    config: RPowerConfig,
    selected_button_index: Option<usize>,
    buttons: Vec<MenuButton>,
    input_mode: InputMode,
}

/// The mathematical value of an `RPower`: everything but the configuration.
pub struct RPowerView {
    pub buttons: Seq<ButtonView>,
    pub selected_index: Option<int>,
    pub input_mode: InputMode,
}

impl View for RPower {
    type V = RPowerView;

    closed spec fn view(&self) -> RPowerView {
        RPowerView {
            buttons: self.buttons@.map_values(|b: MenuButton| b@),
            selected_index: match self.selected_button_index {
                Some(i) => Some(i as int),
                None => None,
            },
            input_mode: self.input_mode,
        }
    }
}

/// Whether `k` moves the selection to the previous button.
pub open spec fn is_previous_key(k: KeyCode) -> bool {
    k == KeyCode::Left || k == KeyCode::A || k == KeyCode::H
}

/// Whether `k` moves the selection to the next button.
pub open spec fn is_next_key(k: KeyCode) -> bool {
    k == KeyCode::Right || k == KeyCode::D || k == KeyCode::L
}

/// The index that move-previous lands on among `n > 0` buttons: from no
/// selection or from the first button, the last one.
pub open spec fn previous_index(sel: Option<int>, n: int) -> int {
    match sel {
        Some(i) => if i > 0 {
            i - 1
        } else {
            n - 1
        },
        None => n - 1,
    }
}

/// The index that move-next lands on among `n > 0` buttons: from no
/// selection or from the last button, the first one.
pub open spec fn next_index(sel: Option<int>, n: int) -> int {
    match sel {
        Some(i) => if i < n - 1 {
            i + 1
        } else {
            0
        },
        None => 0,
    }
}

/// The number of highlighted buttons in `s`.
pub open spec fn selected_count(s: Seq<ButtonView>) -> nat
    decreases s.len(),
{
    if s.len() == 0 {
        0
    } else {
        selected_count(s.drop_last()) + if s.last().selected {
            1nat
        } else {
            0nat
        }
    }
}

impl RPowerView {
    /// The selection cursor is in range, exactly the button under it is
    /// highlighted, and nothing is selected while the mouse is in control.
    pub open spec fn wf(self) -> bool {
        &&& match self.selected_index {
            Some(i) => 0 <= i < self.buttons.len(),
            None => true,
        }
        &&& forall|j: int|
            0 <= j < self.buttons.len() ==> (#[trigger] self.buttons[j]).selected == (
            self.selected_index == Some(j))
        &&& (self.input_mode == InputMode::Mouse ==> self.selected_index is None)
    }

    /// The same state with the cursor at `sel` and the highlight flags
    /// following it.
    pub open spec fn select(self, sel: Option<int>) -> RPowerView {
        RPowerView {
            buttons: Seq::new(
                self.buttons.len(),
                |j: int| self.buttons[j].with_selected(sel == Some(j)),
            ),
            selected_index: sel,
            input_mode: self.input_mode,
        }
    }

    /// The state after handling `m`.
    pub open spec fn after(self, m: RPowerMessage) -> RPowerView {
        match m {
            RPowerMessage::MenuButtonPressed(_) => self,
            RPowerMessage::EventOccured(e) => match e {
                Event::KeyPressed(k) => {
                    if self.input_mode == InputMode::Keyboard && self.buttons.len() > 0 {
                        if is_previous_key(k) {
                            self.select(
                                Some(previous_index(self.selected_index, self.buttons.len() as int)),
                            )
                        } else if is_next_key(k) {
                            self.select(
                                Some(next_index(self.selected_index, self.buttons.len() as int)),
                            )
                        } else {
                            self
                        }
                    } else {
                        self
                    }
                },
                Event::MouseEntered => RPowerView { input_mode: InputMode::Mouse, ..self.select(None) },
                Event::MouseLeft => RPowerView { input_mode: InputMode::Keyboard, ..self },
                Event::Other => self,
            },
        }
    }

    /// What the caller is told to do after `m`.
    pub open spec fn outcome(self, m: RPowerMessage) -> OutcomeView {
        match m {
            RPowerMessage::MenuButtonPressed(c) => OutcomeView::TerminateWithCommand(c@),
            RPowerMessage::EventOccured(Event::KeyPressed(KeyCode::Escape)) => {
                OutcomeView::TerminateWithoutCommand
            },
            RPowerMessage::EventOccured(Event::KeyPressed(KeyCode::Enter)) => {
                match self.selected_index {
                    Some(i) => if self.input_mode == InputMode::Keyboard {
                        OutcomeView::TerminateWithCommand(self.buttons[i].command)
                    } else {
                        OutcomeView::NoOp
                    },
                    None => OutcomeView::NoOp,
                }
            },
            _ => OutcomeView::NoOp,
        }
    }
}

impl RPower {
    /// The invariant of the menu.
    pub open spec fn wf(&self) -> bool {
        self@.wf()
    }

    /// The configuration the menu was built from.
    pub closed spec fn spec_config(&self) -> &RPowerConfig {
        &self.config
    }

    /// A menu with the buttons that `config` describes, icons resolved under
    /// `home_dir`: nothing selected, the keyboard in control.
    pub fn new(config: RPowerConfig, home_dir: &str) -> (r: RPower)
        ensures
            r.wf(),
            r@.buttons == config.buttons(home_dir@),
            r@.selected_index is None,
            r@.input_mode == InputMode::Keyboard,
            r.spec_config() == config,
    {
        let buttons = config.assemble(home_dir);
        RPower { config, selected_button_index: None, buttons, input_mode: InputMode::Keyboard }
    }

    /// The buttons, in display order.
    pub fn buttons(&self) -> (r: &Vec<MenuButton>)
        ensures
            r@.map_values(|b: MenuButton| b@) == self@.buttons,
    {
        &self.buttons
    }

    /// The selection cursor: the index of the highlighted button, if any.
    pub fn selected_button_index(&self) -> (r: Option<usize>)
        ensures
            match r {
                Some(i) => self@.selected_index == Some(i as int),
                None => self@.selected_index is None,
            },
    {
        self.selected_button_index
    }

    /// Which input source governs navigation.
    pub fn input_mode(&self) -> (r: InputMode)
        ensures
            r == self@.input_mode,
    {
        self.input_mode
    }

    /// The configuration the menu was built from.
    pub fn config(&self) -> (r: &RPowerConfig)
        ensures
            r == self.spec_config(),
    {
        &self.config
    }

    /// Moves the cursor to `sel` and makes the highlight flags follow it.
    fn set_selection(&mut self, sel: Option<usize>)
        requires
            match sel {
                Some(i) => i < old(self).buttons@.len(),
                None => true,
            },
        ensures
            final(self)@ == old(self)@.select(
                match sel {
                    Some(i) => Some(i as int),
                    None => None,
                },
            ),
            final(self).spec_config() == old(self).spec_config(),
    {
        let ghost sel_int: Option<int> = match sel {
            Some(i) => Some(i as int),
            None => None,
        };
        let ghost target = old(self)@.select(sel_int);
        self.selected_button_index = sel;
        let n = self.buttons.len();
        let mut j: usize = 0;
        while j < n
            invariant
                n == self.buttons@.len(),
                n == old(self).buttons@.len(),
                j <= n,
                self.config == old(self).config,
                self.input_mode == old(self).input_mode,
                self.selected_button_index == sel,
                target == old(self)@.select(sel_int),
                sel_int == match sel {
                    Some(i) => Some(i as int),
                    None => None::<int>,
                },
                forall|k: int|
                    0 <= k < j ==> (#[trigger] self.buttons@[k])@ == target.buttons[k],
                forall|k: int|
                    j <= k < n ==> (#[trigger] self.buttons@[k]) == old(self).buttons@[k],
            decreases n - j,
        {
            let is_sel = match sel {
                Some(i) => i == j,
                None => false,
            };
            self.buttons[j].selected = is_sel;
            j = j + 1;
        }
        assert(self@.buttons =~= target.buttons);
    }

    /// Handles one message: moves the selection or switches the input mode,
    /// and says whether to keep the window open, to run a command and
    /// close, or to close without running anything.
    pub fn update(&mut self, message: RPowerMessage) -> (r: Outcome)
        requires
            old(self).wf(),
        ensures
            final(self).wf(),
            final(self)@ == old(self)@.after(message),
            r@ == old(self)@.outcome(message),
            final(self).spec_config() == old(self).spec_config(),
    {
        match message {
            RPowerMessage::MenuButtonPressed(command) => Outcome::TerminateWithCommand(command),
            RPowerMessage::EventOccured(e) => match e {
                Event::KeyPressed(key_code) => match key_code {
                    KeyCode::Escape => Outcome::TerminateWithoutCommand,
                    KeyCode::Enter => {
                        if self.input_mode == InputMode::Keyboard {
                            match self.selected_button_index {
                                Some(i) => Outcome::TerminateWithCommand(
                                    self.buttons[i].command.clone(),
                                ),
                                None => Outcome::NoOp,
                            }
                        } else {
                            Outcome::NoOp
                        }
                    },
                    KeyCode::Left | KeyCode::A | KeyCode::H => {
                        let n = self.buttons.len();
                        if self.input_mode == InputMode::Keyboard && n > 0 {
                            let k = match self.selected_button_index {
                                Some(i) => if i > 0 {
                                    i - 1
                                } else {
                                    n - 1
                                },
                                None => n - 1,
                            };
                            self.set_selection(Some(k));
                        }
                        Outcome::NoOp
                    },
                    KeyCode::Right | KeyCode::D | KeyCode::L => {
                        let n = self.buttons.len();
                        if self.input_mode == InputMode::Keyboard && n > 0 {
                            let k = match self.selected_button_index {
                                Some(i) => if i < n - 1 {
                                    i + 1
                                } else {
                                    0
                                },
                                None => 0,
                            };
                            self.set_selection(Some(k));
                        }
                        Outcome::NoOp
                    },
                    KeyCode::Other => Outcome::NoOp,
                },
                Event::MouseEntered => {
                    self.set_selection(None);
                    self.input_mode = InputMode::Mouse;
                    Outcome::NoOp
                },
                Event::MouseLeft => {
                    self.input_mode = InputMode::Keyboard;
                    Outcome::NoOp
                },
                Event::Other => Outcome::NoOp,
            },
        }
    }
}

/// In a sequence where exactly the button at `sel`, if any, is highlighted,
/// the number of highlighted buttons is one if `sel` names a button, and zero
/// otherwise.
proof fn lemma_selected_count_follows(s: Seq<ButtonView>, sel: Option<int>)
    requires
        forall|j: int| 0 <= j < s.len() ==> (#[trigger] s[j]).selected == (sel == Some(j)),
    ensures
        selected_count(s) == (match sel {
            Some(i) => if 0 <= i < s.len() {
                1nat
            } else {
                0nat
            },
            None => 0nat,
        }),
    decreases s.len(),
{
    if s.len() > 0 {
        let t = s.drop_last();
        assert forall|j: int| 0 <= j < t.len() implies (#[trigger] t[j]).selected == (sel == Some(
            j,
        )) by {
            assert(t[j] == s[j]);
        }
        lemma_selected_count_follows(t, sel);
    }
}

/// At most one button is highlighted, and one is exactly when the cursor
/// is on a button.
pub proof fn lemma_at_most_one_selected(s: RPowerView)
    requires
        s.wf(),
    ensures
        selected_count(s.buttons) <= 1,
        (selected_count(s.buttons) == 1) == (s.selected_index is Some),
{
    lemma_selected_count_follows(s.buttons, s.selected_index);
}

/// The pointer entering the window clears the selection and every highlight
/// flag, whatever the state was, and hands control to the mouse.
pub proof fn lemma_mouse_entered_clears_selection(s: RPowerView)
    ensures
        ({
            let t = s.after(RPowerMessage::EventOccured(Event::MouseEntered));
            &&& t.selected_index is None
            &&& t.input_mode == InputMode::Mouse
            &&& t.buttons.len() == s.buttons.len()
            &&& forall|j: int| 0 <= j < t.buttons.len() ==> !(#[trigger] t.buttons[j]).selected
            &&& selected_count(t.buttons) == 0
        }),
{
    let t = s.after(RPowerMessage::EventOccured(Event::MouseEntered));
    lemma_selected_count_follows(t.buttons, None);
}

/// Enter does nothing while the mouse is in control, whatever the cursor
/// and the highlight flags hold.
pub proof fn lemma_enter_ignored_under_mouse(s: RPowerView)
    requires
        s.input_mode == InputMode::Mouse,
    ensures
        s.after(RPowerMessage::EventOccured(Event::KeyPressed(KeyCode::Enter))) == s,
        s.outcome(RPowerMessage::EventOccured(Event::KeyPressed(KeyCode::Enter)))
            == OutcomeView::NoOp,
{
}

} // verus!
