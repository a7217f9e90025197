use rpower::menu_button::{MenuButton, Rgb};
use rpower::rpower::{
    Event, InputMode, KeyCode, Outcome, RPower, RPowerConfig, RPowerMessage, DEFAULT_COMMAND,
    DEFAULT_HOVER_LEVEL, DEFAULT_ICON_LEVEL, DEFAULT_NORMAL_LEVEL,
};

fn strings(items: &[&str]) -> Vec<String> {
    items.iter().map(|s| s.to_string()).collect()
}

fn config_with_commands(commands: &[&str]) -> RPowerConfig {
    RPowerConfig {
        width: 300,
        height: 100,
        commands: strings(commands),
        ..Default::default()
    }
}

fn key(k: KeyCode) -> RPowerMessage {
    RPowerMessage::EventOccured(Event::KeyPressed(k))
}

fn event(e: Event) -> RPowerMessage {
    RPowerMessage::EventOccured(e)
}

fn selected_flags(menu: &RPower) -> Vec<bool> {
    menu.buttons().iter().map(|b| b.selected).collect()
}

fn selected_count(menu: &RPower) -> usize {
    menu.buttons().iter().filter(|b| b.selected).count()
}

fn is_no_op(o: &Outcome) -> bool {
    matches!(o, Outcome::NoOp)
}

fn command_of(o: &Outcome) -> Option<String> {
    match o {
        Outcome::TerminateWithCommand(c) => Some(c.clone()),
        _ => None,
    }
}

fn three_buttons() -> RPower {
    RPower::new(config_with_commands(&["poweroff", "reboot", "suspend"]), "/home/u")
}

#[test]
fn assemble_length_is_longest_list() {
    let config = RPowerConfig {
        commands: strings(&["a"]),
        icon_names: strings(&["x", "y"]),
        icon_colors: vec![Rgb(1, 2, 3)],
        normal_colors: vec![Rgb(1, 1, 1), Rgb(2, 2, 2), Rgb(3, 3, 3), Rgb(4, 4, 4)],
        hover_colors: vec![],
        ..Default::default()
    };
    assert_eq!(config.button_count(), 4);
    assert_eq!(config.assemble("/h").len(), 4);
}

#[test]
fn assemble_empty_config_gives_no_buttons() {
    let config = RPowerConfig::default();
    assert_eq!(config.button_count(), 0);
    assert!(config.assemble("/h").is_empty());
}

#[test]
fn assemble_fills_each_field_independently() {
    let config = RPowerConfig {
        commands: strings(&["poweroff", "reboot"]),
        icon_names: strings(&["power"]),
        icon_colors: vec![],
        normal_colors: vec![Rgb(10, 20, 30)],
        hover_colors: vec![Rgb(1, 1, 1), Rgb(2, 2, 2), Rgb(3, 3, 3)],
        ..Default::default()
    };
    let b = config.assemble("/home/u");
    assert_eq!(b.len(), 3);
    assert_eq!(b[0].command, "poweroff");
    assert_eq!(b[1].command, "reboot");
    assert_eq!(b[2].command, "echo");
    assert_eq!(b[0].icon_path, "/home/u/.config/rpower/icons/power.svg");
    assert_eq!(b[1].icon_path, "/home/u/.config/rpower/icons/poweroff.svg");
    assert_eq!(b[2].icon_path, "/home/u/.config/rpower/icons/poweroff.svg");
    for button in &b {
        assert_eq!(button.icon_color, Rgb(85, 85, 85));
        assert!(!button.selected);
    }
    assert_eq!(b[0].normal_color, Rgb(10, 20, 30));
    assert_eq!(b[1].normal_color, Rgb(33, 33, 33));
    assert_eq!(b[2].normal_color, Rgb(33, 33, 33));
    assert_eq!(b[0].hover_color, Rgb(1, 1, 1));
    assert_eq!(b[1].hover_color, Rgb(2, 2, 2));
    assert_eq!(b[2].hover_color, Rgb(3, 3, 3));
}

#[test]
fn default_constants() {
    assert_eq!(DEFAULT_COMMAND, "echo");
    assert_eq!(DEFAULT_ICON_LEVEL, 85);
    assert_eq!(DEFAULT_NORMAL_LEVEL, 33);
    assert_eq!(DEFAULT_HOVER_LEVEL, 60);
}

#[test]
fn single_command_then_left_enter_runs_it() {
    let mut menu = RPower::new(config_with_commands(&["poweroff"]), "/home/u");
    assert_eq!(menu.buttons().len(), 1);
    let b = &menu.buttons()[0];
    assert_eq!(b.command, "poweroff");
    assert_eq!(b.icon_path, "/home/u/.config/rpower/icons/poweroff.svg");
    assert_eq!(b.icon_color, Rgb(85, 85, 85));
    assert_eq!(b.normal_color, Rgb(33, 33, 33));
    assert_eq!(b.hover_color, Rgb(60, 60, 60));
    assert!(is_no_op(&menu.update(key(KeyCode::Left))));
    assert_eq!(menu.selected_button_index(), Some(0));
    let out = menu.update(key(KeyCode::Enter));
    assert_eq!(command_of(&out), Some("poweroff".to_string()));
}

#[test]
fn initial_state() {
    let menu = three_buttons();
    assert_eq!(menu.selected_button_index(), None);
    assert_eq!(menu.input_mode(), InputMode::Keyboard);
    assert_eq!(selected_flags(&menu), vec![false, false, false]);
    assert_eq!(menu.config().width, 300);
}

#[test]
fn move_previous_from_none_lands_on_last() {
    let mut menu = three_buttons();
    menu.update(key(KeyCode::Left));
    assert_eq!(menu.selected_button_index(), Some(2));
    assert_eq!(selected_flags(&menu), vec![false, false, true]);
}

#[test]
fn move_previous_from_first_wraps_to_last() {
    let mut menu = three_buttons();
    menu.update(key(KeyCode::Right));
    assert_eq!(menu.selected_button_index(), Some(0));
    menu.update(key(KeyCode::H));
    assert_eq!(menu.selected_button_index(), Some(2));
    menu.update(key(KeyCode::A));
    assert_eq!(menu.selected_button_index(), Some(1));
    assert_eq!(selected_flags(&menu), vec![false, true, false]);
}

#[test]
fn move_next_from_last_wraps_to_first() {
    let mut menu = three_buttons();
    menu.update(key(KeyCode::Left));
    assert_eq!(menu.selected_button_index(), Some(2));
    menu.update(key(KeyCode::L));
    assert_eq!(menu.selected_button_index(), Some(0));
    menu.update(key(KeyCode::D));
    assert_eq!(menu.selected_button_index(), Some(1));
    assert_eq!(selected_flags(&menu), vec![false, true, false]);
}

#[test]
fn move_next_from_none_lands_on_first() {
    let mut menu = three_buttons();
    menu.update(key(KeyCode::Right));
    assert_eq!(menu.selected_button_index(), Some(0));
    assert_eq!(selected_flags(&menu), vec![true, false, false]);
}

#[test]
fn at_most_one_button_highlighted() {
    let mut menu = three_buttons();
    let script = [
        event(Event::MouseLeft),
        key(KeyCode::Right),
        key(KeyCode::Right),
        key(KeyCode::Left),
        event(Event::MouseEntered),
        event(Event::MouseLeft),
        key(KeyCode::H),
        key(KeyCode::Other),
    ];
    for m in script {
        menu.update(m);
        let expected = if menu.selected_button_index().is_some() { 1 } else { 0 };
        assert_eq!(selected_count(&menu), expected);
    }
}

#[test]
fn mouse_entered_clears_selection() {
    let mut menu = three_buttons();
    menu.update(key(KeyCode::Right));
    menu.update(key(KeyCode::Right));
    assert_eq!(menu.selected_button_index(), Some(1));
    assert!(is_no_op(&menu.update(event(Event::MouseEntered))));
    assert_eq!(menu.selected_button_index(), None);
    assert_eq!(menu.input_mode(), InputMode::Mouse);
    assert_eq!(selected_flags(&menu), vec![false, false, false]);
}

#[test]
fn keys_ignored_while_mouse_in_control() {
    let mut menu = three_buttons();
    menu.update(key(KeyCode::Right));
    menu.update(event(Event::MouseEntered));
    assert!(is_no_op(&menu.update(key(KeyCode::Enter))));
    assert!(is_no_op(&menu.update(key(KeyCode::Left))));
    assert!(is_no_op(&menu.update(key(KeyCode::Right))));
    assert_eq!(menu.selected_button_index(), None);
    menu.update(event(Event::MouseLeft));
    assert_eq!(menu.input_mode(), InputMode::Keyboard);
    assert_eq!(menu.selected_button_index(), None);
    menu.update(key(KeyCode::Right));
    assert_eq!(menu.selected_button_index(), Some(0));
}

#[test]
fn enter_without_selection_is_no_op() {
    let mut menu = three_buttons();
    assert!(is_no_op(&menu.update(key(KeyCode::Enter))));
}

#[test]
fn escape_terminates_without_command() {
    let mut menu = three_buttons();
    menu.update(key(KeyCode::Right));
    assert!(matches!(menu.update(key(KeyCode::Escape)), Outcome::TerminateWithoutCommand));
}

#[test]
fn empty_menu_keys_are_no_ops() {
    let mut menu = RPower::new(RPowerConfig::default(), "/home/u");
    assert!(menu.buttons().is_empty());
    for k in [KeyCode::Left, KeyCode::Right, KeyCode::A, KeyCode::D, KeyCode::H, KeyCode::L, KeyCode::Other] {
        assert!(is_no_op(&menu.update(key(k))));
        assert_eq!(menu.selected_button_index(), None);
    }
    assert!(is_no_op(&menu.update(key(KeyCode::Enter))));
}

#[test]
fn pointer_activation_runs_command_in_keyboard_mode() {
    let mut menu = three_buttons();
    assert_eq!(menu.input_mode(), InputMode::Keyboard);
    let out = menu.update(RPowerMessage::MenuButtonPressed("reboot".to_string()));
    assert_eq!(command_of(&out), Some("reboot".to_string()));
}

#[test]
fn other_events_are_no_ops() {
    let mut menu = three_buttons();
    menu.update(key(KeyCode::Right));
    assert!(is_no_op(&menu.update(event(Event::Other))));
    assert!(is_no_op(&menu.update(key(KeyCode::Other))));
    assert_eq!(menu.selected_button_index(), Some(0));
}

#[test]
fn button_background_follows_highlight() {
    let mut b = MenuButton::new(
        "poweroff".to_string(),
        "/i.svg".to_string(),
        Rgb(1, 1, 1),
        Rgb(2, 2, 2),
        Rgb(3, 3, 3),
    );
    assert!(!b.selected);
    assert_eq!(b.background_color(), Rgb(2, 2, 2));
    b.selected = true;
    assert_eq!(b.background_color(), Rgb(3, 3, 3));
}
