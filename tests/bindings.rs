use rio_screen::bindings::{resolve, Action, FontSizeAction, Key, KeyBinding, ViMotion};
use rio_screen::input::{Modifiers, MODE_ALT_SCREEN, MODE_APP_CURSOR, MODE_BRACKETED_PASTE, MODE_VI};
use rio_screen::layout::Layout;
use rio_screen::messenger::Message;
use rio_screen::input::Pos;
use rio_screen::screen::{ClipboardType, Request, Screen};

fn mods(shift: bool, ctrl: bool) -> Modifiers {
    Modifiers { shift, ctrl, alt: false, logo: false }
}

fn binding(trigger: Key, m: Modifiers, mode: u32, notmode: u32, action: Action) -> KeyBinding {
    KeyBinding { trigger, mods: m, mode, notmode, action }
}

fn layout() -> Layout {
    Layout {
        width: 800,
        height: 600,
        columns: 80,
        lines: 24,
        cell_width: 10,
        cell_height: 20,
        padding_x: 10,
        padding_y: 0,
        scale_factor: 1,
    }
}

#[test]
fn binding_fires_iff_mods_equal_and_modes_match() {
    let b = binding(Key::Keycode(7), mods(true, false), MODE_APP_CURSOR, MODE_VI, Action::Copy);
    assert!(b.is_triggered_by(MODE_APP_CURSOR, mods(true, false), Key::Keycode(7)));
    // modifiers must be equal, not a superset
    assert!(!b.is_triggered_by(MODE_APP_CURSOR, mods(true, true), Key::Keycode(7)));
    // required mode missing
    assert!(!b.is_triggered_by(0, mods(true, false), Key::Keycode(7)));
    // excluded mode present
    assert!(!b.is_triggered_by(MODE_APP_CURSOR | MODE_VI, mods(true, false), Key::Keycode(7)));
    // other key
    assert!(!b.is_triggered_by(MODE_APP_CURSOR, mods(true, false), Key::Keycode(8)));
}

#[test]
fn resolve_reports_every_match_in_order() {
    let table = vec![
        binding(Key::Keycode(1), mods(false, false), 0, 0, Action::Copy),
        binding(Key::Scancode(99), mods(false, false), 0, 0, Action::Paste),
        binding(Key::Keycode(1), mods(false, false), MODE_ALT_SCREEN, 0, Action::Paste),
        binding(Key::Keycode(1), mods(false, false), 0, MODE_ALT_SCREEN, Action::ReceiveChar),
        binding(Key::Keycode(1), mods(false, true), 0, 0, Action::Copy),
    ];
    assert_eq!(resolve(&table, 0, mods(false, false), Some(1), 5), vec![0, 3]);
    assert_eq!(resolve(&table, MODE_ALT_SCREEN, mods(false, false), Some(1), 5), vec![0, 2]);
    assert_eq!(resolve(&table, 0, mods(false, false), None, 99), vec![1]);
    assert_eq!(resolve(&table, 0, mods(false, false), Some(1), 99), vec![0, 1, 3]);
    // a mode bit no binding names changes nothing
    assert_eq!(resolve(&table, MODE_BRACKETED_PASTE, mods(false, false), Some(1), 5), vec![0, 3]);
}

#[test]
fn fired_bindings_suppress_the_next_character() {
    let table = vec![binding(Key::Keycode(1), mods(false, false), 0, 0, Action::Esc("\x1b[A".to_string()))];
    let mut screen = Screen::new(layout(), table, 1);
    screen.input_keycode(Some(1), 0);
    assert!(screen.ignore_chars);
    screen.input_character('a');
    let sent = screen.ctx_mut().current_mut().messenger.take_pending();
    assert_eq!(sent.len(), 1);
    match &sent[0] {
        Message::Bytes(b) => assert_eq!(b, &b"\x1b[A".to_vec()),
        Message::Resize(_) => panic!("expected bytes"),
    }
    // no binding fires: characters pass again
    screen.input_keycode(Some(2), 0);
    assert!(!screen.ignore_chars);
    screen.input_character('a');
    let sent = screen.ctx_mut().current_mut().messenger.take_pending();
    assert_eq!(sent.len(), 1);
}

#[test]
fn receive_char_binding_lets_characters_through() {
    let table = vec![
        binding(Key::Keycode(1), mods(false, false), 0, 0, Action::Copy),
        binding(Key::Keycode(1), mods(false, false), 0, 0, Action::ReceiveChar),
    ];
    let mut screen = Screen::new(layout(), table, 1);
    screen.input_keycode(Some(1), 0);
    assert!(!screen.ignore_chars);
    let reqs = screen.take_requests();
    assert_eq!(reqs.len(), 1);
    assert!(matches!(reqs[0], Request::Copy(_)));
}

#[test]
fn escape_action_normalizes_newlines() {
    let table = vec![binding(Key::Scancode(3), mods(false, false), 0, 0, Action::Esc("a\r\nb\nc".to_string()))];
    let mut screen = Screen::new(layout(), table, 1);
    screen.input_keycode(None, 3);
    let sent = screen.ctx_mut().current_mut().messenger.take_pending();
    match &sent[0] {
        Message::Bytes(b) => assert_eq!(b, &b"a\rb\rc".to_vec()),
        Message::Resize(_) => panic!("expected bytes"),
    }
}

#[test]
fn tab_actions_change_sessions() {
    let table = vec![
        binding(Key::Keycode(1), mods(true, true), 0, 0, Action::TabCreateNew),
        binding(Key::Keycode(2), mods(true, true), 0, 0, Action::TabSwitchNext),
        binding(Key::Keycode(3), mods(true, true), 0, 0, Action::TabCloseCurrent),
    ];
    let mut screen = Screen::new(layout(), table, 1);
    screen.set_modifiers(mods(true, true));
    screen.input_keycode(Some(1), 0);
    assert_eq!(screen.ctx().len(), 2);
    assert_eq!(screen.ctx().current_index(), 1);
    screen.input_keycode(Some(2), 0);
    assert_eq!(screen.ctx().current_index(), 0);
    screen.input_keycode(Some(3), 0);
    assert_eq!(screen.ctx().len(), 1);
    assert_eq!(screen.ctx().current().id, 1);
    screen.input_keycode(Some(3), 0);
    assert_eq!(screen.ctx().len(), 1);
    let reqs = screen.take_requests();
    assert!(reqs.iter().all(|r| matches!(r, Request::Redraw)));
    assert_eq!(reqs.len(), 4);
}

#[test]
fn keys_are_ignored_while_composing() {
    let table = vec![binding(Key::Keycode(1), mods(false, false), 0, 0, Action::Copy)];
    let mut screen = Screen::new(layout(), table, 1);
    screen.preedit = Some("ka".to_string());
    screen.input_keycode(Some(1), 0);
    assert!(screen.take_requests().is_empty());
    screen.input_character('x');
    assert!(screen.ctx_mut().current_mut().messenger.take_pending().is_empty());
}

#[test]
fn outside_work_becomes_requests() {
    let table = vec![
        binding(Key::Keycode(1), mods(false, false), 0, 0, Action::WindowCreateNew),
        binding(Key::Keycode(1), mods(false, false), 0, 0, Action::IncreaseFontSize),
        binding(Key::Keycode(1), mods(false, false), 0, 0, Action::DecreaseFontSize),
        binding(Key::Keycode(1), mods(false, false), 0, 0, Action::ResetFontSize),
        binding(Key::Keycode(1), mods(false, false), 0, 0, Action::Paste),
        binding(Key::Keycode(1), mods(false, false), 0, 0, Action::PasteSelection),
        binding(Key::Keycode(1), mods(false, false), 0, 0, Action::Nothing),
    ];
    let mut screen = Screen::new(layout(), table, 1);
    screen.input_keycode(Some(1), 0);
    assert!(screen.ignore_chars);
    let reqs = screen.take_requests();
    assert_eq!(reqs.len(), 6);
    assert!(matches!(reqs[0], Request::CreateWindow));
    assert!(matches!(reqs[1], Request::ChangeFontSize(FontSizeAction::Increase)));
    assert!(matches!(reqs[2], Request::ChangeFontSize(FontSizeAction::Decrease)));
    assert!(matches!(reqs[3], Request::ChangeFontSize(FontSizeAction::Reset)));
    assert!(matches!(reqs[4], Request::Paste(ClipboardType::Clipboard)));
    assert!(matches!(reqs[5], Request::Paste(ClipboardType::Selection)));
    assert!(screen.ctx_mut().current_mut().messenger.take_pending().is_empty());
}

#[test]
fn vi_motion_moves_the_vi_cursor_within_the_grid() {
    let table = vec![
        binding(Key::Keycode(1), mods(false, false), MODE_VI, 0, Action::ViMotion(ViMotion::Up)),
        binding(Key::Keycode(2), mods(false, false), MODE_VI, 0, Action::ViMotion(ViMotion::Right)),
        binding(Key::Keycode(3), mods(false, false), MODE_VI, 0, Action::ViMotion(ViMotion::Last)),
        binding(Key::Keycode(4), mods(false, false), MODE_VI, 0, Action::ViMotion(ViMotion::Down)),
    ];
    let mut screen = Screen::new(layout(), table, 1);
    // outside vi mode nothing fires
    screen.input_keycode(Some(2), 0);
    assert_eq!(screen.ctx().current().terminal.vi_cursor, Pos::new(0, 0));
    screen.ctx_mut().current_mut().terminal.mode = MODE_VI;
    screen.input_keycode(Some(1), 0);
    screen.input_keycode(Some(2), 0);
    assert_eq!(screen.ctx().current().terminal.vi_cursor, Pos::new(0, 1));
    screen.input_keycode(Some(3), 0);
    screen.input_keycode(Some(2), 0);
    screen.input_keycode(Some(4), 0);
    assert_eq!(screen.ctx().current().terminal.vi_cursor, Pos::new(1, 79));
}

#[test]
fn render_projects_the_current_grid() {
    let mut screen = Screen::new(layout(), Vec::new(), 1);
    screen.ctx_mut().current_mut().terminal.set_history_size(10);
    screen.ctx_mut().current_mut().terminal.scroll_display(rio_screen::terminal::Scroll::Delta(4));
    screen.preedit = Some("ni".to_string());
    screen.render();
    assert_eq!(screen.state.display_offset, 4);
    assert_eq!(screen.state.preedit, Some("ni".to_string()));
    assert_eq!(screen.state.selection_range, None);
    assert!(matches!(screen.take_requests()[..], [Request::Redraw]));
}

#[test]
fn bracketed_paste_mode_is_read_by_bindings() {
    let table = vec![
        binding(Key::Keycode(1), mods(false, false), MODE_BRACKETED_PASTE, 0, Action::Copy),
        binding(Key::Keycode(1), mods(false, false), 0, MODE_BRACKETED_PASTE, Action::Paste),
    ];
    assert_eq!(resolve(&table, MODE_BRACKETED_PASTE, mods(false, false), Some(1), 0), vec![0]);
    assert_eq!(resolve(&table, 0, mods(false, false), Some(1), 0), vec![1]);
    let mut screen = Screen::new(layout(), table, 1);
    screen.ctx_mut().current_mut().terminal.mode = MODE_BRACKETED_PASTE;
    screen.input_keycode(Some(1), 0);
    assert!(screen.ignore_chars);
    let reqs = screen.take_requests();
    assert_eq!(reqs.len(), 1);
    assert!(matches!(reqs[0], Request::Copy(ClipboardType::Clipboard)));
}
