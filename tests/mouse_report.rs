use rio_screen::input::{ElementState, Modifiers, Pos, MODE_SGR_MOUSE, MODE_UTF8_MOUSE};
use rio_screen::layout::Layout;
use rio_screen::messenger::Message;
use rio_screen::report::{encode_mouse_report, modifier_code, normal_mouse_report, push_decimal, sgr_mouse_report};
use rio_screen::screen::Screen;

fn layout() -> Layout {
    Layout {
        width: 800,
        height: 600,
        columns: 80,
        lines: 24,
        cell_width: 10,
        cell_height: 20,
        padding_x: 10,
        padding_y: 0,
        scale_factor: 1,
    }
}

fn no_mods() -> Modifiers {
    Modifiers { shift: false, ctrl: false, alt: false, logo: false }
}

#[test]
fn sgr_press_and_release() {
    let pos = Pos::new(10, 5);
    assert_eq!(sgr_mouse_report(pos, 0, ElementState::Pressed), b"\x1b[<0;6;11M".to_vec());
    assert_eq!(sgr_mouse_report(pos, 0, ElementState::Released), b"\x1b[<0;6;11m".to_vec());
}

#[test]
fn sgr_large_coordinates_are_not_capped() {
    let pos = Pos::new(1999, 4095);
    assert_eq!(sgr_mouse_report(pos, 35, ElementState::Pressed), b"\x1b[<35;4096;2000M".to_vec());
}

#[test]
fn legacy_beyond_limit_is_dropped() {
    assert_eq!(normal_mouse_report(Pos::new(10, 300), 0, false), None);
    assert_eq!(normal_mouse_report(Pos::new(223, 10), 0, false), None);
    assert_eq!(normal_mouse_report(Pos::new(10, 2015), 0, true), None);
}

#[test]
fn legacy_press_without_modifiers() {
    let r = normal_mouse_report(Pos::new(10, 50), 0, false);
    assert_eq!(r, Some(vec![0x1b, b'[', b'M', 32, 33 + 50, 33 + 10]));
}

#[test]
fn legacy_largest_single_byte_coordinate() {
    let r = normal_mouse_report(Pos::new(0, 222), 0, false);
    assert_eq!(r, Some(vec![0x1b, b'[', b'M', 32, 255, 33]));
}

#[test]
fn legacy_utf8_two_byte_coordinate() {
    // 33 + 100 = 133 = 2 * 64 + 5
    let r = normal_mouse_report(Pos::new(10, 100), 0, true);
    assert_eq!(r, Some(vec![0x1b, b'[', b'M', 32, 0xc2, 0x85, 43]));
    // below 95 a single byte is kept even in UTF-8 mode
    let r = normal_mouse_report(Pos::new(94, 1), 0, true);
    assert_eq!(r, Some(vec![0x1b, b'[', b'M', 32, 34, 127]));
}

#[test]
fn modifier_codes() {
    assert_eq!(modifier_code(no_mods()), 0);
    assert_eq!(modifier_code(Modifiers { shift: true, ctrl: false, alt: false, logo: false }), 4);
    assert_eq!(modifier_code(Modifiers { shift: false, ctrl: false, alt: true, logo: false }), 8);
    assert_eq!(modifier_code(Modifiers { shift: true, ctrl: true, alt: true, logo: true }), 28);
}

#[test]
fn encode_release_in_legacy_uses_button_three() {
    let ctrl = Modifiers { shift: false, ctrl: true, alt: false, logo: false };
    let r = encode_mouse_report(Pos::new(0, 0), 1, ElementState::Released, ctrl, 0);
    assert_eq!(r, Some(vec![0x1b, b'[', b'M', 32 + 3 + 16, 33, 33]));
    let r = encode_mouse_report(Pos::new(0, 0), 1, ElementState::Pressed, ctrl, 0);
    assert_eq!(r, Some(vec![0x1b, b'[', b'M', 32 + 1 + 16, 33, 33]));
}

#[test]
fn encode_sgr_keeps_button_on_release() {
    let shift = Modifiers { shift: true, ctrl: false, alt: false, logo: false };
    let r = encode_mouse_report(Pos::new(2, 3), 2, ElementState::Released, shift, MODE_SGR_MOUSE);
    assert_eq!(r, Some(b"\x1b[<6;4;3m".to_vec()));
}

#[test]
fn encode_above_viewport_is_dropped() {
    let r = encode_mouse_report(Pos::new(-1, 3), 0, ElementState::Pressed, no_mods(), MODE_SGR_MOUSE);
    assert_eq!(r, None);
}

#[test]
fn encode_utf8_mode_reaches_two_byte_form() {
    let r = encode_mouse_report(Pos::new(0, 200), 0, ElementState::Pressed, no_mods(), MODE_UTF8_MOUSE);
    // 33 + 200 = 233 = 3 * 64 + 41
    assert_eq!(r, Some(vec![0x1b, b'[', b'M', 32, 0xc3, 0x80 + 41, 33]));
}

#[test]
fn decimal_digits() {
    let mut b = vec![b'x'];
    push_decimal(&mut b, 0);
    push_decimal(&mut b, 1234567890);
    assert_eq!(b, b"x01234567890".to_vec());
}

#[test]
fn screen_reports_to_current_session() {
    let mut screen = Screen::new(layout(), Vec::new(), 1);
    screen.ctx_mut().current_mut().terminal.mode = MODE_SGR_MOUSE;
    screen.mouse.x = 65;
    screen.mouse.y = 210;
    screen.mouse_report(0, ElementState::Pressed);
    let sent = screen.ctx_mut().current_mut().messenger.take_pending();
    assert_eq!(sent.len(), 1);
    match &sent[0] {
        Message::Bytes(b) => assert_eq!(b, &b"\x1b[<0;6;11M".to_vec()),
        Message::Resize(_) => panic!("expected bytes"),
    }
}

#[test]
fn screen_position_in_scrollback_is_dropped() {
    let mut screen = Screen::new(layout(), Vec::new(), 1);
    screen.ctx_mut().current_mut().terminal.set_history_size(50);
    screen.ctx_mut().current_mut().terminal.scroll_display(rio_screen::terminal::Scroll::Delta(5));
    screen.mouse.x = 65;
    screen.mouse.y = 40; // line 2, row 2 - 5 < 0
    assert_eq!(screen.mouse_position(5), Pos::new(-3, 5));
    screen.mouse_report(0, ElementState::Pressed);
    assert!(screen.ctx_mut().current_mut().messenger.take_pending().is_empty());
}
