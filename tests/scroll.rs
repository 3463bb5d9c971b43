use rio_screen::input::{Modifiers, MODE_ALTERNATE_SCROLL, MODE_ALT_SCREEN, MODE_BRACKETED_PASTE};
use rio_screen::layout::Layout;
use rio_screen::messenger::Message;
use rio_screen::mouse::{wheel_step, wrap};
use rio_screen::screen::Screen;

fn layout() -> Layout {
    Layout {
        width: 800,
        height: 600,
        columns: 80,
        lines: 24,
        cell_width: 10,
        cell_height: 20,
        padding_x: 10,
        padding_y: 0,
        scale_factor: 1,
    }
}

fn screen_with_history() -> Screen {
    let mut screen = Screen::new(layout(), Vec::new(), 1);
    screen.ctx_mut().current_mut().terminal.set_history_size(100);
    screen
}

fn only_bytes(screen: &mut Screen) -> Vec<u8> {
    let sent = screen.ctx_mut().current_mut().messenger.take_pending();
    let mut out = Vec::new();
    for m in sent {
        match m {
            Message::Bytes(b) => out.extend(b),
            Message::Resize(_) => panic!("expected bytes"),
        }
    }
    out
}

#[test]
fn sub_threshold_deltas_scroll_nothing() {
    let mut screen = screen_with_history();
    for _ in 0..6 {
        screen.scroll(0, 3);
        assert_eq!(screen.display_offset(), 0);
    }
    assert_eq!(screen.ctx().current().scroll.y, 18);
    // 18 + 25 = 43: two whole lines crossed
    screen.scroll(0, 25);
    assert_eq!(screen.display_offset(), 2);
    assert_eq!(screen.ctx().current().scroll.y, 3);
    screen.scroll(0, -23);
    assert_eq!(screen.display_offset(), 1);
    assert_eq!(screen.ctx().current().scroll.y, 0);
}

#[test]
fn multiplier_scales_scrollback_movement() {
    let mut screen = Screen::new(layout(), Vec::new(), 3);
    screen.ctx_mut().current_mut().terminal.set_history_size(100);
    screen.scroll(0, 20);
    assert_eq!(screen.display_offset(), 3);
    screen.scroll(0, 1000);
    assert_eq!(screen.display_offset(), 100);
}

#[test]
fn alternate_screen_sends_arrow_keys() {
    let mut screen = screen_with_history();
    screen.ctx_mut().current_mut().terminal.mode = MODE_ALT_SCREEN | MODE_ALTERNATE_SCROLL;
    screen.scroll(0, 10);
    assert!(only_bytes(&mut screen).is_empty());
    screen.scroll(0, 35);
    assert_eq!(only_bytes(&mut screen), b"\x1bOA\x1bOA".to_vec());
    screen.scroll(-25, -5);
    assert_eq!(only_bytes(&mut screen), b"\x1bOC\x1bOC".to_vec());
    assert_eq!(screen.display_offset(), 0);
}

#[test]
fn shift_forces_scrollback_on_alternate_screen() {
    let mut screen = screen_with_history();
    screen.ctx_mut().current_mut().terminal.mode = MODE_ALT_SCREEN | MODE_ALTERNATE_SCROLL;
    screen.set_modifiers(Modifiers { shift: true, ctrl: false, alt: false, logo: false });
    screen.scroll(0, 40);
    assert!(only_bytes(&mut screen).is_empty());
    assert_eq!(screen.display_offset(), 2);
}

#[test]
fn wheel_step_rounds_toward_zero() {
    assert_eq!(wheel_step(45, 20), (2, 5));
    assert_eq!(wheel_step(-45, 20), (-2, -5));
    assert_eq!(wheel_step(19, 20), (0, 19));
    assert_eq!(wrap(-7, 5), -2);
    assert_eq!(wrap(7, 5), 2);
}

#[test]
fn selection_scrolling_near_edges() {
    let mut screen = screen_with_history();
    // end_top = 5, step = 10: y = -20 gives (5 + 20 + 10) / 10 = 3 lines up
    screen.update_selection_scrolling(-20);
    assert_eq!(screen.display_offset(), 3);
    screen.update_selection_scrolling(200);
    assert_eq!(screen.display_offset(), 3);
    // start_bottom = min(600 - 5, 480) = 480: y = 495 gives -(25 / 10) = -2
    screen.update_selection_scrolling(495);
    assert_eq!(screen.display_offset(), 1);
}

#[test]
fn typed_character_returns_to_bottom() {
    let mut screen = screen_with_history();
    screen.scroll(0, 60);
    assert_eq!(screen.display_offset(), 3);
    screen.input_character('é');
    assert_eq!(screen.display_offset(), 0);
    assert_eq!(only_bytes(&mut screen), "é".as_bytes().to_vec());
    screen.set_modifiers(Modifiers { shift: false, ctrl: false, alt: true, logo: false });
    screen.input_character('b');
    assert_eq!(only_bytes(&mut screen), b"\x1bb".to_vec());
    screen.input_character('é');
    assert_eq!(only_bytes(&mut screen), "é".as_bytes().to_vec());
}

#[test]
fn bracketed_paste_is_framed_and_filtered() {
    let mut screen = screen_with_history();
    screen.ctx_mut().current_mut().terminal.mode = MODE_BRACKETED_PASTE;
    screen.paste("a\x1b[201~\x03b\n", true);
    assert_eq!(only_bytes(&mut screen), b"\x1b[200~a[201~b\n\x1b[201~".to_vec());
    screen.paste("a\r\nb\nc", false);
    assert_eq!(only_bytes(&mut screen), b"a\rb\rc".to_vec());
}

#[test]
fn paste_outside_bracketed_mode_normalizes_newlines() {
    let mut screen = screen_with_history();
    screen.paste("x\r\r\ny\n\n", true);
    assert_eq!(only_bytes(&mut screen), b"x\r\ry\r\r".to_vec());
}

#[test]
fn modifier_change_resets_accumulated_scroll() {
    let mut screen = screen_with_history();
    screen.scroll(0, 15);
    assert_eq!(screen.ctx().current().scroll.y, 15);
    screen.set_modifiers(Modifiers { shift: false, ctrl: false, alt: false, logo: false });
    assert_eq!(screen.ctx().current().scroll.y, 15);
    screen.set_modifiers(Modifiers { shift: false, ctrl: true, alt: false, logo: false });
    assert_eq!(screen.ctx().current().scroll.y, 0);
    screen.scroll(0, 15);
    screen.reset_mouse();
    assert_eq!(screen.ctx().current().scroll.y, 0);
    screen.scroll(0, 15);
    assert_eq!(screen.display_offset(), 0);
}

#[test]
fn each_session_keeps_its_own_wheel_movement() {
    let mut screen = screen_with_history();
    screen.scroll(0, 15);
    screen.ctx_mut().add_context(true, (800, 600), (80, 24));
    assert_eq!(screen.ctx().current().scroll.y, 0);
    screen.scroll(0, 7);
    assert_eq!(screen.ctx().current().scroll.y, 7);
    screen.ctx_mut().switch_to_next();
    assert_eq!(screen.ctx().current().scroll.y, 15);
    // 15 + 5 crosses one line in the first session
    screen.scroll(0, 5);
    assert_eq!(screen.display_offset(), 1);
}
