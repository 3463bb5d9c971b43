use rio_screen::context::ContextManager;
use rio_screen::layout::Layout;
use rio_screen::messenger::{Message, WinSize};
use rio_screen::screen::Screen;

fn manager() -> ContextManager {
    ContextManager::start((800, 600), (80, 24))
}

#[test]
fn close_last_context_is_refused() {
    let mut m = manager();
    m.close_context();
    assert_eq!(m.len(), 1);
    assert_eq!(m.current_index(), 0);
    assert!(m.take_terminated().is_empty());
}

#[test]
fn close_context_keeps_current_valid() {
    let mut m = manager();
    m.add_context(false, (800, 600), (80, 24));
    m.add_context(false, (800, 600), (80, 24));
    assert_eq!(m.len(), 3);
    m.switch_to_next();
    m.switch_to_next();
    assert_eq!(m.current_index(), 2);
    m.close_context();
    assert_eq!(m.len(), 2);
    assert_eq!(m.current_index(), 1);
    assert_eq!(m.take_terminated(), vec![2]);
    m.switch_to_next();
    assert_eq!(m.current_index(), 0);
    m.close_context();
    assert_eq!(m.len(), 1);
    assert_eq!(m.current_index(), 0);
    assert_eq!(m.current().id, 1);
}

#[test]
fn add_then_close_restores_length() {
    let mut m = manager();
    m.add_context(false, (800, 600), (80, 24));
    let before = m.len();
    let current = m.current().id;
    m.add_context(false, (800, 600), (80, 24));
    assert_eq!(m.current().id, current);
    m.close_context();
    assert_eq!(m.len(), before);
}

#[test]
fn add_redirect_then_close_restores_current() {
    let mut m = manager();
    m.add_context(true, (800, 600), (80, 24));
    let before = m.len();
    let current = m.current().id;
    m.add_context(true, (800, 600), (80, 24));
    assert_eq!(m.current().id, 2);
    m.close_context();
    assert_eq!(m.len(), before);
    assert_eq!(m.current().id, current);
}

#[test]
fn switch_wraps_and_is_noop_alone() {
    let mut m = manager();
    m.switch_to_next();
    assert_eq!(m.current_index(), 0);
    m.add_context(false, (800, 600), (80, 24));
    m.switch_to_next();
    assert_eq!(m.current_index(), 1);
    m.switch_to_next();
    assert_eq!(m.current_index(), 0);
}

#[test]
fn closed_session_drops_sends() {
    let mut m = manager();
    m.current_mut().messenger.close();
    m.send_bytes(vec![1, 2, 3]);
    assert!(m.current_mut().messenger.take_pending().is_empty());
    assert!(m.current().messenger.is_closed());
}

#[test]
fn resize_reaches_every_session_after_queued_bytes() {
    let layout = Layout {
        width: 800,
        height: 600,
        columns: 80,
        lines: 24,
        cell_width: 10,
        cell_height: 20,
        padding_x: 10,
        padding_y: 0,
        scale_factor: 1,
    };
    let mut screen = Screen::new(layout, Vec::new(), 1);
    screen.ctx_mut().add_context(false, (800, 600), (80, 24));
    screen.paste("x", false);
    let smaller = Layout { width: 400, height: 300, columns: 39, lines: 15, ..layout };
    screen.resize(smaller);
    for c in screen.ctx().contexts() {
        assert_eq!(c.terminal.columns, 39);
        assert_eq!(c.terminal.screen_lines, 15);
    }
    let sent = screen.ctx_mut().current_mut().messenger.take_pending();
    assert_eq!(sent.len(), 2);
    assert!(matches!(&sent[0], Message::Bytes(b) if b == b"x"));
    assert!(matches!(
        &sent[1],
        Message::Resize(WinSize { width: 400, height: 300, columns: 39, lines: 15 })
    ));
}

#[test]
fn take_messages_hands_out_every_session_in_order() {
    let mut m = manager();
    m.add_context(true, (800, 600), (80, 24));
    m.send_bytes(vec![7]);
    m.resize_all(400, 300, 40, 12);
    let out = m.take_messages();
    assert_eq!(out.len(), 2);
    assert_eq!(out[0].0, 0);
    assert_eq!(out[0].1.len(), 1);
    assert!(matches!(&out[0].1[0], Message::Resize(WinSize { columns: 40, lines: 12, .. })));
    assert_eq!(out[1].0, 1);
    assert_eq!(out[1].1.len(), 2);
    assert!(matches!(&out[1].1[0], Message::Bytes(b) if b == &vec![7u8]));
    assert!(m.take_messages().iter().all(|(_, p)| p.is_empty()));
}
