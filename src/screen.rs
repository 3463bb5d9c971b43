use vstd::prelude::*;

use crate::bindings::{fired, resolve, suppresses_chars, Action, FontSizeAction, KeyBinding};
use crate::messenger::{bytes_msg, Sent};
use crate::context::{
    add_step, close_step, current_replaced, fits_grid, resize_all_step, sent_bytes, switch_step,
    Context, ContextManager,
};
use crate::input::{
    contains, has_all, has_any, intersects, ClickState, ElementState, Modifiers, Pos, Side,
    MODE_ALTERNATE_SCROLL, MODE_ALT_SCREEN, MODE_BRACKETED_PASTE, MODE_MOUSE_DRAG,
    MODE_MOUSE_MODE, MODE_MOUSE_MOTION, MODE_VI,
};
use crate::layout::Layout;
use crate::mouse::{
    arrow_keys, lemma_wheel_threshold, push_arrow_keys, trunc_rem, wheel_rest, wheel_step,
    wheel_units, wrap, AccumulatedScroll, Mouse,
};
use crate::report::{encode_mouse_report, mouse_report_spec, ESC};
use crate::selection::{fresh_selection, range_of, widened, Anchor, Selection, SelectionRange, SelectionType};
use crate::terminal::{fresh_terminal, scrolled_offset, vi_moved, Scroll, Terminal};
use crate::text::{
    char_utf8, encode_char, normalize_newlines, normalized_newlines, strip_paste_controls,
    stripped_paste_controls,
};
use vstd::utf8::encode_utf8;

verus! {

/// The two clipboard slots.
#[derive(Clone, Copy, Debug, PartialEq, Eq, Structural)]
pub enum ClipboardType {
    Clipboard,
    Selection,
}

/// Work that only the surrounding program can do, in the order it was asked.
#[derive(Clone, Debug)]
pub enum Request {
    /// Open a new window with a session collection of its own.
    CreateWindow,
    /// Change the font size; then hand back the new layout through `resize`.
    ChangeFontSize(FontSizeAction),
    /// Read this clipboard slot and hand its text to `paste`.
    Paste(ClipboardType),
    /// Read the grid's selection text and hand it to `copy_selection`.
    Copy(ClipboardType),
    /// Put this text in this clipboard slot.
    Store(ClipboardType, String),
    /// Draw a frame from `state`.
    Redraw,
}

/// What the renderer reads each frame.
#[derive(Clone, Debug)]
pub struct RenderState {
    pub selection_range: Option<SelectionRange>,
    pub cursor: Pos,
    pub display_offset: usize,
    pub preedit: Option<String>,
}

/// The selection range the renderer shows for a grid.
pub open spec fn projected_range(t: Terminal) -> Option<SelectionRange> {
    match t.selection {
        Some(s) => range_of(s, t.columns),
        None => None,
    }
}

/// Bytes a typed character sends: with Alt held, a one-byte character is
/// preceded by `ESC`.
pub open spec fn char_input_bytes(c: char, alt: bool) -> Seq<u8> {
    if alt && char_utf8(c).len() == 1 {
        seq![ESC] + char_utf8(c)
    } else {
        char_utf8(c)
    }
}

/// Whether wheel movement becomes arrow keys: on the alternate screen with
/// alternate scroll on, unless Shift asks for the scrollback.
pub open spec fn wheel_sends_keys(mode: u32, mods: Modifiers) -> bool {
    has_all(mode, (MODE_ALT_SCREEN | MODE_ALTERNATE_SCROLL) as u32) && !mods.shift
}

/// Arrow keys sent for wheel movement on the alternate screen: one per whole
/// line of `tx`, `ty` crossed, up or down by the sign of `dy`, left or right
/// by the sign of `dx`.
pub open spec fn wheel_key_bytes(l: Layout, tx: int, ty: int, dx: int, dy: int) -> Seq<u8> {
    let lines = wheel_units(ty, l.cell_height as int);
    let columns = wheel_units(tx, l.cell_width as int);
    arrow_keys(if dy > 0 { 0x41u8 } else { 0x42u8 }, (if lines >= 0 { lines } else { -lines }) as nat)
        + arrow_keys(if dx > 0 { 0x44u8 } else { 0x43u8 }, (if columns >= 0 { columns } else { -columns }) as nat)
}

/// The requests after a copy of `text` into slot `ty`: nothing for no text
/// or empty text; a copy into the selection slot goes to the clipboard too.
pub open spec fn copy_requests(reqs: Seq<Request>, ty: ClipboardType, text: Option<String>) -> Seq<Request> {
    match text {
        Some(t) => if t@.len() == 0 {
            reqs
        } else if ty == ClipboardType::Selection {
            reqs.push(Request::Store(ClipboardType::Clipboard, t)).push(Request::Store(ty, t))
        } else {
            reqs.push(Request::Store(ty, t))
        },
        None => reqs,
    }
}

/// The selection a click starts, or `None` for no click.
pub open spec fn click_selection(click: ClickState, ctrl: bool, pos: Pos, side: Side) -> Option<Selection> {
    match click {
        ClickState::Click => Some(fresh_selection(if ctrl { SelectionType::Block } else { SelectionType::Simple }, pos, side)),
        ClickState::DoubleClick => Some(fresh_selection(SelectionType::Semantic, pos, side)),
        ClickState::TripleClick => Some(fresh_selection(SelectionType::Lines, pos, side)),
        ClickState::Idle => None,
    }
}

/// `n` is `o` with one more request.
pub open spec fn requested(o: Screen, n: Screen, r: Request) -> bool {
    &&& n == (Screen { requests: n.requests, ..o })
    &&& n.reqs() == o.reqs().push(r)
}

/// What performing action `a` does to screen `o`, giving `n`.
pub open spec fn action_step(o: Screen, n: Screen, a: Action) -> bool {
    match a {
        Action::Esc(s) => {
            &&& frame(o, n)
            &&& n.state == o.state
            &&& current_replaced(o.cm(), n.cm())
            &&& sent_bytes(o.cm().cur(), n.cm().cur(), normalize_newlines(encode_utf8(s@)))
        },
        Action::Paste => requested(o, n, Request::Paste(ClipboardType::Clipboard)),
        Action::PasteSelection => requested(o, n, Request::Paste(ClipboardType::Selection)),
        Action::Copy => requested(o, n, Request::Copy(ClipboardType::Clipboard)),
        Action::ViMotion(m) => {
            &&& frame(o, n)
            &&& n.state == o.state
            &&& current_replaced(o.cm(), n.cm())
            &&& n.cm().cur() == (Context {
                terminal: Terminal {
                    vi_cursor: vi_moved(o.term().vi_cursor, m, o.term().screen_lines, o.term().columns),
                    ..o.term()
                },
                ..o.cm().cur()
            })
        },
        Action::WindowCreateNew => requested(o, n, Request::CreateWindow),
        Action::TabCreateNew => if o.cm().next_id_spec() < u64::MAX {
            &&& add_step(o.cm(), n.cm(), true, (o.lay().width, o.lay().height), (o.lay().columns, o.lay().lines))
            &&& frame(o, Screen { requests: o.requests, ..n })
            &&& rendered(o, n)
        } else {
            n == o
        },
        Action::TabSwitchNext => {
            &&& switch_step(o.cm(), n.cm())
            &&& frame(o, Screen { requests: o.requests, ..n })
            &&& rendered(o, n)
        },
        Action::TabCloseCurrent => {
            &&& close_step(o.cm(), n.cm())
            &&& frame(o, Screen { requests: o.requests, ..n })
            &&& rendered(o, n)
        },
        Action::IncreaseFontSize => requested(o, n, Request::ChangeFontSize(FontSizeAction::Increase)),
        Action::DecreaseFontSize => requested(o, n, Request::ChangeFontSize(FontSizeAction::Decrease)),
        Action::ResetFontSize => requested(o, n, Request::ChangeFontSize(FontSizeAction::Reset)),
        Action::ReceiveChar | Action::Nothing => n == o,
    }
}

/// `trace` runs from `o` (its bindings aside) through one `action_step` per
/// action of `acts`.
pub open spec fn performed(trace: Seq<Screen>, o: Screen, acts: Seq<Action>) -> bool {
    &&& trace.len() == acts.len() + 1
    &&& trace[0] == (Screen { bindings: trace[0].bindings, ..o })
    &&& forall|k: int| 0 <= k < acts.len() ==> action_step(#[trigger] trace[k], trace[k + 1], acts[k])
}

/// The actions of the bindings at `idx`, in that order.
pub open spec fn actions_at(bs: Seq<KeyBinding>, idx: Seq<usize>) -> Seq<Action> {
    idx.map_values(|i: usize| bs[i as int].action)
}

/// What a wheel event of `dx`, `dy` pixels does to screen `o`, giving `n`.
/// On the alternate screen with alternate scroll on (and Shift up) one arrow
/// key is sent per whole cell crossed; otherwise the viewport moves by the
/// whole lines crossed, scaled by the multiplier. Only the current session
/// changes; what is left under one cell stays in its accumulator, wrapped to
/// the window size.
pub open spec fn scroll_step(o: Screen, n: Screen, dx: i32, dy: i32) -> bool {
    let l = o.lay();
    let c = o.cm().cur();
    let acc = c.scroll;
    &&& frame(o, n)
    &&& n.state == o.state
    &&& current_replaced(o.cm(), n.cm())
    &&& n.cm().cur() == (Context {
        scroll: n.cm().cur().scroll,
        terminal: n.cm().cur().terminal,
        messenger: n.cm().cur().messenger,
        ..c
    })
    &&& if wheel_sends_keys(c.terminal.mode, o.modifiers) {
        let tx = acc.x + dx;
        let ty = acc.y + dy;
        let keys = wheel_key_bytes(l, tx, ty, dx as int, dy as int);
        &&& n.cm().cur().scroll.x == trunc_rem(wheel_rest(tx, l.cell_width as int), l.width as int)
        &&& n.cm().cur().scroll.y == trunc_rem(wheel_rest(ty, l.cell_height as int), l.height as int)
        &&& n.cm().cur().terminal == c.terminal
        &&& keys.len() == 0 ==> n.cm().cur().messenger == c.messenger
        &&& keys.len() > 0 ==> sent_bytes(c, Context { scroll: c.scroll, ..n.cm().cur() }, keys)
    } else {
        let ty = acc.y + dy * o.mouse.multiplier;
        let units = wheel_units(ty, l.cell_height as int);
        &&& n.cm().cur().scroll.x == trunc_rem(acc.x as int, l.width as int)
        &&& n.cm().cur().scroll.y == trunc_rem(wheel_rest(ty, l.cell_height as int), l.height as int)
        &&& n.cm().cur().messenger == c.messenger
        &&& units == 0 ==> n.cm().cur().terminal == c.terminal
        &&& units != 0 ==> n.cm().cur().terminal == (Terminal {
            display_offset: scrolled_offset(
                c.terminal.display_offset,
                c.terminal.history_size,
                Scroll::Delta(units as i64),
            ),
            ..c.terminal
        })
    }
}

/// Sum of the first `k` of `ds`.
pub open spec fn prefix_sum(ds: Seq<i32>, k: int) -> int
    decreases k,
{
    if k <= 0 {
        0
    } else {
        prefix_sum(ds, k - 1) + ds[k - 1]
    }
}

/// Closing a tab through a binding in a window with one session leaves the
/// sessions as they were.
pub proof fn lemma_close_action_at_one_session(o: Screen, n: Screen)
    requires
        o.wf(),
        o.cm().ctxs().len() == 1,
        action_step(o, n, Action::TabCloseCurrent),
    ensures
        n.cm().ctxs() == o.cm().ctxs(),
        n.cm().cur() == o.cm().cur(),
{
}

/// A run of wheel events over the scrollback, from an empty accumulator,
/// whose running total (times the multiplier) stays under one line at every
/// event scrolls nothing: the viewport never moves and the accumulator holds
/// the running total.
pub proof fn lemma_sub_threshold_wheel_run(trace: Seq<Screen>, dys: Seq<i32>)
    requires
        trace.len() == dys.len() + 1,
        forall|k: int| 0 <= k <= dys.len() ==> (#[trigger] trace[k]).wf(),
        trace[0].cm().cur().scroll.y == 0,
        !wheel_sends_keys(trace[0].term().mode, trace[0].modifiers),
        forall|k: int| 0 <= k < dys.len() ==> scroll_step(#[trigger] trace[k], trace[k + 1], 0, dys[k]),
        forall|j: int|
            0 <= j <= dys.len() ==> -(trace[0].lay().cell_height as int) < trace[0].mouse.multiplier
                * #[trigger] prefix_sum(dys, j) < trace[0].lay().cell_height,
    ensures
        forall|k: int|
            0 <= k <= dys.len() ==> {
                &&& (#[trigger] trace[k]).term() == trace[0].term()
                &&& trace[k].cm().cur().id == trace[0].cm().cur().id
                &&& trace[k].cm().cur().scroll.y == trace[0].mouse.multiplier * prefix_sum(dys, k)
            },
{
    assert forall|k: int| 0 <= k <= dys.len() implies {
        &&& (#[trigger] trace[k]).term() == trace[0].term()
        &&& trace[k].cm().cur().id == trace[0].cm().cur().id
        &&& trace[k].cm().cur().scroll.y == trace[0].mouse.multiplier * prefix_sum(dys, k)
    } by {
        lemma_wheel_run_prefix(trace, dys, k);
    }
}

proof fn lemma_wheel_run_prefix(trace: Seq<Screen>, dys: Seq<i32>, k: int)
    requires
        trace.len() == dys.len() + 1,
        0 <= k <= dys.len(),
        forall|k: int| 0 <= k <= dys.len() ==> (#[trigger] trace[k]).wf(),
        trace[0].cm().cur().scroll.y == 0,
        !wheel_sends_keys(trace[0].term().mode, trace[0].modifiers),
        forall|k: int| 0 <= k < dys.len() ==> scroll_step(#[trigger] trace[k], trace[k + 1], 0, dys[k]),
        forall|j: int|
            0 <= j <= dys.len() ==> -(trace[0].lay().cell_height as int) < trace[0].mouse.multiplier
                * #[trigger] prefix_sum(dys, j) < trace[0].lay().cell_height,
    ensures
        trace[k].term() == trace[0].term(),
        trace[k].cm().cur().id == trace[0].cm().cur().id,
        trace[k].cm().cur().scroll.y == trace[0].mouse.multiplier * prefix_sum(dys, k),
        trace[k].mouse == trace[0].mouse,
        trace[k].modifiers == trace[0].modifiers,
        trace[k].lay() == trace[0].lay(),
    decreases k,
{
    if k > 0 {
        lemma_wheel_run_prefix(trace, dys, k - 1);
        let o = trace[k - 1];
        let n = trace[k];
        assert(scroll_step(o, n, 0, dys[k - 1]));
        let m = trace[0].mouse.multiplier as int;
        let p = prefix_sum(dys, k - 1);
        let d = dys[k - 1] as int;
        assert(m * p + d * m == m * (p + d)) by (nonlinear_arith);
        assert(prefix_sum(dys, k) == p + d);
        assert(-(trace[0].lay().cell_height as int) < m * prefix_sum(dys, k));
        lemma_wheel_threshold(m * p, d * m, o.lay().cell_height as int);
    }
}

/// The session controller of one window.
#[derive(Debug)]
pub struct Screen {
    pub bindings: Vec<KeyBinding>,
    pub modifiers: Modifiers,
    pub ignore_chars: bool,
    pub mouse: Mouse,
    pub preedit: Option<String>,
    pub state: RenderState,
    pub layout: Layout,
    pub context_manager: ContextManager,
    pub requests: Vec<Request>,
}

/// Everything but the sessions and the render state is as it was.
pub open spec fn frame(o: Screen, n: Screen) -> bool {
    &&& n.binds() == o.binds()
    &&& n.modifiers == o.modifiers
    &&& n.ignores_chars() == o.ignores_chars()
    &&& n.mouse == o.mouse
    &&& n.preedit == o.preedit
    &&& n.lay() == o.lay()
    &&& n.reqs() == o.reqs()
}

/// `n` is `o` with a new frame drawn from its current session.
pub open spec fn rendered(o: Screen, n: Screen) -> bool {
    &&& n.state.selection_range == projected_range(n.term())
    &&& n.state.cursor == n.term().cursor
    &&& n.state.display_offset == n.term().display_offset
    &&& n.state.preedit == o.preedit
    &&& n.reqs() == o.reqs().push(Request::Redraw)
}

impl Screen {
    pub open spec fn binds(&self) -> Seq<KeyBinding> {
        self.bindings@
    }

    pub open spec fn ignores_chars(&self) -> bool {
        self.ignore_chars
    }

    pub open spec fn lay(&self) -> Layout {
        self.layout
    }

    pub open spec fn cm(&self) -> ContextManager {
        self.context_manager
    }

    pub open spec fn reqs(&self) -> Seq<Request> {
        self.requests@
    }

    pub open spec fn wf(&self) -> bool {
        &&& self.lay().wf()
        &&& self.cm().wf()
    }

    /// The current session's grid.
    pub open spec fn term(&self) -> Terminal {
        self.cm().cur().terminal
    }

    /// A screen with one session sized to `layout`, resolving keys through
    /// `bindings`; wheel movement over the scrollback is scaled by
    /// `scroll_multiplier`.
    pub fn new(layout: Layout, bindings: Vec<KeyBinding>, scroll_multiplier: i32) -> (r: Screen)
        requires
            layout.wf(),
        ensures
            r.wf(),
            r.binds() == bindings@,
            r.lay() == layout,
            r.cm().ctxs().len() == 1,
            r.cm().current_idx() == 0,
            r.cm().cur().id == 0,
            r.term() == fresh_terminal(layout.columns, layout.lines),
            r.cm().cur().messenger.is_open(),
            r.cm().cur().messenger.pending() == Seq::<Sent>::empty(),
            r.mouse.x == 0,
            r.mouse.y == 0,
            r.mouse.square_side == Side::Left,
            r.cm().cur().scroll == (AccumulatedScroll { x: 0, y: 0 }),
            r.mouse.multiplier == scroll_multiplier,
            r.mouse.click_state == ClickState::Idle,
            r.modifiers == (Modifiers { shift: false, ctrl: false, alt: false, logo: false }),
            !r.ignores_chars(),
            r.preedit is None,
            r.state.selection_range is None,
            r.reqs() == Seq::<Request>::empty(),
    {
        let context_manager = ContextManager::start(
            (layout.width, layout.height),
            (layout.columns, layout.lines),
        );
        Screen {
            bindings,
            modifiers: Modifiers { shift: false, ctrl: false, alt: false, logo: false },
            ignore_chars: false,
            mouse: Mouse::new(scroll_multiplier),
            preedit: None,
            state: RenderState {
                selection_range: None,
                cursor: Pos { row: 0, col: 0 },
                display_offset: 0,
                preedit: None,
            },
            layout,
            context_manager,
            requests: Vec::new(),
        }
    }

    pub fn ctx(&self) -> (r: &ContextManager)
        ensures
            *r == self.cm(),
    {
        &self.context_manager
    }

    pub fn ctx_mut(&mut self) -> (r: &mut ContextManager)
        ensures
            *r == old(self).cm(),
            final(self).cm() == *final(r),
            frame(*old(self), *final(self)),
            final(self).state == old(self).state,
    {
        &mut self.context_manager
    }

    /// Takes the held modifiers; a change forgets the current session's
    /// accumulated wheel movement.
    pub fn set_modifiers(&mut self, modifiers: Modifiers)
        requires
            old(self).wf(),
        ensures
            final(self).wf(),
            modifiers == old(self).modifiers ==> *final(self) == *old(self),
            modifiers != old(self).modifiers ==> {
                &&& frame(Screen { modifiers, ..*old(self) }, *final(self))
                &&& final(self).state == old(self).state
                &&& current_replaced(old(self).cm(), final(self).cm())
                &&& final(self).cm().cur() == (Context {
                    scroll: AccumulatedScroll { x: 0, y: 0 },
                    ..old(self).cm().cur()
                })
            },
    {
        if modifiers != self.modifiers {
            self.modifiers = modifiers;
            self.reset_mouse();
        }
    }

    /// Forgets the current session's accumulated wheel movement.
    pub fn reset_mouse(&mut self)
        requires
            old(self).wf(),
        ensures
            final(self).wf(),
            frame(*old(self), *final(self)),
            final(self).state == old(self).state,
            current_replaced(old(self).cm(), final(self).cm()),
            final(self).cm().cur() == (Context {
                scroll: AccumulatedScroll { x: 0, y: 0 },
                ..old(self).cm().cur()
            }),
    {
        self.context_manager.set_current_scroll(AccumulatedScroll { x: 0, y: 0 });
    }

    /// The cell under the pointer, relative to a viewport `display_offset`
    /// lines into the scrollback.
    pub fn mouse_position(&self, display_offset: usize) -> (r: Pos)
        requires
            self.wf(),
            display_offset <= i32::MAX,
        ensures
            r == self.lay().cell_at_spec(self.mouse.x, self.mouse.y, display_offset),
    {
        self.layout.cell_at(self.mouse.x, self.mouse.y, display_offset)
    }

    pub fn get_mode(&self) -> (r: u32)
        requires
            self.wf(),
        ensures
            r == self.term().mode,
    {
        self.context_manager.current().terminal.mode()
    }

    pub fn display_offset(&self) -> (r: usize)
        requires
            self.wf(),
        ensures
            r == self.term().display_offset,
    {
        self.context_manager.current().terminal.display_offset()
    }

    /// Whether mouse events go to the terminal: a reporting mode is on and
    /// vi mode is off.
    pub fn mouse_mode(&self) -> (r: bool)
        requires
            self.wf(),
        ensures
            r == (has_any(self.term().mode, MODE_MOUSE_MODE) && !has_all(self.term().mode, MODE_VI)),
    {
        let mode = self.get_mode();
        intersects(mode, MODE_MOUSE_MODE) && !contains(mode, MODE_VI)
    }

    pub fn has_mouse_motion_and_drag(&self) -> (r: bool)
        requires
            self.wf(),
        ensures
            r == has_any(self.term().mode, (MODE_MOUSE_MOTION | MODE_MOUSE_DRAG) as u32),
    {
        intersects(self.get_mode(), MODE_MOUSE_MOTION | MODE_MOUSE_DRAG)
    }

    pub fn has_mouse_motion(&self) -> (r: bool)
        requires
            self.wf(),
        ensures
            r == has_any(self.term().mode, MODE_MOUSE_MOTION),
    {
        intersects(self.get_mode(), MODE_MOUSE_MOTION)
    }

    pub fn selection_is_empty(&self) -> (r: bool)
        ensures
            r == self.state.selection_range is None,
    {
        self.state.selection_range.is_none()
    }

    pub fn contains_point(&self, x: usize, y: usize) -> (r: bool)
        requires
            self.wf(),
        ensures
            r == self.lay().contains_point_spec(x, y),
    {
        self.layout.contains_point(x, y)
    }

    pub fn side_by_pos(&self, x: usize) -> (r: Side)
        requires
            self.wf(),
        ensures
            r == self.lay().side_spec(x),
    {
        self.layout.side_by_pos(x)
    }

    /// Asks for a font size change; the new layout comes back through `resize`.
    pub fn change_font_size(&mut self, action: FontSizeAction)
        ensures
            *final(self) == (Screen {
                requests: final(self).requests,
                ..*old(self)
            }),
            final(self).reqs() == old(self).reqs().push(Request::ChangeFontSize(action)),
    {
        self.requests.push(Request::ChangeFontSize(action));
    }

    /// Hands out the requests made so far, oldest first.
    pub fn take_requests(&mut self) -> (r: Vec<Request>)
        ensures
            r@ == old(self).reqs(),
            *final(self) == (Screen { requests: final(self).requests, ..*old(self) }),
            final(self).reqs() == Seq::<Request>::empty(),
    {
        let mut out: Vec<Request> = Vec::new();
        std::mem::swap(&mut out, &mut self.requests);
        out
    }

    /// Resizes every session's grid to `columns` x `lines`, then tells each
    /// pseudo-terminal the new size.
    pub fn resize_all_contexts(&mut self, width: u16, height: u16, columns: usize, lines: usize)
        requires
            old(self).wf(),
            fits_grid(columns, lines),
        ensures
            final(self).wf(),
            frame(*old(self), *final(self)),
            final(self).state == old(self).state,
            resize_all_step(old(self).cm(), final(self).cm(), width, height, columns, lines),
    {
        self.context_manager.resize_all(width, height, columns, lines);
    }

    /// Takes the renderer's new geometry and resizes every session to it.
    pub fn resize(&mut self, layout: Layout)
        requires
            old(self).wf(),
            layout.wf(),
        ensures
            final(self).wf(),
            final(self).lay() == layout,
            frame(*old(self), Screen { layout: old(self).layout, ..*final(self) }),
            final(self).state == old(self).state,
            resize_all_step(
                old(self).cm(),
                final(self).cm(),
                layout.width as u16,
                layout.height as u16,
                layout.columns,
                layout.lines,
            ),
    {
        self.layout = layout;
        self.resize_all_contexts(
            layout.width as u16,
            layout.height as u16,
            layout.columns,
            layout.lines,
        );
    }

    /// Drops the selection from the grid and from the render state.
    pub fn clear_selection(&mut self)
        requires
            old(self).wf(),
        ensures
            final(self).wf(),
            frame(*old(self), *final(self)),
            current_replaced(old(self).cm(), final(self).cm()),
            final(self).cm().cur() == (Context {
                terminal: Terminal { selection: None, ..old(self).term() },
                ..old(self).cm().cur()
            }),
            final(self).state == (RenderState { selection_range: None, ..old(self).state }),
    {
        let mut t = self.context_manager.current().terminal;
        t.selection = None;
        self.context_manager.set_current_terminal(t);
        self.state.selection_range = None;
    }

    /// Brings the viewport back to the bottom if it is in the scrollback.
    pub fn scroll_bottom_when_cursor_not_visible(&mut self)
        requires
            old(self).wf(),
        ensures
            final(self).wf(),
            frame(*old(self), *final(self)),
            final(self).state == old(self).state,
            current_replaced(old(self).cm(), final(self).cm()),
            final(self).cm().cur() == (Context {
                terminal: Terminal { display_offset: 0, ..old(self).term() },
                ..old(self).cm().cur()
            }),
    {
        let mut t = self.context_manager.current().terminal;
        if t.display_offset() != 0 {
            t.scroll_display(Scroll::Bottom);
        }
        self.context_manager.set_current_terminal(t);
    }

    /// A typed character: ignored while text is being composed or right
    /// after a binding consumed the key; otherwise the selection is cleared,
    /// the viewport returns to the bottom and the character is sent.
    pub fn input_character(&mut self, character: char)
        requires
            old(self).wf(),
        ensures
            final(self).wf(),
            old(self).preedit is Some || old(self).ignores_chars() ==> *final(self) == *old(self),
            !(old(self).preedit is Some || old(self).ignores_chars()) ==> {
                &&& frame(*old(self), *final(self))
                &&& final(self).state == (RenderState { selection_range: None, ..old(self).state })
                &&& current_replaced(old(self).cm(), final(self).cm())
                &&& sent_bytes(
                    Context {
                        terminal: Terminal {
                            selection: None,
                            display_offset: 0,
                            ..old(self).term()
                        },
                        ..old(self).cm().cur()
                    },
                    final(self).cm().cur(),
                    char_input_bytes(character, old(self).modifiers.alt),
                )
            },
    {
        if self.preedit.is_some() || self.ignore_chars {
            return;
        }
        self.clear_selection();
        self.scroll_bottom_when_cursor_not_visible();
        let utf8 = encode_char(character);
        let bytes = if self.modifiers.alt() && utf8.len() == 1 {
            let mut b: Vec<u8> = vec![ESC];
            b.push(utf8[0]);
            assert(b@ =~= seq![ESC] + char_utf8(character));
            b
        } else {
            utf8
        };
        self.context_manager.send_bytes(bytes);
    }

    /// Sends pasted text. In bracketed-paste mode, when asked for, the text
    /// goes between the paste start and end sequences without escape and
    /// end-of-text bytes; otherwise its line endings become carriage returns.
    pub fn paste(&mut self, text: &str, bracketed: bool)
        requires
            old(self).wf(),
        ensures
            final(self).wf(),
            frame(*old(self), *final(self)),
            final(self).state == old(self).state,
            current_replaced(old(self).cm(), final(self).cm()),
            final(self).term() == old(self).term(),
            final(self).cm().cur().id == old(self).cm().cur().id,
            final(self).cm().cur().messenger.is_open() == old(self).cm().cur().messenger.is_open(),
            final(self).cm().cur().messenger.pending() == if !old(self).cm().cur().messenger.is_open() {
                old(self).cm().cur().messenger.pending()
            } else if bracketed && has_all(old(self).term().mode, MODE_BRACKETED_PASTE) {
                old(self).cm().cur().messenger.pending()
                    .push(bytes_msg(seq![ESC, 0x5b, 0x32, 0x30, 0x30, 0x7e]))
                    .push(bytes_msg(strip_paste_controls(encode_utf8(text@))))
                    .push(bytes_msg(seq![ESC, 0x5b, 0x32, 0x30, 0x31, 0x7e]))
            } else {
                old(self).cm().cur().messenger.pending().push(bytes_msg(normalize_newlines(encode_utf8(text@))))
            },
    {
        let bytes = text.as_bytes();
        if bracketed && contains(self.get_mode(), MODE_BRACKETED_PASTE) {
            let start: Vec<u8> = vec![ESC, 0x5b, 0x32, 0x30, 0x30, 0x7e];
            assert(start@ =~= seq![ESC, 0x5b, 0x32, 0x30, 0x30, 0x7e]);
            self.context_manager.send_bytes(start);
            self.context_manager.send_bytes(stripped_paste_controls(bytes));
            let end: Vec<u8> = vec![ESC, 0x5b, 0x32, 0x30, 0x31, 0x7e];
            assert(end@ =~= seq![ESC, 0x5b, 0x32, 0x30, 0x31, 0x7e]);
            self.context_manager.send_bytes(end);
        } else {
            self.context_manager.send_bytes(normalized_newlines(bytes));
        }
    }

    /// Reports a mouse button event to the terminal, in the encoding its
    /// mode asks for; nothing is sent for a position above the viewport or
    /// one the legacy encoding cannot carry.
    pub fn mouse_report(&mut self, button: u8, state: ElementState)
        requires
            old(self).wf(),
            button <= 195,
        ensures
            final(self).wf(),
            frame(*old(self), *final(self)),
            final(self).state == old(self).state,
            match mouse_report_spec(
                old(self).lay().cell_at_spec(old(self).mouse.x, old(self).mouse.y, old(self).term().display_offset),
                button,
                state,
                old(self).modifiers,
                old(self).term().mode,
            ) {
                Some(b) => current_replaced(old(self).cm(), final(self).cm())
                    && sent_bytes(old(self).cm().cur(), final(self).cm().cur(), b),
                None => final(self).cm() == old(self).cm(),
            },
    {
        let t = self.context_manager.current().terminal;
        let pos = self.mouse_position(t.display_offset());
        match encode_mouse_report(pos, button, state, self.modifiers, t.mode()) {
            Some(bytes) => self.context_manager.send_bytes(bytes),
            None => {},
        }
    }

    /// A wheel event of `dx`, `dy` pixels. On the alternate screen with
    /// alternate scroll on (and Shift up) it sends one arrow key per whole
    /// cell crossed; otherwise it scrolls the viewport by the whole lines
    /// crossed, scaled by the multiplier. What is left under one cell stays
    /// for the next event, wrapped to the window size.
    pub fn scroll(&mut self, dx: i32, dy: i32)
        requires
            old(self).wf(),
        ensures
            final(self).wf(),
            scroll_step(*old(self), *final(self), dx, dy),
    {
        let width = self.layout.width as u64;
        let height = self.layout.height as u64;
        let acc = self.context_manager.current().scroll;
        let mode = self.get_mode();
        if contains(mode, MODE_ALT_SCREEN | MODE_ALTERNATE_SCROLL) && !self.modifiers.shift() {
            let tx = acc.x + dx as i64;
            let ty = acc.y + dy as i64;
            let (lines, rest_y) = wheel_step(ty, self.layout.cell_height as u64);
            let (columns, rest_x) = wheel_step(tx, self.layout.cell_width as u64);
            proof {
                crate::mouse::lemma_wheel_threshold(acc.y as int, dy as int, self.layout.cell_height as int);
                crate::mouse::lemma_wheel_threshold(acc.x as int, dx as int, self.layout.cell_width as int);
            }
            let line_cmd: u8 = if dy > 0 { 0x41 } else { 0x42 };
            let column_cmd: u8 = if dx > 0 { 0x44 } else { 0x43 };
            let nl: u64 = if lines >= 0 { lines as u64 } else { (-lines) as u64 };
            let nc: u64 = if columns >= 0 { columns as u64 } else { (-columns) as u64 };
            let mut content: Vec<u8> = Vec::new();
            push_arrow_keys(&mut content, line_cmd, nl);
            push_arrow_keys(&mut content, column_cmd, nc);
            assert(content@ =~= wheel_key_bytes(self.layout, tx as int, ty as int, dx as int, dy as int));
            if content.len() > 0 {
                self.context_manager.send_bytes(content);
            }
            self.context_manager.set_current_scroll(
                AccumulatedScroll { x: wrap(rest_x, width), y: wrap(rest_y, height) },
            );
        } else {
            let a = dy as i64;
            let b = self.mouse.multiplier as i64;
            assert(-0x4000_0000_0000_0000 <= a * b <= 0x4000_0000_0000_0000) by (nonlinear_arith)
                requires
                    -0x8000_0000 <= a <= 0x7fff_ffff,
                    -0x8000_0000 <= b <= 0x7fff_ffff,
            ;
            let d: i64 = a * b;
            let ty = acc.y + d;
            let (lines, rest_y) = wheel_step(ty, self.layout.cell_height as u64);
            proof {
                crate::mouse::lemma_wheel_threshold(acc.y as int, d as int, self.layout.cell_height as int);
            }
            if lines != 0 {
                let mut t = self.context_manager.current().terminal;
                t.scroll_display(Scroll::Delta(lines));
                self.context_manager.set_current_terminal(t);
            }
            self.context_manager.set_current_scroll(
                AccumulatedScroll { x: wrap(acc.x, width), y: wrap(rest_y, height) },
            );
        }
    }

    /// Draws a frame: the render state is recomputed from the current
    /// session's grid.
    pub fn render(&mut self)
        requires
            old(self).wf(),
        ensures
            final(self).wf(),
            final(self).cm() == old(self).cm(),
            frame(*old(self), Screen { requests: old(self).requests, ..*final(self) }),
            rendered(*old(self), *final(self)),
    {
        let t = self.context_manager.current().terminal;
        self.state.display_offset = t.display_offset();
        self.state.cursor = t.cursor;
        self.state.selection_range = match t.selection {
            Some(sel) => sel.to_range(t.columns),
            None => None,
        };
        self.state.preedit = match &self.preedit {
            Some(p) => Some(p.clone()),
            None => None,
        };
        self.requests.push(Request::Redraw);
    }

    /// Puts `text`, the grid's text for its selection, in clipboard slot
    /// `ty`; for the selection slot, in the clipboard slot too. Nothing
    /// happens without text.
    pub fn copy_selection(&mut self, ty: ClipboardType, text: Option<String>)
        ensures
            *final(self) == (Screen { requests: final(self).requests, ..*old(self) }),
            final(self).reqs() == copy_requests(old(self).reqs(), ty, text),
    {
        let text = match text {
            Some(t) => t,
            None => return,
        };
        if text.as_str().is_empty() {
            return;
        }
        if ty == ClipboardType::Selection {
            self.requests.push(Request::Store(ClipboardType::Clipboard, text.clone()));
        }
        self.requests.push(Request::Store(ty, text));
    }

    /// Starts a selection at `point`, after copying `text`, the text of the
    /// selection it replaces, to the selection slot.
    fn start_selection(&mut self, ty: SelectionType, point: Pos, side: Side, text: Option<String>)
        requires
            old(self).wf(),
        ensures
            final(self).wf(),
            final(self).reqs() == copy_requests(old(self).reqs(), ClipboardType::Selection, text),
            frame(*old(self), Screen { requests: old(self).requests, ..*final(self) }),
            current_replaced(old(self).cm(), final(self).cm()),
            final(self).cm().cur() == (Context {
                terminal: Terminal { selection: Some(fresh_selection(ty, point, side)), ..old(self).term() },
                ..old(self).cm().cur()
            }),
            final(self).state == (RenderState {
                selection_range: range_of(fresh_selection(ty, point, side), old(self).term().columns),
                ..old(self).state
            }),
    {
        self.copy_selection(ClipboardType::Selection, text);
        let mut t = self.context_manager.current().terminal;
        let selection = Selection::new(ty, point, side);
        self.state.selection_range = selection.to_range(t.columns);
        t.selection = Some(selection);
        self.context_manager.set_current_terminal(t);
    }

    /// A left click at `point`, classified by `mouse.click_state`: a click
    /// starts a simple selection (a block one with Ctrl held), a double
    /// click a semantic one, a triple click one of whole lines. Double and
    /// triple clicks first copy `selection_text`, the grid's text for the
    /// selection they replace, to the selection slot. In vi mode the vi
    /// cursor moves to `point`.
    pub fn on_left_click(&mut self, point: Pos, selection_text: Option<String>)
        requires
            old(self).wf(),
        ensures
            final(self).wf(),
            frame(*old(self), Screen { requests: old(self).requests, ..*final(self) }),
            current_replaced(old(self).cm(), final(self).cm()),
            ({
                let t0 = old(self).term();
                let sel = click_selection(
                    old(self).mouse.click_state,
                    old(self).modifiers.ctrl,
                    point,
                    old(self).mouse.square_side,
                );
                &&& final(self).cm().cur() == (Context {
                    terminal: Terminal {
                        selection: if sel is Some { sel } else { t0.selection },
                        vi_cursor: if has_all(t0.mode, MODE_VI) { point } else { t0.vi_cursor },
                        ..t0
                    },
                    ..old(self).cm().cur()
                })
                &&& final(self).state == (RenderState {
                    selection_range: match sel {
                        Some(s) => range_of(s, t0.columns),
                        None => old(self).state.selection_range,
                    },
                    ..old(self).state
                })
                &&& final(self).reqs() == match old(self).mouse.click_state {
                    ClickState::DoubleClick | ClickState::TripleClick => copy_requests(
                        old(self).reqs(),
                        ClipboardType::Selection,
                        selection_text,
                    ),
                    _ => old(self).reqs(),
                }
            }),
    {
        let side = self.mouse.square_side;
        match self.mouse.click_state {
            ClickState::Click => {
                self.clear_selection();
                if self.modifiers.ctrl() {
                    self.start_selection(SelectionType::Block, point, side, None);
                } else {
                    self.start_selection(SelectionType::Simple, point, side, None);
                }
            },
            ClickState::DoubleClick => {
                self.start_selection(SelectionType::Semantic, point, side, selection_text);
            },
            ClickState::TripleClick => {
                self.start_selection(SelectionType::Lines, point, side, selection_text);
            },
            ClickState::Idle => {},
        }
        let mut t = self.context_manager.current().terminal;
        if contains(t.mode(), MODE_VI) {
            t.vi_cursor = point;
        }
        self.context_manager.set_current_terminal(t);
    }

    /// Moves the free end of the current selection to `pos` (rows below the
    /// last visible line count as the last line). In vi mode the vi cursor
    /// follows and the selection covers whole cells.
    pub fn update_selection(&mut self, pos: Pos, side: Side)
        requires
            old(self).wf(),
        ensures
            final(self).wf(),
            old(self).term().selection is None ==> *final(self) == *old(self),
            old(self).term().selection matches Some(sel) ==> {
                let t0 = old(self).term();
                let p = Pos {
                    row: if pos.row < t0.screen_lines - 1 { pos.row } else { (t0.screen_lines - 1) as i32 },
                    col: pos.col,
                };
                let moved = Selection { end: Anchor { pos: p, side }, ..sel };
                let vi = has_all(t0.mode, MODE_VI);
                let next = if vi { widened(moved) } else { moved };
                &&& frame(*old(self), *final(self))
                &&& current_replaced(old(self).cm(), final(self).cm())
                &&& final(self).cm().cur() == (Context {
                    terminal: Terminal {
                        selection: Some(next),
                        vi_cursor: if vi { p } else { t0.vi_cursor },
                        ..t0
                    },
                    ..old(self).cm().cur()
                })
                &&& final(self).state == (RenderState {
                    selection_range: range_of(next, t0.columns),
                    ..old(self).state
                })
            },
    {
        let mut t = self.context_manager.current().terminal;
        let mut selection = match t.selection {
            Some(s) => s,
            None => return,
        };
        let bottom = t.bottommost_line();
        let p = Pos { row: if pos.row < bottom { pos.row } else { bottom }, col: pos.col };
        selection.update(p, side);
        if contains(t.mode(), MODE_VI) {
            t.vi_cursor = p;
            selection.include_all();
        }
        self.state.selection_range = selection.to_range(t.columns);
        t.selection = Some(selection);
        self.context_manager.set_current_terminal(t);
    }

    /// While dragging at pointer height `mouse_y` near the top or bottom edge
    /// of the text area, scrolls the viewport by the distance past the edge.
    pub fn update_selection_scrolling(&mut self, mouse_y: i32)
        requires
            old(self).wf(),
        ensures
            final(self).wf(),
            frame(*old(self), *final(self)),
            final(self).state == old(self).state,
            match old(self).lay().selection_scroll_spec(mouse_y as int) {
                Some(n) => current_replaced(old(self).cm(), final(self).cm())
                    && final(self).cm().cur() == (Context {
                        terminal: Terminal {
                            display_offset: scrolled_offset(
                                old(self).term().display_offset,
                                old(self).term().history_size,
                                Scroll::Delta(n as i64),
                            ),
                            ..old(self).term()
                        },
                        ..old(self).cm().cur()
                    }),
                None => final(self).cm() == old(self).cm(),
            },
    {
        match self.layout.selection_scroll_lines(mouse_y) {
            Some(n) => {
                let mut t = self.context_manager.current().terminal;
                t.scroll_display(Scroll::Delta(n));
                self.context_manager.set_current_terminal(t);
            },
            None => {},
        }
    }

    /// Performs one binding action.
    pub fn perform_action(&mut self, action: &Action)
        requires
            old(self).wf(),
        ensures
            final(self).wf(),
            action_step(*old(self), *final(self), *action),
    {
        match action {
            Action::Esc(s) => {
                let bytes = normalized_newlines(s.as_str().as_bytes());
                self.context_manager.send_bytes(bytes);
            },
            Action::Paste => {
                self.requests.push(Request::Paste(ClipboardType::Clipboard));
            },
            Action::PasteSelection => {
                self.requests.push(Request::Paste(ClipboardType::Selection));
            },
            Action::Copy => {
                self.requests.push(Request::Copy(ClipboardType::Clipboard));
            },
            Action::ViMotion(motion) => {
                let mut t = self.context_manager.current().terminal;
                t.vi_motion(*motion);
                self.context_manager.set_current_terminal(t);
            },
            Action::WindowCreateNew => {
                self.requests.push(Request::CreateWindow);
            },
            Action::TabCreateNew => {
                if self.context_manager.next_id() < u64::MAX {
                    self.context_manager.add_context(
                        true,
                        (self.layout.width, self.layout.height),
                        (self.layout.columns, self.layout.lines),
                    );
                    self.render();
                }
            },
            Action::TabSwitchNext => {
                self.context_manager.switch_to_next();
                self.render();
            },
            Action::TabCloseCurrent => {
                self.context_manager.close_context();
                self.render();
            },
            Action::IncreaseFontSize => {
                self.change_font_size(FontSizeAction::Increase);
            },
            Action::DecreaseFontSize => {
                self.change_font_size(FontSizeAction::Decrease);
            },
            Action::ResetFontSize => {
                self.change_font_size(FontSizeAction::Reset);
            },
            Action::ReceiveChar | Action::Nothing => {},
        }
    }

    /// A key event: every binding that fires, in table order, has its action
    /// performed, and the next typed character is suppressed iff some
    /// binding fired and none of them lets characters through. Ignored while
    /// text is being composed.
    pub fn input_keycode(&mut self, keycode: Option<u32>, scancode: u32)
        requires
            old(self).wf(),
        ensures
            final(self).wf(),
            old(self).preedit is Some ==> *final(self) == *old(self),
            old(self).preedit is None ==> {
                let idx = fired(old(self).binds(), old(self).term().mode, old(self).modifiers, keycode, scancode);
                &&& final(self).binds() == old(self).binds()
                &&& final(self).ignores_chars() == suppresses_chars(old(self).binds(), idx)
                &&& exists|trace: Seq<Screen>| {
                    &&& performed(trace, *old(self), actions_at(old(self).binds(), idx))
                    &&& *final(self) == (Screen {
                        bindings: old(self).bindings,
                        ignore_chars: final(self).ignore_chars,
                        ..trace.last()
                    })
                }
            },
    {
        if self.preedit.is_some() {
            return;
        }
        let mode = self.get_mode();
        let idx = resolve(&self.bindings, mode, self.modifiers, keycode, scancode);
        let ghost acts = actions_at(old(self).binds(), idx@);
        let mut bindings: Vec<KeyBinding> = Vec::new();
        std::mem::swap(&mut bindings, &mut self.bindings);
        proof {
            crate::bindings::lemma_fired_prefix_members(
                old(self).binds(),
                old(self).binds().len(),
                mode,
                old(self).modifiers,
                keycode,
                scancode,
            );
        }
        let ghost trace: Seq<Screen> = seq![*self];
        let mut suppress = idx.len() > 0;
        let mut k: usize = 0;
        while k < idx.len()
            invariant
                self.wf(),
                bindings@ == old(self).binds(),
                idx@ == fired(old(self).binds(), mode, old(self).modifiers, keycode, scancode),
                forall|j: int| 0 <= j < idx@.len() ==> #[trigger] idx@[j] < bindings@.len(),
                acts == actions_at(old(self).binds(), idx@),
                k <= idx@.len(),
                trace.len() == k + 1,
                trace[0] == (Screen { bindings: trace[0].bindings, ..*old(self) }),
                forall|j: int| 0 <= j < k ==> action_step(#[trigger] trace[j], trace[j + 1], acts[j]),
                trace.last() == *self,
                suppress == (idx@.len() > 0 && forall|j: int|
                    0 <= j < k ==> !((#[trigger] bindings@[idx@[j] as int]).action is ReceiveChar)),
            decreases idx@.len() - k,
        {
            let i = idx[k];
            let action = &bindings[i];
            if action.action.is_receive_char() {
                suppress = false;
            }
            self.perform_action(&action.action);
            proof {
                trace = trace.push(*self);
            }
            k = k + 1;
        }
        std::mem::swap(&mut bindings, &mut self.bindings);
        self.ignore_chars = suppress;
        assert(performed(trace, *old(self), acts));
    }

    /// Closes the current tab if the window has another; says whether it did.
    pub fn try_close_existent_tab(&mut self) -> (r: bool)
        requires
            old(self).wf(),
        ensures
            final(self).wf(),
            r == (old(self).cm().ctxs().len() > 1),
            frame(*old(self), *final(self)),
            final(self).state == old(self).state,
            r ==> close_step(old(self).cm(), final(self).cm()),
            !r ==> final(self).cm() == old(self).cm(),
    {
        if self.context_manager.len() > 1 {
            self.context_manager.close_context();
            return true;
        }
        false
    }
}

} // verus!
