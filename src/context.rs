use vstd::prelude::*;

use crate::messenger::{bytes_msg, resize_msg, sent_of, Message, Messenger, Sent, WinSize};
use crate::mouse::AccumulatedScroll;
use crate::terminal::{clamp_pos, fresh_terminal, Terminal};

verus! {

/// One session: a pseudo-terminal, its grid and its outbound channel.
#[derive(Debug)]
pub struct Context {
    pub id: u64,
    pub terminal: Terminal,
    pub messenger: Messenger,
    pub width: u32,
    pub height: u32,
    /// Wheel movement of this session not yet turned into lines or columns.
    pub scroll: AccumulatedScroll,
}

/// Whether `columns` x `lines` is a grid size a session can take.
pub open spec fn fits_grid(columns: usize, lines: usize) -> bool {
    1 <= columns && 1 <= lines <= i32::MAX
}

/// The sessions of one window, in tab order, and which one is current.
#[derive(Debug)]
pub struct ContextManager {
    contexts: Vec<Context>,
    current_index: usize,
    next_id: u64,
    terminated: Vec<u64>,
}

/// What `add_context` does: a fresh session with the next id is appended;
/// with `redirect` it becomes current, else the current one stays.
pub open spec fn add_step(
    o: ContextManager,
    n: ContextManager,
    redirect: bool,
    size: (u32, u32),
    dims: (usize, usize),
) -> bool {
    &&& n.ctxs().len() == o.ctxs().len() + 1
    &&& n.ctxs().last().width == size.0
    &&& n.ctxs().last().height == size.1
    &&& n.ctxs().last().scroll == (AccumulatedScroll { x: 0, y: 0 })
    &&& n.ctxs().drop_last() == o.ctxs()
    &&& n.ctxs().last().id == o.next_id_spec()
    &&& n.ctxs().last().terminal == fresh_terminal(dims.0, dims.1)
    &&& n.ctxs().last().messenger.is_open()
    &&& n.ctxs().last().messenger.pending() == Seq::<Sent>::empty()
    &&& n.current_idx() as int == if redirect {
        o.ctxs().len() as int
    } else {
        o.current_idx() as int
    }
    &&& n.next_id_spec() == o.next_id_spec() + 1
    &&& n.terminated_ids() == o.terminated_ids()
}

/// What `close_context` does: nothing when one session is left; otherwise
/// the current session leaves, its id is queued for termination, and the one
/// before it (the one after it, for the first) becomes current.
pub open spec fn close_step(o: ContextManager, n: ContextManager) -> bool {
    &&& n.next_id_spec() == o.next_id_spec()
    &&& o.ctxs().len() == 1 ==> n.ctxs() == o.ctxs() && n.current_idx() == o.current_idx()
        && n.terminated_ids() == o.terminated_ids()
    &&& o.ctxs().len() > 1 ==> {
        &&& n.ctxs() == o.ctxs().remove(o.current_idx() as int)
        &&& n.current_idx() == if o.current_idx() > 0 {
            o.current_idx() - 1
        } else {
            0
        }
        &&& n.terminated_ids() == o.terminated_ids().push(o.cur().id)
    }
}

/// Closing a tab: with one session the collection is left as it is; with
/// `N > 1` sessions `N - 1` remain and the current index stays valid.
pub proof fn lemma_close_keeps_current_valid(o: ContextManager, n: ContextManager)
    requires
        o.wf(),
        n.wf(),
        close_step(o, n),
    ensures
        o.ctxs().len() == 1 ==> n.ctxs().len() == 1,
        o.ctxs().len() > 1 ==> n.ctxs().len() == o.ctxs().len() - 1 && n.current_idx() < o.ctxs().len() - 1,
{
}

/// Adding a session and closing the current one at once gives back as many
/// sessions as before. When the new session was made current and the
/// previous current one was the last tab, that one is current again.
pub proof fn lemma_add_then_close(
    m0: ContextManager,
    m1: ContextManager,
    m2: ContextManager,
    redirect: bool,
    size: (u32, u32),
    dims: (usize, usize),
)
    requires
        m0.wf(),
        m1.wf(),
        add_step(m0, m1, redirect, size, dims),
        close_step(m1, m2),
    ensures
        m2.ctxs().len() == m0.ctxs().len(),
        redirect && m0.current_idx() == m0.ctxs().len() - 1 ==> m2.current_idx() == m0.current_idx()
            && m2.cur() == m0.cur(),
{
    if redirect {
        assert(m1.ctxs().remove(m1.current_idx() as int) =~= m1.ctxs().drop_last());
    }
}

/// What `switch_to_next` does: the next session, cyclically, is current.
pub open spec fn switch_step(o: ContextManager, n: ContextManager) -> bool {
    &&& n.ctxs() == o.ctxs()
    &&& n.current_idx() == (o.current_idx() + 1) % (o.ctxs().len() as int)
    &&& n.next_id_spec() == o.next_id_spec()
    &&& n.terminated_ids() == o.terminated_ids()
}

/// What `resize_all` does: every grid takes the new geometry and then every
/// open session is told the new size.
pub open spec fn resize_all_step(
    o: ContextManager,
    n: ContextManager,
    width: u16,
    height: u16,
    columns: usize,
    lines: usize,
) -> bool {
    &&& n.ctxs().len() == o.ctxs().len()
    &&& n.current_idx() == o.current_idx()
    &&& n.next_id_spec() == o.next_id_spec()
    &&& n.terminated_ids() == o.terminated_ids()
    &&& forall|i: int|
        0 <= i < o.ctxs().len() ==> {
            let oc = o.ctxs()[i];
            let nc = #[trigger] n.ctxs()[i];
            &&& nc.id == oc.id
            &&& nc.width == oc.width
            &&& nc.height == oc.height
            &&& nc.scroll == oc.scroll
            &&& nc.terminal == (Terminal {
                columns,
                screen_lines: lines,
                cursor: clamp_pos(oc.terminal.cursor, lines, columns),
                vi_cursor: clamp_pos(oc.terminal.vi_cursor, lines, columns),
                ..oc.terminal
            })
            &&& nc.messenger.is_open() == oc.messenger.is_open()
            &&& nc.messenger.pending() == if oc.messenger.is_open() {
                oc.messenger.pending().push(
                    resize_msg(
                        WinSize { width, height, columns: columns as u16, lines: lines as u16 },
                    ),
                )
            } else {
                oc.messenger.pending()
            }
        }
}

/// `n` differs from `o` at most in the current session.
pub open spec fn current_replaced(o: ContextManager, n: ContextManager) -> bool {
    &&& n.ctxs().len() == o.ctxs().len()
    &&& n.current_idx() == o.current_idx()
    &&& n.next_id_spec() == o.next_id_spec()
    &&& n.terminated_ids() == o.terminated_ids()
    &&& forall|i: int|
        0 <= i < o.ctxs().len() && i != o.current_idx() ==> #[trigger] n.ctxs()[i] == o.ctxs()[i]
}

/// Session `n` is `o` with `b` sent to its pseudo-terminal.
pub open spec fn sent_bytes(o: Context, n: Context, b: Seq<u8>) -> bool {
    &&& n.id == o.id
    &&& n.terminal == o.terminal
    &&& n.width == o.width
    &&& n.height == o.height
    &&& n.scroll == o.scroll
    &&& n.messenger.is_open() == o.messenger.is_open()
    &&& n.messenger.pending() == if o.messenger.is_open() {
        o.messenger.pending().push(bytes_msg(b))
    } else {
        o.messenger.pending()
    }
}

impl ContextManager {
    /// The sessions, in tab order.
    pub closed spec fn ctxs(&self) -> Seq<Context> {
        self.contexts@
    }

    pub closed spec fn current_idx(&self) -> usize {
        self.current_index
    }

    /// The id the next session will get.
    pub closed spec fn next_id_spec(&self) -> u64 {
        self.next_id
    }

    /// Ids of closed sessions whose processes are still to be terminated.
    pub closed spec fn terminated_ids(&self) -> Seq<u64> {
        self.terminated@
    }

    pub open spec fn wf(&self) -> bool {
        &&& self.ctxs().len() >= 1
        &&& self.current_idx() < self.ctxs().len()
        &&& forall|i: int|
            0 <= i < self.ctxs().len() ==> (#[trigger] self.ctxs()[i]).terminal.wf()
                && self.ctxs()[i].scroll.wf() && self.ctxs()[i].id < self.next_id_spec()
        &&& forall|i: int, j: int|
            0 <= i < j < self.ctxs().len() ==> (#[trigger] self.ctxs()[i]).id != (#[trigger] self.ctxs()[j]).id
    }

    /// The current session, as a value.
    pub open spec fn cur(&self) -> Context {
        self.ctxs()[self.current_idx() as int]
    }

    /// A manager with one session sized `size` pixels and `dims` cells.
    pub fn start(size: (u32, u32), dims: (usize, usize)) -> (r: ContextManager)
        requires
            fits_grid(dims.0, dims.1),
        ensures
            r.wf(),
            r.ctxs().len() == 1,
            r.current_idx() == 0,
            r.cur().id == 0,
            r.cur().terminal == fresh_terminal(dims.0, dims.1),
            r.cur().width == size.0,
            r.cur().height == size.1,
            r.cur().scroll == (AccumulatedScroll { x: 0, y: 0 }),
            r.cur().messenger.is_open(),
            r.cur().messenger.pending() == Seq::<Sent>::empty(),
            r.terminated_ids() == Seq::<u64>::empty(),
    {
        let first = Context {
            id: 0,
            terminal: Terminal::new(dims.0, dims.1),
            messenger: Messenger::new(),
            width: size.0,
            height: size.1,
            scroll: AccumulatedScroll { x: 0, y: 0 },
        };
        let mut contexts: Vec<Context> = Vec::new();
        contexts.push(first);
        ContextManager { contexts, current_index: 0, next_id: 1, terminated: Vec::new() }
    }

    pub fn len(&self) -> (r: usize)
        ensures
            r == self.ctxs().len(),
    {
        self.contexts.len()
    }

    /// The id the next session will get.
    pub fn next_id(&self) -> (r: u64)
        ensures
            r == self.next_id_spec(),
    {
        self.next_id
    }

    pub fn current_index(&self) -> (r: usize)
        ensures
            r == self.current_idx(),
    {
        self.current_index
    }

    pub fn current(&self) -> (r: &Context)
        requires
            self.wf(),
        ensures
            *r == self.cur(),
    {
        &self.contexts[self.current_index]
    }

    /// The current session, to change in place. Its id stays as it is.
    pub fn current_mut(&mut self) -> (r: &mut Context)
        requires
            old(self).wf(),
        ensures
            *r == old(self).cur(),
            final(self).ctxs() == old(self).ctxs().update(old(self).current_idx() as int, *final(r)),
            final(self).current_idx() == old(self).current_idx(),
            final(self).next_id_spec() == old(self).next_id_spec(),
            final(self).terminated_ids() == old(self).terminated_ids(),
    {
        let i = self.current_index;
        &mut self.contexts[i]
    }

    /// Sends `bytes` to the current session's pseudo-terminal.
    pub fn send_bytes(&mut self, bytes: Vec<u8>)
        requires
            old(self).wf(),
        ensures
            final(self).wf(),
            current_replaced(*old(self), *final(self)),
            sent_bytes(old(self).cur(), final(self).cur(), bytes@),
    {
        let ghost b = bytes@;
        let i = self.current_index;
        self.contexts[i].messenger.send_bytes(bytes);
    }

    /// Puts `t` in place of the current session's grid.
    pub fn set_current_terminal(&mut self, t: Terminal)
        requires
            old(self).wf(),
            t.wf(),
        ensures
            final(self).wf(),
            current_replaced(*old(self), *final(self)),
            final(self).cur() == (Context { terminal: t, ..old(self).cur() }),
    {
        let i = self.current_index;
        self.contexts[i].terminal = t;
        assert(self.ctxs() =~= old(self).ctxs().update(i as int, Context { terminal: t, ..old(self).cur() }));
    }

    /// Puts `acc` in place of the current session's wheel accumulator.
    pub fn set_current_scroll(&mut self, acc: AccumulatedScroll)
        requires
            old(self).wf(),
            acc.wf(),
        ensures
            final(self).wf(),
            current_replaced(*old(self), *final(self)),
            final(self).cur() == (Context { scroll: acc, ..old(self).cur() }),
    {
        let i = self.current_index;
        self.contexts[i].scroll = acc;
        assert(self.ctxs() =~= old(self).ctxs().update(i as int, Context { scroll: acc, ..old(self).cur() }));
    }

    /// The sessions, in tab order.
    pub fn contexts(&self) -> (r: &Vec<Context>)
        ensures
            r@ == self.ctxs(),
    {
        &self.contexts
    }

    /// Appends a new session sized `size` pixels and `dims` cells; with
    /// `redirect` it becomes the current one. The caller spawns its process.
    pub fn add_context(&mut self, redirect: bool, size: (u32, u32), dims: (usize, usize))
        requires
            old(self).wf(),
            fits_grid(dims.0, dims.1),
            old(self).next_id_spec() < u64::MAX,
        ensures
            final(self).wf(),
            add_step(*old(self), *final(self), redirect, size, dims),
    {
        let ctx = Context {
            id: self.next_id,
            terminal: Terminal::new(dims.0, dims.1),
            messenger: Messenger::new(),
            width: size.0,
            height: size.1,
            scroll: AccumulatedScroll { x: 0, y: 0 },
        };
        self.contexts.push(ctx);
        self.next_id = self.next_id + 1;
        if redirect {
            self.current_index = self.contexts.len() - 1;
        }
        assert(self.ctxs().drop_last() =~= old(self).ctxs());
    }

    /// Makes the next session current, wrapping around after the last.
    pub fn switch_to_next(&mut self)
        requires
            old(self).wf(),
        ensures
            final(self).wf(),
            switch_step(*old(self), *final(self)),
    {
        let n = self.contexts.len();
        let c = self.current_index;
        if c >= n - 1 {
            self.current_index = 0;
            assert(old(self).current_idx() + 1 == n);
            assert((n as int) % (n as int) == 0) by (nonlinear_arith)
                requires
                    n > 0,
            ;
        } else {
            self.current_index = self.current_index + 1;
            assert((c + 1) % (n as int) == c + 1) by (nonlinear_arith)
                requires
                    c + 1 < n,
            ;
        }
    }

    /// Closes the current session: its channel is closed, its id is queued
    /// for process termination, it leaves the collection, and the session
    /// before it (or, for the first, the one after it) becomes current. The
    /// last session of a window is never closed here.
    pub fn close_context(&mut self)
        requires
            old(self).wf(),
        ensures
            final(self).wf(),
            final(self).next_id_spec() == old(self).next_id_spec(),
            close_step(*old(self), *final(self)),
    {
        if self.contexts.len() <= 1 {
            return;
        }
        let i = self.current_index;
        let mut closed = self.contexts.remove(i);
        closed.messenger.close();
        self.terminated.push(closed.id);
        if i > 0 {
            self.current_index = i - 1;
        } else {
            self.current_index = 0;
        }
        assert forall|a: int, b: int|
            0 <= a < b < self.ctxs().len() implies (#[trigger] self.ctxs()[a]).id != (#[trigger] self.ctxs()[b]).id by {
            let oa = if a < i { a } else { a + 1 };
            let ob = if b < i { b } else { b + 1 };
            assert(self.ctxs()[a] == old(self).ctxs()[oa]);
            assert(self.ctxs()[b] == old(self).ctxs()[ob]);
        }
    }

    /// Ids of closed sessions whose processes must now be terminated; the
    /// list is emptied.
    pub fn take_terminated(&mut self) -> (r: Vec<u64>)
        requires
            old(self).wf(),
        ensures
            final(self).wf(),
            r@ == old(self).terminated_ids(),
            final(self).terminated_ids() == Seq::<u64>::empty(),
            final(self).ctxs() == old(self).ctxs(),
            final(self).current_idx() == old(self).current_idx(),
            final(self).next_id_spec() == old(self).next_id_spec(),
    {
        let mut out: Vec<u64> = Vec::new();
        std::mem::swap(&mut out, &mut self.terminated);
        out
    }

    /// Hands out, per session in tab order, its id and the messages its
    /// pseudo-terminal writer has not taken yet, oldest first.
    pub fn take_messages(&mut self) -> (r: Vec<(u64, Vec<Message>)>)
        requires
            old(self).wf(),
        ensures
            final(self).wf(),
            r@.len() == old(self).ctxs().len(),
            final(self).ctxs().len() == old(self).ctxs().len(),
            final(self).current_idx() == old(self).current_idx(),
            final(self).next_id_spec() == old(self).next_id_spec(),
            final(self).terminated_ids() == old(self).terminated_ids(),
            forall|i: int|
                0 <= i < old(self).ctxs().len() ==> {
                    let o = old(self).ctxs()[i];
                    let n = #[trigger] final(self).ctxs()[i];
                    &&& r@[i].0 == o.id
                    &&& r@[i].1@.map_values(|m: Message| sent_of(m)) == o.messenger.pending()
                    &&& n == (Context { messenger: n.messenger, ..o })
                    &&& n.messenger.is_open() == o.messenger.is_open()
                    &&& n.messenger.pending() == Seq::<Sent>::empty()
                },
    {
        let mut out: Vec<(u64, Vec<Message>)> = Vec::new();
        let mut i: usize = 0;
        while i < self.contexts.len()
            invariant
                self.wf(),
                i <= self.ctxs().len(),
                out@.len() == i,
                self.ctxs().len() == old(self).ctxs().len(),
                self.current_idx() == old(self).current_idx(),
                self.next_id_spec() == old(self).next_id_spec(),
                self.terminated_ids() == old(self).terminated_ids(),
                forall|k: int| i <= k < self.ctxs().len() ==> #[trigger] self.ctxs()[k] == old(self).ctxs()[k],
                forall|k: int|
                    0 <= k < i ==> {
                        let o = old(self).ctxs()[k];
                        let n = #[trigger] self.ctxs()[k];
                        &&& out@[k].0 == o.id
                        &&& out@[k].1@.map_values(|m: Message| sent_of(m)) == o.messenger.pending()
                        &&& n == (Context { messenger: n.messenger, ..o })
                        &&& n.messenger.is_open() == o.messenger.is_open()
                        &&& n.messenger.pending() == Seq::<Sent>::empty()
                    },
            decreases self.ctxs().len() - i,
        {
            let ctx = &mut self.contexts[i];
            let pending = ctx.messenger.take_pending();
            out.push((ctx.id, pending));
            i = i + 1;
        }
        out
    }

    /// Resizes every session's grid, then tells its pseudo-terminal.
    pub fn resize_all(&mut self, width: u16, height: u16, columns: usize, lines: usize)
        requires
            old(self).wf(),
            fits_grid(columns, lines),
        ensures
            final(self).wf(),
            resize_all_step(*old(self), *final(self), width, height, columns, lines),
    {
        let size = WinSize {
            width,
            height,
            columns: columns as u16,
            lines: lines as u16,
        };
        let mut i: usize = 0;
        while i < self.contexts.len()
            invariant
                self.wf(),
                i <= self.ctxs().len(),
                self.ctxs().len() == old(self).ctxs().len(),
                self.current_idx() == old(self).current_idx(),
                self.next_id_spec() == old(self).next_id_spec(),
                self.terminated_ids() == old(self).terminated_ids(),
                fits_grid(columns, lines),
                size == (WinSize { width, height, columns: columns as u16, lines: lines as u16 }),
                forall|k: int| i <= k < self.ctxs().len() ==> #[trigger] self.ctxs()[k] == old(self).ctxs()[k],
                forall|k: int|
                    0 <= k < i ==> {
                        let o = old(self).ctxs()[k];
                        let n = #[trigger] self.ctxs()[k];
                        &&& n.id == o.id
                        &&& n.width == o.width
                        &&& n.height == o.height
                        &&& n.scroll == o.scroll
                        &&& n.terminal == (Terminal {
                            columns,
                            screen_lines: lines,
                            cursor: clamp_pos(o.terminal.cursor, lines, columns),
                            vi_cursor: clamp_pos(o.terminal.vi_cursor, lines, columns),
                            ..o.terminal
                        })
                        &&& n.messenger.is_open() == o.messenger.is_open()
                        &&& n.messenger.pending() == if o.messenger.is_open() {
                            o.messenger.pending().push(resize_msg(size))
                        } else {
                            o.messenger.pending()
                        }
                    },
            decreases self.ctxs().len() - i,
        {
            let ctx = &mut self.contexts[i];
            ctx.terminal.resize(columns, lines);
            ctx.messenger.send_resize(size);
            i = i + 1;
        }
    }
}

} // verus!
