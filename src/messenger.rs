use vstd::prelude::*;

verus! {

/// A terminal size change for the pseudo-terminal.
#[derive(Clone, Copy, Debug, PartialEq, Eq, Structural)]
pub struct WinSize {
    pub width: u16,
    pub height: u16,
    pub columns: u16,
    pub lines: u16,
}

/// What a session hands to its pseudo-terminal writer.
#[derive(Clone, Debug)]
pub enum Message {
    Bytes(Vec<u8>),
    Resize(WinSize),
}

/// A message as the contracts see it: the bytes it carries, or the size it
/// announces.
pub type Sent = (Seq<u8>, Option<WinSize>);

pub open spec fn bytes_msg(b: Seq<u8>) -> Sent {
    (b, None)
}

pub open spec fn resize_msg(s: WinSize) -> Sent {
    (Seq::empty(), Some(s))
}

pub open spec fn sent_of(m: Message) -> Sent {
    match m {
        Message::Bytes(b) => bytes_msg(b@),
        Message::Resize(s) => resize_msg(s),
    }
}

/// Outbound channel of one session. Messages leave in the order they were
/// sent; once the pseudo-terminal is closed, sends are dropped silently.
#[derive(Debug)]
pub struct Messenger {
    open: bool,
    queue: Vec<Message>,
}

impl Messenger {
    pub closed spec fn is_open(&self) -> bool {
        self.open
    }

    /// Messages sent and not yet taken by the writer, oldest first.
    pub closed spec fn pending(&self) -> Seq<Sent> {
        self.queue@.map_values(|m: Message| sent_of(m))
    }

    pub fn new() -> (r: Messenger)
        ensures
            r.is_open(),
            r.pending() == Seq::<Sent>::empty(),
    {
        let r = Messenger { open: true, queue: Vec::new() };
        assert(r.pending() =~= Seq::<Sent>::empty());
        r
    }

    pub fn is_closed(&self) -> (r: bool)
        ensures
            r == !self.is_open(),
    {
        !self.open
    }

    /// Marks the pseudo-terminal closed; what was not taken yet is dropped.
    pub fn close(&mut self)
        ensures
            !final(self).is_open(),
            final(self).pending() == Seq::<Sent>::empty(),
    {
        self.open = false;
        self.queue = Vec::new();
        assert(self.pending() =~= Seq::<Sent>::empty());
    }

    pub fn send_bytes(&mut self, bytes: Vec<u8>)
        ensures
            final(self).is_open() == old(self).is_open(),
            final(self).pending() == if old(self).is_open() {
                old(self).pending().push(bytes_msg(bytes@))
            } else {
                old(self).pending()
            },
    {
        if self.open {
            self.queue.push(Message::Bytes(bytes));
            assert(self.pending() =~= old(self).pending().push(bytes_msg(bytes@)));
        }
    }

    pub fn send_resize(&mut self, size: WinSize)
        ensures
            final(self).is_open() == old(self).is_open(),
            final(self).pending() == if old(self).is_open() {
                old(self).pending().push(resize_msg(size))
            } else {
                old(self).pending()
            },
    {
        if self.open {
            self.queue.push(Message::Resize(size));
            assert(self.pending() =~= old(self).pending().push(resize_msg(size)));
        }
    }

    /// Hands the pending messages to the writer, oldest first.
    pub fn take_pending(&mut self) -> (r: Vec<Message>)
        ensures
            r@.map_values(|m: Message| sent_of(m)) == old(self).pending(),
            final(self).pending() == Seq::<Sent>::empty(),
            final(self).is_open() == old(self).is_open(),
    {
        let mut out: Vec<Message> = Vec::new();
        std::mem::swap(&mut out, &mut self.queue);
        assert(self.pending() =~= Seq::<Sent>::empty());
        out
    }
}

} // verus!
