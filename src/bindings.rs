use vstd::prelude::*;

use crate::input::{has_all, has_any, Modifiers};

verus! {

/// What triggers a binding: a virtual key code or a hardware scan code.
#[derive(Clone, Copy, Debug, PartialEq, Eq, Structural)]
pub enum Key {
    Keycode(u32),
    Scancode(u32),
}

#[derive(Clone, Copy, Debug, PartialEq, Eq, Structural)]
pub enum FontSizeAction {
    Increase,
    Decrease,
    Reset,
}

/// Cursor motions of vi mode.
#[derive(Clone, Copy, Debug, PartialEq, Eq, Structural)]
pub enum ViMotion {
    Up,
    Down,
    Left,
    Right,
    First,
    Last,
}

/// What a binding does when it fires.
#[derive(Clone, Debug)]
pub enum Action {
    /// Write an escape sequence to the terminal.
    Esc(String),
    Paste,
    PasteSelection,
    Copy,
    ViMotion(ViMotion),
    WindowCreateNew,
    TabCreateNew,
    TabSwitchNext,
    TabCloseCurrent,
    IncreaseFontSize,
    DecreaseFontSize,
    ResetFontSize,
    /// Let the character through to the terminal.
    ReceiveChar,
    Nothing,
}

impl Action {
    pub fn is_receive_char(&self) -> (r: bool)
        ensures
            r == (*self is ReceiveChar),
    {
        matches!(self, Action::ReceiveChar)
    }
}

/// A key binding: `trigger` with exactly `mods` held fires `action` when every
/// bit of `mode` and no bit of `notmode` is set in the terminal mode.
#[derive(Clone, Debug)]
pub struct KeyBinding {
    pub trigger: Key,
    pub mods: Modifiers,
    pub mode: u32,
    pub notmode: u32,
    pub action: Action,
}

/// `true` iff the binding fires for `key` under `mode` and `mods`.
pub open spec fn triggered(b: KeyBinding, mode: u32, mods: Modifiers, key: Key) -> bool {
    &&& b.trigger == key
    &&& has_all(mode, b.mode)
    &&& !has_any(mode, b.notmode)
    &&& b.mods == mods
}

impl KeyBinding {
    pub fn is_triggered_by(&self, mode: u32, mods: Modifiers, key: Key) -> (r: bool)
        ensures
            r == triggered(*self, mode, mods, key),
    {
        self.trigger == key && mode & self.mode == self.mode && mode & self.notmode == 0
            && self.mods == mods
    }
}

/// The key that a key event presents to a binding: a scan-code binding sees
/// the scan code; a key-code binding sees the key code, if the event has one.
pub open spec fn event_key(b: KeyBinding, keycode: Option<u32>, scancode: u32) -> Option<Key> {
    match b.trigger {
        Key::Scancode(_) => Some(Key::Scancode(scancode)),
        Key::Keycode(_) => match keycode {
            Some(k) => Some(Key::Keycode(k)),
            None => None,
        },
    }
}

/// `true` iff binding `b` fires on a key event.
pub open spec fn fires(
    b: KeyBinding,
    mode: u32,
    mods: Modifiers,
    keycode: Option<u32>,
    scancode: u32,
) -> bool {
    match event_key(b, keycode, scancode) {
        Some(key) => triggered(b, mode, mods, key),
        None => false,
    }
}

/// Indices, in table order, of the bindings among the first `n` that fire.
pub open spec fn fired_prefix(
    bs: Seq<KeyBinding>,
    n: nat,
    mode: u32,
    mods: Modifiers,
    keycode: Option<u32>,
    scancode: u32,
) -> Seq<usize>
    decreases n,
{
    if n == 0 {
        seq![]
    } else {
        let rest = fired_prefix(bs, (n - 1) as nat, mode, mods, keycode, scancode);
        if fires(bs[n - 1], mode, mods, keycode, scancode) {
            rest.push((n - 1) as usize)
        } else {
            rest
        }
    }
}

/// Indices, in table order, of every binding of the table that fires.
pub open spec fn fired(
    bs: Seq<KeyBinding>,
    mode: u32,
    mods: Modifiers,
    keycode: Option<u32>,
    scancode: u32,
) -> Seq<usize> {
    fired_prefix(bs, bs.len(), mode, mods, keycode, scancode)
}

/// Scans the whole table and returns the indices of the bindings that fire,
/// in table order; matches do not stop the scan.
pub fn resolve(bindings: &Vec<KeyBinding>, mode: u32, mods: Modifiers, keycode: Option<u32>, scancode: u32) -> (r: Vec<usize>)
    ensures
        r@ == fired(bindings@, mode, mods, keycode, scancode),
        bindings@.len() <= usize::MAX,
{
    let mut r: Vec<usize> = Vec::new();
    let mut i: usize = 0;
    while i < bindings.len()
        invariant
            i <= bindings@.len(),
            r@ == fired_prefix(bindings@, i as nat, mode, mods, keycode, scancode),
        decreases bindings@.len() - i,
    {
        let b = &bindings[i];
        let key = match (b.trigger, keycode) {
            (Key::Scancode(_), _) => Some(Key::Scancode(scancode)),
            (Key::Keycode(_), Some(k)) => Some(Key::Keycode(k)),
            _ => None,
        };
        if let Some(key) = key {
            if b.is_triggered_by(mode, mods, key) {
                r.push(i);
            }
        }
        i = i + 1;
    }
    r
}

/// Membership in the fired list: index `i` is reported iff binding `i` fires.
pub proof fn lemma_fired_prefix_members(
    bs: Seq<KeyBinding>,
    n: nat,
    mode: u32,
    mods: Modifiers,
    keycode: Option<u32>,
    scancode: u32,
)
    requires
        n <= bs.len(),
        bs.len() <= usize::MAX,
    ensures
        forall|k: int|
            0 <= k < fired_prefix(bs, n, mode, mods, keycode, scancode).len() ==> {
                let i = #[trigger] fired_prefix(bs, n, mode, mods, keycode, scancode)[k];
                i < n && fires(bs[i as int], mode, mods, keycode, scancode)
            },
        forall|i: usize|
            i < n && fires(bs[i as int], mode, mods, keycode, scancode) ==> fired_prefix(
                bs,
                n,
                mode,
                mods,
                keycode,
                scancode,
            ).contains(i),
    decreases n,
{
    if n > 0 {
        lemma_fired_prefix_members(bs, (n - 1) as nat, mode, mods, keycode, scancode);
        let rest = fired_prefix(bs, (n - 1) as nat, mode, mods, keycode, scancode);
        let all = fired_prefix(bs, n, mode, mods, keycode, scancode);
        let last = (n - 1) as usize;
        if fires(bs[n - 1], mode, mods, keycode, scancode) {
            assert(all == rest.push(last));
            assert forall|k: int| 0 <= k < all.len() implies {
                let i = #[trigger] all[k];
                i < n && fires(bs[i as int], mode, mods, keycode, scancode)
            } by {
                if k < rest.len() {
                    assert(all[k] == rest[k]);
                }
            }
            assert forall|i: usize|
                i < n && fires(bs[i as int], mode, mods, keycode, scancode) implies all.contains(
                i,
            ) by {
                if i < n - 1 {
                    assert(fires(bs[i as int], mode, mods, keycode, scancode));
                    assert(rest.contains(i));
                    let k = choose|k: int| 0 <= k < rest.len() && rest[k] == i;
                    assert(all[k] == i);
                } else {
                    assert(all[all.len() - 1] == i);
                }
            }
        }
    }
}

/// A binding fires for a key event under mode `mode` and modifiers `mods`
/// iff its trigger matches the event, its modifiers equal `mods` exactly, its
/// required mode bits are all set and none of its excluded mode bits is set;
/// resolution reports exactly the bindings that fire.
pub proof fn lemma_resolution_fires_iff(
    bs: Seq<KeyBinding>,
    mode: u32,
    mods: Modifiers,
    keycode: Option<u32>,
    scancode: u32,
    i: usize,
)
    requires
        i < bs.len(),
        bs.len() <= usize::MAX,
    ensures
        fired(bs, mode, mods, keycode, scancode).contains(i) <==> (event_key(
            bs[i as int],
            keycode,
            scancode,
        ) matches Some(key) && bs[i as int].trigger == key && bs[i as int].mods == mods
            && mode & bs[i as int].mode == bs[i as int].mode && mode & bs[i as int].notmode == 0),
{
    lemma_fired_prefix_members(bs, bs.len(), mode, mods, keycode, scancode);
    let f = fired(bs, mode, mods, keycode, scancode);
    if f.contains(i) {
        let k = choose|k: int| 0 <= k < f.len() && f[k] == i;
        assert(fires(bs[f[k] as int], mode, mods, keycode, scancode));
    }
}

/// Whether the character event that follows should be suppressed: some
/// binding fired and none of those that fired lets characters through.
pub open spec fn suppresses_chars(bs: Seq<KeyBinding>, idx: Seq<usize>) -> bool {
    idx.len() > 0 && forall|k: int|
        0 <= k < idx.len() ==> !((#[trigger] bs[idx[k] as int]).action is ReceiveChar)
}

} // verus!
