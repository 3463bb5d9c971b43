use vstd::prelude::*;
use vstd::utf8::{encode_scalar, encode_utf8};

verus! {

pub const CR: u8 = 0x0d;
pub const LF: u8 = 0x0a;

/// `b` with every `\r\n` turned into `\r` and then every `\n` into `\r`.
pub open spec fn normalize_newlines(b: Seq<u8>) -> Seq<u8>
    decreases b.len(),
{
    if b.len() == 0 {
        seq![]
    } else {
        let prev = normalize_newlines(b.drop_last());
        if b.last() != LF {
            prev.push(b.last())
        } else if b.len() >= 2 && b[b.len() - 2] == CR {
            prev
        } else {
            prev.push(CR)
        }
    }
}

pub fn normalized_newlines(b: &[u8]) -> (r: Vec<u8>)
    ensures
        r@ == normalize_newlines(b@),
{
    let mut r: Vec<u8> = Vec::new();
    let mut i: usize = 0;
    while i < b.len()
        invariant
            i <= b@.len(),
            r@ == normalize_newlines(b@.take(i as int)),
        decreases b@.len() - i,
    {
        let c = b[i];
        assert(b@.take(i + 1).drop_last() == b@.take(i as int));
        if c != LF {
            r.push(c);
        } else if i >= 1 && b[i - 1] == CR {
        } else {
            r.push(CR);
        }
        i = i + 1;
    }
    assert(b@.take(b@.len() as int) == b@);
    r
}

/// `b` without the escape and end-of-text bytes, so that pasted text cannot
/// end a bracketed paste early.
pub open spec fn strip_paste_controls(b: Seq<u8>) -> Seq<u8> {
    b.filter(|c: u8| c != 0x1b && c != 0x03)
}

pub fn stripped_paste_controls(b: &[u8]) -> (r: Vec<u8>)
    ensures
        r@ == strip_paste_controls(b@),
{
    let mut r: Vec<u8> = Vec::new();
    let mut i: usize = 0;
    while i < b.len()
        invariant
            i <= b@.len(),
            r@ == strip_paste_controls(b@.take(i as int)),
        decreases b@.len() - i,
    {
        let c = b[i];
        assert(b@.take(i + 1).drop_last() == b@.take(i as int));
        reveal_with_fuel(Seq::filter, 1);
        if c != 0x1b && c != 0x03 {
            r.push(c);
        }
        i = i + 1;
    }
    assert(b@.take(b@.len() as int) == b@);
    r
}

/// UTF-8 encoding of one character.
pub open spec fn char_utf8(c: char) -> Seq<u8> {
    encode_utf8(seq![c])
}

/// The UTF-8 encoding of one character.
pub fn encode_char(c: char) -> (r: Vec<u8>)
    ensures
        r@ == char_utf8(c),
{
    let v = c as u32;
    let r: Vec<u8> = if v <= 0x7f {
        vec![(v & 0x7f) as u8]
    } else if v <= 0x7ff {
        vec![0xc0 | ((v >> 6) & 0x1f) as u8, 0x80 | (v & 0x3f) as u8]
    } else if v <= 0xffff && !(0xd800 <= v && v <= 0xdfff) {
        vec![
            0xe0 | ((v >> 12) & 0x0f) as u8,
            0x80 | ((v >> 6) & 0x3f) as u8,
            0x80 | (v & 0x3f) as u8,
        ]
    } else {
        vec![
            0xf0 | ((v >> 18) & 0x7) as u8,
            0x80 | ((v >> 12) & 0x3f) as u8,
            0x80 | ((v >> 6) & 0x3f) as u8,
            0x80 | (v & 0x3f) as u8,
        ]
    };
    assert(seq![c].drop_first() =~= Seq::<char>::empty());
    assert(encode_utf8(Seq::<char>::empty()) == Seq::<u8>::empty());
    assert(char_utf8(c) == encode_scalar(v));
    assert(r@ =~= encode_scalar(v));
    r
}

} // verus!
