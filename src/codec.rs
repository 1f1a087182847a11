//! The wire format of a key event.
//!
//! Integers are little-endian. A key is a 4-byte tag followed by its payload
//! (a character or code as 4 bytes, a physical key as its 4-byte tag, a
//! composed text as an 8-byte character count and 4 bytes per character); then
//! come the press flag (one byte, 0 or 1), the 16-bit modifier set and the
//! optional raw event (one byte 0, or one byte 1 followed by the physical key
//! tag, press flag, modifiers, 4-byte raw code and 4-byte scan code). Bytes
//! after the event are ignored, so a message may sit in a padded buffer.
use vstd::prelude::*;

use crate::phys::{phys_of_tag, phys_tag, PhysKeyCode};
use crate::types::{KeyCode, KeyEvent, Modifiers, RawKeyEvent};

verus! {

/// What a key code denotes, with a composed text as its characters.
pub enum KeyCodeView {
    Char(char),
    Composed(Seq<char>),
    RawCode(u32),
    KeySym(u32),
    Physical(PhysKeyCode),
}

/// What a key event denotes.
pub struct KeyEventView {
    pub key: KeyCodeView,
    pub press: bool,
    pub modifiers: Modifiers,
    pub raw_event: Option<RawKeyEvent>,
}

impl View for KeyCode {
    type V = KeyCodeView;

    open spec fn view(&self) -> KeyCodeView {
        match self {
            KeyCode::Char(c) => KeyCodeView::Char(*c),
            KeyCode::Composed(s) => KeyCodeView::Composed(s@),
            KeyCode::RawCode(x) => KeyCodeView::RawCode(*x),
            KeyCode::KeySym(x) => KeyCodeView::KeySym(*x),
            KeyCode::Physical(p) => KeyCodeView::Physical(*p),
        }
    }
}

impl View for KeyEvent {
    type V = KeyEventView;

    open spec fn view(&self) -> KeyEventView {
        KeyEventView {
            key: self.key@,
            press: self.press,
            modifiers: self.modifiers,
            raw_event: self.raw_event,
        }
    }
}

/// Whether `v` is a Unicode scalar value.
pub open spec fn is_scalar(v: u32) -> bool {
    v < 0xD800 || (0xDFFF < v && v <= 0x10FFFF)
}

/// The character with scalar value `v`, if any.
pub open spec fn char_of(v: u32) -> Option<char> {
    if is_scalar(v) {
        Some(choose|c: char| #[trigger] (c as u32) == v)
    } else {
        None
    }
}

/// Relies on `char::from_u32`: `Some` exactly for a Unicode scalar value,
/// holding the character with that value.
#[verifier::external_body]
fn char_from_u32(v: u32) -> (r: Option<char>)
    ensures
        r is Some <==> is_scalar(v),
        r matches Some(c) ==> c as u32 == v,
{
    char::from_u32(v)
}

/// Relies on `String::push`: appends one character.
#[verifier::external_body]
fn push_char(s: &mut String, c: char)
    ensures
        final(s)@ == old(s)@.push(c),
{
    s.push(c)
}

pub open spec fn le16(x: u16) -> Seq<u8> {
    seq![(x & 0xff) as u8, ((x >> 8) & 0xff) as u8]
}

pub open spec fn le32(x: u32) -> Seq<u8> {
    seq![(x & 0xff) as u8, ((x >> 8) & 0xff) as u8, ((x >> 16) & 0xff) as u8, ((x >> 24) & 0xff) as u8]
}

pub open spec fn le64(x: u64) -> Seq<u8> {
    le32((x & 0xffff_ffff) as u32) + le32(((x >> 32) & 0xffff_ffff) as u32)
}

pub open spec fn read16(s: Seq<u8>, i: int) -> u16 {
    (s[i] as u16) | ((s[i + 1] as u16) << 8)
}

pub open spec fn read32(s: Seq<u8>, i: int) -> u32 {
    (s[i] as u32) | ((s[i + 1] as u32) << 8) | ((s[i + 2] as u32) << 16) | ((s[i + 3] as u32) << 24)
}

pub open spec fn read64(s: Seq<u8>, i: int) -> u64 {
    (read32(s, i) as u64) | ((read32(s, i + 4) as u64) << 32)
}

pub open spec fn enc_bool(b: bool) -> Seq<u8> {
    if b {
        seq![1u8]
    } else {
        seq![0u8]
    }
}

/// The encoding of the characters of a composed text, 4 bytes each.
pub open spec fn enc_chars(cs: Seq<char>) -> Seq<u8>
    decreases cs.len(),
{
    if cs.len() == 0 {
        seq![]
    } else {
        enc_chars(cs.drop_last()) + le32(cs.last() as u32)
    }
}

pub open spec fn enc_key(k: KeyCodeView) -> Seq<u8> {
    match k {
        KeyCodeView::Char(c) => le32(0) + le32(c as u32),
        KeyCodeView::Composed(cs) => le32(1) + le64(cs.len() as u64) + enc_chars(cs),
        KeyCodeView::RawCode(x) => le32(2) + le32(x),
        KeyCodeView::KeySym(x) => le32(3) + le32(x),
        KeyCodeView::Physical(p) => le32(4) + le32(phys_tag(p)),
    }
}

pub open spec fn enc_raw(r: Option<RawKeyEvent>) -> Seq<u8> {
    match r {
        None => seq![0u8],
        Some(r) => seq![1u8] + le32(phys_tag(r.key)) + enc_bool(r.press) + le16(r.modifiers.bits)
            + le32(r.raw_code) + le32(r.scan_code),
    }
}

/// The encoding of a key event.
pub open spec fn enc_event(e: KeyEventView) -> Seq<u8> {
    enc_key(e.key) + enc_bool(e.press) + le16(e.modifiers.bits) + enc_raw(e.raw_event)
}

/// Whether the event can be encoded: a composed text holds fewer than 2^64 characters.
pub open spec fn encodable(e: KeyEventView) -> bool {
    e.key matches KeyCodeView::Composed(cs) ==> cs.len() <= u64::MAX
}

pub open spec fn parse_bool(s: Seq<u8>, i: int) -> Option<bool> {
    if 0 <= i < s.len() && s[i] == 0 {
        Some(false)
    } else if 0 <= i < s.len() && s[i] == 1 {
        Some(true)
    } else {
        None
    }
}

/// The `n` characters stored from offset `i`, if all are scalar values.
pub open spec fn parse_chars(s: Seq<u8>, i: int, n: nat) -> Option<Seq<char>>
    decreases n,
{
    if n == 0 {
        Some(seq![])
    } else {
        match (parse_chars(s, i, (n - 1) as nat), char_of(read32(s, i + 4 * (n - 1)))) {
            (Some(t), Some(c)) => Some(t.push(c)),
            _ => None,
        }
    }
}

/// The key stored from offset 0, with the offset after it.
pub open spec fn parse_key(s: Seq<u8>) -> Option<(KeyCodeView, int)> {
    if s.len() < 8 {
        None
    } else {
        let tag = read32(s, 0);
        if tag == 0 {
            match char_of(read32(s, 4)) {
                Some(c) => Some((KeyCodeView::Char(c), 8)),
                None => None,
            }
        } else if tag == 1 {
            if s.len() < 12 {
                None
            } else {
                let n = read64(s, 4);
                if (s.len() - 12) / 4 < n {
                    None
                } else {
                    match parse_chars(s, 12, n as nat) {
                        Some(cs) => Some((KeyCodeView::Composed(cs), 12 + 4 * n)),
                        None => None,
                    }
                }
            }
        } else if tag == 2 {
            Some((KeyCodeView::RawCode(read32(s, 4)), 8))
        } else if tag == 3 {
            Some((KeyCodeView::KeySym(read32(s, 4)), 8))
        } else if tag == 4 {
            match phys_of_tag(read32(s, 4)) {
                Some(p) => Some((KeyCodeView::Physical(p), 8)),
                None => None,
            }
        } else {
            None
        }
    }
}

/// The optional raw event stored at offset `i`, with the offset after it.
pub open spec fn parse_raw(s: Seq<u8>, i: int) -> Option<(Option<RawKeyEvent>, int)> {
    if 0 <= i < s.len() && s[i] == 0 {
        Some((None, i + 1))
    } else if 0 <= i && i + 16 <= s.len() && s[i] == 1 {
        match (phys_of_tag(read32(s, i + 1)), parse_bool(s, i + 5)) {
            (Some(p), Some(b)) => Some(
                (
                    Some(
                        RawKeyEvent {
                            key: p,
                            press: b,
                            modifiers: Modifiers { bits: read16(s, i + 6) },
                            raw_code: read32(s, i + 8),
                            scan_code: read32(s, i + 12),
                        },
                    ),
                    i + 16,
                ),
            ),
            _ => None,
        }
    } else {
        None
    }
}

/// The key event that the bytes `s` start with, if they start with one,
/// and its length; any bytes after it are ignored.
pub open spec fn parse_event(s: Seq<u8>) -> Option<(KeyEventView, int)> {
    match parse_key(s) {
        Some((k, i)) => {
            if i + 3 > s.len() {
                None
            } else {
                match (parse_bool(s, i), parse_raw(s, i + 3)) {
                    (Some(p), Some((r, j))) => Some(
                        (
                            KeyEventView {
                                key: k,
                                press: p,
                                modifiers: Modifiers { bits: read16(s, i + 1) },
                                raw_event: r,
                            },
                            j,
                        ),
                    ),
                    _ => None,
                }
            }
        },
        None => None,
    }
}

/// Whether the bytes `s` start with the bytes `p`.
pub open spec fn is_prefix(p: Seq<u8>, s: Seq<u8>) -> bool {
    p.len() <= s.len() && s.subrange(0, p.len() as int) == p
}

proof fn lemma_char_of(c: char)
    ensures
        is_scalar(c as u32),
        char_of(c as u32) == Some(c),
{
}

proof fn lemma_read16(s: Seq<u8>, i: int, x: u16)
    requires
        0 <= i,
        i + 2 <= s.len(),
        s.subrange(i, i + 2) == le16(x),
    ensures
        read16(s, i) == x,
{
    assert(s[i] == s.subrange(i, i + 2)[0]);
    assert(s[i + 1] == s.subrange(i, i + 2)[1]);
    let b0 = s[i];
    let b1 = s[i + 1];
    assert(b0 == (x & 0xff) as u8 && b1 == ((x >> 8) & 0xff) as u8 ==> (b0 as u16) | ((b1 as u16) << 8)
        == x) by (bit_vector);
}

proof fn lemma_read32(s: Seq<u8>, i: int, x: u32)
    requires
        0 <= i,
        i + 4 <= s.len(),
        s.subrange(i, i + 4) == le32(x),
    ensures
        read32(s, i) == x,
{
    assert(s[i] == s.subrange(i, i + 4)[0]);
    assert(s[i + 1] == s.subrange(i, i + 4)[1]);
    assert(s[i + 2] == s.subrange(i, i + 4)[2]);
    assert(s[i + 3] == s.subrange(i, i + 4)[3]);
    let b0 = s[i];
    let b1 = s[i + 1];
    let b2 = s[i + 2];
    let b3 = s[i + 3];
    assert(b0 == (x & 0xff) as u8 && b1 == ((x >> 8) & 0xff) as u8 && b2 == ((x >> 16) & 0xff) as u8
        && b3 == ((x >> 24) & 0xff) as u8 ==> (b0 as u32) | ((b1 as u32) << 8) | ((b2 as u32) << 16) | (
    (b3 as u32) << 24) == x) by (bit_vector);
}

proof fn lemma_read64(s: Seq<u8>, i: int, x: u64)
    requires
        0 <= i,
        i + 8 <= s.len(),
        s.subrange(i, i + 8) == le64(x),
    ensures
        read64(s, i) == x,
{
    let lo = (x & 0xffff_ffff) as u32;
    let hi = ((x >> 32) & 0xffff_ffff) as u32;
    assert(s.subrange(i, i + 4) =~= s.subrange(i, i + 8).subrange(0, 4));
    assert(s.subrange(i + 4, i + 8) =~= s.subrange(i, i + 8).subrange(4, 8));
    assert(le64(x).subrange(0, 4) =~= le32(lo));
    assert(le64(x).subrange(4, 8) =~= le32(hi));
    lemma_read32(s, i, lo);
    lemma_read32(s, i + 4, hi);
    assert(lo == (x & 0xffff_ffff) as u32 && hi == ((x >> 32) & 0xffff_ffff) as u32 ==> (lo as u64) | ((
    hi as u64) << 32) == x) by (bit_vector);
}

proof fn lemma_enc_chars_len(cs: Seq<char>)
    ensures
        enc_chars(cs).len() == 4 * cs.len(),
    decreases cs.len(),
{
    if cs.len() > 0 {
        lemma_enc_chars_len(cs.drop_last());
    }
}

proof fn lemma_parse_chars(s: Seq<u8>, i: int, cs: Seq<char>)
    requires
        0 <= i,
        i + 4 * cs.len() <= s.len(),
        s.subrange(i, i + 4 * cs.len()) == enc_chars(cs),
    ensures
        parse_chars(s, i, cs.len()) == Some(cs),
    decreases cs.len(),
{
    lemma_enc_chars_len(cs);
    if cs.len() > 0 {
        let n = cs.len() as int;
        let init = cs.drop_last();
        let m = init.len() as int;
        lemma_enc_chars_len(init);
        assert(s.subrange(i, i + 4 * init.len()) =~= s.subrange(i, i + 4 * n).subrange(0, 4 * m));
        assert(enc_chars(cs).subrange(0, 4 * m) =~= enc_chars(init));
        lemma_parse_chars(s, i, init);
        assert(s.subrange(i + 4 * (n - 1), i + 4 * n) =~= s.subrange(i, i + 4 * n).subrange(
            4 * (n - 1),
            4 * n,
        ));
        assert(enc_chars(cs).subrange(4 * (n - 1), 4 * n) =~= le32(cs.last() as u32));
        lemma_read32(s, i + 4 * (n - 1), cs.last() as u32);
        lemma_char_of(cs.last());
        assert(init.push(cs.last()) =~= cs);
    }
}

proof fn lemma_parse_key(k: KeyCodeView, rest: Seq<u8>)
    requires
        k matches KeyCodeView::Composed(cs) ==> cs.len() <= u64::MAX,
    ensures
        parse_key(enc_key(k) + rest) == Some((k, enc_key(k).len() as int)),
{
    let s = enc_key(k) + rest;
    match k {
        KeyCodeView::Composed(cs) => {
            lemma_enc_chars_len(cs);
            assert(s.subrange(0, 4) =~= le32(1));
            lemma_read32(s, 0, 1);
            assert(s.subrange(4, 12) =~= le64(cs.len() as u64));
            lemma_read64(s, 4, cs.len() as u64);
            assert(s.subrange(12, 12 + 4 * (cs.len() as int)) =~= enc_chars(cs));
            lemma_parse_chars(s, 12, cs);
        },
        KeyCodeView::Char(c) => {
            assert(s.subrange(0, 4) =~= le32(0));
            lemma_read32(s, 0, 0);
            assert(s.subrange(4, 8) =~= le32(c as u32));
            lemma_read32(s, 4, c as u32);
            lemma_char_of(c);
        },
        KeyCodeView::RawCode(x) => {
            assert(s.subrange(0, 4) =~= le32(2));
            lemma_read32(s, 0, 2);
            assert(s.subrange(4, 8) =~= le32(x));
            lemma_read32(s, 4, x);
        },
        KeyCodeView::KeySym(x) => {
            assert(s.subrange(0, 4) =~= le32(3));
            lemma_read32(s, 0, 3);
            assert(s.subrange(4, 8) =~= le32(x));
            lemma_read32(s, 4, x);
        },
        KeyCodeView::Physical(p) => {
            assert(s.subrange(0, 4) =~= le32(4));
            lemma_read32(s, 0, 4);
            assert(s.subrange(4, 8) =~= le32(phys_tag(p)));
            lemma_read32(s, 4, phys_tag(p));
            crate::phys::lemma_phys_tag_inverse(p);
        },
    }
}

proof fn lemma_parse_raw(s: Seq<u8>, i: int, r: Option<RawKeyEvent>)
    requires
        0 <= i,
        i + enc_raw(r).len() <= s.len(),
        s.subrange(i, i + enc_raw(r).len()) == enc_raw(r),
    ensures
        parse_raw(s, i) == Some((r, i + enc_raw(r).len())),
{
    let t = s.subrange(i, i + enc_raw(r).len());
    match r {
        None => {
            assert(enc_raw(r).len() == 1);
            assert(s[i] == t[0]);
        },
        Some(r) => {
            let e = enc_raw(Some(r));
            assert(e.len() == 16);
            assert(s[i] == t[0]);
            assert(s[i + 5] == t[5]);
            assert(s.subrange(i + 1, i + 5) =~= t.subrange(1, 5));
            assert(e.subrange(1, 5) =~= le32(phys_tag(r.key)));
            assert(s.subrange(i + 6, i + 8) =~= t.subrange(6, 8));
            assert(e.subrange(6, 8) =~= le16(r.modifiers.bits));
            assert(s.subrange(i + 8, i + 12) =~= t.subrange(8, 12));
            assert(e.subrange(8, 12) =~= le32(r.raw_code));
            assert(s.subrange(i + 12, i + 16) =~= t.subrange(12, 16));
            assert(e.subrange(12, 16) =~= le32(r.scan_code));
            lemma_read32(s, i + 1, phys_tag(r.key));
            crate::phys::lemma_phys_tag_inverse(r.key);
            lemma_read16(s, i + 6, r.modifiers.bits);
            lemma_read32(s, i + 8, r.raw_code);
            lemma_read32(s, i + 12, r.scan_code);
        },
    }
}

/// Decoding the encoding of a key event, followed by any bytes, gives the
/// event back together with the length of its encoding.
#[verifier::rlimit(40)]
pub proof fn lemma_round_trip(e: KeyEventView, rest: Seq<u8>)
    requires
        encodable(e),
    ensures
        parse_event(enc_event(e) + rest) == Some((e, enc_event(e).len() as int)),
{
    let s = enc_event(e) + rest;
    let k = enc_key(e.key);
    let r = enc_raw(e.raw_event);
    let tail = enc_bool(e.press) + le16(e.modifiers.bits) + r + rest;
    assert(s =~= k + tail);
    lemma_parse_key(e.key, tail);
    let i = k.len() as int;
    assert(s[i] == tail[0]);
    assert(s.subrange(i + 1, i + 3) =~= le16(e.modifiers.bits));
    lemma_read16(s, i + 1, e.modifiers.bits);
    assert(s.subrange(i + 3, i + 3 + r.len()) =~= r);
    lemma_parse_raw(s, i + 3, e.raw_event);
}

proof fn lemma_parse_chars_stops(s: Seq<u8>, i: int, m: nat, n: nat)
    requires
        m <= n,
        parse_chars(s, i, m) is None,
    ensures
        parse_chars(s, i, n) is None,
    decreases n - m,
{
    if m < n {
        lemma_parse_chars_stops(s, i, m, (n - 1) as nat);
    }
}

proof fn lemma_le16_of_read(s: Seq<u8>, i: int)
    requires
        0 <= i,
        i + 2 <= s.len(),
    ensures
        le16(read16(s, i)) =~= s.subrange(i, i + 2),
{
    let b0 = s[i];
    let b1 = s[i + 1];
    let x = read16(s, i);
    assert(x == (b0 as u16) | ((b1 as u16) << 8) ==> (x & 0xff) as u8 == b0 && ((x >> 8) & 0xff) as u8
        == b1) by (bit_vector);
}

proof fn lemma_le32_of_read(s: Seq<u8>, i: int)
    requires
        0 <= i,
        i + 4 <= s.len(),
    ensures
        le32(read32(s, i)) =~= s.subrange(i, i + 4),
{
    let b0 = s[i];
    let b1 = s[i + 1];
    let b2 = s[i + 2];
    let b3 = s[i + 3];
    let x = read32(s, i);
    assert(x == (b0 as u32) | ((b1 as u32) << 8) | ((b2 as u32) << 16) | ((b3 as u32) << 24) ==> (x
        & 0xff) as u8 == b0 && ((x >> 8) & 0xff) as u8 == b1 && ((x >> 16) & 0xff) as u8 == b2 && ((x
        >> 24) & 0xff) as u8 == b3) by (bit_vector);
}

proof fn lemma_le64_of_read(s: Seq<u8>, i: int)
    requires
        0 <= i,
        i + 8 <= s.len(),
    ensures
        le64(read64(s, i)) =~= s.subrange(i, i + 8),
{
    let lo = read32(s, i);
    let hi = read32(s, i + 4);
    let x = read64(s, i);
    assert(x == (lo as u64) | ((hi as u64) << 32) ==> (x & 0xffff_ffff) as u32 == lo && ((x >> 32)
        & 0xffff_ffff) as u32 == hi) by (bit_vector);
    lemma_le32_of_read(s, i);
    lemma_le32_of_read(s, i + 4);
}

/// The bytes `b` start with the encoding of no event.
pub open spec fn encodes_nothing(b: Seq<u8>) -> bool {
    forall|e: KeyEventView| encodable(e) ==> !is_prefix(#[trigger] enc_event(e), b)
}

/// Why bytes could not be read as a key event.
#[derive(Clone, Copy, Debug, PartialEq, Eq, Structural)]
pub enum CodecError {
    /// The bytes are not the encoding of any key event.
    Malformed,
}

fn push_u16(v: &mut Vec<u8>, x: u16)
    ensures
        final(v)@ == old(v)@ + le16(x),
{
    v.push((x & 0xff) as u8);
    v.push(((x >> 8) & 0xff) as u8);
    assert(final(v)@ =~= old(v)@ + le16(x));
}

fn push_u32(v: &mut Vec<u8>, x: u32)
    ensures
        final(v)@ == old(v)@ + le32(x),
{
    v.push((x & 0xff) as u8);
    v.push(((x >> 8) & 0xff) as u8);
    v.push(((x >> 16) & 0xff) as u8);
    v.push(((x >> 24) & 0xff) as u8);
    assert(final(v)@ =~= old(v)@ + le32(x));
}

fn push_u64(v: &mut Vec<u8>, x: u64)
    ensures
        final(v)@ == old(v)@ + le64(x),
{
    push_u32(v, (x & 0xffff_ffff) as u32);
    push_u32(v, ((x >> 32) & 0xffff_ffff) as u32);
    assert(final(v)@ =~= old(v)@ + le64(x));
}

fn push_bool(v: &mut Vec<u8>, b: bool)
    ensures
        final(v)@ == old(v)@ + enc_bool(b),
{
    if b {
        v.push(1u8);
    } else {
        v.push(0u8);
    }
    assert(final(v)@ =~= old(v)@ + enc_bool(b));
}

fn push_key(v: &mut Vec<u8>, k: &KeyCode)
    ensures
        final(v)@ == old(v)@ + enc_key(k@),
{
    match k {
        KeyCode::Char(c) => {
            push_u32(v, 0);
            push_u32(v, *c as u32);
        },
        KeyCode::Composed(text) => {
            let t = text.as_str();
            let n = t.unicode_len();
            push_u32(v, 1);
            push_u64(v, n as u64);
            let ghost start = v@;
            let mut j: usize = 0;
            while j < n
                invariant
                    j <= n,
                    n == t@.len(),
                    t@ == text@,
                    v@ == start + enc_chars(t@.take(j as int)),
                decreases n - j,
            {
                let c = t.get_char(j);
                push_u32(v, c as u32);
                assert(t@.take(j + 1).drop_last() =~= t@.take(j as int));
                j = j + 1;
            }
            assert(t@.take(n as int) =~= t@);
            assert(final(v)@ =~= old(v)@ + enc_key(k@));
        },
        KeyCode::RawCode(x) => {
            push_u32(v, 2);
            push_u32(v, *x);
        },
        KeyCode::KeySym(x) => {
            push_u32(v, 3);
            push_u32(v, *x);
        },
        KeyCode::Physical(p) => {
            push_u32(v, 4);
            push_u32(v, p.tag());
        },
    }
    assert(final(v)@ =~= old(v)@ + enc_key(k@));
}

/// The bytes of a key event in the wire format.
pub fn encode_event(e: &KeyEvent) -> (r: Vec<u8>)
    ensures
        r@ == enc_event(e@),
{
    let mut v: Vec<u8> = Vec::new();
    push_key(&mut v, &e.key);
    push_bool(&mut v, e.press);
    push_u16(&mut v, e.modifiers.bits);
    match e.raw_event {
        None => {
            v.push(0u8);
        },
        Some(r) => {
            v.push(1u8);
            push_u32(&mut v, r.key.tag());
            push_bool(&mut v, r.press);
            push_u16(&mut v, r.modifiers.bits);
            push_u32(&mut v, r.raw_code);
            push_u32(&mut v, r.scan_code);
        },
    }
    assert(v@ =~= enc_event(e@));
    v
}

fn read_u16(b: &[u8], i: usize) -> (r: u16)
    requires
        i + 2 <= b@.len(),
    ensures
        r == read16(b@, i as int),
{
    (b[i] as u16) | ((b[i + 1] as u16) << 8)
}

fn read_u32(b: &[u8], i: usize) -> (r: u32)
    requires
        i + 4 <= b@.len(),
    ensures
        r == read32(b@, i as int),
{
    (b[i] as u32) | ((b[i + 1] as u32) << 8) | ((b[i + 2] as u32) << 16) | ((b[i + 3] as u32) << 24)
}

fn read_u64(b: &[u8], i: usize) -> (r: u64)
    requires
        i + 8 <= b@.len(),
    ensures
        r == read64(b@, i as int),
{
    let _n = b.len();
    (read_u32(b, i) as u64) | ((read_u32(b, i + 4) as u64) << 32)
}

fn to_char(v: u32) -> (r: Option<char>)
    ensures
        r == char_of(v),
{
    let r = char_from_u32(v);
    proof {
        if let Some(c) = r {
            lemma_char_of(c);
        }
    }
    r
}

fn decode_key(b: &[u8]) -> (r: Option<(KeyCode, usize)>)
    ensures
        r matches Some((k, i)) ==> parse_key(b@) == Some((k@, i as int)) && i <= b@.len()
            && enc_key(k@) == b@.subrange(0, i as int) && (k@ matches KeyCodeView::Composed(cs)
            ==> cs.len() <= u64::MAX),
        r is None ==> parse_key(b@) is None,
{
    let n = b.len();
    if n < 8 {
        return None;
    }
    let tag = read_u32(b, 0);
    proof {
        lemma_le32_of_read(b@, 0);
        lemma_le32_of_read(b@, 4);
        assert(b@.subrange(0, 8) =~= b@.subrange(0, 4) + b@.subrange(4, 8));
    }
    if tag == 0 {
        let v = read_u32(b, 4);
        match to_char(v) {
            Some(c) => {
                proof {
                    lemma_char_of(c);
                }
                Some((KeyCode::Char(c), 8))
            },
            None => None,
        }
    } else if tag == 1 {
        if n < 12 {
            return None;
        }
        let count = read_u64(b, 4);
        if (((n - 12) / 4) as u64) < count {
            return None;
        }
        let cnt = count as usize;
        let mut text = String::new();
        proof {
            lemma_le64_of_read(b@, 4);
            assert(enc_chars(text@) =~= b@.subrange(12, 12));
        }
        let mut j: usize = 0;
        while j < cnt
            invariant
                j <= cnt,
                cnt == count,
                12 + 4 * cnt <= n,
                tag == 1,
                tag == read32(b@, 0),
                count == read64(b@, 4),
                (n - 12) / 4 >= count,
                n == b@.len(),
                parse_chars(b@, 12, j as nat) == Some(text@),
                enc_chars(text@) == b@.subrange(12, 12 + 4 * j),
                text@.len() == j,
            decreases cnt - j,
        {
            match to_char(read_u32(b, 12 + 4 * j)) {
                Some(c) => {
                    let ghost before = text@;
                    push_char(&mut text, c);
                    proof {
                        lemma_char_of(c);
                        lemma_le32_of_read(b@, 12 + 4 * j);
                        assert(text@.drop_last() =~= before);
                        assert(b@.subrange(12, 12 + 4 * (j + 1)) =~= b@.subrange(12, 12 + 4 * j)
                            + b@.subrange(12 + 4 * j, 12 + 4 * (j + 1)));
                    }
                },
                None => {
                    proof {
                        assert(parse_chars(b@, 12, (j + 1) as nat) is None);
                        lemma_parse_chars_stops(b@, 12, (j + 1) as nat, cnt as nat);
                    }
                    return None;
                },
            }
            j = j + 1;
        }
        proof {
            assert(b@.subrange(0, 12 + 4 * cnt) =~= b@.subrange(0, 4) + b@.subrange(4, 12)
                + b@.subrange(12, 12 + 4 * cnt));
        }
        Some((KeyCode::Composed(text), 12 + 4 * cnt))
    } else if tag == 2 {
        Some((KeyCode::RawCode(read_u32(b, 4)), 8))
    } else if tag == 3 {
        Some((KeyCode::KeySym(read_u32(b, 4)), 8))
    } else if tag == 4 {
        match PhysKeyCode::from_tag(read_u32(b, 4)) {
            Some(p) => {
                proof {
                    crate::phys::lemma_phys_of_tag_some(read32(b@, 4));
                }
                Some((KeyCode::Physical(p), 8))
            },
            None => None,
        }
    } else {
        None
    }
}

fn decode_bool(b: &[u8], i: usize) -> (r: Option<bool>)
    ensures
        r == parse_bool(b@, i as int),
        r matches Some(p) ==> i < b@.len() && enc_bool(p) =~= b@.subrange(i as int, i + 1),
{
    if i < b.len() && b[i] == 0 {
        Some(false)
    } else if i < b.len() && b[i] == 1 {
        Some(true)
    } else {
        None
    }
}

fn decode_raw(b: &[u8], i: usize) -> (r: Option<(Option<RawKeyEvent>, usize)>)
    requires
        i <= b@.len(),
    ensures
        r matches Some((raw, j)) ==> parse_raw(b@, i as int) == Some((raw, j as int)) && j <= b@.len()
            && enc_raw(raw) == b@.subrange(i as int, j as int),
        r is None ==> parse_raw(b@, i as int) is None,
{
    let n = b.len();
    if i < n && b[i] == 0 {
        assert(b@.subrange(i as int, i + 1) =~= seq![0u8]);
        Some((None, i + 1))
    } else if i < n && n - i >= 16 && b[i] == 1 {
        proof {
            lemma_le32_of_read(b@, i + 1);
            lemma_le16_of_read(b@, i + 6);
            lemma_le32_of_read(b@, i + 8);
            lemma_le32_of_read(b@, i + 12);
            crate::phys::lemma_phys_of_tag_some(read32(b@, i + 1));
            assert(b@.subrange(i as int, i + 16) =~= b@.subrange(i as int, i + 1) + b@.subrange(i + 1, i + 5)
                + b@.subrange(i + 5, i + 6) + b@.subrange(i + 6, i + 8) + b@.subrange(i + 8, i + 12)
                + b@.subrange(i + 12, i + 16));
        }
        match (PhysKeyCode::from_tag(read_u32(b, i + 1)), decode_bool(b, i + 5)) {
            (Some(p), Some(press)) => Some(
                (
                    Some(
                        RawKeyEvent {
                            key: p,
                            press,
                            modifiers: Modifiers { bits: read_u16(b, i + 6) },
                            raw_code: read_u32(b, i + 8),
                            scan_code: read_u32(b, i + 12),
                        },
                    ),
                    i + 16,
                ),
            ),
            _ => None,
        }
    } else {
        None
    }
}

/// The key event that the bytes start with, in the wire format; bytes after
/// it are ignored. An error when the bytes start with no event.
pub fn decode_event(b: &[u8]) -> (r: Result<KeyEvent, CodecError>)
    ensures
        r matches Ok(e) ==> is_prefix(enc_event(e@), b@) && parse_event(b@) == Some(
            (e@, enc_event(e@).len() as int),
        ),
        r matches Ok(e) ==> forall|f: KeyEventView|
            encodable(f) && is_prefix(#[trigger] enc_event(f), b@) ==> f == e@,
        r is Err <==> parse_event(b@) is None,
        r is Err <==> encodes_nothing(b@),
{
    let r = decode_event_parts(b);
    proof {
        assert forall|f: KeyEventView| encodable(f) && is_prefix(#[trigger] enc_event(f), b@) implies parse_event(
            b@,
        ) == Some((f, enc_event(f).len() as int)) by {
            let rest = b@.subrange(enc_event(f).len() as int, b@.len() as int);
            assert(b@ =~= enc_event(f) + rest);
            lemma_round_trip(f, rest);
        }
    }
    r
}

proof fn lemma_event_bytes(s: Seq<u8>, e: KeyEventView, i: int, j: int)
    requires
        0 <= i,
        i + 3 <= j <= s.len(),
        enc_key(e.key) == s.subrange(0, i),
        enc_bool(e.press) == s.subrange(i, i + 1),
        le16(e.modifiers.bits) == s.subrange(i + 1, i + 3),
        enc_raw(e.raw_event) == s.subrange(i + 3, j),
    ensures
        is_prefix(enc_event(e), s),
        enc_event(e).len() == j,
{
    assert(s.subrange(0, j) =~= s.subrange(0, i) + s.subrange(i, i + 1) + s.subrange(i + 1, i + 3)
        + s.subrange(i + 3, j));
}

fn decode_event_parts(b: &[u8]) -> (r: Result<KeyEvent, CodecError>)
    ensures
        r matches Ok(e) ==> is_prefix(enc_event(e@), b@) && parse_event(b@) == Some(
            (e@, enc_event(e@).len() as int),
        ) && encodable(e@),
        r is Err <==> parse_event(b@) is None,
{
    match decode_key(b) {
        Some((key, i)) => {
            if b.len() - i < 3 {
                return Err(CodecError::Malformed);
            }
            match (decode_bool(b, i), decode_raw(b, i + 3)) {
                (Some(press), Some((raw_event, j))) => {
                    let e = KeyEvent {
                        key,
                        press,
                        modifiers: Modifiers { bits: read_u16(b, i + 1) },
                        raw_event,
                    };
                    proof {
                        lemma_le16_of_read(b@, i + 1);
                        lemma_event_bytes(b@, e@, i as int, j as int);
                    }
                    Ok(e)
                },
                _ => Err(CodecError::Malformed),
            }
        },
        None => Err(CodecError::Malformed),
    }
}

impl KeyEvent {
    /// The event in the wire format.
    pub fn to_u8_vec(&self) -> (r: Vec<u8>)
        ensures
            r@ == enc_event(self@),
    {
        encode_event(self)
    }
}

/// Bytes received from a sender, read as one key event.
pub struct KeyEventBin(pub Vec<u8>);

impl KeyEventBin {
    /// Wrap received bytes.
    pub fn new(buf: Vec<u8>) -> (r: KeyEventBin)
        ensures
            r.0@ == buf@,
    {
        KeyEventBin(buf)
    }

    /// The bytes of a key event in the wire format.
    pub fn from_key_event(key_event: &KeyEvent) -> (r: KeyEventBin)
        ensures
            r.0@ == enc_event(key_event@),
    {
        KeyEventBin(encode_event(key_event))
    }

    /// The key event the bytes start with; bytes after it are ignored. An
    /// error when the bytes start with no event.
    pub fn to_key_event(&self) -> (r: Result<KeyEvent, CodecError>)
        ensures
            r matches Ok(e) ==> is_prefix(enc_event(e@), self.0@) && parse_event(self.0@) == Some(
                (e@, enc_event(e@).len() as int),
            ),
            r is Err <==> encodes_nothing(self.0@),
    {
        decode_event(self.0.as_slice())
    }
}

} // verus!
