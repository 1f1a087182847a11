//! The text form of a modifier set: flag names joined by `|`, as in
//! `SHIFT|LEFT_CTRL`, with `NONE` for the empty set.
use vstd::prelude::*;
use vstd::string::*;

use crate::types::{
    mods, Modifiers, ALT_BIT, ALT_GR_BIT, CAPS_BIT, CTRL_BIT, LEFT_ALT_BIT, LEFT_CTRL_BIT,
    LEFT_SHIFT_BIT, META_BIT, NUM_BIT, RIGHT_ALT_BIT, RIGHT_CTRL_BIT, RIGHT_SHIFT_BIT, SHIFT_BIT,
};

verus! {

/// The number of named flags.
pub const FLAG_COUNT: usize = 13;

/// The bit of the `i`-th named flag.
pub open spec fn flag_bit(i: int) -> u16 {
    if i == 0 {
        SHIFT_BIT
    } else if i == 1 {
        ALT_BIT
    } else if i == 2 {
        CTRL_BIT
    } else if i == 3 {
        META_BIT
    } else if i == 4 {
        LEFT_ALT_BIT
    } else if i == 5 {
        RIGHT_ALT_BIT
    } else if i == 6 {
        LEFT_CTRL_BIT
    } else if i == 7 {
        RIGHT_CTRL_BIT
    } else if i == 8 {
        LEFT_SHIFT_BIT
    } else if i == 9 {
        RIGHT_SHIFT_BIT
    } else if i == 10 {
        CAPS_BIT
    } else if i == 11 {
        NUM_BIT
    } else {
        ALT_GR_BIT
    }
}

/// The name of the `i`-th named flag.
pub open spec fn flag_label(i: int) -> Seq<char> {
    if i == 0 {
        "SHIFT"@
    } else if i == 1 {
        "ALT"@
    } else if i == 2 {
        "CTRL"@
    } else if i == 3 {
        "META"@
    } else if i == 4 {
        "LEFT_ALT"@
    } else if i == 5 {
        "RIGHT_ALT"@
    } else if i == 6 {
        "LEFT_CTRL"@
    } else if i == 7 {
        "RIGHT_CTRL"@
    } else if i == 8 {
        "LEFT_SHIFT"@
    } else if i == 9 {
        "RIGHT_SHIFT"@
    } else if i == 10 {
        "CAPS"@
    } else if i == 11 {
        "NUM"@
    } else {
        "ALT_GR"@
    }
}

fn flag_entry(i: usize) -> (r: (u16, &'static str))
    requires
        i < FLAG_COUNT,
    ensures
        r.0 == flag_bit(i as int),
        r.1@ == flag_label(i as int),
{
    if i == 0 {
        (SHIFT_BIT, "SHIFT")
    } else if i == 1 {
        (ALT_BIT, "ALT")
    } else if i == 2 {
        (CTRL_BIT, "CTRL")
    } else if i == 3 {
        (META_BIT, "META")
    } else if i == 4 {
        (LEFT_ALT_BIT, "LEFT_ALT")
    } else if i == 5 {
        (RIGHT_ALT_BIT, "RIGHT_ALT")
    } else if i == 6 {
        (LEFT_CTRL_BIT, "LEFT_CTRL")
    } else if i == 7 {
        (RIGHT_CTRL_BIT, "RIGHT_CTRL")
    } else if i == 8 {
        (LEFT_SHIFT_BIT, "LEFT_SHIFT")
    } else if i == 9 {
        (RIGHT_SHIFT_BIT, "RIGHT_SHIFT")
    } else if i == 10 {
        (CAPS_BIT, "CAPS")
    } else if i == 11 {
        (NUM_BIT, "NUM")
    } else {
        (ALT_GR_BIT, "ALT_GR")
    }
}

/// The text of the first `n` flags of `m`: `NONE` for the empty set, then
/// the name of each flag set in `m`, in flag order, separated by `|`.
pub open spec fn text_upto(m: Modifiers, n: nat) -> Seq<char>
    decreases n,
{
    if n == 0 {
        if m.bits == 0 {
            "NONE"@
        } else {
            Seq::empty()
        }
    } else {
        let t = text_upto(m, (n - 1) as nat);
        if m.has(mods(flag_bit(n - 1))) {
            if t.len() == 0 {
                flag_label(n - 1)
            } else {
                t + "|"@ + flag_label(n - 1)
            }
        } else {
            t
        }
    }
}

/// The text form of a modifier set.
pub open spec fn modifiers_text(m: Modifiers) -> Seq<char> {
    text_upto(m, FLAG_COUNT as nat)
}

/// Whether `c` is white space (the Unicode `White_Space` property).
pub open spec fn is_white(c: char) -> bool {
    ('\t' <= c && c <= '\r') || c == ' ' || c == '\u{85}' || c == '\u{a0}' || c == '\u{1680}' || (
    '\u{2000}' <= c && c <= '\u{200a}') || c == '\u{2028}' || c == '\u{2029}' || c == '\u{202f}' || c
        == '\u{205f}' || c == '\u{3000}'
}

fn white(c: char) -> (r: bool)
    ensures
        r == is_white(c),
{
    ('\t' <= c && c <= '\r') || c == ' ' || c == '\u{85}' || c == '\u{a0}' || c == '\u{1680}' || (
    '\u{2000}' <= c && c <= '\u{200a}') || c == '\u{2028}' || c == '\u{2029}' || c == '\u{202f}' || c
        == '\u{205f}' || c == '\u{3000}'
}

/// The text `s` without white space at its start and end.
pub open spec fn trimmed(s: Seq<char>) -> Seq<char>
    decreases s.len(),
{
    if s.len() > 0 && is_white(s[0]) {
        trimmed(s.drop_first())
    } else if s.len() > 0 && is_white(s.last()) {
        trimmed(s.drop_last())
    } else {
        s
    }
}

/// The bits named by one piece of text: a flag name gives its bit, any other
/// text (`NONE` included) gives nothing.
pub open spec fn piece_bits(p: Seq<char>) -> u16 {
    if exists|i: int| 0 <= i < FLAG_COUNT && #[trigger] flag_label(i) == p {
        flag_bit(choose|i: int| 0 <= i < FLAG_COUNT && #[trigger] flag_label(i) == p)
    } else {
        0
    }
}

/// The bits named by the `|`-separated pieces of `s` read so far: the pieces
/// before the last `|` among the first `n` characters, and `cur`, the start
/// of the piece being read.
pub open spec fn parsed_upto(s: Seq<char>, n: nat) -> (u16, int)
    decreases n,
{
    if n == 0 || n > s.len() {
        (0, 0)
    } else {
        let (bits, start) = parsed_upto(s, (n - 1) as nat);
        if s[n - 1] == '|' {
            (bits | piece_bits(trimmed(s.subrange(start, n - 1))), n as int)
        } else {
            (bits, start)
        }
    }
}

/// The modifier set named by the text: the flags named by its
/// `|`-separated pieces, each trimmed of white space.
pub open spec fn modifiers_of_text(s: Seq<char>) -> Modifiers {
    let (bits, start) = parsed_upto(s, s.len());
    Modifiers { bits: bits | piece_bits(trimmed(s.subrange(start, s.len() as int))) }
}

proof fn lemma_flag_labels_distinct(i: int, j: int)
    requires
        0 <= i < FLAG_COUNT,
        0 <= j < FLAG_COUNT,
        flag_label(i) == flag_label(j),
    ensures
        i == j,
{
    reveal_strlit("SHIFT");
    reveal_strlit("ALT");
    reveal_strlit("CTRL");
    reveal_strlit("META");
    reveal_strlit("LEFT_ALT");
    reveal_strlit("RIGHT_ALT");
    reveal_strlit("LEFT_CTRL");
    reveal_strlit("RIGHT_CTRL");
    reveal_strlit("LEFT_SHIFT");
    reveal_strlit("RIGHT_SHIFT");
    reveal_strlit("CAPS");
    reveal_strlit("NUM");
    reveal_strlit("ALT_GR");
    assert(flag_label(0).len() == 5 && flag_label(0)[0] == 'S' && flag_label(0)[1] == 'H');
    assert(flag_label(1).len() == 3 && flag_label(1)[0] == 'A' && flag_label(1)[1] == 'L');
    assert(flag_label(2).len() == 4 && flag_label(2)[0] == 'C' && flag_label(2)[1] == 'T');
    assert(flag_label(3).len() == 4 && flag_label(3)[0] == 'M' && flag_label(3)[1] == 'E');
    assert(flag_label(4).len() == 8 && flag_label(4)[0] == 'L' && flag_label(4)[1] == 'E');
    assert(flag_label(5).len() == 9 && flag_label(5)[0] == 'R' && flag_label(5)[1] == 'I');
    assert(flag_label(6).len() == 9 && flag_label(6)[0] == 'L' && flag_label(6)[1] == 'E');
    assert(flag_label(7).len() == 10 && flag_label(7)[0] == 'R' && flag_label(7)[1] == 'I');
    assert(flag_label(8).len() == 10 && flag_label(8)[0] == 'L' && flag_label(8)[1] == 'E');
    assert(flag_label(9).len() == 11 && flag_label(9)[0] == 'R' && flag_label(9)[1] == 'I');
    assert(flag_label(10).len() == 4 && flag_label(10)[0] == 'C' && flag_label(10)[1] == 'A');
    assert(flag_label(11).len() == 3 && flag_label(11)[0] == 'N' && flag_label(11)[1] == 'U');
    assert(flag_label(12).len() == 6 && flag_label(12)[0] == 'A' && flag_label(12)[1] == 'L');
    if i != j {
        assert(flag_label(i).len() != flag_label(j).len() || flag_label(i)[0] != flag_label(j)[0]
            || flag_label(i)[1] != flag_label(j)[1]);
    }
}

fn same_text(a: &str, from: usize, to: usize, b: &str) -> (r: bool)
    requires
        from <= to <= a@.len(),
    ensures
        r == (a@.subrange(from as int, to as int) == b@),
{
    let n = b.unicode_len();
    if to - from != n {
        proof {
            assert(a@.subrange(from as int, to as int).len() != b@.len());
        }
        return false;
    }
    let mut i: usize = 0;
    while i < n
        invariant
            n == b@.len(),
            to - from == n,
            from <= to <= a@.len(),
            i <= n,
            forall|j: int| 0 <= j < i ==> a@[from + j] == b@[j],
        decreases n - i,
    {
        if a.get_char(from + i) != b.get_char(i) {
            proof {
                assert(a@.subrange(from as int, to as int)[i as int] != b@[i as int]);
            }
            return false;
        }
        i = i + 1;
    }
    assert(a@.subrange(from as int, to as int) =~= b@);
    true
}

fn bits_of_piece(a: &str, from: usize, to: usize) -> (r: u16)
    requires
        from <= to <= a@.len(),
    ensures
        r == piece_bits(a@.subrange(from as int, to as int)),
{
    let ghost p = a@.subrange(from as int, to as int);
    let mut i: usize = 0;
    while i < FLAG_COUNT
        invariant
            i <= FLAG_COUNT,
            from <= to <= a@.len(),
            p == a@.subrange(from as int, to as int),
            forall|j: int| 0 <= j < i ==> flag_label(j) != p,
        decreases FLAG_COUNT - i,
    {
        let (bit, label) = flag_entry(i);
        if same_text(a, from, to, label) {
            proof {
                assert(flag_label(i as int) == p);
                let k = choose|k: int| 0 <= k < FLAG_COUNT && #[trigger] flag_label(k) == p;
                lemma_flag_labels_distinct(i as int, k);
            }
            return bit;
        }
        i = i + 1;
    }
    0
}

/// The bounds of `a[from..to]` trimmed of white space.
fn trim_bounds(a: &str, from: usize, to: usize) -> (r: (usize, usize))
    requires
        from <= to <= a@.len(),
    ensures
        from <= r.0 <= r.1 <= to,
        a@.subrange(r.0 as int, r.1 as int) == trimmed(a@.subrange(from as int, to as int)),
{
    let mut lo = from;
    let mut hi = to;
    while lo < hi && white(a.get_char(lo))
        invariant
            from <= lo <= hi <= to <= a@.len(),
            trimmed(a@.subrange(lo as int, hi as int)) == trimmed(a@.subrange(from as int, to as int)),
        decreases hi - lo,
    {
        assert(a@.subrange(lo + 1, hi as int) =~= a@.subrange(lo as int, hi as int).drop_first());
        lo = lo + 1;
    }
    while lo < hi && white(a.get_char(hi - 1))
        invariant
            from <= lo <= hi <= to <= a@.len(),
            trimmed(a@.subrange(lo as int, hi as int)) == trimmed(a@.subrange(from as int, to as int)),
            lo < hi ==> !is_white(a@[lo as int]),
        decreases hi - lo,
    {
        assert(a@.subrange(lo as int, hi - 1) =~= a@.subrange(lo as int, hi as int).drop_last());
        hi = hi - 1;
    }
    (lo, hi)
}

impl Modifiers {
    /// The flag names of the set joined by `|`, or `NONE` for the empty set.
    pub fn to_string(&self) -> (r: String)
        ensures
            r@ == modifiers_text(*self),
    {
        let mut s = String::new();
        if self.bits == 0 {
            s.append("NONE");
        }
        let mut i: usize = 0;
        while i < FLAG_COUNT
            invariant
                i <= FLAG_COUNT,
                s@ == text_upto(*self, i as nat),
            decreases FLAG_COUNT - i,
        {
            let (bit, label) = flag_entry(i);
            if self.bits & bit == bit {
                if !s.as_str().is_empty() {
                    s.append("|");
                }
                s.append(label);
            }
            i = i + 1;
        }
        s
    }

    /// The set named by `|`-separated flag names, each trimmed of white
    /// space; a piece that names no flag is ignored.
    pub fn try_from(s: String) -> (r: Result<Modifiers, String>)
        ensures
            r == Ok::<Modifiers, String>(modifiers_of_text(s@)),
    {
        let t = s.as_str();
        let n = t.unicode_len();
        let mut bits: u16 = 0;
        let mut start: usize = 0;
        let mut i: usize = 0;
        while i < n
            invariant
                n == t@.len(),
                t@ == s@,
                i <= n,
                start <= i,
                parsed_upto(t@, i as nat) == (bits, start as int),
            decreases n - i,
        {
            if t.get_char(i) == '|' {
                let (lo, hi) = trim_bounds(t, start, i);
                bits = bits | bits_of_piece(t, lo, hi);
                start = i + 1;
            }
            i = i + 1;
        }
        let (lo, hi) = trim_bounds(t, start, n);
        Ok(Modifiers { bits: bits | bits_of_piece(t, lo, hi) })
    }
}

} // verus!
