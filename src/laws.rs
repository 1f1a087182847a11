//! Properties of modifier reconciliation and of folding side-specific
//! modifier bits, proved over the specifications of `types`.
use vstd::prelude::*;

use crate::phys::PhysKeyCode;
use crate::types::{
    fold_side, hold_ops, lock_ops, mods, phys_op, spec_diff, KeyCode, KeyEvent, Modifiers, ALT_BIT,
    ALT_GR_BIT, CAPS_BIT, CTRL_BIT, LEFT_ALT_BIT, LEFT_CTRL_BIT, LEFT_SHIFT_BIT, META_BIT, NUM_BIT,
    RIGHT_ALT_BIT, RIGHT_CTRL_BIT, RIGHT_SHIFT_BIT, SHIFT_BIT,
};

verus! {

/// The bit of the `i`-th held modifier: Shift, Control, Alt, Meta, AltGr.
pub open spec fn hold_bit(i: int) -> u16 {
    if i == 0 {
        SHIFT_BIT
    } else if i == 1 {
        CTRL_BIT
    } else if i == 2 {
        ALT_BIT
    } else if i == 3 {
        META_BIT
    } else {
        ALT_GR_BIT
    }
}

/// The key that presses the `i`-th held modifier.
pub open spec fn hold_left(i: int) -> PhysKeyCode {
    if i == 0 {
        PhysKeyCode::ShiftLeft
    } else if i == 1 {
        PhysKeyCode::ControlLeft
    } else if i == 2 {
        PhysKeyCode::AltLeft
    } else if i == 3 {
        PhysKeyCode::MetaLeft
    } else {
        PhysKeyCode::AltRight
    }
}

/// The right-hand key of the `i`-th held modifier.
pub open spec fn hold_right(i: int) -> PhysKeyCode {
    if i == 0 {
        PhysKeyCode::ShiftRight
    } else if i == 1 {
        PhysKeyCode::ControlRight
    } else if i == 3 {
        PhysKeyCode::MetaRight
    } else {
        PhysKeyCode::AltRight
    }
}

/// The bit of the `j`-th lock modifier: Caps, Num.
pub open spec fn lock_bit(j: int) -> u16 {
    if j == 0 {
        CAPS_BIT
    } else {
        NUM_BIT
    }
}

/// The key of the `j`-th lock modifier.
pub open spec fn lock_key(j: int) -> PhysKeyCode {
    if j == 0 {
        PhysKeyCode::CapsLock
    } else {
        PhysKeyCode::NumLock
    }
}

/// Whether the two sets disagree on `bit`.
pub open spec fn differs(observed: Modifiers, target: Modifiers, bit: u16) -> bool {
    observed.has(mods(bit)) != target.has(mods(bit))
}

/// Whether the event `e` operates a modifier on which the two sets disagree,
/// pressing only what `target` holds.
pub open spec fn accounted(observed: Modifiers, target: Modifiers, e: KeyEvent) -> bool {
    e.modifiers == mods(0) && e.raw_event is None && ((exists|i: int|
        0 <= i < 5 && #[trigger] differs(observed, target, hold_bit(i)) && (e.key == KeyCode::Physical(
            hold_left(i),
        ) || e.key == KeyCode::Physical(hold_right(i))) && (e.press ==> target.has(mods(hold_bit(i)))))
        || (exists|j: int|
        0 <= j < 2 && #[trigger] differs(observed, target, lock_bit(j)) && e.key == KeyCode::Physical(
            lock_key(j),
        )))
}

proof fn lemma_concat_contains(a: Seq<KeyEvent>, b: Seq<KeyEvent>)
    ensures
        forall|x: KeyEvent| #[trigger] (a + b).contains(x) <==> a.contains(x) || b.contains(x),
{
    assert forall|x: KeyEvent| #[trigger] (a + b).contains(x) <==> a.contains(x) || b.contains(x) by {
        if (a + b).contains(x) {
            let k = choose|k: int| 0 <= k < (a + b).len() && (a + b)[k] == x;
            if k < a.len() {
                assert(a[k] == x);
            } else {
                assert(b[k - a.len()] == x);
            }
        }
        if a.contains(x) {
            let k = choose|k: int| 0 <= k < a.len() && a[k] == x;
            assert((a + b)[k] == x);
        }
        if b.contains(x) {
            let k = choose|k: int| 0 <= k < b.len() && b[k] == x;
            assert((a + b)[k + a.len()] == x);
        }
    }
}

proof fn lemma_hold_segment(observed: Modifiers, target: Modifiers, i: int)
    requires
        0 <= i < 5,
    ensures
        forall|e: KeyEvent|
            #[trigger] hold_ops(observed, target, hold_bit(i), hold_left(i), hold_right(i)).contains(e)
                ==> accounted(observed, target, e),
        target.has(mods(hold_bit(i))) && !observed.has(mods(hold_bit(i))) ==> hold_ops(
            observed,
            target,
            hold_bit(i),
            hold_left(i),
            hold_right(i),
        ).contains(phys_op(hold_left(i), true)),
        observed.has(mods(hold_bit(i))) && !target.has(mods(hold_bit(i))) ==> hold_ops(
            observed,
            target,
            hold_bit(i),
            hold_left(i),
            hold_right(i),
        ).contains(phys_op(hold_left(i), false)) && hold_ops(
            observed,
            target,
            hold_bit(i),
            hold_left(i),
            hold_right(i),
        ).contains(phys_op(hold_right(i), false)),
{
    let s = hold_ops(observed, target, hold_bit(i), hold_left(i), hold_right(i));
    assert forall|e: KeyEvent| #[trigger] s.contains(e) implies accounted(observed, target, e) by {
        let k = choose|k: int| 0 <= k < s.len() && s[k] == e;
        assert(differs(observed, target, hold_bit(i)));
    }
    if target.has(mods(hold_bit(i))) && !observed.has(mods(hold_bit(i))) {
        assert(s[0] == phys_op(hold_left(i), true));
    }
    if observed.has(mods(hold_bit(i))) && !target.has(mods(hold_bit(i))) {
        assert(s[0] == phys_op(hold_left(i), false));
        if hold_left(i) != hold_right(i) {
            assert(s[1] == phys_op(hold_right(i), false));
        }
    }
}

proof fn lemma_lock_segment(observed: Modifiers, target: Modifiers, j: int)
    requires
        0 <= j < 2,
    ensures
        forall|e: KeyEvent| #[trigger] lock_ops(observed, target, lock_bit(j), lock_key(j)).contains(e)
            ==> accounted(observed, target, e),
        differs(observed, target, lock_bit(j)) ==> lock_ops(observed, target, lock_bit(j), lock_key(j))
            =~= seq![phys_op(lock_key(j), true), phys_op(lock_key(j), false)],
{
    let s = lock_ops(observed, target, lock_bit(j), lock_key(j));
    assert forall|e: KeyEvent| #[trigger] s.contains(e) implies accounted(observed, target, e) by {
        let k = choose|k: int| 0 <= k < s.len() && s[k] == e;
        assert(differs(observed, target, lock_bit(j)));
    }
}

/// Reconciling `observed` to `target` presses each held modifier (Shift,
/// Control, Alt, Meta, AltGr) that only `target` has, releases each one that
/// only `observed` has, taps each lock (Caps, Num) whose state differs with
/// exactly one press and one release, and holds no operation for a modifier on
/// which both sets agree.
pub proof fn lemma_diff_modifiers(observed: Modifiers, target: Modifiers)
    ensures
        forall|i: int|
            0 <= i < 5 && target.has(mods(#[trigger] hold_bit(i))) && !observed.has(mods(hold_bit(i)))
                ==> spec_diff(observed, target).contains(phys_op(hold_left(i), true)),
        forall|i: int|
            0 <= i < 5 && observed.has(mods(#[trigger] hold_bit(i))) && !target.has(mods(hold_bit(i)))
                ==> spec_diff(observed, target).contains(phys_op(hold_left(i), false))
                && spec_diff(observed, target).contains(phys_op(hold_right(i), false)),
        forall|j: int|
            0 <= j < 2 && #[trigger] differs(observed, target, lock_bit(j)) ==> spec_diff(
                observed,
                target,
            ).contains(phys_op(lock_key(j), true)) && spec_diff(observed, target).contains(
                phys_op(lock_key(j), false),
            ),
        forall|j: int|
            0 <= j < 2 && #[trigger] differs(observed, target, lock_bit(j)) ==> lock_ops(
                observed,
                target,
                lock_bit(j),
                lock_key(j),
            ) =~= seq![phys_op(lock_key(j), true), phys_op(lock_key(j), false)],
        forall|j: int|
            0 <= j < 2 && !#[trigger] differs(observed, target, lock_bit(j)) ==> lock_ops(
                observed,
                target,
                lock_bit(j),
                lock_key(j),
            ).len() == 0,
        forall|e: KeyEvent| #[trigger]
            spec_diff(observed, target).contains(e) ==> accounted(observed, target, e),
{
    let c = lock_ops(observed, target, CAPS_BIT, PhysKeyCode::CapsLock);
    let n = lock_ops(observed, target, NUM_BIT, PhysKeyCode::NumLock);
    let h0 = hold_ops(observed, target, hold_bit(0), hold_left(0), hold_right(0));
    let h1 = hold_ops(observed, target, hold_bit(1), hold_left(1), hold_right(1));
    let h2 = hold_ops(observed, target, hold_bit(2), hold_left(2), hold_right(2));
    let h3 = hold_ops(observed, target, hold_bit(3), hold_left(3), hold_right(3));
    let h4 = hold_ops(observed, target, hold_bit(4), hold_left(4), hold_right(4));
    let all = spec_diff(observed, target);
    assert(all == c + n + h0 + h1 + h2 + h3 + h4);
    lemma_concat_contains(c, n);
    lemma_concat_contains(c + n, h0);
    lemma_concat_contains(c + n + h0, h1);
    lemma_concat_contains(c + n + h0 + h1, h2);
    lemma_concat_contains(c + n + h0 + h1 + h2, h3);
    lemma_concat_contains(c + n + h0 + h1 + h2 + h3, h4);
    lemma_lock_segment(observed, target, 0);
    lemma_lock_segment(observed, target, 1);
    lemma_hold_segment(observed, target, 0);
    lemma_hold_segment(observed, target, 1);
    lemma_hold_segment(observed, target, 2);
    lemma_hold_segment(observed, target, 3);
    lemma_hold_segment(observed, target, 4);
    assert forall|j: int|
        0 <= j < 2 && #[trigger] differs(observed, target, lock_bit(j)) implies all.contains(
        phys_op(lock_key(j), true),
    ) && all.contains(phys_op(lock_key(j), false)) by {
        let s = lock_ops(observed, target, lock_bit(j), lock_key(j));
        assert(s[0] == phys_op(lock_key(j), true));
        assert(s[1] == phys_op(lock_key(j), false));
        assert(s.contains(phys_op(lock_key(j), true)));
        assert(s.contains(phys_op(lock_key(j), false)));
    }
}

/// Whether the event operates the physical key `k`.
pub open spec fn on_key(k: PhysKeyCode) -> spec_fn(KeyEvent) -> bool {
    |e: KeyEvent| e.key == KeyCode::Physical(k)
}

proof fn lemma_filter_none(s: Seq<KeyEvent>, pred: spec_fn(KeyEvent) -> bool)
    requires
        forall|i: int| 0 <= i < s.len() ==> !pred(#[trigger] s[i]),
    ensures
        s.filter(pred) == Seq::<KeyEvent>::empty(),
    decreases s.len(),
{
    reveal(Seq::filter);
    if s.len() > 0 {
        let init = s.drop_last();
        assert forall|i: int| 0 <= i < init.len() implies !pred(#[trigger] init[i]) by {
            assert(init[i] == s[i]);
        }
        lemma_filter_none(init, pred);
        assert(!pred(s[s.len() - 1]));
    }
}

proof fn lemma_filter_all(s: Seq<KeyEvent>, pred: spec_fn(KeyEvent) -> bool)
    requires
        forall|i: int| 0 <= i < s.len() ==> pred(#[trigger] s[i]),
    ensures
        s.filter(pred) == s,
    decreases s.len(),
{
    reveal(Seq::filter);
    if s.len() > 0 {
        let init = s.drop_last();
        assert forall|i: int| 0 <= i < init.len() implies pred(#[trigger] init[i]) by {
            assert(init[i] == s[i]);
        }
        lemma_filter_all(init, pred);
        assert(pred(s[s.len() - 1]));
        assert(init.push(s.last()) =~= s);
    }
}

/// Reconciliation taps a lock key exactly once when the two sets disagree
/// on its lock, and never touches it otherwise: the events on the Caps Lock
/// (or Num Lock) key are one press and then one release, adjacent, or none.
pub proof fn lemma_diff_lock_taps(observed: Modifiers, target: Modifiers, j: int)
    requires
        0 <= j < 2,
    ensures
        differs(observed, target, lock_bit(j)) ==> spec_diff(observed, target).filter(on_key(lock_key(j)))
            == seq![phys_op(lock_key(j), true), phys_op(lock_key(j), false)],
        differs(observed, target, lock_bit(j)) ==> exists|i: int|
            0 <= i && i + 1 < spec_diff(observed, target).len() && #[trigger] spec_diff(observed, target)[i]
                == phys_op(lock_key(j), true) && spec_diff(observed, target)[i + 1] == phys_op(
                lock_key(j),
                false,
            ),
        !differs(observed, target, lock_bit(j)) ==> spec_diff(observed, target).filter(
            on_key(lock_key(j)),
        ) == Seq::<KeyEvent>::empty(),
{
    let pred = on_key(lock_key(j));
    let c = lock_ops(observed, target, CAPS_BIT, PhysKeyCode::CapsLock);
    let n = lock_ops(observed, target, NUM_BIT, PhysKeyCode::NumLock);
    let h0 = hold_ops(observed, target, hold_bit(0), hold_left(0), hold_right(0));
    let h1 = hold_ops(observed, target, hold_bit(1), hold_left(1), hold_right(1));
    let h2 = hold_ops(observed, target, hold_bit(2), hold_left(2), hold_right(2));
    let h3 = hold_ops(observed, target, hold_bit(3), hold_left(3), hold_right(3));
    let h4 = hold_ops(observed, target, hold_bit(4), hold_left(4), hold_right(4));
    let all = spec_diff(observed, target);
    assert(all == c + n + h0 + h1 + h2 + h3 + h4);
    broadcast use Seq::filter_distributes_over_add;
    lemma_filter_none(h0, pred);
    lemma_filter_none(h1, pred);
    lemma_filter_none(h2, pred);
    lemma_filter_none(h3, pred);
    lemma_filter_none(h4, pred);
    let mine = lock_ops(observed, target, lock_bit(j), lock_key(j));
    let other = if j == 0 {
        n
    } else {
        c
    };
    lemma_filter_none(other, pred);
    if differs(observed, target, lock_bit(j)) {
        lemma_filter_all(mine, pred);
        if j == 0 {
            assert(all[0] == phys_op(lock_key(j), true) && all[1] == phys_op(lock_key(j), false));
        } else {
            let k = c.len() as int;
            assert(all[k] == phys_op(lock_key(j), true) && all[k + 1] == phys_op(lock_key(j), false));
        }
    } else {
        lemma_filter_none(mine, pred);
    }
    assert(c + n + h0 + h1 + h2 + h3 + h4 == (((((c + n) + h0) + h1) + h2) + h3) + h4);
    if j == 0 {
        assert(all.filter(pred) =~= mine.filter(pred));
    } else {
        assert(all.filter(pred) =~= mine.filter(pred));
    }
}

/// Folding the side-specific modifier bits twice gives the same set as folding once.
pub proof fn lemma_trans_positional_idempotent(m: Modifiers)
    ensures
        m.spec_trans_positional().spec_trans_positional() == m.spec_trans_positional(),
{
    let b = m.bits;
    assert(32u16 | 64u16 == 96u16 && 128u16 | 256u16 == 384u16 && 512u16 | 1024u16 == 1536u16)
        by (bit_vector);
    let a = fold_side(b, LEFT_ALT_BIT | RIGHT_ALT_BIT, ALT_BIT);
    let c = fold_side(b, LEFT_CTRL_BIT | RIGHT_CTRL_BIT, CTRL_BIT);
    let s = fold_side(b, LEFT_SHIFT_BIT | RIGHT_SHIFT_BIT, SHIFT_BIT);
    let t = (b & !2016u16) | a | c | s;
    assert(t & 96u16 == 0 && t & 384u16 == 0 && t & 1536u16 == 0 && (t & !2016u16) | 0u16 | 0u16
        | 0u16 == t) by (bit_vector)
        requires
            a == 0u16 || a == 4u16,
            c == 0u16 || c == 8u16,
            s == 0u16 || s == 2u16,
            t == (b & !2016u16) | a | c | s,
    ;
}

} // verus!
