//! Native key actions: a key code or keysym with the state to put it in.
use vstd::prelude::*;

use crate::phys::PhysKeyCode;
use crate::types::{phys_op, KeyEvent};

verus! {

/// A native key: a key code or a keysym.
#[derive(Clone, Copy, Debug, PartialEq, Eq, Structural)]
pub enum Code {
    KeyCode(u32),
    KeySym(u32),
}

/// What to do with a key.
#[derive(Clone, Copy, Debug, PartialEq, Eq, Structural)]
pub enum State {
    Press,
    Release,
    Click,
}

impl From<bool> for State {
    /// `Press` for a press, `Release` otherwise.
    fn from(value: bool) -> (r: State) {
        if value {
            State::Press
        } else {
            State::Release
        }
    }
}

impl vstd::std_specs::convert::FromSpecImpl<bool> for State {
    open spec fn obeys_from_spec() -> bool {
        true
    }

    open spec fn from_spec(value: bool) -> State {
        if value {
            State::Press
        } else {
            State::Release
        }
    }
}

/// A key together with the state to put it in.
#[derive(Clone, Copy, Debug, PartialEq, Eq, Structural)]
pub struct CodeState {
    /// Key code or keysym
    pub code: Code,
    pub state: State,
}

impl CodeState {
    pub fn new(code: Code, state: State) -> (r: CodeState)
        ensures
            r == (CodeState { code, state }),
    {
        CodeState { code, state }
    }
}

/// A key action: mirror the key, or undo it.
#[derive(Clone, Copy, Debug, PartialEq, Eq, Structural)]
pub enum Action {
    Sync(CodeState),
    Reverse(CodeState),
}

/// X11 core modifier mask bit of Shift.
pub const SHIFT_MASK: u32 = 1;
/// X11 core modifier mask bit of Caps Lock.
pub const LOCK_MASK: u32 = 2;
/// X11 core modifier mask bit of Control.
pub const CONTROL_MASK: u32 = 4;
/// X11 core modifier mask bit of Mod1 (Alt).
pub const MOD1_MASK: u32 = 8;
/// X11 core modifier mask bit of Mod2 (Num Lock).
pub const MOD2_MASK: u32 = 16;
/// X11 core modifier mask bit of Mod4 (Super).
pub const MOD4_MASK: u32 = 64;
/// X11 core modifier mask bit of Mod5 (ISO level 3 shift).
pub const MOD5_MASK: u32 = 128;

/// The state of the four held modifiers as a pointer query reports them.
#[derive(Clone, Copy, Debug, PartialEq, Eq, Structural)]
pub struct ModifierState {
    pub shift: bool,
    pub ctrl: bool,
    pub alt: bool,
    pub meta: bool,
}

impl ModifierState {
    /// Read Shift, Control, Alt (Mod1) and Meta (Mod4) from an X11 core modifier mask.
    pub fn new(mask: u32) -> (r: ModifierState)
        ensures
            r.shift == (mask & SHIFT_MASK == SHIFT_MASK),
            r.ctrl == (mask & CONTROL_MASK == CONTROL_MASK),
            r.alt == (mask & MOD1_MASK == MOD1_MASK),
            r.meta == (mask & MOD4_MASK == MOD4_MASK),
    {
        ModifierState {
            shift: mask & SHIFT_MASK == SHIFT_MASK,
            ctrl: mask & CONTROL_MASK == CONTROL_MASK,
            alt: mask & MOD1_MASK == MOD1_MASK,
            meta: mask & MOD4_MASK == MOD4_MASK,
        }
    }
}

/// Whether `keys` holds `a` or `b`.
pub open spec fn holds_either(keys: Seq<PhysKeyCode>, a: PhysKeyCode, b: PhysKeyCode) -> bool {
    keys.contains(a) || keys.contains(b)
}

/// The press (or release) of `left` when `wanted` holds and `held` does not
/// (or the other way round).
pub open spec fn sync_op(held: bool, wanted: bool, left: PhysKeyCode) -> Seq<KeyEvent> {
    if !wanted && held {
        seq![phys_op(left, false)]
    } else if wanted && !held {
        seq![phys_op(left, true)]
    } else {
        seq![]
    }
}

fn holds(keys: &Vec<PhysKeyCode>, a: PhysKeyCode, b: PhysKeyCode) -> (r: bool)
    ensures
        r == holds_either(keys@, a, b),
{
    let n = keys.len();
    let mut i: usize = 0;
    while i < n
        invariant
            n == keys@.len(),
            i <= n,
            forall|j: int| 0 <= j < i ==> keys@[j] != a && keys@[j] != b,
        decreases n - i,
    {
        if keys[i] == a || keys[i] == b {
            proof {
                if keys@[i as int] == a {
                    assert(keys@.contains(a));
                } else {
                    assert(keys@.contains(b));
                }
            }
            return true;
        }
        i = i + 1;
    }
    false
}

fn push_sync(v: &mut Vec<KeyEvent>, held: bool, wanted: bool, left: PhysKeyCode)
    ensures
        final(v)@ == old(v)@ + sync_op(held, wanted, left),
{
    if !wanted && held {
        v.push(KeyEvent::with_phys(left, false));
    } else if wanted && !held {
        v.push(KeyEvent::with_phys(left, true));
    }
    assert(final(v)@ =~= old(v)@ + sync_op(held, wanted, left));
}

impl ModifierState {
    /// The presses and releases of the left modifier keys that bring this
    /// state to the one where exactly the modifiers of `modifiers` (a list of
    /// held modifier keys of either side) are down: Shift, Control, Alt, Meta.
    pub fn compare_modifers(&self, modifiers: &Vec<PhysKeyCode>) -> (r: Vec<KeyEvent>)
        ensures
            r@ == sync_op(self.shift, holds_either(modifiers@, PhysKeyCode::ShiftLeft, PhysKeyCode::ShiftRight), PhysKeyCode::ShiftLeft)
                + sync_op(self.ctrl, holds_either(modifiers@, PhysKeyCode::ControlLeft, PhysKeyCode::ControlRight), PhysKeyCode::ControlLeft)
                + sync_op(self.alt, holds_either(modifiers@, PhysKeyCode::AltLeft, PhysKeyCode::AltRight), PhysKeyCode::AltLeft)
                + sync_op(self.meta, holds_either(modifiers@, PhysKeyCode::MetaLeft, PhysKeyCode::MetaRight), PhysKeyCode::MetaLeft),
    {
        let shift = holds(modifiers, PhysKeyCode::ShiftLeft, PhysKeyCode::ShiftRight);
        let ctrl = holds(modifiers, PhysKeyCode::ControlLeft, PhysKeyCode::ControlRight);
        let alt = holds(modifiers, PhysKeyCode::AltLeft, PhysKeyCode::AltRight);
        let meta = holds(modifiers, PhysKeyCode::MetaLeft, PhysKeyCode::MetaRight);
        let mut codes: Vec<KeyEvent> = Vec::new();
        push_sync(&mut codes, self.shift, shift, PhysKeyCode::ShiftLeft);
        push_sync(&mut codes, self.ctrl, ctrl, PhysKeyCode::ControlLeft);
        push_sync(&mut codes, self.alt, alt, PhysKeyCode::AltLeft);
        push_sync(&mut codes, self.meta, meta, PhysKeyCode::MetaLeft);
        assert(codes@ =~= Seq::<KeyEvent>::empty() + sync_op(self.shift, shift, PhysKeyCode::ShiftLeft)
            + sync_op(self.ctrl, ctrl, PhysKeyCode::ControlLeft) + sync_op(self.alt, alt, PhysKeyCode::AltLeft)
            + sync_op(self.meta, meta, PhysKeyCode::MetaLeft));
        codes
    }
}

} // verus!
