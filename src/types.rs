//! Modifier sets, key codes and key events, and the reconciliation of an
//! observed modifier set with a wanted one.
use vstd::prelude::*;

pub use crate::phys::PhysKeyCode;

verus! {

/// Bit of the side-independent Shift modifier.
pub const SHIFT_BIT: u16 = 2;
/// Bit of the side-independent Alt modifier.
pub const ALT_BIT: u16 = 4;
/// Bit of the side-independent Control modifier.
pub const CTRL_BIT: u16 = 8;
/// Bit of the Meta (logo) modifier.
pub const META_BIT: u16 = 16;
/// Bit of the left Alt key.
pub const LEFT_ALT_BIT: u16 = 32;
/// Bit of the right Alt key.
pub const RIGHT_ALT_BIT: u16 = 64;
/// Bit of the left Control key.
pub const LEFT_CTRL_BIT: u16 = 128;
/// Bit of the right Control key.
pub const RIGHT_CTRL_BIT: u16 = 256;
/// Bit of the left Shift key.
pub const LEFT_SHIFT_BIT: u16 = 512;
/// Bit of the right Shift key.
pub const RIGHT_SHIFT_BIT: u16 = 1024;
/// Bit of Caps Lock.
pub const CAPS_BIT: u16 = 2048;
/// Bit of Num Lock.
pub const NUM_BIT: u16 = 4096;
/// Bit of AltGr (ISO level 3 shift).
pub const ALT_GR_BIT: u16 = 8192;
/// All side-specific bits.
pub const POSITIONAL_BITS: u16 = 2016;

/// A set of modifiers, one bit each.
#[derive(Clone, Copy, Debug, PartialEq, Eq, Structural, Hash)]
pub struct Modifiers {
    pub bits: u16,
}

/// The modifier set with exactly the bits `b`.
pub open spec fn mods(b: u16) -> Modifiers {
    Modifiers { bits: b }
}

#[allow(non_snake_case)]
impl Modifiers {
    /// Whether every bit of `other` is set in `self`.
    pub open spec fn has(self, other: Modifiers) -> bool {
        self.bits & other.bits == other.bits
    }

    /// The bits of `self` or of `other`.
    pub open spec fn spec_union(self, other: Modifiers) -> Modifiers {
        Modifiers { bits: self.bits | other.bits }
    }

    /// The bits of `self` that are not in `other`.
    pub open spec fn spec_minus(self, other: Modifiers) -> Modifiers {
        Modifiers { bits: self.bits & !other.bits }
    }

    /// The empty set.
    pub fn NONE() -> (r: Modifiers)
        ensures
            r.bits == 0,
    {
        Modifiers { bits: 0 }
    }

    /// Shift, either side.
    pub fn SHIFT() -> (r: Modifiers)
        ensures
            r.bits == SHIFT_BIT,
    {
        Modifiers { bits: SHIFT_BIT }
    }

    /// Alt, either side.
    pub fn ALT() -> (r: Modifiers)
        ensures
            r.bits == ALT_BIT,
    {
        Modifiers { bits: ALT_BIT }
    }

    /// Control, either side.
    pub fn CTRL() -> (r: Modifiers)
        ensures
            r.bits == CTRL_BIT,
    {
        Modifiers { bits: CTRL_BIT }
    }

    /// Meta (logo).
    pub fn META() -> (r: Modifiers)
        ensures
            r.bits == META_BIT,
    {
        Modifiers { bits: META_BIT }
    }

    /// The left Alt key.
    pub fn LEFT_ALT() -> (r: Modifiers)
        ensures
            r.bits == LEFT_ALT_BIT,
    {
        Modifiers { bits: LEFT_ALT_BIT }
    }

    /// The right Alt key.
    pub fn RIGHT_ALT() -> (r: Modifiers)
        ensures
            r.bits == RIGHT_ALT_BIT,
    {
        Modifiers { bits: RIGHT_ALT_BIT }
    }

    /// The left Control key.
    pub fn LEFT_CTRL() -> (r: Modifiers)
        ensures
            r.bits == LEFT_CTRL_BIT,
    {
        Modifiers { bits: LEFT_CTRL_BIT }
    }

    /// The right Control key.
    pub fn RIGHT_CTRL() -> (r: Modifiers)
        ensures
            r.bits == RIGHT_CTRL_BIT,
    {
        Modifiers { bits: RIGHT_CTRL_BIT }
    }

    /// The left Shift key.
    pub fn LEFT_SHIFT() -> (r: Modifiers)
        ensures
            r.bits == LEFT_SHIFT_BIT,
    {
        Modifiers { bits: LEFT_SHIFT_BIT }
    }

    /// The right Shift key.
    pub fn RIGHT_SHIFT() -> (r: Modifiers)
        ensures
            r.bits == RIGHT_SHIFT_BIT,
    {
        Modifiers { bits: RIGHT_SHIFT_BIT }
    }

    /// Caps Lock.
    pub fn CAPS() -> (r: Modifiers)
        ensures
            r.bits == CAPS_BIT,
    {
        Modifiers { bits: CAPS_BIT }
    }

    /// Num Lock.
    pub fn NUM() -> (r: Modifiers)
        ensures
            r.bits == NUM_BIT,
    {
        Modifiers { bits: NUM_BIT }
    }

    /// AltGr (ISO level 3 shift).
    pub fn ALT_GR() -> (r: Modifiers)
        ensures
            r.bits == ALT_GR_BIT,
    {
        Modifiers { bits: ALT_GR_BIT }
    }

    /// Whether every bit of `other` is set in `self`.
    pub fn contains(&self, other: Modifiers) -> (r: bool)
        ensures
            r == self.has(other),
    {
        self.bits & other.bits == other.bits
    }

    /// The bits of `self` or of `other`.
    pub fn union(self, other: Modifiers) -> (r: Modifiers)
        ensures
            r == self.spec_union(other),
    {
        Modifiers { bits: self.bits | other.bits }
    }

    /// The bits of `self` that are not in `other`.
    pub fn difference(self, other: Modifiers) -> (r: Modifiers)
        ensures
            r == self.spec_minus(other),
    {
        Modifiers { bits: self.bits & !other.bits }
    }
}


impl Modifiers {
    /// The modifier set with the side-specific bits folded into their
    /// side-independent bit.
    pub open spec fn spec_trans_positional(self) -> Modifiers {
        Modifiers {
            bits: (self.bits & !POSITIONAL_BITS) | fold_side(self.bits, LEFT_ALT_BIT | RIGHT_ALT_BIT, ALT_BIT)
                | fold_side(self.bits, LEFT_CTRL_BIT | RIGHT_CTRL_BIT, CTRL_BIT) | fold_side(
                self.bits,
                LEFT_SHIFT_BIT | RIGHT_SHIFT_BIT,
                SHIFT_BIT,
            ),
        }
    }

    /// Remove positional and other "supplemental" bits that
    /// are used to carry around implementation details, but that
    /// are not bits that should be matched when matching key
    /// assignments.
    pub fn remove_positional_mods(self) -> (r: Modifiers)
        ensures
            r.bits == self.bits & !POSITIONAL_BITS,
    {
        Modifiers { bits: self.bits & !POSITIONAL_BITS }
    }

    /// Fold each pair of side-specific bits into the side-independent bit:
    /// the side bits are cleared, and the logical bit is set when either side was.
    pub fn trans_positional_mods(self) -> (r: Modifiers)
        ensures
            r == self.spec_trans_positional(),
    {
        let alt: u16 = if self.bits & (LEFT_ALT_BIT | RIGHT_ALT_BIT) != 0 {
            ALT_BIT
        } else {
            0
        };
        let ctrl: u16 = if self.bits & (LEFT_CTRL_BIT | RIGHT_CTRL_BIT) != 0 {
            CTRL_BIT
        } else {
            0
        };
        let shift: u16 = if self.bits & (LEFT_SHIFT_BIT | RIGHT_SHIFT_BIT) != 0 {
            SHIFT_BIT
        } else {
            0
        };
        Modifiers { bits: (self.bits & !POSITIONAL_BITS) | alt | ctrl | shift }
    }

    /// Whether any Control, Alt or Meta bit is set.
    pub open spec fn spec_is_shortcut(self) -> bool {
        self.bits & (CTRL_BIT | ALT_BIT | LEFT_CTRL_BIT | LEFT_ALT_BIT | RIGHT_CTRL_BIT
            | RIGHT_ALT_BIT | META_BIT) != 0
    }

    /// Whether the set holds a modifier that turns a key press into a shortcut:
    /// Control or Alt on either side, or Meta.
    pub fn is_shortcut(&self) -> (r: bool)
        ensures
            r == self.spec_is_shortcut(),
    {
        self.bits & (CTRL_BIT | ALT_BIT | LEFT_CTRL_BIT | LEFT_ALT_BIT | RIGHT_CTRL_BIT
            | RIGHT_ALT_BIT | META_BIT) != 0
    }

    /// The key presses and releases that bring the modifiers `self` to `target`.
    ///
    /// A lock modifier (Caps, Num) whose state differs is tapped once. A held
    /// modifier that `target` needs is pressed with its left key (AltGr with the
    /// right Alt key); one that `target` lacks is released on both sides.
    pub fn diff_modifiers(&self, target: &Modifiers) -> (r: Vec<KeyEvent>)
        ensures
            r@ == spec_diff(*self, *target),
    {
        let mut v: Vec<KeyEvent> = Vec::new();
        push_lock_ops(&mut v, *self, *target, CAPS_BIT, PhysKeyCode::CapsLock);
        push_lock_ops(&mut v, *self, *target, NUM_BIT, PhysKeyCode::NumLock);
        push_hold_ops(&mut v, *self, *target, SHIFT_BIT, PhysKeyCode::ShiftLeft, PhysKeyCode::ShiftRight);
        push_hold_ops(&mut v, *self, *target, CTRL_BIT, PhysKeyCode::ControlLeft, PhysKeyCode::ControlRight);
        push_hold_ops(&mut v, *self, *target, ALT_BIT, PhysKeyCode::AltLeft, PhysKeyCode::AltRight);
        push_hold_ops(&mut v, *self, *target, META_BIT, PhysKeyCode::MetaLeft, PhysKeyCode::MetaRight);
        push_hold_ops(&mut v, *self, *target, ALT_GR_BIT, PhysKeyCode::AltRight, PhysKeyCode::AltRight);
        v
    }
}

/// `logical` when any bit of `sides` is set in `bits`, else nothing.
pub open spec fn fold_side(bits: u16, sides: u16, logical: u16) -> u16 {
    if bits & sides != 0 {
        logical
    } else {
        0
    }
}

/// A press or release of a physical key, with no modifiers attached.
pub open spec fn phys_op(p: PhysKeyCode, press: bool) -> KeyEvent {
    KeyEvent { key: KeyCode::Physical(p), press, modifiers: mods(0), raw_event: None }
}

/// The tap of lock key `p` when the lock bit `bit` differs between the two sets.
pub open spec fn lock_ops(observed: Modifiers, target: Modifiers, bit: u16, p: PhysKeyCode) -> Seq<KeyEvent> {
    if observed.has(mods(bit)) != target.has(mods(bit)) {
        seq![phys_op(p, true), phys_op(p, false)]
    } else {
        seq![]
    }
}

/// The operations for a held modifier `bit` operated by the keys `left` and `right`.
pub open spec fn hold_ops(
    observed: Modifiers,
    target: Modifiers,
    bit: u16,
    left: PhysKeyCode,
    right: PhysKeyCode,
) -> Seq<KeyEvent> {
    if observed.has(mods(bit)) && !target.has(mods(bit)) {
        if left == right {
            seq![phys_op(left, false)]
        } else {
            seq![phys_op(left, false), phys_op(right, false)]
        }
    } else if !observed.has(mods(bit)) && target.has(mods(bit)) {
        seq![phys_op(left, true)]
    } else {
        seq![]
    }
}

/// The modifier reconciliation from `observed` to `target`: locks first, then
/// Shift, Control, Alt, Meta and AltGr.
pub open spec fn spec_diff(observed: Modifiers, target: Modifiers) -> Seq<KeyEvent> {
    lock_ops(observed, target, CAPS_BIT, PhysKeyCode::CapsLock)
        + lock_ops(observed, target, NUM_BIT, PhysKeyCode::NumLock)
        + hold_ops(observed, target, SHIFT_BIT, PhysKeyCode::ShiftLeft, PhysKeyCode::ShiftRight)
        + hold_ops(observed, target, CTRL_BIT, PhysKeyCode::ControlLeft, PhysKeyCode::ControlRight)
        + hold_ops(observed, target, ALT_BIT, PhysKeyCode::AltLeft, PhysKeyCode::AltRight)
        + hold_ops(observed, target, META_BIT, PhysKeyCode::MetaLeft, PhysKeyCode::MetaRight)
        + hold_ops(observed, target, ALT_GR_BIT, PhysKeyCode::AltRight, PhysKeyCode::AltRight)
}

fn push_lock_ops(v: &mut Vec<KeyEvent>, observed: Modifiers, target: Modifiers, bit: u16, p: PhysKeyCode)
    ensures
        final(v)@ == old(v)@ + lock_ops(observed, target, bit, p),
{
    let m = Modifiers { bits: bit };
    if observed.contains(m) != target.contains(m) {
        v.push(KeyEvent::with_phys(p, true));
        v.push(KeyEvent::with_phys(p, false));
    }
    assert(final(v)@ =~= old(v)@ + lock_ops(observed, target, bit, p));
}

fn push_hold_ops(
    v: &mut Vec<KeyEvent>,
    observed: Modifiers,
    target: Modifiers,
    bit: u16,
    left: PhysKeyCode,
    right: PhysKeyCode,
)
    ensures
        final(v)@ == old(v)@ + hold_ops(observed, target, bit, left, right),
{
    let m = Modifiers { bits: bit };
    let held = observed.contains(m);
    let wanted = target.contains(m);
    if held && !wanted {
        v.push(KeyEvent::with_phys(left, false));
        if left != right {
            v.push(KeyEvent::with_phys(right, false));
        }
    } else if !held && wanted {
        v.push(KeyEvent::with_phys(left, true));
    }
    assert(final(v)@ =~= old(v)@ + hold_ops(observed, target, bit, left, right));
}

/// What a key event names: a character, a composed text, a native code, a
/// keysym or virtual key, or a physical key.
#[derive(Clone, Debug, PartialEq, Eq, Hash)]
pub enum KeyCode {
    /// The decoded unicode character
    Char(char),
    Composed(String),
    RawCode(u32),
    KeySym(u32),
    Physical(PhysKeyCode),
}

/// A key event as the hardware reported it.
#[derive(Clone, Copy, Debug, PartialEq, Eq, Structural)]
pub struct RawKeyEvent {
    /// The physical location of the key on an ANSI-Standard US layout
    pub key: PhysKeyCode,
    pub press: bool,
    pub modifiers: Modifiers,
    /// The OS and hardware dependent key code for the key
    /// - windows: virtual key
    /// - linux: keysym
    pub raw_code: u32,
    /// The scan code of the key (Windows), with the extended-key prefix
    /// `0xE0` in the high byte; 0 where the platform reports none
    pub scan_code: u32,
}

/// One logical press or release with the modifiers it occurred under.
#[derive(Clone, Debug, PartialEq, Eq)]
pub struct KeyEvent {
    /// Which key was pressed
    pub key: KeyCode,
    /// Pressed or released
    pub press: bool,
    /// Which modifiers are down
    pub modifiers: Modifiers,
    pub raw_event: Option<RawKeyEvent>,
}

impl KeyEvent {
    /// A press or release of a physical key, without modifiers.
    pub fn with_phys(key: PhysKeyCode, press: bool) -> (r: KeyEvent)
        ensures
            r == phys_op(key, press),
    {
        KeyEvent { key: KeyCode::Physical(key), press, modifiers: Modifiers { bits: 0 }, raw_event: None }
    }

    /// A press or release of `key`, without modifiers.
    pub fn with_keycode(key: KeyCode, press: bool) -> (r: KeyEvent)
        ensures
            r == (KeyEvent { key, press, modifiers: mods(0), raw_event: None }),
    {
        KeyEvent { key, press, modifiers: Modifiers { bits: 0 }, raw_event: None }
    }
}


/// How a receiving simulator replays the events of a remote sender.
#[derive(Clone, Copy, Debug, PartialEq, Eq, Structural)]
pub enum ServerMode {
    /// Replay the physical key the sender pressed.
    Mapping,
    /// Reinterpret the sender's character or key against the local layout.
    Translate,
    /// Reserved.
    Auto,
}

/// Which of up to four loaded layouts (X11 groups) is active.
#[derive(Clone, Copy, Debug, PartialEq, Eq, Structural)]
pub enum GroupIndex {
    N1,
    N2,
    N3,
    N4,
}

/// The layout index of a group.
pub open spec fn spec_group_number(g: GroupIndex) -> u32 {
    match g {
        GroupIndex::N1 => 0,
        GroupIndex::N2 => 1,
        GroupIndex::N3 => 2,
        GroupIndex::N4 => 3,
    }
}

/// The group of layout index `group_id`; an index past the fourth gives the fourth.
pub open spec fn spec_group_of(group_id: u32) -> GroupIndex {
    if group_id == 0 {
        GroupIndex::N1
    } else if group_id == 1 {
        GroupIndex::N2
    } else if group_id == 2 {
        GroupIndex::N3
    } else {
        GroupIndex::N4
    }
}

impl From<u32> for GroupIndex {
    /// The group of a layout index; an index past the fourth gives the fourth.
    fn from(group_id: u32) -> (r: GroupIndex) {
        match group_id {
            0 => GroupIndex::N1,
            1 => GroupIndex::N2,
            2 => GroupIndex::N3,
            _ => GroupIndex::N4,
        }
    }
}

impl vstd::std_specs::convert::FromSpecImpl<u32> for GroupIndex {
    open spec fn obeys_from_spec() -> bool {
        true
    }

    open spec fn from_spec(group_id: u32) -> GroupIndex {
        spec_group_of(group_id)
    }
}

impl From<GroupIndex> for u32 {
    /// The layout index of a group.
    fn from(group_index: GroupIndex) -> (r: u32) {
        group_index.index()
    }
}

impl vstd::std_specs::convert::FromSpecImpl<GroupIndex> for u32 {
    open spec fn obeys_from_spec() -> bool {
        true
    }

    open spec fn from_spec(group_index: GroupIndex) -> u32 {
        spec_group_number(group_index)
    }
}

impl GroupIndex {

    /// The layout index of the group.
    pub fn index(&self) -> (r: u32)
        ensures
            r == spec_group_number(*self),
    {
        match self {
            GroupIndex::N1 => 0,
            GroupIndex::N2 => 1,
            GroupIndex::N3 => 2,
            GroupIndex::N4 => 3,
        }
    }
}

/// Whether a composition is in flight.
#[derive(Clone, Debug, PartialEq, Eq)]
pub enum DeadKeyStatus {
    /// Not in a dead key processing hold
    Idle,
    /// Holding until composition is done; the string is the uncommitted
    /// composition text to show as a placeholder
    Composing(String),
}

/// Whether `c` is a control character (general category Cc).
pub open spec fn spec_is_control(c: char) -> bool {
    (c as u32) < 0x20 || (0x7f <= (c as u32) && (c as u32) <= 0x9f)
}

/// Whether `c` is a control character (general category Cc).
pub fn is_control(c: char) -> (r: bool)
    ensures
        r == spec_is_control(c),
{
    (c as u32) < 0x20 || (0x7f <= (c as u32) && (c as u32) <= 0x9f)
}


/// The side-independent modifier that a modifier key operates, or none.
pub open spec fn spec_mods_of_phys(p: PhysKeyCode) -> Modifiers {
    match p {
        PhysKeyCode::AltLeft | PhysKeyCode::AltRight => mods(ALT_BIT),
        PhysKeyCode::ControlLeft | PhysKeyCode::ControlRight => mods(CTRL_BIT),
        PhysKeyCode::ShiftLeft | PhysKeyCode::ShiftRight => mods(SHIFT_BIT),
        PhysKeyCode::MetaLeft | PhysKeyCode::MetaRight => mods(META_BIT),
        _ => mods(0),
    }
}

impl From<PhysKeyCode> for Modifiers {
    fn from(phys_key: PhysKeyCode) -> (r: Modifiers) {
        match phys_key {
            PhysKeyCode::AltLeft | PhysKeyCode::AltRight => Modifiers { bits: ALT_BIT },
            PhysKeyCode::ControlLeft | PhysKeyCode::ControlRight => Modifiers { bits: CTRL_BIT },
            PhysKeyCode::ShiftLeft | PhysKeyCode::ShiftRight => Modifiers { bits: SHIFT_BIT },
            PhysKeyCode::MetaLeft | PhysKeyCode::MetaRight => Modifiers { bits: META_BIT },
            _ => Modifiers { bits: 0 },
        }
    }
}

impl vstd::std_specs::convert::FromSpecImpl<PhysKeyCode> for Modifiers {
    open spec fn obeys_from_spec() -> bool {
        true
    }

    open spec fn from_spec(phys_key: PhysKeyCode) -> Modifiers {
        spec_mods_of_phys(phys_key)
    }
}

impl Default for KeyEvent {
    fn default() -> (r: KeyEvent)
        ensures
            r == (KeyEvent { key: KeyCode::RawCode(0), press: false, modifiers: mods(0), raw_event: None }),
    {
        KeyEvent { key: KeyCode::RawCode(0), press: false, modifiers: Modifiers { bits: 0 }, raw_event: None }
    }
}

/// The letter a control character stands for: `c | 0x40`, in lower case.
pub open spec fn spec_de_ctrl(c: char) -> u32 {
    if 1 <= (c as u32) && (c as u32) <= 26 {
        ((c as u32) + 0x60) as u32
    } else {
        ((c as u32) + 0x40) as u32
    }
}

fn de_ctrl(c: char) -> (r: char)
    requires
        (c as u32) < 0x20,
    ensures
        r == spec_de_ctrl(c) as char,
{
    let b: u8 = c as u8;
    assert(b < 32 ==> b | 64u8 == b + 64) by (bit_vector);
    let d: u8 = b | 0x40;
    let l: u8 = if d >= 0x41 && d <= 0x5A {
        d + 32
    } else {
        d
    };
    l as char
}

/// For an ASCII control character, the lower-case letter it encodes
/// (`'\u{1}'` gives `'a'`); `None` for any other character.
pub fn is_ascii_control(c: char) -> (r: Option<char>)
    ensures
        (c as u32) < 0x20 ==> r == Some(spec_de_ctrl(c) as char),
        (c as u32) >= 0x20 ==> r is None,
{
    if (c as u32) < 0x20 {
        Some(de_ctrl(c))
    } else {
        None
    }
}

/// The key and modifiers with Shift applied to an ASCII letter: Shift is
/// dropped and a lower-case letter becomes upper-case.
pub open spec fn spec_normalize_shift(key: KeyCode, m: Modifiers) -> (KeyCode, Modifiers) {
    if m.has(mods(SHIFT_BIT)) {
        match key {
            KeyCode::Char(c) => {
                if 'A' <= c && c <= 'Z' {
                    (key, m.spec_minus(mods(SHIFT_BIT)))
                } else if 'a' <= c && c <= 'z' {
                    (KeyCode::Char(((c as u32) - 32) as char), m.spec_minus(mods(SHIFT_BIT)))
                } else {
                    (key, m)
                }
            },
            _ => (key, m),
        }
    } else {
        (key, m)
    }
}

/// The key and modifiers with an ASCII control character, typed with a
/// side-specific Control bit, decoded back to its lower-case letter.
pub open spec fn spec_normalize_ctrl(key: KeyCode, m: Modifiers) -> (KeyCode, Modifiers) {
    if m.has(mods(LEFT_CTRL_BIT)) || m.has(mods(RIGHT_CTRL_BIT)) {
        match key {
            KeyCode::Char(c) => {
                if (c as u32) < 0x20 {
                    (KeyCode::Char(spec_de_ctrl(c) as char), m)
                } else {
                    (key, m)
                }
            },
            _ => (key, m),
        }
    } else {
        (key, m)
    }
}

fn upper(c: char) -> (r: char)
    requires
        'a' <= c && c <= 'z',
    ensures
        r == ((c as u32) - 32) as char,
{
    let b: u8 = c as u8;
    (b - 32) as char
}

/// Apply Shift to an ASCII letter (see `spec_normalize_shift`).
pub fn normalize_shift(key: KeyCode, modifiers: Modifiers) -> (r: (KeyCode, Modifiers))
    ensures
        r == spec_normalize_shift(key, modifiers),
{
    if modifiers.contains(Modifiers { bits: SHIFT_BIT }) {
        match key {
            KeyCode::Char(c) => {
                if 'A' <= c && c <= 'Z' {
                    (key, modifiers.difference(Modifiers { bits: SHIFT_BIT }))
                } else if 'a' <= c && c <= 'z' {
                    (KeyCode::Char(upper(c)), modifiers.difference(Modifiers { bits: SHIFT_BIT }))
                } else {
                    (key, modifiers)
                }
            },
            _ => (key, modifiers),
        }
    } else {
        (key, modifiers)
    }
}

/// Decode a control character typed with Control (see `spec_normalize_ctrl`).
pub fn normalize_ctrl(key: KeyCode, modifiers: Modifiers) -> (r: (KeyCode, Modifiers))
    ensures
        r == spec_normalize_ctrl(key, modifiers),
{
    if modifiers.contains(Modifiers { bits: LEFT_CTRL_BIT }) || modifiers.contains(
        Modifiers { bits: RIGHT_CTRL_BIT },
    ) {
        match key {
            KeyCode::Char(c) => {
                if (c as u32) < 0x20 {
                    (KeyCode::Char(de_ctrl(c)), modifiers)
                } else {
                    (key, modifiers)
                }
            },
            _ => (key, modifiers),
        }
    } else {
        (key, modifiers)
    }
}

impl KeyEvent {
    /// If SHIFT is held and the key is `KeyCode::Char('c')`, normalize it to
    /// `KeyCode::Char('C')` and drop SHIFT.
    pub fn normalize_shift(self) -> (r: KeyEvent)
        ensures
            (r.key, r.modifiers) == spec_normalize_shift(self.key, self.modifiers),
            r.press == self.press,
            r.raw_event == self.raw_event,
    {
        let (key, modifiers) = normalize_shift(self.key, self.modifiers);
        KeyEvent { key, press: self.press, modifiers, raw_event: self.raw_event }
    }

    /// If a side-specific CTRL is held and the key is an ASCII control
    /// character, decode it back to its lower-case letter.
    pub fn normalize_ctrl(self) -> (r: KeyEvent)
        ensures
            (r.key, r.modifiers) == spec_normalize_ctrl(self.key, self.modifiers),
            r.press == self.press,
            r.raw_event == self.raw_event,
    {
        let (key, modifiers) = normalize_ctrl(self.key, self.modifiers);
        KeyEvent { key, press: self.press, modifiers, raw_event: self.raw_event }
    }
}

impl core::ops::BitOr for Modifiers {
    type Output = Modifiers;

    fn bitor(self, other: Modifiers) -> (r: Modifiers)
        ensures
            r == self.spec_union(other),
    {
        Modifiers { bits: self.bits | other.bits }
    }
}

impl vstd::std_specs::ops::BitOrSpecImpl for Modifiers {
    open spec fn obeys_bitor_spec() -> bool {
        true
    }

    open spec fn bitor_req(self, other: Modifiers) -> bool {
        true
    }

    open spec fn bitor_spec(self, other: Modifiers) -> Modifiers {
        self.spec_union(other)
    }
}

impl core::ops::Sub for Modifiers {
    type Output = Modifiers;

    fn sub(self, other: Modifiers) -> (r: Modifiers)
        ensures
            r == self.spec_minus(other),
    {
        Modifiers { bits: self.bits & !other.bits }
    }
}

impl vstd::std_specs::ops::SubSpecImpl for Modifiers {
    open spec fn obeys_sub_spec() -> bool {
        true
    }

    open spec fn sub_req(self, other: Modifiers) -> bool {
        true
    }

    open spec fn sub_spec(self, other: Modifiers) -> Modifiers {
        self.spec_minus(other)
    }
}

} // verus!
