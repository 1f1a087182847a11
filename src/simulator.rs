//! The simulator: it turns key events into the native key presses and
//! releases that the platform must inject, and keeps the set of keys it
//! holds down so that every one of them can be released at the end.
use vstd::prelude::*;

use std::collections::HashMap;

use crate::layout::{Layout, LayoutView};
use crate::phys::{phys_tag, PhysKeyCode};
use crate::types::{
    is_control, mods, spec_diff, spec_is_control, KeyCode, KeyEvent, Modifiers, ServerMode,
};

verus! {

broadcast use vstd::std_specs::hash::group_hash_axioms;

/// The lowest native key code that can be injected.
pub const MIN_KEYCODE: u32 = 8;
/// The highest native key code that can be injected.
pub const MAX_KEYCODE: u32 = 255;

/// One native operation for the platform to perform.
#[derive(Clone, Copy, Debug, PartialEq, Eq, Structural)]
pub enum NativeOp {
    /// Inject a press or release of a native key code.
    Key { keycode: u8, press: bool },
    /// Bind the unused key code to the keysym before it is pressed.
    Rebind { keycode: u32, keysym: u32 },
}

/// Why a simulation step did not happen.
#[derive(Clone, Copy, Debug, PartialEq, Eq, Structural)]
pub enum SimError {
    /// The key code lies outside the range that can be injected.
    InvalidKeycode(u32),
    /// The active layout has no key code for the physical key.
    UnmappedPhysicalKey(PhysKeyCode),
    /// The active layout has no key code for the keysym.
    UnmappedKeysym(u32),
    /// The character is in no layout table and no key code is free to bind it.
    NoUnusedKeycode(char),
    /// A control character that the layout cannot type.
    UnmappedControlChar(char),
    /// The simulator was given no server mode.
    NoServerMode,
    /// The server mode is not implemented.
    UnsupportedMode,
    /// A key kind that the server mode does not replay.
    UnexpectedKey,
}

/// The keys held down by the simulator.
pub struct KeyTracker {
    pressed: Vec<u8>,
}

impl View for KeyTracker {
    type V = Set<u8>;

    closed spec fn view(&self) -> Set<u8> {
        self.pressed@.to_set()
    }
}

impl KeyTracker {
    /// No key appears twice.
    pub closed spec fn wf(&self) -> bool {
        self.pressed@.no_duplicates()
    }

    /// No key held.
    pub fn new() -> (r: KeyTracker)
        ensures
            r.wf(),
            r@ == Set::<u8>::empty(),
    {
        let r = KeyTracker { pressed: Vec::new() };
        assert(r.pressed@.to_set() =~= Set::<u8>::empty());
        r
    }

    /// Record that `keycode` went down (`press`) or up.
    pub fn record(&mut self, keycode: u8, press: bool)
        requires
            old(self).wf(),
        ensures
            final(self).wf(),
            final(self)@ == if press {
                old(self)@.insert(keycode)
            } else {
                old(self)@.remove(keycode)
            },
    {
        let n = self.pressed.len();
        let mut i: usize = 0;
        while i < n
            invariant
                n == self.pressed@.len(),
                i <= n,
                self.pressed@ == old(self).pressed@,
                self.pressed@.no_duplicates(),
                forall|j: int| 0 <= j < i ==> self.pressed@[j] != keycode,
            decreases n - i,
        {
            if self.pressed[i] == keycode {
                if !press {
                    let ghost before = self.pressed@;
                    self.pressed.remove(i);
                    proof {
                        assert(before.remove(i as int).to_set() =~= before.to_set().remove(keycode)) by {
                            assert forall|x: u8| #[trigger] before.remove(i as int).to_set().contains(x)
                                <==> before.to_set().remove(keycode).contains(x) by {
                                if before.remove(i as int).contains(x) {
                                    let k = choose|k: int|
                                        0 <= k < before.remove(i as int).len() && before.remove(
                                            i as int,
                                        )[k] == x;
                                    if k < i {
                                        assert(before[k] == x);
                                    } else {
                                        assert(before[k + 1] == x);
                                    }
                                    assert(x != keycode);
                                }
                                if before.contains(x) && x != keycode {
                                    let k = choose|k: int| 0 <= k < before.len() && before[k] == x;
                                    if k < i {
                                        assert(before.remove(i as int)[k] == x);
                                    } else {
                                        assert(before.remove(i as int)[k - 1] == x);
                                    }
                                }
                            }
                        }
                        assert(before.remove(i as int).no_duplicates());
                    }
                } else {
                    proof {
                        assert(self.pressed@.to_set() =~= self.pressed@.to_set().insert(keycode));
                    }
                }
                return;
            }
            i = i + 1;
        }
        if press {
            let ghost before = self.pressed@;
            self.pressed.push(keycode);
            proof {
                assert(before.push(keycode).to_set() =~= before.to_set().insert(keycode)) by {
                    assert forall|x: u8| #[trigger] before.push(keycode).to_set().contains(x)
                        <==> before.to_set().insert(keycode).contains(x) by {
                        if before.push(keycode).contains(x) && x != keycode {
                            let k = choose|k: int|
                                0 <= k < before.push(keycode).len() && before.push(keycode)[k] == x;
                            assert(before[k] == x);
                        }
                        if before.contains(x) {
                            let k = choose|k: int| 0 <= k < before.len() && before[k] == x;
                            assert(before.push(keycode)[k] == x);
                        }
                        if x == keycode {
                            assert(before.push(keycode)[before.len() as int] == x);
                        }
                    }
                }
            }
        } else {
            proof {
                assert(self.pressed@.to_set() =~= self.pressed@.to_set().remove(keycode));
            }
        }
    }

    /// Hand out every held key, once each, and forget them all.
    pub fn release_all(&mut self) -> (r: Vec<u8>)
        requires
            old(self).wf(),
        ensures
            final(self).wf(),
            final(self)@ == Set::<u8>::empty(),
            r@.to_set() == old(self)@,
            r@.no_duplicates(),
    {
        let ghost before = self.pressed@;
        let r = self.pressed.split_off(0);
        assert(r@ =~= before);
        assert(self.pressed@.to_set() =~= Set::<u8>::empty());
        r
    }
}

/// What the simulator holds and has asked for so far.
pub struct SimState {
    /// The active layout.
    pub layout: LayoutView,
    /// The key codes held down.
    pub pressed: Set<u8>,
    /// Keysyms bound to formerly free key codes.
    pub rebinding: Map<u32, u32>,
    /// The native operations asked for, in order.
    pub ops: Seq<NativeOp>,
}

/// Whether a key code can be injected.
pub open spec fn valid_keycode(code: u32) -> bool {
    MIN_KEYCODE <= code <= MAX_KEYCODE
}

/// Press or release of a native key code: the operation is asked for and the
/// pressed set follows; an invalid key code changes nothing.
pub open spec fn key_step(s: SimState, code: u32, press: bool) -> SimState {
    if valid_keycode(code) {
        SimState {
            ops: s.ops.push(NativeOp::Key { keycode: code as u8, press }),
            pressed: if press {
                s.pressed.insert(code as u8)
            } else {
                s.pressed.remove(code as u8)
            },
            ..s
        }
    } else {
        s
    }
}

/// A press followed by a release of a native key code.
pub open spec fn tap_step(s: SimState, code: u32) -> SimState {
    key_step(key_step(s, code, true), code, false)
}

/// Press or release of a physical key through the layout.
pub open spec fn phys_step(s: SimState, p: PhysKeyCode, press: bool) -> SimState {
    if s.layout.phys_code.contains_key(phys_tag(p)) {
        key_step(s, s.layout.phys_code[phys_tag(p)], press)
    } else {
        s
    }
}

/// The outcome of a press or release of a physical key.
pub open spec fn phys_result(s: SimState, p: PhysKeyCode) -> Result<(), SimError> {
    if !s.layout.phys_code.contains_key(phys_tag(p)) {
        Err(SimError::UnmappedPhysicalKey(p))
    } else if !valid_keycode(s.layout.phys_code[phys_tag(p)]) {
        Err(SimError::InvalidKeycode(s.layout.phys_code[phys_tag(p)]))
    } else {
        Ok(())
    }
}

/// Press or release of the key code that types a keysym at the base level.
pub open spec fn keysym_step(s: SimState, keysym: u32, press: bool) -> SimState {
    if s.layout.keysym_code.contains_key(keysym) {
        key_step(s, s.layout.keysym_code[keysym], press)
    } else {
        s
    }
}

/// The outcome of a press or release of a keysym.
pub open spec fn keysym_result(s: SimState, keysym: u32) -> Result<(), SimError> {
    if !s.layout.keysym_code.contains_key(keysym) {
        Err(SimError::UnmappedKeysym(keysym))
    } else if !valid_keycode(s.layout.keysym_code[keysym]) {
        Err(SimError::InvalidKeycode(s.layout.keysym_code[keysym]))
    } else {
        Ok(())
    }
}

/// The physical key events of `evs`, performed in order; other events and
/// failures are skipped.
pub open spec fn events_step(s: SimState, evs: Seq<KeyEvent>) -> SimState
    decreases evs.len(),
{
    if evs.len() == 0 {
        s
    } else {
        let t = events_step(s, evs.drop_last());
        match evs.last().key {
            KeyCode::Physical(p) => phys_step(t, p, evs.last().press),
            _ => t,
        }
    }
}

/// Typing the character `chr`, whose keysym is `keysym`, while the
/// modifiers `observed` are down.
///
/// Where the layout types the keysym, the modifiers are brought to those of
/// its level and its key is tapped. Otherwise a key code already bound to the
/// keysym, or else the first free key code (bound now), is tapped with all
/// modifiers released. With no free key code left nothing happens.
pub open spec fn char_step(s: SimState, chr: char, keysym: u32, observed: Modifiers) -> (
    SimState,
    Result<(), SimError>,
) {
    if s.layout.keysym_event.contains_key(keysym) {
        let (code, level) = s.layout.keysym_event[keysym];
        (tap_step(events_step(s, spec_diff(observed, level)), code), Ok(()))
    } else if s.rebinding.contains_key(keysym) {
        (tap_step(events_step(s, spec_diff(observed, mods(0))), s.rebinding[keysym]), Ok(()))
    } else if s.layout.unused.len() > 0 {
        let code = s.layout.unused[0];
        let bound = SimState {
            layout: LayoutView { unused: s.layout.unused.drop_first(), ..s.layout },
            rebinding: s.rebinding.insert(keysym, code),
            ops: s.ops.push(NativeOp::Rebind { keycode: code, keysym }),
            ..s
        };
        (tap_step(events_step(bound, spec_diff(observed, mods(0))), code), Ok(()))
    } else {
        (s, Err(SimError::NoUnusedKeycode(chr)))
    }
}

/// Simulating a key event with the modifiers `observed` down. The modifiers
/// are first brought to the event's; then the key is pressed or released. A
/// character is typed on its press (see `char_step`, with the event's
/// modifiers now down) and needs nothing on its release. Dead-key
/// composition is not redone here: it needs the virtual key, so it happens
/// where keys are captured (`listener`), and a composed character arrives
/// as a plain character.
pub open spec fn key_event_step(s: SimState, e: KeyEvent, observed: Modifiers, keysym: u32) -> (
    SimState,
    Result<(), SimError>,
) {
    match e.key {
        KeyCode::Char(c) => {
            if e.press {
                char_step(events_step(s, spec_diff(observed, e.modifiers)), c, keysym, e.modifiers)
            } else {
                (s, Ok(()))
            }
        },
        KeyCode::Composed(_) => (s, Err(SimError::UnexpectedKey)),
        KeyCode::Physical(p) => {
            let t = events_step(s, spec_diff(observed, e.modifiers));
            (phys_step(t, p, e.press), phys_result(t, p))
        },
        KeyCode::RawCode(code) => {
            let t = events_step(s, spec_diff(observed, e.modifiers));
            (
                key_step(t, code, e.press),
                if valid_keycode(code) {
                    Ok(())
                } else {
                    Err(SimError::InvalidKeycode(code))
                },
            )
        },
        KeyCode::KeySym(k) => {
            let t = events_step(s, spec_diff(observed, e.modifiers));
            (keysym_step(t, k, e.press), keysym_result(t, k))
        },
    }
}

/// Replaying the event of a remote sender under `mode`, with the local
/// modifiers `observed` down; `keysym` is the keysym of the event's
/// character, if it carries one.
///
/// `Mapping` presses or releases the physical key of the sender's raw event.
/// `Translate` types a character on its press: with no shortcut modifier
/// down, as `char_step` does; a control character or a keysym that the
/// layout holds, by tapping its key under the sender's modifiers folded to
/// side-independent bits; otherwise as `char_step` does. A physical key is
/// pressed or released as it is.
pub open spec fn server_step(
    s: SimState,
    mode: Option<ServerMode>,
    e: KeyEvent,
    observed: Modifiers,
    keysym: u32,
) -> (SimState, Result<(), SimError>) {
    match mode {
        None => (s, Err(SimError::NoServerMode)),
        Some(ServerMode::Auto) => (s, Err(SimError::UnsupportedMode)),
        Some(ServerMode::Mapping) => match e.raw_event {
            Some(raw) => (phys_step(s, raw.key, e.press), phys_result(s, raw.key)),
            None => (s, Ok(())),
        },
        Some(ServerMode::Translate) => match e.key {
            KeyCode::Char(c) => {
                let pre = spec_diff(observed, e.modifiers.spec_trans_positional());
                if !e.press {
                    (s, Ok(()))
                } else if !observed.spec_is_shortcut() && !spec_is_control(c) {
                    char_step(s, c, keysym, observed)
                } else if spec_is_control(c) {
                    if s.layout.char_keysym.contains_key(c as u32) {
                        let k = s.layout.char_keysym[c as u32];
                        let t = events_step(s, pre);
                        (keysym_step(keysym_step(t, k, true), k, false), keysym_result(t, k))
                    } else {
                        (s, Err(SimError::UnmappedControlChar(c)))
                    }
                } else if s.layout.keysym_code.contains_key(keysym) {
                    let t = events_step(s, pre);
                    (keysym_step(keysym_step(t, keysym, true), keysym, false), keysym_result(t, keysym))
                } else {
                    char_step(s, c, keysym, observed)
                }
            },
            KeyCode::Physical(p) => (phys_step(s, p, e.press), phys_result(s, p)),
            KeyCode::RawCode(_) => (s, Err(SimError::UnexpectedKey)),
            _ => (s, Ok(())),
        },
    }
}

/// The simulator of one event stream.
pub struct Simulator {
    layout: Layout,
    tracker: KeyTracker,
    mode: Option<ServerMode>,
    rebinding: HashMap<u32, u32>,
}

impl Simulator {
    /// The internal invariant.
    pub closed spec fn wf(&self) -> bool {
        self.tracker.wf()
    }

    /// The active layout.
    pub closed spec fn layout(&self) -> LayoutView {
        self.layout@
    }

    /// How server events are replayed.
    pub closed spec fn mode(&self) -> Option<ServerMode> {
        self.mode
    }

    /// The key codes held down.
    pub closed spec fn pressed(&self) -> Set<u8> {
        self.tracker@
    }

    /// Keysyms bound to formerly free key codes.
    pub closed spec fn rebinding(&self) -> Map<u32, u32> {
        self.rebinding@
    }

    /// The state of the simulator together with the operations `ops`.
    pub open spec fn state(&self, ops: Seq<NativeOp>) -> SimState {
        SimState { layout: self.layout(), pressed: self.pressed(), rebinding: self.rebinding(), ops }
    }

    /// A simulator for the layout, with no key held and no mode.
    pub fn new(layout: Layout) -> (r: Simulator)
        ensures
            r.wf(),
            r.layout() == layout@,
            r.pressed() == Set::<u8>::empty(),
            r.rebinding() == Map::<u32, u32>::empty(),
            r.mode() is None,
            tracks(r.state(Seq::empty())),
    {
        assert(held_by(Seq::empty()) =~= Set::<u8>::empty());
        Simulator { layout, tracker: KeyTracker::new(), mode: None, rebinding: HashMap::new() }
    }

    /// Choose how server events are replayed.
    pub fn set_mode(&mut self, mode: ServerMode)
        requires
            old(self).wf(),
        ensures
            final(self).wf(),
            final(self).mode() == Some(mode),
            final(self).state(Seq::empty()) == old(self).state(Seq::empty()),
    {
        self.mode = Some(mode);
    }

    /// Replace the active layout after the platform reported a change; the
    /// keys held and the bindings made stay.
    pub fn set_layout(&mut self, layout: Layout)
        requires
            old(self).wf(),
        ensures
            final(self).wf(),
            final(self).layout() == layout@,
            final(self).pressed() == old(self).pressed(),
            final(self).rebinding() == old(self).rebinding(),
            final(self).mode() == old(self).mode(),
    {
        self.layout = layout;
    }

    /// Ask for a press or release of a native key code, and track it.
    pub fn simulate_keycode(&mut self, keycode: u32, press: bool, ops: &mut Vec<NativeOp>) -> (r:
        Result<(), SimError>)
        requires
            old(self).wf(),
        ensures
            final(self).wf(),
            final(self).mode() == old(self).mode(),
            final(self).state(final(ops)@) == key_step(old(self).state(old(ops)@), keycode, press),
            r == if valid_keycode(keycode) {
                Ok(())
            } else {
                Err(SimError::InvalidKeycode(keycode))
            },
    {
        if keycode < MIN_KEYCODE || keycode > MAX_KEYCODE {
            return Err(SimError::InvalidKeycode(keycode));
        }
        let code = keycode as u8;
        self.tracker.record(code, press);
        ops.push(NativeOp::Key { keycode: code, press });
        Ok(())
    }

    /// Ask for a press or release of the physical key through the layout.
    pub fn simulate_phys(&mut self, phys: PhysKeyCode, press: bool, ops: &mut Vec<NativeOp>) -> (r:
        Result<(), SimError>)
        requires
            old(self).wf(),
        ensures
            final(self).wf(),
            final(self).mode() == old(self).mode(),
            final(self).state(final(ops)@) == phys_step(old(self).state(old(ops)@), phys, press),
            r == phys_result(old(self).state(old(ops)@), phys),
    {
        match self.layout.get_keycode_by_phys(phys) {
            Some(code) => self.simulate_keycode(code, press, ops),
            None => Err(SimError::UnmappedPhysicalKey(phys)),
        }
    }

    /// Ask for a press or release of the key that types the keysym.
    pub fn simulate_keysym(&mut self, keysym: u32, press: bool, ops: &mut Vec<NativeOp>) -> (r:
        Result<(), SimError>)
        requires
            old(self).wf(),
        ensures
            final(self).wf(),
            final(self).mode() == old(self).mode(),
            final(self).state(final(ops)@) == keysym_step(old(self).state(old(ops)@), keysym, press),
            r == keysym_result(old(self).state(old(ops)@), keysym),
    {
        match self.layout.get_keycode_by_keysym(keysym) {
            Some(code) => self.simulate_keycode(code, press, ops),
            None => Err(SimError::UnmappedKeysym(keysym)),
        }
    }

    /// Perform the physical key events of `events` in order; a key the layout
    /// lacks is skipped.
    pub fn prepare_pressed_keys(&mut self, events: &Vec<KeyEvent>, ops: &mut Vec<NativeOp>)
        requires
            old(self).wf(),
        ensures
            final(self).wf(),
            final(self).mode() == old(self).mode(),
            final(self).state(final(ops)@) == events_step(old(self).state(old(ops)@), events@),
    {
        let n = events.len();
        let mut i: usize = 0;
        while i < n
            invariant
                n == events@.len(),
                i <= n,
                self.wf(),
                self.mode() == old(self).mode(),
                self.state(ops@) == events_step(old(self).state(old(ops)@), events@.take(i as int)),
            decreases n - i,
        {
            assert(events@.take(i + 1).drop_last() =~= events@.take(i as int));
            match &events[i].key {
                KeyCode::Physical(p) => {
                    let _ = self.simulate_phys(*p, events[i].press, ops);
                },
                _ => {},
            }
            i = i + 1;
        }
        assert(events@.take(n as int) =~= events@);
    }

    /// Release every modifier in `observed`, the modifiers now down.
    pub fn release_modifiers(&mut self, observed: Modifiers, ops: &mut Vec<NativeOp>)
        requires
            old(self).wf(),
        ensures
            final(self).wf(),
            final(self).mode() == old(self).mode(),
            final(self).state(final(ops)@) == events_step(
                old(self).state(old(ops)@),
                spec_diff(observed, mods(0)),
            ),
    {
        let evs = observed.diff_modifiers(&Modifiers { bits: 0 });
        self.prepare_pressed_keys(&evs, ops);
    }

    /// Type the character `chr`, whose keysym is `keysym`, with the modifiers
    /// `observed` down.
    pub fn simulate_char(
        &mut self,
        chr: char,
        keysym: u32,
        observed: Modifiers,
        ops: &mut Vec<NativeOp>,
    ) -> (r: Result<(), SimError>)
        requires
            old(self).wf(),
        ensures
            final(self).wf(),
            final(self).mode() == old(self).mode(),
            (final(self).state(final(ops)@), r) == char_step(
                old(self).state(old(ops)@),
                chr,
                keysym,
                observed,
            ),
    {
        match self.layout.get_key_event_by_keysym(keysym) {
            Some((code, level)) => {
                let evs = observed.diff_modifiers(&level);
                self.prepare_pressed_keys(&evs, ops);
                let _ = self.simulate_keycode(code, true, ops);
                let _ = self.simulate_keycode(code, false, ops);
                return Ok(());
            },
            None => {},
        }
        match self.rebinding.get(&keysym) {
            Some(c) => {
                let code = *c;
                self.release_modifiers(observed, ops);
                let _ = self.simulate_keycode(code, true, ops);
                let _ = self.simulate_keycode(code, false, ops);
                return Ok(());
            },
            None => {},
        }
        match self.layout.take_unused() {
            Some(code) => {
                ops.push(NativeOp::Rebind { keycode: code, keysym });
                self.rebinding.insert(keysym, code);
                self.release_modifiers(observed, ops);
                let _ = self.simulate_keycode(code, true, ops);
                let _ = self.simulate_keycode(code, false, ops);
                Ok(())
            },
            None => Err(SimError::NoUnusedKeycode(chr)),
        }
    }

    /// Simulate a key event with the modifiers `observed` down; `keysym` is
    /// the keysym of the event's character, if it carries one.
    pub fn simulate_key_event(
        &mut self,
        event: &KeyEvent,
        observed: Modifiers,
        keysym: u32,
        ops: &mut Vec<NativeOp>,
    ) -> (r: Result<(), SimError>)
        requires
            old(self).wf(),
        ensures
            final(self).wf(),
            final(self).mode() == old(self).mode(),
            (final(self).state(final(ops)@), r) == key_event_step(
                old(self).state(old(ops)@),
                *event,
                observed,
                keysym,
            ),
    {
        match &event.key {
            KeyCode::Char(c) => {
                if event.press {
                    let evs = observed.diff_modifiers(&event.modifiers);
                    self.prepare_pressed_keys(&evs, ops);
                    self.simulate_char(*c, keysym, event.modifiers, ops)
                } else {
                    Ok(())
                }
            },
            KeyCode::Composed(_) => Err(SimError::UnexpectedKey),
            KeyCode::Physical(p) => {
                let evs = observed.diff_modifiers(&event.modifiers);
                self.prepare_pressed_keys(&evs, ops);
                self.simulate_phys(*p, event.press, ops)
            },
            KeyCode::RawCode(code) => {
                let evs = observed.diff_modifiers(&event.modifiers);
                self.prepare_pressed_keys(&evs, ops);
                self.simulate_keycode(*code, event.press, ops)
            },
            KeyCode::KeySym(k) => {
                let evs = observed.diff_modifiers(&event.modifiers);
                self.prepare_pressed_keys(&evs, ops);
                self.simulate_keysym(*k, event.press, ops)
            },
        }
    }

    /// Replay the event of a remote sender under the simulator's mode, with
    /// the local modifiers `observed` down; `keysym` is the keysym of the
    /// event's character, if it carries one.
    pub fn simulate_server(
        &mut self,
        event: &KeyEvent,
        observed: Modifiers,
        keysym: u32,
        ops: &mut Vec<NativeOp>,
    ) -> (r: Result<(), SimError>)
        requires
            old(self).wf(),
        ensures
            final(self).wf(),
            final(self).mode() == old(self).mode(),
            (final(self).state(final(ops)@), r) == server_step(
                old(self).state(old(ops)@),
                old(self).mode(),
                *event,
                observed,
                keysym,
            ),
    {
        let press = event.press;
        match self.mode {
            None => Err(SimError::NoServerMode),
            Some(ServerMode::Auto) => Err(SimError::UnsupportedMode),
            Some(ServerMode::Mapping) => match event.raw_event {
                Some(raw) => self.simulate_phys(raw.key, press, ops),
                None => Ok(()),
            },
            Some(ServerMode::Translate) => match &event.key {
                KeyCode::Char(c) => {
                    let chr = *c;
                    if !press {
                        return Ok(());
                    }
                    if !observed.is_shortcut() && !is_control(chr) {
                        self.simulate_char(chr, keysym, observed, ops)
                    } else if is_control(chr) {
                        match self.layout.get_keysym_by_char(chr) {
                            Some(k) => {
                                let target = event.modifiers.trans_positional_mods();
                                let evs = observed.diff_modifiers(&target);
                                self.prepare_pressed_keys(&evs, ops);
                                let r = self.simulate_keysym(k, true, ops);
                                let _ = self.simulate_keysym(k, false, ops);
                                r
                            },
                            None => Err(SimError::UnmappedControlChar(chr)),
                        }
                    } else if self.layout.get_keycode_by_keysym(keysym).is_some() {
                        let target = event.modifiers.trans_positional_mods();
                        let evs = observed.diff_modifiers(&target);
                        self.prepare_pressed_keys(&evs, ops);
                        let r = self.simulate_keysym(keysym, true, ops);
                        let _ = self.simulate_keysym(keysym, false, ops);
                        r
                    } else {
                        self.simulate_char(chr, keysym, observed, ops)
                    }
                },
                KeyCode::Physical(p) => self.simulate_phys(*p, press, ops),
                KeyCode::RawCode(_) => Err(SimError::UnexpectedKey),
                _ => Ok(()),
            },
        }
    }

    /// Release every key the simulator holds down, once each, and forget them.
    pub fn release_pressed_keys(&mut self, ops: &mut Vec<NativeOp>)
        requires
            old(self).wf(),
        ensures
            final(self).wf(),
            final(self).pressed() == Set::<u8>::empty(),
            final(self).layout() == old(self).layout(),
            final(self).rebinding() == old(self).rebinding(),
            final(self).mode() == old(self).mode(),
            final(ops)@.len() >= old(ops)@.len(),
            final(ops)@.subrange(0, old(ops)@.len() as int) == old(ops)@,
            releases_of(final(ops)@.subrange(old(ops)@.len() as int, final(ops)@.len() as int))
                == old(self).pressed(),
            final(ops)@.subrange(old(ops)@.len() as int, final(ops)@.len() as int).no_duplicates(),
            forall|i: int|
                old(ops)@.len() <= i < final(ops)@.len() ==> (#[trigger] final(ops)@[i]) is Key
                    && !final(ops)@[i]->Key_press,
    {
        let keys = self.tracker.release_all();
        let ghost start = ops@;
        let n = keys.len();
        let mut i: usize = 0;
        while i < n
            invariant
                n == keys@.len(),
                i <= n,
                keys@.no_duplicates(),
                ops@.len() == start.len() + i,
                ops@.subrange(0, start.len() as int) == start,
                forall|j: int|
                    0 <= j < i ==> ops@[start.len() + j] == (NativeOp::Key {
                        keycode: keys@[j],
                        press: false,
                    }),
            decreases n - i,
        {
            ops.push(NativeOp::Key { keycode: keys[i], press: false });
            assert(ops@.subrange(0, start.len() as int) =~= start);
            i = i + 1;
        }
        proof {
            let added = ops@.subrange(start.len() as int, ops@.len() as int);
            assert(added =~= keys@.map_values(|k: u8| NativeOp::Key { keycode: k, press: false }));
            lemma_releases_of(keys@);
            assert forall|i: int| start.len() <= i < ops@.len() implies (#[trigger] ops@[i]) is Key
                && !ops@[i]->Key_press by {
                let j = i - start.len();
                assert(ops@[start.len() + j] == NativeOp::Key { keycode: keys@[j], press: false });
            }
        }
    }
}

/// The key codes that the operations release.
pub open spec fn releases_of(ops: Seq<NativeOp>) -> Set<u8> {
    Set::new(|k: u8| ops.contains(NativeOp::Key { keycode: k, press: false }))
}

proof fn lemma_releases_of(keys: Seq<u8>)
    requires
        keys.no_duplicates(),
    ensures
        releases_of(keys.map_values(|k: u8| NativeOp::Key { keycode: k, press: false })) == keys.to_set(),
        keys.map_values(|k: u8| NativeOp::Key { keycode: k, press: false }).no_duplicates(),
{
    let ops = keys.map_values(|k: u8| NativeOp::Key { keycode: k, press: false });
    assert forall|k: u8| #[trigger] releases_of(ops).contains(k) <==> keys.to_set().contains(k) by {
        if ops.contains(NativeOp::Key { keycode: k, press: false }) {
            let j = choose|j: int| 0 <= j < ops.len() && ops[j] == NativeOp::Key { keycode: k, press: false };
            assert(keys[j] == k);
        }
        if keys.contains(k) {
            let j = choose|j: int| 0 <= j < keys.len() && keys[j] == k;
            assert(ops[j] == NativeOp::Key { keycode: k, press: false });
        }
    }
    assert(releases_of(ops) =~= keys.to_set());
}

/// Whether the last operation on key code `k` among `ops` is a press.
pub open spec fn last_is_press(ops: Seq<NativeOp>, k: u8) -> bool
    decreases ops.len(),
{
    if ops.len() == 0 {
        false
    } else {
        match ops.last() {
            NativeOp::Key { keycode, press } => if keycode == k {
                press
            } else {
                last_is_press(ops.drop_last(), k)
            },
            _ => last_is_press(ops.drop_last(), k),
        }
    }
}

/// The key codes that the operations leave down.
pub open spec fn held_by(ops: Seq<NativeOp>) -> Set<u8> {
    Set::new(|k: u8| last_is_press(ops, k))
}

/// Whether the tracked set is exactly what the operations leave down.
pub open spec fn tracks(s: SimState) -> bool {
    s.pressed == held_by(s.ops)
}

/// Pressing or releasing a native key keeps the tracked set exact.
pub proof fn lemma_key_step_tracks(s: SimState, code: u32, press: bool)
    requires
        tracks(s),
    ensures
        tracks(key_step(s, code, press)),
{
    if valid_keycode(code) {
        let t = key_step(s, code, press);
        assert(t.ops.drop_last() =~= s.ops);
        assert(t.pressed =~= held_by(t.ops));
    }
}

/// Pressing or releasing a physical key keeps the tracked set exact.
pub proof fn lemma_phys_step_tracks(s: SimState, p: PhysKeyCode, press: bool)
    requires
        tracks(s),
    ensures
        tracks(phys_step(s, p, press)),
{
    if s.layout.phys_code.contains_key(phys_tag(p)) {
        lemma_key_step_tracks(s, s.layout.phys_code[phys_tag(p)], press);
    }
}

/// Performing physical key events keeps the tracked set exact.
pub proof fn lemma_events_step_tracks(s: SimState, evs: Seq<KeyEvent>)
    requires
        tracks(s),
    ensures
        tracks(events_step(s, evs)),
    decreases evs.len(),
{
    if evs.len() > 0 {
        lemma_events_step_tracks(s, evs.drop_last());
        match evs.last().key {
            KeyCode::Physical(p) => lemma_phys_step_tracks(events_step(s, evs.drop_last()), p, evs.last().press),
            _ => {},
        }
    }
}

proof fn lemma_releases_clear(ops: Seq<NativeOp>, added: Seq<NativeOp>)
    requires
        forall|i: int| 0 <= i < added.len() ==> (#[trigger] added[i]) is Key && !added[i]->Key_press,
    ensures
        held_by(ops + added) =~= held_by(ops).difference(releases_of(added)),
    decreases added.len(),
{
    if added.len() > 0 {
        let init = added.drop_last();
        lemma_releases_clear(ops, init);
        assert((ops + added).drop_last() =~= ops + init);
        assert forall|k: u8| #[trigger] releases_of(added).contains(k) <==> releases_of(init).contains(k) || added.last() == (NativeOp::Key { keycode: k, press: false }) by {
            if added.contains(NativeOp::Key { keycode: k, press: false }) {
                let j = choose|j: int| 0 <= j < added.len() && added[j] == NativeOp::Key { keycode: k, press: false };
                if j < added.len() - 1 {
                    assert(init[j] == added[j]);
                }
            }
            if init.contains(NativeOp::Key { keycode: k, press: false }) {
                let j = choose|j: int| 0 <= j < init.len() && init[j] == NativeOp::Key { keycode: k, press: false };
                assert(added[j] == init[j]);
            }
            if added.last() == (NativeOp::Key { keycode: k, press: false }) {
                assert(added[added.len() - 1] == added.last());
            }
        }
        assert(added[added.len() - 1] == added.last());
        assert((ops + added).last() == added.last());
        assert forall|k: u8| #[trigger] held_by(ops + added).contains(k) <==> held_by(ops).difference(
            releases_of(added),
        ).contains(k) by {
            assert(last_is_press(ops + added, k) == if added.last() == (NativeOp::Key { keycode: k, press: false }) {
                false
            } else {
                last_is_press(ops + init, k)
            });
            assert(held_by(ops + added).contains(k) == last_is_press(ops + added, k));
            assert(held_by(ops + init).contains(k) == last_is_press(ops + init, k));
            assert(held_by(ops + init).contains(k) == (held_by(ops).contains(k) && !releases_of(
                init,
            ).contains(k)));
            assert(releases_of(added).contains(k) == (releases_of(init).contains(k) || added.last() == (
            NativeOp::Key { keycode: k, press: false })));
        }
    } else {
        assert(ops + added =~= ops);
        assert(releases_of(added) =~= Set::<u8>::empty());
    }
}

proof fn lemma_rebind_tracks(s: SimState, t: SimState, op: NativeOp)
    requires
        tracks(s),
        op is Rebind,
        t.ops == s.ops.push(op),
        t.pressed == s.pressed,
    ensures
        tracks(t),
{
    assert(t.ops.drop_last() =~= s.ops);
    assert forall|k: u8| #[trigger] t.pressed.contains(k) <==> held_by(t.ops).contains(k) by {
        assert(held_by(t.ops).contains(k) == last_is_press(t.ops, k));
    }
    assert(t.pressed =~= held_by(t.ops));
}

/// Typing a character keeps the tracked set exact.
pub proof fn lemma_char_step_tracks(s: SimState, chr: char, keysym: u32, observed: Modifiers)
    requires
        tracks(s),
    ensures
        tracks(char_step(s, chr, keysym, observed).0),
{
    if s.layout.keysym_event.contains_key(keysym) {
        let (code, level) = s.layout.keysym_event[keysym];
        let t = events_step(s, spec_diff(observed, level));
        lemma_events_step_tracks(s, spec_diff(observed, level));
        lemma_key_step_tracks(t, code, true);
        lemma_key_step_tracks(key_step(t, code, true), code, false);
    } else if s.rebinding.contains_key(keysym) {
        let t = events_step(s, spec_diff(observed, mods(0)));
        lemma_events_step_tracks(s, spec_diff(observed, mods(0)));
        lemma_key_step_tracks(t, s.rebinding[keysym], true);
        lemma_key_step_tracks(key_step(t, s.rebinding[keysym], true), s.rebinding[keysym], false);
    } else if s.layout.unused.len() > 0 {
        let code = s.layout.unused[0];
        let bound = SimState {
            layout: LayoutView { unused: s.layout.unused.drop_first(), ..s.layout },
            rebinding: s.rebinding.insert(keysym, code),
            ops: s.ops.push(NativeOp::Rebind { keycode: code, keysym }),
            ..s
        };
        lemma_rebind_tracks(s, bound, NativeOp::Rebind { keycode: code, keysym });
        let t = events_step(bound, spec_diff(observed, mods(0)));
        lemma_events_step_tracks(bound, spec_diff(observed, mods(0)));
        lemma_key_step_tracks(t, code, true);
        lemma_key_step_tracks(key_step(t, code, true), code, false);
    }
}

/// Pressing or releasing the key of a keysym keeps the tracked set exact.
pub proof fn lemma_keysym_step_tracks(s: SimState, keysym: u32, press: bool)
    requires
        tracks(s),
    ensures
        tracks(keysym_step(s, keysym, press)),
{
    if s.layout.keysym_code.contains_key(keysym) {
        lemma_key_step_tracks(s, s.layout.keysym_code[keysym], press);
    }
}

/// Simulating a key event keeps the tracked set exact.
pub proof fn lemma_key_event_step_tracks(s: SimState, e: KeyEvent, observed: Modifiers, keysym: u32)
    requires
        tracks(s),
    ensures
        tracks(key_event_step(s, e, observed, keysym).0),
{
    let pre = spec_diff(observed, e.modifiers);
    lemma_events_step_tracks(s, pre);
    let t = events_step(s, pre);
    match e.key {
        KeyCode::Char(c) => {
            if e.press {
                lemma_char_step_tracks(t, c, keysym, e.modifiers);
            }
        },
        KeyCode::Composed(_) => {},
        KeyCode::Physical(p) => lemma_phys_step_tracks(t, p, e.press),
        KeyCode::RawCode(code) => lemma_key_step_tracks(t, code, e.press),
        KeyCode::KeySym(k) => lemma_keysym_step_tracks(t, k, e.press),
    }
}

/// Replaying a server event keeps the tracked set exact.
pub proof fn lemma_server_step_tracks(
    s: SimState,
    mode: Option<ServerMode>,
    e: KeyEvent,
    observed: Modifiers,
    keysym: u32,
)
    requires
        tracks(s),
    ensures
        tracks(server_step(s, mode, e, observed, keysym).0),
{
    match mode {
        Some(ServerMode::Mapping) => {
            if let Some(raw) = e.raw_event {
                lemma_phys_step_tracks(s, raw.key, e.press);
            }
        },
        Some(ServerMode::Translate) => {
            match e.key {
                KeyCode::Char(c) => {
                    let pre = spec_diff(observed, e.modifiers.spec_trans_positional());
                    lemma_events_step_tracks(s, pre);
                    let t = events_step(s, pre);
                    lemma_char_step_tracks(s, c, keysym, observed);
                    lemma_keysym_step_tracks(t, keysym, true);
                    lemma_keysym_step_tracks(keysym_step(t, keysym, true), keysym, false);
                    if s.layout.char_keysym.contains_key(c as u32) {
                        let k = s.layout.char_keysym[c as u32];
                        lemma_keysym_step_tracks(t, k, true);
                        lemma_keysym_step_tracks(keysym_step(t, k, true), k, false);
                    }
                },
                KeyCode::Physical(p) => lemma_phys_step_tracks(s, p, e.press),
                _ => {},
            }
        },
        _ => {},
    }
}

/// In `Mapping` mode an event touches only the physical key of its raw event:
/// one press or release of that key's code when the layout has it, and no
/// operation at all otherwise or for an event without a raw event.
pub proof fn lemma_map_mode_replays_raw_key(s: SimState, e: KeyEvent, observed: Modifiers, keysym: u32)
    ensures
        e.raw_event is None ==> server_step(s, Some(ServerMode::Mapping), e, observed, keysym).0 == s,
        e.raw_event matches Some(raw) ==> {
            let t = server_step(s, Some(ServerMode::Mapping), e, observed, keysym).0;
            if s.layout.phys_code.contains_key(phys_tag(raw.key)) && valid_keycode(
                s.layout.phys_code[phys_tag(raw.key)],
            ) {
                t.ops == s.ops.push(
                    NativeOp::Key { keycode: s.layout.phys_code[phys_tag(raw.key)] as u8, press: e.press },
                )
            } else {
                t.ops == s.ops
            }
        },
{
}

/// In `Translate` mode the release of a character injects nothing and
/// changes nothing.
pub proof fn lemma_translate_char_release(s: SimState, e: KeyEvent, observed: Modifiers, keysym: u32)
    requires
        e.key is Char,
        !e.press,
    ensures
        server_step(s, Some(ServerMode::Translate), e, observed, keysym) == (s, Ok::<(), SimError>(())),
{
}

/// In `Translate` mode a plain character (no shortcut modifier down, not a
/// control character) that the local layout types at some level is typed by
/// bringing the modifiers to that level's and then tapping its key: for a
/// digit that needs Shift, Shift goes down before the digit's key.
pub proof fn lemma_translate_types_at_level(
    s: SimState,
    e: KeyEvent,
    c: char,
    observed: Modifiers,
    keysym: u32,
)
    requires
        e.key == KeyCode::Char(c),
        e.press,
        !observed.spec_is_shortcut(),
        !spec_is_control(c),
        s.layout.keysym_event.contains_key(keysym),
        valid_keycode(s.layout.keysym_event[keysym].0),
    ensures
        ({
            let (code, level) = s.layout.keysym_event[keysym];
            let t = events_step(s, spec_diff(observed, level));
            server_step(s, Some(ServerMode::Translate), e, observed, keysym) == (
                SimState {
                    ops: t.ops.push(NativeOp::Key { keycode: code as u8, press: true }).push(
                        NativeOp::Key { keycode: code as u8, press: false },
                    ),
                    pressed: t.pressed.insert(code as u8).remove(code as u8),
                    ..t
                },
                Ok::<(), SimError>(()),
            )
        }),
{
}

/// Teardown leaves no key down. Every simulation step keeps the tracked set
/// equal to the keys that the operations so far leave down (the lemmas
/// above); if the added operations are releases of exactly the tracked keys,
/// as `release_pressed_keys` hands out, no key is down afterwards.
pub proof fn lemma_pressed_key_cleanup(s: SimState, added: Seq<NativeOp>)
    requires
        tracks(s),
        forall|i: int| 0 <= i < added.len() ==> (#[trigger] added[i]) is Key && !added[i]->Key_press,
        releases_of(added) == s.pressed,
    ensures
        held_by(s.ops + added) == Set::<u8>::empty(),
{
    lemma_releases_clear(s.ops, added);
    assert(held_by(s.ops + added) =~= Set::<u8>::empty());
}

} // verus!
