//! The decisions of a keyboard capture loop: which raw key events are
//! dropped, which become key events at once, and which need the platform to
//! translate the key into a character first.
use vstd::prelude::*;

use std::collections::HashMap;

use crate::deadkey::{dead_key_step, DeadKeyOutcome, DeadKeyResolver, DeadKeyTable};
use crate::phys::{phys_tag, PhysKeyCode};
use crate::types::{
    spec_normalize_ctrl, KeyCode, KeyEvent, Modifiers, RawKeyEvent,
};

verus! {

broadcast use vstd::std_specs::hash::group_hash_axioms;

/// The scan code Windows reports for the left Control key that it fakes
/// around AltGr; such events are dropped.
pub const SC_FAKE_LCTRL: u32 = 0x21D;

/// What the platform's translation of a key into text gave.
#[derive(Clone, Copy, Debug, PartialEq, Eq, Structural)]
pub enum Translation {
    /// Exactly one character.
    Char(char),
    /// No character.
    Nothing,
    /// A dead key or several characters: no usable result.
    Ambiguous,
}

/// What to do with a raw key event.
#[derive(Clone, Debug, PartialEq, Eq)]
pub enum ListenStep {
    /// Drop it.
    Skip,
    /// Report this key event.
    Report(KeyEvent),
    /// Ask the platform to translate the key, then call `finish`.
    Translate,
}

/// The raw event of a key with a known physical position.
pub open spec fn raw_of(phys: Option<PhysKeyCode>, vk: u32, scan: u32, press: bool, mods: Modifiers) -> Option<
    RawKeyEvent,
> {
    match phys {
        Some(p) => Some(RawKeyEvent { key: p, press, modifiers: mods, raw_code: vk, scan_code: scan }),
        None => None,
    }
}

/// The event reported for `key`, with a control character typed under a
/// side-specific Control decoded to its letter.
pub open spec fn report_of(key: KeyCode, phys: Option<PhysKeyCode>, vk: u32, scan: u32, press: bool, mods: Modifiers) -> KeyEvent {
    let (k, m) = spec_normalize_ctrl(key, mods);
    KeyEvent { key: k, press, modifiers: m, raw_event: raw_of(phys, vk, scan, press, mods) }
}

/// Whether the key is a modifier key that is held and pressed again.
pub open spec fn spec_is_long_press(held: Map<u32, bool>, phys: PhysKeyCode, press: bool) -> bool {
    held.contains_key(phys_tag(phys)) && held[phys_tag(phys)] && press
}

/// The next held-modifier map, pending dead key and step for a raw key event.
pub open spec fn listen_step(
    held: Map<u32, bool>,
    pending: Option<(Modifiers, u32)>,
    leaders: Map<u32, char>,
    combos: Map<u64, char>,
    scan: u32,
    vk: u32,
    phys: Option<PhysKeyCode>,
    press: bool,
    mods: Modifiers,
) -> (Map<u32, bool>, Option<(Modifiers, u32)>, ListenStep) {
    if scan == SC_FAKE_LCTRL {
        (held, pending, ListenStep::Skip)
    } else {
        match phys {
            Some(p) => {
                if p.spec_is_modifier() {
                    if spec_is_long_press(held, p, press) {
                        (held, pending, ListenStep::Skip)
                    } else {
                        (
                            held.insert(phys_tag(p), press),
                            pending,
                            ListenStep::Report(report_of(KeyCode::Physical(p), phys, vk, scan, press, mods)),
                        )
                    }
                } else {
                    dead_key_listen(held, pending, leaders, combos, vk, scan, phys, press, mods)
                }
            },
            None => dead_key_listen(held, pending, leaders, combos, vk, scan, phys, press, mods),
        }
    }
}

/// The step of a non-modifier key: through the dead-key state machine.
pub open spec fn dead_key_listen(
    held: Map<u32, bool>,
    pending: Option<(Modifiers, u32)>,
    leaders: Map<u32, char>,
    combos: Map<u64, char>,
    vk: u32,
    scan: u32,
    phys: Option<PhysKeyCode>,
    press: bool,
    mods: Modifiers,
) -> (Map<u32, bool>, Option<(Modifiers, u32)>, ListenStep) {
    let (next, outcome) = dead_key_step(leaders, combos, pending, mods, vk, press);
    match outcome {
        DeadKeyOutcome::Emit(c) => (
            held,
            next,
            ListenStep::Report(report_of(KeyCode::Char(c), phys, vk, scan, press, mods)),
        ),
        DeadKeyOutcome::PassThrough => (held, next, ListenStep::Translate),
        _ => (held, next, ListenStep::Skip),
    }
}

/// The event for a key that the platform translated: its character, or its
/// physical key when it gives none; nothing for an ambiguous result.
pub open spec fn finish_of(
    t: Translation,
    vk: u32,
    scan: u32,
    phys: Option<PhysKeyCode>,
    press: bool,
    mods: Modifiers,
) -> Option<KeyEvent> {
    match t {
        Translation::Char(c) => Some(report_of(KeyCode::Char(c), phys, vk, scan, press, mods)),
        Translation::Nothing => match phys {
            Some(p) => Some(report_of(KeyCode::Physical(p), phys, vk, scan, press, mods)),
            None => None,
        },
        Translation::Ambiguous => None,
    }
}

/// The state of a capture loop: which modifier keys are held, and the
/// pending dead key.
pub struct KeyListener {
    modifier_map: HashMap<u32, bool>,
    dead: DeadKeyResolver,
}

fn report(key: KeyCode, phys: Option<PhysKeyCode>, vk: u32, scan: u32, press: bool, mods: Modifiers) -> (r: KeyEvent)
    ensures
        r == report_of(key, phys, vk, scan, press, mods),
{
    let raw_event = match phys {
        Some(p) => Some(RawKeyEvent { key: p, press, modifiers: mods, raw_code: vk, scan_code: scan }),
        None => None,
    };
    KeyEvent { key, press, modifiers: mods, raw_event }.normalize_ctrl()
}

impl KeyListener {
    /// Held state of the modifier keys, by physical key tag.
    pub closed spec fn held(&self) -> Map<u32, bool> {
        self.modifier_map@
    }

    /// The pending dead key.
    pub closed spec fn pending(&self) -> Option<(Modifiers, u32)> {
        self.dead.pending
    }

    /// A listener with every modifier key up and no dead key pending.
    pub fn new() -> (r: KeyListener)
        ensures
            r.pending() is None,
            forall|p: PhysKeyCode| #[trigger] p.spec_is_modifier() ==> r.held().contains_key(phys_tag(p)) && !r.held()[phys_tag(p)],
    {
        let mut m: HashMap<u32, bool> = HashMap::new();
        m.insert(PhysKeyCode::ShiftLeft.tag(), false);
        m.insert(PhysKeyCode::ShiftRight.tag(), false);
        m.insert(PhysKeyCode::ControlLeft.tag(), false);
        m.insert(PhysKeyCode::ControlRight.tag(), false);
        m.insert(PhysKeyCode::AltLeft.tag(), false);
        m.insert(PhysKeyCode::AltRight.tag(), false);
        m.insert(PhysKeyCode::MetaLeft.tag(), false);
        m.insert(PhysKeyCode::MetaRight.tag(), false);
        KeyListener { modifier_map: m, dead: DeadKeyResolver::new() }
    }

    /// Record that the modifier key went down (`press`) or up.
    pub fn update_modifiers_map(&mut self, phys: PhysKeyCode, press: bool)
        ensures
            final(self).held() == old(self).held().insert(phys_tag(phys), press),
            final(self).pending() == old(self).pending(),
    {
        self.modifier_map.insert(phys.tag(), press);
    }

    /// Whether a press of the modifier key repeats one already held.
    pub fn is_long_press(&self, phys: PhysKeyCode, press: bool) -> (r: bool)
        ensures
            r == spec_is_long_press(self.held(), phys, press),
    {
        match self.modifier_map.get(&phys.tag()) {
            Some(state) => *state && press,
            None => false,
        }
    }

    /// Decide on a raw key event: scan code `scan`, virtual key `vk`,
    /// physical key `phys` if known, pressed or released, with the
    /// modifiers `modifiers` down.
    pub fn on_raw_key(
        &mut self,
        table: &DeadKeyTable,
        scan: u32,
        vk: u32,
        phys: Option<PhysKeyCode>,
        press: bool,
        modifiers: Modifiers,
    ) -> (r: ListenStep)
        ensures
            (final(self).held(), final(self).pending(), r) == listen_step(
                old(self).held(),
                old(self).pending(),
                table.leaders(),
                table.combos(),
                scan,
                vk,
                phys,
                press,
                modifiers,
            ),
    {
        if scan == SC_FAKE_LCTRL {
            return ListenStep::Skip;
        }
        match phys {
            Some(p) => {
                if p.is_modifier() {
                    if self.is_long_press(p, press) {
                        return ListenStep::Skip;
                    }
                    self.update_modifiers_map(p, press);
                    return ListenStep::Report(report(KeyCode::Physical(p), phys, vk, scan, press, modifiers));
                }
            },
            None => {},
        }
        match self.dead.on_key(table, modifiers, vk, press) {
            DeadKeyOutcome::Emit(c) => ListenStep::Report(report(KeyCode::Char(c), phys, vk, scan, press, modifiers)),
            DeadKeyOutcome::PassThrough => ListenStep::Translate,
            _ => ListenStep::Skip,
        }
    }

    /// The event for a key after the platform translated it.
    pub fn finish(
        &self,
        translation: Translation,
        vk: u32,
        scan: u32,
        phys: Option<PhysKeyCode>,
        press: bool,
        modifiers: Modifiers,
    ) -> (r: Option<KeyEvent>)
        ensures
            r == finish_of(translation, vk, scan, phys, press, modifiers),
    {
        match translation {
            Translation::Char(c) => Some(report(KeyCode::Char(c), phys, vk, scan, press, modifiers)),
            Translation::Nothing => match phys {
                Some(p) => Some(report(KeyCode::Physical(p), phys, vk, scan, press, modifiers)),
                None => None,
            },
            Translation::Ambiguous => None,
        }
    }
}

/// Whether a layout has AltGr: some virtual key other than `skip` gave
/// exactly one character with Control and Alt held (`lens[vk]` is the length
/// the translation gave for `vk`).
pub fn alt_gr_present(lens: &Vec<i32>, skip: usize) -> (r: bool)
    ensures
        r == exists|vk: int| 0 <= vk < lens@.len() && vk != skip && #[trigger] lens@[vk] == 1,
{
    let n = lens.len();
    let mut vk: usize = 0;
    while vk < n
        invariant
            n == lens@.len(),
            vk <= n,
            forall|j: int| 0 <= j < vk && j != skip ==> #[trigger] lens@[j] != 1,
        decreases n - vk,
    {
        if vk != skip && lens[vk] == 1 {
            return true;
        }
        vk = vk + 1;
    }
    false
}

} // verus!
