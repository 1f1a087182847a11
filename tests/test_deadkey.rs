use keyboarder::deadkey::{
    dead_keys_from_probes, probe_keys, probe_leaders, ComboProbe, DeadKeyOutcome, DeadKeyResolver,
    DeadKeyTable, LeaderProbe, ResolvedDeadKey,
};
use keyboarder::types::Modifiers;

const VK_OEM_6: u8 = 0xDD;
const VK_A: u8 = 0x41;
const VK_E: u8 = 0x45;

/// The circumflex and diaeresis dead keys of a French layout.
fn french() -> DeadKeyTable {
    let mut t = DeadKeyTable::new();
    t.add_dead_key(Modifiers::NONE(), VK_OEM_6, '^');
    t.add_dead_key(Modifiers::SHIFT(), VK_OEM_6, '¨');
    assert!(t.add_combination(Modifiers::NONE(), VK_OEM_6, Modifiers::NONE(), VK_A, 'â', 'a'));
    assert!(t.add_combination(Modifiers::NONE(), VK_OEM_6, Modifiers::NONE(), VK_E, 'ê', 'e'));
    assert!(t.add_combination(Modifiers::SHIFT(), VK_OEM_6, Modifiers::NONE(), VK_E, 'ë', 'e'));
    t
}

#[test]
fn circumflex_then_a_combines() {
    let t = french();
    let r = t.resolve_dead_key(
        (Modifiers::NONE(), VK_OEM_6 as u32),
        (Modifiers::NONE(), VK_A as u32),
    );
    assert_eq!(r, ResolvedDeadKey::Combined('â'));
}

#[test]
fn circumflex_twice_gives_the_glyph() {
    let t = french();
    let r = t.resolve_dead_key(
        (Modifiers::NONE(), VK_OEM_6 as u32),
        (Modifiers::NONE(), VK_OEM_6 as u32),
    );
    assert_eq!(r, ResolvedDeadKey::InvalidCombination('^'));

    let mut d = DeadKeyResolver::new();
    assert_eq!(d.on_key(&t, Modifiers::NONE(), VK_OEM_6 as u32, true), DeadKeyOutcome::Suppress);
    assert_eq!(d.on_key(&t, Modifiers::NONE(), VK_OEM_6 as u32, false), DeadKeyOutcome::Ignore);
    assert_eq!(d.on_key(&t, Modifiers::NONE(), VK_OEM_6 as u32, true), DeadKeyOutcome::Emit('^'));
    assert_eq!(d.pending, None);
}

#[test]
fn resolving_twice_gives_the_same_outcome() {
    let t = french();
    let a = t.resolve_dead_key((Modifiers::SHIFT(), VK_OEM_6 as u32), (Modifiers::NONE(), VK_E as u32));
    let b = t.resolve_dead_key((Modifiers::SHIFT(), VK_OEM_6 as u32), (Modifiers::NONE(), VK_E as u32));
    assert_eq!(a, ResolvedDeadKey::Combined('ë'));
    assert_eq!(a, b);
}

#[test]
fn chained_dead_keys_rearm() {
    let t = french();
    let mut d = DeadKeyResolver::new();
    assert_eq!(d.on_key(&t, Modifiers::NONE(), VK_OEM_6 as u32, true), DeadKeyOutcome::Suppress);
    assert_eq!(d.on_key(&t, Modifiers::SHIFT(), VK_OEM_6 as u32, true), DeadKeyOutcome::Suppress);
    assert_eq!(d.pending, Some((Modifiers::SHIFT(), VK_OEM_6 as u32)));
    assert_eq!(d.on_key(&t, Modifiers::NONE(), VK_E as u32, true), DeadKeyOutcome::Emit('ë'));
}

#[test]
fn non_dead_keys_pass_through() {
    let t = french();
    let mut d = DeadKeyResolver::new();
    assert_eq!(d.on_key(&t, Modifiers::NONE(), VK_A as u32, true), DeadKeyOutcome::PassThrough);
    assert_eq!(t.is_dead_key_leader(Modifiers::NONE(), VK_A as u32), None);
    assert_eq!(t.is_dead_key_leader(Modifiers::LEFT_SHIFT(), VK_OEM_6 as u32), Some('¨'));
    assert_eq!(t.is_dead_key_leader(Modifiers::NONE(), 300), None);
    let r = t.resolve_dead_key((Modifiers::NONE(), VK_A as u32), (Modifiers::NONE(), VK_E as u32));
    assert_eq!(r, ResolvedDeadKey::InvalidDeadKey);
}

#[test]
fn second_key_that_does_not_compose_gives_the_glyph() {
    let t = french();
    let mut d = DeadKeyResolver::new();
    d.on_key(&t, Modifiers::NONE(), VK_OEM_6 as u32, true);
    assert_eq!(d.on_key(&t, Modifiers::NONE(), 0x5A, true), DeadKeyOutcome::Emit('^'));
}

#[test]
fn control_artefacts_are_not_recorded() {
    let mut t = french();
    assert!(!t.add_combination(Modifiers::NONE(), VK_OEM_6, Modifiers::CTRL(), VK_A, '\u{1}', '\u{1}'));
    assert!(!t.add_combination(Modifiers::NONE(), VK_A, Modifiers::NONE(), VK_E, 'x', 'e'));
    t.clear();
    assert_eq!(t.is_dead_key_leader(Modifiers::NONE(), VK_OEM_6 as u32), None);
}

const VK_PACKET: u32 = 0xE7;

#[test]
fn probe_keys_skip_the_packet_key() {
    let keys = probe_keys(VK_PACKET);
    assert_eq!(keys.len(), 4 * 255);
    assert_eq!(keys[0], (Modifiers::NONE(), 0));
    assert_eq!(keys[255], (Modifiers::SHIFT(), 0));
    assert_eq!(keys[4 * 255 - 1], (Modifiers::SHIFT() | Modifiers::ALT_GR(), 255));
    assert!(!keys.iter().any(|&(_, vk)| vk == VK_PACKET));
}

#[test]
fn dead_keys_built_from_probes() {
    let firsts = vec![
        LeaderProbe { mods: Modifiers::NONE(), vk: 0x41, ret: 1, glyph: 'a' },
        LeaderProbe { mods: Modifiers::NONE(), vk: VK_OEM_6 as u32, ret: -1, glyph: '^' },
        LeaderProbe { mods: Modifiers::NONE(), vk: VK_PACKET, ret: -1, glyph: '?' },
    ];
    assert_eq!(probe_leaders(&firsts, VK_PACKET), vec![(Modifiers::NONE(), VK_OEM_6 as u32)]);
    let combo = |sec_vk: u32, leader_ret: i32, ret: i32, chr: char| ComboProbe {
        mods: Modifiers::NONE(),
        vk: VK_OEM_6 as u32,
        leader_ret,
        sec_mods: Modifiers::NONE(),
        sec_vk,
        ret,
        chr,
        base_chr: 'a',
    };
    let seconds = vec![
        combo(VK_A as u32, -1, 1, 'â'),
        combo(VK_E as u32, -1, 2, 'x'),
        combo(0x5A, 0, 1, 'z'),
    ];
    let t = dead_keys_from_probes(&firsts, &seconds, VK_PACKET);
    assert_eq!(t.is_dead_key_leader(Modifiers::NONE(), VK_OEM_6 as u32), Some('^'));
    assert_eq!(t.is_dead_key_leader(Modifiers::NONE(), VK_PACKET), None);
    assert_eq!(t.is_dead_key_leader(Modifiers::NONE(), 0x41), None);
    let at = |vk: u8| t.resolve_dead_key((Modifiers::NONE(), VK_OEM_6 as u32), (Modifiers::NONE(), vk as u32));
    assert_eq!(at(VK_A), ResolvedDeadKey::Combined('â'));
    assert_eq!(at(VK_E), ResolvedDeadKey::InvalidCombination('^'));
    assert_eq!(at(0x5A), ResolvedDeadKey::InvalidCombination('^'));
}

#[test]
fn side_specific_modifiers_reach_the_shift_and_altgr_rows() {
    let mut t = french();
    assert!(t.add_combination(Modifiers::NONE(), VK_OEM_6, Modifiers::SHIFT(), VK_A, 'Â', 'A'));
    t.add_dead_key(Modifiers::ALT_GR(), 0x37, '`');
    assert!(t.add_combination(Modifiers::ALT_GR(), 0x37, Modifiers::NONE(), VK_E, 'è', 'e'));

    // ^ then Shift+^ starts ¨ (chained dead keys), then e gives ë.
    let mut d = DeadKeyResolver::new();
    assert_eq!(d.on_key(&t, Modifiers::NONE(), VK_OEM_6 as u32, true), DeadKeyOutcome::Suppress);
    assert_eq!(d.on_key(&t, Modifiers::RIGHT_SHIFT(), VK_OEM_6 as u32, true), DeadKeyOutcome::Suppress);
    assert_eq!(d.on_key(&t, Modifiers::NONE(), VK_E as u32, true), DeadKeyOutcome::Emit('ë'));

    // ^ then left Shift+a gives Â.
    assert_eq!(d.on_key(&t, Modifiers::NONE(), VK_OEM_6 as u32, true), DeadKeyOutcome::Suppress);
    assert_eq!(d.on_key(&t, Modifiers::LEFT_SHIFT(), VK_A as u32, true), DeadKeyOutcome::Emit('Â'));

    // AltGr as Windows reports it: left Control with right Alt.
    let alt_gr = Modifiers::LEFT_CTRL() | Modifiers::RIGHT_ALT();
    assert_eq!(t.is_dead_key_leader(alt_gr, 0x37), Some('`'));
    let r = t.resolve_dead_key((alt_gr, 0x37), (Modifiers::NONE(), VK_E as u32));
    assert_eq!(r, ResolvedDeadKey::Combined('è'));
    assert_eq!(t.is_dead_key_leader(Modifiers::LEFT_ALT(), 0x37), None);
}
