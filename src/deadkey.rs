//! Dead-key composition: the table of leader keys and their combinations,
//! and the state machine that holds a pending leader until the next key.
use vstd::prelude::*;

use std::collections::HashMap;

use crate::types::{
    Modifiers, ALT_GR_BIT, CTRL_BIT, LEFT_ALT_BIT, LEFT_CTRL_BIT, LEFT_SHIFT_BIT, META_BIT,
    RIGHT_ALT_BIT, RIGHT_CTRL_BIT, RIGHT_SHIFT_BIT, SHIFT_BIT,
};
use crate::winkeys::{
    bit_if_down, is_down, spec_key_state_modifiers, VK_LCONTROL, VK_LMENU, VK_LSHIFT, VK_LWIN,
    VK_RCONTROL, VK_RMENU, VK_RSHIFT, VK_RWIN,
};

verus! {

broadcast use vstd::std_specs::hash::group_hash_axioms;

/// The outcome of looking up a leader followed by a second key.
#[derive(Clone, Copy, Debug, PartialEq, Eq, Structural)]
pub enum ResolvedDeadKey {
    /// The first key is not a dead key.
    InvalidDeadKey,
    /// The two keys compose this character.
    Combined(char),
    /// The two keys do not compose; the character is the leader's own glyph.
    InvalidCombination(char),
}

/// The bits that hold Shift: the side-independent bit and either side's key.
pub const ANY_SHIFT_BITS: u16 = 1538;
/// The bits that hold AltGr: its own bit and the right Alt key, which is how
/// Windows reports AltGr (together with a left Control).
pub const ANY_ALT_GR_BITS: u16 = 8256;
/// The bits replaced when a dead key is looked up: every side-specific bit,
/// Shift and AltGr.
pub const FOLDED_BITS: u16 = 10210;

/// The modifiers under which a dead key is looked up, in the form of the
/// probed states: Shift of either side folds into Shift, the right Alt key
/// into AltGr, and the other side-specific bits (the left Control that
/// comes with AltGr among them) are dropped; side-independent bits stay.
pub open spec fn spec_fixup_mods(m: Modifiers) -> Modifiers {
    Modifiers {
        bits: (m.bits & !FOLDED_BITS) | (if m.bits & ANY_SHIFT_BITS != 0 {
            SHIFT_BIT
        } else {
            0u16
        }) | (if m.bits & ANY_ALT_GR_BITS != 0 {
            ALT_GR_BIT
        } else {
            0u16
        }),
    }
}

/// The table key of a virtual key pressed under modifiers.
pub open spec fn key_code(m: Modifiers, vk: u8) -> u32 {
    ((m.bits as u32) * 256 + vk as u32) as u32
}

/// The table key of a leader followed by a second key.
pub open spec fn pair_code(leader: u32, second: u32) -> u64 {
    ((leader as u64) * 16777216 + second as u64) as u64
}

/// Which dead key `(m, vk)` starts under the table `leaders`, if any.
pub open spec fn leader_in(leaders: Map<u32, char>, m: Modifiers, vk: u32) -> Option<char> {
    let k = key_code(spec_fixup_mods(m), vk as u8);
    if vk <= 255 && leaders.contains_key(k) {
        Some(leaders[k])
    } else {
        None
    }
}

/// How the leader `last` followed by `cur` resolves under the tables.
pub open spec fn resolve_in(
    leaders: Map<u32, char>,
    combos: Map<u64, char>,
    last: (Modifiers, u32),
    cur: (Modifiers, u32),
) -> ResolvedDeadKey {
    let lk = key_code(spec_fixup_mods(last.0), last.1 as u8);
    let ck = key_code(spec_fixup_mods(cur.0), cur.1 as u8);
    if last.1 <= 255 && cur.1 <= 255 && leaders.contains_key(lk) {
        if combos.contains_key(pair_code(lk, ck)) {
            ResolvedDeadKey::Combined(combos[pair_code(lk, ck)])
        } else {
            ResolvedDeadKey::InvalidCombination(leaders[lk])
        }
    } else {
        ResolvedDeadKey::InvalidDeadKey
    }
}

/// Whether a probed combination is an artefact of Control: the second key
/// was pressed with Control (and maybe Shift) and yields, unchanged, an
/// ASCII control character.
pub open spec fn spec_is_control_artefact(sec_mods: Modifiers, chr: char, base_chr: char) -> bool {
    (sec_mods.bits == CTRL_BIT || sec_mods.bits == (CTRL_BIT | SHIFT_BIT)) && chr == base_chr
        && (chr as u32) < 0x20
}

/// The dead keys of one keyboard layout.
pub struct DeadKeyTable {
    /// Leader key code to the glyph of the dead key.
    leaders: HashMap<u32, char>,
    /// Pair of key codes to the composed character.
    combos: HashMap<u64, char>,
}

/// The modifiers under which a dead key is looked up (see `spec_fixup_mods`).
pub fn fixup_mods(m: Modifiers) -> (r: Modifiers)
    ensures
        r == spec_fixup_mods(m),
{
    let shift: u16 = if m.bits & ANY_SHIFT_BITS != 0 {
        SHIFT_BIT
    } else {
        0
    };
    let alt_gr: u16 = if m.bits & ANY_ALT_GR_BITS != 0 {
        ALT_GR_BIT
    } else {
        0
    };
    Modifiers { bits: (m.bits & !FOLDED_BITS) | shift | alt_gr }
}

fn key_of(m: Modifiers, vk: u8) -> (r: u32)
    ensures
        r == key_code(m, vk),
{
    (m.bits as u32) * 256 + vk as u32
}

fn pair_of(leader: u32, second: u32) -> (r: u64)
    requires
        leader < 16777216,
        second < 16777216,
    ensures
        r == pair_code(leader, second),
{
    (leader as u64) * 16777216 + second as u64
}

impl DeadKeyTable {
    /// The leader table: key code to dead glyph.
    pub closed spec fn leaders(&self) -> Map<u32, char> {
        self.leaders@
    }

    /// The combination table: pair of key codes to composed character.
    pub closed spec fn combos(&self) -> Map<u64, char> {
        self.combos@
    }

    /// An empty table.
    pub fn new() -> (r: DeadKeyTable)
        ensures
            r.leaders() == Map::<u32, char>::empty(),
            r.combos() == Map::<u64, char>::empty(),
    {
        DeadKeyTable { leaders: HashMap::new(), combos: HashMap::new() }
    }

    /// Forget every dead key.
    pub fn clear(&mut self)
        ensures
            final(self).leaders() == Map::<u32, char>::empty(),
            final(self).combos() == Map::<u64, char>::empty(),
    {
        self.leaders.clear();
        self.combos.clear();
    }

    /// Record that `vk` under `mods` starts a dead key showing `dead_char`.
    pub fn add_dead_key(&mut self, mods: Modifiers, vk: u8, dead_char: char)
        ensures
            final(self).leaders() == old(self).leaders().insert(key_code(mods, vk), dead_char),
            final(self).combos() == old(self).combos(),
    {
        let k = key_of(mods, vk);
        self.leaders.insert(k, dead_char);
    }

    /// Record that the dead key `(mods, vk)` followed by `(sec_mods, sec_vk)`
    /// composes `chr`, where `base_chr` is what the second key gives alone.
    /// Nothing is recorded, and `false` returned, when `(mods, vk)` is no dead
    /// key or the combination is a Control artefact.
    pub fn add_combination(
        &mut self,
        mods: Modifiers,
        vk: u8,
        sec_mods: Modifiers,
        sec_vk: u8,
        chr: char,
        base_chr: char,
    ) -> (r: bool)
        ensures
            r == (old(self).leaders().contains_key(key_code(mods, vk)) && !spec_is_control_artefact(
                sec_mods,
                chr,
                base_chr,
            )),
            final(self).leaders() == old(self).leaders(),
            final(self).combos() == if r {
                old(self).combos().insert(pair_code(key_code(mods, vk), key_code(sec_mods, sec_vk)), chr)
            } else {
                old(self).combos()
            },
    {
        let k = key_of(mods, vk);
        if !self.leaders.contains_key(&k) {
            return false;
        }
        let control = (sec_mods.bits == CTRL_BIT || sec_mods.bits == (CTRL_BIT | SHIFT_BIT)) && chr
            == base_chr && (chr as u32) < 0x20;
        if control {
            return false;
        }
        let sk = key_of(sec_mods, sec_vk);
        self.combos.insert(pair_of(k, sk), chr);
        true
    }

    /// The glyph of the dead key that `vk` starts under `mods`, if it starts one.
    pub fn is_dead_key_leader(&self, mods: Modifiers, vk: u32) -> (r: Option<char>)
        ensures
            r == leader_in(self.leaders(), mods, vk),
    {
        if vk <= 255 {
            let k = key_of(fixup_mods(mods), vk as u8);
            match self.leaders.get(&k) {
                Some(c) => Some(*c),
                None => None,
            }
        } else {
            None
        }
    }

    /// Resolve the dead key `last_keys` followed by `cur_keys`, each a pair of
    /// modifiers and virtual key.
    pub fn resolve_dead_key(&self, last_keys: (Modifiers, u32), cur_keys: (Modifiers, u32)) -> (r:
        ResolvedDeadKey)
        ensures
            r == resolve_in(self.leaders(), self.combos(), last_keys, cur_keys),
    {
        if last_keys.1 <= 255 && cur_keys.1 <= 255 {
            let lk = key_of(fixup_mods(last_keys.0), last_keys.1 as u8);
            let ck = key_of(fixup_mods(cur_keys.0), cur_keys.1 as u8);
            match self.leaders.get(&lk) {
                Some(dead) => match self.combos.get(&pair_of(lk, ck)) {
                    Some(c) => ResolvedDeadKey::Combined(*c),
                    None => ResolvedDeadKey::InvalidCombination(*dead),
                },
                None => ResolvedDeadKey::InvalidDeadKey,
            }
        } else {
            ResolvedDeadKey::InvalidDeadKey
        }
    }
}

/// The `k`-th modifier state under which dead keys are probed: none, Shift,
/// AltGr, and Shift with AltGr.
pub open spec fn probe_state(k: int) -> Modifiers {
    if k == 0 {
        Modifiers { bits: 0 }
    } else if k == 1 {
        Modifiers { bits: SHIFT_BIT }
    } else if k == 2 {
        Modifiers { bits: ALT_GR_BIT }
    } else {
        Modifiers { bits: SHIFT_BIT | ALT_GR_BIT }
    }
}

fn probe_state_at(k: usize) -> (r: Modifiers)
    ensures
        r == probe_state(k as int),
{
    if k == 0 {
        Modifiers { bits: 0 }
    } else if k == 1 {
        Modifiers { bits: SHIFT_BIT }
    } else if k == 2 {
        Modifiers { bits: ALT_GR_BIT }
    } else {
        Modifiers { bits: SHIFT_BIT | ALT_GR_BIT }
    }
}

/// The number of (modifier state, virtual key) pairs before skipping: four
/// states times 256 keys.
pub const PROBE_COUNT: usize = 1024;

/// The first `n` of the pairs (modifier state, virtual key) to probe, state by
/// state and key by key, without the packet key `packet`, which would give
/// false positives.
pub open spec fn probe_list(packet: u32, n: nat) -> Seq<(Modifiers, u32)>
    decreases n,
{
    if n == 0 {
        seq![]
    } else {
        let prev = probe_list(packet, (n - 1) as nat);
        let i = n - 1;
        let vk = (i % 256) as u32;
        if vk == packet {
            prev
        } else {
            prev.push((probe_state(i / 256), vk))
        }
    }
}

/// The keys to probe as dead keys, and as second keys after a dead key: every
/// virtual key but `packet_vk` under each probed modifier state.
pub fn probe_keys(packet_vk: u32) -> (r: Vec<(Modifiers, u32)>)
    ensures
        r@ == probe_list(packet_vk, PROBE_COUNT as nat),
{
    let mut r: Vec<(Modifiers, u32)> = Vec::new();
    let mut i: usize = 0;
    while i < PROBE_COUNT
        invariant
            i <= PROBE_COUNT,
            r@ == probe_list(packet_vk, i as nat),
        decreases PROBE_COUNT - i,
    {
        let vk = (i % 256) as u32;
        if vk != packet_vk {
            r.push((probe_state_at(i / 256), vk));
        }
        i = i + 1;
    }
    r
}

/// What translating one key under a modifier state gave.
#[derive(Clone, Copy, Debug, PartialEq, Eq, Structural)]
pub struct LeaderProbe {
    pub mods: Modifiers,
    pub vk: u32,
    /// The return code of the translation: -1 for a dead key.
    pub ret: i32,
    /// The first character the translation wrote: the dead key's glyph.
    pub glyph: char,
}

/// What translating a dead key and then a second key gave.
#[derive(Clone, Copy, Debug, PartialEq, Eq, Structural)]
pub struct ComboProbe {
    pub mods: Modifiers,
    pub vk: u32,
    /// The return code of translating the dead key again: -1 when it is still dead.
    pub leader_ret: i32,
    pub sec_mods: Modifiers,
    pub sec_vk: u32,
    /// The return code of translating the second key: 1 for one character.
    pub ret: i32,
    /// The character the pair composes.
    pub chr: char,
    /// The character of the second key alone.
    pub base_chr: char,
}

/// Whether a probe found a dead key.
pub open spec fn is_leader_probe(p: LeaderProbe, packet: u32) -> bool {
    p.ret == -1 && p.vk != packet && p.vk <= 255
}

/// The leader table that the probes give; a later probe of a key wins.
pub open spec fn leaders_of(probes: Seq<LeaderProbe>, packet: u32) -> Map<u32, char>
    decreases probes.len(),
{
    if probes.len() == 0 {
        Map::empty()
    } else {
        let m = leaders_of(probes.drop_last(), packet);
        let p = probes.last();
        if is_leader_probe(p, packet) {
            m.insert(key_code(p.mods, p.vk as u8), p.glyph)
        } else {
            m
        }
    }
}

/// The dead keys that the probes found, in probe order.
pub open spec fn leader_keys_of(probes: Seq<LeaderProbe>, packet: u32) -> Seq<(Modifiers, u32)>
    decreases probes.len(),
{
    if probes.len() == 0 {
        seq![]
    } else {
        let s = leader_keys_of(probes.drop_last(), packet);
        let p = probes.last();
        if is_leader_probe(p, packet) {
            s.push((p.mods, p.vk))
        } else {
            s
        }
    }
}

/// Whether a probe found a combination of a known dead key.
pub open spec fn is_combo_probe(leaders: Map<u32, char>, p: ComboProbe, packet: u32) -> bool {
    p.leader_ret == -1 && p.ret == 1 && p.vk <= 255 && p.sec_vk <= 255 && p.sec_vk != packet
        && leaders.contains_key(key_code(p.mods, p.vk as u8)) && !spec_is_control_artefact(
        p.sec_mods,
        p.chr,
        p.base_chr,
    )
}

/// The combination table that the probes give for the leader table
/// `leaders`; a later probe of a pair wins.
pub open spec fn combos_of(leaders: Map<u32, char>, probes: Seq<ComboProbe>, packet: u32) -> Map<u64, char>
    decreases probes.len(),
{
    if probes.len() == 0 {
        Map::empty()
    } else {
        let m = combos_of(leaders, probes.drop_last(), packet);
        let p = probes.last();
        if is_combo_probe(leaders, p, packet) {
            m.insert(pair_code(key_code(p.mods, p.vk as u8), key_code(p.sec_mods, p.sec_vk as u8)), p.chr)
        } else {
            m
        }
    }
}

/// A key is a leader exactly when some probe found it dead.
pub proof fn lemma_leaders_of_domain(probes: Seq<LeaderProbe>, packet: u32, k: u32)
    ensures
        leaders_of(probes, packet).contains_key(k) <==> exists|i: int|
            0 <= i < probes.len() && is_leader_probe(#[trigger] probes[i], packet) && key_code(
                probes[i].mods,
                probes[i].vk as u8,
            ) == k,
    decreases probes.len(),
{
    if probes.len() > 0 {
        let init = probes.drop_last();
        lemma_leaders_of_domain(init, packet, k);
        if exists|i: int|
            0 <= i < init.len() && is_leader_probe(#[trigger] init[i], packet) && key_code(
                init[i].mods,
                init[i].vk as u8,
            ) == k {
            let i = choose|i: int|
                0 <= i < init.len() && is_leader_probe(#[trigger] init[i], packet) && key_code(
                    init[i].mods,
                    init[i].vk as u8,
                ) == k;
            assert(probes[i] == init[i]);
        }
        if exists|i: int|
            0 <= i < probes.len() && is_leader_probe(#[trigger] probes[i], packet) && key_code(
                probes[i].mods,
                probes[i].vk as u8,
            ) == k {
            let i = choose|i: int|
                0 <= i < probes.len() && is_leader_probe(#[trigger] probes[i], packet) && key_code(
                    probes[i].mods,
                    probes[i].vk as u8,
                ) == k;
            if i < probes.len() - 1 {
                assert(init[i] == probes[i]);
            }
        }
    }
}

/// The probed modifier states are already in lookup form, so the table rows
/// they write are the rows that lookups read.
pub proof fn lemma_probe_states_fixed(k: int)
    requires
        0 <= k < 4,
    ensures
        spec_fixup_mods(probe_state(k)) == probe_state(k),
{
    assert(0u16 & !10210u16 == 0u16 && 0u16 & 1538u16 == 0u16 && 0u16 & 8256u16 == 0u16) by (bit_vector);
    assert(2u16 & !10210u16 == 0u16 && 2u16 & 1538u16 != 0u16 && 2u16 & 8256u16 == 0u16) by (bit_vector);
    assert(8192u16 & !10210u16 == 0u16 && 8192u16 & 1538u16 == 0u16 && 8192u16 & 8256u16 != 0u16)
        by (bit_vector);
    assert((2u16 | 8192u16) & !10210u16 == 0u16 && (2u16 | 8192u16) & 1538u16 != 0u16 && (2u16
        | 8192u16) & 8256u16 != 0u16) by (bit_vector);
    assert(0u16 | 0u16 | 0u16 == 0u16 && 0u16 | 2u16 | 0u16 == 2u16 && 0u16 | 0u16 | 8192u16 == 8192u16
        && 0u16 | 2u16 | 8192u16 == 2u16 | 8192u16) by (bit_vector);
}

/// The probe-state row that a keyboard state array selects: Shift when
/// either Shift key is down, AltGr when the right Alt key is.
pub open spec fn key_state_row(states: Seq<u8>) -> int {
    (if is_down(states[VK_LSHIFT as int]) || is_down(states[VK_RSHIFT as int]) {
        1int
    } else {
        0int
    }) + (if is_down(states[VK_RMENU as int]) {
        2int
    } else {
        0int
    })
}

/// The modifiers read from a keyboard state array look a dead key up in the
/// row of the probe state that the Shift and AltGr keys select, with Meta
/// added when a Windows key is down (a row that no probe writes).
pub proof fn lemma_key_state_lookup(states: Seq<u8>)
    requires
        states.len() == 256,
    ensures
        spec_fixup_mods(spec_key_state_modifiers(states)).bits == probe_state(key_state_row(states)).bits
            | (if is_down(states[VK_LWIN as int]) || is_down(states[VK_RWIN as int]) {
            META_BIT
        } else {
            0u16
        }),
{
    let a = bit_if_down(states[VK_LSHIFT as int], LEFT_SHIFT_BIT);
    let b = bit_if_down(states[VK_RSHIFT as int], RIGHT_SHIFT_BIT);
    let c = bit_if_down(states[VK_LCONTROL as int], LEFT_CTRL_BIT);
    let d = bit_if_down(states[VK_RCONTROL as int], RIGHT_CTRL_BIT);
    let e = bit_if_down(states[VK_LMENU as int], LEFT_ALT_BIT);
    let f = bit_if_down(states[VK_RMENU as int], RIGHT_ALT_BIT);
    let g = bit_if_down(states[VK_LWIN as int], META_BIT);
    let h = bit_if_down(states[VK_RWIN as int], META_BIT);
    let x = a | b | c | d | e | f | g | h;
    assert(x == spec_key_state_modifiers(states).bits);
    assert(((x & 1538u16) != 0u16) == (a != 0u16 || b != 0u16) && ((x & 8256u16) != 0u16) == (f
        != 0u16) && (x & !10210u16) == (g | h)) by (bit_vector)
        requires
            a == 0u16 || a == 512u16,
            b == 0u16 || b == 1024u16,
            c == 0u16 || c == 128u16,
            d == 0u16 || d == 256u16,
            e == 0u16 || e == 32u16,
            f == 0u16 || f == 64u16,
            g == 0u16 || g == 16u16,
            h == 0u16 || h == 16u16,
            x == a | b | c | d | e | f | g | h,
    ;
    let m = g | h;
    assert((m == 0u16 || m == 16u16) && (m == 16u16 <==> (g == 16u16 || h == 16u16))) by (bit_vector)
        requires
            g == 0u16 || g == 16u16,
            h == 0u16 || h == 16u16,
            m == g | h,
    ;
    let s1: u16 = if a != 0 || b != 0 {
        2
    } else {
        0
    };
    let a1: u16 = if f != 0 {
        8192
    } else {
        0
    };
    assert(m | s1 | a1 == (s1 | a1) | m) by (bit_vector);
    assert(0u16 | 0u16 == 0u16 && 2u16 | 0u16 == 2u16 && 0u16 | 8192u16 == 8192u16) by (bit_vector);
}

/// The dead keys that the probes found, to be probed with every second key.
pub fn probe_leaders(firsts: &Vec<LeaderProbe>, packet_vk: u32) -> (r: Vec<(Modifiers, u32)>)
    ensures
        r@ == leader_keys_of(firsts@, packet_vk),
{
    let mut r: Vec<(Modifiers, u32)> = Vec::new();
    let n = firsts.len();
    let mut i: usize = 0;
    while i < n
        invariant
            n == firsts@.len(),
            i <= n,
            r@ == leader_keys_of(firsts@.take(i as int), packet_vk),
        decreases n - i,
    {
        assert(firsts@.take(i + 1).drop_last() =~= firsts@.take(i as int));
        let p = firsts[i];
        if p.ret == -1 && p.vk != packet_vk && p.vk <= 255 {
            r.push((p.mods, p.vk));
        }
        i = i + 1;
    }
    assert(firsts@.take(n as int) =~= firsts@);
    r
}

/// The dead-key table of a layout from its probes: the keys whose
/// translation was dead (-1), and, for each of them, the second keys that
/// then gave one character (1), Control artefacts left out.
pub fn dead_keys_from_probes(
    firsts: &Vec<LeaderProbe>,
    seconds: &Vec<ComboProbe>,
    packet_vk: u32,
) -> (r: DeadKeyTable)
    ensures
        r.leaders() == leaders_of(firsts@, packet_vk),
        r.combos() == combos_of(r.leaders(), seconds@, packet_vk),
{
    let mut t = DeadKeyTable::new();
    let n = firsts.len();
    let mut i: usize = 0;
    while i < n
        invariant
            n == firsts@.len(),
            i <= n,
            t.leaders() == leaders_of(firsts@.take(i as int), packet_vk),
            t.combos() == Map::<u64, char>::empty(),
        decreases n - i,
    {
        assert(firsts@.take(i + 1).drop_last() =~= firsts@.take(i as int));
        let p = firsts[i];
        if p.ret == -1 && p.vk != packet_vk && p.vk <= 255 {
            t.add_dead_key(p.mods, p.vk as u8, p.glyph);
        }
        i = i + 1;
    }
    assert(firsts@.take(n as int) =~= firsts@);
    let ghost leaders = t.leaders();
    let m = seconds.len();
    let mut j: usize = 0;
    while j < m
        invariant
            m == seconds@.len(),
            j <= m,
            t.leaders() == leaders,
            t.combos() == combos_of(leaders, seconds@.take(j as int), packet_vk),
        decreases m - j,
    {
        assert(seconds@.take(j + 1).drop_last() =~= seconds@.take(j as int));
        let p = seconds[j];
        if p.leader_ret == -1 && p.ret == 1 && p.vk <= 255 && p.sec_vk <= 255 && p.sec_vk != packet_vk {
            t.add_combination(p.mods, p.vk as u8, p.sec_mods, p.sec_vk as u8, p.chr, p.base_chr);
        }
        j = j + 1;
    }
    assert(seconds@.take(m as int) =~= seconds@);
    t
}

/// What to do with a key event once the dead-key state has seen it.
#[derive(Clone, Copy, Debug, PartialEq, Eq, Structural)]
pub enum DeadKeyOutcome {
    /// The key starts (or restarts) a composition: inject nothing yet.
    Suppress,
    /// A key-up while a composition is pending: inject nothing.
    Ignore,
    /// The composition ended with this character: inject it.
    Emit(char),
    /// The pending composition was inconsistent and is dropped with the key.
    Drop,
    /// No composition is involved: translate the key as usual.
    PassThrough,
}

/// The dead-key state machine: idle, or holding a pending leader key.
pub struct DeadKeyResolver {
    /// The pending leader: its modifiers and virtual key.
    pub pending: Option<(Modifiers, u32)>,
}

/// The next pending leader and the outcome when a non-modifier key `(mods, vk)`
/// is pressed (`press`) or released while `pending` is held.
pub open spec fn dead_key_step(
    leaders: Map<u32, char>,
    combos: Map<u64, char>,
    pending: Option<(Modifiers, u32)>,
    mods: Modifiers,
    vk: u32,
    press: bool,
) -> (Option<(Modifiers, u32)>, DeadKeyOutcome) {
    match pending {
        Some(last) => {
            if !press {
                (pending, DeadKeyOutcome::Ignore)
            } else {
                match resolve_in(leaders, combos, last, (mods, vk)) {
                    ResolvedDeadKey::InvalidDeadKey => (None, DeadKeyOutcome::Drop),
                    ResolvedDeadKey::Combined(c) => (None, DeadKeyOutcome::Emit(c)),
                    ResolvedDeadKey::InvalidCombination(c) => {
                        match leader_in(leaders, mods, vk) {
                            Some(next) => {
                                if next != c {
                                    (Some((mods, vk)), DeadKeyOutcome::Suppress)
                                } else {
                                    (None, DeadKeyOutcome::Emit(c))
                                }
                            },
                            None => (None, DeadKeyOutcome::Emit(c)),
                        }
                    },
                }
            }
        },
        None => {
            if press && leader_in(leaders, mods, vk) is Some {
                (Some((mods, vk)), DeadKeyOutcome::Suppress)
            } else {
                (None, DeadKeyOutcome::PassThrough)
            }
        },
    }
}

impl DeadKeyResolver {
    /// An idle resolver.
    pub fn new() -> (r: DeadKeyResolver)
        ensures
            r.pending is None,
    {
        DeadKeyResolver { pending: None }
    }

    /// Feed one non-modifier key event: `vk` pressed (`press`) or released
    /// under `mods`. A leader is held back until the next key press, which
    /// either composes with it, starts a different dead key, or makes the
    /// leader's own glyph come out.
    pub fn on_key(&mut self, table: &DeadKeyTable, mods: Modifiers, vk: u32, press: bool) -> (r:
        DeadKeyOutcome)
        ensures
            (final(self).pending, r) == dead_key_step(
                table.leaders(),
                table.combos(),
                old(self).pending,
                mods,
                vk,
                press,
            ),
    {
        match self.pending {
            Some(last) => {
                if !press {
                    return DeadKeyOutcome::Ignore;
                }
                self.pending = None;
                match table.resolve_dead_key(last, (mods, vk)) {
                    ResolvedDeadKey::InvalidDeadKey => DeadKeyOutcome::Drop,
                    ResolvedDeadKey::Combined(c) => DeadKeyOutcome::Emit(c),
                    ResolvedDeadKey::InvalidCombination(c) => {
                        match table.is_dead_key_leader(mods, vk) {
                            Some(next) => {
                                if next != c {
                                    self.pending = Some((mods, vk));
                                    DeadKeyOutcome::Suppress
                                } else {
                                    DeadKeyOutcome::Emit(c)
                                }
                            },
                            None => DeadKeyOutcome::Emit(c),
                        }
                    },
                }
            },
            None => {
                if press && table.is_dead_key_leader(mods, vk).is_some() {
                    self.pending = Some((mods, vk));
                    DeadKeyOutcome::Suppress
                } else {
                    DeadKeyOutcome::PassThrough
                }
            },
        }
    }
}

/// Resolving a leader and a second key depends on the layout's tables and the
/// two keys alone: two tables with the same contents, asked for the same pair,
/// give the same outcome.
pub proof fn lemma_dead_key_determinism(
    t1: &DeadKeyTable,
    t2: &DeadKeyTable,
    last: (Modifiers, u32),
    cur: (Modifiers, u32),
)
    requires
        t1.leaders() == t2.leaders(),
        t1.combos() == t2.combos(),
    ensures
        resolve_in(t1.leaders(), t1.combos(), last, cur) == resolve_in(
            t2.leaders(),
            t2.combos(),
            last,
            cur,
        ),
{
}

} // verus!
