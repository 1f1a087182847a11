//! A snapshot of the active keyboard layout: which native key code sits at
//! each physical position, which key code types each keysym and at which
//! shift level, and which key codes are free.
use vstd::prelude::*;

use std::collections::HashMap;

use crate::phys::{phys_tag, win_scan_pairs, win_scan_table, PhysKeyCode};
use crate::types::{spec_group_number, GroupIndex, Modifiers, ALT_GR_BIT, SHIFT_BIT};

verus! {

broadcast use vstd::std_specs::hash::group_hash_axioms;

/// The modifiers that select a shift level: Shift for level 1, AltGr for
/// level 2, both for level 3, none otherwise.
pub open spec fn spec_level_to_modifiers(level: u32) -> Modifiers {
    if level == 1 {
        Modifiers { bits: SHIFT_BIT }
    } else if level == 2 {
        Modifiers { bits: ALT_GR_BIT }
    } else if level == 3 {
        Modifiers { bits: SHIFT_BIT | ALT_GR_BIT }
    } else {
        Modifiers { bits: 0 }
    }
}

/// The modifiers that select shift level `level`.
pub fn level_to_modifiers(level: u32) -> (r: Modifiers)
    ensures
        r == spec_level_to_modifiers(level),
{
    if level == 1 {
        Modifiers { bits: SHIFT_BIT }
    } else if level == 2 {
        Modifiers { bits: ALT_GR_BIT }
    } else if level == 3 {
        Modifiers { bits: SHIFT_BIT | ALT_GR_BIT }
    } else {
        Modifiers { bits: 0 }
    }
}

/// The contents of a layout snapshot.
pub struct LayoutView {
    /// Physical key tag to native key code.
    pub phys_code: Map<u32, u32>,
    /// Native key code to physical key.
    pub code_phys: Map<u32, PhysKeyCode>,
    /// Keysym to the key code that types it at the base level.
    pub keysym_code: Map<u32, u32>,
    /// Keysym to the key code and level modifiers that type it.
    pub keysym_event: Map<u32, (u32, Modifiers)>,
    /// Character (as a scalar value) to the keysym that produces it.
    pub char_keysym: Map<u32, u32>,
    /// Key codes that type nothing, in ascending order of discovery.
    pub unused: Seq<u32>,
}

/// The table of keysyms by level for one key, entered from the highest level
/// down so that the lowest level that types a keysym wins.
pub open spec fn levels_entered(
    m: Map<u32, (u32, Modifiers)>,
    keycode: u32,
    levels: Seq<u32>,
    n: nat,
) -> Map<u32, (u32, Modifiers)>
    decreases n,
{
    if n == 0 || n > levels.len() {
        m
    } else {
        let l = (n - 1) as nat;
        let m2 = if levels[l as int] != 0 {
            m.insert(levels[l as int], (keycode, spec_level_to_modifiers(l as u32)))
        } else {
            m
        };
        levels_entered(m2, keycode, levels, l)
    }
}

/// The active keyboard layout.
pub struct Layout {
    phys_code: HashMap<u32, u32>,
    code_phys: HashMap<u32, PhysKeyCode>,
    keysym_code: HashMap<u32, u32>,
    keysym_event: HashMap<u32, (u32, Modifiers)>,
    char_keysym: HashMap<u32, u32>,
    unused: Vec<u32>,
}

impl View for Layout {
    type V = LayoutView;

    closed spec fn view(&self) -> LayoutView {
        LayoutView {
            phys_code: self.phys_code@,
            code_phys: self.code_phys@,
            keysym_code: self.keysym_code@,
            keysym_event: self.keysym_event@,
            char_keysym: self.char_keysym@,
            unused: self.unused@,
        }
    }
}

impl Layout {
    /// A layout that maps nothing.
    pub fn new() -> (r: Layout)
        ensures
            r@.phys_code == Map::<u32, u32>::empty(),
            r@.code_phys == Map::<u32, PhysKeyCode>::empty(),
            r@.keysym_code == Map::<u32, u32>::empty(),
            r@.keysym_event == Map::<u32, (u32, Modifiers)>::empty(),
            r@.char_keysym == Map::<u32, u32>::empty(),
            r@.unused == Seq::<u32>::empty(),
    {
        Layout {
            phys_code: HashMap::new(),
            code_phys: HashMap::new(),
            keysym_code: HashMap::new(),
            keysym_event: HashMap::new(),
            char_keysym: HashMap::new(),
            unused: Vec::new(),
        }
    }

    /// Record that the physical key `phys` sits at native key code `keycode`.
    pub fn add_phys(&mut self, phys: PhysKeyCode, keycode: u32)
        ensures
            final(self)@ == (LayoutView {
                phys_code: old(self)@.phys_code.insert(phys_tag(phys), keycode),
                code_phys: old(self)@.code_phys.insert(keycode, phys),
                ..old(self)@
            }),
    {
        self.phys_code.insert(phys.tag(), keycode);
        self.code_phys.insert(keycode, phys);
    }

    /// Record the base keysym of `keycode` (0: the key types nothing, so it
    /// is free) and the character that keysym produces (0: none).
    pub fn add_key(&mut self, keycode: u32, base_sym: u32, base_char: u32)
        ensures
            final(self)@ == if base_sym == 0 {
                LayoutView { unused: old(self)@.unused.push(keycode), ..old(self)@ }
            } else if base_char == 0 {
                LayoutView { keysym_code: old(self)@.keysym_code.insert(base_sym, keycode), ..old(self)@ }
            } else {
                LayoutView {
                    keysym_code: old(self)@.keysym_code.insert(base_sym, keycode),
                    char_keysym: old(self)@.char_keysym.insert(base_char, base_sym),
                    ..old(self)@
                }
            },
    {
        if base_sym == 0 {
            self.unused.push(keycode);
        } else {
            self.keysym_code.insert(base_sym, keycode);
            if base_char != 0 {
                self.char_keysym.insert(base_char, base_sym);
            }
        }
    }

    /// Record the keysyms that `keycode` types at each shift level (index =
    /// level, 0: none). A keysym typed at several levels keeps the lowest.
    pub fn add_levels(&mut self, keycode: u32, levels: &Vec<u32>)
        ensures
            final(self)@ == (LayoutView {
                keysym_event: levels_entered(
                    old(self)@.keysym_event,
                    keycode,
                    levels@,
                    levels@.len(),
                ),
                ..old(self)@
            }),
    {
        let mut l: usize = levels.len();
        while l > 0
            invariant
                l <= levels@.len(),
                levels_entered(old(self)@.keysym_event, keycode, levels@, levels@.len())
                    == levels_entered(self.keysym_event@, keycode, levels@, l as nat),
                self.phys_code@ == old(self)@.phys_code,
                self.code_phys@ == old(self)@.code_phys,
                self.keysym_code@ == old(self)@.keysym_code,
                self.char_keysym@ == old(self)@.char_keysym,
                self.unused@ == old(self)@.unused,
            decreases l,
        {
            let level = l - 1;
            let sym = levels[level];
            if sym != 0 {
                self.keysym_event.insert(sym, (keycode, level_to_modifiers(level as u32)));
            }
            l = level;
        }
    }

    /// The native key code of the physical key, if the layout has one.
    pub fn get_keycode_by_phys(&self, phys: PhysKeyCode) -> (r: Option<u32>)
        ensures
            r == if self@.phys_code.contains_key(phys_tag(phys)) {
                Some(self@.phys_code[phys_tag(phys)])
            } else {
                None
            },
    {
        match self.phys_code.get(&phys.tag()) {
            Some(c) => Some(*c),
            None => None,
        }
    }

    /// The physical key at the native key code, if any.
    pub fn get_phys_by_keycode(&self, keycode: u32) -> (r: Option<PhysKeyCode>)
        ensures
            r == if self@.code_phys.contains_key(keycode) {
                Some(self@.code_phys[keycode])
            } else {
                None
            },
    {
        match self.code_phys.get(&keycode) {
            Some(p) => Some(*p),
            None => None,
        }
    }

    /// The key code that types the keysym at the base level, if any.
    pub fn get_keycode_by_keysym(&self, keysym: u32) -> (r: Option<u32>)
        ensures
            r == if self@.keysym_code.contains_key(keysym) {
                Some(self@.keysym_code[keysym])
            } else {
                None
            },
    {
        match self.keysym_code.get(&keysym) {
            Some(c) => Some(*c),
            None => None,
        }
    }

    /// The key code and the level modifiers that type the keysym, if any.
    pub fn get_key_event_by_keysym(&self, keysym: u32) -> (r: Option<(u32, Modifiers)>)
        ensures
            r == if self@.keysym_event.contains_key(keysym) {
                Some(self@.keysym_event[keysym])
            } else {
                None
            },
    {
        match self.keysym_event.get(&keysym) {
            Some(e) => Some(*e),
            None => None,
        }
    }

    /// The keysym of the layout that produces the character, if any.
    pub fn get_keysym_by_char(&self, chr: char) -> (r: Option<u32>)
        ensures
            r == if self@.char_keysym.contains_key(chr as u32) {
                Some(self@.char_keysym[chr as u32])
            } else {
                None
            },
    {
        match self.char_keysym.get(&(chr as u32)) {
            Some(k) => Some(*k),
            None => None,
        }
    }

    /// Take the first free key code, if any is left.
    pub fn take_unused(&mut self) -> (r: Option<u32>)
        ensures
            old(self)@.unused.len() == 0 ==> r is None && final(self)@ == old(self)@,
            old(self)@.unused.len() > 0 ==> r == Some(old(self)@.unused[0]) && final(self)@ == (LayoutView {
                unused: old(self)@.unused.drop_first(),
                ..old(self)@
            }),
    {
        if self.unused.len() == 0 {
            None
        } else {
            let k = self.unused.remove(0);
            assert(self.unused@ =~= old(self)@.unused.drop_first());
            Some(k)
        }
    }
}

/// The layout `v` with each pair `(native code, physical key)` of `pairs`
/// entered in order; a later pair wins over an earlier one.
pub open spec fn pairs_entered(v: LayoutView, pairs: Seq<(u32, PhysKeyCode)>) -> LayoutView
    decreases pairs.len(),
{
    if pairs.len() == 0 {
        v
    } else {
        let w = pairs_entered(v, pairs.drop_last());
        let (c, p) = pairs.last();
        LayoutView { phys_code: w.phys_code.insert(phys_tag(p), c), code_phys: w.code_phys.insert(c, p), ..w }
    }
}

impl Layout {
    /// Enter each pair `(native code, physical key)` in order.
    pub fn add_phys_pairs(&mut self, pairs: &Vec<(u32, PhysKeyCode)>)
        ensures
            final(self)@ == pairs_entered(old(self)@, pairs@),
    {
        let n = pairs.len();
        let mut i: usize = 0;
        while i < n
            invariant
                n == pairs@.len(),
                i <= n,
                self@ == pairs_entered(old(self)@, pairs@.take(i as int)),
            decreases n - i,
        {
            assert(pairs@.take(i + 1).drop_last() =~= pairs@.take(i as int));
            let (c, p) = pairs[i];
            self.add_phys(p, c);
            i = i + 1;
        }
        assert(pairs@.take(n as int) =~= pairs@);
    }
}

/// The physical key table of Windows: scan codes, with the extended-key
/// prefix `0xE0` in the high byte, and the keys at them.
pub fn build_phys_keycode_map() -> (r: Layout)
    ensures
        r@ == pairs_entered(Layout::new_view(), win_scan_table()),
{
    let mut l = Layout::new();
    let pairs = win_scan_pairs();
    l.add_phys_pairs(&pairs);
    l
}

impl Layout {
    /// The contents of an empty layout.
    pub open spec fn new_view() -> LayoutView {
        LayoutView {
            phys_code: Map::empty(),
            code_phys: Map::empty(),
            keysym_code: Map::empty(),
            keysym_event: Map::empty(),
            char_keysym: Map::empty(),
            unused: Seq::empty(),
        }
    }
}

/// What the platform reports for one key code of the active layout.
pub struct KeyInfo {
    /// The native key code.
    pub keycode: u32,
    /// The keysym at the base level, 0 when the key types nothing.
    pub base_sym: u32,
    /// The character of the base keysym as a scalar value, 0 when none.
    pub base_char: u32,
    /// The first keysym at each shift level, 0 when none.
    pub levels: Vec<u32>,
}

/// The layout `v` with one key entered: its base keysym, then its levels.
pub open spec fn key_entered(v: LayoutView, k: KeyInfo) -> LayoutView {
    let w = if k.base_sym == 0 {
        LayoutView { unused: v.unused.push(k.keycode), ..v }
    } else if k.base_char == 0 {
        LayoutView { keysym_code: v.keysym_code.insert(k.base_sym, k.keycode), ..v }
    } else {
        LayoutView {
            keysym_code: v.keysym_code.insert(k.base_sym, k.keycode),
            char_keysym: v.char_keysym.insert(k.base_char, k.base_sym),
            ..v
        }
    };
    LayoutView { keysym_event: levels_entered(w.keysym_event, k.keycode, k.levels@, k.levels@.len()), ..w }
}

/// The layout `v` with the keys entered in order.
pub open spec fn keys_entered(v: LayoutView, keys: Seq<KeyInfo>) -> LayoutView
    decreases keys.len(),
{
    if keys.len() == 0 {
        v
    } else {
        key_entered(keys_entered(v, keys.drop_last()), keys.last())
    }
}

impl Layout {
    /// Enter the keys of the active layout in order.
    pub fn add_keys(&mut self, keys: &Vec<KeyInfo>)
        ensures
            final(self)@ == keys_entered(old(self)@, keys@),
    {
        let n = keys.len();
        let mut i: usize = 0;
        while i < n
            invariant
                n == keys@.len(),
                i <= n,
                self@ == keys_entered(old(self)@, keys@.take(i as int)),
            decreases n - i,
        {
            assert(keys@.take(i + 1).drop_last() =~= keys@.take(i as int));
            let k = &keys[i];
            self.add_key(k.keycode, k.base_sym, k.base_char);
            self.add_levels(k.keycode, &k.levels);
            i = i + 1;
        }
        assert(keys@.take(n as int) =~= keys@);
    }
}

/// The group that is active: the last of those reported active, or the
/// first group when none is.
pub open spec fn spec_active_group(active: Seq<bool>) -> int
    decreases active.len(),
{
    if active.len() == 0 {
        0
    } else if active.last() {
        active.len() - 1
    } else {
        spec_active_group(active.drop_last())
    }
}

/// The group of the active layout, given which layouts report active.
pub fn get_active_group_index(active: &Vec<bool>) -> (r: GroupIndex)
    ensures
        spec_group_number(r) == if spec_active_group(active@) <= 3 {
            spec_active_group(active@)
        } else {
            3
        },
{
    let n = active.len();
    let mut group_id: usize = 0;
    let mut idx: usize = 0;
    while idx < n
        invariant
            n == active@.len(),
            idx <= n,
            group_id == spec_active_group(active@.take(idx as int)),
        decreases n - idx,
    {
        assert(active@.take(idx + 1).drop_last() =~= active@.take(idx as int));
        if active[idx] {
            group_id = idx;
        }
        idx = idx + 1;
    }
    assert(active@.take(n as int) =~= active@);
    if group_id <= 3 {
        GroupIndex::from(group_id as u32)
    } else {
        GroupIndex::N4
    }
}

/// A notification about the keyboard.
#[derive(Clone, Copy, Debug, PartialEq, Eq, Structural)]
pub enum LayoutEvent {
    /// The modifier or group state changed; the group is now this one.
    StateNotify(GroupIndex),
    /// The key mapping changed.
    MapNotify,
    /// Another keyboard was attached.
    NewKeyboardNotify,
}

/// What a keyboard notification asks of the layout tables.
#[derive(Clone, Copy, Debug, PartialEq, Eq, Structural)]
pub enum LayoutAction {
    /// Only the modifier state changed.
    UpdateState,
    /// The active group changed: rebuild the tables from the current keymap,
    /// then update the state.
    RebuildTables,
    /// Fetch the keymap anew and rebuild everything.
    ReloadKeymap,
}

/// The action for a keyboard notification when `current` is the active group.
pub fn layout_action(current: GroupIndex, event: LayoutEvent) -> (r: LayoutAction)
    ensures
        r == match event {
            LayoutEvent::StateNotify(g) => if g == current {
                LayoutAction::UpdateState
            } else {
                LayoutAction::RebuildTables
            },
            _ => LayoutAction::ReloadKeymap,
        },
{
    match event {
        LayoutEvent::StateNotify(g) => {
            if g == current {
                LayoutAction::UpdateState
            } else {
                LayoutAction::RebuildTables
            }
        },
        _ => LayoutAction::ReloadKeymap,
    }
}

/// The key of a keysym of group `group` in the per-group table.
pub open spec fn group_key(group: u32, keysym: u32) -> u64 {
    ((group as u64) * 0x1_0000_0000 + keysym as u64) as u64
}

/// The per-group table with one key entered: a key with one group gives its
/// keysym in every group, a key with several gives each its own, and a key
/// with none gives nothing.
pub open spec fn group_key_entered(m: Map<u64, u32>, groups: u32, keycode: u32, syms: Seq<u32>, n: nat) -> Map<
    u64,
    u32,
>
    decreases n,
{
    if n == 0 {
        m
    } else {
        let g = (n - 1) as u32;
        let prev = group_key_entered(m, groups, keycode, syms, (n - 1) as nat);
        if syms.len() == 1 && g < groups {
            prev.insert(group_key(g, syms[0]), keycode)
        } else if syms.len() > 1 && g < groups && (g as int) < syms.len() {
            prev.insert(group_key(g, syms[g as int]), keycode)
        } else {
            prev
        }
    }
}

/// The per-group table with the keys `(keycode, keysym of each group)`
/// entered in order.
pub open spec fn group_keys_entered(groups: u32, keys: Seq<(u32, Vec<u32>)>) -> Map<u64, u32>
    decreases keys.len(),
{
    if keys.len() == 0 {
        Map::empty()
    } else {
        let prev = group_keys_entered(groups, keys.drop_last());
        let (keycode, syms) = keys.last();
        group_key_entered(prev, groups, keycode, syms@, groups as nat)
    }
}

/// For each loaded group, which key code types each keysym at the base level.
pub struct GroupKeysyms {
    map: HashMap<u64, u32>,
    groups: u32,
}

impl GroupKeysyms {
    /// The table: group and keysym to key code.
    pub closed spec fn table(&self) -> Map<u64, u32> {
        self.map@
    }

    /// The number of groups.
    pub closed spec fn group_count(&self) -> u32 {
        self.groups
    }

    /// Build the table for `groups` groups from, for each key code, the
    /// base-level keysym of each of its groups.
    pub fn create_keysym_map(groups: u32, keys: &Vec<(u32, Vec<u32>)>) -> (r: GroupKeysyms)
        ensures
            r.group_count() == groups,
            r.table() == group_keys_entered(groups, keys@),
    {
        let mut map: HashMap<u64, u32> = HashMap::new();
        let n = keys.len();
        let mut i: usize = 0;
        while i < n
            invariant
                n == keys@.len(),
                i <= n,
                map@ == group_keys_entered(groups, keys@.take(i as int)),
            decreases n - i,
        {
            assert(keys@.take(i + 1).drop_last() =~= keys@.take(i as int));
            let keycode = keys[i].0;
            let syms = &keys[i].1;
            let ghost before = map@;
            let mut g: u32 = 0;
            while g < groups
                invariant
                    g <= groups,
                    map@ == group_key_entered(before, groups, keycode, syms@, g as nat),
                decreases groups - g,
            {
                if syms.len() == 1 {
                    map.insert(g as u64 * 0x1_0000_0000 + syms[0] as u64, keycode);
                } else if syms.len() > 1 && (g as usize) < syms.len() {
                    map.insert(g as u64 * 0x1_0000_0000 + syms[g as usize] as u64, keycode);
                }
                g = g + 1;
            }
            i = i + 1;
        }
        assert(keys@.take(n as int) =~= keys@);
        GroupKeysyms { map, groups }
    }

    /// The key code that types the keysym in the group, if any.
    pub fn get_keycode(&self, group: GroupIndex, keysym: u32) -> (r: Option<u32>)
        ensures
            r == if self.table().contains_key(group_key(spec_group_number(group), keysym)) {
                Some(self.table()[group_key(spec_group_number(group), keysym)])
            } else {
                None
            },
    {
        let g = group.index();
        match self.map.get(&(g as u64 * 0x1_0000_0000 + keysym as u64)) {
            Some(c) => Some(*c),
            None => None,
        }
    }
}

} // verus!
