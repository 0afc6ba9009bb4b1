//! The catalog of line patterns: what each kind of log line says, as a
//! function of its characters.

use vstd::prelude::*;

use crate::rundown::{rundown_or_modded, Rundown};
use crate::clock::{civil_time_of, clock_view, parse_time, ClockTime};
use crate::zone::{decimal, lemma_decimal};

use crate::text::{
    lemma_find_absent, lemma_find_first, lemma_number_at_decimal,
    chars_of, contains, string_of, contains_from, ends_with, find, find_from, matches_at,
    digit_end, digits_value, is_digit, is_word, number_after, number_following, occurs_at, range_view,
    scan_digits, scan_number, scan_word, word_end,
    scan_number_after, scan_number_following, scan_word_at, word_at,
};

verus! {

pub open spec fn ranges_view(r: Option<(usize, usize, usize, usize)>) -> Option<(int, int, int, int)> {
    match r {
        Some((a, b, c, d)) => Some((a as int, b as int, c as int, d as int)),
        None => None,
    }
}

/// The time of day that stamps a line: what precedes the first ` - `.
pub open spec fn line_time_of(l: Seq<char>) -> Option<(i8, i8, i8, i32)> {
    match find_from(l, " - "@, 0) {
        Some(p) => civil_time_of(l.subrange(0, p)),
        None => None,
    }
}

/// Seeds announced by the level builder: build, host and session.
pub open spec fn seeds_of(l: Seq<char>) -> Option<(u32, u32, u32)> {
    match find_from(l, "Builder.Build"@, 0) {
        None => None,
        Some(b) => match number_following(
            l,
            "buildSeed: "@,
            b + "Builder.Build"@.len(),
            u32::MAX as nat,
        ) {
            None => None,
            Some((bs, e1)) => match number_after(l, " hostIDSeed: "@, e1, u32::MAX as nat) {
                None => None,
                Some((hs, e2)) => match number_after(l, " sessionSeed: "@, e2, u32::MAX as nat) {
                    None => None,
                    Some((ss, _)) => Some((bs as u32, hs as u32, ss as u32)),
                },
            },
        },
    }
}

/// The selected expedition: rundown code, tier letter and zero-based index,
/// from `SelectActiveExpedition ... Local_<code>_Tier<letter>_<index>`. The
/// code is any run of digits, however large.
pub open spec fn expedition_of(l: Seq<char>) -> Option<(nat, char, u32)> {
    match find_from(l, "SelectActiveExpedition"@, 0) {
        None => None,
        Some(s) => match find_from(l, "Local_"@, s) {
            None => None,
            Some(p) => {
                let c = p + "Local_"@.len();
                let e1 = digit_end(l, c);
                let t = e1 + "_Tier"@.len();
                if c < e1 && occurs_at(l, "_Tier"@, e1) && t < l.len() && is_word(l[t]) {
                    match number_after(l, "_"@, t + 1, (u32::MAX - 1) as nat) {
                        None => None,
                        Some((raw, _)) => Some((digits_value(l.subrange(c, e1)), l[t], raw as u32)),
                    }
                } else {
                    None
                }
            },
        },
    }
}

/// The alias and local index on the first line of a zone stanza.
pub open spec fn zone_head_of(l: Seq<char>) -> Option<(u32, u32)> {
    match number_following(l, "Alias: "@, 0, u32::MAX as nat) {
        None => None,
        Some((alias, e1)) => match find_from(l, "aliasOffset: "@, e1) {
            None => None,
            Some(p) => match number_following(
                l,
                "_"@,
                p + "aliasOffset: "@.len(),
                u32::MAX as nat,
            ) {
                None => None,
                Some((local, _)) => Some((alias as u32, local as u32)),
            },
        },
    }
}

/// Where the dimension and layer names stand on the second line of a zone
/// stanza: `Zone Created ... in <dimension> <layer>`.
pub open spec fn zone_tail_of(l: Seq<char>) -> Option<(int, int, int, int)> {
    match find_from(l, "Zone Created"@, 0) {
        None => None,
        Some(z) => match find_from(l, " in "@, z + "Zone Created"@.len()) {
            None => None,
            Some(p) => match word_at(l, p + " in "@.len()) {
                None => None,
                Some((ds, de)) => if occurs_at(l, " "@, de) {
                    match word_at(l, de + " "@.len()) {
                        None => None,
                        Some((ls, le)) => Some((ds, de, ls, le)),
                    }
                } else {
                    None
                },
            },
        },
    }
}

/// Where the key's public name and dimension stand on the line that opens
/// a key distribution.
pub open spec fn key_head_of(l: Seq<char>) -> Option<(int, int, int, int)> {
    match find_from(l, "PublicName: "@, 0) {
        None => None,
        Some(p) => match word_at(l, p + "PublicName: "@.len()) {
            None => None,
            Some((ns, ne)) => match find_from(l, "DimensionIndex: "@, ne) {
                None => None,
                Some(d) => match word_at(l, d + "DimensionIndex: "@.len()) {
                    None => None,
                    Some((ds, de)) => if occurs_at(l, " LocalIndex: "@, de) {
                        Some((ns, ne, ds, de))
                    } else {
                        None
                    },
                },
            },
        },
    }
}

/// The zone alias and correlation id on the line that closes a key
/// distribution.
pub open spec fn key_tail_of(l: Seq<char>) -> Option<(u32, u32)> {
    match find_from(l, "TryGetExistingGenericFunctionDistributionForSession"@, 0) {
        None => None,
        Some(t) => match number_following(
            l,
            "ZONE"@,
            t + "TryGetExistingGenericFunctionDistributionForSession"@.len(),
            u32::MAX as nat,
        ) {
            None => None,
            Some((alias, e)) => match number_following(l, "ri: "@, e, u32::MAX as nat) {
                None => None,
                Some((ri, _)) => Some((alias as u32, ri as u32)),
            },
        },
    }
}

/// The line on which the objective distributor selects a zone and index;
/// the next line announces the item code.
pub open spec fn is_objective_head(l: Seq<char>) -> bool {
    match number_following(l, "zone ZONE"@, 0, u32::MAX as nat) {
        None => false,
        Some((_, e)) => number_following(l, "Index: "@, e, u32::MAX as nat) is Some,
    }
}

/// The item code announced after a zone selection.
pub open spec fn objective_code_of(l: Seq<char>) -> Option<u8> {
    match number_following(l, "itemID: "@, 0, u8::MAX as nat) {
        None => None,
        Some((c, _)) => Some(c as u8),
    }
}

/// The area id of an HSU placed for a warden objective.
pub open spec fn hsu_of(l: Seq<char>) -> Option<u32> {
    if contains_from(l, "HydroStatisUnit for wardenObjectiveType"@, 0) {
        match number_following(l, "zone: "@, 0, u32::MAX as nat) {
            None => None,
            Some((_, e)) => match number_after(l, ", Area: "@, e, u32::MAX as nat) {
                None => None,
                Some((id, e2)) => if occurs_at(l, "_"@, e2) {
                    Some(id as u32)
                } else {
                    None
                },
            },
        }
    } else {
        None
    }
}

/// Where the container name stands on the line that spawns a small pickup.
pub open spec fn pickup_head_of(l: Seq<char>) -> Option<(int, int)> {
    match find_from(l, "Spawning Personnel"@, 0) {
        None => None,
        Some(p) => match find_from(l, "Key: "@, p + "Spawning Personnel"@.len()) {
            None => None,
            Some(k) => word_at(l, k + "Key: "@.len()),
        },
    }
}

/// The seed on the line after a small pickup is spawned.
pub open spec fn pickup_seed_of(l: Seq<char>) -> Option<u32> {
    match number_following(l, "seed: "@, 0, u32::MAX as nat) {
        None => None,
        Some((s, _)) => Some(s as u32),
    }
}

/// Whitespace as the log separates words: ASCII space, tab, vertical tab,
/// form feed, carriage return and newline.
pub open spec fn is_space(c: char) -> bool {
    c == ' ' || c == '\t' || c == '\x0B' || c == '\x0C' || c == '\r' || c == '\n'
}

/// Whitespace at `w` is followed by a word that ends right before a `<`;
/// where that word stands.
pub open spec fn state_word_at(l: Seq<char>, w: int) -> Option<(int, int)> {
    let e = word_end(l, w + 1);
    if 0 <= w < l.len() && is_space(l[w]) && w + 1 < e && e < l.len() && l[e] == '<' {
        Some((w + 1, e))
    } else {
        None
    }
}

/// The last word at or before position `w`, and after `lo`, that follows
/// whitespace and ends right before a `<`.
pub open spec fn last_state_word(l: Seq<char>, lo: int, w: int) -> Option<(int, int)>
    decreases w + 1 - lo,
{
    if w < lo {
        None
    } else if state_word_at(l, w) is Some {
        state_word_at(l, w)
    } else {
        last_state_word(l, lo, w - 1)
    }
}

/// The state that the game state manager moves to: the last word after its
/// marker that follows whitespace and is closed by a `<`.
pub open spec fn new_state_of(l: Seq<char>) -> Option<Seq<char>> {
    match find_from(l, "GAMESTATEMANAGER"@, 0) {
        None => None,
        Some(g) => match last_state_word(l, g + "GAMESTATEMANAGER"@.len(), l.len() - 1) {
            Some((a, b)) => Some(l.subrange(a, b)),
            None => None,
        },
    }
}

/// A state outside of a level.
pub open spec fn is_reset_state(s: Seq<char>) -> bool {
    s == "ExpeditionAbort"@ || s == "AfterLevel"@ || s == "Lobby"@ || s == "NoLobby"@
}

/// A line that ends the level: the application quits, or the game state
/// manager moves to a state outside of a level.
pub open spec fn is_reset(l: Seq<char>) -> bool {
    ends_with(l, "OnApplicationQuit"@) || match new_state_of(l) {
        Some(s) => is_reset_state(s),
        None => false,
    }
}

/// Where the word at `a..b` is exactly `lit`.
fn word_is(l: &[char], a: usize, b: usize, lit: &[char]) -> (r: bool)
    requires
        a <= b <= l@.len(),
    ensures
        r == (l@.subrange(a as int, b as int) == lit@),
{
    if b - a != lit.len() {
        assert(l@.subrange(a as int, b as int).len() != lit@.len());
        return false;
    }
    let r = matches_at(l, lit, a);
    assert(r ==> l@.subrange(a as int, b as int) =~= lit@);
    r
}

/// Finds the last word after `lo` that follows whitespace and ends right
/// before a `<`.
fn scan_last_state_word(l: &[char], lo: usize) -> (r: Option<(usize, usize)>)
    ensures
        range_view(r) == last_state_word(l@, lo as int, l@.len() - 1),
        r matches Some((a, b)) ==> a <= b <= l@.len(),
{
    let n = l.len();
    let mut w = n;
    while w > lo
        invariant
            w <= n,
            n == l@.len(),
            last_state_word(l@, lo as int, n - 1) == last_state_word(l@, lo as int, w - 1),
        decreases w,
    {
        w = w - 1;
        let c = l[w];
        if c == ' ' || c == '\t' || c == '\x0B' || c == '\x0C' || c == '\r' || c == '\n' {
            let e = scan_word(l, w + 1);
            if w + 1 < e && e < n && l[e] == '<' {
                return Some((w + 1, e));
            }
        }
    }
    None
}

pub open spec fn is_setup_start(l: Seq<char>) -> bool {
    contains_from(l, "Next Batch: SetupFloor"@, 0)
}

pub open spec fn is_setup_end(l: Seq<char>) -> bool {
    contains_from(l, "Last Batch: SetupFloor"@, 0)
}

pub open spec fn is_distribution_start(l: Seq<char>) -> bool {
    contains_from(l, "Next Batch: Distribution"@, 0)
}

pub open spec fn is_distribution_end(l: Seq<char>) -> bool {
    contains_from(l, "Last Batch: Distribution"@, 0)
}

pub open spec fn is_markers_start(l: Seq<char>) -> bool {
    contains_from(l, "Next Batch: FunctionMarkers"@, 0)
}

pub open spec fn is_markers_end(l: Seq<char>) -> bool {
    contains_from(l, "Last Batch: FunctionMarkers"@, 0)
}

pub open spec fn is_zone_head(l: Seq<char>) -> bool {
    contains_from(l, "LG_Floor.CreateZone"@, 0)
}

pub open spec fn is_key_head(l: Seq<char>) -> bool {
    contains_from(l, "CreateKeyItemDistribution"@, 0)
}

pub open spec fn is_key_tail(l: Seq<char>) -> bool {
    contains_from(l, "TryGetExistingGenericFunctionDistributionForSession"@, 0)
}

pub open spec fn is_pickup_head(l: Seq<char>) -> bool {
    contains_from(l, "Spawning Personnel"@, 0)
}

/// The pattern texts, built once and shared read-only.
pub struct Catalog {
    stamp: Vec<char>,
    builder: Vec<char>,
    build_seed: Vec<char>,
    host_seed: Vec<char>,
    session_seed: Vec<char>,
    select_expedition: Vec<char>,
    local: Vec<char>,
    tier: Vec<char>,
    underscore: Vec<char>,
    space: Vec<char>,
    setup_start: Vec<char>,
    setup_end: Vec<char>,
    distribution_start: Vec<char>,
    distribution_end: Vec<char>,
    markers_start: Vec<char>,
    markers_end: Vec<char>,
    create_zone: Vec<char>,
    alias: Vec<char>,
    alias_offset: Vec<char>,
    zone_created: Vec<char>,
    within: Vec<char>,
    create_key: Vec<char>,
    public_name: Vec<char>,
    dimension_index: Vec<char>,
    local_index: Vec<char>,
    try_get: Vec<char>,
    zone_word: Vec<char>,
    ri: Vec<char>,
    select_zone: Vec<char>,
    index: Vec<char>,
    item_id: Vec<char>,
    hsu: Vec<char>,
    hsu_zone: Vec<char>,
    area: Vec<char>,
    pickup: Vec<char>,
    key: Vec<char>,
    seed: Vec<char>,
    quit: Vec<char>,
    game_state: Vec<char>,
    abort: Vec<char>,
    after_level: Vec<char>,
    lobby: Vec<char>,
    no_lobby: Vec<char>,
}

impl Catalog {
    pub closed spec fn wf(&self) -> bool {
        &&& self.stamp@ == " - "@
        &&& self.builder@ == "Builder.Build"@
        &&& self.build_seed@ == "buildSeed: "@
        &&& self.host_seed@ == " hostIDSeed: "@
        &&& self.session_seed@ == " sessionSeed: "@
        &&& self.select_expedition@ == "SelectActiveExpedition"@
        &&& self.local@ == "Local_"@
        &&& self.tier@ == "_Tier"@
        &&& self.underscore@ == "_"@
        &&& self.space@ == " "@
        &&& self.setup_start@ == "Next Batch: SetupFloor"@
        &&& self.setup_end@ == "Last Batch: SetupFloor"@
        &&& self.distribution_start@ == "Next Batch: Distribution"@
        &&& self.distribution_end@ == "Last Batch: Distribution"@
        &&& self.markers_start@ == "Next Batch: FunctionMarkers"@
        &&& self.markers_end@ == "Last Batch: FunctionMarkers"@
        &&& self.create_zone@ == "LG_Floor.CreateZone"@
        &&& self.alias@ == "Alias: "@
        &&& self.alias_offset@ == "aliasOffset: "@
        &&& self.zone_created@ == "Zone Created"@
        &&& self.within@ == " in "@
        &&& self.create_key@ == "CreateKeyItemDistribution"@
        &&& self.public_name@ == "PublicName: "@
        &&& self.dimension_index@ == "DimensionIndex: "@
        &&& self.local_index@ == " LocalIndex: "@
        &&& self.try_get@ == "TryGetExistingGenericFunctionDistributionForSession"@
        &&& self.zone_word@ == "ZONE"@
        &&& self.ri@ == "ri: "@
        &&& self.select_zone@ == "zone ZONE"@
        &&& self.index@ == "Index: "@
        &&& self.item_id@ == "itemID: "@
        &&& self.hsu@ == "HydroStatisUnit for wardenObjectiveType"@
        &&& self.hsu_zone@ == "zone: "@
        &&& self.area@ == ", Area: "@
        &&& self.pickup@ == "Spawning Personnel"@
        &&& self.key@ == "Key: "@
        &&& self.seed@ == "seed: "@
        &&& self.quit@ == "OnApplicationQuit"@
        &&& self.game_state@ == "GAMESTATEMANAGER"@
        &&& self.abort@ == "ExpeditionAbort"@
        &&& self.after_level@ == "AfterLevel"@
        &&& self.lobby@ == "Lobby"@
        &&& self.no_lobby@ == "NoLobby"@
    }

    pub fn new() -> (r: Catalog)
        ensures
            r.wf(),
    {
        Catalog {
            stamp: chars_of(" - "),
            builder: chars_of("Builder.Build"),
            build_seed: chars_of("buildSeed: "),
            host_seed: chars_of(" hostIDSeed: "),
            session_seed: chars_of(" sessionSeed: "),
            select_expedition: chars_of("SelectActiveExpedition"),
            local: chars_of("Local_"),
            tier: chars_of("_Tier"),
            underscore: chars_of("_"),
            space: chars_of(" "),
            setup_start: chars_of("Next Batch: SetupFloor"),
            setup_end: chars_of("Last Batch: SetupFloor"),
            distribution_start: chars_of("Next Batch: Distribution"),
            distribution_end: chars_of("Last Batch: Distribution"),
            markers_start: chars_of("Next Batch: FunctionMarkers"),
            markers_end: chars_of("Last Batch: FunctionMarkers"),
            create_zone: chars_of("LG_Floor.CreateZone"),
            alias: chars_of("Alias: "),
            alias_offset: chars_of("aliasOffset: "),
            zone_created: chars_of("Zone Created"),
            within: chars_of(" in "),
            create_key: chars_of("CreateKeyItemDistribution"),
            public_name: chars_of("PublicName: "),
            dimension_index: chars_of("DimensionIndex: "),
            local_index: chars_of(" LocalIndex: "),
            try_get: chars_of("TryGetExistingGenericFunctionDistributionForSession"),
            zone_word: chars_of("ZONE"),
            ri: chars_of("ri: "),
            select_zone: chars_of("zone ZONE"),
            index: chars_of("Index: "),
            item_id: chars_of("itemID: "),
            hsu: chars_of("HydroStatisUnit for wardenObjectiveType"),
            hsu_zone: chars_of("zone: "),
            area: chars_of(", Area: "),
            pickup: chars_of("Spawning Personnel"),
            key: chars_of("Key: "),
            seed: chars_of("seed: "),
            quit: chars_of("OnApplicationQuit"),
            game_state: chars_of("GAMESTATEMANAGER"),
            abort: chars_of("ExpeditionAbort"),
            after_level: chars_of("AfterLevel"),
            lobby: chars_of("Lobby"),
            no_lobby: chars_of("NoLobby"),
        }
    }

    pub fn line_time(&self, l: &[char]) -> (r: Option<ClockTime>)
        requires
            self.wf(),
        ensures
            clock_view(r) == line_time_of(l@),
    {
        match find(l, self.stamp.as_slice(), 0) {
            Some(p) => {
                let text = string_of(vstd::slice::slice_subrange(l, 0, p));
                parse_time(text.as_str())
            },
            None => None,
        }
    }

    pub fn seeds(&self, l: &[char]) -> (r: Option<(u32, u32, u32)>)
        requires
            self.wf(),
        ensures
            r == seeds_of(l@),
    {
        let b = find(l, self.builder.as_slice(), 0);
        let b = match b {
            Some(b) => b,
            None => return None,
        };
        let after = b + self.builder.len();
        let (bs, e1) = match scan_number_following(
            l,
            self.build_seed.as_slice(),
            after,
            0xffff_ffff,
        ) {
            Some(x) => x,
            None => return None,
        };
        let (hs, e2) = match scan_number_after(l, self.host_seed.as_slice(), e1, 0xffff_ffff) {
            Some(x) => x,
            None => return None,
        };
        let (ss, _) = match scan_number_after(l, self.session_seed.as_slice(), e2, 0xffff_ffff) {
            Some(x) => x,
            None => return None,
        };
        Some((bs as u32, hs as u32, ss as u32))
    }

    /// The selected expedition, with its code read as a rundown (`Modded`
    /// for a code the build does not know, however large).
    pub fn expedition(&self, l: &[char]) -> (r: Option<(Rundown, char, u32)>)
        requires
            self.wf(),
        ensures
            match expedition_of(l@) {
                Some((code, tier, raw)) => r == Some((rundown_or_modded(code), tier, raw)),
                None => r is None,
            },
    {
        let n = l.len();
        let s = match find(l, self.select_expedition.as_slice(), 0) {
            Some(s) => s,
            None => return None,
        };
        let p = match find(l, self.local.as_slice(), s) {
            Some(p) => p,
            None => return None,
        };
        let c = p + self.local.len();
        let e1 = scan_digits(l, c);
        if e1 == c {
            return None;
        }
        if !matches_at(l, self.tier.as_slice(), e1) {
            return None;
        }
        let t = e1 + self.tier.len();
        if t >= n {
            return None;
        }
        let ch = l[t];
        if !(('a' <= ch && ch <= 'z') || ('A' <= ch && ch <= 'Z') || ('0' <= ch && ch <= '9')
            || ch == '_') {
            return None;
        }
        let (raw, _) = match scan_number_after(l, self.underscore.as_slice(), t + 1, 0xffff_fffe) {
            Some(x) => x,
            None => return None,
        };
        let rundown = match scan_number(l, c, 0xffff) {
            Some((code, _)) => Rundown::from_code(code as u16),
            None => Rundown::Modded,
        };
        Some((rundown, ch, raw as u32))
    }

    pub fn zone_head(&self, l: &[char]) -> (r: Option<(u32, u32)>)
        requires
            self.wf(),
        ensures
            r == zone_head_of(l@),
    {
        let (alias, e1) = match scan_number_following(l, self.alias.as_slice(), 0, 0xffff_ffff) {
            Some(x) => x,
            None => return None,
        };
        let p = match find(l, self.alias_offset.as_slice(), e1) {
            Some(p) => p,
            None => return None,
        };
        let start = p + self.alias_offset.len();
        let (local, _) = match scan_number_following(
            l,
            self.underscore.as_slice(),
            start,
            0xffff_ffff,
        ) {
            Some(x) => x,
            None => return None,
        };
        Some((alias as u32, local as u32))
    }

    pub fn zone_tail(&self, l: &[char]) -> (r: Option<(usize, usize, usize, usize)>)
        requires
            self.wf(),
        ensures
            ranges_view(r) == zone_tail_of(l@),
            r matches Some((ds, de, ls, le)) ==> ds <= de <= l@.len() && ls <= le <= l@.len(),
    {
        let z = match find(l, self.zone_created.as_slice(), 0) {
            Some(z) => z,
            None => return None,
        };
        let p = match find(l, self.within.as_slice(), z + self.zone_created.len()) {
            Some(p) => p,
            None => return None,
        };
        let (ds, de) = match scan_word_at(l, p + self.within.len()) {
            Some(x) => x,
            None => return None,
        };
        if !matches_at(l, self.space.as_slice(), de) {
            return None;
        }
        let (ls, le) = match scan_word_at(l, de + self.space.len()) {
            Some(x) => x,
            None => return None,
        };
        Some((ds, de, ls, le))
    }

    pub fn key_head(&self, l: &[char]) -> (r: Option<(usize, usize, usize, usize)>)
        requires
            self.wf(),
        ensures
            ranges_view(r) == key_head_of(l@),
            r matches Some((ns, ne, ds, de)) ==> ns <= ne <= l@.len() && ds <= de <= l@.len(),
    {
        let p = match find(l, self.public_name.as_slice(), 0) {
            Some(p) => p,
            None => return None,
        };
        let (ns, ne) = match scan_word_at(l, p + self.public_name.len()) {
            Some(x) => x,
            None => return None,
        };
        let d = match find(l, self.dimension_index.as_slice(), ne) {
            Some(d) => d,
            None => return None,
        };
        let (ds, de) = match scan_word_at(l, d + self.dimension_index.len()) {
            Some(x) => x,
            None => return None,
        };
        if !matches_at(l, self.local_index.as_slice(), de) {
            return None;
        }
        Some((ns, ne, ds, de))
    }

    pub fn key_tail(&self, l: &[char]) -> (r: Option<(u32, u32)>)
        requires
            self.wf(),
        ensures
            r == key_tail_of(l@),
    {
        let t = match find(l, self.try_get.as_slice(), 0) {
            Some(t) => t,
            None => return None,
        };
        let (alias, e) = match scan_number_following(
            l,
            self.zone_word.as_slice(),
            t + self.try_get.len(),
            0xffff_ffff,
        ) {
            Some(x) => x,
            None => return None,
        };
        let (ri, _) = match scan_number_following(l, self.ri.as_slice(), e, 0xffff_ffff) {
            Some(x) => x,
            None => return None,
        };
        Some((alias as u32, ri as u32))
    }

    pub fn objective_head(&self, l: &[char]) -> (r: bool)
        requires
            self.wf(),
        ensures
            r == is_objective_head(l@),
    {
        match scan_number_following(l, self.select_zone.as_slice(), 0, 0xffff_ffff) {
            None => false,
            Some((_, e)) => scan_number_following(l, self.index.as_slice(), e, 0xffff_ffff).is_some(),
        }
    }

    pub fn objective_code(&self, l: &[char]) -> (r: Option<u8>)
        requires
            self.wf(),
        ensures
            r == objective_code_of(l@),
    {
        match scan_number_following(l, self.item_id.as_slice(), 0, 0xff) {
            None => None,
            Some((c, _)) => Some(c as u8),
        }
    }

    pub fn hsu(&self, l: &[char]) -> (r: Option<u32>)
        requires
            self.wf(),
        ensures
            r == hsu_of(l@),
    {
        if !contains(l, self.hsu.as_slice()) {
            return None;
        }
        let (_, e) = match scan_number_following(l, self.hsu_zone.as_slice(), 0, 0xffff_ffff) {
            Some(x) => x,
            None => return None,
        };
        let (id, e2) = match scan_number_after(l, self.area.as_slice(), e, 0xffff_ffff) {
            Some(x) => x,
            None => return None,
        };
        if matches_at(l, self.underscore.as_slice(), e2) {
            Some(id as u32)
        } else {
            None
        }
    }

    pub fn pickup_head(&self, l: &[char]) -> (r: Option<(usize, usize)>)
        requires
            self.wf(),
        ensures
            range_view(r) == pickup_head_of(l@),
            r matches Some((a, b)) ==> a <= b <= l@.len(),
    {
        let p = match find(l, self.pickup.as_slice(), 0) {
            Some(p) => p,
            None => return None,
        };
        let k = match find(l, self.key.as_slice(), p + self.pickup.len()) {
            Some(k) => k,
            None => return None,
        };
        scan_word_at(l, k + self.key.len())
    }

    pub fn pickup_seed(&self, l: &[char]) -> (r: Option<u32>)
        requires
            self.wf(),
        ensures
            r == pickup_seed_of(l@),
    {
        match scan_number_following(l, self.seed.as_slice(), 0, 0xffff_ffff) {
            None => None,
            Some((s, _)) => Some(s as u32),
        }
    }

    pub fn reset(&self, l: &[char]) -> (r: bool)
        requires
            self.wf(),
        ensures
            r == is_reset(l@),
    {
        let n = l.len();
        let q = self.quit.len();
        if n >= q && matches_at(l, self.quit.as_slice(), n - q) {
            return true;
        }
        let g = match find(l, self.game_state.as_slice(), 0) {
            None => return false,
            Some(g) => g,
        };
        match scan_last_state_word(l, g + self.game_state.len()) {
            None => false,
            Some((a, b)) => word_is(l, a, b, self.abort.as_slice()) || word_is(
                l,
                a,
                b,
                self.after_level.as_slice(),
            ) || word_is(l, a, b, self.lobby.as_slice()) || word_is(
                l,
                a,
                b,
                self.no_lobby.as_slice(),
            ),
        }
    }

    pub fn setup_start(&self, l: &[char]) -> (r: bool)
        requires
            self.wf(),
        ensures
            r == is_setup_start(l@),
    {
        contains(l, self.setup_start.as_slice())
    }

    pub fn setup_end(&self, l: &[char]) -> (r: bool)
        requires
            self.wf(),
        ensures
            r == is_setup_end(l@),
    {
        contains(l, self.setup_end.as_slice())
    }

    pub fn distribution_start(&self, l: &[char]) -> (r: bool)
        requires
            self.wf(),
        ensures
            r == is_distribution_start(l@),
    {
        contains(l, self.distribution_start.as_slice())
    }

    pub fn distribution_end(&self, l: &[char]) -> (r: bool)
        requires
            self.wf(),
        ensures
            r == is_distribution_end(l@),
    {
        contains(l, self.distribution_end.as_slice())
    }

    pub fn markers_start(&self, l: &[char]) -> (r: bool)
        requires
            self.wf(),
        ensures
            r == is_markers_start(l@),
    {
        contains(l, self.markers_start.as_slice())
    }

    pub fn markers_end(&self, l: &[char]) -> (r: bool)
        requires
            self.wf(),
        ensures
            r == is_markers_end(l@),
    {
        contains(l, self.markers_end.as_slice())
    }

    pub fn zone_head_line(&self, l: &[char]) -> (r: bool)
        requires
            self.wf(),
        ensures
            r == is_zone_head(l@),
    {
        contains(l, self.create_zone.as_slice())
    }

    pub fn key_head_line(&self, l: &[char]) -> (r: bool)
        requires
            self.wf(),
        ensures
            r == is_key_head(l@),
    {
        contains(l, self.create_key.as_slice())
    }

    pub fn key_tail_line(&self, l: &[char]) -> (r: bool)
        requires
            self.wf(),
        ensures
            r == is_key_tail(l@),
    {
        contains(l, self.try_get.as_slice())
    }

    pub fn pickup_head_line(&self, l: &[char]) -> (r: bool)
        requires
            self.wf(),
        ensures
            r == is_pickup_head(l@),
    {
        contains(l, self.pickup.as_slice())
    }
}

/// The builder line that announces build seed `b`, host seed `h` and
/// session seed `s`: a prefix `pre` (a time stamp and the like), the builder
/// marker, any text `mid`, the three seeds, and any text `post`.
pub open spec fn seeds_line(pre: Seq<char>, mid: Seq<char>, b: u32, h: u32, s: u32, post: Seq<char>) -> Seq<char> {
    pre + "Builder.Build"@ + mid + "buildSeed: "@ + decimal(b as nat) + " hostIDSeed: "@ + decimal(
        h as nat,
    ) + " sessionSeed: "@ + decimal(s as nat) + post
}

/// A prefix that cannot start the builder marker, a game-state marker or a
/// new line.
pub open spec fn is_plain_prefix(pre: Seq<char>) -> bool {
    forall|j: int| 0 <= j < pre.len() ==> pre[j] != 'B' && pre[j] != 'G' && pre[j] != '\n'
}

/// Text between the builder marker and the build seed that cannot start
/// another `buildSeed: `, a game-state marker or a new line.
pub open spec fn is_plain_middle(mid: Seq<char>) -> bool {
    forall|j: int| 0 <= j < mid.len() ==> mid[j] != 'b' && mid[j] != 'G' && mid[j] != '\n'
}

/// Text after the session seed that does not continue its digits, holds no
/// game-state marker or new line, and does not end the line with the
/// application quitting.
pub open spec fn is_plain_suffix(post: Seq<char>) -> bool {
    &&& forall|j: int| 0 <= j < post.len() ==> post[j] != 'G' && post[j] != '\n'
    &&& post.len() > 0 ==> !is_digit(post[0])
    &&& !ends_with(post, "OnApplicationQuit"@)
}

pub proof fn lemma_seeds_line_chars(pre: Seq<char>, mid: Seq<char>, b: u32, h: u32, s: u32, post: Seq<char>)
    requires
        is_plain_prefix(pre),
        is_plain_middle(mid),
        is_plain_suffix(post),
    ensures
        forall|j: int|
            0 <= j < seeds_line(pre, mid, b, h, s, post).len() ==> #[trigger] seeds_line(
                pre,
                mid,
                b,
                h,
                s,
                post,
            )[j] != 'G' && seeds_line(pre, mid, b, h, s, post)[j] != '\n',
{
    reveal_strlit("Builder.Build");
    reveal_strlit("buildSeed: ");
    reveal_strlit(" hostIDSeed: ");
    reveal_strlit(" sessionSeed: ");
    lemma_decimal(b as nat);
    lemma_decimal(h as nat);
    lemma_decimal(s as nat);
}

/// Every builder line with seeds `b`, `h` and `s` reads as exactly those
/// seeds, and is no reset line.
pub proof fn lemma_seeds_line(pre: Seq<char>, mid: Seq<char>, b: u32, h: u32, s: u32, post: Seq<char>)
    requires
        is_plain_prefix(pre),
        is_plain_middle(mid),
        is_plain_suffix(post),
    ensures
        seeds_of(seeds_line(pre, mid, b, h, s, post)) == Some((b, h, s)),
        !is_reset(seeds_line(pre, mid, b, h, s, post)),
{
    let l = seeds_line(pre, mid, b, h, s, post);
    let k = pre.len() as int;
    let bb = "Builder.Build"@;
    let bs = "buildSeed: "@;
    let d1 = decimal(b as nat);
    let hs = " hostIDSeed: "@;
    let d2 = decimal(h as nat);
    let ss = " sessionSeed: "@;
    let d3 = decimal(s as nat);
    reveal_strlit("Builder.Build");
    reveal_strlit("buildSeed: ");
    reveal_strlit(" hostIDSeed: ");
    reveal_strlit(" sessionSeed: ");
    reveal_strlit("OnApplicationQuit");
    reveal_strlit("GAMESTATEMANAGER");
    lemma_decimal(b as nat);
    lemma_decimal(h as nat);
    lemma_decimal(s as nat);
    let max = u32::MAX as nat;

    assert(l.subrange(k, k + 13) =~= bb);
    assert forall|j: int| 0 <= j < k implies !occurs_at(l, bb, j) by {
        assert(l.subrange(j, j + 13)[0] == l[j]);
    }
    lemma_find_first(l, bb, 0, k);

    let m0 = k + 13;
    let m1 = m0 + mid.len();
    assert(l.subrange(m1, m1 + 11) =~= bs);
    assert forall|j: int| m0 <= j < m1 implies !occurs_at(l, bs, j) by {
        assert(l.subrange(j, j + 11)[0] == l[j]);
        assert(l[j] == mid[j - m0]);
    }
    lemma_find_first(l, bs, m0, m1);

    let a1 = pre + bb + mid + bs;
    assert(l =~= a1 + d1 + (hs + d2 + ss + d3 + post));
    lemma_number_at_decimal(a1, b as nat, hs + d2 + ss + d3 + post, max);
    let e1 = m1 + 11 + d1.len() as int;
    assert(number_following(l, bs, m0, max) == Some((b as nat, e1)));

    assert(l.subrange(e1, e1 + 13) =~= hs);
    let a2 = a1 + d1 + hs;
    assert(l =~= a2 + d2 + (ss + d3 + post));
    lemma_number_at_decimal(a2, h as nat, ss + d3 + post, max);
    let e2 = e1 + 13 + d2.len() as int;
    assert(number_after(l, hs, e1, max) == Some((h as nat, e2)));

    assert(l.subrange(e2, e2 + 14) =~= ss);
    let a3 = a2 + d2 + ss;
    assert(l =~= a3 + d3 + post);
    lemma_number_at_decimal(a3, s as nat, post, max);
    let e3 = e2 + 14 + d3.len() as int;
    assert(number_after(l, ss, e2, max) == Some((s as nat, e3)));

    let q = "OnApplicationQuit"@;
    if ends_with(l, q) {
        let st = l.len() - q.len();
        if post.len() >= q.len() {
            assert(post.subrange(post.len() - q.len(), post.len() as int) =~= l.subrange(
                st,
                l.len() as int,
            ));
        } else {
            let i = e3 - 1 - st;
            assert(l.subrange(st, l.len() as int)[i] == l[e3 - 1]);
            assert(l[e3 - 1] == d3[d3.len() - 1]);
            assert(!is_digit(q[i]));
        }
    }
    lemma_seeds_line_chars(pre, mid, b, h, s, post);
    lemma_find_absent(l, "GAMESTATEMANAGER"@, 0);
}

} // verus!
