//! The session aggregate that consumers fold events into.

use vstd::prelude::*;

use crate::items::{GatherItem, GatherItemView, ItemIdentifier};
use crate::rundown::{rundown_name, Rundown};
use crate::text::{as_pos, chars_of, string_of};
use crate::token::{Token, TokenView};
use crate::zone::{decimal, push_decimal, Zone, ZoneView};

verus! {

/// What is known of the level being played.
#[derive(Debug, Clone)]
pub struct Level {
    /// Build, host and session seeds.
    pub seeds: Option<(u32, u32, u32)>,
    pub rundown: Option<Rundown>,
    pub tier: Option<String>,
    pub exp: Option<usize>,
    /// Zones in order of creation.
    pub zones: Vec<Zone>,
    /// Items placed in a known zone, in order of arrival.
    pub gatherable_items: Vec<(Zone, GatherItem)>,
    /// Items whose zone is not known.
    pub gatherables: Vec<GatherItem>,
    pub uncategorized: Vec<ItemIdentifier>,
}

pub struct LevelView {
    pub seeds: Option<(u32, u32, u32)>,
    pub rundown: Option<Rundown>,
    pub tier: Option<Seq<char>>,
    pub exp: Option<usize>,
    pub zones: Seq<ZoneView>,
    pub gatherable_items: Seq<(ZoneView, GatherItemView)>,
    pub gatherables: Seq<GatherItemView>,
    pub uncategorized: Seq<ItemIdentifier>,
}

impl View for Level {
    type V = LevelView;

    open spec fn view(&self) -> LevelView {
        LevelView {
            seeds: self.seeds,
            rundown: self.rundown,
            tier: match self.tier {
                Some(t) => Some(t@),
                None => None,
            },
            exp: self.exp,
            zones: self.zones@.map_values(|z: Zone| z@),
            gatherable_items: self.gatherable_items@.map_values(
                |p: (Zone, GatherItem)| (p.0@, p.1@),
            ),
            gatherables: self.gatherables@.map_values(|g: GatherItem| g@),
            uncategorized: self.uncategorized@,
        }
    }
}

/// The aggregate of a session that has seen nothing.
pub open spec fn cleared() -> LevelView {
    LevelView {
        seeds: None,
        rundown: None,
        tier: None,
        exp: None,
        zones: Seq::empty(),
        gatherable_items: Seq::empty(),
        gatherables: Seq::empty(),
        uncategorized: Seq::empty(),
    }
}

/// The first zone at or after `from` with this alias and dimension.
pub open spec fn zone_position(zs: Seq<ZoneView>, alias: u32, dimension: Seq<char>, from: int) -> Option<int>
    decreases zs.len() - from,
{
    if from < 0 || from >= zs.len() {
        None
    } else if zs[from].alias == alias && zs[from].dimension == dimension {
        Some(from)
    } else {
        zone_position(zs, alias, dimension, from + 1)
    }
}

/// The first zone at or after `from` with this alias.
pub open spec fn alias_position(zs: Seq<ZoneView>, alias: u32, from: int) -> Option<int>
    decreases zs.len() - from,
{
    if from < 0 || from >= zs.len() {
        None
    } else if zs[from].alias == alias {
        Some(from)
    } else {
        alias_position(zs, alias, from + 1)
    }
}

/// The aggregate after one event.
pub open spec fn applied(l: LevelView, t: TokenView) -> LevelView {
    match t {
        TokenView::Seeds(b, h, s) => LevelView { seeds: Some((b, h, s)), ..l },
        TokenView::Expedition(r, tier, exp) => LevelView {
            rundown: Some(r),
            tier: Some(tier),
            exp: Some(exp),
            ..l
        },
        TokenView::Zone(z) => LevelView { zones: l.zones.push(z), ..l },
        TokenView::Gatherable(Some(k), item) => match zone_position(l.zones, k.alias, k.dimension, 0) {
            Some(i) => LevelView { gatherable_items: l.gatherable_items.push((l.zones[i], item)), ..l },
            None => LevelView { gatherables: l.gatherables.push(item), ..l },
        },
        TokenView::Gatherable(None, item) => LevelView { gatherables: l.gatherables.push(item), ..l },
        TokenView::Uncategorized(id, _) => LevelView { uncategorized: l.uncategorized.push(id), ..l },
        TokenView::Reset => cleared(),
        _ => l,
    }
}

/// The aggregate after a log of events, in order.
pub open spec fn replayed(l: LevelView, log: Seq<TokenView>) -> LevelView
    decreases log.len(),
{
    if log.len() == 0 {
        l
    } else {
        applied(replayed(l, log.drop_last()), log.last())
    }
}

/// A reset leaves the aggregate cleared, whatever it held before.
pub proof fn lemma_reset_clears(l: LevelView)
    ensures
        applied(l, TokenView::Reset) == cleared(),
{
}

/// Replaying two logs one after the other is replaying the two together.
pub proof fn lemma_replay_concat(l: LevelView, a: Seq<TokenView>, b: Seq<TokenView>)
    ensures
        replayed(l, a + b) == replayed(replayed(l, a), b),
    decreases b.len(),
{
    if b.len() == 0 {
        assert(a + b =~= a);
    } else {
        lemma_replay_concat(l, a, b.drop_last());
        assert((a + b).drop_last() =~= a + b.drop_last());
        assert((a + b).last() == b.last());
    }
}

/// A log that starts with a reset gives the same aggregate whatever the
/// aggregate held before it.
pub proof fn lemma_replay_after_reset(l1: LevelView, l2: LevelView, log: Seq<TokenView>)
    ensures
        replayed(l1, seq![TokenView::Reset] + log) == replayed(l2, seq![TokenView::Reset] + log),
{
    let r = seq![TokenView::Reset];
    lemma_replay_concat(l1, r, log);
    lemma_replay_concat(l2, r, log);
    assert(r.drop_last() =~= Seq::<TokenView>::empty());
}

/// Replaying a log a second time, after a reset, rebuilds the aggregate
/// that the first replay built.
pub proof fn lemma_replay_twice(log: Seq<TokenView>)
    ensures
        replayed(cleared(), log + seq![TokenView::Reset] + log) == replayed(cleared(), log),
{
    let r = seq![TokenView::Reset];
    lemma_replay_concat(cleared(), log + r, log);
    lemma_replay_concat(cleared(), log, r);
    assert(r.drop_last() =~= Seq::<TokenView>::empty());
}

/// How the level reads: rundown, tier and expedition number (`R8C2`), the
/// rundown alone for the tutorial, and `None` while any of them is unknown.
pub open spec fn level_label(l: LevelView) -> Seq<char> {
    match (l.rundown, l.tier, l.exp) {
        (Some(r), Some(t), Some(e)) => if r == Rundown::Tutorial {
            rundown_name(r)
        } else {
            rundown_name(r) + t + decimal(e as nat)
        },
        _ => "None"@,
    }
}

impl Level {
    /// The aggregate of a session that has seen nothing.
    pub fn new() -> (r: Level)
        ensures
            r@ == cleared(),
    {
        let r = Level {
            seeds: None,
            rundown: None,
            tier: None,
            exp: None,
            zones: Vec::new(),
            gatherable_items: Vec::new(),
            gatherables: Vec::new(),
            uncategorized: Vec::new(),
        };
        assert(r@.zones =~= Seq::<ZoneView>::empty());
        assert(r@.gatherable_items =~= Seq::<(ZoneView, GatherItemView)>::empty());
        assert(r@.gatherables =~= Seq::<GatherItemView>::empty());
        r
    }

    /// The position of the first zone with this alias and dimension.
    pub fn zone_index(&self, alias: u32, dimension: &String) -> (r: Option<usize>)
        ensures
            as_pos(r) == zone_position(self@.zones, alias, dimension@, 0),
            r matches Some(i) ==> i < self@.zones.len(),
    {
        let mut i: usize = 0;
        while i < self.zones.len()
            invariant
                i <= self.zones@.len(),
                zone_position(self@.zones, alias, dimension@, 0) == zone_position(
                    self@.zones,
                    alias,
                    dimension@,
                    i as int,
                ),
            decreases self.zones@.len() - i,
        {
            if self.zones[i].alias == alias && self.zones[i].dimension == *dimension {
                return Some(i);
            }
            i = i + 1;
        }
        None
    }

    /// The first zone with this alias and dimension.
    pub fn zone(&self, alias: u32, dimension: &String) -> (r: Option<&Zone>)
        ensures
            match zone_position(self@.zones, alias, dimension@, 0) {
                Some(i) => r matches Some(z) && z@ == self@.zones[i],
                None => r is None,
            },
    {
        match self.zone_index(alias, dimension) {
            Some(i) => {
                assert(self@.zones[i as int] == self.zones@[i as int]@);
                Some(&self.zones[i])
            },
            None => None,
        }
    }

    /// The first zone with this alias.
    pub fn zone_by_alias(&self, alias: u32) -> (r: Option<&Zone>)
        ensures
            match alias_position(self@.zones, alias, 0) {
                Some(i) => r matches Some(z) && z@ == self@.zones[i],
                None => r is None,
            },
    {
        let mut i: usize = 0;
        while i < self.zones.len()
            invariant
                i <= self.zones@.len(),
                alias_position(self@.zones, alias, 0) == alias_position(self@.zones, alias, i as int),
            decreases self.zones@.len() - i,
        {
            if self.zones[i].alias == alias {
                assert(self@.zones[i as int] == self.zones@[i as int]@);
                return Some(&self.zones[i]);
            }
            i = i + 1;
        }
        None
    }

    /// Folds one event into the aggregate.
    pub fn apply(&mut self, t: Token)
        ensures
            final(self)@ == applied(old(self)@, t@),
    {
        let ghost before = self@;
        match t {
            Token::Seeds(b, h, s) => {
                self.seeds = Some((b, h, s));
            },
            Token::Expedition(r, tier, exp) => {
                self.rundown = Some(r);
                self.tier = Some(tier);
                self.exp = Some(exp);
            },
            Token::Zone(z) => {
                self.zones.push(z);
                assert(self@.zones =~= before.zones.push(z@));
            },
            Token::Gatherable(Some(k), item) => {
                match self.zone_index(k.alias, &k.dimension) {
                    Some(i) => {
                        let zone = self.zones[i].duplicate();
                        self.gatherable_items.push((zone, item));
                        assert(self@.gatherable_items =~= before.gatherable_items.push(
                            (before.zones[i as int], item@),
                        ));
                    },
                    None => {
                        self.gatherables.push(item);
                        assert(self@.gatherables =~= before.gatherables.push(item@));
                    },
                }
            },
            Token::Gatherable(None, item) => {
                self.gatherables.push(item);
                assert(self@.gatherables =~= before.gatherables.push(item@));
            },
            Token::Uncategorized(id, _) => {
                self.uncategorized.push(id);
            },
            Token::Reset => {
                *self = Level::new();
            },
            Token::Start | Token::Split | Token::End => {},
        }
    }

    /// How the level reads: `R8C2`, `Tutorial`, or `None` while unknown.
    pub fn label(&self) -> (r: String)
        ensures
            r@ == level_label(self@),
    {
        match (&self.rundown, &self.tier, &self.exp) {
            (Some(r), Some(t), Some(e)) => {
                let mut out = chars_of(r.name());
                if *r != Rundown::Tutorial {
                    let mut tier = chars_of(t.as_str());
                    out.append(&mut tier);
                    push_decimal(&mut out, *e as u64);
                }
                string_of(out.as_slice())
            },
            _ => String::from_str("None"),
        }
    }
}

} // verus!
