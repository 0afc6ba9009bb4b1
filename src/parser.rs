//! The parser: a life-cycle state machine over an append-only text buffer.
//!
//! Text arrives in arbitrary chunks. Characters are appended to the buffer;
//! each completed line (from the cursor up to a newline) is handed to the
//! current life-cycle phase, and the cursor moves past it. What a run emits
//! is therefore a function of the text alone, however it was chunked.

use vstd::prelude::*;
use vstd::slice::{slice_subrange, slice_to_vec};

use crate::items::{
    classified, is_seeded_container, seeded_item, GatherItem, GatherItemView, ItemIdentifier,
    SeededQueue,
};
use crate::patterns::{
    expedition_of, hsu_of, is_distribution_end, is_distribution_start, is_key_head, is_key_tail,
    is_markers_end, is_markers_start, is_objective_head, is_pickup_head, is_plain_middle, is_plain_prefix, is_plain_suffix,
    is_reset, is_setup_end, is_setup_start, is_zone_head, key_head_of, key_tail_of,
    lemma_seeds_line, lemma_seeds_line_chars, line_time_of, objective_code_of, pickup_head_of,
    pickup_seed_of, seeds_line, seeds_of, zone_head_of, zone_tail_of, Catalog,
};
use crate::rundown::{
    corrected_expedition, corrected_index, rundown_of_code, rundown_or_modded, Rundown,
};
use crate::tail::TailMsg;
use crate::text::{chars_of, string_of};
use crate::token::{msgs_view, untimed, EventView, ParserMsg, Token, TokenView};
use crate::zone::{decimal, lemma_decimal, Zone, ZoneKey, ZoneKeyView, ZoneView};

verus! {

/// The life-cycle phases of one level, in order.
#[derive(Debug, Clone, Copy, PartialEq, Eq, Structural)]
pub enum Phase {
    AwaitSeeds,
    AwaitSessionSelect,
    AwaitZoneGeneration,
    AwaitItemGeneration,
    AwaitElevatorOrFinish,
}

/// Where item generation stands: before, inside or after the distribution
/// batch, or inside the function-markers batch.
#[derive(Debug, Clone, Copy, PartialEq, Eq, Structural)]
pub enum Segment {
    BeforeDistribution,
    Distribution,
    BetweenBatches,
    FunctionMarkers,
}

/// A stanza whose first line has been read and whose later line is awaited,
/// with what its first line gave.
pub enum Pending {
    Nothing,
    /// Alias and local index of a zone.
    ZoneHead(Option<(u32, u32)>),
    /// Public name and dimension of a key.
    KeyHead(Option<(String, String)>),
    /// A zone selection whose item code follows.
    Objective,
    /// The container of a small pickup.
    Pickup(Option<String>),
}

pub enum PendingView {
    Nothing,
    ZoneHead(Option<(u32, u32)>),
    KeyHead(Option<(Seq<char>, Seq<char>)>),
    Objective,
    Pickup(Option<Seq<char>>),
}

impl View for Pending {
    type V = PendingView;

    open spec fn view(&self) -> PendingView {
        match self {
            Pending::Nothing => PendingView::Nothing,
            Pending::ZoneHead(h) => PendingView::ZoneHead(*h),
            Pending::KeyHead(h) => PendingView::KeyHead(
                match h {
                    Some((n, d)) => Some((n@, d@)),
                    None => None,
                },
            ),
            Pending::Objective => PendingView::Objective,
            Pending::Pickup(h) => PendingView::Pickup(
                match h {
                    Some(c) => Some(c@),
                    None => None,
                },
            ),
        }
    }
}

/// The parser's state as mathematics.
pub struct ParserView {
    /// All text received since the last reset.
    pub buffer: Seq<char>,
    /// Start of the line not yet complete.
    pub cursor: int,
    pub phase: Phase,
    /// Inside the zone-generation batch.
    pub in_batch: bool,
    pub segment: Segment,
    pub pending: PendingView,
    /// Seeded kinds announced and not yet paired with a container.
    pub queue: Seq<ItemIdentifier>,
    /// Events of the current batch, released once the batch is complete.
    pub held: Seq<EventView>,
}

/// The state before any text, and after every reset.
pub open spec fn initial() -> ParserView {
    ParserView {
        buffer: Seq::empty(),
        cursor: 0,
        phase: Phase::AwaitSeeds,
        in_batch: false,
        segment: Segment::BeforeDistribution,
        pending: PendingView::Nothing,
        queue: Seq::empty(),
        held: Seq::empty(),
    }
}

/// A completed line without its carriage return, if it had one.
pub open spec fn line_of(chunk: Seq<char>) -> Seq<char> {
    if chunk.len() > 0 && chunk.last() == '\r' {
        chunk.drop_last()
    } else {
        chunk
    }
}

/// The public name and dimension on the line that opens a key distribution.
pub open spec fn key_names_of(l: Seq<char>) -> Option<(Seq<char>, Seq<char>)> {
    match key_head_of(l) {
        Some((ns, ne, ds, de)) => Some((l.subrange(ns, ne), l.subrange(ds, de))),
        None => None,
    }
}

/// The container name on the line that spawns a small pickup.
pub open spec fn pickup_name_of(l: Seq<char>) -> Option<Seq<char>> {
    match pickup_head_of(l) {
        Some((a, b)) => Some(l.subrange(a, b)),
        None => None,
    }
}

/// The queue after an item code is announced: seeded kinds join it.
pub open spec fn offered(q: Seq<ItemIdentifier>, code: Option<u8>) -> Seq<ItemIdentifier> {
    match code {
        Some(c) => if is_seeded_container(classified(c)) {
            q.push(classified(c))
        } else {
            q
        },
        None => q,
    }
}

/// The queue after pairing its oldest kind with a container, and the item
/// that this gives; an empty queue gives the untyped `Seeded` item.
pub open spec fn paired(q: Seq<ItemIdentifier>, container: Seq<char>, seed: u32) -> (
    Seq<ItemIdentifier>,
    GatherItemView,
) {
    if q.len() == 0 {
        (q, GatherItemView::Seeded(container, seed))
    } else {
        (q.drop_first(), seeded_item(q[0], container, seed))
    }
}

/// One line while zones are generated.
pub open spec fn step_zone_line(m: ParserView, l: Seq<char>) -> (ParserView, Seq<EventView>) {
    if !m.in_batch {
        if is_setup_start(l) {
            (ParserView { in_batch: true, ..m }, Seq::empty())
        } else {
            (m, Seq::empty())
        }
    } else if is_setup_end(l) {
        (
            ParserView {
                phase: Phase::AwaitItemGeneration,
                in_batch: false,
                pending: PendingView::Nothing,
                held: Seq::empty(),
                ..m
            },
            m.held,
        )
    } else {
        match m.pending {
            PendingView::ZoneHead(head) => {
                let m1 = ParserView { pending: PendingView::Nothing, ..m };
                match head {
                    Some((alias, local)) => match zone_tail_of(l) {
                        Some((ds, de, ls, le)) => {
                            let z = ZoneView {
                                alias,
                                local,
                                dimension: l.subrange(ds, de),
                                layer: l.subrange(ls, le),
                                area: None,
                            };
                            (ParserView { held: m.held.push(untimed(TokenView::Zone(z))), ..m1 }, Seq::empty())
                        },
                        None => (m1, Seq::empty()),
                    },
                    None => (m1, Seq::empty()),
                }
            },
            _ => if is_zone_head(l) {
                (ParserView { pending: PendingView::ZoneHead(zone_head_of(l)), ..m }, Seq::empty())
            } else {
                (m, Seq::empty())
            },
        }
    }
}

/// One line inside the distribution batch.
pub open spec fn step_distribution_line(m: ParserView, l: Seq<char>) -> ParserView {
    if is_distribution_end(l) {
        ParserView { segment: Segment::BetweenBatches, pending: PendingView::Nothing, ..m }
    } else {
        match m.pending {
            PendingView::KeyHead(head) => if is_key_tail(l) {
                let m1 = ParserView { pending: PendingView::Nothing, ..m };
                match head {
                    Some((name, dim)) => match key_tail_of(l) {
                        Some((alias, ri)) => {
                            let t = TokenView::Gatherable(
                                Some(ZoneKeyView { alias, dimension: dim }),
                                GatherItemView::Key(name, dim, alias, ri),
                            );
                            ParserView { held: m.held.push(untimed(t)), ..m1 }
                        },
                        None => m1,
                    },
                    None => m1,
                }
            } else {
                m
            },
            PendingView::Objective => ParserView {
                pending: PendingView::Nothing,
                queue: offered(m.queue, objective_code_of(l)),
                ..m
            },
            _ => if is_key_head(l) {
                ParserView { pending: PendingView::KeyHead(key_names_of(l)), ..m }
            } else if is_objective_head(l) {
                ParserView { pending: PendingView::Objective, ..m }
            } else {
                match hsu_of(l) {
                    Some(id) => ParserView {
                        held: m.held.push(untimed(TokenView::Gatherable(None, GatherItemView::HSU(id)))),
                        ..m
                    },
                    None => m,
                }
            },
        }
    }
}

/// One line inside the function-markers batch.
pub open spec fn step_markers_line(m: ParserView, l: Seq<char>) -> (ParserView, Seq<EventView>) {
    if is_markers_end(l) {
        (
            ParserView {
                phase: Phase::AwaitElevatorOrFinish,
                segment: Segment::BeforeDistribution,
                pending: PendingView::Nothing,
                held: Seq::empty(),
                ..m
            },
            m.held,
        )
    } else {
        match m.pending {
            PendingView::Pickup(head) => {
                let m1 = ParserView { pending: PendingView::Nothing, ..m };
                match head {
                    Some(c) => match pickup_seed_of(l) {
                        Some(seed) => {
                            let (q, item) = paired(m.queue, c, seed);
                            (
                                ParserView {
                                    queue: q,
                                    held: m.held.push(untimed(TokenView::Gatherable(None, item))),
                                    ..m1
                                },
                                Seq::empty(),
                            )
                        },
                        None => (m1, Seq::empty()),
                    },
                    None => (m1, Seq::empty()),
                }
            },
            _ => if is_pickup_head(l) {
                (ParserView { pending: PendingView::Pickup(pickup_name_of(l)), ..m }, Seq::empty())
            } else {
                (m, Seq::empty())
            },
        }
    }
}

/// One line while items are generated.
pub open spec fn step_item_line(m: ParserView, l: Seq<char>) -> (ParserView, Seq<EventView>) {
    match m.segment {
        Segment::BeforeDistribution => if is_distribution_start(l) {
            (
                ParserView { segment: Segment::Distribution, pending: PendingView::Nothing, ..m },
                Seq::empty(),
            )
        } else {
            (m, Seq::empty())
        },
        Segment::Distribution => (step_distribution_line(m, l), Seq::empty()),
        Segment::BetweenBatches => if is_markers_start(l) {
            (
                ParserView { segment: Segment::FunctionMarkers, pending: PendingView::Nothing, ..m },
                Seq::empty(),
            )
        } else {
            (m, Seq::empty())
        },
        Segment::FunctionMarkers => step_markers_line(m, l),
    }
}

/// One completed line: a reset line clears everything; otherwise the
/// current phase reads it.
pub open spec fn step_line(m: ParserView, l: Seq<char>) -> (ParserView, Seq<EventView>) {
    if is_reset(l) {
        (initial(), seq![untimed(TokenView::Reset)])
    } else {
        match m.phase {
            Phase::AwaitSeeds => match seeds_of(l) {
                Some((b, h, s)) => (
                    ParserView { phase: Phase::AwaitSessionSelect, ..m },
                    seq![(line_time_of(l), TokenView::Seeds(b, h, s))],
                ),
                None => (m, Seq::empty()),
            },
            Phase::AwaitSessionSelect => match expedition_of(l) {
                Some((code, tier, raw)) => {
                    let r = rundown_or_modded(code);
                    (
                        ParserView { phase: Phase::AwaitZoneGeneration, ..m },
                        seq![
                            (
                                line_time_of(l),
                                TokenView::Expedition(
                                    r,
                                    seq![tier],
                                    corrected_index(r, tier, raw as nat) as usize,
                                ),
                            ),
                        ],
                    )
                },
                None => (m, Seq::empty()),
            },
            Phase::AwaitZoneGeneration => step_zone_line(m, l),
            Phase::AwaitItemGeneration => step_item_line(m, l),
            Phase::AwaitElevatorOrFinish => (m, Seq::empty()),
        }
    }
}

/// One character: appended to the buffer; a newline completes the line
/// that starts at the cursor.
pub open spec fn step_char(m: ParserView, c: char) -> (ParserView, Seq<EventView>) {
    let b = m.buffer.push(c);
    if c == '\n' {
        step_line(
            ParserView { buffer: b, cursor: b.len() as int, ..m },
            line_of(b.subrange(m.cursor, b.len() - 1)),
        )
    } else {
        (ParserView { buffer: b, ..m }, Seq::empty())
    }
}

/// The state after a text and the events it gives, character by character.
pub open spec fn feed(m: ParserView, s: Seq<char>) -> (ParserView, Seq<EventView>)
    decreases s.len(),
{
    if s.len() == 0 {
        (m, Seq::empty())
    } else {
        let (m1, e1) = feed(m, s.drop_last());
        let (m2, e2) = step_char(m1, s.last());
        (m2, e1 + e2)
    }
}

/// The state after a run of chunks, delivered one after another, and the
/// events they give.
pub open spec fn feed_chunks(m: ParserView, chunks: Seq<Seq<char>>) -> (ParserView, Seq<EventView>)
    decreases chunks.len(),
{
    if chunks.len() == 0 {
        (m, Seq::empty())
    } else {
        let (m1, e1) = feed_chunks(m, chunks.drop_last());
        let (m2, e2) = feed(m1, chunks.last());
        (m2, e1 + e2)
    }
}

/// The chunks written one after another.
pub open spec fn joined(chunks: Seq<Seq<char>>) -> Seq<char>
    decreases chunks.len(),
{
    if chunks.len() == 0 {
        Seq::empty()
    } else {
        joined(chunks.drop_last()) + chunks.last()
    }
}

/// A text cut in two and delivered piece by piece gives the same state and
/// the same events, in the same order, as the text delivered whole.
pub proof fn lemma_split_delivery(m: ParserView, a: Seq<char>, b: Seq<char>)
    ensures
        feed(m, a + b).0 == feed(feed(m, a).0, b).0,
        feed(m, a + b).1 == feed(m, a).1 + feed(feed(m, a).0, b).1,
    decreases b.len(),
{
    if b.len() == 0 {
        assert(a + b =~= a);
        assert(feed(m, a).1 + Seq::<EventView>::empty() =~= feed(m, a).1);
    } else {
        lemma_split_delivery(m, a, b.drop_last());
        assert((a + b).drop_last() =~= a + b.drop_last());
        assert((a + b).last() == b.last());
        let e0 = feed(m, a).1;
        let e1 = feed(feed(m, a).0, b.drop_last()).1;
        let e2 = step_char(feed(feed(m, a).0, b.drop_last()).0, b.last()).1;
        assert(e0 + e1 + e2 =~= e0 + (e1 + e2));
    }
}

/// However a text is cut into chunks (down to one character each), the
/// chunks delivered in order give the same state and events as the whole.
pub proof fn lemma_chunked_delivery(m: ParserView, chunks: Seq<Seq<char>>)
    ensures
        feed_chunks(m, chunks) == feed(m, joined(chunks)),
    decreases chunks.len(),
{
    if chunks.len() > 0 {
        lemma_chunked_delivery(m, chunks.drop_last());
        lemma_split_delivery(m, joined(chunks.drop_last()), chunks.last());
    }
}

/// A small pickup whose seed arrives while no seeded kind is queued is held
/// as the untyped `Seeded` item with its container and seed: never dropped.
pub proof fn lemma_pickup_without_queue(m: ParserView, l: Seq<char>, container: Seq<char>, seed: u32)
    requires
        m.phase == Phase::AwaitItemGeneration,
        m.segment == Segment::FunctionMarkers,
        m.pending == PendingView::Pickup(Some(container)),
        m.queue.len() == 0,
        !is_reset(l),
        !is_markers_end(l),
        pickup_seed_of(l) == Some(seed),
    ensures
        step_line(m, l).0.held == m.held.push(
            untimed(TokenView::Gatherable(None, GatherItemView::Seeded(container, seed))),
        ),
        step_line(m, l).0.queue.len() == 0,
        step_line(m, l).1 == Seq::<EventView>::empty(),
{
}

/// Delivered as text, the seed line of a small pickup that arrives while no
/// seeded kind is queued gives the untyped `Seeded` item, held in order
/// behind what the batch already gave; nothing is dropped.
pub proof fn lemma_pickup_line_without_queue(m: ParserView, l: Seq<char>, container: Seq<char>, seed: u32)
    requires
        m.cursor == m.buffer.len(),
        m.phase == Phase::AwaitItemGeneration,
        m.segment == Segment::FunctionMarkers,
        m.pending == PendingView::Pickup(Some(container)),
        m.queue.len() == 0,
        forall|i: int| 0 <= i < l.len() ==> l[i] != '\n',
        !is_reset(line_of(l)),
        !is_markers_end(line_of(l)),
        pickup_seed_of(line_of(l)) == Some(seed),
    ensures
        feed(m, l.push('\n')).0.held == m.held.push(
            untimed(TokenView::Gatherable(None, GatherItemView::Seeded(container, seed))),
        ),
        feed(m, l.push('\n')).1 == Seq::<EventView>::empty(),
{
    let t = l.push('\n');
    assert(t.drop_last() =~= l);
    lemma_feed_within_line(m, l);
    let m1 = ParserView { buffer: m.buffer + l, ..m };
    let full = m1.buffer.push('\n');
    assert(full.subrange(m.cursor, full.len() - 1) =~= l);
    assert(Seq::<EventView>::empty() + Seq::<EventView>::empty() =~= Seq::<EventView>::empty());
}

/// Characters other than newlines only join the buffer.
proof fn lemma_feed_within_line(m: ParserView, t: Seq<char>)
    requires
        forall|i: int| 0 <= i < t.len() ==> t[i] != '\n',
    ensures
        feed(m, t).0 == (ParserView { buffer: m.buffer + t, ..m }),
        feed(m, t).1 == Seq::<EventView>::empty(),
    decreases t.len(),
{
    if t.len() == 0 {
        assert(m.buffer + t =~= m.buffer);
    } else {
        lemma_feed_within_line(m, t.drop_last());
        assert(m.buffer + t.drop_last() + seq![t.last()] =~= m.buffer + t);
        assert((m.buffer + t.drop_last()).push(t.last()) =~= m.buffer + t);
        assert(Seq::<EventView>::empty() + Seq::<EventView>::empty() =~= Seq::<EventView>::empty());
    }
}

/// A builder line holds no newline, and without its carriage return it is
/// the builder line with the suffix stripped the same way.
proof fn lemma_seeds_line_of(pre: Seq<char>, mid: Seq<char>, b: u32, h: u32, s: u32, post: Seq<char>)
    requires
        is_plain_prefix(pre),
        is_plain_middle(mid),
        is_plain_suffix(line_of(post)),
    ensures
        line_of(seeds_line(pre, mid, b, h, s, post)) == seeds_line(pre, mid, b, h, s, line_of(post)),
        forall|j: int|
            0 <= j < seeds_line(pre, mid, b, h, s, post).len() ==> seeds_line(
                pre,
                mid,
                b,
                h,
                s,
                post,
            )[j] != '\n',
{
    let l = seeds_line(pre, mid, b, h, s, post);
    let p2 = line_of(post);
    let l2 = seeds_line(pre, mid, b, h, s, p2);
    lemma_seeds_line_chars(pre, mid, b, h, s, p2);
    lemma_decimal(s as nat);
    if post.len() > 0 && post.last() == '\r' {
        assert(l.drop_last() =~= l2);
        assert(l.last() == '\r');
        assert forall|j: int| 0 <= j < l.len() implies l[j] != '\n' by {
            if j < l.len() - 1 {
                assert(l[j] == l2[j]);
            }
        }
    } else {
        assert(p2 == post);
        assert(l.last() != '\r') by {
            if post.len() == 0 {
                let d3 = decimal(s as nat);
                assert(l.last() == d3.last());
            }
        }
    }
    assert(line_of(l) == l2);
}

/// While seeds are awaited, a builder line with seeds `b`, `h` and `s`
/// gives exactly one event, `Seeds(b, h, s)`, and the session selection is
/// awaited next.
pub proof fn lemma_seeds_event(
    m: ParserView,
    pre: Seq<char>,
    mid: Seq<char>,
    b: u32,
    h: u32,
    s: u32,
    post: Seq<char>,
)
    requires
        m.phase == Phase::AwaitSeeds,
        m.cursor == m.buffer.len(),
        is_plain_prefix(pre),
        is_plain_middle(mid),
        is_plain_suffix(line_of(post)),
    ensures
        feed(m, seeds_line(pre, mid, b, h, s, post).push('\n')).1.len() == 1,
        feed(m, seeds_line(pre, mid, b, h, s, post).push('\n')).1[0].1 == TokenView::Seeds(b, h, s),
        feed(m, seeds_line(pre, mid, b, h, s, post).push('\n')).0.phase
            == Phase::AwaitSessionSelect,
{
    let l = seeds_line(pre, mid, b, h, s, post);
    let p2 = line_of(post);
    let l2 = seeds_line(pre, mid, b, h, s, p2);
    let t = l.push('\n');
    lemma_seeds_line_of(pre, mid, b, h, s, post);
    lemma_seeds_line(pre, mid, b, h, s, p2);
    assert(t.drop_last() =~= l);
    lemma_feed_within_line(m, l);
    let m1 = ParserView { buffer: m.buffer + l, ..m };
    let full = m1.buffer.push('\n');
    assert(full.subrange(m.cursor, full.len() - 1) =~= l);
    let e = seq![(line_time_of(l2), TokenView::Seeds(b, h, s))];
    assert(Seq::<EventView>::empty() + e =~= e);
}

/// An expedition line whose rundown code the build does not know still
/// gives its event, with the `Modded` rundown, and parsing moves on.
pub proof fn lemma_unknown_rundown(m: ParserView, l: Seq<char>, code: nat, tier: char, raw: u32)
    requires
        m.phase == Phase::AwaitSessionSelect,
        !is_reset(l),
        expedition_of(l) == Some((code, tier, raw)),
        rundown_of_code(code) is None,
    ensures
        step_line(m, l).1 == seq![
            (
                line_time_of(l),
                TokenView::Expedition(Rundown::Modded, seq![tier], (raw + 1) as usize),
            ),
        ],
        step_line(m, l).0.phase == Phase::AwaitZoneGeneration,
{
}

/// The log parser: the text received since the last reset, the cursor at
/// the start of its unfinished line, and the life-cycle state. Events of a
/// generation batch are held until the batch is complete.
pub struct Parser {
    catalog: Catalog,
    buffer: Vec<char>,
    cursor: usize,
    phase: Phase,
    in_batch: bool,
    segment: Segment,
    pending: Pending,
    queue: SeededQueue,
    held: Vec<ParserMsg>,
}

impl View for Parser {
    type V = ParserView;

    closed spec fn view(&self) -> ParserView {
        ParserView {
            buffer: self.buffer@,
            cursor: self.cursor as int,
            phase: self.phase,
            in_batch: self.in_batch,
            segment: self.segment,
            pending: self.pending@,
            queue: self.queue@,
            held: msgs_view(self.held@),
        }
    }
}

impl Parser {
    pub closed spec fn wf(&self) -> bool {
        &&& self.catalog.wf()
        &&& self.queue.wf()
        &&& self.cursor <= self.buffer@.len()
    }

    /// A parser that has seen no text.
    pub fn new() -> (r: Parser)
        ensures
            r.wf(),
            r@ == initial(),
    {
        let r = Parser {
            catalog: Catalog::new(),
            buffer: Vec::new(),
            cursor: 0,
            phase: Phase::AwaitSeeds,
            in_batch: false,
            segment: Segment::BeforeDistribution,
            pending: Pending::Nothing,
            queue: SeededQueue::new(),
            held: Vec::new(),
        };
        assert(r@.held =~= Seq::<EventView>::empty());
        r
    }

    /// The current life-cycle phase.
    pub fn phase(&self) -> (r: Phase)
        ensures
            r == self@.phase,
    {
        self.phase
    }

    fn clear(&mut self)
        requires
            old(self).wf(),
        ensures
            final(self).wf(),
            final(self)@ == initial(),
    {
        self.buffer = Vec::new();
        self.cursor = 0;
        self.phase = Phase::AwaitSeeds;
        self.in_batch = false;
        self.segment = Segment::BeforeDistribution;
        self.pending = Pending::Nothing;
        self.queue = SeededQueue::new();
        self.held = Vec::new();
        assert(self@.held =~= Seq::<EventView>::empty());
    }

    fn hold(&mut self, t: ParserMsg)
        ensures
            final(self)@ == (ParserView { held: old(self)@.held.push(t@), ..old(self)@ }),
            final(self).wf() == old(self).wf(),
    {
        let ghost before = self.held@;
        self.held.push(t);
        assert(msgs_view(self.held@) =~= msgs_view(before).push(t@));
    }

    fn release(&mut self, out: &mut Vec<ParserMsg>)
        ensures
            final(self)@ == (ParserView { held: Seq::empty(), ..old(self)@ }),
            final(self).wf() == old(self).wf(),
            msgs_view(final(out)@) == msgs_view(old(out)@) + old(self)@.held,
    {
        let ghost before = self.held@;
        let ghost prior = out@;
        out.append(&mut self.held);
        assert(msgs_view(out@) =~= msgs_view(prior) + msgs_view(before));
        assert(msgs_view(self.held@) =~= Seq::<EventView>::empty());
    }

    fn zone_line(&mut self, l: &[char], out: &mut Vec<ParserMsg>)
        requires
            old(self).wf(),
        ensures
            final(self).wf(),
            final(self)@ == step_zone_line(old(self)@, l@).0,
            msgs_view(final(out)@) == msgs_view(old(out)@) + step_zone_line(old(self)@, l@).1,
    {
        let ghost prior = out@;
        if !self.in_batch {
            if self.catalog.setup_start(l) {
                self.in_batch = true;
            }
            assert(msgs_view(out@) =~= msgs_view(prior) + Seq::<EventView>::empty());
            return;
        }
        if self.catalog.setup_end(l) {
            self.phase = Phase::AwaitItemGeneration;
            self.in_batch = false;
            self.pending = Pending::Nothing;
            self.release(out);
            return;
        }
        assert(msgs_view(out@) =~= msgs_view(prior) + Seq::<EventView>::empty());
        let mut pending = Pending::Nothing;
        core::mem::swap(&mut pending, &mut self.pending);
        match pending {
            Pending::ZoneHead(head) => {
                if let Some((alias, local)) = head {
                    if let Some((ds, de, ls, le)) = self.catalog.zone_tail(l) {
                        let dimension = string_of(slice_subrange(l, ds, de));
                        let layer = string_of(slice_subrange(l, ls, le));
                        self.hold(ParserMsg(None, Token::Zone(Zone { alias, local, dimension, layer, area: None })));
                    }
                }
            },
            other => {
                self.pending = other;
                if self.catalog.zone_head_line(l) {
                    let head = self.catalog.zone_head(l);
                    self.pending = Pending::ZoneHead(head);
                }
            },
        }
    }

    fn distribution_line(&mut self, l: &[char])
        requires
            old(self).wf(),
        ensures
            final(self).wf(),
            final(self)@ == step_distribution_line(old(self)@, l@),
    {
        if self.catalog.distribution_end(l) {
            self.segment = Segment::BetweenBatches;
            self.pending = Pending::Nothing;
            return;
        }
        let mut pending = Pending::Nothing;
        core::mem::swap(&mut pending, &mut self.pending);
        match pending {
            Pending::KeyHead(head) => {
                if self.catalog.key_tail_line(l) {
                    if let Some((name, dim)) = head {
                        if let Some((alias, ri)) = self.catalog.key_tail(l) {
                            let key = ZoneKey { alias, dimension: dim.clone() };
                            self.hold(
                                ParserMsg(None, Token::Gatherable(Some(key), GatherItem::Key(name, dim, alias, ri))),
                            );
                        }
                    }
                } else {
                    self.pending = Pending::KeyHead(head);
                }
            },
            Pending::Objective => {
                if let Some(code) = self.catalog.objective_code(l) {
                    self.queue.offer(code);
                }
            },
            other => {
                self.pending = other;
                if self.catalog.key_head_line(l) {
                    let names = match self.catalog.key_head(l) {
                        Some((ns, ne, ds, de)) => Some(
                            (
                                string_of(slice_subrange(l, ns, ne)),
                                string_of(slice_subrange(l, ds, de)),
                            ),
                        ),
                        None => None,
                    };
                    self.pending = Pending::KeyHead(names);
                } else if self.catalog.objective_head(l) {
                    self.pending = Pending::Objective;
                } else if let Some(id) = self.catalog.hsu(l) {
                    self.hold(ParserMsg(None, Token::Gatherable(None, GatherItem::HSU(id))));
                }
            },
        }
    }

    fn markers_line(&mut self, l: &[char], out: &mut Vec<ParserMsg>)
        requires
            old(self).wf(),
        ensures
            final(self).wf(),
            final(self)@ == step_markers_line(old(self)@, l@).0,
            msgs_view(final(out)@) == msgs_view(old(out)@) + step_markers_line(old(self)@, l@).1,
    {
        let ghost prior = out@;
        if self.catalog.markers_end(l) {
            self.phase = Phase::AwaitElevatorOrFinish;
            self.segment = Segment::BeforeDistribution;
            self.pending = Pending::Nothing;
            self.release(out);
            return;
        }
        assert(msgs_view(out@) =~= msgs_view(prior) + Seq::<EventView>::empty());
        let mut pending = Pending::Nothing;
        core::mem::swap(&mut pending, &mut self.pending);
        match pending {
            Pending::Pickup(head) => {
                if let Some(container) = head {
                    if let Some(seed) = self.catalog.pickup_seed(l) {
                        let item = self.queue.classify_next(container, seed);
                        self.hold(ParserMsg(None, Token::Gatherable(None, item)));
                    }
                }
            },
            other => {
                self.pending = other;
                if self.catalog.pickup_head_line(l) {
                    let name = match self.catalog.pickup_head(l) {
                        Some((a, b)) => Some(string_of(slice_subrange(l, a, b))),
                        None => None,
                    };
                    self.pending = Pending::Pickup(name);
                }
            },
        }
    }

    fn item_line(&mut self, l: &[char], out: &mut Vec<ParserMsg>)
        requires
            old(self).wf(),
        ensures
            final(self).wf(),
            final(self)@ == step_item_line(old(self)@, l@).0,
            msgs_view(final(out)@) == msgs_view(old(out)@) + step_item_line(old(self)@, l@).1,
    {
        let ghost prior = out@;
        match self.segment {
            Segment::BeforeDistribution => {
                if self.catalog.distribution_start(l) {
                    self.segment = Segment::Distribution;
                    self.pending = Pending::Nothing;
                }
            },
            Segment::Distribution => self.distribution_line(l),
            Segment::BetweenBatches => {
                if self.catalog.markers_start(l) {
                    self.segment = Segment::FunctionMarkers;
                    self.pending = Pending::Nothing;
                }
            },
            Segment::FunctionMarkers => {
                self.markers_line(l, out);
                return;
            },
        }
        assert(msgs_view(out@) =~= msgs_view(prior) + Seq::<EventView>::empty());
    }

    fn emit(out: &mut Vec<ParserMsg>, t: ParserMsg)
        ensures
            msgs_view(final(out)@) == msgs_view(old(out)@) + seq![t@],
    {
        let ghost prior = out@;
        out.push(t);
        assert(msgs_view(out@) =~= msgs_view(prior) + seq![t@]);
    }

    fn line(&mut self, l: &[char], out: &mut Vec<ParserMsg>)
        requires
            old(self).wf(),
        ensures
            final(self).wf(),
            final(self)@ == step_line(old(self)@, l@).0,
            msgs_view(final(out)@) == msgs_view(old(out)@) + step_line(old(self)@, l@).1,
    {
        let ghost prior = out@;
        if self.catalog.reset(l) {
            self.clear();
            Parser::emit(out, ParserMsg(None, Token::Reset));
            return;
        }
        match self.phase {
            Phase::AwaitSeeds => {
                if let Some((b, h, s)) = self.catalog.seeds(l) {
                    let time = self.catalog.line_time(l);
                    self.phase = Phase::AwaitSessionSelect;
                    Parser::emit(out, ParserMsg(time, Token::Seeds(b, h, s)));
                    return;
                }
            },
            Phase::AwaitSessionSelect => {
                if let Some((rundown, tier, raw)) = self.catalog.expedition(l) {
                    let index = corrected_expedition(rundown, tier, raw);
                    let letter = vec![tier];
                    let tier_text = string_of(letter.as_slice());
                    assert(letter@ =~= seq![tier]);
                    let time = self.catalog.line_time(l);
                    self.phase = Phase::AwaitZoneGeneration;
                    Parser::emit(out, ParserMsg(time, Token::Expedition(rundown, tier_text, index)));
                    return;
                }
            },
            Phase::AwaitZoneGeneration => {
                self.zone_line(l, out);
                return;
            },
            Phase::AwaitItemGeneration => {
                self.item_line(l, out);
                return;
            },
            Phase::AwaitElevatorOrFinish => {},
        }
        assert(msgs_view(out@) =~= msgs_view(prior) + Seq::<EventView>::empty());
    }

    /// Takes one character of text; a newline completes a line, which the
    /// current phase then reads.
    pub fn push_char(&mut self, c: char, out: &mut Vec<ParserMsg>)
        requires
            old(self).wf(),
        ensures
            final(self).wf(),
            final(self)@ == step_char(old(self)@, c).0,
            msgs_view(final(out)@) == msgs_view(old(out)@) + step_char(old(self)@, c).1,
    {
        let ghost m = self@;
        let ghost prior = out@;
        self.buffer.push(c);
        if c == '\n' {
            let end = self.buffer.len() - 1;
            let mut hi = end;
            if hi > self.cursor && self.buffer[hi - 1] == '\r' {
                hi = hi - 1;
            }
            let line = slice_to_vec(slice_subrange(self.buffer.as_slice(), self.cursor, hi));
            assert(line@ =~= line_of(self.buffer@.subrange(m.cursor, self.buffer@.len() - 1)));
            self.cursor = self.buffer.len();
            self.line(line.as_slice(), out);
        } else {
            assert(msgs_view(out@) =~= msgs_view(prior) + Seq::<EventView>::empty());
        }
    }

    /// Takes a chunk of text, however it was cut, and returns the events
    /// that it completes.
    pub fn feed(&mut self, text: &str) -> (r: Vec<ParserMsg>)
        requires
            old(self).wf(),
        ensures
            final(self).wf(),
            final(self)@ == feed(old(self)@, text@).0,
            msgs_view(r@) == feed(old(self)@, text@).1,
    {
        let ghost start = self@;
        let chars = chars_of(text);
        let mut out: Vec<ParserMsg> = Vec::new();
        let mut i: usize = 0;
        assert(chars@.subrange(0, 0) =~= Seq::<char>::empty());
        assert(msgs_view(out@) =~= Seq::<EventView>::empty());
        while i < chars.len()
            invariant
                self.wf(),
                i <= chars@.len(),
                chars@ == text@,
                self@ == feed(start, chars@.subrange(0, i as int)).0,
                msgs_view(out@) == feed(start, chars@.subrange(0, i as int)).1,
            decreases chars@.len() - i,
        {
            assert(chars@.subrange(0, i + 1).drop_last() =~= chars@.subrange(0, i as int));
            self.push_char(chars[i], &mut out);
            i = i + 1;
        }
        assert(chars@.subrange(0, chars@.len() as int) =~= chars@);
        out
    }

    /// Takes one message of the tailer. Content is parsed; a new file
    /// resets the parser and emits `Reset`; `None` means the tailer stopped
    /// and parsing ends.
    pub fn handle(&mut self, msg: TailMsg) -> (r: Option<Vec<ParserMsg>>)
        requires
            old(self).wf(),
        ensures
            final(self).wf(),
            match msg {
                TailMsg::Content(s) => final(self)@ == feed(old(self)@, s@).0
                    && (r matches Some(v) && msgs_view(v@) == feed(old(self)@, s@).1),
                TailMsg::NewFile => final(self)@ == initial()
                    && (r matches Some(v) && msgs_view(v@) == seq![untimed(TokenView::Reset)]),
                TailMsg::Stop => final(self)@ == old(self)@ && r is None,
            },
    {
        match msg {
            TailMsg::Content(s) => Some(self.feed(s.as_str())),
            TailMsg::NewFile => {
                self.clear();
                let mut out: Vec<ParserMsg> = Vec::new();
                Parser::emit(&mut out, ParserMsg(None, Token::Reset));
                assert(msgs_view(out@) =~= seq![untimed(TokenView::Reset)]);
                Some(out)
            },
            TailMsg::Stop => None,
        }
    }
}

} // verus!
