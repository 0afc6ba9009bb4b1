//! The typed events that the parser emits.

use vstd::prelude::*;

use crate::clock::{clock_view, ClockTime};
use crate::items::{GatherItem, GatherItemView, ItemIdentifier};
use crate::rundown::Rundown;
use crate::zone::{Zone, ZoneKey, ZoneKeyView, ZoneView};

verus! {

/// One event reconstructed from the log.
#[derive(Debug, Clone, PartialEq, Eq)]
pub enum Token {
    /// Build, host and session seeds.
    Seeds(u32, u32, u32),
    /// Rundown, tier letter and the user-facing expedition number.
    Expedition(Rundown, String, usize),
    Zone(Zone),
    Start,
    Split,
    End,
    /// An item, with the zone it lies in when the log names one.
    Gatherable(Option<ZoneKey>, GatherItem),
    Uncategorized(ItemIdentifier, u32),
    Reset,
}

pub enum TokenView {
    Seeds(u32, u32, u32),
    Expedition(Rundown, Seq<char>, usize),
    Zone(ZoneView),
    Start,
    Split,
    End,
    Gatherable(Option<ZoneKeyView>, GatherItemView),
    Uncategorized(ItemIdentifier, u32),
    Reset,
}

impl View for Token {
    type V = TokenView;

    open spec fn view(&self) -> TokenView {
        match self {
            Token::Seeds(b, h, s) => TokenView::Seeds(*b, *h, *s),
            Token::Expedition(r, t, i) => TokenView::Expedition(*r, t@, *i),
            Token::Zone(z) => TokenView::Zone(z@),
            Token::Start => TokenView::Start,
            Token::Split => TokenView::Split,
            Token::End => TokenView::End,
            Token::Gatherable(k, item) => TokenView::Gatherable(
                match k {
                    Some(k) => Some(k@),
                    None => None,
                },
                item@,
            ),
            Token::Uncategorized(id, n) => TokenView::Uncategorized(*id, *n),
            Token::Reset => TokenView::Reset,
        }
    }
}

/// The views of a sequence of events.
pub open spec fn tokens_view(v: Seq<Token>) -> Seq<TokenView> {
    v.map_values(|t: Token| t@)
}

/// An event with the time of day of the line that gave it, when the line
/// is stamped.
#[derive(Debug, Clone, PartialEq, Eq)]
pub struct ParserMsg(pub Option<ClockTime>, pub Token);

/// An event as mathematics: the time stamp (hour, minute, second,
/// nanoseconds) and the event.
pub type EventView = (Option<(i8, i8, i8, i32)>, TokenView);

impl View for ParserMsg {
    type V = EventView;

    open spec fn view(&self) -> EventView {
        (clock_view(self.0), self.1@)
    }
}

/// An event from a line without a time stamp.
pub open spec fn untimed(t: TokenView) -> EventView {
    (None, t)
}

/// The views of a sequence of messages.
pub open spec fn msgs_view(v: Seq<ParserMsg>) -> Seq<EventView> {
    v.map_values(|m: ParserMsg| m@)
}

} // verus!
