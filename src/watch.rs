//! Which file in the log directory holds the active session.

use vstd::prelude::*;

use crate::text::{chars_of, contains, contains_from};

verus! {

/// A file name that follows the session log's naming convention.
pub open spec fn is_session_log_name(name: Seq<char>) -> bool {
    contains_from(name, "NICKNAME_NETSTATUS"@, 0)
}

/// Whether a file name follows the session log's naming convention.
pub fn is_session_log(name: &str) -> (r: bool)
    ensures
        r == is_session_log_name(name@),
{
    let n = chars_of(name);
    let marker = chars_of("NICKNAME_NETSTATUS");
    contains(n.as_slice(), marker.as_slice())
}

/// Entry `i` is the session log modified most recently, and the first in
/// the list among those modified at that time.
pub open spec fn is_newest_log(entries: Seq<(Seq<char>, u64)>, i: int) -> bool {
    &&& 0 <= i < entries.len()
    &&& is_session_log_name(entries[i].0)
    &&& forall|j: int|
        0 <= j < entries.len() && is_session_log_name(#[trigger] entries[j].0) ==> entries[j].1
            <= entries[i].1
    &&& forall|j: int|
        0 <= j < i && is_session_log_name(#[trigger] entries[j].0) ==> entries[j].1 < entries[i].1
}

pub open spec fn entries_view(entries: Seq<(String, u64)>) -> Seq<(Seq<char>, u64)> {
    entries.map_values(|e: (String, u64)| (e.0@, e.1))
}

/// Of the directory entries (file name, modification time), the session
/// log modified most recently; `None` when no entry is a session log.
pub fn newest_session_log(entries: &Vec<(String, u64)>) -> (r: Option<usize>)
    ensures
        match r {
            Some(i) => is_newest_log(entries_view(entries@), i as int),
            None => forall|j: int|
                0 <= j < entries@.len() ==> !is_session_log_name(
                    #[trigger] entries_view(entries@)[j].0,
                ),
        },
{
    let ghost ev = entries_view(entries@);
    let mut best: Option<usize> = None;
    let mut i: usize = 0;
    while i < entries.len()
        invariant
            i <= entries@.len(),
            ev == entries_view(entries@),
            ev.len() == entries@.len(),
            match best {
                Some(b) => b < i && is_session_log_name(ev[b as int].0) && (forall|j: int|
                    0 <= j < i && is_session_log_name(#[trigger] ev[j].0) ==> ev[j].1 <= ev[b as int].1)
                    && (forall|j: int|
                    0 <= j < b && is_session_log_name(#[trigger] ev[j].0) ==> ev[j].1 < ev[b as int].1),
                None => forall|j: int| 0 <= j < i ==> !is_session_log_name(#[trigger] ev[j].0),
            },
        decreases entries@.len() - i,
    {
        let (name, time) = (&entries[i].0, entries[i].1);
        assert(ev[i as int] == (name@, time));
        if is_session_log(name.as_str()) {
            match best {
                Some(b) => {
                    if time > entries[b].1 {
                        best = Some(i);
                    }
                },
                None => {
                    best = Some(i);
                },
            }
        }
        i = i + 1;
    }
    best
}

} // verus!
