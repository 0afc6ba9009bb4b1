use std::cmp::Ordering;

use rm_core::rundown::corrected_expedition;
use rm_core::watch::{is_session_log, newest_session_log};
use rm_core::{
    GatherItem, InvarianceMethod, ItemIdentifier, Rundown, SeededQueue, Tail, TailAction, TailCmd,
    Record, TailMsg, TimerEntry, Timestamp, Zone,
};

fn zone(alias: u32, layer: &str, dimension: &str) -> Zone {
    Zone {
        alias,
        local: 0,
        dimension: dimension.to_string(),
        layer: layer.to_string(),
        area: None,
    }
}

#[test]
fn expedition_correction_cases() {
    assert_eq!(corrected_expedition(Rundown::R8, 'C', 2), 2);
    assert_eq!(corrected_expedition(Rundown::R8, 'B', 2), 3);
    assert_eq!(corrected_expedition(Rundown::R1, 'A', 0), 1);
    assert_eq!(corrected_expedition(Rundown::R8, 'A', 1), 2);
}

#[test]
fn rundown_codes() {
    assert_eq!(Rundown::from_code(35), Rundown::R8);
    assert_eq!(Rundown::from_code(39), Rundown::Tutorial);
    assert_eq!(Rundown::from_code(36), Rundown::Modded);
    assert_eq!(Rundown::from_repr(36), None);
    assert_eq!(Rundown::from_repr(41), Some(Rundown::R6));
    assert_eq!(Rundown::default(), Rundown::Modded);
    assert_eq!(Rundown::R8.name(), "R8");
}

#[test]
fn item_codes_classify() {
    assert_eq!(ItemIdentifier::classify(128), ItemIdentifier::ID);
    assert_eq!(ItemIdentifier::classify(165), ItemIdentifier::DataCube);
    assert_eq!(ItemIdentifier::classify(168), ItemIdentifier::DataCube);
    assert_eq!(ItemIdentifier::classify(7), ItemIdentifier::Unknown(7));
    assert_eq!(ItemIdentifier::from_repr(165), Some(ItemIdentifier::DataCubeR8));
    assert!(ItemIdentifier::PlantSample.is_seeded_container());
    assert!(!ItemIdentifier::Cell.is_seeded_container());
}

#[test]
fn seeded_queue_pairs_in_order_then_falls_back() {
    let mut q = SeededQueue::new();
    q.offer(153);
    q.offer(131);
    q.offer(169);
    assert_eq!(q.classify_next("A".to_string(), 1), GatherItem::PlantSample("A".to_string(), 1));
    assert_eq!(q.classify_next("B".to_string(), 2), GatherItem::GLP2("B".to_string(), 2));
    assert_eq!(q.classify_next("C".to_string(), 3), GatherItem::Seeded("C".to_string(), 3));
}

#[test]
fn zone_label_and_order() {
    let z = zone(12, "MainLayer", "Reality");
    assert_eq!(z.label(), "ZONE_12 MainLayer Reality");
    assert_eq!(z.compare(&zone(13, "A", "A")), Ordering::Less);
    assert_eq!(z.compare(&zone(12, "MainLayer", "Reality")), Ordering::Equal);
    assert_eq!(z.compare(&zone(12, "MainLayer", "Dimension_1")), Ordering::Greater);
    assert_eq!(z.compare(&zone(12, "SecondaryLayer", "A")), Ordering::Less);
    assert_eq!(z.duplicate(), z);
}

#[test]
fn session_log_names() {
    assert!(is_session_log("GTFO.2024.01.01 12.00.00_NICKNAME_NETSTATUS.txt"));
    assert!(!is_session_log("player.log"));
}

#[test]
fn newest_session_log_wins() {
    let entries = vec![
        ("old_NICKNAME_NETSTATUS.txt".to_string(), 5),
        ("player.log".to_string(), 100),
        ("new_NICKNAME_NETSTATUS.txt".to_string(), 9),
        ("tie_NICKNAME_NETSTATUS.txt".to_string(), 9),
    ];
    assert_eq!(newest_session_log(&entries), Some(2));
    assert_eq!(newest_session_log(&vec![("player.log".to_string(), 1)]), None);
}

#[test]
fn tail_decisions() {
    let mut t = Tail::new();
    assert!(!t.wants_read());
    match t.command(TailCmd::Open("a.txt".to_string())) {
        TailAction::OpenFile(p) => assert_eq!(p, "a.txt"),
        other => panic!("{other:?}"),
    }
    assert!(matches!(t.opened(true), Some(TailMsg::NewFile)));
    assert!(t.wants_read());
    assert!(t.read(Some(String::new())).is_none());
    assert!(matches!(t.read(Some("x".to_string())), Some(TailMsg::Content(s)) if s == "x"));
    assert!(t.read(None).is_none());
    assert!(!t.wants_read());
    assert!(matches!(t.command(TailCmd::ForceUpdate), TailAction::Send(TailMsg::Content(s)) if s.is_empty()));
    assert!(matches!(t.command(TailCmd::Stop), TailAction::SendAndStop(TailMsg::Stop)));
    assert!(t.stopped);
}

#[test]
fn failed_open_stops_the_tailer() {
    let mut t = Tail::new();
    assert!(t.opened(false).is_none());
    assert!(t.stopped);
}

#[test]
fn timer_entries() {
    assert_eq!(InvarianceMethod::default(), InvarianceMethod::All);
    let e = TimerEntry::Invariance(vec![zone(1, "MainLayer", "Reality")], InvarianceMethod::All);
    assert!(matches!(e, TimerEntry::Invariance(ref zs, InvarianceMethod::All) if zs.len() == 1));
}

#[test]
fn records_hold_plain_times() {
    let r = Record {
        time: Timestamp { second: 1_700_000_000, nanosecond: 5 },
        item: Some(GatherItem::HSU(3)),
        zone: None,
    };
    assert_eq!(r.time.second, 1_700_000_000);
    assert_eq!(r.item, Some(GatherItem::HSU(3)));
}
