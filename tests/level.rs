use rm_core::{GatherItem, ItemIdentifier, Level, Rundown, Token, Zone, ZoneKey};

fn zone(alias: u32, dimension: &str) -> Zone {
    Zone {
        alias,
        local: alias - 9,
        dimension: dimension.to_string(),
        layer: "MainLayer".to_string(),
        area: None,
    }
}

fn log() -> Vec<Token> {
    vec![
        Token::Seeds(1, 2, 3),
        Token::Expedition(Rundown::R8, "C".to_string(), 2),
        Token::Zone(zone(10, "Reality")),
        Token::Zone(zone(11, "Reality")),
        Token::Gatherable(
            Some(ZoneKey { alias: 11, dimension: "Reality".to_string() }),
            GatherItem::Key("KEY".to_string(), "Reality".to_string(), 11, 4),
        ),
        Token::Gatherable(
            Some(ZoneKey { alias: 11, dimension: "Dimension_1".to_string() }),
            GatherItem::Key("KEY2".to_string(), "Dimension_1".to_string(), 11, 5),
        ),
        Token::Gatherable(None, GatherItem::HSU(3)),
        Token::Uncategorized(ItemIdentifier::Cell, 1),
    ]
}

fn replay(level: &mut Level, log: Vec<Token>) {
    for t in log {
        level.apply(t);
    }
}

fn summary(l: &Level) -> String {
    format!("{:?}", l)
}

#[test]
fn apply_folds_each_event() {
    let mut l = Level::new();
    replay(&mut l, log());
    assert_eq!(l.seeds, Some((1, 2, 3)));
    assert_eq!(l.rundown, Some(Rundown::R8));
    assert_eq!(l.tier, Some("C".to_string()));
    assert_eq!(l.exp, Some(2));
    assert_eq!(l.zones.len(), 2);
    assert_eq!(l.gatherable_items.len(), 1);
    assert_eq!(l.gatherable_items[0].0, zone(11, "Reality"));
    assert_eq!(
        l.gatherables,
        vec![
            GatherItem::Key("KEY2".to_string(), "Dimension_1".to_string(), 11, 5),
            GatherItem::HSU(3)
        ]
    );
    assert_eq!(l.uncategorized, vec![ItemIdentifier::Cell]);
}

#[test]
fn reset_clears_the_level() {
    let mut l = Level::new();
    replay(&mut l, log());
    l.apply(Token::Reset);
    assert_eq!(summary(&l), summary(&Level::new()));
}

#[test]
fn replay_after_reset_gives_the_same_level() {
    let mut once = Level::new();
    replay(&mut once, log());
    let mut twice = Level::new();
    replay(&mut twice, log());
    twice.apply(Token::Reset);
    replay(&mut twice, log());
    assert_eq!(summary(&once), summary(&twice));
}

#[test]
fn level_label_reads_rundown_tier_and_number() {
    let mut l = Level::new();
    assert_eq!(l.label(), "None");
    replay(&mut l, log());
    assert_eq!(l.label(), "R8C2");
    l.apply(Token::Expedition(Rundown::Tutorial, "A".to_string(), 1));
    assert_eq!(l.label(), "Tutorial");
}

#[test]
fn zone_lookup_by_alias_and_dimension() {
    let mut l = Level::new();
    replay(&mut l, log());
    assert_eq!(l.zone(11, &"Reality".to_string()), Some(&zone(11, "Reality")));
    assert_eq!(l.zone(11, &"Dimension_1".to_string()), None);
    assert_eq!(l.zone_by_alias(10), Some(&zone(10, "Reality")));
    assert_eq!(l.zone_by_alias(99), None);
}
