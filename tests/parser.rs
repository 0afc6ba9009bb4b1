use rm_core::{ClockTime, GatherItem, Parser, ParserMsg, Phase, Rundown, TailMsg, Token, Zone, ZoneKey};

const SEEDS: &str = "12:00:00.000 - <color=#C84800>Builder.Build</color> buildSeed: 123 hostIDSeed: 456 sessionSeed: 789\n";

fn session_log() -> String {
    let mut s = String::new();
    s.push_str(SEEDS);
    s.push_str("12:00:01.000 - DropServerManager SelectActiveExpedition : Local_35_TierC_2 selected\n");
    s.push_str("Next Batch: SetupFloor\n");
    for (alias, local) in [(10, 0), (11, 1), (12, 2)] {
        s.push_str(&format!("LG_Floor.CreateZone, Alias: {alias} aliasOffset: Zone_{local}\n"));
        s.push_str("LG_Zone Zone Created in Reality MainLayer\n");
    }
    s.push_str("12:00:02.000 - Last Batch: SetupFloor\n");
    s.push_str("Next Batch: Distribution\n");
    s.push_str("CreateKeyItemDistribution PublicName: KEY_RED_123 DimensionIndex: Reality LocalIndex: Zone_1\n");
    s.push_str("something in between\n");
    s.push_str("TryGetExistingGenericFunctionDistributionForSession ZONE11 ri: 42\n");
    s.push_str("DistributeObjective zone ZONE10 Index: 0\n");
    s.push_str("picked itemID: 128\n");
    s.push_str("HSU for HydroStatisUnit for wardenObjectiveType zone: 11, Area: 3_A B\n");
    s.push_str("Last Batch: Distribution\n");
    s.push_str("Next Batch: FunctionMarkers\n");
    s.push_str("Spawning Personnel pickup Key: Locker_12\n");
    s.push_str("item seed: 555\n");
    s.push_str("Spawning Personnel pickup Key: Locker_13\n");
    s.push_str("item seed: 556\n");
    s.push_str("Last Batch: FunctionMarkers\n");
    s
}

fn tokens_of(p: &mut Parser, text: &str) -> Vec<Token> {
    p.feed(text).into_iter().map(|m| m.1).collect()
}

fn zone(alias: u32, local: u32) -> Token {
    Token::Zone(Zone {
        alias,
        local,
        dimension: "Reality".to_string(),
        layer: "MainLayer".to_string(),
        area: None,
    })
}

fn expected_session() -> Vec<Token> {
    vec![
        Token::Seeds(123, 456, 789),
        Token::Expedition(Rundown::R8, "C".to_string(), 2),
        zone(10, 0),
        zone(11, 1),
        zone(12, 2),
        Token::Gatherable(
            Some(ZoneKey { alias: 11, dimension: "Reality".to_string() }),
            GatherItem::Key("KEY_RED_123".to_string(), "Reality".to_string(), 11, 42),
        ),
        Token::Gatherable(None, GatherItem::HSU(3)),
        Token::Gatherable(None, GatherItem::ID("Locker_12".to_string(), 555)),
        Token::Gatherable(None, GatherItem::Seeded("Locker_13".to_string(), 556)),
    ]
}

#[test]
fn seeds_line_gives_one_seeds_event() {
    let mut p = Parser::new();
    let out = tokens_of(&mut p, SEEDS);
    assert_eq!(out, vec![Token::Seeds(123, 456, 789)]);
    assert_eq!(p.phase(), Phase::AwaitSessionSelect);
}

#[test]
fn seeds_line_with_largest_values() {
    let mut p = Parser::new();
    let out = tokens_of(&mut p, "Builder.Build buildSeed: 4294967295 hostIDSeed: 0 sessionSeed: 7\n");
    assert_eq!(out, vec![Token::Seeds(4294967295, 0, 7)]);
}

#[test]
fn seeds_value_too_large_is_skipped() {
    let mut p = Parser::new();
    let out = tokens_of(&mut p, "Builder.Build buildSeed: 4294967296 hostIDSeed: 0 sessionSeed: 7\n");
    assert!(out.is_empty());
    assert_eq!(p.phase(), Phase::AwaitSeeds);
}

#[test]
fn incomplete_line_waits_for_its_newline() {
    let mut p = Parser::new();
    let out = tokens_of(&mut p, SEEDS.trim_end());
    assert!(out.is_empty());
    let out = tokens_of(&mut p, "\n");
    assert_eq!(out, vec![Token::Seeds(123, 456, 789)]);
}

#[test]
fn carriage_return_is_not_part_of_the_line() {
    let mut p = Parser::new();
    let out = tokens_of(&mut p, "Builder.Build buildSeed: 1 hostIDSeed: 2 sessionSeed: 3\r\n");
    assert_eq!(out, vec![Token::Seeds(1, 2, 3)]);
}

#[test]
fn whole_session_in_one_delta() {
    let mut p = Parser::new();
    let out = tokens_of(&mut p, &session_log());
    assert_eq!(out, expected_session());
    assert_eq!(p.phase(), Phase::AwaitElevatorOrFinish);
}

#[test]
fn zones_come_in_file_order() {
    let mut p = Parser::new();
    let out = tokens_of(&mut p, &session_log());
    let aliases: Vec<u32> = out
        .iter()
        .filter_map(|t| match t {
            Token::Zone(z) => Some(z.alias),
            _ => None,
        })
        .collect();
    assert_eq!(aliases, vec![10, 11, 12]);
}

#[test]
fn zones_wait_for_the_batch_end() {
    let mut p = Parser::new();
    let log = session_log();
    let cut = log.find("12:00:02.000 - Last Batch").unwrap();
    let first = tokens_of(&mut p, &log[..cut]);
    assert_eq!(first, expected_session()[..2].to_vec());
    let rest = tokens_of(&mut p, &log[cut..]);
    assert_eq!(rest, expected_session()[2..].to_vec());
}

#[test]
fn byte_by_byte_delivery_matches_one_delta() {
    let log = session_log();
    let mut p = Parser::new();
    let mut out = Vec::new();
    for c in log.chars() {
        out.extend(tokens_of(&mut p, &c.to_string()));
    }
    assert_eq!(out, expected_session());
}

#[test]
fn split_delivery_at_every_point_matches_one_delta() {
    let log = session_log();
    for cut in (0..log.len()).step_by(7) {
        let mut p = Parser::new();
        let mut out = tokens_of(&mut p, &log[..cut]);
        out.extend(tokens_of(&mut p, &log[cut..]));
        assert_eq!(out, expected_session());
    }
}

#[test]
fn expedition_index_r8_tier_c_is_kept() {
    let mut p = Parser::new();
    tokens_of(&mut p, SEEDS);
    let out = tokens_of(&mut p, "SelectActiveExpedition : Local_35_TierC_2\n");
    assert_eq!(out, vec![Token::Expedition(Rundown::R8, "C".to_string(), 2)]);
}

#[test]
fn expedition_index_r8_tier_b_is_shifted() {
    let mut p = Parser::new();
    tokens_of(&mut p, SEEDS);
    let out = tokens_of(&mut p, "SelectActiveExpedition : Local_35_TierB_2\n");
    assert_eq!(out, vec![Token::Expedition(Rundown::R8, "B".to_string(), 3)]);
}

#[test]
fn expedition_index_r1_tier_a_is_shifted() {
    let mut p = Parser::new();
    tokens_of(&mut p, SEEDS);
    let out = tokens_of(&mut p, "SelectActiveExpedition : Local_32_TierA_0\n");
    assert_eq!(out, vec![Token::Expedition(Rundown::R1, "A".to_string(), 1)]);
}

#[test]
fn unknown_rundown_code_is_modded() {
    let mut p = Parser::new();
    tokens_of(&mut p, SEEDS);
    let out = tokens_of(&mut p, "SelectActiveExpedition : Local_99_TierD_1\n");
    assert_eq!(out, vec![Token::Expedition(Rundown::Modded, "D".to_string(), 2)]);
}

#[test]
fn pickup_with_empty_queue_is_seeded() {
    let log = session_log().replace("picked itemID: 128\n", "picked itemID: 131\n");
    let mut p = Parser::new();
    let out = tokens_of(&mut p, &log);
    let items: Vec<Token> = out.into_iter().skip(7).collect();
    assert_eq!(
        items,
        vec![
            Token::Gatherable(None, GatherItem::Seeded("Locker_12".to_string(), 555)),
            Token::Gatherable(None, GatherItem::Seeded("Locker_13".to_string(), 556)),
        ]
    );
}

#[test]
fn data_cube_codes_give_one_kind() {
    let log = session_log().replace("picked itemID: 128\n", "picked itemID: 165\n");
    let mut p = Parser::new();
    let out = tokens_of(&mut p, &log);
    assert_eq!(out[7], Token::Gatherable(None, GatherItem::DataCube("Locker_12".to_string(), 555)));
}

#[test]
fn reset_line_clears_the_parser() {
    let mut p = Parser::new();
    tokens_of(&mut p, SEEDS);
    let out = tokens_of(&mut p, "12:01:00.000 - GAMESTATEMANAGER CHANGE STATE Generating Lobby<color>\n");
    assert_eq!(out, vec![Token::Reset]);
    assert_eq!(p.phase(), Phase::AwaitSeeds);
    assert_eq!(tokens_of(&mut p, SEEDS), vec![Token::Seeds(123, 456, 789)]);
}

#[test]
fn application_quit_resets() {
    let mut p = Parser::new();
    let out = tokens_of(&mut p, "12:01:00.000 - OnApplicationQuit\n");
    assert_eq!(out, vec![Token::Reset]);
}

#[test]
fn other_game_state_does_not_reset() {
    let mut p = Parser::new();
    let out = tokens_of(&mut p, "GAMESTATEMANAGER CHANGE STATE InLevel<color>\n");
    assert!(out.is_empty());
}

#[test]
fn new_file_resets() {
    let mut p = Parser::new();
    tokens_of(&mut p, SEEDS);
    assert_eq!(p.handle(TailMsg::NewFile), Some(vec![ParserMsg(None, Token::Reset)]));
    assert_eq!(p.phase(), Phase::AwaitSeeds);
}

#[test]
fn content_message_is_parsed() {
    let mut p = Parser::new();
    let noon = ClockTime { hour: 12, minute: 0, second: 0, subsec_nanosecond: 0 };
    assert_eq!(
        p.handle(TailMsg::Content(SEEDS.to_string())),
        Some(vec![ParserMsg(Some(noon), Token::Seeds(123, 456, 789))])
    );
}

#[test]
fn stop_message_ends_parsing() {
    let mut p = Parser::new();
    assert_eq!(p.handle(TailMsg::Stop), None);
}

#[test]
fn events_carry_the_time_of_their_line() {
    let mut p = Parser::new();
    let out = p.feed("09:41:07.250 - Builder.Build buildSeed: 1 hostIDSeed: 2 sessionSeed: 3\n");
    let t = ClockTime { hour: 9, minute: 41, second: 7, subsec_nanosecond: 250_000_000 };
    assert_eq!(out, vec![ParserMsg(Some(t), Token::Seeds(1, 2, 3))]);
    let out = p.feed("21:00:00 - SelectActiveExpedition : Local_33_TierB_0\n");
    let t = ClockTime { hour: 21, minute: 0, second: 0, subsec_nanosecond: 0 };
    assert_eq!(out, vec![ParserMsg(Some(t), Token::Expedition(Rundown::R2, "B".to_string(), 1))]);
}

#[test]
fn unstamped_line_has_no_time() {
    let mut p = Parser::new();
    let out = p.feed("Builder.Build buildSeed: 1 hostIDSeed: 2 sessionSeed: 3\n");
    assert_eq!(out, vec![ParserMsg(None, Token::Seeds(1, 2, 3))]);
    let mut p = Parser::new();
    let out = p.feed("noon - Builder.Build buildSeed: 1 hostIDSeed: 2 sessionSeed: 3\n");
    assert_eq!(out, vec![ParserMsg(None, Token::Seeds(1, 2, 3))]);
}

#[test]
fn empty_delta_gives_nothing() {
    let mut p = Parser::new();
    assert!(p.feed("").is_empty());
    assert_eq!(p.phase(), Phase::AwaitSeeds);
}

#[test]
fn lines_outside_their_phase_are_ignored() {
    let mut p = Parser::new();
    let out = tokens_of(&mut p, "SelectActiveExpedition : Local_35_TierC_2\nNext Batch: SetupFloor\n");
    assert!(out.is_empty());
    assert_eq!(p.phase(), Phase::AwaitSeeds);
}

#[test]
fn key_without_its_closing_line_is_not_emitted() {
    let log = session_log().replace(
        "TryGetExistingGenericFunctionDistributionForSession ZONE11 ri: 42\n",
        "",
    );
    let mut p = Parser::new();
    let out = tokens_of(&mut p, &log);
    assert!(!out.iter().any(|t| matches!(t, Token::Gatherable(_, GatherItem::Key(..)))));
}

#[test]
fn oversized_rundown_code_is_modded() {
    let mut p = Parser::new();
    p.feed(SEEDS);
    let out = tokens_of(&mut p, "0 - SelectActiveExpedition : Local_70000_TierA_0\n");
    assert_eq!(out, vec![Token::Expedition(Rundown::Modded, "A".to_string(), 1)]);
    assert_eq!(p.phase(), Phase::AwaitZoneGeneration);
    let mut p = Parser::new();
    p.feed(SEEDS);
    let out = tokens_of(&mut p, "SelectActiveExpedition : Local_123456789012345678901234567890_TierE_2\n");
    assert_eq!(out, vec![Token::Expedition(Rundown::Modded, "E".to_string(), 3)]);
}

#[test]
fn reset_reads_only_the_new_state() {
    let mut p = Parser::new();
    assert!(tokens_of(&mut p, "GAMESTATEMANAGER Lobby< Generating<\n").is_empty());
    assert_eq!(tokens_of(&mut p, "GAMESTATEMANAGER Generating< Lobby<\n"), vec![Token::Reset]);
    assert_eq!(tokens_of(&mut p, "GAMESTATEMANAGER\tExpeditionAbort<x\n"), vec![Token::Reset]);
    assert_eq!(tokens_of(&mut p, "GAMESTATEMANAGER to NoLobby<\n"), vec![Token::Reset]);
    assert_eq!(tokens_of(&mut p, "GAMESTATEMANAGER to AfterLevel<\n"), vec![Token::Reset]);
    assert!(tokens_of(&mut p, "GAMESTATEMANAGER to MyLobby<\n").is_empty());
    assert!(tokens_of(&mut p, "Lobby< GAMESTATEMANAGER\n").is_empty());
}

#[test]
fn seeds_line_with_text_between_and_after_the_fields() {
    let mut p = Parser::new();
    let out = tokens_of(
        &mut p,
        "0 - <color=#C84800>Builder.Build</color> level start: buildSeed: 11 hostIDSeed: 22 sessionSeed: 33 done\n",
    );
    assert_eq!(out, vec![Token::Seeds(11, 22, 33)]);
}

#[test]
fn three_piece_delivery_matches_one_delta() {
    let log = session_log();
    let n = log.len();
    for a in (1..n).step_by(53) {
        for b in (a..n).step_by(97) {
            let mut p = Parser::new();
            let mut out = tokens_of(&mut p, &log[..a]);
            out.extend(tokens_of(&mut p, &log[a..b]));
            out.extend(tokens_of(&mut p, &log[b..]));
            assert_eq!(out, expected_session());
        }
    }
}
