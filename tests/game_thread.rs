use std::sync::Arc;

use game_thread::context::{
    after_init_game_data, after_step_game, is_replay, is_ums, send_game_msg_to_async, GameAction,
    GameThreadContext,
};
use game_thread::fog::{fog_sprites_to_restore, neutral_buildings, FogSprite, UnitInfo, NEUTRAL_PLAYER};
use game_thread::mapping::player_mapping;
use game_thread::messages::GameThreadMessage;
use game_thread::requests::{submit, GameThreadRequest, GameThreadRequestType, SubmitError};
use game_thread::results::{
    game_results, lose_type_from_code, time_ms_from_frames, GameState, PlayerLoseType, PlayerSlot,
};
use game_thread::setup::{GameSetupInfo, GameType, MapInfo};

fn slots(storm_ids: [u8; 8]) -> [PlayerSlot; 8] {
    let mut out = [PlayerSlot { race: 0, storm_id: 0 }; 8];
    for i in 0..8 {
        out[i] = PlayerSlot { race: i as u8, storm_id: storm_ids[i] };
    }
    out
}

fn setup(game_type: Option<GameType>, is_replay: Option<bool>) -> Arc<GameSetupInfo> {
    Arc::new(GameSetupInfo { game_type, map: MapInfo { is_replay } })
}

fn building(x: i16, y: i16, unit_id: u16) -> UnitInfo {
    UnitInfo { player: NEUTRAL_PLAYER, is_landed_building: true, x, y, unit_id }
}

fn units() -> Vec<UnitInfo> {
    vec![
        building(10, 20, 176),
        UnitInfo { player: 0, is_landed_building: true, x: 5, y: 5, unit_id: 106 },
        building(30, 40, 188),
        UnitInfo { player: NEUTRAL_PLAYER, is_landed_building: false, x: 7, y: 7, unit_id: 176 },
        building(10, 20, 176),
        building(50, 60, 176),
    ]
}

#[test]
fn player_mapping_follows_storm_ids() {
    let m = player_mapping(&slots([2, 0, 1, 3, 255, 255, 255, 255]));
    assert_eq!(m, [Some(1), Some(2), Some(0), Some(3), None, None, None, None]);
}

#[test]
fn player_mapping_later_slot_wins() {
    let m = player_mapping(&slots([0, 0, 9, 255, 255, 255, 255, 1]));
    assert_eq!(m, [Some(1), Some(7), None, None, None, None, None, None]);
}

#[test]
fn time_ms_values() {
    assert_eq!(time_ms_from_frames(100), 4200);
    assert_eq!(time_ms_from_frames(0), 0);
    assert_eq!(time_ms_from_frames(u32::MAX), u32::MAX);
    assert_eq!(time_ms_from_frames(u32::MAX / 42), (u32::MAX / 42) * 42);
    assert_eq!(time_ms_from_frames(u32::MAX / 42 + 1), u32::MAX);
}

#[test]
fn lose_type_codes() {
    assert_eq!(lose_type_from_code(0), None);
    assert_eq!(lose_type_from_code(1), Some(PlayerLoseType::UnknownChecksumMismatch));
    assert_eq!(lose_type_from_code(2), Some(PlayerLoseType::UnknownDisconnect));
    assert_eq!(lose_type_from_code(3), None);
    assert_eq!(lose_type_from_code(255), None);
}

#[test]
fn results_snapshot() {
    let game = GameState {
        victory_state: [1, 2, 3, 4, 5, 6, 7, 8],
        player_has_left: [0, 1, 0, 2, 0, 0, 0, 255],
        player_lose_type: 2,
        frame_count: 100,
    };
    let r = game_results(&game, &slots([0; 8]));
    assert_eq!(r.victory_state, [1, 2, 3, 4, 5, 6, 7, 8]);
    assert_eq!(r.race, [0, 1, 2, 3, 4, 5, 6, 7]);
    assert_eq!(r.player_has_left, [false, true, false, true, false, false, false, true]);
    assert_eq!(r.player_lose_type, Some(PlayerLoseType::UnknownDisconnect));
    assert_eq!(r.time_ms, 4200);
}

#[test]
fn fog_restore_skips_present_and_duplicates() {
    let markers = vec![FogSprite { x: 30, y: 40, unit_id: 188 }];
    assert_eq!(fog_sprites_to_restore(&markers, &units()), vec![0, 5]);
}

#[test]
fn fog_restore_twice_adds_nothing() {
    let u = units();
    let mut markers = vec![FogSprite { x: 30, y: 40, unit_id: 188 }];
    let first = fog_sprites_to_restore(&markers, &u);
    for i in first {
        markers.push(FogSprite { x: u[i].x, y: u[i].y, unit_id: u[i].unit_id });
    }
    assert_eq!(fog_sprites_to_restore(&markers, &u), Vec::<usize>::new());
}

#[test]
fn fog_restore_empty_inputs() {
    assert_eq!(fog_sprites_to_restore(&Vec::new(), &Vec::new()), Vec::<usize>::new());
    assert_eq!(fog_sprites_to_restore(&Vec::new(), &units()), vec![0, 2, 5]);
}

#[test]
fn neutral_buildings_listed() {
    assert_eq!(neutral_buildings(&units()), vec![0, 2, 4, 5]);
}

#[test]
fn setup_defaults_before_write() {
    let ctx = GameThreadContext::new(None, None);
    assert!(!is_ums(&ctx));
    assert!(!is_replay(&ctx));
}

#[test]
fn setup_first_write_wins() {
    let mut ctx = GameThreadContext::new(None, None);
    let a = ctx.handle_game_request(GameThreadRequestType::SetupInfo(setup(Some(GameType::Melee), Some(true))));
    assert_eq!(a, GameAction::Nothing);
    assert!(is_replay(&ctx));
    assert!(!is_ums(&ctx));
    let b = ctx.handle_game_request(GameThreadRequestType::SetupInfo(setup(
        Some(GameType::UseMapSettings),
        Some(false),
    )));
    assert_eq!(b, GameAction::Nothing);
    assert!(is_replay(&ctx));
    assert!(!is_ums(&ctx));
}

#[test]
fn setup_ums_and_unknown_replay() {
    let mut ctx = GameThreadContext::new(None, None);
    ctx.handle_game_request(GameThreadRequestType::SetupInfo(setup(Some(GameType::UseMapSettings), None)));
    assert!(is_ums(&ctx));
    assert!(!is_replay(&ctx));
}

#[test]
fn game_type_ums() {
    assert!(GameType::UseMapSettings.is_ums());
    assert!(!GameType::Melee.is_ums());
    assert!(!GameType::TopVsBottom.is_ums());
}

#[test]
fn request_dispatch_actions() {
    let mut ctx = GameThreadContext::new(None, None);
    assert_eq!(ctx.handle_game_request(GameThreadRequestType::Initialize), GameAction::InitEngine);
    assert_eq!(ctx.handle_game_request(GameThreadRequestType::RunWndProc), GameAction::RunWndProc);
    assert_eq!(ctx.handle_game_request(GameThreadRequestType::StartGame), GameAction::RunGame);
    assert_eq!(ctx.handle_game_request(GameThreadRequestType::ExitCleanup), GameAction::CleanUpForExit);
    assert!(!is_replay(&ctx));
}

#[test]
fn send_without_sender_is_dropped() {
    let ctx = GameThreadContext::new(None, None);
    assert!(!send_game_msg_to_async(&ctx, GameThreadMessage::WindowMove(1, 2)));
}

#[test]
fn send_without_listener_does_not_fail() {
    let (send, recv) = tokio::sync::mpsc::unbounded_channel();
    drop(recv);
    let ctx = GameThreadContext::new(Some(send), None);
    assert!(!send_game_msg_to_async(&ctx, GameThreadMessage::WindowMove(1, 2)));
}

#[test]
fn events_arrive_in_publish_order() {
    let (send, mut recv) = tokio::sync::mpsc::unbounded_channel();
    let ctx = GameThreadContext::new(Some(send), None);
    assert!(send_game_msg_to_async(&ctx, GameThreadMessage::WindowMove(1, 2)));
    assert!(send_game_msg_to_async(&ctx, GameThreadMessage::Snp(vec![7, 8])));
    assert!(send_game_msg_to_async(&ctx, GameThreadMessage::WindowMove(3, 4)));
    assert!(matches!(recv.try_recv(), Ok(GameThreadMessage::WindowMove(1, 2))));
    match recv.try_recv() {
        Ok(GameThreadMessage::Snp(bytes)) => assert_eq!(bytes, vec![7, 8]),
        _ => panic!("expected a network message"),
    }
    assert!(matches!(recv.try_recv(), Ok(GameThreadMessage::WindowMove(3, 4))));
    assert!(recv.try_recv().is_err());
}

#[test]
fn results_are_reported() {
    let (send, mut recv) = tokio::sync::mpsc::unbounded_channel();
    let ctx = GameThreadContext::new(Some(send), None);
    let game = GameState {
        victory_state: [0; 8],
        player_has_left: [0; 8],
        player_lose_type: 1,
        frame_count: 0,
    };
    let r = ctx.report_game_results(&game, &slots([0; 8]));
    assert_eq!(r.time_ms, 0);
    match recv.try_recv() {
        Ok(GameThreadMessage::Results(sent)) => {
            assert_eq!(sent.player_lose_type, Some(PlayerLoseType::UnknownChecksumMismatch));
            assert_eq!(sent.time_ms, 0);
        }
        _ => panic!("expected results"),
    }
}

#[test]
fn init_game_data_sends_mapping() {
    let (send, mut recv) = tokio::sync::mpsc::unbounded_channel();
    let ctx = GameThreadContext::new(Some(send), None);
    let fog = after_init_game_data(&ctx, &slots([2, 0, 1, 3, 255, 255, 255, 255]), &units());
    assert_eq!(fog, vec![0, 2, 4, 5]);
    match recv.try_recv() {
        Ok(GameThreadMessage::PlayersRandomized(m)) => {
            assert_eq!(m, [Some(1), Some(2), Some(0), Some(3), None, None, None, None])
        }
        _ => panic!("expected the player mapping"),
    }
}

#[test]
fn init_game_data_ums_has_no_fog() {
    let mut ctx = GameThreadContext::new(None, None);
    ctx.handle_game_request(GameThreadRequestType::SetupInfo(setup(Some(GameType::UseMapSettings), None)));
    assert_eq!(after_init_game_data(&ctx, &slots([0; 8]), &units()), Vec::<usize>::new());
}

#[test]
fn step_game_restores_in_replay_only() {
    let markers = vec![FogSprite { x: 10, y: 20, unit_id: 176 }];
    let mut ctx = GameThreadContext::new(None, None);
    assert_eq!(after_step_game(&ctx, &markers, &units()), Vec::<usize>::new());
    ctx.handle_game_request(GameThreadRequestType::SetupInfo(setup(Some(GameType::Melee), Some(true))));
    assert_eq!(after_step_game(&ctx, &markers, &units()), vec![2, 5]);
}

#[test]
fn step_game_ums_replay_restores_nothing() {
    let mut ctx = GameThreadContext::new(None, None);
    ctx.handle_game_request(GameThreadRequestType::SetupInfo(setup(Some(GameType::UseMapSettings), Some(true))));
    assert_eq!(after_step_game(&ctx, &Vec::new(), &units()), Vec::<usize>::new());
}

#[test]
fn request_receiver_taken_once() {
    let (_send, recv) = std::sync::mpsc::channel::<GameThreadRequest>();
    let mut ctx = GameThreadContext::new(None, Some(recv));
    assert!(ctx.take_request_receiver().is_some());
    assert!(ctx.take_request_receiver().is_none());
}

#[test]
fn submit_after_consumer_gone() {
    let (send, recv) = std::sync::mpsc::channel::<GameThreadRequest>();
    drop(recv);
    assert_eq!(submit(&send, GameThreadRequestType::Initialize).err(), Some(SubmitError::ConsumerGone));
}

#[test]
fn completions_follow_submission_order() {
    let (send, recv) = std::sync::mpsc::channel::<GameThreadRequest>();
    let mut waits = Vec::new();
    waits.push(submit(&send, GameThreadRequestType::Initialize).ok().unwrap());
    waits.push(submit(&send, GameThreadRequestType::StartGame).ok().unwrap());
    waits.push(submit(&send, GameThreadRequestType::ExitCleanup).ok().unwrap());
    let mut ctx = GameThreadContext::new(None, None);
    let expected = [GameAction::InitEngine, GameAction::RunGame, GameAction::CleanUpForExit];
    for (i, action) in expected.iter().enumerate() {
        let (kind, done) = recv.try_recv().ok().unwrap().into_parts();
        assert_eq!(ctx.handle_game_request(kind), *action);
        assert!(waits[i].try_recv().is_err());
        assert!(done.signal());
        assert!(waits[i].try_recv().is_ok());
        for later in waits.iter_mut().skip(i + 1) {
            assert!(later.try_recv().is_err());
        }
    }
    assert!(recv.try_recv().is_err());
}

#[test]
fn producers_keep_their_own_order() {
    let (send_a, recv) = std::sync::mpsc::channel::<GameThreadRequest>();
    let send_b = send_a.clone();
    submit(&send_a, GameThreadRequestType::Initialize).ok().unwrap();
    submit(&send_b, GameThreadRequestType::RunWndProc).ok().unwrap();
    submit(&send_a, GameThreadRequestType::StartGame).ok().unwrap();
    submit(&send_b, GameThreadRequestType::ExitCleanup).ok().unwrap();
    let mut ctx = GameThreadContext::new(None, None);
    let mut seen = Vec::new();
    while let Ok(req) = recv.try_recv() {
        let (kind, done) = req.into_parts();
        seen.push(ctx.handle_game_request(kind));
        done.signal();
    }
    let a: Vec<GameAction> =
        seen.iter().copied().filter(|x| *x == GameAction::InitEngine || *x == GameAction::RunGame).collect();
    let b: Vec<GameAction> =
        seen.iter().copied().filter(|x| *x == GameAction::RunWndProc || *x == GameAction::CleanUpForExit).collect();
    assert_eq!(a, vec![GameAction::InitEngine, GameAction::RunGame]);
    assert_eq!(b, vec![GameAction::RunWndProc, GameAction::CleanUpForExit]);
    assert_eq!(seen.len(), 4);
}

#[test]
fn completion_without_waiter_is_fine() {
    let (req, wait) = GameThreadRequest::new(GameThreadRequestType::ExitCleanup);
    drop(wait);
    let (kind, done) = req.into_parts();
    assert!(matches!(kind, GameThreadRequestType::ExitCleanup));
    assert!(!done.signal());
}
