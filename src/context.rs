//! The game thread's context: the slots that connect it to the asynchronous side,
//! the dispatch of requests, and the hooks that the simulation calls.

use vstd::prelude::*;
use std::sync::Arc;
use std::sync::mpsc::Receiver;
use once_cell::sync::OnceCell;
use tokio::sync::mpsc::UnboundedSender;
use crate::fog::{fog_additions, fog_sprites_to_restore, neutral_buildings, neutral_upto, FogSprite, UnitInfo};
use crate::mapping::player_mapping;
use crate::messages::{notify, GameThreadMessage};
use crate::requests::{GameThreadRequest, GameThreadRequestType};
use crate::results::{game_results, results_of, GameState, GameThreadResults, PlayerSlot};
use crate::setup::{
    setup_cell_get, setup_cell_new, setup_cell_set, setup_cell_value, setup_is_replay, setup_is_ums,
    GameSetupInfo,
};

verus! {

/// What the game thread does for a request, beyond what the context does itself.
#[derive(Debug, Eq, PartialEq, Copy, Clone, Structural)]
pub enum GameAction {
    /// One-time engine bootstrap.
    InitEngine,
    /// Service the platform window loop.
    RunWndProc,
    /// Run a game to its end, then report its results.
    RunGame,
    /// Flush settings before the process exits.
    CleanUpForExit,
    /// The context has done all there was to do.
    Nothing,
}

/// The action that a request leads to.
pub open spec fn action_for(request: GameThreadRequestType) -> GameAction {
    match request {
        GameThreadRequestType::Initialize => GameAction::InitEngine,
        GameThreadRequestType::RunWndProc => GameAction::RunWndProc,
        GameThreadRequestType::StartGame => GameAction::RunGame,
        GameThreadRequestType::ExitCleanup => GameAction::CleanUpForExit,
        GameThreadRequestType::SetupInfo(_) => GameAction::Nothing,
    }
}

/// The setup after an attempt to write `info`: the first write stays.
pub open spec fn setup_after(current: Option<GameSetupInfo>, info: GameSetupInfo) -> Option<GameSetupInfo> {
    match current {
        Some(s) => Some(s),
        None => Some(info),
    }
}

/// The slots that the game thread shares with the rest of the process, owned by
/// whoever starts the game thread.
pub struct GameThreadContext {
    /// Where notification events go; absent while nobody listens.
    pub send_from_game_thread: Option<UnboundedSender<GameThreadMessage>>,
    /// Where the game thread receives requests; taken once by the event loop.
    pub receive_requests: Option<Receiver<GameThreadRequest>>,
    /// Written once, by the first setup request.
    pub setup_info: OnceCell<Arc<GameSetupInfo>>,
}

impl GameThreadContext {
    /// The setup information, once it has been written.
    pub open spec fn setup(&self) -> Option<GameSetupInfo> {
        setup_cell_value(self.setup_info)
    }

    /// A context with the given channel ends and no setup information yet.
    pub fn new(
        send_from_game_thread: Option<UnboundedSender<GameThreadMessage>>,
        receive_requests: Option<Receiver<GameThreadRequest>>,
    ) -> (r: GameThreadContext)
        ensures
            r.send_from_game_thread == send_from_game_thread,
            r.receive_requests == receive_requests,
            r.setup() is None,
    {
        GameThreadContext { send_from_game_thread, receive_requests, setup_info: setup_cell_new() }
    }

    /// Hands the request receiver to the event loop, leaving its slot empty.
    pub fn take_request_receiver(&mut self) -> (r: Option<Receiver<GameThreadRequest>>)
        ensures
            r == old(self).receive_requests,
            final(self).receive_requests is None,
            final(self).send_from_game_thread == old(self).send_from_game_thread,
            final(self).setup_info == old(self).setup_info,
    {
        self.receive_requests.take()
    }

    /// Does the context's own part of a request and says what else the game thread
    /// must do. A setup request writes the setup information unless it was written
    /// before, in which case it changes nothing.
    pub fn handle_game_request(&mut self, request: GameThreadRequestType) -> (r: GameAction)
        ensures
            r == action_for(request),
            final(self).send_from_game_thread == old(self).send_from_game_thread,
            final(self).receive_requests == old(self).receive_requests,
            final(self).setup() == (match request {
                GameThreadRequestType::SetupInfo(info) => setup_after(old(self).setup(), *info),
                _ => old(self).setup(),
            }),
    {
        match request {
            GameThreadRequestType::Initialize => GameAction::InitEngine,
            GameThreadRequestType::RunWndProc => GameAction::RunWndProc,
            GameThreadRequestType::StartGame => GameAction::RunGame,
            GameThreadRequestType::ExitCleanup => GameAction::CleanUpForExit,
            GameThreadRequestType::SetupInfo(info) => {
                let _first = setup_cell_set(&mut self.setup_info, info);
                GameAction::Nothing
            },
        }
    }

    /// Builds the results of the game that just ended and sends them as a
    /// notification event.
    pub fn report_game_results(&self, game: &GameState, players: &[PlayerSlot; 8]) -> (r: GameThreadResults)
        ensures
            results_of(*game, players@, r),
    {
        let results = game_results(game, players);
        let _delivered = send_game_msg_to_async(self, GameThreadMessage::Results(results));
        results
    }
}

/// Sends a notification event to the asynchronous side. With no sender
/// installed, or no listener left, the event is dropped: that is no error.
/// The result says whether the event was handed to a live channel.
pub fn send_game_msg_to_async(ctx: &GameThreadContext, message: GameThreadMessage) -> (delivered: bool)
    ensures
        ctx.send_from_game_thread is None ==> !delivered,
{
    match &ctx.send_from_game_thread {
        Some(send) => notify(send, message),
        None => false,
    }
}

/// Whether the setup makes this a user-mod-scenario game; false before setup.
pub fn is_ums(ctx: &GameThreadContext) -> (r: bool)
    ensures
        r == setup_is_ums(ctx.setup()),
{
    match setup_cell_get(&ctx.setup_info) {
        Some(info) => match info.game_type() {
            Some(t) => t.is_ums(),
            None => false,
        },
        None => false,
    }
}

/// Whether the setup makes this a replay; false before setup.
pub fn is_replay(ctx: &GameThreadContext) -> (r: bool)
    ensures
        r == setup_is_replay(ctx.setup()),
{
    match setup_cell_get(&ctx.setup_info) {
        Some(info) => match info.map.is_replay {
            Some(b) => b,
            None => false,
        },
        None => false,
    }
}

/// Runs once the simulation has set up a game's data: sends the network id ->
/// ingame id mapping, and returns the indices of the units that get a fog
/// marker, the neutral buildings, except in a user-mod-scenario game.
pub fn after_init_game_data(ctx: &GameThreadContext, players: &[PlayerSlot; 8], units: &Vec<UnitInfo>) -> (r: Vec<usize>)
    ensures
        r@ == (if setup_is_ums(ctx.setup()) {
            Seq::empty()
        } else {
            neutral_upto(units@, units@.len())
        }),
{
    let mapping = player_mapping(players);
    let _delivered = send_game_msg_to_async(ctx, GameThreadMessage::PlayersRandomized(mapping));
    if !is_ums(ctx) {
        neutral_buildings(units)
    } else {
        Vec::new()
    }
}

/// Runs after each simulation step: in a replay that is not a user-mod-scenario
/// game, returns the indices of the neutral buildings whose fog marker is missing.
pub fn after_step_game(ctx: &GameThreadContext, markers: &Vec<FogSprite>, units: &Vec<UnitInfo>) -> (r: Vec<usize>)
    ensures
        r@ == (if setup_is_replay(ctx.setup()) && !setup_is_ums(ctx.setup()) {
            fog_additions(markers@, units@)
        } else {
            Seq::empty()
        }),
{
    if is_replay(ctx) && !is_ums(ctx) {
        fog_sprites_to_restore(markers, units)
    } else {
        Vec::new()
    }
}

/// Setup information is written once: after a first write, later writes change
/// nothing, whatever they carry.
pub proof fn lemma_setup_write_once(first: GameSetupInfo, later: Seq<GameSetupInfo>)
    ensures
        later.fold_left(setup_after(None, first), |s: Option<GameSetupInfo>, i: GameSetupInfo| setup_after(s, i))
            == Some(first),
    decreases later.len(),
{
    if later.len() > 0 {
        lemma_setup_write_once(first, later.drop_last());
    }
}

} // verus!
