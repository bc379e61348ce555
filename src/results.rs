//! The results snapshot that the game thread builds when a game ends.

use vstd::prelude::*;

verus! {

/// Milliseconds that one simulation frame lasts at the fastest game speed.
pub const FRAME_MS: u32 = 42;

/// Why a player lost, where the simulation records a special reason.
#[derive(Debug, Eq, PartialEq, Copy, Clone, Structural)]
pub enum PlayerLoseType {
    UnknownChecksumMismatch,
    UnknownDisconnect,
}

/// What the simulation's lose-reason code means.
pub open spec fn lose_type_spec(code: u8) -> Option<PlayerLoseType> {
    if code == 1 {
        Some(PlayerLoseType::UnknownChecksumMismatch)
    } else if code == 2 {
        Some(PlayerLoseType::UnknownDisconnect)
    } else {
        None
    }
}

/// Elapsed time of a game of `frames` frames, saturated at `u32::MAX`.
pub open spec fn time_ms_spec(frames: u32) -> u32 {
    if frames * FRAME_MS <= u32::MAX {
        (frames * FRAME_MS) as u32
    } else {
        u32::MAX
    }
}

/// Maps a lose-reason code: 1 and 2 have a meaning, every other code has none.
pub fn lose_type_from_code(code: u8) -> (r: Option<PlayerLoseType>)
    ensures
        r == lose_type_spec(code),
{
    match code {
        1 => Some(PlayerLoseType::UnknownChecksumMismatch),
        2 => Some(PlayerLoseType::UnknownDisconnect),
        _ => None,
    }
}

/// Game time in milliseconds, assuming the fastest game speed.
pub fn time_ms_from_frames(frames: u32) -> (r: u32)
    ensures
        r == time_ms_spec(frames),
{
    if frames <= u32::MAX / FRAME_MS {
        frames * FRAME_MS
    } else {
        u32::MAX
    }
}

/// The fields of the simulation's game record that the results are read from.
#[derive(Debug, Clone, Copy)]
pub struct GameState {
    /// Indexed by ingame player id.
    pub victory_state: [u8; 8],
    /// Indexed by network player id; nonzero where the player has left.
    pub player_has_left: [u8; 8],
    pub player_lose_type: u8,
    pub frame_count: u32,
}

/// One ingame player slot of the simulation.
#[derive(Debug, Clone, Copy)]
pub struct PlayerSlot {
    pub race: u8,
    /// The stable network player id that occupies this slot.
    pub storm_id: u8,
}

/// Immutable snapshot of how a game ended.
#[derive(Debug, Clone, Copy)]
pub struct GameThreadResults {
    /// Indexed by ingame player id.
    pub victory_state: [u8; 8],
    pub race: [u8; 8],
    /// Indexed by network player id.
    pub player_has_left: [bool; 8],
    pub player_lose_type: Option<PlayerLoseType>,
    pub time_ms: u32,
}

/// Whether `r` is exactly the snapshot of `game` and `players`.
pub open spec fn results_of(game: GameState, players: Seq<PlayerSlot>, r: GameThreadResults) -> bool {
    &&& r.victory_state@ == game.victory_state@
    &&& forall|i: int| 0 <= i < 8 ==> #[trigger] r.race@[i] == players[i].race
    &&& forall|i: int| 0 <= i < 8 ==> #[trigger] r.player_has_left@[i] == (game.player_has_left@[i] != 0)
    &&& r.player_lose_type == lose_type_spec(game.player_lose_type)
    &&& r.time_ms == time_ms_spec(game.frame_count)
}

/// Builds the results snapshot from the game record and the eight player slots.
pub fn game_results(game: &GameState, players: &[PlayerSlot; 8]) -> (r: GameThreadResults)
    ensures
        results_of(*game, players@, r),
{
    let left = &game.player_has_left;
    GameThreadResults {
        victory_state: game.victory_state,
        race: [
            players[0].race,
            players[1].race,
            players[2].race,
            players[3].race,
            players[4].race,
            players[5].race,
            players[6].race,
            players[7].race,
        ],
        player_has_left: [
            left[0] != 0,
            left[1] != 0,
            left[2] != 0,
            left[3] != 0,
            left[4] != 0,
            left[5] != 0,
            left[6] != 0,
            left[7] != 0,
        ],
        player_lose_type: lose_type_from_code(game.player_lose_type),
        time_ms: time_ms_from_frames(game.frame_count),
    }
}

} // verus!
