//! The game's setup information, which the session layer hands over once.

use vstd::prelude::*;
use std::sync::Arc;
use once_cell::sync::OnceCell;

verus! {

/// Kind of game being played.
#[derive(Debug, Eq, PartialEq, Copy, Clone, Structural)]
pub enum GameType {
    Melee,
    FreeForAll,
    OneOnOne,
    TopVsBottom,
    TeamMelee,
    TeamFreeForAll,
    UseMapSettings,
}

impl GameType {
    /// Whether this is a user-mod-scenario game.
    pub fn is_ums(&self) -> (r: bool)
        ensures
            r == (*self == GameType::UseMapSettings),
    {
        match self {
            GameType::UseMapSettings => true,
            _ => false,
        }
    }
}

/// What the setup says of the map.
#[derive(Debug, Eq, PartialEq, Copy, Clone, Structural)]
pub struct MapInfo {
    /// Absent where the session did not say.
    pub is_replay: Option<bool>,
}

/// Game type, replay flag and map, as the session layer sends them.
#[derive(Debug, Eq, PartialEq, Copy, Clone, Structural)]
pub struct GameSetupInfo {
    pub game_type: Option<GameType>,
    pub map: MapInfo,
}

impl GameSetupInfo {
    pub fn game_type(&self) -> (r: Option<GameType>)
        ensures
            r == self.game_type,
    {
        self.game_type
    }
}

/// A setup that makes this a user-mod-scenario game.
pub open spec fn setup_is_ums(s: Option<GameSetupInfo>) -> bool {
    match s {
        Some(info) => info.game_type == Some(GameType::UseMapSettings),
        None => false,
    }
}

/// A setup that makes this a replay.
pub open spec fn setup_is_replay(s: Option<GameSetupInfo>) -> bool {
    match s {
        Some(info) => info.map.is_replay == Some(true),
        None => false,
    }
}

#[verifier::external_type_specification]
#[verifier::external_body]
#[verifier::reject_recursive_types(T)]
pub struct ExOnceCell<T>(OnceCell<T>);

/// What a setup cell holds: nothing until it is first set.
pub uninterp spec fn setup_cell_value(c: OnceCell<Arc<GameSetupInfo>>) -> Option<GameSetupInfo>;

/// Relies on `once_cell::sync::OnceCell::new`: the new cell is empty.
#[verifier::external_body]
pub(crate) fn setup_cell_new() -> (c: OnceCell<Arc<GameSetupInfo>>)
    ensures
        setup_cell_value(c) is None,
{
    OnceCell::new()
}

/// Relies on `once_cell::sync::OnceCell::set`: it succeeds exactly when the cell was
/// empty, and then the cell holds the value; a full cell keeps what it held.
#[verifier::external_body]
pub(crate) fn setup_cell_set(c: &mut OnceCell<Arc<GameSetupInfo>>, v: Arc<GameSetupInfo>) -> (r: bool)
    ensures
        r == (setup_cell_value(*old(c)) is None),
        setup_cell_value(*final(c)) == (if r { Some(*v) } else { setup_cell_value(*old(c)) }),
{
    c.set(v).is_ok()
}

/// Relies on `once_cell::sync::OnceCell::get`: the value, where the cell holds one.
#[verifier::external_body]
pub(crate) fn setup_cell_get(c: &OnceCell<Arc<GameSetupInfo>>) -> (r: Option<&Arc<GameSetupInfo>>)
    ensures
        match r {
            Some(a) => setup_cell_value(*c) == Some(**a),
            None => setup_cell_value(*c) is None,
        },
{
    c.get()
}

} // verus!
