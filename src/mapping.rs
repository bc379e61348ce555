//! Mapping from stable network player ids to ingame player ids.

use vstd::prelude::*;
use crate::results::PlayerSlot;

verus! {

/// Number of network player ids.
pub const MAX_STORM_PLAYERS: usize = 8;

/// The ingame slot, among the first `n` of `ids`, that holds network id `s`:
/// the last such slot, since a later slot overrides an earlier one.
pub open spec fn slot_of(ids: Seq<u8>, s: int, n: nat) -> Option<u8>
    decreases n,
{
    if n == 0 {
        None
    } else if ids[n - 1] as int == s {
        Some((n - 1) as u8)
    } else {
        slot_of(ids, s, (n - 1) as nat)
    }
}

/// The network ids that the player slots declare, slot by slot.
pub open spec fn storm_ids(players: Seq<PlayerSlot>) -> Seq<u8> {
    players.map_values(|p: PlayerSlot| p.storm_id)
}

/// Whether `m` maps each network id to the ingame slot that holds it.
pub open spec fn is_player_mapping(players: Seq<PlayerSlot>, m: Seq<Option<u8>>) -> bool {
    &&& m.len() == MAX_STORM_PLAYERS
    &&& forall|s: int| 0 <= s < MAX_STORM_PLAYERS ==> #[trigger] m[s] == slot_of(storm_ids(players), s, 8)
}

/// Builds the network id -> ingame player id mapping from the eight player slots.
/// Network ids out of range are ignored; an id that no slot holds stays absent.
pub fn player_mapping(players: &[PlayerSlot; 8]) -> (r: [Option<u8>; MAX_STORM_PLAYERS])
    ensures
        is_player_mapping(players@, r@),
{
    let mut mapping: [Option<u8>; MAX_STORM_PLAYERS] = [None; MAX_STORM_PLAYERS];
    let ghost ids = storm_ids(players@);
    let mut i: usize = 0;
    while i < 8
        invariant
            0 <= i <= 8,
            ids == storm_ids(players@),
            ids.len() == 8,
            forall|s: int| 0 <= s < MAX_STORM_PLAYERS ==> #[trigger] mapping@[s] == slot_of(ids, s, i as nat),
        decreases 8 - i,
    {
        let storm_id = players[i].storm_id;
        if (storm_id as usize) < MAX_STORM_PLAYERS {
            mapping[storm_id as usize] = Some(i as u8);
        }
        i = i + 1;
    }
    mapping
}

} // verus!
