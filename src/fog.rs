//! Fog-of-war markers for neutral buildings.

use vstd::prelude::*;
use fxhash::FxHashSet;

verus! {

/// The player that owns neutral units (resources, map decorations).
pub const NEUTRAL_PLAYER: u8 = 11;

/// A marker is identified by its position and its unit type.
pub type FogKey = (i16, i16, u16);

/// An existing fog-of-war marker: its sprite's position and the unit type it shows.
#[derive(Debug, Clone, Copy)]
pub struct FogSprite {
    pub x: i16,
    pub y: i16,
    pub unit_id: u16,
}

/// What the reconciliation reads of an active unit.
#[derive(Debug, Clone, Copy)]
pub struct UnitInfo {
    pub player: u8,
    pub is_landed_building: bool,
    /// Position of the unit's sprite.
    pub x: i16,
    pub y: i16,
    pub unit_id: u16,
}

pub open spec fn sprite_key(m: FogSprite) -> FogKey {
    (m.x, m.y, m.unit_id)
}

pub open spec fn unit_key(u: UnitInfo) -> FogKey {
    (u.x, u.y, u.unit_id)
}

/// A neutral building is shown under fog.
pub open spec fn wants_fog(u: UnitInfo) -> bool {
    u.player == NEUTRAL_PLAYER && u.is_landed_building
}

/// Keys of the first `n` markers.
pub open spec fn keys_upto(markers: Seq<FogSprite>, n: nat) -> Set<FogKey>
    decreases n,
{
    if n == 0 {
        Set::empty()
    } else {
        keys_upto(markers, (n - 1) as nat).insert(sprite_key(markers[n - 1]))
    }
}

pub open spec fn marker_keys(markers: Seq<FogSprite>) -> Set<FogKey> {
    keys_upto(markers, markers.len())
}

/// `present`, and the key of each neutral building among the first `n` units.
pub open spec fn seen_after(present: Set<FogKey>, units: Seq<UnitInfo>, n: nat) -> Set<FogKey>
    decreases n,
{
    if n == 0 {
        present
    } else if wants_fog(units[n - 1]) {
        seen_after(present, units, (n - 1) as nat).insert(unit_key(units[n - 1]))
    } else {
        seen_after(present, units, (n - 1) as nat)
    }
}

/// Indices, among the first `n` units, of the neutral buildings whose key is neither
/// in `present` nor taken by an earlier unit.
pub open spec fn additions(present: Set<FogKey>, units: Seq<UnitInfo>, n: nat) -> Seq<usize>
    decreases n,
{
    if n == 0 {
        Seq::empty()
    } else {
        let before = additions(present, units, (n - 1) as nat);
        let u = units[n - 1];
        if wants_fog(u) && !seen_after(present, units, (n - 1) as nat).contains(unit_key(u)) {
            before.push((n - 1) as usize)
        } else {
            before
        }
    }
}

/// Units that need a new marker, given the markers that exist.
pub open spec fn fog_additions(markers: Seq<FogSprite>, units: Seq<UnitInfo>) -> Seq<usize> {
    additions(marker_keys(markers), units, units.len())
}

/// Indices, among the first `n` units, of the neutral buildings.
pub open spec fn neutral_upto(units: Seq<UnitInfo>, n: nat) -> Seq<usize>
    decreases n,
{
    if n == 0 {
        Seq::empty()
    } else if wants_fog(units[n - 1]) {
        neutral_upto(units, (n - 1) as nat).push((n - 1) as usize)
    } else {
        neutral_upto(units, (n - 1) as nat)
    }
}

/// The marker that is created for a unit.
pub open spec fn unit_sprite(u: UnitInfo) -> FogSprite {
    FogSprite { x: u.x, y: u.y, unit_id: u.unit_id }
}

/// The markers created for the units at `idx`.
pub open spec fn sprites_for(units: Seq<UnitInfo>, idx: Seq<usize>) -> Seq<FogSprite> {
    idx.map_values(|j: usize| unit_sprite(units[j as int]))
}

/// The markers that exist after one reconciliation has created what it reported.
pub open spec fn markers_after(markers: Seq<FogSprite>, units: Seq<UnitInfo>) -> Seq<FogSprite> {
    markers + sprites_for(units, fog_additions(markers, units))
}

proof fn lemma_keys_upto_same(s: Seq<FogSprite>, t: Seq<FogSprite>, k: nat)
    requires
        k <= s.len(),
        k <= t.len(),
        forall|i: int| 0 <= i < k ==> s[i] == t[i],
    ensures
        keys_upto(s, k) == keys_upto(t, k),
    decreases k,
{
    if k > 0 {
        lemma_keys_upto_same(s, t, (k - 1) as nat);
    }
}

proof fn lemma_keys_upto_append(a: Seq<FogSprite>, b: Seq<FogSprite>, n: nat)
    requires
        n <= b.len(),
    ensures
        keys_upto(a + b, a.len() + n) == marker_keys(a).union(keys_upto(b, n)),
    decreases n,
{
    if n == 0 {
        lemma_keys_upto_same(a + b, a, a.len());
        assert(marker_keys(a).union(Set::empty()) =~= marker_keys(a));
    } else {
        lemma_keys_upto_append(a, b, (n - 1) as nat);
        assert((a + b)[a.len() + n - 1] == b[n - 1]);
        assert(keys_upto(a + b, a.len() + n) =~= marker_keys(a).union(keys_upto(b, n)));
    }
}

proof fn lemma_added_keys(present: Set<FogKey>, units: Seq<UnitInfo>, n: nat)
    requires
        n <= units.len(),
        units.len() <= usize::MAX,
    ensures
        present.union(marker_keys(sprites_for(units, additions(present, units, n))))
            == seen_after(present, units, n),
    decreases n,
{
    if n == 0 {
        assert(present.union(Set::empty()) =~= present);
    } else {
        let m = (n - 1) as nat;
        lemma_added_keys(present, units, m);
        let before = sprites_for(units, additions(present, units, m));
        let now = sprites_for(units, additions(present, units, n));
        let u = units[m as int];
        if wants_fog(u) && !seen_after(present, units, m).contains(unit_key(u)) {
            assert(now =~= before.push(unit_sprite(u)));
            lemma_keys_upto_same(now, before, before.len());
            assert(present.union(marker_keys(now)) =~= seen_after(present, units, n));
        } else {
            assert(now =~= before);
            if wants_fog(u) {
                assert(seen_after(present, units, n) =~= seen_after(present, units, m));
            }
        }
    }
}

proof fn lemma_seen_grows(present: Set<FogKey>, units: Seq<UnitInfo>, n: nat)
    ensures
        present.subset_of(seen_after(present, units, n)),
    decreases n,
{
    if n > 0 {
        lemma_seen_grows(present, units, (n - 1) as nat);
    }
}

proof fn lemma_seen_holds(present: Set<FogKey>, units: Seq<UnitInfo>, n: nat)
    ensures
        forall|j: int| 0 <= j < n && wants_fog(units[j])
            ==> seen_after(present, units, n).contains(#[trigger] unit_key(units[j])),
    decreases n,
{
    if n > 0 {
        lemma_seen_holds(present, units, (n - 1) as nat);
    }
}

proof fn lemma_nothing_new(known: Set<FogKey>, units: Seq<UnitInfo>, n: nat)
    requires
        forall|j: int| 0 <= j < n && wants_fog(units[j]) ==> known.contains(#[trigger] unit_key(units[j])),
    ensures
        additions(known, units, n) == Seq::<usize>::empty(),
    decreases n,
{
    if n > 0 {
        let m = (n - 1) as nat;
        lemma_nothing_new(known, units, m);
        lemma_seen_grows(known, units, m);
    }
}

/// Reconciling twice against the same units creates nothing the second time: every
/// neutral building already has its marker, and no key is added twice.
pub proof fn lemma_reconcile_idempotent(markers: Seq<FogSprite>, units: Seq<UnitInfo>)
    requires
        units.len() <= usize::MAX,
    ensures
        fog_additions(markers_after(markers, units), units) == Seq::<usize>::empty(),
{
    let present = marker_keys(markers);
    let added = sprites_for(units, fog_additions(markers, units));
    lemma_keys_upto_append(markers, added, added.len());
    assert(markers + added == markers_after(markers, units));
    lemma_added_keys(present, units, units.len());
    lemma_seen_holds(present, units, units.len());
    lemma_nothing_new(marker_keys(markers_after(markers, units)), units, units.len());
}

proof fn lemma_keys_upto_has(s: Seq<FogSprite>, n: nat)
    requires
        n <= s.len(),
    ensures
        forall|i: int| 0 <= i < n ==> keys_upto(s, n).contains(#[trigger] sprite_key(s[i])),
    decreases n,
{
    if n > 0 {
        lemma_keys_upto_has(s, (n - 1) as nat);
    }
}

proof fn lemma_additions_fresh(present: Set<FogKey>, units: Seq<UnitInfo>, n: nat)
    requires
        n <= units.len(),
        units.len() <= usize::MAX,
    ensures
        forall|i: int| 0 <= i < additions(present, units, n).len()
            ==> #[trigger] additions(present, units, n)[i] < n,
        forall|i: int| 0 <= i < additions(present, units, n).len()
            ==> !present.contains(unit_key(units[#[trigger] additions(present, units, n)[i] as int])),
        forall|i: int, j: int| 0 <= i < j < additions(present, units, n).len()
            ==> unit_key(units[#[trigger] additions(present, units, n)[i] as int])
                != unit_key(units[#[trigger] additions(present, units, n)[j] as int]),
    decreases n,
{
    if n > 0 {
        let m = (n - 1) as nat;
        lemma_additions_fresh(present, units, m);
        let before = additions(present, units, m);
        let u = units[m as int];
        if wants_fog(u) && !seen_after(present, units, m).contains(unit_key(u)) {
            let now = additions(present, units, n);
            assert(now == before.push(m as usize));
            lemma_seen_grows(present, units, m);
            lemma_added_keys(present, units, m);
            let added = sprites_for(units, before);
            lemma_keys_upto_has(added, added.len());
            assert forall|i: int| 0 <= i < before.len() implies
                unit_key(units[before[i] as int]) != unit_key(u) by {
                assert(sprite_key(added[i]) == unit_key(units[before[i] as int]));
            }
            assert forall|i: int, j: int| 0 <= i < j < now.len() implies
                unit_key(units[now[i] as int]) != unit_key(units[now[j] as int]) by {
                if j == now.len() - 1 {
                    assert(now[j] == m as usize);
                    assert(now[i] == before[i]);
                } else {
                    assert(now[i] == before[i] && now[j] == before[j]);
                }
            }
        }
    }
}

/// A reconciliation creates no marker twice: the key of each unit that it reports
/// has no marker yet, and no two reported units share a key.
pub proof fn lemma_restore_no_duplicates(markers: Seq<FogSprite>, units: Seq<UnitInfo>)
    requires
        units.len() <= usize::MAX,
    ensures
        forall|i: int| 0 <= i < fog_additions(markers, units).len()
            ==> #[trigger] fog_additions(markers, units)[i] < units.len(),
        forall|i: int| 0 <= i < fog_additions(markers, units).len()
            ==> !marker_keys(markers).contains(
                unit_key(units[#[trigger] fog_additions(markers, units)[i] as int]),
            ),
        forall|i: int, j: int| 0 <= i < j < fog_additions(markers, units).len()
            ==> unit_key(units[#[trigger] fog_additions(markers, units)[i] as int])
                != unit_key(units[#[trigger] fog_additions(markers, units)[j] as int]),
{
    lemma_additions_fresh(marker_keys(markers), units, units.len());
}

/// A set of marker keys, kept in an `FxHashSet`.
#[verifier::external_body]
pub struct FogKeySet {
    keys: FxHashSet<FogKey>,
}

/// The keys that a `FogKeySet` holds.
pub uninterp spec fn fog_key_set(s: FogKeySet) -> Set<FogKey>;

/// Relies on `HashSet::with_capacity_and_hasher`: the new set is empty.
#[verifier::external_body]
fn fog_keys_new() -> (r: FogKeySet)
    ensures
        fog_key_set(r) == Set::<FogKey>::empty(),
{
    FogKeySet { keys: FxHashSet::with_capacity_and_hasher(256, Default::default()) }
}

/// Relies on `HashSet::insert`: it returns whether the key was absent, and the key is
/// present afterwards.
#[verifier::external_body]
fn fog_keys_insert(s: &mut FogKeySet, k: FogKey) -> (r: bool)
    ensures
        r == !fog_key_set(*old(s)).contains(k),
        fog_key_set(*final(s)) == fog_key_set(*old(s)).insert(k),
{
    s.keys.insert(k)
}

/// Indices of the neutral buildings that have no marker of their position and type,
/// each key taken once: the markers to create so that every neutral building shows.
pub fn fog_sprites_to_restore(markers: &Vec<FogSprite>, units: &Vec<UnitInfo>) -> (r: Vec<usize>)
    ensures
        r@ == fog_additions(markers@, units@),
{
    let mut set = fog_keys_new();
    let mut i: usize = 0;
    while i < markers.len()
        invariant
            0 <= i <= markers.len(),
            fog_key_set(set) == keys_upto(markers@, i as nat),
        decreases markers.len() - i,
    {
        let m = markers[i];
        fog_keys_insert(&mut set, (m.x, m.y, m.unit_id));
        i = i + 1;
    }
    let ghost present = marker_keys(markers@);
    let mut r: Vec<usize> = Vec::new();
    let mut j: usize = 0;
    while j < units.len()
        invariant
            0 <= j <= units.len(),
            fog_key_set(set) == seen_after(present, units@, j as nat),
            r@ == additions(present, units@, j as nat),
        decreases units.len() - j,
    {
        let u = units[j];
        if u.player == NEUTRAL_PLAYER && u.is_landed_building {
            if fog_keys_insert(&mut set, (u.x, u.y, u.unit_id)) {
                r.push(j);
            }
        }
        j = j + 1;
    }
    r
}

/// Indices of all neutral buildings, which get a marker when a game starts.
pub fn neutral_buildings(units: &Vec<UnitInfo>) -> (r: Vec<usize>)
    ensures
        r@ == neutral_upto(units@, units@.len()),
{
    let mut r: Vec<usize> = Vec::new();
    let mut j: usize = 0;
    while j < units.len()
        invariant
            0 <= j <= units.len(),
            r@ == neutral_upto(units@, j as nat),
        decreases units.len() - j,
    {
        let u = units[j];
        if u.player == NEUTRAL_PLAYER && u.is_landed_building {
            r.push(j);
        }
        j = j + 1;
    }
    r
}

} // verus!
