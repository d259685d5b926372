//! Covert operations of probe teams, and the destruction of units with what they carry.
use crate::components::Ability;
use crate::game_state::access::{logged_as, tile_index_of, unit_with_id};
use crate::game_state::diplomacy::{learned, name_of, techs_contain};
use crate::model::{
    Base, EventCategory, Facility, Faction, GameState, ProbeAction, Tech, Tile, Unit, UnitKind,
};
use crate::presentation;
use crate::text::{owned, push_text};
use crate::seqs::{
    first_index, first_match, is_first, lemma_first_index_at, lemma_first_index_none,
    lemma_first_index_some, lemma_match_has_first,
};
use vstd::prelude::*;

verus! {

/// Each unit's id with the ids of the units it carries, in unit order.
pub open spec fn cargo_graph(units: Seq<Unit>) -> Seq<(usize, Seq<usize>)> {
    units.map_values(|u: Unit| (u.id, u.cargo_unit_ids@))
}

/// Matches an entry of the cargo graph with the given id.
pub open spec fn entry_with_id(id: usize) -> spec_fn((usize, Seq<usize>)) -> bool {
    |e: (usize, Seq<usize>)| e.0 == id
}

/// What the first unit with id `id` carries; nothing when there is no such unit.
pub open spec fn cargo_of(g: Seq<(usize, Seq<usize>)>, id: usize) -> Seq<usize> {
    match first_match(g, entry_with_id(id)) {
        Some(e) => e.1,
        None => Seq::empty(),
    }
}

/// `to` is `from`, or is carried, directly or through at most `n - 1` carriers in
/// between, by `from`.
pub open spec fn carries_within(g: Seq<(usize, Seq<usize>)>, from: usize, to: usize, n: nat) -> bool
    decreases n,
{
    from == to || (n > 0 && exists|j: int|
        0 <= j < cargo_of(g, from).len() && carries_within(g, #[trigger] cargo_of(g, from)[j], to, (n - 1) as nat))
}

/// Unit `id` and everything it carries, directly or not.
pub open spec fn cargo_closure(g: Seq<(usize, Seq<usize>)>, id: usize) -> Set<usize> {
    Set::new(|k: usize| exists|n: nat| carries_within(g, id, k, n))
}

/// `rank` falls from every carrier to each unit it carries.
pub open spec fn cargo_ranked(g: Seq<(usize, Seq<usize>)>, rank: spec_fn(usize) -> nat) -> bool {
    forall|id: usize, j: int| 0 <= j < cargo_of(g, id).len() ==> rank(#[trigger] cargo_of(g, id)[j]) < rank(id)
}

/// No unit carries itself, directly or through other units.
pub open spec fn cargo_acyclic(units: Seq<Unit>) -> bool {
    exists|rank: spec_fn(usize) -> nat| cargo_ranked(cargo_graph(units), rank)
}

/// `u` destroyed: dead, with no moves and no hit points.
pub open spec fn wrecked(u: Unit) -> Unit {
    Unit { alive: false, moves_left: 0, hp: 0, ..u }
}

/// `units` after the first unit with each id in `ids` was destroyed.
pub open spec fn units_destroyed(units: Seq<Unit>, ids: Set<usize>) -> Seq<Unit> {
    Seq::new(
        units.len(),
        |i: int|
            if ids.contains(units[i].id) && is_first(units, unit_with_id(units[i].id), i) {
                wrecked(units[i])
            } else {
                units[i]
            },
    )
}

/// The first unit with id `k` stands on the map, on the tile at position `t`.
pub open spec fn stands_on(units: Seq<Unit>, width: usize, height: usize, k: usize, t: int) -> bool {
    match first_index(units, unit_with_id(k)) {
        Some(i) => units[i].x < width && units[i].y < height && tile_index_of(width, units[i].x, units[i].y) == t,
        None => false,
    }
}

/// `tiles` with each tile emptied that shows one of `ids` standing on it.
pub open spec fn tiles_cleared(tiles: Seq<Tile>, units: Seq<Unit>, width: usize, height: usize, ids: Set<usize>) -> Seq<Tile> {
    Seq::new(
        tiles.len(),
        |t: int|
            match tiles[t].unit {
                Some(k) => if ids.contains(k) && stands_on(units, width, height, k, t) {
                    Tile { unit: None, ..tiles[t] }
                } else {
                    tiles[t]
                },
                None => tiles[t],
            },
    )
}

/// Every unit of `ids` that stands on the map has its tile.
pub open spec fn tiles_under(s: GameState, ids: Set<usize>) -> bool {
    forall|k: usize|
        #![trigger ids.contains(k)]
        ids.contains(k) ==> match first_index(s.units@, unit_with_id(k)) {
            Some(i) => s.units@[i].x < s.width && s.units@[i].y < s.height ==> tile_index_of(
                s.width,
                s.units@[i].x,
                s.units@[i].y,
            ) < s.tiles@.len(),
            None => true,
        }
}

/// `new` is `old` after the units of `ids` were destroyed and taken off their tiles.
pub open spec fn destroyed(old: GameState, new: GameState, ids: Set<usize>) -> bool {
    &&& new.units@ == units_destroyed(old.units@, ids)
    &&& new.tiles@ == tiles_cleared(old.tiles@, old.units@, old.width, old.height, ids)
    &&& new == (GameState { units: new.units, tiles: new.tiles, ..old })
}

/// Two unit lists with the same ids in the same places have the same first positions.
proof fn lemma_same_ids_first_index(a: Seq<Unit>, b: Seq<Unit>, k: usize)
    requires
        a.len() == b.len(),
        forall|i: int| 0 <= i < a.len() ==> #[trigger] a[i].id == b[i].id,
    ensures
        first_index(a, unit_with_id(k)) == first_index(b, unit_with_id(k)),
        forall|i: int| is_first(a, unit_with_id(k), i) <==> is_first(b, unit_with_id(k), i),
{
    assert forall|i: int| is_first(a, unit_with_id(k), i) <==> is_first(b, unit_with_id(k), i) by {
        if is_first(a, unit_with_id(k), i) {
            assert forall|j: int| 0 <= j < i implies !unit_with_id(k)(#[trigger] b[j]) by {
                assert(!unit_with_id(k)(a[j]));
            }
        }
        if is_first(b, unit_with_id(k), i) {
            assert forall|j: int| 0 <= j < i implies !unit_with_id(k)(#[trigger] a[j]) by {
                assert(!unit_with_id(k)(b[j]));
            }
        }
    }
    if exists|i: int| is_first(a, unit_with_id(k), i) {
        let i = choose|i: int| is_first(a, unit_with_id(k), i);
        lemma_first_index_at(a, unit_with_id(k), i);
        lemma_first_index_at(b, unit_with_id(k), i);
    } else {
        assert forall|j: int| 0 <= j < a.len() implies !unit_with_id(k)(#[trigger] a[j]) by {
            if unit_with_id(k)(a[j]) {
                lemma_match_has_first(a, unit_with_id(k), j);
            }
        }
        assert forall|j: int| 0 <= j < b.len() implies !unit_with_id(k)(#[trigger] b[j]) by {
            assert(a[j].id == b[j].id);
        }
        lemma_first_index_none(a, unit_with_id(k));
        lemma_first_index_none(b, unit_with_id(k));
    }
}

/// Destroying units keeps every unit's id, place and cargo.
proof fn lemma_destroyed_keeps_shape(units: Seq<Unit>, ids: Set<usize>)
    ensures
        units_destroyed(units, ids).len() == units.len(),
        forall|i: int| 0 <= i < units.len() ==> {
            let d = #[trigger] units_destroyed(units, ids)[i];
            &&& d.id == units[i].id
            &&& d.x == units[i].x
            &&& d.y == units[i].y
            &&& d.cargo_unit_ids == units[i].cargo_unit_ids
        },
        cargo_graph(units_destroyed(units, ids)) == cargo_graph(units),
        forall|k: usize| first_index(units_destroyed(units, ids), unit_with_id(k)) == #[trigger] first_index(units, unit_with_id(k)),
        forall|k: usize, i: int| is_first(units_destroyed(units, ids), unit_with_id(k), i) <==> #[trigger] is_first(units, unit_with_id(k), i),
{
    let d = units_destroyed(units, ids);
    assert forall|i: int| 0 <= i < units.len() implies #[trigger] d[i].id == units[i].id by {}
    assert(cargo_graph(d) =~= cargo_graph(units));
    assert forall|k: usize| first_index(d, unit_with_id(k)) == #[trigger] first_index(units, unit_with_id(k)) by {
        lemma_same_ids_first_index(d, units, k);
    }
    assert forall|k: usize, i: int| is_first(d, unit_with_id(k), i) <==> #[trigger] is_first(units, unit_with_id(k), i) by {
        lemma_same_ids_first_index(d, units, k);
    }
}

/// Destroying `a` and then `b` destroys `a` and `b` together.
proof fn lemma_destroyed_compose(units: Seq<Unit>, a: Set<usize>, b: Set<usize>)
    ensures
        units_destroyed(units_destroyed(units, a), b) == units_destroyed(units, a.union(b)),
{
    lemma_destroyed_keeps_shape(units, a);
    let d = units_destroyed(units, a);
    assert forall|i: int| 0 <= i < units.len() implies #[trigger] units_destroyed(d, b)[i] == units_destroyed(units, a.union(b))[i] by {
        assert(d[i].id == units[i].id);
        assert(is_first(d, unit_with_id(units[i].id), i) <==> is_first(units, unit_with_id(units[i].id), i));
    }
    assert(units_destroyed(d, b) =~= units_destroyed(units, a.union(b)));
}

/// Clearing the tiles of `a` and then those of `b` clears the tiles of both.
proof fn lemma_cleared_compose(tiles: Seq<Tile>, units: Seq<Unit>, width: usize, height: usize, a: Set<usize>, b: Set<usize>)
    ensures
        tiles_cleared(tiles_cleared(tiles, units, width, height, a), units_destroyed(units, a), width, height, b)
            == tiles_cleared(tiles, units, width, height, a.union(b)),
{
    lemma_destroyed_keeps_shape(units, a);
    let d = units_destroyed(units, a);
    let t1 = tiles_cleared(tiles, units, width, height, a);
    assert forall|k: usize, t: int| #[trigger] stands_on(d, width, height, k, t) == stands_on(units, width, height, k, t) by {
        assert(first_index(d, unit_with_id(k)) == first_index(units, unit_with_id(k)));
        match first_index(units, unit_with_id(k)) {
            Some(i) => {
                lemma_first_index_some(units, unit_with_id(k));
                assert(d[i].x == units[i].x && d[i].y == units[i].y);
            },
            None => {},
        }
    }
    assert(tiles_cleared(t1, d, width, height, b) =~= tiles_cleared(tiles, units, width, height, a.union(b)));
}

/// Unit `id` with all it carries is `id` together with everything each of its cargo carries.
proof fn lemma_closure_unfold(g: Seq<(usize, Seq<usize>)>, id: usize)
    ensures
        cargo_closure(g, id) == set![id].union(cargo_closures(g, cargo_of(g, id), cargo_of(g, id).len() as int)),
{
    let c = cargo_of(g, id);
    let rest = cargo_closures(g, c, c.len() as int);
    assert forall|k: usize| cargo_closure(g, id).contains(k) implies #[trigger] set![id].union(rest).contains(k) by {
        let n = choose|n: nat| carries_within(g, id, k, n);
        if k != id {
            let j = choose|j: int| 0 <= j < c.len() && carries_within(g, #[trigger] c[j], k, (n - 1) as nat);
            assert(cargo_closure(g, c[j]).contains(k));
            assert(rest.contains(k));
        }
    }
    assert forall|k: usize| #[trigger] set![id].union(rest).contains(k) implies cargo_closure(g, id).contains(k) by {
        if k == id {
            assert(carries_within(g, id, k, 0));
        } else {
            let j = choose|j: int| 0 <= j < c.len() && cargo_closure(g, #[trigger] c[j]).contains(k);
            let n = choose|n: nat| carries_within(g, c[j], k, n);
            assert(carries_within(g, id, k, n + 1));
        }
    }
    assert(cargo_closure(g, id) =~= set![id].union(rest));
}

/// Everything carried, directly or not, by the first `m` units listed in `cargo`.
pub open spec fn cargo_closures(g: Seq<(usize, Seq<usize>)>, cargo: Seq<usize>, m: int) -> Set<usize> {
    Set::new(|k: usize| exists|j: int| 0 <= j < m && j < cargo.len() && cargo_closure(g, #[trigger] cargo[j]).contains(k))
}

/// The name a facility prints with in debug output: its variant's name.
pub open spec fn facility_debug_text(f: Facility) -> Seq<char> {
    match f {
        Facility::RecyclingTanks => "RecyclingTanks"@,
        Facility::PerimeterDefense => "PerimeterDefense"@,
        Facility::NetworkNode => "NetworkNode"@,
        Facility::RecreationCommons => "RecreationCommons"@,
        Facility::Greenhouse => "Greenhouse"@,
        Facility::MineralRefinery => "MineralRefinery"@,
        Facility::TradeExchange => "TradeExchange"@,
        Facility::FreightDepot => "FreightDepot"@,
        Facility::PatrolGrid => "PatrolGrid"@,
        Facility::CommandCenter => "CommandCenter"@,
        Facility::FieldHospital => "FieldHospital"@,
        Facility::MilitaryAcademy => "MilitaryAcademy"@,
        Facility::SensorArray => "SensorArray"@,
        Facility::TransitHub => "TransitHub"@,
        Facility::PsiBeacon => "PsiBeacon"@,
        Facility::ForwardDepot => "ForwardDepot"@,
        Facility::HologramTheatre => "HologramTheatre"@,
        Facility::BioenhancementCenter => "BioenhancementCenter"@,
        Facility::ResearchHospital => "ResearchHospital"@,
    }
}

/// A facility's variant name.
fn facility_debug_name(f: Facility) -> (r: &'static str)
    ensures
        r@ == facility_debug_text(f),
{
    match f {
        Facility::RecyclingTanks => "RecyclingTanks",
        Facility::PerimeterDefense => "PerimeterDefense",
        Facility::NetworkNode => "NetworkNode",
        Facility::RecreationCommons => "RecreationCommons",
        Facility::Greenhouse => "Greenhouse",
        Facility::MineralRefinery => "MineralRefinery",
        Facility::TradeExchange => "TradeExchange",
        Facility::FreightDepot => "FreightDepot",
        Facility::PatrolGrid => "PatrolGrid",
        Facility::CommandCenter => "CommandCenter",
        Facility::FieldHospital => "FieldHospital",
        Facility::MilitaryAcademy => "MilitaryAcademy",
        Facility::SensorArray => "SensorArray",
        Facility::TransitHub => "TransitHub",
        Facility::PsiBeacon => "PsiBeacon",
        Facility::ForwardDepot => "ForwardDepot",
        Facility::HologramTheatre => "HologramTheatre",
        Facility::BioenhancementCenter => "BioenhancementCenter",
        Facility::ResearchHospital => "ResearchHospital",
    }
}

/// Energy that subverting a unit costs.
pub const SUBVERT_ENERGY_COST: i32 = 50;

/// Matches a technology missing from `ours`.
pub open spec fn lacked_by(ours: Seq<Tech>) -> spec_fn(Tech) -> bool {
    |t: Tech| !ours.contains(t)
}

/// The first technology of `theirs` that `ours` lacks.
pub open spec fn first_new_tech(theirs: Seq<Tech>, ours: Seq<Tech>) -> Option<Tech> {
    first_match(theirs, lacked_by(ours))
}

/// Whether `(ax, ay)` and `(bx, by)` are distinct and touch, diagonals included.
pub open spec fn touching(ax: usize, ay: usize, bx: usize, by: usize) -> bool {
    let dx: int = if ax >= bx { ax - bx } else { bx - ax };
    let dy: int = if ay >= by { ay - by } else { by - ay };
    dx <= 1 && dy <= 1 && dx + dy > 0
}

impl GameState {
    /// The probe team `unit_id` and the tile it targets, or why it cannot act there.
    pub open spec fn probe_reach(self, unit_id: usize, tx: usize, ty: usize) -> Result<(Unit, Tile), Seq<char>> {
        match self.unit_spec(unit_id) {
            None => Err("Probe unit not found."@),
            Some(u) => if !self.unit_has_ability_spec(unit_id, Ability::Probe) && !(u.kind is ProbeTeam) {
                Err("Unit does not have Probe capabilities."@)
            } else if u.moves_left <= 0 {
                Err("Unit has no moves left."@)
            } else if !touching(u.x, u.y, tx, ty) && !(u.x == tx && u.y == ty) {
                Err("Target must be adjacent to the probe unit."@)
            } else {
                match self.tile_at(tx, ty) {
                    None => Err("Invalid target tile."@),
                    Some(t) => Ok((u, t)),
                }
            },
        }
    }

    /// The positions that `action` reads once the team can act stand in their lists.
    pub open spec fn probe_lookups_valid(self, unit_id: usize, tx: usize, ty: usize, action: ProbeAction) -> bool {
        match self.probe_reach(unit_id, tx, ty) {
            Err(_) => true,
            Ok((u, t)) => match action {
                ProbeAction::StealTech => t.base matches Some(b) ==> b < self.bases@.len() && (
                self.bases@[b as int].owner != u.owner ==> self.bases@[b as int].owner < self.factions@.len()
                    && u.owner < self.factions@.len()),
                ProbeAction::SabotageFacility => t.base matches Some(b) ==> b < self.bases@.len(),
                ProbeAction::SubvertUnit => t.unit matches Some(v) ==> v < self.units@.len() && (
                self.units@[v as int].owner != u.owner ==> u.owner < self.factions@.len()),
            },
        }
    }

    /// Why `action` by probe team `unit_id` on `(tx, ty)` is refused, if it is.
    pub open spec fn probe_refusal(self, unit_id: usize, tx: usize, ty: usize, action: ProbeAction) -> Option<Seq<char>> {
        match self.probe_reach(unit_id, tx, ty) {
            Err(e) => Some(e),
            Ok((u, t)) => match action {
                ProbeAction::StealTech => match t.base {
                    None => Some("Must target an enemy base to steal tech."@),
                    Some(b) => {
                        let owner = self.bases@[b as int].owner;
                        if owner == u.owner {
                            Some("Cannot steal tech from your own base."@)
                        } else if first_new_tech(
                            self.factions@[owner as int].known_techs@,
                            self.factions@[u.owner as int].known_techs@,
                        ) is None {
                            Some("Target faction has no new technologies to steal."@)
                        } else {
                            None
                        }
                    },
                },
                ProbeAction::SabotageFacility => match t.base {
                    None => Some("Must target an enemy base to sabotage."@),
                    Some(b) => if self.bases@[b as int].owner == u.owner {
                        Some("Cannot sabotage your own base."@)
                    } else if self.bases@[b as int].facilities@.len() == 0 {
                        Some("Base has no facilities to sabotage."@)
                    } else {
                        None
                    },
                },
                ProbeAction::SubvertUnit => match t.unit {
                    None => Some("Must target a unit to subvert."@),
                    Some(v) => if self.units@[v as int].owner == u.owner {
                        Some("Cannot subvert your own unit."@)
                    } else if self.factions@[u.owner as int].energy < SUBVERT_ENERGY_COST {
                        Some("Insufficient energy to subvert. Need 50."@)
                    } else {
                        None
                    },
                },
            },
        }
    }

    /// `new` is `self` after the accepted `action` of probe team `unit_id` on `(tx, ty)`:
    /// the effect on the target, the team destroyed with all it carries, and one
    /// diplomacy entry in the log.
    pub open spec fn probe_done(self, new: GameState, unit_id: usize, tx: usize, ty: usize, action: ProbeAction) -> bool {
        let (u, t) = self.probe_reach(unit_id, tx, ty)->Ok_0;
        let ids = cargo_closure(cargo_graph(self.units@), unit_id);
        let team = name_of(self.factions@, u.owner);
        &&& new.tiles@ == tiles_cleared(self.tiles@, self.units@, self.width, self.height, ids)
        &&& match action {
            ProbeAction::StealTech => {
                let b = t.base->0;
                let owner = self.bases@[b as int].owner;
                let tech = first_new_tech(
                    self.factions@[owner as int].known_techs@,
                    self.factions@[u.owner as int].known_techs@,
                )->0;
                &&& new.factions@ == self.factions@.update(u.owner as int, new.factions@[u.owner as int])
                &&& learned(self.factions@[u.owner as int], new.factions@[u.owner as int], tech)
                &&& new.units@ == units_destroyed(self.units@, ids)
                &&& logged_as(
                    self.log@,
                    new.log@,
                    EventCategory::Diplomacy,
                    "COVERT: "@ + team + " probe team stole "@ + crate::content::tech_name_text(tech) + " from "@
                        + name_of(self.factions@, owner) + "!"@,
                    self.turn,
                )
                &&& new == (GameState { factions: new.factions, units: new.units, tiles: new.tiles, log: new.log, ..self })
            },
            ProbeAction::SabotageFacility => {
                let b = t.base->0;
                let base = self.bases@[b as int];
                &&& new.bases@ == self.bases@.update(
                    b as int,
                    Base { facilities: new.bases@[b as int].facilities, ..base },
                )
                &&& new.bases@[b as int].facilities@ == base.facilities@.drop_last()
                &&& new.units@ == units_destroyed(self.units@, ids)
                &&& logged_as(
                    self.log@,
                    new.log@,
                    EventCategory::Diplomacy,
                    "COVERT: "@ + team + " probe team sabotaged "@ + facility_debug_text(base.facilities@.last())
                        + " in "@ + name_of(self.factions@, base.owner) + "'s base "@ + base.name@ + "!"@,
                    self.turn,
                )
                &&& new == (GameState { bases: new.bases, units: new.units, tiles: new.tiles, log: new.log, ..self })
            },
            ProbeAction::SubvertUnit => {
                let v = t.unit->0;
                let target = self.units@[v as int];
                &&& new.factions@ == self.factions@.update(
                    u.owner as int,
                    Faction { energy: (self.factions@[u.owner as int].energy - SUBVERT_ENERGY_COST) as i32, ..self.factions@[u.owner as int] },
                )
                &&& new.units@ == units_destroyed(self.units@.update(v as int, Unit { owner: u.owner, ..target }), ids)
                &&& logged_as(
                    self.log@,
                    new.log@,
                    EventCategory::Diplomacy,
                    "COVERT: "@ + team + " probe team subverted a "@ + name_of(self.factions@, target.owner)
                        + " unit for 50 energy!"@,
                    self.turn,
                )
                &&& new == (GameState { factions: new.factions, units: new.units, tiles: new.tiles, log: new.log, ..self })
            },
        }
    }
}

impl GameState {
    /// Destroys unit `unit_id` and, before it, every unit it carries, directly or not:
    /// each is marked dead with no moves and no hit points, and taken off the tile that
    /// shows it where it stands on the map.
    fn destroy_unit(&mut self, unit_id: usize, Ghost(rank): Ghost<spec_fn(usize) -> nat>)
        requires
            cargo_ranked(cargo_graph(old(self).units@), rank),
            tiles_under(*old(self), cargo_closure(cargo_graph(old(self).units@), unit_id)),
        ensures
            destroyed(*old(self), *final(self), cargo_closure(cargo_graph(old(self).units@), unit_id)),
        decreases rank(unit_id),
    {
        let ghost s0 = *self;
        let ghost g = cargo_graph(self.units@);
        proof {
            lemma_closure_unfold(g, unit_id);
        }
        let i = match self.unit_index(unit_id) {
            Some(i) => i,
            None => {
                proof {
                    lemma_cargo_of_index(self.units@, unit_id);
                    assert(cargo_closures(g, cargo_of(g, unit_id), 0) =~= Set::empty());
                    let ids = cargo_closure(g, unit_id);
                    assert(units_destroyed(s0.units@, ids) =~= s0.units@);
                    assert(tiles_cleared(s0.tiles@, s0.units@, s0.width, s0.height, ids) =~= s0.tiles@);
                }
                return ;
            },
        };
        let cargo = self.units[i].cargo_unit_ids.clone();
        let ux = self.units[i].x;
        let uy = self.units[i].y;
        proof {
            lemma_cargo_of_index(self.units@, unit_id);
            assert(cargo@ =~= cargo_of(g, unit_id));
            lemma_destroyed_keeps_shape(s0.units@, Set::empty());
            assert(units_destroyed(s0.units@, Set::empty()) =~= s0.units@);
            assert(tiles_cleared(s0.tiles@, s0.units@, s0.width, s0.height, Set::empty()) =~= s0.tiles@);
            assert(cargo_closures(g, cargo@, 0) =~= Set::empty());
        }
        let mut j: usize = 0;
        while j < cargo.len()
            invariant
                j <= cargo@.len(),
                cargo@ == cargo_of(g, unit_id),
                g == cargo_graph(s0.units@),
                cargo_ranked(g, rank),
                tiles_under(s0, cargo_closure(g, unit_id)),
                cargo_closure(g, unit_id) == set![unit_id].union(cargo_closures(g, cargo@, cargo@.len() as int)),
                destroyed(s0, *self, cargo_closures(g, cargo@, j as int)),
            decreases cargo@.len() - j,
        {
            let cid = cargo[j];
            let ghost done = cargo_closures(g, cargo@, j as int);
            let ghost more = cargo_closure(g, cid);
            proof {
                assert(rank(cargo_of(g, unit_id)[j as int]) < rank(unit_id));
                lemma_destroyed_keeps_shape(s0.units@, done);
                assert forall|k: usize| #[trigger] more.contains(k) implies cargo_closure(g, unit_id).contains(k) by {
                    assert(cargo_closures(g, cargo@, cargo@.len() as int).contains(k));
                }
                assert forall|k: usize| #[trigger] more.contains(k) implies (match first_index(self.units@, unit_with_id(k)) {
                    Some(m) => self.units@[m].x < self.width && self.units@[m].y < self.height ==> tile_index_of(
                        self.width,
                        self.units@[m].x,
                        self.units@[m].y,
                    ) < self.tiles@.len(),
                    None => true,
                }) by {
                    assert(cargo_closure(g, unit_id).contains(k));
                    assert(first_index(self.units@, unit_with_id(k)) == first_index(s0.units@, unit_with_id(k)));
                }
            }
            self.destroy_unit(cid, Ghost(rank));
            proof {
                lemma_destroyed_compose(s0.units@, done, more);
                lemma_cleared_compose(s0.tiles@, s0.units@, s0.width, s0.height, done, more);
                assert(done.union(more) =~= cargo_closures(g, cargo@, j + 1));
            }
            j += 1;
        }
        let ghost done = cargo_closures(g, cargo@, cargo@.len() as int);
        proof {
            lemma_destroyed_keeps_shape(s0.units@, done);
            assert(self.units@[i as int].id == unit_id);
            assert(is_first(self.units@, unit_with_id(unit_id), i as int));
        }
        if ux < self.width && uy < self.height {
            proof {
                assert(cargo_closure(g, unit_id).contains(unit_id));
                assert(first_index(s0.units@, unit_with_id(unit_id)) == Some(i as int));
                assert(s0.units@[i as int].x == ux && s0.units@[i as int].y == uy);
                assert(self.tiles@.len() == s0.tiles@.len());
                assert(tile_index_of(s0.width, ux, uy) < s0.tiles@.len());
                assert(self.width == s0.width);
                assert(self.tiles@.len() == self.tiles.len());
            }
            let t = self.tile_index(ux, uy);
            if self.tiles[t].unit == Some(unit_id) {
                self.tiles[t].unit = None;
            }
        }
        self.units[i].alive = false;
        self.units[i].moves_left = 0;
        self.units[i].hp = 0;
        proof {
            let all = cargo_closure(g, unit_id);
            lemma_destroyed_compose(s0.units@, done, set![unit_id]);
            lemma_cleared_compose(s0.tiles@, s0.units@, s0.width, s0.height, done, set![unit_id]);
            assert(done.union(set![unit_id]) =~= all);
            assert(self.units@ =~= units_destroyed(units_destroyed(s0.units@, done), set![unit_id]));
            assert(self.tiles@ =~= tiles_cleared(
                tiles_cleared(s0.tiles@, s0.units@, s0.width, s0.height, done),
                units_destroyed(s0.units@, done),
                s0.width,
                s0.height,
                set![unit_id],
            ));
        }
    }
}

impl GameState {
    /// A probe team acts on the tile at `(target_x, target_y)`, on its own tile or one
    /// next to it: it steals the first technology the target base's owner knows and its
    /// own faction lacks, sabotages the newest facility of the target base, or buys the
    /// target unit for its faction with energy. The team is spent in the act.
    pub fn perform_probe_action(&mut self, unit_id: usize, target_x: usize, target_y: usize, action: ProbeAction) -> (r: Result<(), String>)
        requires
            old(self).probe_lookups_valid(unit_id, target_x, target_y, action),
            old(self).probe_refusal(unit_id, target_x, target_y, action) is None ==> {
                let u = old(self).probe_reach(unit_id, target_x, target_y)->Ok_0.0;
                &&& cargo_acyclic(old(self).units@)
                &&& tiles_under(*old(self), cargo_closure(cargo_graph(old(self).units@), unit_id))
                &&& action is StealTech ==> old(self).factions@[u.owner as int].techs_discovered < i32::MAX
            },
        ensures
            match old(self).probe_refusal(unit_id, target_x, target_y, action) {
                Some(e) => r matches Err(m) && m@ == e && *final(self) == *old(self),
                None => r is Ok && old(self).probe_done(*final(self), unit_id, target_x, target_y, action),
            },
    {
        let ghost s0 = *self;
        let (owner, ux, uy, moves, is_team) = match self.unit(unit_id) {
            Some(u) => (u.owner, u.x, u.y, u.moves_left, matches!(u.kind, UnitKind::ProbeTeam)),
            None => return Err(owned("Probe unit not found.")),
        };
        if !self.unit_has_ability(unit_id, Ability::Probe) && !is_team {
            return Err(owned("Unit does not have Probe capabilities."));
        }
        if moves <= 0 {
            return Err(owned("Unit has no moves left."));
        }
        if !Self::is_adjacent(ux, uy, target_x, target_y) && !(ux == target_x && uy == target_y) {
            return Err(owned("Target must be adjacent to the probe unit."));
        }
        let (tile_base, tile_unit) = match self.tile(target_x, target_y) {
            Some(t) => (t.base, t.unit),
            None => return Err(owned("Invalid target tile.")),
        };
        let ghost ids = cargo_closure(cargo_graph(s0.units@), unit_id);
        match action {
            ProbeAction::StealTech => {
                let b = match tile_base {
                    Some(b) => b,
                    None => return Err(owned("Must target an enemy base to steal tech.")),
                };
                let target_owner = self.bases[b].owner;
                if target_owner == owner {
                    return Err(owned("Cannot steal tech from your own base."));
                }
                let stolen = match first_new(&self.factions[target_owner].known_techs, &self.factions[owner].known_techs) {
                    Some(t) => t,
                    None => return Err(owned("Target faction has no new technologies to steal.")),
                };
                match self.faction_mut(owner) {
                    Some(f) => {
                        f.known_techs.push(stolen);
                        f.techs_discovered += 1;
                    },
                    None => {},
                }
                let ghost rank = choose|rank: spec_fn(usize) -> nat| cargo_ranked(cargo_graph(s0.units@), rank);
                self.destroy_unit(unit_id, Ghost(rank));
                let mut message = owned("COVERT: ");
                push_text(&mut message, self.faction_name(owner));
                push_text(&mut message, " probe team stole ");
                push_text(&mut message, presentation::tech_name(stolen));
                push_text(&mut message, " from ");
                push_text(&mut message, self.faction_name(target_owner));
                push_text(&mut message, "!");
                self.push_event_log(EventCategory::Diplomacy, message);
            },
            ProbeAction::SabotageFacility => {
                let b = match tile_base {
                    Some(b) => b,
                    None => return Err(owned("Must target an enemy base to sabotage.")),
                };
                let target_owner = self.bases[b].owner;
                if target_owner == owner {
                    return Err(owned("Cannot sabotage your own base."));
                }
                if self.bases[b].facilities.len() == 0 {
                    return Err(owned("Base has no facilities to sabotage."));
                }
                let mut facilities = self.bases[b].facilities.clone();
                proof {
                    assert(facilities@ =~= s0.bases@[b as int].facilities@);
                }
                let wrecked_facility = match facilities.pop() {
                    Some(f) => f,
                    None => return Err(owned("Base has no facilities to sabotage.")),
                };
                self.bases[b].facilities = facilities;
                let ghost rank = choose|rank: spec_fn(usize) -> nat| cargo_ranked(cargo_graph(s0.units@), rank);
                self.destroy_unit(unit_id, Ghost(rank));
                let mut message = owned("COVERT: ");
                push_text(&mut message, self.faction_name(owner));
                push_text(&mut message, " probe team sabotaged ");
                push_text(&mut message, facility_debug_name(wrecked_facility));
                push_text(&mut message, " in ");
                push_text(&mut message, self.faction_name(target_owner));
                push_text(&mut message, "'s base ");
                push_text(&mut message, self.bases[b].name.as_str());
                push_text(&mut message, "!");
                self.push_event_log(EventCategory::Diplomacy, message);
            },
            ProbeAction::SubvertUnit => {
                let v = match tile_unit {
                    Some(v) => v,
                    None => return Err(owned("Must target a unit to subvert.")),
                };
                let target_owner = self.units[v].owner;
                if target_owner == owner {
                    return Err(owned("Cannot subvert your own unit."));
                }
                if self.factions[owner].energy < SUBVERT_ENERGY_COST {
                    return Err(owned("Insufficient energy to subvert. Need 50."));
                }
                self.factions[owner].energy = self.factions[owner].energy - SUBVERT_ENERGY_COST;
                self.units[v].owner = owner;
                proof {
                    lemma_new_owner_same_places(s0.units@, v as int, owner, s0.width, s0.height, s0.tiles@, ids);
                }
                let ghost rank = choose|rank: spec_fn(usize) -> nat| cargo_ranked(cargo_graph(s0.units@), rank);
                self.destroy_unit(unit_id, Ghost(rank));
                let mut message = owned("COVERT: ");
                push_text(&mut message, self.faction_name(owner));
                push_text(&mut message, " probe team subverted a ");
                push_text(&mut message, self.faction_name(target_owner));
                push_text(&mut message, " unit for 50 energy!");
                self.push_event_log(EventCategory::Diplomacy, message);
            },
        }
        Ok(())
    }
}

/// The first technology of `theirs` that `ours` lacks.
fn first_new(theirs: &Vec<Tech>, ours: &Vec<Tech>) -> (r: Option<Tech>)
    ensures
        r == first_new_tech(theirs@, ours@),
{
    let mut i: usize = 0;
    while i < theirs.len()
        invariant
            i <= theirs@.len(),
            forall|j: int| 0 <= j < i ==> !(#[trigger] lacked_by(ours@)(theirs@[j])),
        decreases theirs@.len() - i,
    {
        if !techs_contain(ours, theirs[i]) {
            proof {
                assert(is_first(theirs@, lacked_by(ours@), i as int));
                crate::seqs::lemma_first_match_at(theirs@, lacked_by(ours@), i as int);
            }
            return Some(theirs[i]);
        }
        i += 1;
    }
    proof {
        crate::seqs::lemma_first_match_none(theirs@, lacked_by(ours@));
    }
    None
}

/// Carrying extends by one step at the far end.
proof fn lemma_carries_extend(g: Seq<(usize, Seq<usize>)>, a: usize, k: usize, n: nat, j: int)
    requires
        carries_within(g, a, k, n),
        0 <= j < cargo_of(g, k).len(),
    ensures
        carries_within(g, a, cargo_of(g, k)[j], n + 1),
    decreases n,
{
    let c = cargo_of(g, k)[j];
    if a == k {
        assert(carries_within(g, c, c, 0));
        assert(carries_within(g, a, c, 1));
        if n > 0 {
            lemma_carries_more_steps(g, a, c, 1, n + 1);
        }
    } else {
        let m = choose|m: int| 0 <= m < cargo_of(g, a).len() && carries_within(g, #[trigger] cargo_of(g, a)[m], k, (n - 1) as nat);
        lemma_carries_extend(g, cargo_of(g, a)[m], k, (n - 1) as nat, j);
        assert(carries_within(g, cargo_of(g, a)[m], c, n));
    }
}

/// Allowing more steps keeps what is carried.
proof fn lemma_carries_more_steps(g: Seq<(usize, Seq<usize>)>, a: usize, k: usize, n: nat, m: nat)
    requires
        carries_within(g, a, k, n),
        n <= m,
    ensures
        carries_within(g, a, k, m),
    decreases n,
{
    if a != k {
        let j = choose|j: int| 0 <= j < cargo_of(g, a).len() && carries_within(g, #[trigger] cargo_of(g, a)[j], k, (n - 1) as nat);
        lemma_carries_more_steps(g, cargo_of(g, a)[j], k, (n - 1) as nat, (m - 1) as nat);
        assert(carries_within(g, cargo_of(g, a)[j], k, (m - 1) as nat));
    }
}

/// A destroyed unit takes down everything it carries, directly or not: the units
/// destroyed with unit `id` include `id` itself and, with each of them, every unit that
/// one carries.
pub proof fn law_cargo_goes_down_with_carrier(g: Seq<(usize, Seq<usize>)>, id: usize, k: usize, j: int)
    requires
        cargo_closure(g, id).contains(k),
        0 <= j < cargo_of(g, k).len(),
    ensures
        cargo_closure(g, id).contains(id),
        cargo_closure(g, id).contains(cargo_of(g, k)[j]),
{
    assert(carries_within(g, id, id, 0));
    let n = choose|n: nat| carries_within(g, id, k, n);
    lemma_carries_extend(g, id, k, n, j);
}

/// No two units share an id.
pub open spec fn unique_unit_ids(units: Seq<Unit>) -> bool {
    forall|i: int, j: int| 0 <= i < units.len() && 0 <= j < units.len() && i != j ==> #[trigger] units[i].id != #[trigger] units[j].id
}

/// A probe team that acts is spent: where no two units share an id, no live unit with
/// the team's id is left.
pub proof fn law_probe_team_spent(old: GameState, new: GameState, unit_id: usize, tx: usize, ty: usize, action: ProbeAction)
    requires
        old.probe_lookups_valid(unit_id, tx, ty, action),
        old.probe_refusal(unit_id, tx, ty, action) is None,
        old.probe_done(new, unit_id, tx, ty, action),
        unique_unit_ids(old.units@),
    ensures
        new.unit_spec(unit_id) is None,
{
    let (u, t) = old.probe_reach(unit_id, tx, ty)->Ok_0;
    let i = crate::seqs::lemma_first_match_index(old.units@, crate::game_state::access::live_unit_with_id(unit_id));
    let ids = cargo_closure(cargo_graph(old.units@), unit_id);
    assert(carries_within(cargo_graph(old.units@), unit_id, unit_id, 0));
    assert(ids.contains(unit_id));
    let w = match action {
        ProbeAction::SubvertUnit => old.units@.update(t.unit->0 as int, Unit { owner: u.owner, ..old.units@[t.unit->0 as int] }),
        _ => old.units@,
    };
    assert(new.units@ == units_destroyed(w, ids));
    assert forall|j: int| 0 <= j < w.len() implies #[trigger] w[j].id == old.units@[j].id by {}
    assert(is_first(w, unit_with_id(unit_id), i)) by {
        assert forall|j: int| 0 <= j < i implies !unit_with_id(unit_id)(#[trigger] w[j]) by {
            assert(old.units@[j].id != old.units@[i].id);
        }
    }
    assert forall|j: int| 0 <= j < new.units@.len() implies !crate::game_state::access::live_unit_with_id(unit_id)(#[trigger] new.units@[j]) by {
        if j != i {
            assert(old.units@[j].id != old.units@[i].id);
        }
    }
    crate::seqs::lemma_first_match_none(new.units@, crate::game_state::access::live_unit_with_id(unit_id));
}

/// Changing a unit's owner keeps every id, place and cargo, so the same units stand on
/// the same tiles and carry the same units.
proof fn lemma_new_owner_same_places(units: Seq<Unit>, v: int, owner: usize, width: usize, height: usize, tiles: Seq<Tile>, ids: Set<usize>)
    requires
        0 <= v < units.len(),
    ensures
        cargo_graph(units.update(v, Unit { owner, ..units[v] })) == cargo_graph(units),
        forall|k: usize| first_index(units.update(v, Unit { owner, ..units[v] }), unit_with_id(k)) == #[trigger] first_index(units, unit_with_id(k)),
        tiles_cleared(tiles, units.update(v, Unit { owner, ..units[v] }), width, height, ids) == tiles_cleared(tiles, units, width, height, ids),
{
    let w = units.update(v, Unit { owner, ..units[v] });
    assert(cargo_graph(w) =~= cargo_graph(units));
    assert forall|i: int| 0 <= i < w.len() implies #[trigger] w[i].id == units[i].id by {}
    assert forall|k: usize| first_index(w, unit_with_id(k)) == #[trigger] first_index(units, unit_with_id(k)) by {
        lemma_same_ids_first_index(w, units, k);
    }
    assert forall|k: usize, t: int| #[trigger] stands_on(w, width, height, k, t) == stands_on(units, width, height, k, t) by {
        assert(first_index(w, unit_with_id(k)) == first_index(units, unit_with_id(k)));
    }
    assert(tiles_cleared(tiles, w, width, height, ids) =~= tiles_cleared(tiles, units, width, height, ids));
}

/// What the first unit with id `id` carries is what its entry in the cargo graph lists.
proof fn lemma_cargo_of_index(units: Seq<Unit>, id: usize)
    ensures
        match first_index(units, unit_with_id(id)) {
            Some(i) => cargo_of(cargo_graph(units), id) == units[i].cargo_unit_ids@,
            None => cargo_of(cargo_graph(units), id) == Seq::<usize>::empty(),
        },
{
    let g = cargo_graph(units);
    match first_index(units, unit_with_id(id)) {
        Some(i) => {
            lemma_first_index_some(units, unit_with_id(id));
            assert forall|j: int| 0 <= j < i implies !entry_with_id(id)(#[trigger] g[j]) by {
                assert(!unit_with_id(id)(units[j]));
            }
            assert(is_first(g, entry_with_id(id), i));
            crate::seqs::lemma_first_match_at(g, entry_with_id(id), i);
        },
        None => {
            assert forall|j: int| 0 <= j < g.len() implies !entry_with_id(id)(#[trigger] g[j]) by {
                if unit_with_id(id)(units[j]) {
                    lemma_match_has_first(units, unit_with_id(id), j);
                }
            }
            crate::seqs::lemma_first_match_none(g, entry_with_id(id));
        },
    }
}

} // verus!
