//! Changing the map and the workshop: terraforming, moving, founding and designing.
use crate::components::UnitDesign;
use crate::game_state::access::{log_event, logged_as, tile_index_of};
use crate::game_state::tiles::isize_step_safe;
use crate::model::{
    Base, EventCategory, Faction, GameState, GovernorMode, Improvement, ProductionItem, Terrain,
    Tile, Unit, UnitKind,
};
use crate::presentation;
use crate::text::{nat_text, owned, push_nat, push_text, text_eq};
use vstd::prelude::*;

verus! {

/// Matches the designs named like `design`.
pub open spec fn same_name_as(design: UnitDesign) -> spec_fn(UnitDesign) -> bool {
    |d: UnitDesign| d.name@ == design.name@
}

/// `c` carries every field of `d`, its abilities equal as a sequence.
pub open spec fn design_copy_of(c: UnitDesign, d: UnitDesign) -> bool {
    &&& c.name == d.name
    &&& c.chassis == d.chassis
    &&& c.weapon == d.weapon
    &&& c.armor == d.armor
    &&& c.abilities@ == d.abilities@
    &&& c.cost == d.cost
}

/// A copy of a design.
fn copy_design(d: &UnitDesign) -> (r: UnitDesign)
    ensures
        design_copy_of(r, *d),
{
    let abilities = d.abilities.clone();
    assert(abilities@ =~= d.abilities@);
    UnitDesign {
        name: d.name.clone(),
        chassis: d.chassis,
        weapon: d.weapon,
        armor: d.armor,
        abilities,
        cost: d.cost,
    }
}

impl GameState {
    /// Faction `owner`, to be changed in place.
    pub fn faction_mut(&mut self, owner: usize) -> (r: Option<&mut Faction>)
        ensures
            match r {
                Some(f) => owner < old(self).factions@.len() && *f == old(self).factions@[owner as int]
                    && final(self).factions@ == old(self).factions@.update(owner as int, *final(f))
                    && *final(self) == (GameState { factions: final(self).factions, ..*old(self) }),
                None => owner >= old(self).factions@.len() && *final(self) == *old(self),
            },
    {
        if owner < self.factions.len() {
            Some(&mut self.factions[owner])
        } else {
            None
        }
    }

    /// The tile at `(x, y)`, to be changed in place; `None` off the map.
    pub fn tile_mut(&mut self, x: usize, y: usize) -> (r: Option<&mut Tile>)
        ensures
            match r {
                Some(t) => old(self).tile_at(x, y) == Some(*t) && final(self).tiles@ == old(self).tiles@.update(
                    tile_index_of(old(self).width, x, y),
                    *final(t),
                ) && *final(self) == (GameState { tiles: final(self).tiles, ..*old(self) }),
                None => old(self).tile_at(x, y) is None && *final(self) == *old(self),
            },
    {
        if x >= self.width || y >= self.height {
            return None;
        }
        let row = match y.checked_mul(self.width) {
            Some(v) => v,
            None => {
                assert(self.tiles@.len() == self.tiles.len());
                return None;
            },
        };
        let idx = match row.checked_add(x) {
            Some(v) => v,
            None => {
                assert(self.tiles@.len() == self.tiles.len());
                return None;
            },
        };
        if idx < self.tiles.len() {
            Some(&mut self.tiles[idx])
        } else {
            None
        }
    }

    /// The base with id `id`, to be changed in place.
    pub fn base_mut(&mut self, id: usize) -> (r: Option<&mut Base>)
        ensures
            match r {
                Some(b) => old(self).base_index_spec(id) is Some && *b == old(self).bases@[old(self).base_index_spec(id)->0]
                    && final(self).bases@ == old(self).bases@.update(old(self).base_index_spec(id)->0, *final(b))
                    && *final(self) == (GameState { bases: final(self).bases, ..*old(self) }),
                None => old(self).base_index_spec(id) is None && *final(self) == *old(self),
            },
    {
        match self.base_index(id) {
            Some(i) => Some(&mut self.bases[i]),
            None => None,
        }
    }

    /// Places a new base of `owner` on the free tile `(x, y)`, named after its id, and
    /// returns that id; `None` off the map or where a base already stands.
    pub fn spawn_base(&mut self, owner: usize, x: usize, y: usize) -> (r: Option<usize>)
        ensures
            match old(self).tile_at(x, y) {
                Some(t) if t.base is None => {
                    let id = old(self).bases@.len() as usize;
                    let idx = tile_index_of(old(self).width, x, y);
                    let b = final(self).bases@.last();
                    &&& r == Some(id)
                    &&& final(self).bases@.len() == old(self).bases@.len() + 1
                    &&& final(self).bases@.drop_last() == old(self).bases@
                    &&& b.id == id && b.owner == owner && b.x == x && b.y == y
                    &&& b.name@ == "Base "@ + nat_text(id as nat)
                    &&& b.population == 1 && b.nutrients_stock == 0 && b.minerals_stock == 0
                    &&& b.production == ProductionItem::Former
                    &&& b.production_queue@.len() == 0 && b.facilities@.len() == 0
                    &&& b.governor_mode == GovernorMode::Off
                    &&& final(self).tiles@ == old(self).tiles@.update(idx, Tile { base: Some(id), ..old(self).tiles@[idx] })
                    &&& logged_as(
                        old(self).log@,
                        final(self).log@,
                        EventCategory::General,
                        "EDITOR: Spawned "@ + b.name@ + " for faction "@ + nat_text(owner as nat) + "."@,
                        old(self).turn,
                    )
                    &&& *final(self) == (GameState {
                        bases: final(self).bases,
                        tiles: final(self).tiles,
                        log: final(self).log,
                        ..*old(self)
                    })
                },
                _ => r is None && *final(self) == *old(self),
            },
    {
        if x >= self.width || y >= self.height {
            return None;
        }
        match self.tile(x, y) {
            Some(t) => {
                if t.base.is_some() {
                    return None;
                }
            },
            None => return None,
        }
        let id = self.bases.len();
        let mut name = owned("Base ");
        push_nat(&mut name, id as u64);
        let base = Base {
            id,
            owner,
            name: name.clone(),
            x,
            y,
            population: 1,
            nutrients_stock: 0,
            minerals_stock: 0,
            production: ProductionItem::Former,
            production_queue: Vec::new(),
            facilities: Vec::new(),
            governor_mode: GovernorMode::Off,
        };
        self.bases.push(base);
        assert(self.bases@.drop_last() =~= old(self).bases@);
        assert(self.tiles@.len() == self.tiles.len());
        let idx = self.tile_index(x, y);
        self.tiles[idx].base = Some(id);
        assert(self.tiles@ =~= old(self).tiles@.update(idx as int, Tile { base: Some(id), ..old(self).tiles@[idx as int] }));
        let mut message = owned("EDITOR: Spawned ");
        push_text(&mut message, name.as_str());
        push_text(&mut message, " for faction ");
        push_nat(&mut message, owner as u64);
        push_text(&mut message, ".");
        log_event(self, EventCategory::General, message);
        Some(id)
    }

    /// Why `build_improvement(unit_id, improvement)` is refused, if it is.
    pub open spec fn improvement_refusal(self, unit_id: usize, improvement: Improvement) -> Option<Seq<char>> {
        match self.unit_spec(unit_id) {
            None => Some("Selected unit no longer exists."@),
            Some(u) => if !(u.kind is Former) {
                Some("Only formers can terraform."@)
            } else if u.moves_left <= 0 {
                Some("That former has no moves left this turn."@)
            } else {
                let t = self.tiles@[tile_index_of(self.width, u.x, u.y)];
                if t.terrain == Terrain::Ocean || t.terrain == Terrain::Crater {
                    Some("Cannot terraform ocean yet."@)
                } else if improvement == Improvement::ThermalBorehole && self.adjacent_count_spec(
                    u.x,
                    u.y,
                    Improvement::ThermalBorehole,
                ) > 0 {
                    Some("Thermal Boreholes cannot be built adjacent to each other."@)
                } else {
                    None
                }
            },
        }
    }

    /// Has the live former `unit_id` build `improvement` on its land tile, which ends its
    /// move; boreholes may not touch one another.
    pub fn build_improvement(&mut self, unit_id: usize, improvement: Improvement) -> (r: Result<(), String>)
        requires
            old(self).unit_spec(unit_id) matches Some(u) ==> (u.kind is Former && u.moves_left > 0 ==> {
                &&& tile_index_of(old(self).width, u.x, u.y) < old(self).tiles@.len()
                &&& isize_step_safe(u.x)
                &&& isize_step_safe(u.y)
            }),
        ensures
            match old(self).improvement_refusal(unit_id, improvement) {
                Some(reason) => r matches Err(e) && e@ == reason && *final(self) == *old(self),
                None => {
                    let u = old(self).unit_spec(unit_id)->0;
                    let k = old(self).live_unit_index_spec(unit_id)->0;
                    let idx = tile_index_of(old(self).width, u.x, u.y);
                    &&& r is Ok
                    &&& final(self).tiles@ == old(self).tiles@.update(
                        idx,
                        Tile { improvement: Some(improvement), ..old(self).tiles@[idx] },
                    )
                    &&& final(self).units@ == old(self).units@.update(k, Unit { moves_left: 0, ..old(self).units@[k] })
                    &&& logged_as(
                        old(self).log@,
                        final(self).log@,
                        EventCategory::General,
                        "Former built "@ + presentation::improvement_name_text(improvement) + " at "@
                            + nat_text(u.x as nat) + ", "@ + nat_text(u.y as nat) + "."@,
                        old(self).turn,
                    )
                    &&& *final(self) == (GameState {
                        tiles: final(self).tiles,
                        units: final(self).units,
                        log: final(self).log,
                        ..*old(self)
                    })
                },
            },
    {
        let k = match self.live_unit_index(unit_id) {
            Some(k) => k,
            None => return Err(owned("Selected unit no longer exists.")),
        };
        let x = self.units[k].x;
        let y = self.units[k].y;
        if !matches!(self.units[k].kind, UnitKind::Former) {
            return Err(owned("Only formers can terraform."));
        }
        if self.units[k].moves_left <= 0 {
            return Err(owned("That former has no moves left this turn."));
        }
        assert(self.tiles@.len() == self.tiles.len());
        let idx = self.tile_index(x, y);
        if !self.tiles[idx].terrain.is_land() {
            return Err(owned("Cannot terraform ocean yet."));
        }
        if improvement == Improvement::ThermalBorehole {
            if self.count_adjacent_improvements(x, y, Improvement::ThermalBorehole) > 0 {
                return Err(owned("Thermal Boreholes cannot be built adjacent to each other."));
            }
        }
        self.tiles[idx].improvement = Some(improvement);
        self.units[k].moves_left = 0;
        assert(self.tiles@ =~= old(self).tiles@.update(
            idx as int,
            Tile { improvement: Some(improvement), ..old(self).tiles@[idx as int] },
        ));
        assert(self.units@ =~= old(self).units@.update(k as int, Unit { moves_left: 0, ..old(self).units@[k as int] }));
        let mut message = owned("Former built ");
        push_text(&mut message, presentation::improvement_name(improvement));
        push_text(&mut message, " at ");
        push_nat(&mut message, x as u64);
        push_text(&mut message, ", ");
        push_nat(&mut message, y as u64);
        push_text(&mut message, ".");
        log_event(self, EventCategory::General, message);
        Ok(())
    }

    /// Moves live unit `unit_id` to `(target_x, target_y)` with no fight: its old tile is
    /// left empty, the target tile holds it, and it spends one move for a step to a
    /// neighbouring tile or all its moves for a longer jump.
    pub fn move_unit_without_combat(&mut self, unit_id: usize, target_x: usize, target_y: usize) -> (r: Result<(), String>)
        requires
            old(self).unit_spec(unit_id) matches Some(u) ==> {
                &&& tile_index_of(old(self).width, u.x, u.y) < old(self).tiles@.len()
                &&& tile_index_of(old(self).width, target_x, target_y) < old(self).tiles@.len()
                &&& u.moves_left > i32::MIN
            },
        ensures
            old(self).unit_spec(unit_id) is None ==> (r matches Err(e) && e@ == "Selected unit no longer exists."@
                && *final(self) == *old(self)),
            old(self).unit_spec(unit_id) matches Some(u) ==> {
                let k = old(self).live_unit_index_spec(unit_id)->0;
                let from = tile_index_of(old(self).width, u.x, u.y);
                let to = tile_index_of(old(self).width, target_x, target_y);
                let dx: int = if u.x >= target_x { u.x - target_x } else { target_x - u.x };
                let dy: int = if u.y >= target_y { u.y - target_y } else { target_y - u.y };
                let adjacent = dx <= 1 && dy <= 1 && dx + dy > 0;
                let cleared = old(self).tiles@.update(from, Tile { unit: None, ..old(self).tiles@[from] });
                &&& r is Ok
                &&& final(self).tiles@ == cleared.update(to, Tile { unit: Some(unit_id), ..cleared[to] })
                &&& final(self).units@ == old(self).units@.update(
                    k,
                    Unit {
                        x: target_x,
                        y: target_y,
                        moves_left: if adjacent { (u.moves_left - 1) as i32 } else { 0 },
                        ..u
                    },
                )
                &&& *final(self) == (GameState { tiles: final(self).tiles, units: final(self).units, ..*old(self) })
            },
    {
        let k = match self.live_unit_index(unit_id) {
            Some(k) => k,
            None => return Err(owned("Selected unit no longer exists.")),
        };
        let x = self.units[k].x;
        let y = self.units[k].y;
        assert(self.tiles@.len() == self.tiles.len());
        let from_idx = self.tile_index(x, y);
        let target_idx = self.tile_index(target_x, target_y);
        self.tiles[from_idx].unit = None;
        let ghost cleared = self.tiles@;
        self.tiles[target_idx].unit = Some(unit_id);
        assert(cleared =~= old(self).tiles@.update(from_idx as int, Tile { unit: None, ..old(self).tiles@[from_idx as int] }));
        assert(self.tiles@ =~= cleared.update(target_idx as int, Tile { unit: Some(unit_id), ..cleared[target_idx as int] }));
        let adjacent = Self::is_adjacent(x, y, target_x, target_y);
        self.units[k].x = target_x;
        self.units[k].y = target_y;
        if adjacent {
            self.units[k].moves_left = self.units[k].moves_left - 1;
        } else {
            self.units[k].moves_left = 0;
        }
        assert(self.units@ =~= old(self).units@.update(
            k as int,
            Unit {
                x: target_x,
                y: target_y,
                moves_left: if adjacent { (old(self).units@[k as int].moves_left - 1) as i32 } else { 0 },
                ..old(self).units@[k as int]
            },
        ));
        Ok(())
    }

    /// The workshop index of `design` for faction `owner`: that of the first design with
    /// the same name, or a new entry holding a copy of it.
    pub fn ensure_design_index(&mut self, owner: usize, design: &UnitDesign) -> (r: Result<usize, String>)
        ensures
            owner >= old(self).factions@.len() ==> (r matches Err(e) && e@ == "Faction not found."@
                && *final(self) == *old(self)),
            owner < old(self).factions@.len() ==> {
                let designs = old(self).factions@[owner as int].unit_designs@;
                match crate::seqs::first_index(designs, same_name_as(*design)) {
                    Some(i) => r == Ok::<usize, String>(i as usize) && *final(self) == *old(self),
                    None => {
                        let f = final(self).factions@[owner as int];
                        &&& r == Ok::<usize, String>(designs.len() as usize)
                        &&& final(self).factions@ == old(self).factions@.update(owner as int, f)
                        &&& f.unit_designs@.len() == designs.len() + 1
                        &&& f.unit_designs@.drop_last() == designs
                        &&& design_copy_of(f.unit_designs@.last(), *design)
                        &&& f == (Faction { unit_designs: f.unit_designs, ..old(self).factions@[owner as int] })
                        &&& *final(self) == (GameState { factions: final(self).factions, ..*old(self) })
                    },
                }
            },
    {
        if owner >= self.factions.len() {
            return Err(owned("Faction not found."));
        }
        let ghost designs = self.factions@[owner as int].unit_designs@;
        let mut i: usize = 0;
        while i < self.factions[owner].unit_designs.len()
            invariant
                owner < self.factions@.len(),
                *self == *old(self),
                designs == self.factions@[owner as int].unit_designs@,
                i <= designs.len(),
                forall|j: int| 0 <= j < i ==> !same_name_as(*design)(#[trigger] designs[j]),
            decreases designs.len() - i,
        {
            if text_eq(self.factions[owner].unit_designs[i].name.as_str(), design.name.as_str()) {
                proof {
                    assert(crate::seqs::is_first(designs, same_name_as(*design), i as int));
                    crate::seqs::lemma_first_index_at(designs, same_name_as(*design), i as int);
                }
                return Ok(i);
            }
            i += 1;
        }
        proof {
            crate::seqs::lemma_first_index_none(designs, same_name_as(*design));
        }
        let copy = copy_design(design);
        self.factions[owner].unit_designs.push(copy);
        assert(self.factions@[owner as int].unit_designs@.drop_last() =~= designs);
        assert(self.factions@ =~= old(self).factions@.update(owner as int, self.factions@[owner as int]));
        Ok(self.factions[owner].unit_designs.len() - 1)
    }
}

} // verus!
