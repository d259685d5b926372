//! Orders given to single units: activities, transports, promotion and interception.
use crate::components::{Ability, UnitDesign};
use crate::content;
use crate::game_state::access::{
    live_unit_with_id, log_event, logged_as, manhattan, tile_index_of, unit_with_id,
};
use crate::model::{EventCategory, GameState, Terrain, Tile, Unit, UnitActivity};
use crate::presentation;
use crate::text::{nat_text, owned, push_nat, push_text};
use vstd::prelude::*;

verus! {

/// `b` is `a` with at most its position, moves and cargo changed.
pub open spec fn unit_same_but_place(a: Unit, b: Unit) -> bool {
    &&& a.id == b.id
    &&& a.owner == b.owner
    &&& a.kind == b.kind
    &&& a.design_index == b.design_index
    &&& a.hp == b.hp
    &&& a.experience == b.experience
    &&& a.activity == b.activity
    &&& a.alive == b.alive
}

/// `b` is tile `a` with at most its unit changed.
pub open spec fn tile_same_but_unit(a: Tile, b: Tile) -> bool {
    b == (Tile { unit: b.unit, ..a })
}

/// Matches every id but `id`.
pub open spec fn other_than(id: usize) -> spec_fn(usize) -> bool {
    |c: usize| c != id
}

/// "(x, y)".
pub open spec fn paren_coordinates(x: usize, y: usize) -> Seq<char> {
    "("@ + nat_text(x as nat) + ", "@ + nat_text(y as nat) + ")"@
}

/// Whether `v` lists `id`.
fn ids_contain(v: &Vec<usize>, id: usize) -> (r: bool)
    ensures
        r == v@.contains(id),
{
    let mut i: usize = 0;
    while i < v.len()
        invariant
            i <= v@.len(),
            forall|j: int| 0 <= j < i ==> v@[j] != id,
        decreases v@.len() - i,
    {
        if v[i] == id {
            assert(v@[i as int] == id);
            return true;
        }
        i += 1;
    }
    false
}

/// `v` without the entries equal to `id`, in order.
fn ids_without(v: &Vec<usize>, id: usize) -> (r: Vec<usize>)
    ensures
        r@ == v@.filter(other_than(id)),
{
    let mut r: Vec<usize> = Vec::new();
    let mut k: usize = 0;
    while k < v.len()
        invariant
            k <= v@.len(),
            r@ == v@.take(k as int).filter(other_than(id)),
        decreases v@.len() - k,
    {
        proof {
            assert(v@.take(k + 1) =~= v@.take(k as int).push(v@[k as int]));
            v@.take(k as int).lemma_filter_push(v@[k as int], other_than(id));
        }
        if v[k] != id {
            r.push(v[k]);
        }
        k += 1;
    }
    assert(v@.take(v@.len() as int) =~= v@);
    r
}

/// "(x, y)." appended to a message.
fn push_coordinates(s: &mut String, x: usize, y: usize)
    ensures
        final(s)@ == old(s)@ + paren_coordinates(x, y) + "."@,
{
    push_text(s, "(");
    push_nat(s, x as u64);
    push_text(s, ", ");
    push_nat(s, y as u64);
    push_text(s, ")");
    push_text(s, ".");
    assert(s@ =~= old(s)@ + paren_coordinates(x, y) + "."@);
}

impl GameState {
    /// Why `load_unit(unit_id, transport_id)` is refused, if it is.
    pub open spec fn load_refusal(self, unit_id: usize, transport_id: usize) -> Option<Seq<char>> {
        if unit_id == transport_id {
            Some("Unit cannot load itself"@)
        } else if self.unit_spec(unit_id) is None {
            Some("Unit not found"@)
        } else if self.unit_spec(transport_id) is None {
            Some("Transport not found"@)
        } else {
            let u = self.unit_spec(unit_id)->0;
            let t = self.unit_spec(transport_id)->0;
            if u.owner != t.owner {
                Some("Cannot load units from another faction"@)
            } else if !self.unit_has_ability_spec(transport_id, Ability::Transport) {
                Some("Target unit is not a transport"@)
            } else if (manhattan(u.x, u.y, t.x, t.y) as i32) > 1 {
                Some("Units must be adjacent or in the same tile to load"@)
            } else if self.units@[self.unit_index_spec(transport_id)->0].cargo_unit_ids@.len() >= 2 {
                Some("Transport is full"@)
            } else {
                None
            }
        }
    }

    /// Sets the activity of live unit `unit_id`; any activity but idling ends its move.
    pub fn set_unit_activity(&mut self, unit_id: usize, activity: UnitActivity)
        ensures
            match old(self).live_unit_index_spec(unit_id) {
                Some(i) => {
                    &&& final(self).units@ == old(self).units@.update(i, final(self).units@[i])
                    &&& final(self).units@[i] == (Unit {
                        activity,
                        moves_left: if activity != UnitActivity::Idle {
                            0
                        } else {
                            old(self).units@[i].moves_left
                        },
                        ..old(self).units@[i]
                    })
                    &&& *final(self) == (GameState { units: final(self).units, ..*old(self) })
                },
                None => *final(self) == *old(self),
            },
    {
        let i = match self.live_unit_index(unit_id) {
            Some(i) => i,
            None => return ,
        };
        self.units[i].activity = activity;
        if activity != UnitActivity::Idle {
            self.units[i].moves_left = 0;
        }
        assert(self.units@ =~= old(self).units@.update(i as int, self.units@[i as int]));
    }

    /// Sets the moves left of live unit `unit_id`.
    pub fn set_unit_moves(&mut self, unit_id: usize, moves: i32)
        ensures
            match old(self).live_unit_index_spec(unit_id) {
                Some(i) => {
                    &&& final(self).units@ == old(self).units@.update(
                        i,
                        Unit { moves_left: moves, ..old(self).units@[i] },
                    )
                    &&& *final(self) == (GameState { units: final(self).units, ..*old(self) })
                },
                None => *final(self) == *old(self),
            },
    {
        let i = match self.live_unit_index(unit_id) {
            Some(i) => i,
            None => return ,
        };
        self.units[i].moves_left = moves;
        assert(self.units@ =~= old(self).units@.update(
            i as int,
            Unit { moves_left: moves, ..old(self).units@[i as int] },
        ));
    }

    /// Raises live unit `unit_id` one rank, up to elite, and announces the new rank.
    pub fn promote_unit(&mut self, unit_id: usize)
        requires
            old(self).unit_spec(unit_id) matches Some(u) ==> u.experience < i32::MAX,
        ensures
            match old(self).live_unit_index_spec(unit_id) {
                Some(i) => {
                    let u = old(self).units@[i];
                    let raised: i32 = if u.experience + 1 < 3 { (u.experience + 1) as i32 } else { 3 };
                    &&& final(self).units@ == old(self).units@.update(
                        i,
                        Unit { experience: raised, ..u },
                    )
                    &&& if raised > u.experience {
                        &&& logged_as(
                            old(self).log@,
                            final(self).log@,
                            EventCategory::General,
                            (if u.owner < old(self).factions@.len() {
                                old(self).factions@[u.owner as int].name@
                            } else {
                                "Faction"@
                            }) + " "@ + content::unit_name_text(u.kind) + " advanced to "@
                                + presentation::unit_rank_name_text(raised) + " rank."@,
                            old(self).turn,
                        )
                        &&& *final(self) == (GameState {
                            units: final(self).units,
                            log: final(self).log,
                            ..*old(self)
                        })
                    } else {
                        *final(self) == (GameState { units: final(self).units, ..*old(self) })
                    }
                },
                None => *final(self) == *old(self),
            },
    {
        let i = match self.live_unit_index(unit_id) {
            Some(i) => i,
            None => return ,
        };
        let previous = self.units[i].experience;
        let raised = if previous + 1 < 3 { previous + 1 } else { 3 };
        self.units[i].experience = raised;
        assert(self.units@ =~= old(self).units@.update(
            i as int,
            Unit { experience: raised, ..old(self).units@[i as int] },
        ));
        if raised > previous {
            let owner = self.units[i].owner;
            let mut message = owned(self.faction_name(owner));
            push_text(&mut message, " ");
            push_text(&mut message, presentation::unit_name(self.units[i].kind.copied()));
            push_text(&mut message, " advanced to ");
            push_text(&mut message, presentation::unit_rank_name(raised));
            push_text(&mut message, " rank.");
            log_event(self, EventCategory::General, message);
        }
    }

    /// Adds `design` to the workshop of faction `owner`, if there is one.
    pub fn add_unit_design(&mut self, owner: usize, design: UnitDesign)
        ensures
            owner < old(self).factions@.len() ==> {
                &&& final(self).factions@ == old(self).factions@.update(
                    owner as int,
                    final(self).factions@[owner as int],
                )
                &&& final(self).factions@[owner as int].unit_designs@
                    == old(self).factions@[owner as int].unit_designs@.push(design)
                &&& final(self).factions@[owner as int] == (crate::model::Faction {
                    unit_designs: final(self).factions@[owner as int].unit_designs,
                    ..old(self).factions@[owner as int]
                })
                &&& *final(self) == (GameState { factions: final(self).factions, ..*old(self) })
            },
            owner >= old(self).factions@.len() ==> *final(self) == *old(self),
    {
        if owner < self.factions.len() {
            self.factions[owner].unit_designs.push(design);
            assert(self.factions@ =~= old(self).factions@.update(owner as int, self.factions@[owner as int]));
        }
    }

    /// Loads live unit `unit_id` onto live transport `transport_id` of the same faction: the
    /// unit leaves the map, joins the cargo (at most two) and ends its move.
    pub fn load_unit(&mut self, unit_id: usize, transport_id: usize) -> (r: Result<(), String>)
        requires
            old(self).load_refusal(unit_id, transport_id) is None ==> tile_index_of(
                old(self).width,
                old(self).unit_spec(unit_id)->0.x,
                old(self).unit_spec(unit_id)->0.y,
            ) < old(self).tiles@.len(),
            old(self).unit_spec(unit_id) is Some && old(self).unit_spec(transport_id) is Some
                ==> manhattan(
                old(self).unit_spec(unit_id)->0.x,
                old(self).unit_spec(unit_id)->0.y,
                old(self).unit_spec(transport_id)->0.x,
                old(self).unit_spec(transport_id)->0.y,
            ) <= usize::MAX,
        ensures
            match old(self).load_refusal(unit_id, transport_id) {
                Some(reason) => r matches Err(e) && e@ == reason && *final(self) == *old(self),
                None => {
                    let u = old(self).unit_spec(unit_id)->0;
                    let ui = old(self).unit_index_spec(unit_id)->0;
                    let ti = old(self).unit_index_spec(transport_id)->0;
                    let idx = tile_index_of(old(self).width, u.x, u.y);
                    &&& r is Ok
                    &&& final(self).units@.len() == old(self).units@.len()
                    &&& forall|j: int|
                        0 <= j < old(self).units@.len() && j != ui && j != ti
                            ==> #[trigger] final(self).units@[j] == old(self).units@[j]
                    &&& final(self).units@[ui] == (Unit { moves_left: 0, ..old(self).units@[ui] })
                    &&& unit_same_but_place(old(self).units@[ti], final(self).units@[ti])
                    &&& final(self).units@[ti].x == old(self).units@[ti].x
                    &&& final(self).units@[ti].y == old(self).units@[ti].y
                    &&& final(self).units@[ti].moves_left == old(self).units@[ti].moves_left
                    &&& final(self).units@[ti].cargo_unit_ids@ == old(self).units@[ti].cargo_unit_ids@.push(unit_id)
                    &&& final(self).tiles@ == if old(self).tiles@[idx].unit == Some(unit_id) {
                        old(self).tiles@.update(idx, Tile { unit: None, ..old(self).tiles@[idx] })
                    } else {
                        old(self).tiles@
                    }
                    &&& logged_as(
                        old(self).log@,
                        final(self).log@,
                        EventCategory::General,
                        (if u.owner < old(self).factions@.len() {
                            old(self).factions@[u.owner as int].name@
                        } else {
                            "Faction"@
                        }) + " loaded a unit onto a transport at "@ + paren_coordinates(u.x, u.y) + "."@,
                        old(self).turn,
                    )
                    &&& *final(self) == (GameState {
                        units: final(self).units,
                        tiles: final(self).tiles,
                        log: final(self).log,
                        ..*old(self)
                    })
                },
            },
    {
        if unit_id == transport_id {
            return Err(owned("Unit cannot load itself"));
        }
        let unit = match self.unit(unit_id) {
            Some(u) => u,
            None => return Err(owned("Unit not found")),
        };
        let transport = match self.unit(transport_id) {
            Some(t) => t,
            None => return Err(owned("Transport not found")),
        };
        if unit.owner != transport.owner {
            return Err(owned("Cannot load units from another faction"));
        }
        if !self.unit_has_ability(transport_id, Ability::Transport) {
            return Err(owned("Target unit is not a transport"));
        }
        let (ux, uy, tx, ty, owner) = (unit.x, unit.y, transport.x, transport.y, unit.owner);
        if self.distance(ux, uy, tx, ty) > 1 {
            return Err(owned("Units must be adjacent or in the same tile to load"));
        }
        proof {
            let k = crate::seqs::lemma_first_match_index(self.units@, live_unit_with_id(unit_id));
            assert(unit_with_id(unit_id)(self.units@[k]));
            let m = crate::seqs::lemma_first_match_index(self.units@, live_unit_with_id(transport_id));
            assert(unit_with_id(transport_id)(self.units@[m]));
        }
        let unit_index = match self.unit_index(unit_id) {
            Some(i) => i,
            None => return Err(owned("Unit not found")),
        };
        let transport_index = match self.unit_index(transport_id) {
            Some(i) => i,
            None => return Err(owned("Transport not found")),
        };
        if self.units[transport_index].cargo_unit_ids.len() >= 2 {
            return Err(owned("Transport is full"));
        }
        assert(self.tiles@.len() == self.tiles.len());
        let tile_index = self.tile_index(ux, uy);
        if self.tiles[tile_index].unit == Some(unit_id) {
            self.tiles[tile_index].unit = None;
            assert(self.tiles@ =~= old(self).tiles@.update(
                tile_index as int,
                Tile { unit: None, ..old(self).tiles@[tile_index as int] },
            ));
        }
        self.units[transport_index].cargo_unit_ids.push(unit_id);
        self.units[unit_index].moves_left = 0;
        let mut message = owned(self.faction_name(owner));
        push_text(&mut message, " loaded a unit onto a transport at ");
        push_coordinates(&mut message, ux, uy);
        log_event(self, EventCategory::General, message);
        Ok(())
    }

    /// Why `unload_unit(unit_id, transport_id, target_x, target_y)` is refused, if it is.
    pub open spec fn unload_refusal(self, unit_id: usize, transport_id: usize, target_x: usize, target_y: usize) -> Option<Seq<char>> {
        if self.unit_spec(transport_id) is None {
            Some("Transport not found"@)
        } else {
            let t = self.unit_spec(transport_id)->0;
            let tile = self.tiles@[tile_index_of(self.width, target_x, target_y)];
            let land = tile.terrain != Terrain::Ocean && tile.terrain != Terrain::Crater;
            if (manhattan(t.x, t.y, target_x, target_y) as i32) > 1 {
                Some("Cannot unload to a non-adjacent tile."@)
            } else if self.unit_index_spec(unit_id) is None {
                Some("Unit not found"@)
            } else if !land && !self.unit_can_enter_ocean_spec(unit_id) {
                Some("That unit cannot enter the ocean."@)
            } else if land && !self.unit_can_enter_land_spec(unit_id) {
                Some("That unit cannot enter land."@)
            } else if !self.units@[self.unit_index_spec(transport_id)->0].cargo_unit_ids@.contains(unit_id) {
                Some("Unit not in this transport's cargo"@)
            } else if tile.unit is Some {
                Some("Destination tile already occupied"@)
            } else {
                None
            }
        }
    }

    /// Unloads unit `unit_id` from live transport `transport_id` onto the free tile
    /// `(target_x, target_y)` next to the transport; the unit ends its move there.
    pub fn unload_unit(&mut self, unit_id: usize, transport_id: usize, target_x: usize, target_y: usize) -> (r: Result<(), String>)
        requires
            old(self).unit_spec(transport_id) matches Some(t) ==> manhattan(t.x, t.y, target_x, target_y)
                <= usize::MAX,
            old(self).unit_spec(transport_id) matches Some(t) && (manhattan(
                t.x,
                t.y,
                target_x,
                target_y,
            ) as i32) <= 1 && old(self).unit_index_spec(unit_id) is Some ==> tile_index_of(
                old(self).width,
                target_x,
                target_y,
            ) < old(self).tiles@.len(),
        ensures
            match old(self).unload_refusal(unit_id, transport_id, target_x, target_y) {
                Some(reason) => r matches Err(e) && e@ == reason && *final(self) == *old(self),
                None => {
                    let t = old(self).unit_spec(transport_id)->0;
                    let ui = old(self).unit_index_spec(unit_id)->0;
                    let ti = old(self).unit_index_spec(transport_id)->0;
                    let idx = tile_index_of(old(self).width, target_x, target_y);
                    &&& r is Ok
                    &&& final(self).units@.len() == old(self).units@.len()
                    &&& forall|j: int|
                        0 <= j < old(self).units@.len() ==> {
                            let a = old(self).units@[j];
                            let b = #[trigger] final(self).units@[j];
                            &&& unit_same_but_place(a, b)
                            &&& b.x == (if j == ui { target_x } else { a.x })
                            &&& b.y == (if j == ui { target_y } else { a.y })
                            &&& b.moves_left == (if j == ui { 0 } else { a.moves_left })
                            &&& b.cargo_unit_ids@ == (if j == ti {
                                a.cargo_unit_ids@.filter(other_than(unit_id))
                            } else {
                                a.cargo_unit_ids@
                            })
                            &&& (j != ui && j != ti ==> b == a)
                        }
                    &&& final(self).tiles@ == old(self).tiles@.update(
                        idx,
                        Tile { unit: Some(unit_id), ..old(self).tiles@[idx] },
                    )
                    &&& logged_as(
                        old(self).log@,
                        final(self).log@,
                        EventCategory::General,
                        (if t.owner < old(self).factions@.len() {
                            old(self).factions@[t.owner as int].name@
                        } else {
                            "Faction"@
                        }) + " unloaded a unit at "@ + paren_coordinates(target_x, target_y) + "."@,
                        old(self).turn,
                    )
                    &&& *final(self) == (GameState {
                        units: final(self).units,
                        tiles: final(self).tiles,
                        log: final(self).log,
                        ..*old(self)
                    })
                },
            },
    {
        let transport = match self.unit(transport_id) {
            Some(t) => t,
            None => return Err(owned("Transport not found")),
        };
        let (tx, ty, owner) = (transport.x, transport.y, transport.owner);
        if self.distance(tx, ty, target_x, target_y) > 1 {
            return Err(owned("Cannot unload to a non-adjacent tile."));
        }
        let unit_index = match self.unit_index(unit_id) {
            Some(i) => i,
            None => return Err(owned("Unit not found")),
        };
        assert(self.tiles@.len() == self.tiles.len());
        let tile_index = self.tile_index(target_x, target_y);
        let land = self.tiles[tile_index].terrain.is_land();
        if !land && !self.unit_can_enter_ocean(unit_id) {
            return Err(owned("That unit cannot enter the ocean."));
        }
        if land && !self.unit_can_enter_land(unit_id) {
            return Err(owned("That unit cannot enter land."));
        }
        proof {
            let m = crate::seqs::lemma_first_match_index(self.units@, live_unit_with_id(transport_id));
            assert(unit_with_id(transport_id)(self.units@[m]));
        }
        let transport_index = match self.unit_index(transport_id) {
            Some(i) => i,
            None => return Err(owned("Transport not found")),
        };
        if !ids_contain(&self.units[transport_index].cargo_unit_ids, unit_id) {
            return Err(owned("Unit not in this transport's cargo"));
        }
        if self.tiles[tile_index].unit.is_some() {
            return Err(owned("Destination tile already occupied"));
        }
        let remaining = ids_without(&self.units[transport_index].cargo_unit_ids, unit_id);
        self.units[transport_index].cargo_unit_ids = remaining;
        self.units[unit_index].x = target_x;
        self.units[unit_index].y = target_y;
        self.units[unit_index].moves_left = 0;
        self.tiles[tile_index].unit = Some(unit_id);
        assert(self.tiles@ =~= old(self).tiles@.update(
            tile_index as int,
            Tile { unit: Some(unit_id), ..old(self).tiles@[tile_index as int] },
        ));
        let mut message = owned(self.faction_name(owner));
        push_text(&mut message, " unloaded a unit at ");
        push_coordinates(&mut message, target_x, target_y);
        log_event(self, EventCategory::General, message);
        Ok(())
    }

    /// The first live patrolling aircraft of another faction than live unit
    /// `target_unit_id` that stands on or next to `(x, y)`, provided the target flies or
    /// `(x, y)` holds no base.
    pub open spec fn is_interceptor(self, target_unit_id: usize, x: usize, y: usize, u: Unit) -> bool {
        let target = self.unit_spec(target_unit_id)->0;
        let dx: int = if u.x >= x { u.x - x } else { x - u.x };
        let dy: int = if u.y >= y { u.y - y } else { y - u.y };
        &&& u.alive
        &&& u.owner != target.owner
        &&& u.activity == UnitActivity::Patrol
        &&& self.unit_is_aircraft_spec(u.id)
        &&& dx <= 1 && dy <= 1
        &&& (self.unit_is_aircraft_spec(target_unit_id) || !(self.tile_at(x, y) matches Some(t)
            && t.base is Some))
    }

    /// The live aircraft that intercepts live unit `target_unit_id` as it enters `(x, y)`.
    pub fn find_interceptor(&self, target_unit_id: usize, x: usize, y: usize) -> (r: Option<usize>)
        ensures
            self.unit_spec(target_unit_id) is None ==> r is None,
            self.unit_spec(target_unit_id) is Some ==> match r {
                Some(id) => exists|i: int|
                    0 <= i < self.units@.len() && #[trigger] self.is_interceptor(
                        target_unit_id,
                        x,
                        y,
                        self.units@[i],
                    ) && self.units@[i].id == id && forall|j: int|
                        0 <= j < i ==> !self.is_interceptor(target_unit_id, x, y, #[trigger] self.units@[j]),
                None => forall|j: int|
                    0 <= j < self.units@.len() ==> !self.is_interceptor(
                        target_unit_id,
                        x,
                        y,
                        #[trigger] self.units@[j],
                    ),
            },
    {
        let target = match self.unit(target_unit_id) {
            Some(t) => t,
            None => return None,
        };
        let target_owner = target.owner;
        let is_target_aircraft = self.unit_is_aircraft(target_unit_id);
        let open_ground = match self.tile(x, y) {
            Some(t) => t.base.is_none(),
            None => true,
        };
        let mut i: usize = 0;
        while i < self.units.len()
            invariant
                i <= self.units@.len(),
                self.unit_spec(target_unit_id) is Some,
                target_owner == self.unit_spec(target_unit_id)->0.owner,
                is_target_aircraft == self.unit_is_aircraft_spec(target_unit_id),
                open_ground == !(self.tile_at(x, y) matches Some(t) && t.base is Some),
                forall|j: int|
                    0 <= j < i ==> !self.is_interceptor(target_unit_id, x, y, #[trigger] self.units@[j]),
            decreases self.units@.len() - i,
        {
            let u = &self.units[i];
            if u.alive && u.owner != target_owner && u.activity == UnitActivity::Patrol
                && self.unit_is_aircraft(u.id) {
                let near = Self::is_adjacent(u.x, u.y, x, y) || (u.x == x && u.y == y);
                if near && (is_target_aircraft || open_ground) {
                    assert(self.is_interceptor(target_unit_id, x, y, self.units@[i as int]));
                    return Some(u.id);
                }
            }
            i += 1;
        }
        None
    }
}

} // verus!
