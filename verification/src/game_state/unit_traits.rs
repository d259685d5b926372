//! What a unit is and can do, as read from its kind and its faction's design.
use crate::components::{Ability, Chassis, UnitDesign, Weapon};
use crate::content;
use crate::game_state::access::manhattan;
use crate::model::{Base, GameState, Terrain, Unit, UnitKind};
use vstd::prelude::*;

verus! {

/// Whether `v` lists `a`.
fn abilities_contain(v: &Vec<Ability>, a: Ability) -> (r: bool)
    ensures
        r == v@.contains(a),
{
    let mut i: usize = 0;
    while i < v.len()
        invariant
            i <= v@.len(),
            forall|j: int| 0 <= j < i ==> v@[j] != a,
        decreases v@.len() - i,
    {
        if v[i] == a {
            assert(v@[i as int] == a);
            return true;
        }
        i += 1;
    }
    false
}

impl GameState {
    /// The design that `u` was built from, looked up in its owner's workshop.
    pub open spec fn design_for(self, u: Unit) -> Option<UnitDesign> {
        if u.owner < self.factions@.len() && u.design_index
            < self.factions@[u.owner as int].unit_designs@.len() {
            Some(self.factions@[u.owner as int].unit_designs@[u.design_index as int])
        } else {
            None
        }
    }

    /// Whether the live unit `unit_id` has a design listing `ability`.
    pub open spec fn unit_has_ability_spec(self, unit_id: usize, ability: Ability) -> bool {
        match self.unit_spec(unit_id) {
            Some(u) => match self.design_for(u) {
                Some(d) => d.abilities@.contains(ability),
                None => false,
            },
            None => false,
        }
    }

    /// Whether the live unit `unit_id` flies.
    pub open spec fn unit_is_aircraft_spec(self, unit_id: usize) -> bool {
        match self.unit_spec(unit_id) {
            Some(u) => match u.kind {
                UnitKind::Needlejet => true,
                UnitKind::CustomUnit(d) => d.chassis == Chassis::Aircraft,
                _ => false,
            },
            None => false,
        }
    }

    /// Whether the live unit `unit_id` is a ship.
    pub open spec fn unit_is_sea_unit_spec(self, unit_id: usize) -> bool {
        match self.unit_spec(unit_id) {
            Some(u) => match u.kind {
                UnitKind::IsleOfTheDeep | UnitKind::SeaColonyPod | UnitKind::SeaTransport => true,
                UnitKind::CustomUnit(d) => d.chassis == Chassis::Sea,
                _ => false,
            },
            None => false,
        }
    }

    /// Ships, aircraft and amphibious units may enter the ocean.
    pub open spec fn unit_can_enter_ocean_spec(self, unit_id: usize) -> bool {
        self.unit_is_sea_unit_spec(unit_id) || self.unit_is_aircraft_spec(unit_id)
            || self.unit_has_ability_spec(unit_id, Ability::Amphibious)
    }

    /// Everything but ships may enter land, and so may flying or amphibious ships.
    pub open spec fn unit_can_enter_land_spec(self, unit_id: usize) -> bool {
        !self.unit_is_sea_unit_spec(unit_id) || self.unit_is_aircraft_spec(unit_id)
            || self.unit_has_ability_spec(unit_id, Ability::Amphibious)
    }

    /// Matches the live units of `b`'s owner within two steps of it that can escort convoys.
    pub open spec fn escort_near(self, b: Base) -> spec_fn(Unit) -> bool {
        |u: Unit|
            u.alive && u.owner == b.owner && (u.kind is EscortSpeeder || self.unit_has_ability_spec(
                u.id,
                Ability::Escort,
            )) && manhattan(u.x, u.y, b.x, b.y) <= 2
    }

    /// Whether the live unit `unit_id` has a design listing `ability`.
    pub fn unit_has_ability(&self, unit_id: usize, ability: Ability) -> (r: bool)
        ensures
            r == self.unit_has_ability_spec(unit_id, ability),
    {
        let unit = match self.unit(unit_id) {
            Some(u) => u,
            None => return false,
        };
        let faction = match self.faction(unit.owner) {
            Some(f) => f,
            None => return false,
        };
        if unit.design_index < faction.unit_designs.len() {
            abilities_contain(&faction.unit_designs[unit.design_index].abilities, ability)
        } else {
            false
        }
    }

    /// A unit is exposed when it stands off any base (or off the map).
    pub fn unit_is_exposed(&self, unit_id: usize) -> (r: bool)
        ensures
            r == match self.unit_spec(unit_id) {
                Some(u) => match self.tile_at(u.x, u.y) {
                    Some(t) => t.base is None,
                    None => true,
                },
                None => false,
            },
    {
        let unit = match self.unit(unit_id) {
            Some(u) => u,
            None => return false,
        };
        match self.tile(unit.x, unit.y) {
            Some(t) => t.base.is_none(),
            None => true,
        }
    }

    /// Mind worms and isles of the deep are psionic threats.
    pub fn unit_is_psi_threat(&self, unit_id: usize) -> (r: bool)
        ensures
            r == match self.unit_spec(unit_id) {
                Some(u) => u.kind is MindWorm || u.kind is IsleOfTheDeep,
                None => false,
            },
    {
        match self.unit(unit_id) {
            Some(u) => matches!(u.kind, UnitKind::MindWorm | UnitKind::IsleOfTheDeep),
            None => false,
        }
    }

    /// Whether the live unit `unit_id` flies.
    pub fn unit_is_aircraft(&self, unit_id: usize) -> (r: bool)
        ensures
            r == self.unit_is_aircraft_spec(unit_id),
    {
        match self.unit(unit_id) {
            Some(u) => match &u.kind {
                UnitKind::Needlejet => true,
                UnitKind::CustomUnit(design) => design.chassis == Chassis::Aircraft,
                _ => false,
            },
            None => false,
        }
    }

    /// Whether the live unit `unit_id` is a ship.
    pub fn unit_is_sea_unit(&self, unit_id: usize) -> (r: bool)
        ensures
            r == self.unit_is_sea_unit_spec(unit_id),
    {
        match self.unit(unit_id) {
            Some(u) => match &u.kind {
                UnitKind::IsleOfTheDeep | UnitKind::SeaColonyPod | UnitKind::SeaTransport => true,
                UnitKind::CustomUnit(design) => design.chassis == Chassis::Sea,
                _ => false,
            },
            None => false,
        }
    }

    /// Whether the live unit `unit_id` stands on an ocean tile.
    pub fn unit_is_at_sea(&self, unit_id: usize) -> (r: bool)
        ensures
            r == match self.unit_spec(unit_id) {
                Some(u) => match self.tile_at(u.x, u.y) {
                    Some(t) => t.terrain == Terrain::Ocean,
                    None => false,
                },
                None => false,
            },
    {
        let unit = match self.unit(unit_id) {
            Some(u) => u,
            None => return false,
        };
        match self.tile(unit.x, unit.y) {
            Some(t) => t.terrain == Terrain::Ocean,
            None => false,
        }
    }

    /// A unit is fast when its kind moves more than one step a turn.
    pub fn unit_is_fast(&self, unit_id: usize) -> (r: bool)
        ensures
            r == match self.unit_spec(unit_id) {
                Some(u) => content::unit_moves_value(u.kind) > 1,
                None => false,
            },
    {
        match self.unit(unit_id) {
            Some(u) => content::unit_max_moves(&u.kind) > 1,
            None => false,
        }
    }

    /// Ships, aircraft and amphibious units may enter the ocean.
    pub fn unit_can_enter_ocean(&self, unit_id: usize) -> (r: bool)
        ensures
            r == self.unit_can_enter_ocean_spec(unit_id),
    {
        self.unit_is_sea_unit(unit_id) || self.unit_is_aircraft(unit_id) || self.unit_has_ability(
            unit_id,
            Ability::Amphibious,
        )
    }

    /// Everything but ships may enter land, and so may flying or amphibious ships.
    pub fn unit_can_enter_land(&self, unit_id: usize) -> (r: bool)
        ensures
            r == self.unit_can_enter_land_spec(unit_id),
    {
        !self.unit_is_sea_unit(unit_id) || self.unit_is_aircraft(unit_id) || self.unit_has_ability(
            unit_id,
            Ability::Amphibious,
        )
    }

    /// Attack strength of the live unit `unit_id`: that of its design where its owner's
    /// workshop has it, else that of its kind; 0 when there is no such unit.
    pub fn unit_attack_strength(&self, unit_id: usize) -> (r: i32)
        ensures
            r == match self.unit_spec(unit_id) {
                Some(u) => match self.design_for(u) {
                    Some(d) => content::weapon_power(d.weapon),
                    None => content::unit_attack_value(u.kind),
                },
                None => 0,
            },
    {
        let unit = match self.unit(unit_id) {
            Some(u) => u,
            None => return 0,
        };
        if unit.owner < self.factions.len() && unit.design_index < self.factions[unit.owner].unit_designs.len() {
            self.factions[unit.owner].unit_designs[unit.design_index].attack_strength()
        } else {
            content::unit_attack(&unit.kind)
        }
    }

    /// Defense strength of the live unit `unit_id`: that of its design where its owner's
    /// workshop has it, else that of its kind; 0 when there is no such unit.
    pub fn unit_defense_strength(&self, unit_id: usize) -> (r: i32)
        ensures
            r == match self.unit_spec(unit_id) {
                Some(u) => match self.design_for(u) {
                    Some(d) => content::armor_power(d.armor),
                    None => content::unit_defense_value(u.kind),
                },
                None => 0,
            },
    {
        let unit = match self.unit(unit_id) {
            Some(u) => u,
            None => return 0,
        };
        if unit.owner < self.factions.len() && unit.design_index < self.factions[unit.owner].unit_designs.len() {
            self.factions[unit.owner].unit_designs[unit.design_index].defense_strength()
        } else {
            content::unit_defense(&unit.kind)
        }
    }

    /// The weapon of the live unit `unit_id`, read from its design.
    pub fn unit_weapon(&self, unit_id: usize) -> (r: Option<Weapon>)
        ensures
            r == match self.unit_spec(unit_id) {
                Some(u) => match self.design_for(u) {
                    Some(d) => Some(d.weapon),
                    None => None,
                },
                None => None,
            },
    {
        let unit = match self.unit(unit_id) {
            Some(u) => u,
            None => return None,
        };
        let faction = match self.faction(unit.owner) {
            Some(f) => f,
            None => return None,
        };
        if unit.design_index < faction.unit_designs.len() {
            Some(faction.unit_designs[unit.design_index].weapon)
        } else {
            None
        }
    }

    /// Artillery units can bombard.
    pub fn unit_can_bombard(&self, unit_id: usize) -> (r: bool)
        ensures
            r == self.unit_has_ability_spec(unit_id, Ability::Artillery),
    {
        self.unit_has_ability(unit_id, Ability::Artillery)
    }

    /// How many escorts of the base's owner stand within two steps of base `base_id`.
    pub fn base_convoy_escort_count(&self, base_id: usize) -> (r: usize)
        ensures
            r == match self.base_spec(base_id) {
                Some(b) => self.units@.filter(self.escort_near(b)).len(),
                None => 0,
            },
    {
        let base = match self.base(base_id) {
            Some(b) => b,
            None => return 0,
        };
        let ghost p = self.escort_near(*base);
        let mut count: usize = 0;
        let mut k: usize = 0;
        while k < self.units.len()
            invariant
                k <= self.units@.len(),
                p == self.escort_near(*base),
                count == self.units@.take(k as int).filter(p).len(),
            decreases self.units@.len() - k,
        {
            let u = &self.units[k];
            proof {
                assert(self.units@.take(k + 1) =~= self.units@.take(k as int).push(*u));
                self.units@.take(k as int).lemma_filter_push(*u, p);
                self.units@.take(k as int).filter(p).lemma_filter_len(p);
                self.units@.take(k as int).lemma_filter_len(p);
            }
            if u.alive && u.owner == base.owner {
                let escort = matches!(u.kind, UnitKind::EscortSpeeder) || self.unit_has_ability(
                    u.id,
                    Ability::Escort,
                );
                if escort {
                    let dx: usize = if u.x >= base.x { u.x - base.x } else { base.x - u.x };
                    let dy: usize = if u.y >= base.y { u.y - base.y } else { base.y - u.y };
                    if dx <= 2 && dy <= 2 - dx {
                        count += 1;
                    }
                }
            }
            k += 1;
        }
        assert(self.units@.take(self.units@.len() as int) =~= self.units@);
        count
    }

    /// Two security points per nearby escort, counting at most two escorts.
    pub fn base_convoy_escort_security(&self, base_id: usize) -> (r: i32)
        ensures
            r == 2 * (match self.base_spec(base_id) {
                Some(b) => if self.units@.filter(self.escort_near(b)).len() < 2 {
                    self.units@.filter(self.escort_near(b)).len() as int
                } else {
                    2
                },
                None => 0,
            }),
    {
        let count = self.base_convoy_escort_count(base_id);
        let capped: i32 = if count < 2 { count as i32 } else { 2 };
        capped * 2
    }
}

} // verus!
