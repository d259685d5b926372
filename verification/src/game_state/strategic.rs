//! The strategic crises a faction runs into at the end of its turn: famine, pollution,
//! debris from orbit, AI drift and tidal chaos.
use crate::game_state::access::{
    base_of, log_lines, log_tracked, noise_of, push_lines, tile_index_of,
};
use crate::model::{Base, EventCategory, GameState, GovernorMode, SecretProject, Tile, Unit};
use crate::presentation;
use crate::text::{nat_text, owned, push_nat, push_text};
use vstd::prelude::*;

verus! {

/// `v` kept between `lo` and `hi`.
pub open spec fn clamp_int(v: int, lo: int, hi: int) -> int {
    if v < lo {
        lo
    } else if v > hi {
        hi
    } else {
        v
    }
}

/// Matches the bases of `owner` that no governor runs.
pub open spec fn unmanaged_base_of(owner: usize) -> spec_fn(Base) -> bool {
    |b: Base| b.owner == owner && b.governor_mode == GovernorMode::Off
}

/// The ids of the bases of `owner` in `bases` that no governor runs, in order.
pub open spec fn unmanaged_ids(bases: Seq<Base>, owner: usize) -> Seq<usize> {
    bases.filter(unmanaged_base_of(owner)).map_values(|b: Base| b.id)
}

impl GameState {
    /// The pseudo-random draw of faction `owner`'s crisis checks for `salt`.
    pub open spec fn crisis_draw(self, owner: usize, salt: u32) -> u32 {
        noise_of(self.seed, owner as i32, self.turn, salt)
    }

    /// The toxicity of faction `owner`.
    pub open spec fn toxicity_of(self, owner: usize) -> i32 {
        self.factions@[owner as int].planet_toxicity
    }

    /// Whether this turn's pollution starts a dust fall.
    pub open spec fn dust_fall_starts(self, owner: usize) -> bool {
        self.toxicity_of(owner) > 80 && self.dust_fall_turns_left == 0 && self.crisis_draw(owner, 777) % 100 > 70
    }

    /// Whether orbital defenses stop this turn's debris.
    pub open spec fn debris_intercepted(self, owner: usize) -> bool {
        let cap: int = if (self.factions@[owner as int].orbital_defenses as u32) * 10 < 90 {
            (self.factions@[owner as int].orbital_defenses as u32) * 10
        } else {
            90
        };
        self.toxicity_of(owner) > 90 && self.crisis_draw(owner, 999) % 100 < cap
    }

    /// Whether debris comes down near one of `owner`'s bases this turn.
    pub open spec fn debris_falls(self, owner: usize) -> bool {
        self.toxicity_of(owner) > 90 && !self.debris_intercepted(owner) && self.bases@.filter(base_of(owner)).len() > 0
    }

    /// The base the debris falls near.
    pub open spec fn debris_base(self, owner: usize) -> Base {
        let bases = self.bases@.filter(base_of(owner));
        bases[((self.crisis_draw(owner, 111) as usize) as int) % bases.len() as int]
    }

    /// Where the debris lands: within two steps of the base, kept on the map.
    pub open spec fn debris_spot(self, owner: usize) -> (usize, usize) {
        let b = self.debris_base(owner);
        let dx: int = ((self.crisis_draw(owner, 222) % 5) as i32) as int - 2;
        let dy: int = ((self.crisis_draw(owner, 333) % 5) as i32) as int - 2;
        (
            clamp_int((b.x as i32) as int + dx, 0, (self.width as i32) as int - 1) as usize,
            clamp_int((b.y as i32) as int + dy, 0, (self.height as i32) as int - 1) as usize,
        )
    }

    /// The tile the debris lands on.
    pub open spec fn debris_tile(self, owner: usize) -> int {
        tile_index_of(self.width, self.debris_spot(owner).0, self.debris_spot(owner).1)
    }

    /// The damage the debris does to a unit it hits.
    pub open spec fn debris_damage(self, owner: usize) -> i32 {
        (3 + ((self.crisis_draw(owner, 444) % 3) as i32)) as i32
    }

    /// The live unit the debris hits, by position in `units`.
    pub open spec fn debris_victim(self, owner: usize) -> Option<int> {
        if self.debris_falls(owner) {
            match self.tiles@[self.debris_tile(owner)].unit {
                Some(uid) => self.live_unit_index_spec(uid),
                None => None,
            }
        } else {
            None
        }
    }

    /// The text of the debris report, empty when nothing was hit.
    pub open spec fn debris_report(self, owner: usize) -> Seq<char> {
        if !self.debris_falls(owner) {
            Seq::empty()
        } else {
            let t = self.tiles@[self.debris_tile(owner)];
            match t.unit {
                Some(uid) => match self.live_unit_index_spec(uid) {
                    Some(k) => if self.units@[k].hp - self.debris_damage(owner) <= 0 {
                        "Unit destroyed by impact."@
                    } else {
                        "Unit struck for "@ + nat_text(self.debris_damage(owner) as nat) + " damage."@
                    },
                    None => Seq::empty(),
                },
                None => match t.improvement {
                    Some(imp) => presentation::improvement_name_text(imp) + " facility destroyed."@,
                    None => Seq::empty(),
                },
            }
        }
    }

    /// Whether the AI subsystem takes over a base this turn, and which (by id).
    pub open spec fn ai_override_base(self, owner: usize) -> Option<usize> {
        let chance: u32 = if self.has_project_spec(owner, SecretProject::EmpathGuild) { 5 } else { 15 };
        let ids = unmanaged_ids(self.bases@, owner);
        if self.factions@[owner as int].ai_dependence > 80 && self.crisis_draw(owner, 1000) % 100 < chance
            && ids.len() > 0 {
            Some(ids[((self.crisis_draw(owner, 555) as usize) as int) % ids.len() as int])
        } else {
            None
        }
    }

    /// Whether tidal chaos begins this turn.
    pub open spec fn tidal_chaos_starts(self, owner: usize) -> bool {
        self.turn > 50 && self.tidal_chaos_turns_left == 0 && self.crisis_draw(owner, 1111) % 100 > 90
    }

    /// The famine warning of faction `owner`, if it starves.
    pub open spec fn famine_lines(self, owner: usize) -> Seq<(EventCategory, Seq<char>, i32)> {
        if self.factions@[owner as int].food_security < -50 {
            seq![(EventCategory::General, "GLOBAL FAMINE: Widespread starvation causing instability."@, self.turn)]
        } else {
            Seq::empty()
        }
    }

    /// The pollution lines of faction `owner`: a warning, or a crisis with its dust fall
    /// and debris.
    pub open spec fn pollution_lines(self, owner: usize) -> Seq<(EventCategory, Seq<char>, i32)> {
        let tox = self.factions@[owner as int].planet_toxicity;
        if 50 < tox <= 80 {
            seq![(EventCategory::General, "ENVIRONMENTAL ALERT: High toxicity detected. Habitats under strain."@, self.turn)]
        } else if tox > 80 {
            seq![(EventCategory::Crisis, "TOXICITY CRISIS: Severe planetary strain. Minor debris/acid rain events possible."@, self.turn)]
                + (if self.dust_fall_starts(owner) {
                seq![(EventCategory::Crisis, "CRISIS EVENT: Atmospheric Dust Fall! Global nutrient yields halved."@, self.turn)]
            } else {
                Seq::empty()
            }) + (if tox > 90 {
                self.debris_lines(owner)
            } else {
                Seq::empty()
            })
        } else {
            Seq::empty()
        }
    }

    /// The tidal-chaos line, if chaos begins.
    pub open spec fn tidal_lines(self, owner: usize) -> Seq<(EventCategory, Seq<char>, i32)> {
        if self.tidal_chaos_starts(owner) {
            seq![(EventCategory::Crisis, "CRISIS EVENT: Tidal Chaos! Coastal flooding has begun."@, self.turn)]
        } else {
            Seq::empty()
        }
    }

    /// Every line the crisis checks of faction `owner` log, in order.
    pub open spec fn crisis_log(self, owner: usize) -> Seq<(EventCategory, Seq<char>, i32)> {
        self.famine_lines(owner) + self.pollution_lines(owner) + (if self.factions@[owner as int].ai_dependence > 70 {
            self.drift_lines(owner)
        } else {
            Seq::empty()
        }) + self.tidal_lines(owner)
    }

    /// The crisis checks of faction `owner` can run without overflow or a missing tile.
    pub open spec fn crises_safe(self, owner: usize) -> bool {
        owner < self.factions@.len() ==> {
            &&& (self.toxicity_of(owner) > 90 ==> (self.factions@[owner as int].orbital_defenses as u32) * 10 <= u32::MAX)
            &&& (self.debris_falls(owner) ==> {
                let b = self.debris_base(owner);
                let dx: int = ((self.crisis_draw(owner, 222) % 5) as i32) as int - 2;
                let dy: int = ((self.crisis_draw(owner, 333) % 5) as i32) as int - 2;
                &&& i32::MIN <= (b.x as i32) as int + dx <= i32::MAX
                &&& i32::MIN <= (b.y as i32) as int + dy <= i32::MAX
                &&& (self.width as i32) >= 1
                &&& (self.height as i32) >= 1
                &&& self.debris_tile(owner) < self.tiles@.len()
                &&& (self.debris_victim(owner) matches Some(k) ==> self.units@[k].hp - self.debris_damage(owner) >= i32::MIN)
            })
        }
    }

    /// The state after the crisis checks of faction `owner`.
    pub open spec fn crises_applied(old: GameState, new: GameState, owner: usize) -> bool {
        let ti = old.debris_tile(owner);
        let tile = old.tiles@[ti];
        &&& new.dust_fall_turns_left == if old.dust_fall_starts(owner) {
            (3 + ((old.crisis_draw(owner, 888) % 4) as i32)) as i32
        } else {
            old.dust_fall_turns_left
        }
        &&& new.tidal_chaos_turns_left == if old.tidal_chaos_starts(owner) {
            (4 + ((old.crisis_draw(owner, 2222) % 4) as i32)) as i32
        } else {
            old.tidal_chaos_turns_left
        }
        &&& new.units@ == match old.debris_victim(owner) {
            Some(k) => {
                let hp = (old.units@[k].hp - old.debris_damage(owner)) as i32;
                old.units@.update(k, Unit { hp, alive: old.units@[k].alive && hp > 0, ..old.units@[k] })
            },
            None => old.units@,
        }
        &&& new.tiles@ == if !old.debris_falls(owner) {
            old.tiles@
        } else {
            match old.debris_victim(owner) {
                Some(k) => if old.units@[k].hp - old.debris_damage(owner) <= 0 {
                    old.tiles@.update(ti, Tile { unit: None, ..tile })
                } else {
                    old.tiles@
                },
                None => if tile.unit is None && tile.improvement is Some {
                    old.tiles@.update(ti, Tile { improvement: None, ..tile })
                } else {
                    old.tiles@
                },
            }
        }
        &&& new.bases@ == match old.ai_override_base(owner) {
            Some(id) => {
                let i = old.base_index_spec(id)->0;
                old.bases@.update(i, Base { governor_mode: GovernorMode::MachinePolity, ..old.bases@[i] })
            },
            None => old.bases@,
        }
        &&& log_lines(new.log@) == push_lines(log_lines(old.log@), old.crisis_log(owner))
        &&& new == (GameState {
            dust_fall_turns_left: new.dust_fall_turns_left,
            tidal_chaos_turns_left: new.tidal_chaos_turns_left,
            units: new.units,
            tiles: new.tiles,
            bases: new.bases,
            log: new.log,
            ..old
        })
    }
}

/// `v` kept between `lo` and `hi`.
fn clamp_i32(v: i32, lo: i32, hi: i32) -> (r: i32)
    requires
        lo <= hi,
    ensures
        r == clamp_int(v as int, lo as int, hi as int),
{
    if v < lo {
        lo
    } else if v > hi {
        hi
    } else {
        v
    }
}

impl GameState {
    /// The lines the debris check of faction `owner` logs.
    pub open spec fn debris_lines(self, owner: usize) -> Seq<(EventCategory, Seq<char>, i32)> {
        if self.debris_intercepted(owner) {
            seq![(EventCategory::General, "ORBITAL DEFENSE: "@ + self.factions@[owner as int].name@ + " intercepted a debris impact!"@, self.turn)]
        } else if self.debris_falls(owner) && self.debris_report(owner).len() > 0 {
            seq![(EventCategory::Crisis, "CRISIS EVENT: Debris impact near "@ + self.debris_base(owner).name@ + "! "@ + self.debris_report(owner), self.turn)]
        } else {
            Seq::empty()
        }
    }

    /// The debris check of a faction whose toxicity is above 90.
    fn debris_strike(
        &mut self,
        owner: usize,
        Ghost(start): Ghost<Seq<(EventCategory, Seq<char>, i32)>>,
        Ghost(lines): Ghost<Seq<(EventCategory, Seq<char>, i32)>>,
    ) -> (r: Ghost<Seq<(EventCategory, Seq<char>, i32)>>)
        requires
            owner < old(self).factions@.len(),
            old(self).toxicity_of(owner) > 90,
            old(self).crises_safe(owner),
            log_lines(old(self).log@) == push_lines(start, lines),
        ensures
            r@ == lines + old(self).debris_lines(owner),
            log_lines(final(self).log@) == push_lines(start, r@),
            final(self).units@ == match old(self).debris_victim(owner) {
                Some(k) => {
                    let hp = (old(self).units@[k].hp - old(self).debris_damage(owner)) as i32;
                    old(self).units@.update(k, Unit { hp, alive: old(self).units@[k].alive && hp > 0, ..old(self).units@[k] })
                },
                None => old(self).units@,
            },
            final(self).tiles@ == if !old(self).debris_falls(owner) {
                old(self).tiles@
            } else {
                let ti = old(self).debris_tile(owner);
                let tile = old(self).tiles@[ti];
                match old(self).debris_victim(owner) {
                    Some(k) => if old(self).units@[k].hp - old(self).debris_damage(owner) <= 0 {
                        old(self).tiles@.update(ti, Tile { unit: None, ..tile })
                    } else {
                        old(self).tiles@
                    },
                    None => if tile.unit is None && tile.improvement is Some {
                        old(self).tiles@.update(ti, Tile { improvement: None, ..tile })
                    } else {
                        old(self).tiles@
                    },
                }
            },
            *final(self) == (GameState {
                units: final(self).units,
                tiles: final(self).tiles,
                log: final(self).log,
                ..*old(self)
            }),
    {
        let oi = owner as i32;
        let turn = self.turn;
        let defenses = self.factions[owner].orbital_defenses as u32;
        let scaled = defenses * 10;
        let cap: u32 = if scaled < 90 { scaled } else { 90 };
        let roll = self.sample_noise(oi, turn, 999) % 100;
        if roll < cap {
            let mut m = owned("ORBITAL DEFENSE: ");
            push_text(&mut m, self.faction_name(owner));
            push_text(&mut m, " intercepted a debris impact!");
            let r = log_tracked(self, EventCategory::General, m, Ghost(start), Ghost(lines));
            assert(r@ =~= lines + old(self).debris_lines(owner));
            return r;
        }
        let bases = self.bases_for(owner);
        if bases.len() == 0 {
            assert(old(self).bases@.filter(base_of(owner)).len() == 0) by {
                assert(bases@.map_values(|b: &Base| *b).len() == bases@.len());
            }
            assert(lines + old(self).debris_lines(owner) =~= lines);
            return Ghost(lines);
        }
        let base_idx = (self.sample_noise(oi, turn, 111) as usize) % bases.len();
        proof {
            assert(bases@.map_values(|b: &Base| *b)[base_idx as int] == *bases@[base_idx as int]);
        }
        let target_name = bases[base_idx].name.clone();
        let target_x = bases[base_idx].x;
        let target_y = bases[base_idx].y;
        assert(target_name@ == old(self).debris_base(owner).name@);
        let dx = (self.sample_noise(oi, turn, 222) % 5) as i32 - 2;
        let dy = (self.sample_noise(oi, turn, 333) % 5) as i32 - 2;
        let tx = clamp_i32(target_x as i32 + dx, 0, self.width as i32 - 1) as usize;
        let ty = clamp_i32(target_y as i32 + dy, 0, self.height as i32 - 1) as usize;
        assert((tx, ty) == old(self).debris_spot(owner));
        assert(self.tiles@.len() == self.tiles.len());
        let ti = self.tile_index(tx, ty);
        let mut report = owned("");
        let mut has_report = false;
        match self.tiles[ti].unit {
            Some(uid) => {
                let damage = 3 + (self.sample_noise(oi, turn, 444) % 3) as i32;
                match self.live_unit_index(uid) {
                    Some(k) => {
                        let hp = self.units[k].hp - damage;
                        self.units[k].hp = hp;
                        has_report = true;
                        if hp <= 0 {
                            self.units[k].alive = false;
                            self.tiles[ti].unit = None;
                            report = owned("Unit destroyed by impact.");
                        } else {
                            report = owned("Unit struck for ");
                            push_nat(&mut report, damage as u64);
                            push_text(&mut report, " damage.");
                        }
                    },
                    None => {},
                }
            },
            None => {
                match self.tiles[ti].improvement {
                    Some(imp) => {
                        self.tiles[ti].improvement = None;
                        report = owned(presentation::improvement_name(imp));
                        push_text(&mut report, " facility destroyed.");
                        has_report = true;
                    },
                    None => {},
                }
            },
        }
        proof {
            reveal_strlit("");
            reveal_strlit("Unit destroyed by impact.");
            reveal_strlit(" damage.");
            reveal_strlit(" facility destroyed.");
        }
        assert(report@ == old(self).debris_report(owner));
        assert(has_report == (old(self).debris_report(owner).len() > 0));
        assert(self.units@ =~= match old(self).debris_victim(owner) {
            Some(k) => {
                let hp = (old(self).units@[k].hp - old(self).debris_damage(owner)) as i32;
                old(self).units@.update(k, Unit { hp, alive: old(self).units@[k].alive && hp > 0, ..old(self).units@[k] })
            },
            None => old(self).units@,
        });
        assert(self.tiles@ =~= {
            let tile = old(self).tiles@[ti as int];
            match old(self).debris_victim(owner) {
                Some(k) => if old(self).units@[k].hp - old(self).debris_damage(owner) <= 0 {
                    old(self).tiles@.update(ti as int, Tile { unit: None, ..tile })
                } else {
                    old(self).tiles@
                },
                None => if tile.unit is None && tile.improvement is Some {
                    old(self).tiles@.update(ti as int, Tile { improvement: None, ..tile })
                } else {
                    old(self).tiles@
                },
            }
        });
        if has_report {
            let mut m = owned("CRISIS EVENT: Debris impact near ");
            push_text(&mut m, target_name.as_str());
            push_text(&mut m, "! ");
            push_text(&mut m, report.as_str());
            let r = log_tracked(self, EventCategory::Crisis, m, Ghost(start), Ghost(lines));
            assert(r@ =~= lines + old(self).debris_lines(owner));
            r
        } else {
            assert(lines + old(self).debris_lines(owner) =~= lines);
            Ghost(lines)
        }
    }
}

impl GameState {
    /// The lines the AI-drift check of faction `owner` logs.
    pub open spec fn drift_lines(self, owner: usize) -> Seq<(EventCategory, Seq<char>, i32)> {
        seq![(EventCategory::General, "GOVERNANCE WARNING: Significant reliance on AI. Synthetic drift detected."@, self.turn)]
            + match self.ai_override_base(owner) {
            Some(id) => seq![(EventCategory::General, "GOVERNANCE OVERRIDE: AI subsystem seized control of "@ + self.base_spec(id)->0.name@ + "."@, self.turn)],
            None => Seq::empty(),
        }
    }

    /// The AI-drift check of a faction whose AI dependence is above 70.
    fn ai_drift(
        &mut self,
        owner: usize,
        Ghost(start): Ghost<Seq<(EventCategory, Seq<char>, i32)>>,
        Ghost(lines): Ghost<Seq<(EventCategory, Seq<char>, i32)>>,
    ) -> (r: Ghost<Seq<(EventCategory, Seq<char>, i32)>>)
        requires
            owner < old(self).factions@.len(),
            old(self).factions@[owner as int].ai_dependence > 70,
            log_lines(old(self).log@) == push_lines(start, lines),
        ensures
            r@ == lines + old(self).drift_lines(owner),
            log_lines(final(self).log@) == push_lines(start, r@),
            final(self).bases@ == match old(self).ai_override_base(owner) {
                Some(id) => {
                    let i = old(self).base_index_spec(id)->0;
                    old(self).bases@.update(i, Base { governor_mode: GovernorMode::MachinePolity, ..old(self).bases@[i] })
                },
                None => old(self).bases@,
            },
            *final(self) == (GameState { bases: final(self).bases, log: final(self).log, ..*old(self) }),
    {
        let oi = owner as i32;
        let turn = self.turn;
        let Ghost(l) = log_tracked(
            self,
            EventCategory::General,
            owned("GOVERNANCE WARNING: Significant reliance on AI. Synthetic drift detected."),
            Ghost(start),
            Ghost(lines),
        );
        let ghost lines1 = l;
        let chance: u32 = if self.has_secret_project(owner, SecretProject::EmpathGuild) { 5 } else { 15 };
        if !(self.factions[owner].ai_dependence > 80 && self.sample_noise(oi, turn, 1000) % 100 < chance) {
            assert(old(self).ai_override_base(owner) is None);
            assert(lines1 =~= lines + old(self).drift_lines(owner));
            return Ghost(lines1);
        }
        let mut manual: Vec<usize> = Vec::new();
        let mut k: usize = 0;
        while k < self.bases.len()
            invariant
                k <= self.bases@.len(),
                self.bases@ == old(self).bases@,
                manual@ == self.bases@.take(k as int).filter(unmanaged_base_of(owner)).map_values(|b: Base| b.id),
            decreases self.bases@.len() - k,
        {
            proof {
                assert(self.bases@.take(k + 1) =~= self.bases@.take(k as int).push(self.bases@[k as int]));
                self.bases@.take(k as int).lemma_filter_push(self.bases@[k as int], unmanaged_base_of(owner));
            }
            if self.bases[k].owner == owner && self.bases[k].governor_mode == GovernorMode::Off {
                manual.push(self.bases[k].id);
            }
            assert(manual@ =~= self.bases@.take(k + 1).filter(unmanaged_base_of(owner)).map_values(|b: Base| b.id));
            k += 1;
        }
        assert(self.bases@.take(self.bases@.len() as int) =~= self.bases@);
        if manual.len() == 0 {
            assert(old(self).ai_override_base(owner) is None);
            assert(lines1 =~= lines + old(self).drift_lines(owner));
            return Ghost(lines1);
        }
        let pick = (self.sample_noise(oi, turn, 555) as usize) % manual.len();
        let base_id = manual[pick];
        assert(old(self).ai_override_base(owner) == Some(base_id));
        proof {
            let filtered = self.bases@.filter(unmanaged_base_of(owner));
            assert(filtered.map_values(|b: Base| b.id)[pick as int] == filtered[pick as int].id);
            assert(filtered.contains(filtered[pick as int]));
            self.bases@.lemma_filter_contains_rev(unmanaged_base_of(owner), filtered[pick as int]);
        }
        let i = match self.base_index(base_id) {
            Some(i) => i,
            None => {
                proof {
                    let filtered = self.bases@.filter(unmanaged_base_of(owner));
                    let w = choose|w: int| 0 <= w < self.bases@.len() && self.bases@[w] == filtered[pick as int];
                    assert(!crate::game_state::access::base_with_id(base_id)(self.bases@[w]));
                }
                return Ghost(lines1);
            },
        };
        self.bases[i].governor_mode = GovernorMode::MachinePolity;
        assert(self.bases@ =~= old(self).bases@.update(
            i as int,
            Base { governor_mode: GovernorMode::MachinePolity, ..old(self).bases@[i as int] },
        ));
        let mut m = owned("GOVERNANCE OVERRIDE: AI subsystem seized control of ");
        push_text(&mut m, self.bases[i].name.as_str());
        push_text(&mut m, ".");
        let r = log_tracked(self, EventCategory::General, m, Ghost(start), Ghost(lines1));
        assert(r@ =~= lines + old(self).drift_lines(owner));
        r
    }
}

impl GameState {
    /// The pollution checks of faction `owner`: warning, crisis, dust fall and debris.
    fn pollution_checks(
        &mut self,
        owner: usize,
        Ghost(start): Ghost<Seq<(EventCategory, Seq<char>, i32)>>,
        Ghost(lines): Ghost<Seq<(EventCategory, Seq<char>, i32)>>,
    ) -> (r: Ghost<Seq<(EventCategory, Seq<char>, i32)>>)
        requires
            owner < old(self).factions@.len(),
            old(self).crises_safe(owner),
            log_lines(old(self).log@) == push_lines(start, lines),
        ensures
            r@ == lines + old(self).pollution_lines(owner),
            log_lines(final(self).log@) == push_lines(start, r@),
            final(self).dust_fall_turns_left == if old(self).factions@[owner as int].planet_toxicity > 80
                && old(self).dust_fall_starts(owner) {
                (3 + ((old(self).crisis_draw(owner, 888) % 4) as i32)) as i32
            } else {
                old(self).dust_fall_turns_left
            },
            old(self).factions@[owner as int].planet_toxicity > 90 ==> final(self).units@ == match old(self).debris_victim(owner) {
                Some(k) => {
                    let hp = (old(self).units@[k].hp - old(self).debris_damage(owner)) as i32;
                    old(self).units@.update(k, Unit { hp, alive: old(self).units@[k].alive && hp > 0, ..old(self).units@[k] })
                },
                None => old(self).units@,
            },
            old(self).factions@[owner as int].planet_toxicity > 90 ==> final(self).tiles@ == if !old(self).debris_falls(owner) {
                old(self).tiles@
            } else {
                let ti = old(self).debris_tile(owner);
                let tile = old(self).tiles@[ti];
                match old(self).debris_victim(owner) {
                    Some(k) => if old(self).units@[k].hp - old(self).debris_damage(owner) <= 0 {
                        old(self).tiles@.update(ti, Tile { unit: None, ..tile })
                    } else {
                        old(self).tiles@
                    },
                    None => if tile.unit is None && tile.improvement is Some {
                        old(self).tiles@.update(ti, Tile { improvement: None, ..tile })
                    } else {
                        old(self).tiles@
                    },
                }
            },
            old(self).factions@[owner as int].planet_toxicity <= 90 ==> final(self).units@ == old(self).units@
                && final(self).tiles@ == old(self).tiles@,
            *final(self) == (GameState {
                dust_fall_turns_left: final(self).dust_fall_turns_left,
                units: final(self).units,
                tiles: final(self).tiles,
                log: final(self).log,
                ..*old(self)
            }),
    {
        let toxicity = self.factions[owner].planet_toxicity;
        let turn = self.turn;
        let oi = owner as i32;
        if toxicity > 50 && toxicity <= 80 {
            let r = log_tracked(
                self,
                EventCategory::General,
                owned("ENVIRONMENTAL ALERT: High toxicity detected. Habitats under strain."),
                Ghost(start),
                Ghost(lines),
            );
            assert(r@ =~= lines + old(self).pollution_lines(owner));
            return r;
        }
        if toxicity <= 80 {
            assert(lines + old(self).pollution_lines(owner) =~= lines);
            return Ghost(lines);
        }
        let Ghost(l1) = log_tracked(
            self,
            EventCategory::Crisis,
            owned("TOXICITY CRISIS: Severe planetary strain. Minor debris/acid rain events possible."),
            Ghost(start),
            Ghost(lines),
        );
        let ghost mut acc = l1;
        if self.dust_fall_turns_left == 0 && self.sample_noise(oi, turn, 777) % 100 > 70 {
            self.dust_fall_turns_left = 3 + (self.sample_noise(oi, turn, 888) % 4) as i32;
            let Ghost(l2) = log_tracked(
                self,
                EventCategory::Crisis,
                owned("CRISIS EVENT: Atmospheric Dust Fall! Global nutrient yields halved."),
                Ghost(start),
                Ghost(acc),
            );
            proof {
                acc = l2;
            }
        }
        assert(acc =~= lines + seq![(EventCategory::Crisis, "TOXICITY CRISIS: Severe planetary strain. Minor debris/acid rain events possible."@, old(self).turn)]
            + (if old(self).dust_fall_starts(owner) {
            seq![(EventCategory::Crisis, "CRISIS EVENT: Atmospheric Dust Fall! Global nutrient yields halved."@, old(self).turn)]
        } else {
            Seq::empty()
        }));
        if toxicity > 90 {
            let ghost mid = *self;
            assert(mid.crises_safe(owner) == old(self).crises_safe(owner));
            let Ghost(l3) = self.debris_strike(owner, Ghost(start), Ghost(acc));
            assert(mid.debris_lines(owner) == old(self).debris_lines(owner));
            assert(l3 =~= lines + old(self).pollution_lines(owner));
            Ghost(l3)
        } else {
            assert(acc =~= lines + old(self).pollution_lines(owner));
            Ghost(acc)
        }
    }

    /// Runs the end-of-turn crisis checks of faction `owner`: famine and pollution
    /// warnings, dust fall, orbital debris near one of its bases (stopped by orbital
    /// defenses), AI drift that may seize an unmanaged base, and tidal chaos.
    pub fn process_strategic_crises(&mut self, owner: usize)
        requires
            old(self).crises_safe(owner),
        ensures
            owner >= old(self).factions@.len() ==> *final(self) == *old(self),
            owner < old(self).factions@.len() ==> GameState::crises_applied(*old(self), *final(self), owner),
    {
        if owner >= self.factions.len() {
            return ;
        }
        let ghost start = log_lines(self.log@);
        let ghost mut lines: Seq<(EventCategory, Seq<char>, i32)> = Seq::empty();
        assert(push_lines(start, lines) =~= start);
        let turn = self.turn;
        let oi = owner as i32;
        if self.factions[owner].food_security < -50 {
            let Ghost(l) = log_tracked(
                self,
                EventCategory::General,
                owned("GLOBAL FAMINE: Widespread starvation causing instability."),
                Ghost(start),
                Ghost(lines),
            );
            proof {
                lines = l;
            }
        }
        assert(lines =~= old(self).famine_lines(owner));
        let ghost s1 = *self;
        assert(s1.crises_safe(owner) == old(self).crises_safe(owner));
        let Ghost(l) = self.pollution_checks(owner, Ghost(start), Ghost(lines));
        assert(s1.pollution_lines(owner) == old(self).pollution_lines(owner));
        proof {
            lines = l;
        }
        if self.factions[owner].ai_dependence > 70 {
            let ghost s2 = *self;
            let Ghost(l) = self.ai_drift(owner, Ghost(start), Ghost(lines));
            assert(s2.drift_lines(owner) == old(self).drift_lines(owner));
            assert(s2.ai_override_base(owner) == old(self).ai_override_base(owner));
            proof {
                lines = l;
            }
        }
        let ghost s3 = *self;
        if turn > 50 && self.tidal_chaos_turns_left == 0 && self.sample_noise(oi, turn, 1111) % 100 > 90 {
            self.tidal_chaos_turns_left = 4 + (self.sample_noise(oi, turn, 2222) % 4) as i32;
            let Ghost(l) = log_tracked(
                self,
                EventCategory::Crisis,
                owned("CRISIS EVENT: Tidal Chaos! Coastal flooding has begun."),
                Ghost(start),
                Ghost(lines),
            );
            proof {
                lines = l;
            }
        }
        assert(lines =~= old(self).crisis_log(owner));
    }
}

} // verus!
