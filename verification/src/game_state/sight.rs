//! What the player's faction can see: every tile within sight of its units and bases,
//! and of those of factions that share their maps with it.
use crate::content::runtime_roles_spec;
use crate::game_state::access::{log_event, logged_as};
use crate::model::{DiplomacyStatus, DiplomaticRelation, EventCategory, GameState, SecretProject, Tile};
use crate::text::{owned, push_text};
use vstd::prelude::*;

verus! {

/// How far units and bases see.
#[derive(Clone, Copy, Debug, PartialEq, Eq, Structural)]
pub struct SightRadii {
    pub unit: isize,
    pub base: isize,
}

/// A point of view: a position and how far it sees.
pub type SightCenter = (usize, usize, isize);

/// Whether the tile stored at `idx` of a `width` by `height` map lies within sight of
/// `c`: its column and row, against the center's coordinates taken as `isize`, differ by
/// at most the radius in all.
pub open spec fn reaches(width: usize, height: usize, c: SightCenter, idx: int) -> bool {
    &&& width > 0
    &&& 0 <= idx < width * height
    &&& {
        let dx = idx % (width as int) - (c.0 as isize) as int;
        let dy = idx / (width as int) - (c.1 as isize) as int;
        (if dx < 0 { -dx } else { dx }) + (if dy < 0 { -dy } else { dy }) <= c.2 as int
    }
}

/// Whether some center of `cs` sees the tile stored at `idx`.
pub open spec fn seen_by_any(width: usize, height: usize, cs: Seq<SightCenter>, idx: int) -> bool {
    exists|k: int| 0 <= k < cs.len() && reaches(width, height, #[trigger] cs[k], idx)
}

/// `n` is tile `t` with only its sets of seeing and exploring owners changed.
pub open spec fn same_but_sight(t: Tile, n: Tile) -> bool {
    n == (Tile { visible_by_owner: n.visible_by_owner, explored_by_owner: n.explored_by_owner, ..t })
}

fn reaches_exec(width: usize, height: usize, c: SightCenter, idx: usize) -> (r: bool)
    ensures
        r == reaches(width, height, c, idx as int),
{
    if width == 0 || idx / width >= height {
        proof {
            if width > 0 {
                vstd::arithmetic::div_mod::lemma_fundamental_div_mod(idx as int, width as int);
                assert(idx as int >= width * height) by (nonlinear_arith)
                    requires
                        idx as int == width * (idx as int / width as int) + idx as int % width as int,
                        idx as int / width as int >= height,
                        idx as int % width as int >= 0,
                        width > 0;
            }
        }
        return false;
    }
    proof {
        vstd::arithmetic::div_mod::lemma_fundamental_div_mod(idx as int, width as int);
        assert(idx < width * height) by (nonlinear_arith)
            requires
                idx as int == width * (idx as int / width as int) + idx as int % width as int,
                idx as int / width as int + 1 <= height,
                idx as int % width as int <= width - 1;
    }
    let nx: i128 = (idx % width) as i128;
    let ny: i128 = (idx / width) as i128;
    let dx: i128 = nx - (c.0 as isize) as i128;
    let dy: i128 = ny - (c.1 as isize) as i128;
    let adx: i128 = if dx < 0 { -dx } else { dx };
    let ady: i128 = if dy < 0 { -dy } else { dy };
    adx + ady <= c.2 as i128
}

/// The name a diplomacy status is announced under.
pub open spec fn status_word(status: DiplomacyStatus) -> Seq<char> {
    match status {
        DiplomacyStatus::War => "War"@,
        DiplomacyStatus::Truce => "Truce"@,
        DiplomacyStatus::Treaty => "Treaty"@,
        DiplomacyStatus::Pact => "Pact"@,
    }
}

fn status_word_exec(status: DiplomacyStatus) -> (r: &'static str)
    ensures
        r@ == status_word(status),
{
    match status {
        DiplomacyStatus::War => "War",
        DiplomacyStatus::Truce => "Truce",
        DiplomacyStatus::Treaty => "Treaty",
        DiplomacyStatus::Pact => "Pact",
    }
}

/// `new` is `old` with the relation between factions `a` and `b` set to `status` both ways,
/// attitudes kept, and nothing else changed.
pub open spec fn relation_set(old: GameState, new: GameState, a: usize, b: usize, status: DiplomacyStatus) -> bool {
    &&& new == (GameState { relations: new.relations, ..old })
    &&& new.relations@.len() == old.relations@.len()
    &&& forall|i: int| 0 <= i < old.relations@.len() && i != a && i != b ==> (#[trigger] new.relations@[i])@
        == old.relations@[i]@
    &&& new.relations@[a as int]@ == old.relations@[a as int]@.update(
        b as int,
        DiplomaticRelation { status, ..old.relations@[a as int]@[b as int] },
    )
    &&& new.relations@[b as int]@ == old.relations@[b as int]@.update(
        a as int,
        DiplomaticRelation { status, ..old.relations@[b as int]@[a as int] },
    )
}

/// After the player's sight is recomputed, every tile it sees is one it has explored.
pub proof fn law_seen_tiles_are_explored(old: GameState, new: GameState, player: usize, radii: SightRadii, i: int)
    requires
        GameState::sight_updated(old, new, player, radii),
        0 <= i < new.tiles@.len(),
        new.tiles@[i].visible_by_owner@.contains(player),
    ensures
        new.tiles@[i].explored_by_owner@.contains(player),
{
    let n = new.tiles@[i];
    let t = old.tiles@[i];
    if !seen_by_any(old.width, old.height, old.sight_centers(player, radii), i) {
        assert(!t.visible_by_owner@.remove(player).contains(player));
    }
}

/// Setting a relation reads back both ways, and relations between other factions stay as
/// they were.
pub proof fn law_diplomacy_reads_back(old: GameState, new: GameState, a: usize, b: usize, status: DiplomacyStatus, radii: SightRadii, i: int)
    requires
        GameState::diplomacy_updated(old, new, a, b, status, radii),
        a < old.relations@.len(),
        b < old.relations@.len(),
        b < old.relations@[a as int]@.len(),
        a < old.relations@[b as int]@.len(),
        0 <= i < old.relations@.len(),
        i != a && i != b,
    ensures
        new.relations@[a as int]@[b as int].status == status,
        new.relations@[b as int]@[a as int].status == status,
        new.relations@[i]@ == old.relations@[i]@,
{
    let (m1, m2) = choose|m1: GameState, m2: GameState|
        {
            &&& relation_set(old, m1, a, b, status)
            &&& logged_as(
                m1.log@,
                m2.log@,
                EventCategory::Diplomacy,
                "DIPLOMACY: "@ + old.factions@[a as int].name@ + " and "@ + old.factions@[b as int].name@
                    + " have signed a "@ + status_word(status) + "."@,
                m1.turn,
            )
            &&& m2 == (GameState { log: m2.log, ..m1 })
            &&& if a == runtime_roles_spec().player || b == runtime_roles_spec().player {
                GameState::sight_updated(m2, new, runtime_roles_spec().player, radii)
            } else {
                new == m2
            }
        };
    assert(new.relations == m1.relations);
    assert(m1.relations@[i]@ == old.relations@[i]@);
}

impl GameState {
    /// Whether faction `id` shares its view with `player`: it is another faction of the
    /// game, and `player` holds the Empath Guild or a pact with it.
    pub open spec fn shares_sight(self, player: usize, id: usize, empath: bool) -> bool {
        &&& id != player
        &&& id < self.factions@.len()
        &&& (empath || self.relations@[player as int]@[id as int].status == DiplomacyStatus::Pact)
    }

    /// The points of view of `player`: its live units and those of factions sharing their
    /// view, seeing `radii.unit` far, then its bases and theirs, seeing `radii.base` far.
    pub open spec fn sight_centers(self, player: usize, radii: SightRadii) -> Seq<SightCenter> {
        let empath = self.has_project_spec(player, SecretProject::EmpathGuild);
        self.units@.filter(|u: crate::model::Unit| u.alive && (u.owner == player || self.shares_sight(player, u.owner, empath)))
            .map_values(|u: crate::model::Unit| (u.x, u.y, radii.unit))
            + self.bases@.filter(|b: crate::model::Base| b.owner == player || self.shares_sight(player, b.owner, empath))
            .map_values(|b: crate::model::Base| (b.x, b.y, radii.base))
    }

    /// Whether the relations of `player` cover every other faction, as reading its pacts needs.
    pub open spec fn relations_cover(self, player: usize) -> bool {
        let n = self.factions@.len();
        let need: int = if player + 1 == n { n - 1 } else { n as int };
        need == 0 || (player < self.relations@.len() && self.relations@[player as int]@.len() >= need)
    }

    /// What recomputing the player's sight does: every tile forgets that `player` sees it;
    /// then every tile within sight of one of its points of view is seen and explored by it.
    pub open spec fn sight_updated(old: GameState, new: GameState, player: usize, radii: SightRadii) -> bool {
        let cs = old.sight_centers(player, radii);
        &&& new == (GameState { tiles: new.tiles, ..old })
        &&& new.tiles@.len() == old.tiles@.len()
        &&& forall|i: int| 0 <= i < old.tiles@.len() ==> {
            let t = old.tiles@[i];
            let n = #[trigger] new.tiles@[i];
            &&& same_but_sight(t, n)
            &&& n.visible_by_owner@ == if seen_by_any(old.width, old.height, cs, i) {
                t.visible_by_owner@.remove(player).insert(player)
            } else {
                t.visible_by_owner@.remove(player)
            }
            &&& n.explored_by_owner@ == if seen_by_any(old.width, old.height, cs, i) {
                t.explored_by_owner@.insert(player)
            } else {
                t.explored_by_owner@
            }
        }
    }

    /// The points of view of `player`.
    fn collect_sight_centers(&self, player: usize, radii: SightRadii) -> (r: Vec<SightCenter>)
        requires
            self.has_project_spec(player, SecretProject::EmpathGuild) || self.relations_cover(player),
        ensures
            r@ == self.sight_centers(player, radii),
    {
        let empath = self.has_secret_project(player, SecretProject::EmpathGuild);
        let ghost e = empath;
        let ghost unit_keep = |u: crate::model::Unit| u.alive && (u.owner == player || self.shares_sight(player, u.owner, e));
        let ghost base_keep = |b: crate::model::Base| b.owner == player || self.shares_sight(player, b.owner, e);
        let mut out: Vec<SightCenter> = Vec::new();
        let mut k: usize = 0;
        while k < self.units.len()
            invariant
                k <= self.units@.len(),
                e == empath,
                e == self.has_project_spec(player, SecretProject::EmpathGuild),
                e || self.relations_cover(player),
                unit_keep == (|u: crate::model::Unit| u.alive && (u.owner == player || self.shares_sight(player, u.owner, e))),
                out@ == self.units@.take(k as int).filter(unit_keep).map_values(|u: crate::model::Unit| (u.x, u.y, radii.unit)),
            decreases self.units@.len() - k,
        {
            let u = &self.units[k];
            proof {
                assert(self.units@.take(k + 1) =~= self.units@.take(k as int).push(*u));
                self.units@.take(k as int).lemma_filter_push(*u, unit_keep);
            }
            let shares = u.owner != player && u.owner < self.factions.len()
                && (empath || self.relations[player][u.owner].status == DiplomacyStatus::Pact);
            let ghost before = out@;
            if u.alive && (u.owner == player || shares) {
                out.push((u.x, u.y, radii.unit));
                assert(out@ =~= self.units@.take(k + 1).filter(unit_keep).map_values(|u: crate::model::Unit| (u.x, u.y, radii.unit)));
            } else {
                assert(out@ =~= self.units@.take(k + 1).filter(unit_keep).map_values(|u: crate::model::Unit| (u.x, u.y, radii.unit)));
            }
            k += 1;
        }
        assert(self.units@.take(self.units@.len() as int) =~= self.units@);
        let ghost unit_part = out@;
        let mut j: usize = 0;
        while j < self.bases.len()
            invariant
                j <= self.bases@.len(),
                e == empath,
                e || self.relations_cover(player),
                base_keep == (|b: crate::model::Base| b.owner == player || self.shares_sight(player, b.owner, e)),
                out@ == unit_part + self.bases@.take(j as int).filter(base_keep).map_values(|b: crate::model::Base| (b.x, b.y, radii.base)),
            decreases self.bases@.len() - j,
        {
            let b = &self.bases[j];
            proof {
                assert(self.bases@.take(j + 1) =~= self.bases@.take(j as int).push(*b));
                self.bases@.take(j as int).lemma_filter_push(*b, base_keep);
            }
            let shares = b.owner != player && b.owner < self.factions.len()
                && (empath || self.relations[player][b.owner].status == DiplomacyStatus::Pact);
            if b.owner == player || shares {
                out.push((b.x, b.y, radii.base));
            }
            assert(out@ =~= unit_part + self.bases@.take(j + 1).filter(base_keep).map_values(|b: crate::model::Base| (b.x, b.y, radii.base)));
            j += 1;
        }
        assert(self.bases@.take(self.bases@.len() as int) =~= self.bases@);
        out
    }

    /// Whether some center of `cs` sees the tile stored at `idx`.
    fn seen_by_any_exec(&self, cs: &Vec<SightCenter>, idx: usize) -> (r: bool)
        ensures
            r == seen_by_any(self.width, self.height, cs@, idx as int),
    {
        let mut k: usize = 0;
        while k < cs.len()
            invariant
                k <= cs@.len(),
                forall|m: int| 0 <= m < k ==> !reaches(self.width, self.height, #[trigger] cs@[m], idx as int),
            decreases cs@.len() - k,
        {
            if reaches_exec(self.width, self.height, cs[k], idx) {
                return true;
            }
            k += 1;
        }
        false
    }

    /// Recomputes what the player's faction sees: only the tiles within `radii` of its live
    /// units and bases, and of those of factions it holds a pact with (of every faction
    /// once it holds the Empath Guild), are seen, and they are explored too.
    pub fn update_player_visibility(&mut self, radii: SightRadii)
        requires
            old(self).has_project_spec(runtime_roles_spec().player, SecretProject::EmpathGuild)
                || old(self).relations_cover(runtime_roles_spec().player),
        ensures
            GameState::sight_updated(*old(self), *final(self), runtime_roles_spec().player, radii),
    {
        broadcast use vstd::std_specs::btree::group_btree_axioms;
        broadcast use vstd::laws_cmp::group_laws_cmp;
        let player = self.player_owner();
        let cs = self.collect_sight_centers(player, radii);
        let ghost start = *self;
        let mut i: usize = 0;
        while i < self.tiles.len()
            invariant
                i <= self.tiles@.len(),
                player == runtime_roles_spec().player,
                cs@ == start.sight_centers(player, radii),
                *self == (GameState { tiles: self.tiles, ..start }),
                self.tiles@.len() == start.tiles@.len(),
                forall|m: int| i <= m < start.tiles@.len() ==> #[trigger] self.tiles@[m] == start.tiles@[m],
                forall|m: int| 0 <= m < i ==> {
                    let t = start.tiles@[m];
                    let n = #[trigger] self.tiles@[m];
                    &&& same_but_sight(t, n)
                    &&& n.visible_by_owner@ == if seen_by_any(start.width, start.height, cs@, m) {
                        t.visible_by_owner@.remove(player).insert(player)
                    } else {
                        t.visible_by_owner@.remove(player)
                    }
                    &&& n.explored_by_owner@ == if seen_by_any(start.width, start.height, cs@, m) {
                        t.explored_by_owner@.insert(player)
                    } else {
                        t.explored_by_owner@
                    }
                },
            decreases start.tiles@.len() - i,
        {
            let seen = self.seen_by_any_exec(&cs, i);
            let t = &self.tiles[i];
            let mut visible = t.visible_by_owner.clone();
            visible.remove(&player);
            let mut explored = t.explored_by_owner.clone();
            if seen {
                visible.insert(player);
                explored.insert(player);
            }
            let n = Tile {
                x: t.x,
                y: t.y,
                terrain: t.terrain,
                elevation: t.elevation,
                moisture: t.moisture,
                unit: t.unit,
                base: t.base,
                pod: t.pod,
                improvement: t.improvement,
                explored_by_owner: explored,
                visible_by_owner: visible,
            };
            self.tiles.set(i, n);
            i += 1;
        }
    }
    /// Why changing the relation between `a` and `b` is refused, if it is.
    pub open spec fn diplomacy_refusal(self, a: usize, b: usize) -> Option<Seq<char>> {
        if a >= self.factions@.len() || b >= self.factions@.len() {
            Some("Invalid faction index."@)
        } else if a == b {
            Some("Cannot update diplomacy with self."@)
        } else {
            None
        }
    }

    /// What setting the relation between `a` and `b` to `status` does, unless refused:
    /// the relation changes both ways, the change is announced, and where the player is
    /// one of the two its sight is recomputed with `radii`.
    pub open spec fn diplomacy_updated(old: GameState, new: GameState, a: usize, b: usize, status: DiplomacyStatus, radii: SightRadii) -> bool {
        let player = runtime_roles_spec().player;
        exists|m1: GameState, m2: GameState|
            #![trigger m1.relations, m2.log]
            {
                &&& relation_set(old, m1, a, b, status)
                &&& logged_as(
                    m1.log@,
                    m2.log@,
                    EventCategory::Diplomacy,
                    "DIPLOMACY: "@ + old.factions@[a as int].name@ + " and "@ + old.factions@[b as int].name@
                        + " have signed a "@ + status_word(status) + "."@,
                    m1.turn,
                )
                &&& m2 == (GameState { log: m2.log, ..m1 })
                &&& if a == player || b == player {
                    GameState::sight_updated(m2, new, player, radii)
                } else {
                    new == m2
                }
            }
    }

    /// Sets the relation between factions `a` and `b` to `status` both ways and announces
    /// it; where the player's faction is one of them, its sight is recomputed.
    pub fn update_diplomacy(&mut self, a: usize, b: usize, status: DiplomacyStatus, radii: SightRadii) -> (r: Result<(), String>)
        requires
            old(self).diplomacy_refusal(a, b) is None ==> {
                &&& a < old(self).relations@.len()
                &&& b < old(self).relations@.len()
                &&& b < old(self).relations@[a as int]@.len()
                &&& a < old(self).relations@[b as int]@.len()
                &&& (a == runtime_roles_spec().player || b == runtime_roles_spec().player) ==> (old(self).has_project_spec(
                    runtime_roles_spec().player,
                    SecretProject::EmpathGuild,
                ) || old(self).relations_cover(runtime_roles_spec().player))
            },
        ensures
            match old(self).diplomacy_refusal(a, b) {
                Some(e) => r matches Err(m) && m@ == e && *final(self) == *old(self),
                None => r is Ok && GameState::diplomacy_updated(*old(self), *final(self), a, b, status, radii),
            },
    {
        if a >= self.factions.len() || b >= self.factions.len() {
            return Err(owned("Invalid faction index."));
        }
        if a == b {
            return Err(owned("Cannot update diplomacy with self."));
        }
        let ghost s0 = *self;
        self.relations[a][b].status = status;
        self.relations[b][a].status = status;
        let ghost m1 = *self;
        assert(relation_set(s0, m1, a, b, status));
        let mut message = owned("DIPLOMACY: ");
        push_text(&mut message, self.faction_name(a));
        push_text(&mut message, " and ");
        push_text(&mut message, self.faction_name(b));
        push_text(&mut message, " have signed a ");
        push_text(&mut message, status_word_exec(status));
        push_text(&mut message, ".");
        log_event(self, EventCategory::Diplomacy, message);
        let ghost m2 = *self;
        let player = self.player_owner();
        if a == player || b == player {
            assert(m2.built_secret_projects == s0.built_secret_projects);
            assert(m2.factions == s0.factions);
            assert(m2.has_project_spec(player, SecretProject::EmpathGuild) == s0.has_project_spec(player, SecretProject::EmpathGuild));
            proof {
                if player < s0.relations@.len() {
                    assert(m2.relations@[player as int]@.len() == s0.relations@[player as int]@.len());
                }
            }
            self.update_player_visibility(radii);
        }
        assert(GameState::diplomacy_updated(s0, *self, a, b, status, radii));
        Ok(())
    }
}

} // verus!
