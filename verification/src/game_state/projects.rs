//! Completing a secret project: recording it, announcing it, stopping every other base
//! that was building it, and telling their owners.
use crate::content::{production_name_text, runtime_roles_spec};
use crate::game_state::access::{log_event, logged_as};
use crate::game_state::display::{project_item, project_item_of, record_of};
use crate::game_state::sight::SightRadii;
use crate::model::{Base, EventCategory, GameState, ProductionItem, SecretProject};
use crate::presentation;
use crate::seqs::any_match;
use crate::text::{owned, push_text};
use vstd::prelude::*;

verus! {

/// The name of faction `o` in `s`, or "Faction" when there is none.
pub open spec fn faction_name_of(s: GameState, o: usize) -> Seq<char> {
    if o < s.factions@.len() {
        s.factions@[o as int].name@
    } else {
        "Faction"@
    }
}

/// Matches the items that do not build project `p`.
pub open spec fn not_project(p: SecretProject) -> spec_fn(ProductionItem) -> bool {
    |i: ProductionItem| i.secret_project_of() != Some(p)
}

/// `n` is base `b` once project `p` is complete: a base building it turns to stockpiling
/// energy, and its queue drops every entry building it.
pub open spec fn project_cleared(b: Base, n: Base, p: SecretProject) -> bool {
    &&& n.production == if b.production.secret_project_of() == Some(p) {
        ProductionItem::StockpileEnergy
    } else {
        b.production
    }
    &&& n.production_queue@ == b.production_queue@.filter(not_project(p))
    &&& n == (Base { production: n.production, production_queue: n.production_queue, ..b })
}

/// Matches the bases of owners other than `owner` that were building `p`.
pub open spec fn rival_builder(owner: usize, p: SecretProject) -> spec_fn(Base) -> bool {
    |b: Base| b.production.secret_project_of() == Some(p) && b.owner != owner
}

/// The owner and name of each base of `bases` a rival was building `p` in, in order.
pub open spec fn aborted_builds(bases: Seq<Base>, owner: usize, p: SecretProject) -> Seq<(usize, Seq<char>)> {
    bases.filter(rival_builder(owner, p)).map_values(|b: Base| (b.owner, b.name@))
}

/// The notice to the owner of a base whose build of project `name` was aborted.
pub open spec fn abort_notice(s: GameState, notice: (usize, Seq<char>), name: Seq<char>, winner: Seq<char>) -> Seq<char> {
    faction_name_of(s, notice.0) + " construction of "@ + name + " in "@ + notice.1 + " was aborted! "@ + winner
        + " finished it first."@
}

/// `states` runs from one state to the next logging each notice of `notices` in turn.
pub open spec fn notices_logged(states: Seq<GameState>, notices: Seq<(usize, Seq<char>)>, name: Seq<char>, winner: Seq<char>) -> bool {
    &&& states.len() == notices.len() + 1
    &&& forall|i: int|
        0 <= i < notices.len() ==> {
            &&& logged_as(
                states[i].log@,
                (#[trigger] states[i + 1]).log@,
                EventCategory::SecretProject,
                abort_notice(states[i], notices[i], name, winner),
                states[i].turn,
            )
            &&& states[i + 1] == (GameState { log: states[i + 1].log, ..states[i] })
        }
}

/// The entries of `v` that do not build `p`, in order.
fn queue_without(v: &Vec<ProductionItem>, p: SecretProject) -> (r: Vec<ProductionItem>)
    ensures
        r@ == v@.filter(not_project(p)),
{
    let mut out: Vec<ProductionItem> = Vec::new();
    let mut i: usize = 0;
    while i < v.len()
        invariant
            i <= v@.len(),
            out@ == v@.take(i as int).filter(not_project(p)),
        decreases v@.len() - i,
    {
        proof {
            assert(v@.take(i + 1) =~= v@.take(i as int).push(v@[i as int]));
            v@.take(i as int).lemma_filter_push(v@[i as int], not_project(p));
        }
        if v[i].secret_project() != Some(p) {
            out.push(v[i]);
        }
        i += 1;
    }
    assert(v@.take(v@.len() as int) =~= v@);
    out
}

impl GameState {
    /// What completing project `p` for `owner` does: nothing when some faction already
    /// built it; otherwise it is recorded for `owner` and announced, every base building
    /// it turns to stockpiling energy and drops it from its queue, each rival whose build
    /// was aborted is told, and where `owner` is the player or `p` is the Empath Guild the
    /// player's sight is recomputed with `radii`.
    pub open spec fn project_completed(old: GameState, new: GameState, owner: usize, p: SecretProject, radii: SightRadii, r: bool) -> bool {
        let name = production_name_text(project_item(p));
        let winner = faction_name_of(old, owner);
        if any_match(old.built_secret_projects@, record_of(p)) {
            !r && new == old
        } else {
            r && exists|m1: GameState, m2: GameState, states: Seq<GameState>|
                #![trigger m1.log, m2.bases, notices_logged(states, aborted_builds(m1.bases@, owner, p), name, winner)]
                {
                    &&& m1.built_secret_projects@ == old.built_secret_projects@.push((p, owner))
                    &&& logged_as(
                        old.log@,
                        m1.log@,
                        EventCategory::SecretProject,
                        "GLOBAL WONDER: "@ + winner + " has completed "@ + name + "!"@,
                        old.turn,
                    )
                    &&& m1 == (GameState { built_secret_projects: m1.built_secret_projects, log: m1.log, ..old })
                    &&& m2.bases@.len() == m1.bases@.len()
                    &&& (forall|i: int| 0 <= i < m1.bases@.len() ==> project_cleared(m1.bases@[i], #[trigger] m2.bases@[i], p))
                    &&& m2 == (GameState { bases: m2.bases, ..m1 })
                    &&& notices_logged(states, aborted_builds(m1.bases@, owner, p), name, winner)
                    &&& states[0] == m2
                    &&& if owner == runtime_roles_spec().player || p == SecretProject::EmpathGuild {
                        GameState::sight_updated(states.last(), new, runtime_roles_spec().player, radii)
                    } else {
                        new == states.last()
                    }
                }
        }
    }

    /// Completes project `p` for `owner` unless a faction already built it; returns whether
    /// it did.
    pub fn complete_secret_project(&mut self, owner: usize, p: SecretProject, radii: SightRadii) -> (r: bool)
        requires
            !any_match(old(self).built_secret_projects@, record_of(p)) && (owner == runtime_roles_spec().player || p
                == SecretProject::EmpathGuild) ==> (old(self).has_project_spec(
                runtime_roles_spec().player,
                SecretProject::EmpathGuild,
            ) || (p == SecretProject::EmpathGuild && owner == runtime_roles_spec().player) || old(self).relations_cover(
                runtime_roles_spec().player,
            )),
        ensures
            GameState::project_completed(*old(self), *final(self), owner, p, radii, r),
    {
        let ghost s0 = *self;
        let mut i: usize = 0;
        while i < self.built_secret_projects.len()
            invariant
                i <= self.built_secret_projects@.len(),
                *self == s0,
                forall|j: int| 0 <= j < i ==> !(#[trigger] record_of(p)(self.built_secret_projects@[j])),
            decreases self.built_secret_projects@.len() - i,
        {
            if self.built_secret_projects[i].0 == p {
                assert(record_of(p)(self.built_secret_projects@[i as int]));
                return false;
            }
            i += 1;
        }
        let winner_name = owned(self.faction_name(owner));
        let name = self.production_name(owner, project_item_of(p));
        self.built_secret_projects.push((p, owner));
        let mut message = owned("GLOBAL WONDER: ");
        push_text(&mut message, winner_name.as_str());
        push_text(&mut message, " has completed ");
        push_text(&mut message, name.as_str());
        push_text(&mut message, "!");
        log_event(self, EventCategory::SecretProject, message);
        let ghost m1 = *self;
        let mut notices: Vec<(usize, String)> = Vec::new();
        let mut k: usize = 0;
        while k < self.bases.len()
            invariant
                k <= self.bases@.len(),
                self.bases@.len() == m1.bases@.len(),
                *self == (GameState { bases: self.bases, ..m1 }),
                forall|j: int| 0 <= j < k ==> project_cleared(m1.bases@[j], #[trigger] self.bases@[j], p),
                forall|j: int| k <= j < m1.bases@.len() ==> #[trigger] self.bases@[j] == m1.bases@[j],
                notices@.map_values(|e: (usize, String)| (e.0, e.1@)) == aborted_builds(m1.bases@.take(k as int), owner, p),
            decreases m1.bases@.len() - k,
        {
            let ghost b = m1.bases@[k as int];
            proof {
                assert(m1.bases@.take(k + 1) =~= m1.bases@.take(k as int).push(b));
                m1.bases@.take(k as int).lemma_filter_push(b, rival_builder(owner, p));
            }
            let ghost before = notices@;
            if self.bases[k].production.secret_project() == Some(p) {
                if self.bases[k].owner != owner {
                    let entry = (self.bases[k].owner, self.bases[k].name.clone());
                    notices.push(entry);
                    assert(notices@.map_values(|e: (usize, String)| (e.0, e.1@)) =~= before.map_values(
                        |e: (usize, String)| (e.0, e.1@),
                    ).push((b.owner, b.name@)));
                }
                self.bases[k].production = ProductionItem::StockpileEnergy;
            }
            let queue = queue_without(&self.bases[k].production_queue, p);
            self.bases[k].production_queue = queue;
            assert(notices@.map_values(|e: (usize, String)| (e.0, e.1@)) =~= aborted_builds(m1.bases@.take(k + 1), owner, p));
            k += 1;
        }
        assert(m1.bases@.take(m1.bases@.len() as int) =~= m1.bases@);
        let ghost m2 = *self;
        let ghost notes = aborted_builds(m1.bases@, owner, p);
        let ghost mut states: Seq<GameState> = seq![m2];
        let mut n: usize = 0;
        while n < notices.len()
            invariant
                n <= notices@.len(),
                notices@.map_values(|e: (usize, String)| (e.0, e.1@)) == notes,
                states.len() == n + 1,
                states[0] == m2,
                states.last() == *self,
                *self == (GameState { log: self.log, ..m2 }),
                name@ == production_name_text(project_item(p)),
                winner_name@ == faction_name_of(s0, owner),
                m2.factions == s0.factions,
                forall|i: int|
                    0 <= i < n ==> {
                        &&& logged_as(
                            states[i].log@,
                            (#[trigger] states[i + 1]).log@,
                            EventCategory::SecretProject,
                            abort_notice(states[i], notes[i], name@, winner_name@),
                            states[i].turn,
                        )
                        &&& states[i + 1] == (GameState { log: states[i + 1].log, ..states[i] })
                    },
            decreases notices@.len() - n,
        {
            assert(notes[n as int] == (notices@[n as int].0, notices@[n as int].1@));
            let mut note = owned(self.faction_name(notices[n].0));
            push_text(&mut note, " construction of ");
            push_text(&mut note, name.as_str());
            push_text(&mut note, " in ");
            push_text(&mut note, notices[n].1.as_str());
            push_text(&mut note, " was aborted! ");
            push_text(&mut note, winner_name.as_str());
            push_text(&mut note, " finished it first.");
            let ghost prev = *self;
            assert(note@ == abort_notice(prev, notes[n as int], name@, winner_name@));
            log_event(self, EventCategory::SecretProject, note);
            proof {
                states = states.push(*self);
            }
            n += 1;
        }
        assert(notices_logged(states, notes, name@, winner_name@));
        if owner == self.player_owner() || p == SecretProject::EmpathGuild {
            proof {
                let player = runtime_roles_spec().player;
                if s0.has_project_spec(player, SecretProject::EmpathGuild) {
                    let j = choose|j: int| 0 <= j < s0.built_secret_projects@.len() && (#[trigger] s0.built_secret_projects@[j]) == (SecretProject::EmpathGuild, player);
                    assert(self.built_secret_projects@[j] == (SecretProject::EmpathGuild, player));
                }
                if p == SecretProject::EmpathGuild && owner == player {
                    let j = s0.built_secret_projects@.len() as int;
                    assert(self.built_secret_projects@[j] == (SecretProject::EmpathGuild, player));
                }
                assert(self.relations == s0.relations);
            }
            self.update_player_visibility(radii);
        }
        assert(GameState::project_completed(s0, *self, owner, p, radii, true));
        true
    }
}

} // verus!
