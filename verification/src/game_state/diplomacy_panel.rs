//! The diplomacy panel: a faction's standing with the player, or the player's standing
//! with every other faction.
use crate::content;
use crate::game_state::roles::not_native;
use crate::game_state::{DiplomacyPanelDisplayState, DiplomacyRelationDisplayRowState};
use crate::model::{DiplomacyStatus, Faction, GameState};
use crate::presentation::{
    attitude_text, diplomacy_attitude_text, diplomacy_status_color_hex, diplomacy_status_color_text,
    diplomacy_status_text, diplomacy_status_text_text, faction_color_hex, faction_field_text,
    faction_leader_name,
};
use crate::text::owned;
use vstd::prelude::*;

verus! {

/// A profile field of the faction named `name`, or `fallback` when it has no profile.
pub open spec fn profile_field_or(name: Seq<char>, field: spec_fn(int) -> Seq<char>, fallback: Seq<char>) -> Seq<char> {
    match faction_field_text(name, field) {
        Some(t) => t,
        None => fallback,
    }
}

/// Matches the factions other than the natives and `player`.
pub open spec fn rival_of(player: usize) -> spec_fn(Faction) -> bool {
    |f: Faction| f.id != player
}

impl GameState {
    /// Whether the player's relations hold an entry for faction id `id`.
    pub open spec fn relation_exists(self, player: usize, id: usize) -> bool {
        player < self.relations@.len() && id < self.relations@[player as int]@.len()
    }

    /// Whether `row` shows `f` as the player `player` stands with it: its id, name, leader
    /// (or "Unknown") and colour (or a neutral grey) from its profile, the status and
    /// attitude of the relation with their colour, and which steps the status allows.
    pub open spec fn diplomacy_row_shows(self, row: DiplomacyRelationDisplayRowState, player: usize, f: Faction) -> bool {
        let rel = self.relations@[player as int]@[f.id as int];
        &&& row.faction_id == f.id
        &&& row.faction_name@ == f.name@
        &&& row.leader_name@ == profile_field_or(f.name@, |i: int| content::faction_leader_text(i), "Unknown"@)
        &&& row.color_hex@ == profile_field_or(f.name@, |i: int| content::faction_color_text(i), "#d0d0d0"@)
        &&& row.status_text@ == diplomacy_status_text_text(rel.status)
        &&& row.attitude_text@ == attitude_text(rel.attitude)
        &&& row.status_color_hex@ == diplomacy_status_color_text(rel.status)
        &&& row.can_sign_treaty == (rel.status == DiplomacyStatus::Truce)
        &&& row.can_sign_pact == (rel.status == DiplomacyStatus::Treaty)
        &&& row.can_declare_war == (rel.status != DiplomacyStatus::War)
        &&& row.can_offer_truce == (rel.status == DiplomacyStatus::War)
    }

    /// The factions the player's panel lists: all but the natives and the player, in order.
    pub open spec fn panel_rivals(self, player: usize) -> Seq<Faction> {
        self.factions@.filter(not_native()).filter(rival_of(player))
    }

    /// The row showing `f` as `player` stands with it.
    fn diplomacy_row(&self, player: usize, f: &Faction) -> (r: DiplomacyRelationDisplayRowState)
        requires
            self.relation_exists(player, f.id),
        ensures
            self.diplomacy_row_shows(r, player, *f),
    {
        let leader = match faction_leader_name(f.name.as_str()) {
            Some(t) => t,
            None => "Unknown",
        };
        let color = match faction_color_hex(f.name.as_str()) {
            Some(t) => t,
            None => "#d0d0d0",
        };
        let status = self.relations[player][f.id].status;
        let attitude = self.relations[player][f.id].attitude;
        DiplomacyRelationDisplayRowState {
            faction_id: f.id,
            faction_name: owned(f.name.as_str()),
            leader_name: owned(leader),
            status_text: owned(diplomacy_status_text(status)),
            attitude_text: owned(diplomacy_attitude_text(attitude)),
            color_hex: owned(color),
            status_color_hex: owned(diplomacy_status_color_hex(status)),
            can_sign_treaty: status == DiplomacyStatus::Truce,
            can_sign_pact: status == DiplomacyStatus::Treaty,
            can_declare_war: status != DiplomacyStatus::War,
            can_offer_truce: status == DiplomacyStatus::War,
        }
    }

    /// The diplomacy panel of faction `owner` for player `player_id`: for another faction
    /// its one relation with the player, for the player its relations with every other
    /// faction but the natives.
    pub fn faction_diplomacy_panel_state(&self, owner: usize, player_id: usize) -> (r: DiplomacyPanelDisplayState)
        requires
            owner != player_id ==> owner < self.factions@.len() && self.relation_exists(
                player_id,
                self.factions@[owner as int].id,
            ),
            owner == player_id ==> forall|k: int|
                0 <= k < self.panel_rivals(player_id).len() ==> self.relation_exists(
                    player_id,
                    #[trigger] self.panel_rivals(player_id)[k].id,
                ),
        ensures
            r.heading_text@ == "DIPLOMACY"@,
            r.relations_heading_text@ == if owner == player_id { "Global Relations"@ } else { "Relationship"@ },
            owner != player_id ==> r.relations@.len() == 1 && self.diplomacy_row_shows(
                r.relations@[0],
                player_id,
                self.factions@[owner as int],
            ),
            owner == player_id ==> r.relations@.len() == self.panel_rivals(player_id).len() && forall|k: int|
                0 <= k < r.relations@.len() ==> self.diplomacy_row_shows(
                    #[trigger] r.relations@[k],
                    player_id,
                    self.panel_rivals(player_id)[k],
                ),
    {
        let mut relations: Vec<DiplomacyRelationDisplayRowState> = Vec::new();
        if owner != player_id {
            let row = self.diplomacy_row(player_id, &self.factions[owner]);
            relations.push(row);
            return DiplomacyPanelDisplayState {
                heading_text: owned("DIPLOMACY"),
                relations_heading_text: owned("Relationship"),
                relations,
            };
        }
        let others = self.non_native_factions();
        let ghost nn = self.factions@.filter(not_native());
        assert(others@.map_values(|f: &Faction| *f) == nn);
        let mut k: usize = 0;
        while k < others.len()
            invariant
                k <= others@.len(),
                owner == player_id,
                others@.map_values(|f: &Faction| *f) == nn,
                nn == self.factions@.filter(not_native()),
                forall|m: int|
                    0 <= m < self.panel_rivals(player_id).len() ==> self.relation_exists(
                        player_id,
                        #[trigger] self.panel_rivals(player_id)[m].id,
                    ),
                relations@.len() == nn.take(k as int).filter(rival_of(player_id)).len(),
                forall|m: int|
                    0 <= m < relations@.len() ==> self.diplomacy_row_shows(
                        #[trigger] relations@[m],
                        player_id,
                        nn.take(k as int).filter(rival_of(player_id))[m],
                    ),
            decreases others@.len() - k,
        {
            let f = others[k];
            assert(nn[k as int] == *f);
            proof {
                assert(nn.take(k + 1) =~= nn.take(k as int).push(*f));
                nn.take(k as int).lemma_filter_push(*f, rival_of(player_id));
            }
            if f.id != player_id {
                proof {
                    let before = nn.take(k as int).filter(rival_of(player_id));
                    crate::seqs::lemma_filter_prefix_index(nn, rival_of(player_id), k as int);
                    assert(self.panel_rivals(player_id)[before.len() as int] == *f);
                }
                let row = self.diplomacy_row(player_id, f);
                relations.push(row);
            }
            k += 1;
        }
        assert(nn.take(others@.len() as int) =~= nn);
        DiplomacyPanelDisplayState {
            heading_text: owned("DIPLOMACY"),
            relations_heading_text: owned("Global Relations"),
            relations,
        }
    }
}

} // verus!
