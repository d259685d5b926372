//! Which faction is the player, the rival AI and the natives.
use crate::content::{runtime_roles, runtime_roles_spec, RuntimeRoles};
use crate::model::{Faction, GameState};
use crate::text::{int_text, owned, push_int, push_text};
use vstd::prelude::*;

verus! {

/// Matches the factions other than the natives.
pub open spec fn not_native() -> spec_fn(Faction) -> bool {
    |f: Faction| f.id != runtime_roles_spec().native
}

impl GameState {
    /// The parts the factions play in this game.
    pub fn runtime_roles(&self) -> (r: RuntimeRoles)
        ensures
            r == runtime_roles_spec(),
    {
        runtime_roles()
    }

    /// The owner id of the human player.
    pub fn player_owner(&self) -> (r: usize)
        ensures
            r == runtime_roles_spec().player,
    {
        self.runtime_roles().player
    }

    /// The owner id of the rival AI.
    pub fn ai_owner(&self) -> (r: usize)
        ensures
            r == runtime_roles_spec().ai,
    {
        self.runtime_roles().ai
    }

    /// The owner id of the planet's natives.
    pub fn native_owner(&self) -> (r: usize)
        ensures
            r == runtime_roles_spec().native,
    {
        self.runtime_roles().native
    }

    /// The factions other than the natives, in the order they are stored.
    pub fn non_native_factions(&self) -> (r: Vec<&Faction>)
        ensures
            r@.map_values(|f: &Faction| *f) == self.factions@.filter(not_native()),
    {
        let native = self.native_owner();
        let mut r: Vec<&Faction> = Vec::new();
        let mut k: usize = 0;
        while k < self.factions.len()
            invariant
                k <= self.factions@.len(),
                native == runtime_roles_spec().native,
                r@.map_values(|f: &Faction| *f) == self.factions@.take(k as int).filter(not_native()),
            decreases self.factions@.len() - k,
        {
            let f = &self.factions[k];
            proof {
                assert(self.factions@.take(k + 1) =~= self.factions@.take(k as int).push(*f));
                self.factions@.take(k as int).lemma_filter_push(*f, not_native());
            }
            let ghost before = r@;
            if f.id != native {
                r.push(f);
                assert(r@.map_values(|f: &Faction| *f) =~= before.map_values(|f: &Faction| *f).push(*f));
            }
            k += 1;
        }
        assert(self.factions@.take(self.factions@.len() as int) =~= self.factions@);
        r
    }

    /// The player's faction, when the game has it.
    pub fn player_faction(&self) -> (r: Option<&Faction>)
        ensures
            match r {
                Some(f) => runtime_roles_spec().player < self.factions@.len()
                    && *f == self.factions@[runtime_roles_spec().player as int],
                None => runtime_roles_spec().player >= self.factions@.len(),
            },
    {
        self.faction(self.player_owner())
    }
    /// The name a new save gets: "Unnamed Save" without an id, else the game year (the
    /// turn counted from 2100) and the player's faction.
    pub fn default_save_slot_name(&self, id: &str) -> (r: String)
        requires
            self.turn + 2100 <= i32::MAX,
        ensures
            r@ == if id@.len() == 0 {
                "Unnamed Save"@
            } else {
                "Year "@ + int_text(self.turn + 2100) + " - "@ + if runtime_roles_spec().player < self.factions@.len() {
                    self.factions@[runtime_roles_spec().player as int].name@
                } else {
                    "Faction"@
                }
            },
    {
        if id.unicode_len() == 0 {
            return owned("Unnamed Save");
        }
        let year: i32 = 2100 + self.turn;
        let mut s = owned("Year ");
        push_int(&mut s, year as i64);
        push_text(&mut s, " - ");
        push_text(&mut s, self.faction_name(self.player_owner()));
        s
    }
}

} // verus!
