//! Deciding when a game is over: the victories a faction can reach, conquest, and the
//! player's defeat.
use crate::content::runtime_roles_spec;
use crate::game_state::diplomacy::techs_contain;
use crate::game_state::queue::{log_general, logged};
use crate::model::{GameOver, GameState, SecretProject, Tech, NATIVE_ID};
use crate::text::{owned, push_text};
use vstd::prelude::*;

verus! {

/// The ways a faction can win outright.
#[derive(Clone, Copy, Debug, PartialEq, Eq, Structural)]
pub enum VictoryKind {
    Transcendence,
    Space,
    Singularity,
    Economic,
}

/// The end a victory of kind `kind` gives, by the player or by a rival.
pub open spec fn victory_outcome(kind: VictoryKind, by_player: bool) -> GameOver {
    match kind {
        VictoryKind::Transcendence => if by_player { GameOver::PlayerWonTranscendence } else { GameOver::AiWonTranscendence },
        VictoryKind::Space => if by_player { GameOver::PlayerWonSpaceTranscendence } else { GameOver::AiWonSpaceTranscendence },
        VictoryKind::Singularity => if by_player { GameOver::PlayerWonBlackHoleHarvesting } else { GameOver::AiWonBlackHoleHarvesting },
        VictoryKind::Economic => if by_player { GameOver::PlayerWonEconomic } else { GameOver::AiWonEconomic },
    }
}

/// The announcement of a victory of kind `kind` by the faction named `name`.
pub open spec fn victory_message(kind: VictoryKind, name: Seq<char>) -> Seq<char> {
    "VICTORY: "@ + name + match kind {
        VictoryKind::Transcendence => " has attained Ascent to Planet. Humanity transcends."@,
        VictoryKind::Space => " has attained Space Mastery. Humanity reaches for the stars."@,
        VictoryKind::Singularity => " has attained Singularity Mastery. Infinite energy awaits."@,
        VictoryKind::Economic => " has achieved economic dominance. The market is yours."@,
    }
}

/// `new` is `old` ended with `outcome` and `message` logged.
pub open spec fn game_ended(old: GameState, new: GameState, outcome: GameOver, message: Seq<char>) -> bool {
    &&& logged(old.log@, new.log@, message, old.turn)
    &&& new == (GameState { game_over: Some(outcome), log: new.log, ..old })
}

/// Whether faction `id` has reached Ascent to Planet: it knows Secrets of Planet, has
/// completed the Empath Guild and holds the Planetary Governorship.
pub open spec fn ascended(s: GameState, id: usize) -> bool {
    &&& id < s.factions@.len()
    &&& s.factions@[id as int].known_techs@.contains(Tech::SecretsOfPlanet)
    &&& s.has_project_spec(id, SecretProject::EmpathGuild)
    &&& s.council.governor_id == Some(id)
}

/// Whether faction `id` has mastered space: it completed both the Orbital Elevator and the
/// Manifold Drive.
pub open spec fn mastered_space(s: GameState, id: usize) -> bool {
    s.has_project_spec(id, SecretProject::OrbitalElevator) && s.has_project_spec(id, SecretProject::ManifoldDrive)
}

/// Whether faction `id` has mastered the singularity: it completed both Singularity
/// Containment and the Black Hole Harvester.
pub open spec fn mastered_singularity(s: GameState, id: usize) -> bool {
    s.has_project_spec(id, SecretProject::SingularityContainment) && s.has_project_spec(
        id,
        SecretProject::BlackHoleHarvester,
    )
}

/// Whether faction `id` dominates the economy: an energy reserve of at least 10000.
pub open spec fn dominates_economy(s: GameState, id: usize) -> bool {
    id < s.factions@.len() && s.factions@[id as int].energy >= 10000
}

/// Whether faction `id` takes part in the race for victory: it exists and is not the natives.
pub open spec fn contender(s: GameState, id: int) -> bool {
    0 <= id < s.factions@.len() && id != NATIVE_ID
}

/// Whether no contender other than `id` is alive.
pub open spec fn sole_survivor(s: GameState, id: usize) -> bool {
    &&& contender(s, id as int)
    &&& s.faction_alive_spec(id)
    &&& forall|j: int| contender(s, j) && j != id ==> !#[trigger] s.faction_alive_spec(j as usize)
}

impl GameState {
    /// The first victor from position `i` on is a contender at or after `i` that has
    /// reached a victory, and every contender before it from `i` on has not.
    proof fn lemma_first_victor(self, i: int)
        requires
            0 <= i,
            self.factions@.len() == self.factions.len(),
        ensures
            self.first_victor(i) matches Some(id) ==> i <= id && contender(self, id as int) && self.victory_kind(id) is Some,
            self.first_victor(i) is None ==> forall|j: int| i <= j && contender(self, j) ==> #[trigger] self.victory_kind(j as usize) is None,
        decreases self.factions@.len() - i,
    {
        if i < self.factions@.len() {
            self.lemma_first_victor(i + 1);
            if i != NATIVE_ID && self.victory_kind(i as usize) is Some {
                assert(self.first_victor(i) == Some(i as usize));
            } else {
                assert(self.first_victor(i) == self.first_victor(i + 1));
                assert forall|j: int| i <= j && contender(self, j) && self.first_victor(i) is None implies #[trigger] self.victory_kind(j as usize) is None by {
                    if j == i {
                        assert(i != NATIVE_ID);
                    }
                }
            }
        } else {
            assert(self.first_victor(i) is None);
        }
    }

    /// A contender meeting a condition, with none before it meeting one, is the first victor.
    proof fn lemma_first_victor_is_first(self, i: int, id: usize)
        requires
            0 <= i <= id,
            self.factions@.len() == self.factions.len(),
            contender(self, id as int),
            none_before(self, id as int),
            ascended(self, id) || mastered_space(self, id) || mastered_singularity(self, id) || dominates_economy(self, id),
        ensures
            self.first_victor(i) == Some(id),
        decreases id - i,
    {
        if i < id {
            self.lemma_first_victor_is_first(i + 1, id);
            if contender(self, i) {
                assert(self.victory_kind(i as usize) is None);
            }
        } else {
            assert(self.victory_kind(id) is Some);
        }
    }

    /// The alive rivals come in increasing order of position.
    proof fn lemma_alive_rivals_increasing(self, n: int)
        requires
            0 <= n <= self.factions.len(),
        ensures
            forall|a: int, b: int| 0 <= a < b < self.alive_rivals(n).len() ==> #[trigger] self.alive_rivals(n)[a] < #[trigger] self.alive_rivals(n)[b],
        decreases n,
    {
        if n > 0 {
            self.lemma_alive_rivals_increasing(n - 1);
            self.lemma_alive_rivals_members(n - 1);
            let prev = self.alive_rivals(n - 1);
            let last = (n - 1) as usize;
            if n - 1 != NATIVE_ID && self.faction_alive_spec(last) {
                assert(self.alive_rivals(n) == prev.push(last));
                assert forall|a: int, b: int| 0 <= a < b < self.alive_rivals(n).len() implies #[trigger] self.alive_rivals(n)[a] < #[trigger] self.alive_rivals(n)[b] by {
                    if b == prev.len() {
                        assert(self.alive_rivals(n)[a] == prev[a]);
                    } else {
                        assert(self.alive_rivals(n)[a] == prev[a]);
                        assert(self.alive_rivals(n)[b] == prev[b]);
                    }
                }
            } else {
                assert(self.alive_rivals(n) == prev);
            }
        }
    }

    /// A faction is among the alive rivals of the first `n` exactly when it is a living
    /// contender below `n`.
    proof fn lemma_alive_rivals_members(self, n: int)
        requires
            0 <= n <= self.factions.len(),
        ensures
            forall|k: int| 0 <= k < self.alive_rivals(n).len() ==> {
                let id = #[trigger] self.alive_rivals(n)[k];
                id < n && id != NATIVE_ID && self.faction_alive_spec(id)
            },
            forall|j: int| 0 <= j < n && j != NATIVE_ID && #[trigger] self.faction_alive_spec(j as usize) ==> self.alive_rivals(n).contains(j as usize),
        decreases n,
    {
        if n > 0 {
            self.lemma_alive_rivals_members(n - 1);
            let prev = self.alive_rivals(n - 1);
            let last = (n - 1) as usize;
            if n - 1 != NATIVE_ID && self.faction_alive_spec(last) {
                assert(self.alive_rivals(n) == prev.push(last));
            } else {
                assert(self.alive_rivals(n) == prev);
            }
            assert forall|k: int| 0 <= k < self.alive_rivals(n).len() implies {
                let id = #[trigger] self.alive_rivals(n)[k];
                id < n && id != NATIVE_ID && self.faction_alive_spec(id)
            } by {
                if k < prev.len() {
                    assert(self.alive_rivals(n)[k] == prev[k]);
                } else {
                    assert(self.alive_rivals(n)[k] == last);
                }
            }
            assert forall|j: int| 0 <= j < n && j != NATIVE_ID && #[trigger] self.faction_alive_spec(j as usize) implies self.alive_rivals(n).contains(j as usize) by {
                if j < n - 1 {
                    let k = choose|k: int| 0 <= k < prev.len() && prev[k] == j as usize;
                    assert(self.alive_rivals(n)[k] == j as usize);
                } else {
                    assert(self.alive_rivals(n)[prev.len() as int] == j as usize);
                }
            }
        }
    }

    proof fn lemma_alive_rivals_below(self, n: int)
        ensures
            forall|k: int| 0 <= k < self.alive_rivals(n).len() ==> #[trigger] self.alive_rivals(n)[k] < n,
        decreases n,
    {
        if n > 0 {
            self.lemma_alive_rivals_below(n - 1);
            let prev = self.alive_rivals(n - 1);
            assert forall|k: int| 0 <= k < self.alive_rivals(n).len() implies #[trigger] self.alive_rivals(n)[k] < n by {
                if k < prev.len() {
                    assert(self.alive_rivals(n)[k] == prev[k]);
                }
            }
        }
    }

    /// The victory faction `id` has reached, if any, checked in order: Ascent to Planet
    /// (Secrets of Planet, the Empath Guild and the governorship), space mastery (the
    /// Orbital Elevator and the Manifold Drive), singularity mastery (Singularity
    /// Containment and the Black Hole Harvester), and an energy reserve of 10000.
    pub open spec fn victory_kind(self, id: usize) -> Option<VictoryKind> {
        let f = self.factions@[id as int];
        if f.known_techs@.contains(Tech::SecretsOfPlanet) && self.has_project_spec(id, SecretProject::EmpathGuild)
            && self.council.governor_id == Some(id) {
            Some(VictoryKind::Transcendence)
        } else if self.has_project_spec(id, SecretProject::OrbitalElevator) && self.has_project_spec(
            id,
            SecretProject::ManifoldDrive,
        ) {
            Some(VictoryKind::Space)
        } else if self.has_project_spec(id, SecretProject::SingularityContainment) && self.has_project_spec(
            id,
            SecretProject::BlackHoleHarvester,
        ) {
            Some(VictoryKind::Singularity)
        } else if f.energy >= 10000 {
            Some(VictoryKind::Economic)
        } else {
            None
        }
    }

    /// The first faction from position `i` on, natives aside, that has reached a victory.
    pub open spec fn first_victor(self, i: int) -> Option<usize>
        decreases self.factions@.len() - i,
    {
        if i < 0 || i >= self.factions@.len() {
            None
        } else if i != NATIVE_ID && self.victory_kind(i as usize) is Some {
            Some(i as usize)
        } else {
            self.first_victor(i + 1)
        }
    }

    /// The factions among the first `n`, natives aside, still alive, in order.
    pub open spec fn alive_rivals(self, n: int) -> Seq<usize>
        decreases n,
    {
        if n <= 0 {
            Seq::empty()
        } else {
            let prev = self.alive_rivals(n - 1);
            if n - 1 != NATIVE_ID && self.faction_alive_spec((n - 1) as usize) {
                prev.push((n - 1) as usize)
            } else {
                prev
            }
        }
    }

    /// What checking for the end of the game does to `old`: nothing once it is over; else
    /// the first faction with a victory wins it; else the one faction left alive (natives
    /// aside) wins by conquest; else a player with no unit and no base has lost.
    pub open spec fn game_over_checked(old: GameState, new: GameState) -> bool {
        let player = runtime_roles_spec().player;
        if old.game_over is Some {
            new == old
        } else if old.first_victor(0) is Some {
            let id = old.first_victor(0)->0;
            let kind = old.victory_kind(id)->0;
            game_ended(old, new, victory_outcome(kind, id == player), victory_message(kind, old.factions@[id as int].name@))
        } else if old.alive_rivals(old.factions@.len() as int).len() == 1 {
            let winner = old.alive_rivals(old.factions@.len() as int)[0];
            if winner == player {
                game_ended(old, new, GameOver::PlayerWonConquest, "VICTORY: Conquest! All rival factions eliminated."@)
            } else {
                game_ended(
                    old,
                    new,
                    GameOver::AiWonConquest,
                    "VICTORY: "@ + old.factions@[winner as int].name@ + " has achieved total conquest of Planet."@,
                )
            }
        } else if !old.faction_alive_spec(player) {
            game_ended(old, new, GameOver::PlayerLost, "DEFEAT: Your faction has been wiped out."@)
        } else {
            new == old
        }
    }

    /// The victory faction `id` has reached, if any.
    fn victory_kind_of(&self, id: usize) -> (r: Option<VictoryKind>)
        requires
            id < self.factions@.len(),
        ensures
            r == self.victory_kind(id),
    {
        let f = &self.factions[id];
        if techs_contain(&f.known_techs, Tech::SecretsOfPlanet) && self.has_secret_project(id, SecretProject::EmpathGuild)
            && self.council.governor_id == Some(id) {
            Some(VictoryKind::Transcendence)
        } else if self.has_secret_project(id, SecretProject::OrbitalElevator) && self.has_secret_project(
            id,
            SecretProject::ManifoldDrive,
        ) {
            Some(VictoryKind::Space)
        } else if self.has_secret_project(id, SecretProject::SingularityContainment) && self.has_secret_project(
            id,
            SecretProject::BlackHoleHarvester,
        ) {
            Some(VictoryKind::Singularity)
        } else if f.energy >= 10000 {
            Some(VictoryKind::Economic)
        } else {
            None
        }
    }

    /// Ends the game and logs `message`.
    fn end_game(&mut self, outcome: GameOver, message: String)
        ensures
            game_ended(*old(self), *final(self), outcome, message@),
    {
        self.game_over = Some(outcome);
        log_general(self, message);
    }

    /// Ends the game when a faction has won or the player has lost, logging how.
    pub fn check_game_over(&mut self)
        ensures
            GameState::game_over_checked(*old(self), *final(self)),
    {
        if self.game_over.is_some() {
            return;
        }
        let player = self.player_owner();
        let n = self.factions.len();
        let mut id: usize = 0;
        while id < n
            invariant
                n == self.factions@.len(),
                id <= n,
                *self == *old(self),
                player == runtime_roles_spec().player,
                self.game_over is None,
                self.first_victor(0) == self.first_victor(id as int),
            decreases n - id,
        {
            if id != NATIVE_ID {
                match self.victory_kind_of(id) {
                    Some(kind) => {
                        let mut message = owned("VICTORY: ");
                        push_text(&mut message, self.factions[id].name.as_str());
                        match kind {
                            VictoryKind::Transcendence => push_text(&mut message, " has attained Ascent to Planet. Humanity transcends."),
                            VictoryKind::Space => push_text(&mut message, " has attained Space Mastery. Humanity reaches for the stars."),
                            VictoryKind::Singularity => push_text(&mut message, " has attained Singularity Mastery. Infinite energy awaits."),
                            VictoryKind::Economic => push_text(&mut message, " has achieved economic dominance. The market is yours."),
                        }
                        assert(message@ == victory_message(kind, self.factions@[id as int].name@));
                        let outcome = match kind {
                            VictoryKind::Transcendence => if id == player { GameOver::PlayerWonTranscendence } else { GameOver::AiWonTranscendence },
                            VictoryKind::Space => if id == player { GameOver::PlayerWonSpaceTranscendence } else { GameOver::AiWonSpaceTranscendence },
                            VictoryKind::Singularity => if id == player { GameOver::PlayerWonBlackHoleHarvesting } else { GameOver::AiWonBlackHoleHarvesting },
                            VictoryKind::Economic => if id == player { GameOver::PlayerWonEconomic } else { GameOver::AiWonEconomic },
                        };
                        assert(self.first_victor(id as int) == Some(id));
                        assert(outcome == victory_outcome(kind, id == runtime_roles_spec().player));
                        self.end_game(outcome, message);
                        return;
                    },
                    None => {},
                }
            }
            id += 1;
        }
        assert(self.first_victor(n as int) is None);
        assert(self.first_victor(0) is None);
        let mut alive: Vec<usize> = Vec::new();
        let mut k: usize = 0;
        while k < n
            invariant
                n == self.factions@.len(),
                k <= n,
                *self == *old(self),
                alive@ == self.alive_rivals(k as int),
            decreases n - k,
        {
            if k != NATIVE_ID && self.faction_alive(k) {
                alive.push(k);
            }
            k += 1;
        }
        assert(self.alive_rivals(self.factions@.len() as int) == alive@);
        proof {
            self.lemma_alive_rivals_below(n as int);
        }
        if alive.len() == 1 {
            let winner = alive[0];
            assert(winner < n);
            if winner == player {
                self.end_game(GameOver::PlayerWonConquest, owned("VICTORY: Conquest! All rival factions eliminated."));
            } else {
                let mut message = owned("VICTORY: ");
                push_text(&mut message, self.faction_name(winner));
                push_text(&mut message, " has achieved total conquest of Planet.");
                self.end_game(GameOver::AiWonConquest, message);
            }
            return;
        }
        if !self.faction_alive(player) {
            self.end_game(GameOver::PlayerLost, owned("DEFEAT: Your faction has been wiped out."));
        }
    }
}


/// The game ends only for a reason it can show: a finished game stays as it is; a victory
/// of each kind is won by a contender that met its conditions (the player's kinds by the
/// player, the rivals' kinds by another contender); conquest is won by the one contender
/// left alive; and the player loses only with no unit and no base left.
pub proof fn law_game_ends_for_a_reason(old: GameState, new: GameState)
    requires
        GameState::game_over_checked(old, new),
    ensures
        old.game_over is Some ==> new == old,
        old.game_over is None && new.game_over is Some ==> ({
            let p = runtime_roles_spec().player;
            let g = new.game_over->0;
            &&& g == GameOver::PlayerWonTranscendence ==> ascended(old, p) && contender(old, p as int)
            &&& g == GameOver::AiWonTranscendence ==> exists|id: usize| id != p && contender(old, id as int) && #[trigger] ascended(old, id)
            &&& g == GameOver::PlayerWonSpaceTranscendence ==> mastered_space(old, p) && contender(old, p as int)
            &&& g == GameOver::AiWonSpaceTranscendence ==> exists|id: usize| id != p && contender(old, id as int) && #[trigger] mastered_space(old, id)
            &&& g == GameOver::PlayerWonBlackHoleHarvesting ==> mastered_singularity(old, p) && contender(old, p as int)
            &&& g == GameOver::AiWonBlackHoleHarvesting ==> exists|id: usize| id != p && contender(old, id as int) && #[trigger] mastered_singularity(old, id)
            &&& g == GameOver::PlayerWonEconomic ==> dominates_economy(old, p) && contender(old, p as int)
            &&& g == GameOver::AiWonEconomic ==> exists|id: usize| id != p && contender(old, id as int) && #[trigger] dominates_economy(old, id)
            &&& g == GameOver::PlayerWonConquest ==> sole_survivor(old, p)
            &&& g == GameOver::AiWonConquest ==> exists|id: usize| id != p && #[trigger] sole_survivor(old, id)
            &&& g == GameOver::PlayerLost ==> !old.faction_alive_spec(p)
        }),
{
    let p = runtime_roles_spec().player;
    assert(old.factions@.len() == old.factions.len());
    old.lemma_first_victor(0);
    old.lemma_alive_rivals_members(old.factions@.len() as int);
    if old.game_over is None && old.first_victor(0) is Some {
        let id = old.first_victor(0)->0;
        let kind = old.victory_kind(id)->0;
        assert(contender(old, id as int));
        assert(new.game_over == Some(victory_outcome(kind, id == p)));
        match kind {
            VictoryKind::Transcendence => {
                assert(ascended(old, id));
            },
            VictoryKind::Space => {
                assert(mastered_space(old, id));
            },
            VictoryKind::Singularity => {
                assert(mastered_singularity(old, id));
            },
            VictoryKind::Economic => {
                assert(dominates_economy(old, id));
            },
        }
    } else if old.game_over is None && old.alive_rivals(old.factions@.len() as int).len() == 1 {
        let r = old.alive_rivals(old.factions@.len() as int);
        let w = r[0];
        assert(w < old.factions@.len() && w != NATIVE_ID && old.faction_alive_spec(w));
        assert forall|j: int| contender(old, j) && j != w implies !#[trigger] old.faction_alive_spec(j as usize) by {
            if old.faction_alive_spec(j as usize) {
                assert(r.contains(j as usize));
                let k = choose|k: int| 0 <= k < r.len() && r[k] == j as usize;
                assert(k == 0);
            }
        }
        assert(sole_survivor(old, w));
    }
}

/// Without a contender meeting any victory condition, with two contenders alive and the
/// player alive, checking for the end of the game changes nothing.
pub proof fn law_game_goes_on_without_a_victor(old: GameState, new: GameState, a: usize, b: usize)
    requires
        GameState::game_over_checked(old, new),
        forall|id: usize| #![trigger old.victory_kind(id)] contender(old, id as int) ==> !ascended(old, id) && !mastered_space(old, id)
            && !mastered_singularity(old, id) && !dominates_economy(old, id),
        contender(old, a as int),
        contender(old, b as int),
        a != b,
        old.faction_alive_spec(a),
        old.faction_alive_spec(b),
        old.faction_alive_spec(runtime_roles_spec().player),
    ensures
        new == old,
{
    assert(old.factions@.len() == old.factions.len());
    old.lemma_first_victor(0);
    old.lemma_alive_rivals_members(old.factions@.len() as int);
    if old.first_victor(0) is Some {
        let id = old.first_victor(0)->0;
        assert(old.victory_kind(id) is None);
    }
    let r = old.alive_rivals(old.factions@.len() as int);
    assert(old.faction_alive_spec((a as int) as usize));
    assert(old.faction_alive_spec((b as int) as usize));
    assert(r.contains(a) && r.contains(b));
    if r.len() == 1 {
        let i = choose|i: int| 0 <= i < r.len() && r[i] == a;
        let j = choose|j: int| 0 <= j < r.len() && r[j] == b;
        assert(i == 0 && j == 0);
    }
}


/// No contender before `id` has met any victory condition.
pub open spec fn none_before(s: GameState, id: int) -> bool {
    forall|j: usize| #![trigger s.victory_kind(j)] contender(s, j as int) && j < id ==> !ascended(s, j) && !mastered_space(s, j)
        && !mastered_singularity(s, j) && !dominates_economy(s, j)
}

/// The first contender, by position, to meet a victory condition wins by the first
/// condition it meets, in the order Ascent to Planet, space, singularity, economy; the
/// player's win or a rival's, announced under its name.
pub proof fn law_first_contender_meeting_a_condition_wins(old: GameState, new: GameState, id: usize)
    requires
        GameState::game_over_checked(old, new),
        old.game_over is None,
        contender(old, id as int),
        none_before(old, id as int),
        ascended(old, id) || mastered_space(old, id) || mastered_singularity(old, id) || dominates_economy(old, id),
    ensures
        ({
            let by_player = id == runtime_roles_spec().player;
            let name = old.factions@[id as int].name@;
            if ascended(old, id) {
                &&& new.game_over == Some(if by_player { GameOver::PlayerWonTranscendence } else { GameOver::AiWonTranscendence })
                &&& new.log@.last().message@ == "VICTORY: "@ + name + " has attained Ascent to Planet. Humanity transcends."@
            } else if mastered_space(old, id) {
                &&& new.game_over == Some(if by_player { GameOver::PlayerWonSpaceTranscendence } else { GameOver::AiWonSpaceTranscendence })
                &&& new.log@.last().message@ == "VICTORY: "@ + name + " has attained Space Mastery. Humanity reaches for the stars."@
            } else if mastered_singularity(old, id) {
                &&& new.game_over == Some(if by_player { GameOver::PlayerWonBlackHoleHarvesting } else { GameOver::AiWonBlackHoleHarvesting })
                &&& new.log@.last().message@ == "VICTORY: "@ + name + " has attained Singularity Mastery. Infinite energy awaits."@
            } else {
                &&& new.game_over == Some(if by_player { GameOver::PlayerWonEconomic } else { GameOver::AiWonEconomic })
                &&& new.log@.last().message@ == "VICTORY: "@ + name + " has achieved economic dominance. The market is yours."@
            }
        }),
{
    assert(old.factions@.len() == old.factions.len());
    old.lemma_first_victor(0);
    old.lemma_first_victor_is_first(0, id);
    let v = old.first_victor(0)->0;
    assert(v == id);
}

/// With no contender meeting a victory condition, the one contender left alive wins by
/// conquest: the player, announced as such, or a rival, announced by name.
pub proof fn law_sole_survivor_conquers(old: GameState, new: GameState, w: usize)
    requires
        GameState::game_over_checked(old, new),
        old.game_over is None,
        none_before(old, old.factions@.len() as int),
        sole_survivor(old, w),
    ensures
        w == runtime_roles_spec().player ==> new.game_over == Some(GameOver::PlayerWonConquest)
            && new.log@.last().message@ == "VICTORY: Conquest! All rival factions eliminated."@,
        w != runtime_roles_spec().player ==> new.game_over == Some(GameOver::AiWonConquest)
            && new.log@.last().message@ == "VICTORY: "@ + old.factions@[w as int].name@ + " has achieved total conquest of Planet."@,
{
    assert(old.factions@.len() == old.factions.len());
    old.lemma_first_victor(0);
    old.lemma_alive_rivals_members(old.factions@.len() as int);
    if old.first_victor(0) is Some {
        let v = old.first_victor(0)->0;
        assert(old.victory_kind(v) is Some);
    }
    let r = old.alive_rivals(old.factions@.len() as int);
    assert(old.faction_alive_spec((w as int) as usize));
    assert(r.contains(w));
    if r.len() != 1 {
        let k = choose|k: int| 0 <= k < r.len() && r[k] == w;
        let other = if k == 0 { 1int } else { 0int };
        let o = r[other];
        assert(o < old.factions@.len() && o != NATIVE_ID && old.faction_alive_spec(o));
        if o == w {
            assert(r[k] == r[other]);
            old.lemma_alive_rivals_increasing(old.factions@.len() as int);
        }
        assert(!old.faction_alive_spec((o as int) as usize));
    }
    assert(r[0] == w) by {
        let k = choose|k: int| 0 <= k < r.len() && r[k] == w;
    }
}

/// With no contender meeting a victory condition and the player without any unit or
/// base, the player has lost, unless one contender is left alive to win by conquest.
pub proof fn law_player_without_forces_loses(old: GameState, new: GameState)
    requires
        GameState::game_over_checked(old, new),
        old.game_over is None,
        none_before(old, old.factions@.len() as int),
        !old.faction_alive_spec(runtime_roles_spec().player),
        forall|w: usize| !#[trigger] sole_survivor(old, w),
    ensures
        new.game_over == Some(GameOver::PlayerLost),
        new.log@.last().message@ == "DEFEAT: Your faction has been wiped out."@,
{
    assert(old.factions@.len() == old.factions.len());
    old.lemma_first_victor(0);
    old.lemma_alive_rivals_members(old.factions@.len() as int);
    if old.first_victor(0) is Some {
        let v = old.first_victor(0)->0;
        assert(old.victory_kind(v) is Some);
    }
    let r = old.alive_rivals(old.factions@.len() as int);
    if r.len() == 1 {
        let w = r[0];
        assert forall|j: int| contender(old, j) && j != w implies !#[trigger] old.faction_alive_spec(j as usize) by {
            if old.faction_alive_spec(j as usize) {
                assert(r.contains(j as usize));
                let k = choose|k: int| 0 <= k < r.len() && r[k] == j as usize;
                assert(k == 0);
            }
        }
        assert(sole_survivor(old, w));
    }
}

} // verus!
