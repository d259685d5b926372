//! The Planetary Council: when it convenes, how votes are weighed and who wins.
use crate::game_state::access::{log_event, logged_as};
use crate::model::{
    CouncilState, CouncilVote, EventCategory, Faction, GameState, SecretProject, NATIVE_ID,
};
use crate::text::{int_text, owned, push_int, push_text};
use vstd::prelude::*;

verus! {


/// Sum of the populations of the bases in `bases` owned by `owner`.
pub open spec fn population_sum(bases: Seq<crate::model::Base>, owner: usize) -> int
    decreases bases.len(),
{
    if bases.len() == 0 {
        0
    } else {
        population_sum(bases.drop_last(), owner) + if bases.last().owner == owner {
            bases.last().population as int
        } else {
            0
        }
    }
}

/// Every running total of `owner`'s populations fits in `i32`.
pub open spec fn population_sums_fit(bases: Seq<crate::model::Base>, owner: usize) -> bool {
    forall|k: int|
        0 <= k <= bases.len() ==> i32::MIN <= #[trigger] population_sum(bases.take(k), owner)
            <= i32::MAX
}

/// The weight of the votes in `votes` cast for `candidate`.
pub open spec fn tally(votes: Seq<CouncilVote>, candidate: usize) -> int
    decreases votes.len(),
{
    if votes.len() == 0 {
        0
    } else {
        tally(votes.drop_last(), candidate) + if votes.last().candidate_id == candidate {
            votes.last().weight as int
        } else {
            0
        }
    }
}

/// The weight of all votes.
pub open spec fn total_weight(votes: Seq<CouncilVote>) -> int
    decreases votes.len(),
{
    if votes.len() == 0 {
        0
    } else {
        total_weight(votes.drop_last()) + votes.last().weight as int
    }
}

/// The weights of `votes` summed without their signs: every sum of some of the weights,
/// in any order, stays within this bound.
pub open spec fn abs_weight_sum(votes: Seq<CouncilVote>) -> int
    decreases votes.len(),
{
    if votes.len() == 0 {
        0
    } else {
        let w = votes.last().weight as int;
        abs_weight_sum(votes.drop_last()) + if w < 0 { -w } else { w }
    }
}

/// Whether every sum of weights the council forms, and twice the total, fits in `i32`.
pub open spec fn weights_fit(votes: Seq<CouncilVote>) -> bool {
    2 * abs_weight_sum(votes) <= i32::MAX
}

proof fn lemma_abs_weight_prefix(votes: Seq<CouncilVote>, k: int)
    requires
        0 <= k <= votes.len(),
    ensures
        0 <= abs_weight_sum(votes.take(k)) <= abs_weight_sum(votes),
    decreases votes.len(),
{
    if k == votes.len() {
        assert(votes.take(k) =~= votes);
        if votes.len() > 0 {
            lemma_abs_weight_prefix(votes.drop_last(), 0);
        }
    } else {
        assert(votes.drop_last().take(k) =~= votes.take(k));
        lemma_abs_weight_prefix(votes.drop_last(), k);
    }
}

/// Integer division by three, rounding toward zero.
pub open spec fn third_toward_zero(v: int) -> int {
    if v >= 0 {
        v / 3
    } else {
        -((-v) / 3)
    }
}

/// Whether `candidate` won more than two thirds of the weight.
pub open spec fn wins_council(votes: Seq<CouncilVote>, candidate: usize) -> bool {
    tally(votes, candidate) > third_toward_zero(total_weight(votes) * 2)
}

/// `i` is the first vote whose candidate won the council.
pub open spec fn is_first_winning_vote(votes: Seq<CouncilVote>, i: int) -> bool {
    &&& 0 <= i < votes.len()
    &&& wins_council(votes, votes[i].candidate_id)
    &&& forall|j: int| 0 <= j < i ==> !wins_council(votes, #[trigger] votes[j].candidate_id)
}

/// The elected candidate, if any candidate won more than two thirds of the weight
/// (the first such candidate in voting order).
pub open spec fn council_winner(votes: Seq<CouncilVote>) -> Option<usize> {
    if exists|i: int| is_first_winning_vote(votes, i) {
        Some(votes[choose|i: int| is_first_winning_vote(votes, i)].candidate_id)
    } else {
        None
    }
}

/// Every vote weighs zero or more.
pub open spec fn weights_nonnegative(votes: Seq<CouncilVote>) -> bool {
    forall|i: int| 0 <= i < votes.len() ==> (#[trigger] votes[i]).weight >= 0
}

/// Two different candidates together hold no more than all the weight.
proof fn lemma_two_tallies(votes: Seq<CouncilVote>, a: usize, b: usize)
    requires
        weights_nonnegative(votes),
        a != b,
    ensures
        0 <= tally(votes, a),
        0 <= tally(votes, b),
        tally(votes, a) + tally(votes, b) <= total_weight(votes),
    decreases votes.len(),
{
    if votes.len() > 0 {
        let rest = votes.drop_last();
        assert forall|i: int| 0 <= i < rest.len() implies (#[trigger] rest[i]).weight >= 0 by {
            assert(rest[i] == votes[i]);
        }
        lemma_two_tallies(rest, a, b);
        assert(votes.last() == votes[votes.len() - 1]);
    }
}

/// The council elects at most one candidate: with no vote weighing less than zero, two
/// different candidates cannot both hold more than two thirds of the weight.
pub proof fn law_council_winner_unique(votes: Seq<CouncilVote>, a: usize, b: usize)
    requires
        weights_nonnegative(votes),
        wins_council(votes, a),
        wins_council(votes, b),
    ensures
        a == b,
{
    if a != b {
        lemma_two_tallies(votes, a, b);
        let t = total_weight(votes);
        assert(third_toward_zero(t * 2) == (t * 2) / 3);
        assert(tally(votes, a) >= (t * 2) / 3 + 1);
        assert(3 * ((t * 2) / 3) >= t * 2 - 2);
    }
}

/// The council elects exactly a candidate that was voted for and holds more than two
/// thirds of all the weight: such a candidate is elected, and whoever is elected is one.
pub proof fn law_council_elects_a_two_thirds_majority(votes: Seq<CouncilVote>, c: usize)
    requires
        weights_nonnegative(votes),
    ensures
        council_winner(votes) == Some(c) ==> 3 * tally(votes, c) > 2 * total_weight(votes)
            && exists|i: int| 0 <= i < votes.len() && (#[trigger] votes[i]).candidate_id == c,
        (exists|i: int| 0 <= i < votes.len() && (#[trigger] votes[i]).candidate_id == c) && 3 * tally(votes, c) > 2
            * total_weight(votes) ==> council_winner(votes) == Some(c),
        council_winner(votes) is None ==> forall|i: int| 0 <= i < votes.len() ==> 3 * tally(votes, #[trigger] votes[i].candidate_id)
            <= 2 * total_weight(votes),
{
    lemma_total_nonnegative(votes);
    let t = total_weight(votes);
    assert(third_toward_zero(t * 2) == (t * 2) / 3);
    assert(3 * ((t * 2) / 3) <= t * 2 < 3 * ((t * 2) / 3) + 3);
    assert forall|x: usize| wins_council(votes, x) <==> 3 * tally(votes, x) > 2 * t by {}
    if council_winner(votes) is Some {
        let k = choose|k: int| is_first_winning_vote(votes, k);
        assert(is_first_winning_vote(votes, k));
    }
    if (exists|i: int| 0 <= i < votes.len() && (#[trigger] votes[i]).candidate_id == c) && 3 * tally(votes, c) > 2 * t {
        let i = choose|i: int| 0 <= i < votes.len() && (#[trigger] votes[i]).candidate_id == c;
        assert(wins_council(votes, votes[i].candidate_id));
        if !(exists|k: int| is_first_winning_vote(votes, k)) {
            lemma_some_first_winning_vote(votes, i);
        }
        let k = choose|k: int| is_first_winning_vote(votes, k);
        law_council_winner_unique(votes, votes[k].candidate_id, c);
    }
    if council_winner(votes) is None {
        assert forall|i: int| 0 <= i < votes.len() implies 3 * tally(votes, #[trigger] votes[i].candidate_id) <= 2 * t by {
            if 3 * tally(votes, votes[i].candidate_id) > 2 * t {
                lemma_some_first_winning_vote(votes, i);
            }
        }
    }
}

/// With no vote weighing less than zero, the total weight is not negative.
proof fn lemma_total_nonnegative(votes: Seq<CouncilVote>)
    requires
        weights_nonnegative(votes),
    ensures
        total_weight(votes) >= 0,
    decreases votes.len(),
{
    if votes.len() > 0 {
        assert(weights_nonnegative(votes.drop_last())) by {
            assert forall|i: int| 0 <= i < votes.drop_last().len() implies (#[trigger] votes.drop_last()[i]).weight >= 0 by {
                assert(votes.drop_last()[i] == votes[i]);
            }
        }
        lemma_total_nonnegative(votes.drop_last());
        assert(votes.last() == votes[votes.len() - 1]);
    }
}

/// A vote for a winning candidate means some vote is the first winning one.
proof fn lemma_some_first_winning_vote(votes: Seq<CouncilVote>, i: int)
    requires
        0 <= i < votes.len(),
        wins_council(votes, votes[i].candidate_id),
    ensures
        exists|k: int| is_first_winning_vote(votes, k),
    decreases i,
{
    if forall|j: int| 0 <= j < i ==> !wins_council(votes, #[trigger] votes[j].candidate_id) {
        assert(is_first_winning_vote(votes, i));
    } else {
        let j = choose|j: int| 0 <= j < i && wins_council(votes, #[trigger] votes[j].candidate_id);
        lemma_some_first_winning_vote(votes, j);
    }
}

proof fn lemma_winner_at(votes: Seq<CouncilVote>, i: int)
    requires
        is_first_winning_vote(votes, i),
    ensures
        council_winner(votes) == Some(votes[i].candidate_id),
{
    let k = choose|k: int| is_first_winning_vote(votes, k);
    assert(is_first_winning_vote(votes, k));
    if k < i {
        assert(!wins_council(votes, votes[k].candidate_id));
    } else if i < k {
        assert(!wins_council(votes, votes[i].candidate_id));
    }
}

/// The log text announcing the council's result.
pub open spec fn council_result_text(winner: Option<usize>, names: Seq<Faction>) -> Seq<char> {
    match winner {
        Some(w) => "PLANETARY COUNCIL: "@ + (if w < names.len() {
            names[w as int].name@
        } else {
            "Faction"@
        }) + " has been elected Planetary Governor!"@,
        None => "PLANETARY COUNCIL: No candidate received the required 2/3 majority."@,
    }
}

/// The name shown for faction `owner`.
pub open spec fn faction_name_text(factions: Seq<Faction>, owner: usize) -> Seq<char> {
    if owner < factions.len() {
        factions[owner as int].name@
    } else {
        "Faction"@
    }
}

/// `new` is `pre` after the council counted `votes` with the log standing at `pre_log`:
/// the winner (if any) became governor, the result was logged, the votes were cleared and
/// the meeting turn recorded.
pub open spec fn council_resolved(
    pre: GameState,
    pre_log: Seq<crate::model::EventLogEntry>,
    votes: Seq<CouncilVote>,
    new: GameState,
) -> bool {
    &&& logged_as(
        pre_log,
        new.log@,
        EventCategory::Diplomacy,
        council_result_text(council_winner(votes), pre.factions@),
        pre.turn,
    )
    &&& new.council.pending_votes@ == Seq::<CouncilVote>::empty()
    &&& new.council.last_meeting_turn == pre.turn
    &&& new.council.is_active == pre.council.is_active
    &&& new.council.governor_id == match council_winner(votes) {
        Some(w) => Some(w),
        None => pre.council.governor_id,
    }
    &&& new == (GameState { council: new.council, log: new.log, ..pre })
}

/// The sum of the weights of `votes` cast for `candidate`, in `i64`.
fn tally_of(votes: &Vec<CouncilVote>, candidate: usize) -> (r: i64)
    requires
        weights_fit(votes@),
    ensures
        r == tally(votes@, candidate),
{
    let mut sum: i64 = 0;
    let mut k: usize = 0;
    while k < votes.len()
        invariant
            k <= votes@.len(),
            weights_fit(votes@),
            sum == tally(votes@.take(k as int), candidate),
            -abs_weight_sum(votes@.take(k as int)) <= sum <= abs_weight_sum(votes@.take(k as int)),
        decreases votes@.len() - k,
    {
        assert(votes@.take(k + 1).drop_last() =~= votes@.take(k as int));
        proof {
            lemma_abs_weight_prefix(votes@, k + 1);
        }
        if votes[k].candidate_id == candidate {
            sum = sum + votes[k].weight as i64;
        }
        k += 1;
    }
    assert(votes@.take(votes@.len() as int) =~= votes@);
    sum
}

/// The sum of all weights of `votes`, in `i64`.
fn total_of(votes: &Vec<CouncilVote>) -> (r: i64)
    requires
        weights_fit(votes@),
    ensures
        r == total_weight(votes@),
        -abs_weight_sum(votes@) <= r <= abs_weight_sum(votes@),
{
    let mut sum: i64 = 0;
    let mut k: usize = 0;
    while k < votes.len()
        invariant
            k <= votes@.len(),
            weights_fit(votes@),
            sum == total_weight(votes@.take(k as int)),
            -abs_weight_sum(votes@.take(k as int)) <= sum <= abs_weight_sum(votes@.take(k as int)),
        decreases votes@.len() - k,
    {
        assert(votes@.take(k + 1).drop_last() =~= votes@.take(k as int));
        proof {
            lemma_abs_weight_prefix(votes@, k + 1);
        }
        sum = sum + votes[k].weight as i64;
        k += 1;
    }
    assert(votes@.take(votes@.len() as int) =~= votes@);
    sum
}

/// A faction's council vote weighs its total base population, twice over once it has
/// completed the Empath Guild; a faction that does not exist has no weight.
pub proof fn law_vote_weight_is_population_doubled_by_empath_guild(state: GameState, faction_id: usize)
    ensures
        faction_id >= state.factions@.len() ==> state.vote_weight_spec(faction_id) == 0,
        faction_id < state.factions@.len() && state.has_project_spec(faction_id, SecretProject::EmpathGuild)
            ==> state.vote_weight_spec(faction_id) == 2 * population_sum(
            state.bases@,
            state.factions@[faction_id as int].id,
        ),
        faction_id < state.factions@.len() && !state.has_project_spec(faction_id, SecretProject::EmpathGuild)
            ==> state.vote_weight_spec(faction_id) == population_sum(state.bases@, state.factions@[faction_id as int].id),
{
}

/// Completing the Empath Guild doubles a faction's vote weight: two games that differ
/// only in that record give it twice the weight in the one where it is built.
pub proof fn law_empath_guild_doubles_vote_weight(before: GameState, after: GameState, faction_id: usize)
    requires
        faction_id < before.factions@.len(),
        !before.has_project_spec(faction_id, SecretProject::EmpathGuild),
        after == (GameState { built_secret_projects: after.built_secret_projects, ..before }),
        after.built_secret_projects@ == before.built_secret_projects@.push((SecretProject::EmpathGuild, faction_id)),
    ensures
        after.vote_weight_spec(faction_id) == 2 * before.vote_weight_spec(faction_id),
{
    let n = before.built_secret_projects@.len() as int;
    assert(after.built_secret_projects@[n] == (SecretProject::EmpathGuild, faction_id));
}

impl Faction {
    /// The total population of this faction's bases in `state`.
    pub fn total_population(&self, state: &GameState) -> (r: i32)
        requires
            population_sums_fit(state.bases@, self.id),
        ensures
            r == population_sum(state.bases@, self.id),
    {
        let mut sum: i32 = 0;
        let mut k: usize = 0;
        while k < state.bases.len()
            invariant
                k <= state.bases@.len(),
                population_sums_fit(state.bases@, self.id),
                sum == population_sum(state.bases@.take(k as int), self.id),
            decreases state.bases@.len() - k,
        {
            assert(state.bases@.take(k + 1).drop_last() =~= state.bases@.take(k as int));
            assert(i32::MIN <= population_sum(state.bases@.take(k + 1), self.id) <= i32::MAX);
            if state.bases[k].owner == self.id {
                sum = sum + state.bases[k].population;
            }
            k += 1;
        }
        assert(state.bases@.take(state.bases@.len() as int) =~= state.bases@);
        sum
    }
}

impl GameState {
    /// Whether faction `owner` has completed the Empath Guild.
    pub open spec fn has_project_spec(self, owner: usize, project: SecretProject) -> bool {
        exists|i: int|
            0 <= i < self.built_secret_projects@.len() && (#[trigger] self.built_secret_projects@[i])
                == (project, owner)
    }

    /// The council weight of faction `faction_id`: its population, doubled by the Empath Guild.
    pub open spec fn vote_weight_spec(self, faction_id: usize) -> int {
        if faction_id >= self.factions@.len() {
            0
        } else {
            let pop = population_sum(self.bases@, self.factions@[faction_id as int].id);
            if self.has_project_spec(faction_id, SecretProject::EmpathGuild) {
                pop * 2
            } else {
                pop
            }
        }
    }

    /// The vote weight of `faction_id` can be computed without overflow.
    pub open spec fn vote_weight_fits(self, faction_id: usize) -> bool {
        faction_id < self.factions@.len() ==> {
            let id = self.factions@[faction_id as int].id;
            &&& population_sums_fit(self.bases@, id)
            &&& i32::MIN <= population_sum(self.bases@, id) * 2 <= i32::MAX
        }
    }

    /// Why a council vote by `voter_id` for `candidate_id` is refused, if it is.
    pub open spec fn vote_refusal(self, voter_id: usize, candidate_id: usize) -> Option<Seq<char>> {
        if !self.council.is_active {
            Some("Council not active."@)
        } else if voter_id == NATIVE_ID || candidate_id == NATIVE_ID {
            Some("Native life cannot participate in council votes."@)
        } else if exists|i: int|
            0 <= i < self.council.pending_votes@.len()
                && (#[trigger] self.council.pending_votes@[i]).faction_id == voter_id {
            Some("Faction has already voted in this council session."@)
        } else {
            None
        }
    }

    /// The announcement of a vote for `office`.
    pub open spec fn vote_announcement(self, voter_id: usize, candidate_id: usize, office: Seq<char>) -> Seq<char> {
        "PLANETARY COUNCIL: "@ + faction_name_text(self.factions@, voter_id) + " cast a "@
            + int_text(self.vote_weight_spec(voter_id)) + "-weight "@ + office + " vote for "@
            + faction_name_text(self.factions@, candidate_id) + "."@
    }

    /// The state after a vote was accepted: the vote is recorded and announced, and the
    /// council is resolved once all but one faction have voted.
    pub open spec fn vote_recorded(
        old: GameState,
        new: GameState,
        voter_id: usize,
        candidate_id: usize,
        office: Seq<char>,
    ) -> bool {
        let vote = CouncilVote {
            faction_id: voter_id,
            candidate_id,
            weight: old.vote_weight_spec(voter_id) as i32,
        };
        let votes = old.council.pending_votes@.push(vote);
        let announcement = old.vote_announcement(voter_id, candidate_id, office);
        if votes.len() >= old.factions@.len() - 1 {
            exists|l1: Seq<crate::model::EventLogEntry>|
                logged_as(old.log@, l1, EventCategory::Diplomacy, announcement, old.turn)
                    && #[trigger] council_resolved(old, l1, votes, new)
        } else {
            &&& logged_as(old.log@, new.log@, EventCategory::Diplomacy, announcement, old.turn)
            &&& new.council.pending_votes@ == votes
            &&& new.council == (CouncilState { pending_votes: new.council.pending_votes, ..old.council })
            &&& new == (GameState { council: new.council, log: new.log, ..old })
        }
    }

    /// The council weight of faction `faction_id`.
    fn calculate_vote_weight(&self, faction_id: usize) -> (r: i32)
        requires
            self.vote_weight_fits(faction_id),
        ensures
            r == self.vote_weight_spec(faction_id),
    {
        let faction = match self.faction(faction_id) {
            Some(f) => f,
            None => return 0,
        };
        let base_weight = faction.total_population(self);
        if self.has_secret_project(faction_id, SecretProject::EmpathGuild) {
            base_weight * 2
        } else {
            base_weight
        }
    }

    /// Convenes a council session, clearing any votes cast so far.
    pub fn call_council(&mut self) -> (r: Result<(), String>)
        ensures
            !old(self).council.is_active ==> (r matches Err(e) && e@ == "Planetary Council is not yet active."@
                && *final(self) == *old(self)),
            old(self).council.is_active && old(self).turn < old(self).council.last_meeting_turn + 20
                ==> (r matches Err(e) && e@ == "Council cannot be called so soon after the last meeting."@
                && *final(self) == *old(self)),
            old(self).council.is_active && old(self).turn >= old(self).council.last_meeting_turn + 20
                ==> r is Ok && final(self).council.pending_votes@ == Seq::<CouncilVote>::empty()
                && final(self).council == (CouncilState {
                pending_votes: final(self).council.pending_votes,
                ..old(self).council
            }) && logged_as(
                old(self).log@,
                final(self).log@,
                EventCategory::Diplomacy,
                "PLANETARY COUNCIL: A session has been convened to elect a Planetary Governor."@,
                old(self).turn,
            ) && *final(self) == (GameState {
                council: final(self).council,
                log: final(self).log,
                ..*old(self)
            }),
    {
        if !self.council.is_active {
            return Err(owned("Planetary Council is not yet active."));
        }
        if (self.turn as i64) < (self.council.last_meeting_turn as i64) + 20 {
            return Err(owned("Council cannot be called so soon after the last meeting."));
        }
        self.council.pending_votes.clear();
        log_event(
            self,
            EventCategory::Diplomacy,
            owned("PLANETARY COUNCIL: A session has been convened to elect a Planetary Governor."),
        );
        Ok(())
    }

    /// Counts the pending votes: a candidate with more than two thirds of the weight becomes
    /// Planetary Governor; either way the result is logged and the session closes.
    fn resolve_council_votes(&mut self)
        requires
            weights_fit(old(self).council.pending_votes@),
        ensures
            council_resolved(*old(self), old(self).log@, old(self).council.pending_votes@, *final(self)),
    {
        let ghost votes = self.council.pending_votes@;
        let total = total_of(&self.council.pending_votes);
        let doubled = total * 2;
        let threshold: i64 = if doubled >= 0 { doubled / 3 } else { -((-doubled) / 3) };
        let mut winner: Option<usize> = None;
        let mut i: usize = 0;
        while i < self.council.pending_votes.len()
            invariant
                i <= votes.len(),
                votes == self.council.pending_votes@,
                weights_fit(votes),
                threshold == third_toward_zero(total_weight(votes) * 2),
                winner is None ==> forall|j: int| 0 <= j < i ==> !wins_council(votes, #[trigger] votes[j].candidate_id),
                winner matches Some(w) ==> council_winner(votes) == Some(w),
            decreases votes.len() - i,
        {
            if winner.is_none() {
                let candidate = self.council.pending_votes[i].candidate_id;
                let t = tally_of(&self.council.pending_votes, candidate);
                if t > threshold {
                    proof {
                        assert(is_first_winning_vote(votes, i as int));
                        lemma_winner_at(votes, i as int);
                    }
                    winner = Some(candidate);
                }
            }
            i += 1;
        }
        proof {
            if winner is None {
                if exists|k: int| is_first_winning_vote(votes, k) {
                    let k = choose|k: int| is_first_winning_vote(votes, k);
                    assert(!wins_council(votes, votes[k].candidate_id));
                }
            }
        }
        let message = match winner {
            Some(winner_id) => {
                self.council.governor_id = Some(winner_id);
                let mut m = owned("PLANETARY COUNCIL: ");
                push_text(&mut m, self.faction_name(winner_id));
                push_text(&mut m, " has been elected Planetary Governor!");
                m
            },
            None => owned("PLANETARY COUNCIL: No candidate received the required 2/3 majority."),
        };
        log_event(self, EventCategory::Diplomacy, message);
        self.council.pending_votes.clear();
        self.council.last_meeting_turn = self.turn;
    }

    /// Whether `voter_id` already voted this session.
    fn has_voted(&self, voter_id: usize) -> (r: bool)
        ensures
            r == exists|i: int|
                0 <= i < self.council.pending_votes@.len()
                    && (#[trigger] self.council.pending_votes@[i]).faction_id == voter_id,
    {
        let mut i: usize = 0;
        while i < self.council.pending_votes.len()
            invariant
                i <= self.council.pending_votes@.len(),
                forall|j: int|
                    0 <= j < i ==> (#[trigger] self.council.pending_votes@[j]).faction_id != voter_id,
            decreases self.council.pending_votes@.len() - i,
        {
            if self.council.pending_votes[i].faction_id == voter_id {
                assert(self.council.pending_votes@[i as int].faction_id == voter_id);
                return true;
            }
            i += 1;
        }
        false
    }

    /// Records a vote for `office` and resolves the session once all but one faction voted.
    fn cast_vote(&mut self, voter_id: usize, candidate_id: usize, office: &str) -> (r: Result<(), String>)
        requires
            old(self).vote_refusal(voter_id, candidate_id) is None ==> {
                &&& old(self).vote_weight_fits(voter_id)
                &&& old(self).factions@.len() >= 1
                &&& weights_fit(old(self).council.pending_votes@.push(CouncilVote {
                    faction_id: voter_id,
                    candidate_id,
                    weight: old(self).vote_weight_spec(voter_id) as i32,
                }))
            },
        ensures
            match old(self).vote_refusal(voter_id, candidate_id) {
                Some(reason) => r matches Err(e) && e@ == reason && *final(self) == *old(self),
                None => r is Ok && GameState::vote_recorded(*old(self), *final(self), voter_id, candidate_id, office@),
            },
    {
        if !self.council.is_active {
            return Err(owned("Council not active."));
        }
        if voter_id == NATIVE_ID || candidate_id == NATIVE_ID {
            return Err(owned("Native life cannot participate in council votes."));
        }
        if self.has_voted(voter_id) {
            return Err(owned("Faction has already voted in this council session."));
        }
        let weight = self.calculate_vote_weight(voter_id);
        self.council.pending_votes.push(CouncilVote { faction_id: voter_id, candidate_id, weight });
        let mut message = owned("PLANETARY COUNCIL: ");
        push_text(&mut message, self.faction_name(voter_id));
        push_text(&mut message, " cast a ");
        push_int(&mut message, weight as i64);
        push_text(&mut message, "-weight ");
        push_text(&mut message, office);
        push_text(&mut message, " vote for ");
        push_text(&mut message, self.faction_name(candidate_id));
        push_text(&mut message, ".");
        log_event(self, EventCategory::Diplomacy, message);
        if self.council.pending_votes.len() >= self.factions.len() - 1 {
            let ghost l1 = self.log@;
            let ghost mid = *self;
            self.resolve_council_votes();
            assert(council_resolved(*old(self), l1, mid.council.pending_votes@, *self));
        }
        Ok(())
    }

    /// Casts `voter_id`'s vote for `candidate_id` as Planetary Governor.
    pub fn vote_for_governor(&mut self, voter_id: usize, candidate_id: usize) -> (r: Result<(), String>)
        requires
            old(self).vote_refusal(voter_id, candidate_id) is None ==> {
                &&& old(self).vote_weight_fits(voter_id)
                &&& old(self).factions@.len() >= 1
                &&& weights_fit(old(self).council.pending_votes@.push(CouncilVote {
                    faction_id: voter_id,
                    candidate_id,
                    weight: old(self).vote_weight_spec(voter_id) as i32,
                }))
            },
        ensures
            match old(self).vote_refusal(voter_id, candidate_id) {
                Some(reason) => r matches Err(e) && e@ == reason && *final(self) == *old(self),
                None => r is Ok && GameState::vote_recorded(
                    *old(self),
                    *final(self),
                    voter_id,
                    candidate_id,
                    "governor"@,
                ),
            },
    {
        self.cast_vote(voter_id, candidate_id, "governor")
    }

    /// Casts `voter_id`'s vote for `candidate_id` as Supreme Leader.
    pub fn vote_for_supreme_leader(&mut self, voter_id: usize, candidate_id: usize) -> (r: Result<(), String>)
        requires
            old(self).vote_refusal(voter_id, candidate_id) is None ==> {
                &&& old(self).vote_weight_fits(voter_id)
                &&& old(self).factions@.len() >= 1
                &&& weights_fit(old(self).council.pending_votes@.push(CouncilVote {
                    faction_id: voter_id,
                    candidate_id,
                    weight: old(self).vote_weight_spec(voter_id) as i32,
                }))
            },
        ensures
            match old(self).vote_refusal(voter_id, candidate_id) {
                Some(reason) => r matches Err(e) && e@ == reason && *final(self) == *old(self),
                None => r is Ok && GameState::vote_recorded(
                    *old(self),
                    *final(self),
                    voter_id,
                    candidate_id,
                    "supreme-leader"@,
                ),
            },
    {
        self.cast_vote(voter_id, candidate_id, "supreme-leader")
    }

    /// Activates the council once any faction has completed the Empath Guild.
    pub fn check_council_activation(&mut self)
        ensures
            old(self).council.is_active ==> *final(self) == *old(self),
            !old(self).council.is_active ==> {
                let empath = exists|i: int|
                    0 <= i < old(self).factions@.len() && old(self).has_project_spec(
                        #[trigger] old(self).factions@[i].id,
                        SecretProject::EmpathGuild,
                    );
                if empath {
                    &&& final(self).council == (CouncilState { is_active: true, ..old(self).council })
                    &&& logged_as(
                        old(self).log@,
                        final(self).log@,
                        EventCategory::Diplomacy,
                        "PLANETARY COUNCIL: The Empath Guild has established the Planetary Council."@,
                        old(self).turn,
                    )
                    &&& *final(self) == (GameState {
                        council: final(self).council,
                        log: final(self).log,
                        ..*old(self)
                    })
                } else {
                    *final(self) == *old(self)
                }
            },
    {
        if self.council.is_active {
            return ;
        }
        let mut has_empath = false;
        let mut i: usize = 0;
        while i < self.factions.len() && !has_empath
            invariant
                i <= self.factions@.len(),
                !has_empath ==> forall|j: int|
                    0 <= j < i ==> !self.has_project_spec(
                        #[trigger] self.factions@[j].id,
                        SecretProject::EmpathGuild,
                    ),
                has_empath ==> exists|j: int|
                    0 <= j < self.factions@.len() && self.has_project_spec(
                        #[trigger] self.factions@[j].id,
                        SecretProject::EmpathGuild,
                    ),
            decreases self.factions@.len() - i,
        {
            if self.has_secret_project(self.factions[i].id, SecretProject::EmpathGuild) {
                assert(self.has_project_spec(self.factions@[i as int].id, SecretProject::EmpathGuild));
                has_empath = true;
            }
            i += 1;
        }
        if has_empath {
            self.council.is_active = true;
            log_event(
                self,
                EventCategory::Diplomacy,
                owned("PLANETARY COUNCIL: The Empath Guild has established the Planetary Council."),
            );
        }
    }
}

} // verus!
