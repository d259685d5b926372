//! Choosing what a faction researches.
use crate::content::{tech_available, tech_is_available, tech_name, tech_name_text, tech_prerequisites, tech_prerequisites_of};
use crate::game_state::diplomacy::knows;
use crate::game_state::diplomacy::techs_contain;
use crate::game_state::queue::{log_general, only_logged};
use crate::model::{Faction, GameState, Tech};
use crate::text::{owned, push_text};
use vstd::prelude::*;

verus! {

/// `b` is faction `a` starting on `tech` with no research points carried over.
pub open spec fn research_begun(a: Faction, b: Faction, tech: Tech) -> bool {
    b == (Faction { current_research: tech, research: 0, ..a })
}

/// Choosing an available tech sets the faction researching it from no points, and
/// leaves every other faction as it was.
pub proof fn law_chosen_research_reads_back(old: GameState, new: GameState, owner: usize, tech: Tech, other: int)
    requires
        GameState::research_chosen(old, new, owner, tech),
        old.research_available_spec(owner, tech),
        0 <= other < old.factions@.len(),
        other != owner,
    ensures
        new.factions@.len() == old.factions@.len(),
        new.factions@[owner as int].current_research == tech,
        new.factions@[owner as int].research == 0,
        new.factions@[other] == old.factions@[other],
{
    let mid = choose|mid: GameState|
        {
            &&& mid == (GameState { factions: mid.factions, ..old })
            &&& mid.factions@.len() == old.factions@.len()
            &&& mid.factions@ == old.factions@.update(owner as int, mid.factions@[owner as int])
            &&& research_begun(old.factions@[owner as int], mid.factions@[owner as int], tech)
            &&& only_logged(
                mid,
                new,
                old.factions@[owner as int].name@ + " began research: "@ + tech_name_text(tech) + "."@,
            )
        };
    assert(new.factions == mid.factions);
    assert(mid.factions@[other] == old.factions@[other]);
}

/// Matches the techs faction `owner` of `state` knows.
pub open spec fn known_tech(state: GameState, owner: usize) -> spec_fn(Tech) -> bool {
    |t: Tech| knows(state.factions@, owner, t)
}

/// Matches the techs faction `owner` of `state` does not know but can begin.
pub open spec fn open_tech(state: GameState, owner: usize) -> spec_fn(Tech) -> bool {
    |t: Tech| !knows(state.factions@, owner, t) && state.research_available_spec(owner, t)
}

/// Matches the techs faction `owner` of `state` neither knows nor can begin.
pub open spec fn blocked_tech(state: GameState, owner: usize) -> spec_fn(Tech) -> bool {
    |t: Tech| !knows(state.factions@, owner, t) && !state.research_available_spec(owner, t)
}

/// Matches the techs that faction `owner` of `state` exists and does not know.
pub open spec fn unknown_to(state: GameState, owner: usize) -> spec_fn(Tech) -> bool {
    |t: Tech| owner < state.factions@.len() && !state.factions@[owner as int].known_techs@.contains(t)
}

/// The prerequisites of `tech` that faction `owner` of `state` still lacks.
pub open spec fn missing_prerequisites_spec(state: GameState, owner: usize, tech: Tech) -> Seq<Tech> {
    tech_prerequisites_of(tech).filter(unknown_to(state, owner))
}

/// A blocked tech as the contracts see it.
pub open spec fn blocked_views(v: Seq<(Tech, Vec<Tech>)>) -> Seq<(Tech, Seq<Tech>)> {
    v.map_values(|e: (Tech, Vec<Tech>)| (e.0, e.1@))
}

/// The research tree as faction `owner` of `state` sees it, in tree order: the techs it
/// knows, those it can begin, and the others, each with the prerequisites it lacks.
pub open spec fn research_buckets_spec(state: GameState, owner: usize) -> (Seq<Tech>, Seq<Tech>, Seq<(Tech, Seq<Tech>)>) {
    let all = Tech::all_seq();
    (
        all.filter(known_tech(state, owner)),
        all.filter(open_tech(state, owner)),
        all.filter(blocked_tech(state, owner)).map_values(|t: Tech| (t, missing_prerequisites_spec(state, owner, t))),
    )
}

/// A faction can begin researching a tech exactly when it exists, does not know the tech
/// yet, and knows every one of its prerequisites.
pub proof fn law_research_opens_with_all_prerequisites(state: GameState, owner: usize, tech: Tech)
    ensures
        state.research_available_spec(owner, tech) <==> owner < state.factions@.len()
            && !state.factions@[owner as int].known_techs@.contains(tech) && forall|i: int|
            0 <= i < tech_prerequisites_of(tech).len() ==> state.factions@[owner as int].known_techs@.contains(
                #[trigger] tech_prerequisites_of(tech)[i],
            ),
{
}

/// The research tree splits into known, open and blocked techs: each tech of the tree is
/// in the bucket its state says, and a blocked tech lists exactly the prerequisites the
/// faction lacks.
pub proof fn law_research_buckets_sort_every_tech(state: GameState, owner: usize, tech: Tech)
    requires
        owner < state.factions@.len(),
        Tech::all_seq().contains(tech),
    ensures
        ({
            let (known, open, blocked) = research_buckets_spec(state, owner);
            let k = state.factions@[owner as int].known_techs@;
            &&& k.contains(tech) ==> known.contains(tech) && !open.contains(tech)
            &&& !k.contains(tech) && state.research_available_spec(owner, tech) ==> open.contains(tech) && !known.contains(tech)
            &&& !k.contains(tech) && !state.research_available_spec(owner, tech) ==> blocked.contains(
                (tech, tech_prerequisites_of(tech).filter(|p: Tech| !k.contains(p))),
            )
        }),
{
    let all = Tech::all_seq();
    let k = state.factions@[owner as int].known_techs@;
    let i = choose|i: int| 0 <= i < all.len() && all[i] == tech;
    all.filter_lemma(known_tech(state, owner));
    all.filter_lemma(open_tech(state, owner));
    all.filter_lemma(blocked_tech(state, owner));
    let (known, open, blocked) = research_buckets_spec(state, owner);
    if k.contains(tech) {
        assert(known_tech(state, owner)(all[i]));
        if open.contains(tech) {
            let j = choose|j: int| 0 <= j < open.len() && open[j] == tech;
            assert(open_tech(state, owner)(all.filter(open_tech(state, owner))[j]));
        }
    } else if state.research_available_spec(owner, tech) {
        assert(open_tech(state, owner)(all[i]));
        if known.contains(tech) {
            let j = choose|j: int| 0 <= j < known.len() && known[j] == tech;
            assert(known_tech(state, owner)(all.filter(known_tech(state, owner))[j]));
        }
    } else {
        assert(blocked_tech(state, owner)(all[i]));
        let bl = all.filter(blocked_tech(state, owner));
        assert(bl.contains(tech));
        let j = choose|j: int| 0 <= j < bl.len() && bl[j] == tech;
        assert(unknown_to(state, owner) =~= (|p: Tech| !k.contains(p)));
        assert(missing_prerequisites_spec(state, owner, tech) == tech_prerequisites_of(tech).filter(|p: Tech| !k.contains(p)));
        assert(blocked[j] == (tech, missing_prerequisites_spec(state, owner, tech)));
    }
}

impl GameState {
    /// Whether faction `owner` exists and can begin researching `tech`.
    pub open spec fn research_available_spec(self, owner: usize, tech: Tech) -> bool {
        owner < self.factions@.len() && tech_available(self.factions@[owner as int].known_techs@, tech)
    }

    /// Whether faction `owner` exists and can begin researching `tech`: it does not know
    /// it yet and knows all its prerequisites.
    pub fn is_research_available(&self, owner: usize, tech: Tech) -> (r: bool)
        ensures
            r == self.research_available_spec(owner, tech),
    {
        match self.faction(owner) {
            Some(f) => tech_is_available(&f.known_techs, tech),
            None => false,
        }
    }

    /// The prerequisites of `tech` that faction `owner` still lacks, none without the faction.
    fn missing_prerequisites(&self, owner: usize, tech: Tech) -> (r: Vec<Tech>)
        ensures
            r@ == missing_prerequisites_spec(*self, owner, tech),
    {
        let prerequisites = tech_prerequisites(tech);
        let mut out: Vec<Tech> = Vec::new();
        let mut i: usize = 0;
        while i < prerequisites.len()
            invariant
                i <= prerequisites@.len(),
                prerequisites@ == tech_prerequisites_of(tech),
                out@ == prerequisites@.take(i as int).filter(unknown_to(*self, owner)),
            decreases prerequisites@.len() - i,
        {
            let p = prerequisites[i];
            proof {
                assert(prerequisites@.take(i + 1) =~= prerequisites@.take(i as int).push(p));
                prerequisites@.take(i as int).lemma_filter_push(p, unknown_to(*self, owner));
            }
            if owner < self.factions.len() && !techs_contain(&self.factions[owner].known_techs, p) {
                out.push(p);
            }
            i += 1;
        }
        assert(prerequisites@.take(prerequisites@.len() as int) =~= prerequisites@);
        out
    }

    /// The techs faction `owner` knows, those it can begin, and the others with the
    /// prerequisites it lacks, each in tree order.
    pub fn research_buckets(&self, owner: usize) -> (r: (Vec<Tech>, Vec<Tech>, Vec<(Tech, Vec<Tech>)>))
        ensures
            (r.0@, r.1@, blocked_views(r.2@)) == research_buckets_spec(*self, owner),
    {
        let all = Tech::all();
        let ghost seq = Tech::all_seq();
        let mut known: Vec<Tech> = Vec::new();
        let mut open: Vec<Tech> = Vec::new();
        let mut blocked: Vec<(Tech, Vec<Tech>)> = Vec::new();
        let mut i: usize = 0;
        while i < 15
            invariant
                i <= 15,
                all@ == seq,
                seq == Tech::all_seq(),
                known@ == seq.take(i as int).filter(known_tech(*self, owner)),
                open@ == seq.take(i as int).filter(open_tech(*self, owner)),
                blocked_views(blocked@) == seq.take(i as int).filter(blocked_tech(*self, owner)).map_values(
                    |t: Tech| (t, missing_prerequisites_spec(*self, owner, t)),
                ),
            decreases 15 - i,
        {
            let tech = all[i];
            proof {
                assert(seq.take(i + 1) =~= seq.take(i as int).push(tech));
                seq.take(i as int).lemma_filter_push(tech, known_tech(*self, owner));
                seq.take(i as int).lemma_filter_push(tech, open_tech(*self, owner));
                seq.take(i as int).lemma_filter_push(tech, blocked_tech(*self, owner));
            }
            let is_known = owner < self.factions.len() && techs_contain(&self.factions[owner].known_techs, tech);
            if is_known {
                known.push(tech);
            } else if self.is_research_available(owner, tech) {
                open.push(tech);
            } else {
                let missing = self.missing_prerequisites(owner, tech);
                let ghost before = blocked@;
                blocked.push((tech, missing));
                assert(blocked_views(blocked@) =~= blocked_views(before).push((tech, missing_prerequisites_spec(*self, owner, tech))));
            }
            i += 1;
        }
        assert(seq.take(15) =~= seq);
        (known, open, blocked)
    }

    /// What choosing `tech` for faction `owner` does: nothing without the faction; a
    /// known or unavailable tech is only reported in the log; otherwise the faction's
    /// research turns to `tech`, starting from no points, and the choice is logged.
    pub open spec fn research_chosen(old: GameState, new: GameState, owner: usize, tech: Tech) -> bool {
        if owner >= old.factions@.len() {
            new == old
        } else {
            let f = old.factions@[owner as int];
            if f.known_techs@.contains(tech) {
                only_logged(old, new, tech_name_text(tech) + " is already known."@)
            } else if !tech_available(f.known_techs@, tech) {
                only_logged(old, new, f.name@ + " cannot begin "@ + tech_name_text(tech) + " yet."@)
            } else {
                exists|mid: GameState|
                    #![trigger mid.factions]
                    {
                        &&& mid == (GameState { factions: mid.factions, ..old })
                        &&& mid.factions@.len() == old.factions@.len()
                        &&& mid.factions@ == old.factions@.update(owner as int, mid.factions@[owner as int])
                        &&& research_begun(f, mid.factions@[owner as int], tech)
                        &&& only_logged(mid, new, f.name@ + " began research: "@ + tech_name_text(tech) + "."@)
                    }
            }
        }
    }

    /// Sets faction `owner` researching `tech` when it can begin it, logging the choice
    /// or why it cannot.
    pub fn choose_research(&mut self, owner: usize, tech: Tech)
        ensures
            GameState::research_chosen(*old(self), *final(self), owner, tech),
    {
        if owner >= self.factions.len() {
            return;
        }
        if techs_contain(&self.factions[owner].known_techs, tech) {
            let mut message = owned(tech_name(tech));
            push_text(&mut message, " is already known.");
            log_general(self, message);
            return;
        }
        if !self.is_research_available(owner, tech) {
            let mut message = owned(self.faction_name(owner));
            push_text(&mut message, " cannot begin ");
            push_text(&mut message, tech_name(tech));
            push_text(&mut message, " yet.");
            log_general(self, message);
            return;
        }
        let ghost before = *self;
        self.factions[owner].current_research = tech;
        self.factions[owner].research = 0;
        let ghost mid = *self;
        assert(research_begun(before.factions@[owner as int], mid.factions@[owner as int], tech));
        let mut message = owned(self.faction_name(owner));
        push_text(&mut message, " began research: ");
        push_text(&mut message, tech_name(tech));
        push_text(&mut message, ".");
        log_general(self, message);
        assert(only_logged(mid, *self, before.factions@[owner as int].name@ + " began research: "@ + tech_name_text(tech) + "."@));
        assert(mid == (GameState { factions: mid.factions, ..before }));
        assert(mid.factions@ =~= before.factions@.update(owner as int, mid.factions@[owner as int]));
        assert(GameState::research_chosen(before, *self, owner, tech));
    }
}

} // verus!
