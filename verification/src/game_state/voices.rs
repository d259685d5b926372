//! Planet's voice: the narrative messages a faction's progress releases, each once.
use crate::game_state::access::{log_lines, log_tracked, push_lines};
use crate::model::{EventCategory, GameState};
use crate::narrative::{
    get_voice_of_planet_triggers, voice_condition, voice_message_text, voice_trigger_count,
    NarrativeCondition,
};
use crate::text::{owned, push_text, text_eq};
use vstd::prelude::*;

verus! {

/// Whether `heard` already holds `message`.
pub open spec fn already_heard(heard: Seq<String>, message: Seq<char>) -> bool {
    exists|j: int| 0 <= j < heard.len() && (#[trigger] heard[j])@ == message
}

impl GameState {
    /// Whether trigger `i` speaks for faction `owner` now: its message is new and its
    /// condition holds.
    pub open spec fn voice_fires(self, owner: usize, i: int) -> bool {
        let f = self.factions@[owner as int];
        &&& !already_heard(self.triggered_narratives@, voice_message_text(i))
        &&& match voice_condition(i) {
            NarrativeCondition::Toxicity(threshold) => f.planet_toxicity >= threshold,
            NarrativeCondition::Technology(tech) => f.known_techs@.contains(tech),
            NarrativeCondition::Turn(turn) => self.turn >= turn,
        }
    }

    /// The messages the first `n` triggers release for faction `owner`, in order.
    pub open spec fn voices_released(self, owner: usize, n: int) -> Seq<Seq<char>>
        decreases n,
    {
        if n <= 0 {
            Seq::empty()
        } else {
            let earlier = self.voices_released(owner, n - 1);
            if self.voice_fires(owner, n - 1) {
                earlier.push(voice_message_text(n - 1))
            } else {
                earlier
            }
        }
    }

    /// Whether any of `heard` reads `message`.
    fn heard(&self, message: &str) -> (r: bool)
        ensures
            r == already_heard(self.triggered_narratives@, message@),
    {
        let mut j: usize = 0;
        while j < self.triggered_narratives.len()
            invariant
                j <= self.triggered_narratives@.len(),
                forall|k: int| 0 <= k < j ==> (#[trigger] self.triggered_narratives@[k])@ != message@,
            decreases self.triggered_narratives@.len() - j,
        {
            if text_eq(self.triggered_narratives[j].as_str(), message) {
                return true;
            }
            j += 1;
        }
        false
    }

    /// Lets Planet speak each message whose condition faction `owner` now meets and that
    /// it has not spoken before; each is remembered and logged as a narrative event.
    pub fn check_narrative_triggers(&mut self, owner: usize)
        ensures
            owner >= old(self).factions@.len() ==> *final(self) == *old(self),
            owner < old(self).factions@.len() ==> {
                let released = old(self).voices_released(owner, voice_trigger_count());
                &&& final(self).triggered_narratives@.map_values(|m: String| m@)
                    == old(self).triggered_narratives@.map_values(|m: String| m@) + released
                &&& log_lines(final(self).log@) == push_lines(
                    log_lines(old(self).log@),
                    released.map_values(|m: Seq<char>| (EventCategory::Narrative, "VOICE OF PLANET: "@ + m, old(self).turn)),
                )
                &&& *final(self) == (GameState {
                    triggered_narratives: final(self).triggered_narratives,
                    log: final(self).log,
                    ..*old(self)
                })
            },
    {
        if owner >= self.factions.len() {
            return ;
        }
        let triggers = get_voice_of_planet_triggers();
        let mut to_trigger: Vec<&'static str> = Vec::new();
        let mut i: usize = 0;
        while i < triggers.len()
            invariant
                i <= triggers@.len(),
                owner < self.factions@.len(),
                *self == *old(self),
                triggers@.len() == voice_trigger_count(),
                forall|k: int|
                    0 <= k < voice_trigger_count() ==> (#[trigger] triggers@[k]).message@ == voice_message_text(k)
                        && triggers@[k].condition == voice_condition(k),
                to_trigger@.map_values(|m: &'static str| m@) == self.voices_released(owner, i as int),
            decreases triggers@.len() - i,
        {
            let message = triggers[i].message;
            let fires = if self.heard(message) {
                false
            } else {
                match triggers[i].condition {
                    NarrativeCondition::Toxicity(threshold) => self.factions[owner].planet_toxicity >= threshold,
                    NarrativeCondition::Technology(tech) => {
                        let techs = &self.factions[owner].known_techs;
                        let mut found = false;
                        let mut t: usize = 0;
                        while t < techs.len()
                            invariant
                                t <= techs@.len(),
                                found == exists|m: int| 0 <= m < t && techs@[m] == tech,
                            decreases techs@.len() - t,
                        {
                            if techs[t] == tech {
                                found = true;
                            }
                            t += 1;
                        }
                        found
                    },
                    NarrativeCondition::Turn(turn) => self.turn >= turn,
                }
            };
            assert(fires == self.voice_fires(owner, i as int));
            let ghost before = to_trigger@;
            if fires {
                to_trigger.push(message);
                assert(to_trigger@.map_values(|m: &'static str| m@) =~= before.map_values(|m: &'static str| m@).push(message@));
            }
            i += 1;
        }
        let ghost released = self.voices_released(owner, voice_trigger_count());
        let ghost start = log_lines(self.log@);
        let ghost heard0 = self.triggered_narratives@.map_values(|m: String| m@);
        let ghost turn = self.turn;
        let ghost mut lines: Seq<(EventCategory, Seq<char>, i32)> = Seq::empty();
        assert(push_lines(start, lines) =~= start);
        let mut k: usize = 0;
        while k < to_trigger.len()
            invariant
                k <= to_trigger@.len(),
                to_trigger@.map_values(|m: &'static str| m@) == released,
                turn == self.turn,
                log_lines(self.log@) == push_lines(start, lines),
                lines == released.take(k as int).map_values(
                    |m: Seq<char>| (EventCategory::Narrative, "VOICE OF PLANET: "@ + m, turn),
                ),
                self.triggered_narratives@.map_values(|m: String| m@) == heard0 + released.take(k as int),
                *self == (GameState {
                    triggered_narratives: self.triggered_narratives,
                    log: self.log,
                    ..*old(self)
                }),
            decreases to_trigger@.len() - k,
        {
            let message = to_trigger[k];
            let ghost before_heard = self.triggered_narratives@;
            assert(to_trigger@.map_values(|m: &'static str| m@)[k as int] == message@);
            assert(released[k as int] == message@);
            assert(released.take(k + 1) =~= released.take(k as int).push(message@));
            let spoken = owned(message);
            assert(spoken@ == message@);
            self.triggered_narratives.push(spoken);
            assert(self.triggered_narratives@.map_values(|m: String| m@) =~= before_heard.map_values(|m: String| m@).push(message@));
            assert(self.triggered_narratives@.map_values(|m: String| m@) =~= heard0 + released.take(k + 1));
            let mut line = owned("VOICE OF PLANET: ");
            push_text(&mut line, message);
            let Ghost(l) = log_tracked(self, EventCategory::Narrative, line, Ghost(start), Ghost(lines));
            proof {
                lines = l;
                assert(lines =~= released.take(k + 1).map_values(
                    |m: Seq<char>| (EventCategory::Narrative, "VOICE OF PLANET: "@ + m, turn),
                ));
            }
            k += 1;
        }
        assert(released.take(released.len() as int) =~= released);
    }
}

} // verus!
