//! Planet-wide consequences: borehole pollution and the crises it sets off.
use crate::game_state::access::{
    lemma_logged_line, lemma_push_lines_snoc, log_event, log_lines, noise_of, push_lines,
};
use crate::model::{EventCategory, Faction, GameState, Improvement, Tile};
use vstd::prelude::*;

verus! {

/// Matches the tiles that hold a thermal borehole.
pub open spec fn has_borehole() -> spec_fn(Tile) -> bool {
    |t: Tile| t.improvement == Some(Improvement::ThermalBorehole)
}

/// The toxicity sum of `factions` once each gains `count`.
pub open spec fn raised_toxicity_sum(factions: Seq<Faction>, count: int) -> int
    decreases factions.len(),
{
    if factions.len() == 0 {
        0
    } else {
        raised_toxicity_sum(factions.drop_last(), count) + factions.last().planet_toxicity + count
    }
}

/// Whether a faction whose toxicity rose to `tox` by `count` crosses into planetary stress.
pub open spec fn stressed(tox: int, count: int) -> bool {
    tox > 500 && tox % 100 < count
}

/// The stress warnings for `factions` once each gains `count` toxicity, in faction order.
pub open spec fn stress_messages(factions: Seq<Faction>, count: int) -> Seq<Seq<char>>
    decreases factions.len(),
{
    if factions.len() == 0 {
        Seq::empty()
    } else {
        let f = factions.last();
        let earlier = stress_messages(factions.drop_last(), count);
        if stressed(f.planet_toxicity + count, count) {
            earlier.push(
                "PLANETARY STRESS: High borehole activity is poisoning the biosphere for "@ + f.name@ + "!"@,
            )
        } else {
            earlier
        }
    }
}

/// Each message as a crisis line of turn `turn`.
pub open spec fn crisis_lines(messages: Seq<Seq<char>>, turn: i32) -> Seq<(EventCategory, Seq<char>, i32)> {
    messages.map_values(|m: Seq<char>| (EventCategory::Crisis, m, turn))
}

impl GameState {
    /// How many tiles hold a thermal borehole.
    pub open spec fn borehole_count(self) -> int {
        self.tiles@.filter(has_borehole()).len() as int
    }

    /// The global crisis roll of a turn on which the factions' toxicity sums to `total`.
    pub open spec fn impact_roll(self, total: int) -> u32 {
        noise_of(self.seed, self.turn, total as i32, 999) % 1000
    }

    /// The global crisis that pollution sets off this turn, if any: `Some(true)` for dust
    /// fall, `Some(false)` for tidal chaos.
    pub open spec fn global_crisis(self) -> Option<bool> {
        let count = self.borehole_count();
        let total = raised_toxicity_sum(self.factions@, count);
        let roll = self.impact_roll(total);
        if count > 0 && total > 2000 && roll < count && self.dust_fall_turns_left == 0
            && self.tidal_chaos_turns_left == 0 {
            Some(roll % 2 == 0)
        } else {
            None
        }
    }

    /// Every faction's toxicity and its running sum stay within `i32` as pollution adds up.
    pub open spec fn impact_fits(self) -> bool {
        let count = self.borehole_count();
        &&& count <= i32::MAX
        &&& forall|j: int|
            0 <= j < self.factions@.len() ==> i32::MIN <= #[trigger] self.factions@[j].planet_toxicity
                + count <= i32::MAX
        &&& forall|k: int|
            0 <= k <= self.factions@.len() ==> i32::MIN <= #[trigger] raised_toxicity_sum(
                self.factions@.take(k),
                count,
            ) <= i32::MAX
    }

    /// Borehole pollution: each borehole on the map adds one toxicity to every faction;
    /// factions crossing a hundred-mark above 500 are warned, and heavy global pollution
    /// may set off ten turns of dust fall or tidal chaos. Nothing happens without boreholes.
    pub fn process_planetary_impact(&mut self)
        requires
            old(self).impact_fits(),
        ensures
            old(self).borehole_count() == 0 ==> *final(self) == *old(self),
            old(self).borehole_count() > 0 ==> {
                let count = old(self).borehole_count();
                let crisis = old(self).global_crisis();
                let global: Seq<Seq<char>> = match crisis {
                    Some(true) => seq!["GLOBAL CRISIS: Severe tectonic strain has triggered Atmospheric Dust Fall!"@],
                    Some(false) => seq!["GLOBAL CRISIS: Subterranean pressure has triggered Tidal Chaos!"@],
                    None => Seq::empty(),
                };
                &&& final(self).factions@.len() == old(self).factions@.len()
                &&& forall|j: int|
                    0 <= j < old(self).factions@.len() ==> #[trigger] final(self).factions@[j] == (Faction {
                        planet_toxicity: (old(self).factions@[j].planet_toxicity + count) as i32,
                        ..old(self).factions@[j]
                    })
                &&& final(self).dust_fall_turns_left == (if crisis == Some(true) {
                    10
                } else {
                    old(self).dust_fall_turns_left
                })
                &&& final(self).tidal_chaos_turns_left == (if crisis == Some(false) {
                    10
                } else {
                    old(self).tidal_chaos_turns_left
                })
                &&& log_lines(final(self).log@) == push_lines(
                    log_lines(old(self).log@),
                    crisis_lines(stress_messages(old(self).factions@, count) + global, old(self).turn),
                )
                &&& *final(self) == (GameState {
                    factions: final(self).factions,
                    dust_fall_turns_left: final(self).dust_fall_turns_left,
                    tidal_chaos_turns_left: final(self).tidal_chaos_turns_left,
                    log: final(self).log,
                    ..*old(self)
                })
            },
    {
        let ghost old_factions = self.factions@;
        let mut borehole_count: i32 = 0;
        let mut k: usize = 0;
        while k < self.tiles.len()
            invariant
                k <= self.tiles@.len(),
                self.impact_fits(),
                borehole_count == self.tiles@.take(k as int).filter(has_borehole()).len(),
            decreases self.tiles@.len() - k,
        {
            proof {
                assert(self.tiles@.take(k + 1) =~= self.tiles@.take(k as int).push(self.tiles@[k as int]));
                self.tiles@.take(k as int).lemma_filter_push(self.tiles@[k as int], has_borehole());
                lemma_filter_prefix_len(self.tiles@, has_borehole(), k + 1);
            }
            if self.tiles[k].improvement == Some(Improvement::ThermalBorehole) {
                borehole_count = borehole_count + 1;
            }
            k += 1;
        }
        assert(self.tiles@.take(self.tiles@.len() as int) =~= self.tiles@);
        if borehole_count == 0 {
            return ;
        }
        let ghost count = borehole_count as int;
        let mut messages: Vec<String> = Vec::new();
        let mut total_toxicity: i32 = 0;
        let mut j: usize = 0;
        while j < self.factions.len()
            invariant
                j <= self.factions@.len(),
                self.factions@.len() == old_factions.len(),
                count == borehole_count,
                count == old(self).borehole_count(),
                old(self).impact_fits(),
                old_factions == old(self).factions@,
                forall|i: int| 0 <= i < j ==> #[trigger] self.factions@[i] == (Faction {
                    planet_toxicity: (old_factions[i].planet_toxicity + count) as i32,
                    ..old_factions[i]
                }),
                forall|i: int| j <= i < self.factions@.len() ==> #[trigger] self.factions@[i] == old_factions[i],
                total_toxicity == raised_toxicity_sum(old_factions.take(j as int), count),
                messages@.map_values(|m: String| m@) == stress_messages(old_factions.take(j as int), count),
                *self == (GameState { factions: self.factions, ..*old(self) }),
            decreases self.factions@.len() - j,
        {
            proof {
                assert(old_factions.take(j + 1).drop_last() =~= old_factions.take(j as int));
                assert(old_factions.take(j + 1).last() == old_factions[j as int]);
                assert(i32::MIN <= old_factions[j as int].planet_toxicity + count <= i32::MAX);
                assert(i32::MIN <= raised_toxicity_sum(old_factions.take(j + 1), count) <= i32::MAX);
            }
            let tox = self.factions[j].planet_toxicity + borehole_count;
            self.factions[j].planet_toxicity = tox;
            total_toxicity = total_toxicity + tox;
            if tox > 500 && tox % 100 < borehole_count {
                let mut m = crate::text::owned(
                    "PLANETARY STRESS: High borehole activity is poisoning the biosphere for ",
                );
                crate::text::push_text(&mut m, self.factions[j].name.as_str());
                crate::text::push_text(&mut m, "!");
                let ghost before = messages@;
                messages.push(m);
                assert(messages@.map_values(|m: String| m@) =~= before.map_values(|m: String| m@).push(
                    m@,
                ));
            }
            j += 1;
        }
        assert(old_factions.take(old_factions.len() as int) =~= old_factions);
        assert(total_toxicity == raised_toxicity_sum(old(self).factions@, count));
        let roll = self.sample_noise(self.turn, total_toxicity, 999) % 1000;
        assert(roll == old(self).impact_roll(raised_toxicity_sum(old(self).factions@, count)));
        let crisis: Option<bool> = if total_toxicity > 2000 && roll < borehole_count as u32
            && self.dust_fall_turns_left == 0 && self.tidal_chaos_turns_left == 0 {
            Some(roll % 2 == 0)
        } else {
            None
        };
        assert(crisis == old(self).global_crisis());
        let ghost stress = messages@.map_values(|m: String| m@);
        match crisis {
            Some(true) => {
                self.dust_fall_turns_left = 10;
                messages.push(
                    crate::text::owned(
                        "GLOBAL CRISIS: Severe tectonic strain has triggered Atmospheric Dust Fall!",
                    ),
                );
            },
            Some(false) => {
                self.tidal_chaos_turns_left = 10;
                messages.push(
                    crate::text::owned("GLOBAL CRISIS: Subterranean pressure has triggered Tidal Chaos!"),
                );
            },
            None => {},
        }
        assert(messages@.map_values(|m: String| m@) =~= stress + match crisis {
            Some(true) => seq!["GLOBAL CRISIS: Severe tectonic strain has triggered Atmospheric Dust Fall!"@],
            Some(false) => seq!["GLOBAL CRISIS: Subterranean pressure has triggered Tidal Chaos!"@],
            None => Seq::<Seq<char>>::empty(),
        });
        let ghost all = messages@.map_values(|m: String| m@);
        let ghost turn = self.turn;
        let ghost start_lines = log_lines(self.log@);
        let ghost mid = *self;
        let mut i: usize = 0;
        while i < messages.len()
            invariant
                i <= messages@.len(),
                all == messages@.map_values(|m: String| m@),
                turn == self.turn,
                log_lines(self.log@) == push_lines(start_lines, crisis_lines(all.take(i as int), turn)),
                *self == (GameState { log: self.log, ..mid }),
            decreases messages@.len() - i,
        {
            let ghost before = self.log@;
            let m = messages[i].clone();
            log_event(self, EventCategory::Crisis, m);
            proof {
                lemma_logged_line(before, self.log@, EventCategory::Crisis, all[i as int], turn);
                assert(crisis_lines(all.take(i + 1), turn) =~= crisis_lines(all.take(i as int), turn).push(
                    (EventCategory::Crisis, all[i as int], turn),
                ));
                lemma_push_lines_snoc(start_lines, crisis_lines(all.take(i as int), turn), (EventCategory::Crisis, all[i as int], turn));
            }
            i += 1;
        }
        assert(all.take(all.len() as int) =~= all);
    }
}

/// Filtering a prefix keeps no more than filtering the whole.
proof fn lemma_filter_prefix_len<T>(s: Seq<T>, p: spec_fn(T) -> bool, k: int)
    requires
        0 <= k <= s.len(),
    ensures
        s.take(k).filter(p).len() <= s.filter(p).len(),
{
    assert(s =~= s.take(k) + s.skip(k));
    Seq::filter_distributes_over_add(s.take(k), s.skip(k), p);
}

} // verus!
