//! The advice the operations screen gives the player about strained bases, support,
//! trade, convoys, research and units.
use crate::game_state::bases::{facilities_contain, trade_partner_of};
use crate::model::{Base, Facility as F, GameState, ProductionItem as P, Unit, UnitKind};
use crate::presentation::string_views;
use crate::text::{int_text, join, join_strings, nat_text, owned, push_int, push_nat, push_text};
use vstd::prelude::*;

verus! {

/// How strained one base is, as read from elsewhere in the game: its unrest, its damaged
/// garrison units, the psionic pressure on it, and its food and mineral margins where
/// they are known.
#[derive(Clone, Copy, Debug, PartialEq, Eq, Structural)]
pub struct BaseStrain {
    pub unrest: i32,
    pub damaged_garrisons: usize,
    pub psi_pressure: i32,
    pub food_margin: Option<i32>,
    pub mineral_margin: Option<i32>,
}

/// What the advice weighs beyond the state itself, each read from elsewhere in the
/// game: the player's faction; the strain of each base, in base order; the unit and
/// total upkeep; how many convoy routes are disrupted and how many intercepted; the
/// bases whose plans the current research would unblock; and each unit's own advice,
/// in unit order.
pub struct OperationsSignals {
    pub owner: usize,
    pub base_strain: Vec<BaseStrain>,
    pub unit_upkeep: i32,
    pub total_upkeep: i32,
    pub disrupted_routes: usize,
    pub intercepted_routes: usize,
    pub research_pressure_base_ids: Vec<usize>,
    pub unit_advice: Vec<Option<String>>,
}

/// Matches the bases of `owner` that have facility `f`.
pub open spec fn base_with_facility_of(owner: usize, f: F) -> spec_fn(Base) -> bool {
    |b: Base| b.owner == owner && b.facilities@.contains(f)
}

/// Matches the live escort speeders of `owner`.
pub open spec fn escort_speeder_of(owner: usize) -> spec_fn(Unit) -> bool {
    |u: Unit| u.alive && u.owner == owner && u.kind is EscortSpeeder
}

/// One line when `cond` holds, none otherwise.
pub open spec fn line_if(cond: bool, line: Seq<char>) -> Seq<Seq<char>> {
    if cond {
        seq![line]
    } else {
        Seq::empty()
    }
}

/// Appends `line` when `cond` holds.
fn push_line_if(advice: &mut Vec<String>, cond: bool, line: String)
    ensures
        string_views(final(advice)@) == string_views(old(advice)@) + line_if(cond, line@),
{
    let ghost prior = advice@;
    if cond {
        advice.push(line);
        assert(string_views(advice@) =~= string_views(prior) + line_if(cond, line@));
    } else {
        assert(string_views(advice@) =~= string_views(prior) + line_if(cond, line@));
    }
}

/// The names of the bases with the ids listed, skipping ids with no base.
pub open spec fn base_names(bases: Seq<Base>, s: GameState, ids: Seq<usize>) -> Seq<Seq<char>>
    decreases ids.len(),
{
    if ids.len() == 0 {
        Seq::empty()
    } else {
        base_names(bases, s, ids.drop_last()) + match s.base_spec(ids.last()) {
            Some(b) => seq![b.name@],
            None => Seq::empty(),
        }
    }
}

impl GameState {
    /// The advice lines about base `b` under strain `st` for the player `owner`.
    pub open spec fn base_advice(self, owner: usize, b: Base, st: BaseStrain, pre: Seq<Seq<char>>) -> Seq<Seq<char>> {
        let morale = if b.facilities@.contains(F::RecreationCommons) && self.production_available_spec(
            owner,
            P::HologramTheatre,
        ) {
            " or Hologram Theatre"@
        } else {
            ""@
        };
        let recovery = if b.facilities@.contains(F::FieldHospital) && self.production_available_spec(
            owner,
            P::ResearchHospital,
        ) {
            " or Research Hospital coverage"@
        } else {
            ""@
        };
        let psi = if (b.facilities@.contains(F::PsiBeacon) || b.facilities@.contains(F::FieldHospital))
            && self.production_available_spec(owner, P::BioenhancementCenter) {
            " and Bioenhancement Center support"@
        } else {
            ""@
        };
        pre + line_if(
            st.unrest > 0,
            b.name@ + " has unrest "@ + int_text(st.unrest as int) + " reducing output. Consider Recreation Commons"@
                + morale + " or a lower support burden."@,
        ) + line_if(
            st.damaged_garrisons > 0,
            b.name@ + " is hosting "@ + nat_text(st.damaged_garrisons as nat)
                + " damaged garrison(s). Consider Field Hospital coverage"@ + recovery + " or a recovery rotation."@,
        ) + line_if(
            st.psi_pressure >= 2,
            b.name@ + " is under psi pressure "@ + int_text(st.psi_pressure as int) + ". Consider Psi Sentinel coverage"@
                + psi + " and tighter recovery planning."@,
        ) + line_if(
            st.food_margin matches Some(m) && m <= 0,
            b.name@ + " is food-strained (margin "@ + int_text(st.food_margin->0 as int)
                + "). Consider Greenhouse coverage or better farm tiles."@,
        ) + line_if(
            st.mineral_margin matches Some(m) && m <= 0,
            b.name@ + " is mineral-strained (margin "@ + int_text(st.mineral_margin->0 as int)
                + "). Consider Mineral Refinery coverage or stronger mine tiles."@,
        )
    }

    /// The advice lines about the first `n` bases, for those the player owns.
    pub open spec fn bases_advice(self, owner: usize, strain: Seq<BaseStrain>, n: int) -> Seq<Seq<char>>
        decreases n,
    {
        if n <= 0 {
            Seq::empty()
        } else {
            let b = self.bases@[n - 1];
            if b.owner == owner {
                self.base_advice(owner, b, strain[n - 1], self.bases_advice(owner, strain, n - 1))
            } else {
                self.bases_advice(owner, strain, n - 1)
            }
        }
    }

    /// The advice lines about the first `n` units, for the live ones the player owns.
    pub open spec fn units_advice(self, owner: usize, lines: Seq<Option<String>>, n: int, pre: Seq<Seq<char>>) -> Seq<Seq<char>>
        decreases n,
    {
        if n <= 0 {
            pre
        } else {
            let u = self.units@[n - 1];
            self.units_advice(owner, lines, n - 1, pre) + if u.alive && u.owner == owner && lines[n - 1] is Some {
                seq![lines[n - 1]->0@]
            } else {
                Seq::empty()
            }
        }
    }

    /// The advice lines about the empire as a whole: support, trade, freight and convoys.
    pub open spec fn empire_advice(self, sig: OperationsSignals, pre: Seq<Seq<char>>) -> Seq<Seq<char>> {
        let owner = sig.owner;
        let trade_ready = self.bases@.filter(self.trade_ready_base_of(owner)).len();
        let exchanges = self.bases@.filter(base_with_facility_of(owner, F::TradeExchange)).len();
        let depots = self.bases@.filter(base_with_facility_of(owner, F::FreightDepot)).len();
        let escorts = self.units@.filter(escort_speeder_of(owner)).len();
        pre + line_if(
            sig.unit_upkeep > 0,
            "Support costs are "@ + int_text(sig.unit_upkeep as int) + " energy this turn ("@ + int_text(
                sig.total_upkeep as int,
            ) + " total upkeep). Consider Command Centers or fewer idle units."@,
        ) + line_if(
            trade_ready >= 2 && exchanges == 0,
            "Your empire has bases in trading range but no Trade Exchange coverage. A commerce build would improve energy flow."@,
        ) + line_if(
            trade_ready >= 2 && depots == 0,
            "Your empire has tradeable freight corridors but no Freight Depot coverage. A logistics build would improve mineral flow."@,
        ) + line_if(
            sig.disrupted_routes > 0,
            nat_text(sig.disrupted_routes as nat)
                + " convoy route(s) are disrupted by frontier pressure. Safer routes or stronger defenses would restore logistics."@,
        ) + line_if(
            sig.intercepted_routes > 0,
            nat_text(sig.intercepted_routes as nat)
                + " convoy route(s) are being intercepted. Escort Speeders or Patrol Grids would cut losses."@,
        ) + line_if(
            sig.disrupted_routes + sig.intercepted_routes > 0 && escorts == 0,
            "Your logistics network is under pressure with no Escort Speeders on station. A mobile escort wing would improve convoy survival."@,
        )
    }

    /// Matches the bases of `owner` with a trade partner in range.
    pub open spec fn trade_ready_base_of(self, owner: usize) -> spec_fn(Base) -> bool {
        |b: Base| b.owner == owner && self.links_of(b.id) >= 1
    }

    /// How many trade partners base `id` has in range.
    pub open spec fn links_of(self, id: usize) -> int {
        match self.base_spec(id) {
            Some(c) => self.bases@.filter(trade_partner_of(c)).len() as int,
            None => 0,
        }
    }

    /// The advice line about the current research, where it would unblock plans.
    pub open spec fn research_advice(self, sig: OperationsSignals) -> Seq<Seq<char>> {
        let names = base_names(self.bases@, self, sig.research_pressure_base_ids@);
        if sig.owner < self.factions@.len() && names.len() > 0 {
            seq![
                "Current research "@ + crate::content::tech_name_text(self.factions@[sig.owner as int].current_research)
                    + " would unblock governor plans at "@ + nat_text(names.len()) + " base(s): "@ + join(
                    names.take(if names.len() < 2 { names.len() as int } else { 2 }),
                    ", "@,
                ) + "."@,
            ]
        } else {
            Seq::empty()
        }
    }

    /// All advice for the player, in the order the screen lists it, before it is cut to six.
    pub open spec fn operations_advice_all(self, sig: OperationsSignals) -> Seq<Seq<char>> {
        self.units_advice(
            sig.owner,
            sig.unit_advice@,
            self.units@.len() as int,
            self.empire_advice(sig, self.bases_advice(sig.owner, sig.base_strain@, self.bases@.len() as int))
                + self.research_advice(sig),
        )
    }

    /// The advice the operations screen shows: at most six lines.
    pub open spec fn operations_advice_spec(self, sig: OperationsSignals) -> Seq<Seq<char>> {
        let all = self.operations_advice_all(sig);
        if all.len() <= 6 {
            all
        } else {
            all.take(6)
        }
    }
}

/// `text` followed by the decimal text of `n`.
fn text_int(text: &str, n: i64) -> (r: String)
    ensures
        r@ == text@ + int_text(n as int),
{
    let mut s = owned(text);
    push_int(&mut s, n);
    s
}

impl GameState {
    /// Appends the advice lines about base `b`.
    fn push_base_advice(&self, owner: usize, b: &Base, st: BaseStrain, advice: &mut Vec<String>)
        ensures
            string_views(final(advice)@) == self.base_advice(owner, *b, st, string_views(old(advice)@)),
    {
        let morale: &str = if facilities_contain(&b.facilities, F::RecreationCommons) && self.is_production_available(
            owner,
            P::HologramTheatre,
        ) {
            " or Hologram Theatre"
        } else {
            ""
        };
        let recovery: &str = if facilities_contain(&b.facilities, F::FieldHospital) && self.is_production_available(
            owner,
            P::ResearchHospital,
        ) {
            " or Research Hospital coverage"
        } else {
            ""
        };
        let psi: &str = if (facilities_contain(&b.facilities, F::PsiBeacon) || facilities_contain(
            &b.facilities,
            F::FieldHospital,
        )) && self.is_production_available(owner, P::BioenhancementCenter) {
            " and Bioenhancement Center support"
        } else {
            ""
        };
        let mut l1 = owned(b.name.as_str());
        push_text(&mut l1, " has unrest ");
        push_int(&mut l1, st.unrest as i64);
        push_text(&mut l1, " reducing output. Consider Recreation Commons");
        push_text(&mut l1, morale);
        push_text(&mut l1, " or a lower support burden.");
        push_line_if(advice, st.unrest > 0, l1);
        let mut l2 = owned(b.name.as_str());
        push_text(&mut l2, " is hosting ");
        push_nat(&mut l2, st.damaged_garrisons as u64);
        push_text(&mut l2, " damaged garrison(s). Consider Field Hospital coverage");
        push_text(&mut l2, recovery);
        push_text(&mut l2, " or a recovery rotation.");
        push_line_if(advice, st.damaged_garrisons > 0, l2);
        let mut l3 = owned(b.name.as_str());
        push_text(&mut l3, " is under psi pressure ");
        push_int(&mut l3, st.psi_pressure as i64);
        push_text(&mut l3, ". Consider Psi Sentinel coverage");
        push_text(&mut l3, psi);
        push_text(&mut l3, " and tighter recovery planning.");
        push_line_if(advice, st.psi_pressure >= 2, l3);
        let (food_strained, food) = match st.food_margin {
            Some(m) => (m <= 0, m),
            None => (false, 0),
        };
        let mut l4 = owned(b.name.as_str());
        push_text(&mut l4, " is food-strained (margin ");
        push_int(&mut l4, food as i64);
        push_text(&mut l4, "). Consider Greenhouse coverage or better farm tiles.");
        push_line_if(advice, food_strained, l4);
        let (mineral_strained, minerals) = match st.mineral_margin {
            Some(m) => (m <= 0, m),
            None => (false, 0),
        };
        let mut l5 = owned(b.name.as_str());
        push_text(&mut l5, " is mineral-strained (margin ");
        push_int(&mut l5, minerals as i64);
        push_text(&mut l5, "). Consider Mineral Refinery coverage or stronger mine tiles.");
        push_line_if(advice, mineral_strained, l5);
    }

    /// How many bases `p` matches, counted one by one.
    fn count_trade_ready(&self, owner: usize) -> (r: usize)
        ensures
            r == self.bases@.filter(self.trade_ready_base_of(owner)).len(),
    {
        let mut count: usize = 0;
        let mut k: usize = 0;
        while k < self.bases.len()
            invariant
                k <= self.bases@.len(),
                count == self.bases@.take(k as int).filter(self.trade_ready_base_of(owner)).len(),
            decreases self.bases@.len() - k,
        {
            proof {
                assert(self.bases@.take(k + 1) =~= self.bases@.take(k as int).push(self.bases@[k as int]));
                self.bases@.take(k as int).lemma_filter_push(self.bases@[k as int], self.trade_ready_base_of(owner));
                self.bases@.take(k as int).lemma_filter_len(self.trade_ready_base_of(owner));
            }
            if self.bases[k].owner == owner && self.base_potential_trade_links(self.bases[k].id) >= 1 {
                count += 1;
            }
            k += 1;
        }
        assert(self.bases@.take(self.bases@.len() as int) =~= self.bases@);
        count
    }

    /// How many bases of `owner` have facility `f`.
    fn count_with_facility(&self, owner: usize, f: F) -> (r: usize)
        ensures
            r == self.bases@.filter(base_with_facility_of(owner, f)).len(),
    {
        let mut count: usize = 0;
        let mut k: usize = 0;
        while k < self.bases.len()
            invariant
                k <= self.bases@.len(),
                count == self.bases@.take(k as int).filter(base_with_facility_of(owner, f)).len(),
            decreases self.bases@.len() - k,
        {
            proof {
                assert(self.bases@.take(k + 1) =~= self.bases@.take(k as int).push(self.bases@[k as int]));
                self.bases@.take(k as int).lemma_filter_push(self.bases@[k as int], base_with_facility_of(owner, f));
                self.bases@.take(k as int).lemma_filter_len(base_with_facility_of(owner, f));
            }
            if self.bases[k].owner == owner && facilities_contain(&self.bases[k].facilities, f) {
                count += 1;
            }
            k += 1;
        }
        assert(self.bases@.take(self.bases@.len() as int) =~= self.bases@);
        count
    }

    /// How many live escort speeders `owner` has.
    fn count_escorts(&self, owner: usize) -> (r: usize)
        ensures
            r == self.units@.filter(escort_speeder_of(owner)).len(),
    {
        let mut count: usize = 0;
        let mut k: usize = 0;
        while k < self.units.len()
            invariant
                k <= self.units@.len(),
                count == self.units@.take(k as int).filter(escort_speeder_of(owner)).len(),
            decreases self.units@.len() - k,
        {
            proof {
                assert(self.units@.take(k + 1) =~= self.units@.take(k as int).push(self.units@[k as int]));
                self.units@.take(k as int).lemma_filter_push(self.units@[k as int], escort_speeder_of(owner));
                self.units@.take(k as int).lemma_filter_len(escort_speeder_of(owner));
            }
            if self.units[k].alive && self.units[k].owner == owner && matches!(self.units[k].kind, UnitKind::EscortSpeeder) {
                count += 1;
            }
            k += 1;
        }
        assert(self.units@.take(self.units@.len() as int) =~= self.units@);
        count
    }

    /// Appends the advice lines about the empire as a whole.
    fn push_empire_advice(&self, sig: &OperationsSignals, advice: &mut Vec<String>)
        requires
            sig.disrupted_routes + sig.intercepted_routes <= usize::MAX,
        ensures
            string_views(final(advice)@) == self.empire_advice(*sig, string_views(old(advice)@)),
    {
        let owner = sig.owner;
        let trade_ready = self.count_trade_ready(owner);
        let exchanges = self.count_with_facility(owner, F::TradeExchange);
        let depots = self.count_with_facility(owner, F::FreightDepot);
        let escorts = self.count_escorts(owner);
        let mut l1 = text_int("Support costs are ", sig.unit_upkeep as i64);
        push_text(&mut l1, " energy this turn (");
        push_int(&mut l1, sig.total_upkeep as i64);
        push_text(&mut l1, " total upkeep). Consider Command Centers or fewer idle units.");
        push_line_if(advice, sig.unit_upkeep > 0, l1);
        push_line_if(
            advice,
            trade_ready >= 2 && exchanges == 0,
            owned("Your empire has bases in trading range but no Trade Exchange coverage. A commerce build would improve energy flow."),
        );
        push_line_if(
            advice,
            trade_ready >= 2 && depots == 0,
            owned("Your empire has tradeable freight corridors but no Freight Depot coverage. A logistics build would improve mineral flow."),
        );
        let mut l4 = crate::text::u64_text(sig.disrupted_routes as u64);
        push_text(&mut l4, " convoy route(s) are disrupted by frontier pressure. Safer routes or stronger defenses would restore logistics.");
        push_line_if(advice, sig.disrupted_routes > 0, l4);
        let mut l5 = crate::text::u64_text(sig.intercepted_routes as u64);
        push_text(&mut l5, " convoy route(s) are being intercepted. Escort Speeders or Patrol Grids would cut losses.");
        push_line_if(advice, sig.intercepted_routes > 0, l5);
        push_line_if(
            advice,
            sig.disrupted_routes + sig.intercepted_routes > 0 && escorts == 0,
            owned("Your logistics network is under pressure with no Escort Speeders on station. A mobile escort wing would improve convoy survival."),
        );
    }

    /// Appends the advice line about the current research, where it would unblock plans.
    fn push_research_advice(&self, sig: &OperationsSignals, advice: &mut Vec<String>)
        ensures
            string_views(final(advice)@) == string_views(old(advice)@) + self.research_advice(*sig),
    {
        let ghost prior = advice@;
        if sig.owner >= self.factions.len() {
            assert(string_views(advice@) =~= string_views(prior) + self.research_advice(*sig));
            return;
        }
        let ids = &sig.research_pressure_base_ids;
        let mut names: Vec<String> = Vec::new();
        let mut k: usize = 0;
        while k < ids.len()
            invariant
                k <= ids@.len(),
                string_views(names@) == base_names(self.bases@, *self, ids@.take(k as int)),
            decreases ids@.len() - k,
        {
            proof {
                assert(ids@.take(k + 1).drop_last() =~= ids@.take(k as int));
            }
            let ghost before = names@;
            match self.base(ids[k]) {
                Some(b) => {
                    names.push(b.name.clone());
                    assert(string_views(names@) =~= string_views(before) + seq![b.name@]);
                },
                None => {},
            }
            k += 1;
        }
        assert(ids@.take(ids@.len() as int) =~= ids@);
        if names.len() == 0 {
            assert(string_views(advice@) =~= string_views(prior) + self.research_advice(*sig));
            return;
        }
        let shown_count: usize = if names.len() < 2 { names.len() } else { 2 };
        let mut shown: Vec<String> = Vec::new();
        let mut j: usize = 0;
        while j < shown_count
            invariant
                j <= shown_count,
                shown_count <= names@.len(),
                string_views(shown@) == string_views(names@).take(j as int),
            decreases shown_count - j,
        {
            let ghost before = shown@;
            let c = names[j].clone();
            assert(c@ == names@[j as int]@);
            assert(string_views(names@)[j as int] == names@[j as int]@);
            shown.push(c);
            assert(string_views(shown@) =~= string_views(before).push(c@));
            assert(string_views(names@).take(j + 1) =~= string_views(names@).take(j as int).push(c@));
            j += 1;
        }
        let mut line = owned("Current research ");
        push_text(&mut line, crate::content::tech_name(self.factions[sig.owner].current_research));
        push_text(&mut line, " would unblock governor plans at ");
        push_nat(&mut line, names.len() as u64);
        push_text(&mut line, " base(s): ");
        let joined = join_strings(&shown, ", ");
        assert(shown@.map_values(|p: String| p@) =~= string_views(shown@));
        push_text(&mut line, joined.as_str());
        push_text(&mut line, ".");
        advice.push(line);
        assert(string_views(advice@) =~= string_views(prior) + self.research_advice(*sig));
    }

    /// The advice the operations screen gives the player: for each of the player's bases
    /// its unrest, damaged garrisons, psionic pressure and food and mineral strain; then
    /// support costs, missing trade and freight coverage, disrupted and intercepted
    /// convoy routes with or without escorts; the bases the current research would
    /// unblock; and each unit's own advice; at most six lines in all.
    pub fn player_operations_advice(&self, signals: &OperationsSignals) -> (r: Vec<String>)
        requires
            signals.base_strain@.len() == self.bases@.len(),
            signals.unit_advice@.len() == self.units@.len(),
            signals.disrupted_routes + signals.intercepted_routes <= usize::MAX,
        ensures
            string_views(r@) == self.operations_advice_spec(*signals),
    {
        let owner = signals.owner;
        let mut advice: Vec<String> = Vec::new();
        let mut i: usize = 0;
        assert(string_views(advice@) =~= self.bases_advice(owner, signals.base_strain@, 0));
        while i < self.bases.len()
            invariant
                i <= self.bases@.len(),
                owner == signals.owner,
                signals.base_strain@.len() == self.bases@.len(),
                string_views(advice@) == self.bases_advice(owner, signals.base_strain@, i as int),
            decreases self.bases@.len() - i,
        {
            if self.bases[i].owner == owner {
                self.push_base_advice(owner, &self.bases[i], signals.base_strain[i], &mut advice);
            }
            i += 1;
        }
        self.push_empire_advice(signals, &mut advice);
        self.push_research_advice(signals, &mut advice);
        let ghost pre = string_views(advice@);
        let mut k: usize = 0;
        while k < self.units.len()
            invariant
                k <= self.units@.len(),
                owner == signals.owner,
                signals.unit_advice@.len() == self.units@.len(),
                string_views(advice@) == self.units_advice(owner, signals.unit_advice@, k as int, pre),
            decreases self.units@.len() - k,
        {
            if self.units[k].alive && self.units[k].owner == owner {
                match &signals.unit_advice[k] {
                    Some(line) => {
                        let ghost before = advice@;
                        advice.push(line.clone());
                        assert(string_views(advice@) =~= string_views(before) + seq![signals.unit_advice@[k as int]->0@]);
                    },
                    None => {},
                }
            }
            k += 1;
        }
        let ghost all = advice@;
        advice.truncate(6);
        assert(string_views(advice@) =~= self.operations_advice_spec(*signals)) by {
            if all.len() > 6 {
                assert(string_views(advice@) =~= string_views(all).take(6));
            }
        }
        advice
    }
}

} // verus!
