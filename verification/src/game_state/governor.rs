//! The build plan a base governor proposes from the state of the base and the
//! pressures on it.
use crate::game_state::access::base_with_id;
use crate::game_state::bases::{facilities_contain, trade_partner_of};
use crate::game_state::GovernorPlanStep;
use crate::model::{Base, Facility as F, GameState, GovernorMode, ProductionItem as P, Tech, Yields};
use crate::text::owned;
use vstd::prelude::*;

verus! {

/// What a governor weighs beyond the base itself, each read from elsewhere in the game:
/// the base's unrest, its damaged garrison units, the owner's unit upkeep, military and
/// psionic pressure around the base, the owner's appetite for attack, the base's
/// effective yields and food margin, whether any of its convoy lanes is disrupted or
/// intercepted, and the stress on its logistics (weighted counts of its intercepted,
/// disrupted and collapsing routes plus its potential trade links).
#[derive(Clone, Copy, Debug, PartialEq, Eq, Structural)]
pub struct GovernorSignals {
    pub unrest: i32,
    pub damaged_garrisons: usize,
    pub unit_upkeep: i32,
    pub military_pressure: i32,
    pub psi_pressure: i32,
    pub attack_bias: i32,
    pub yields: Yields,
    pub food_margin: i32,
    pub convoy_lanes_threatened: bool,
    pub logistics_stress: i32,
}

/// A plan step as the contracts see it: item, priority and reason.
pub open spec fn step_view(s: GovernorPlanStep) -> (P, i32, Seq<char>) {
    (s.item, s.priority, s.reason@)
}

/// The steps of a plan as the contracts see them.
pub open spec fn step_views(v: Seq<GovernorPlanStep>) -> Seq<(P, i32, Seq<char>)> {
    v.map_values(|s: GovernorPlanStep| step_view(s))
}

/// One proposed step when `cond` holds, none otherwise.
pub open spec fn step_if(cond: bool, item: P, priority: i32, reason: Seq<char>) -> Seq<(P, i32, Seq<char>)> {
    if cond {
        seq![(item, priority, reason)]
    } else {
        Seq::empty()
    }
}

/// The priorities a governor uses, highest first.
pub open spec fn plan_priorities() -> Seq<i32> {
    seq![110i32, 105, 100, 92, 91, 90, 89, 88, 87, 80, 76, 75, 72, 71, 70, 69, 68, 67, 66, 65, 64, 63]
}

/// Matches the steps of priority `p`.
pub open spec fn with_priority(p: i32) -> spec_fn((P, i32, Seq<char>)) -> bool {
    |e: (P, i32, Seq<char>)| e.1 == p
}

/// The steps of `c` with one of the first `n` priorities, highest priority first and in
/// their order in `c` within one priority.
pub open spec fn by_priority(c: Seq<(P, i32, Seq<char>)>, n: int) -> Seq<(P, i32, Seq<char>)>
    decreases n,
{
    if n <= 0 {
        Seq::empty()
    } else {
        by_priority(c, n - 1) + c.filter(with_priority(plan_priorities()[n - 1]))
    }
}

/// The governor's priorities fall strictly from first to last.
proof fn lemma_priorities_fall()
    ensures
        plan_priorities().len() == 22,
        forall|a: int, b: int| 0 <= a < b < 22 ==> #[trigger] plan_priorities()[a] > #[trigger] plan_priorities()[b],
{
        assert(plan_priorities()[0] == 110i32);
        assert(plan_priorities()[1] == 105i32);
        assert(plan_priorities()[2] == 100i32);
        assert(plan_priorities()[3] == 92i32);
        assert(plan_priorities()[4] == 91i32);
        assert(plan_priorities()[5] == 90i32);
        assert(plan_priorities()[6] == 89i32);
        assert(plan_priorities()[7] == 88i32);
        assert(plan_priorities()[8] == 87i32);
        assert(plan_priorities()[9] == 80i32);
        assert(plan_priorities()[10] == 76i32);
        assert(plan_priorities()[11] == 75i32);
        assert(plan_priorities()[12] == 72i32);
        assert(plan_priorities()[13] == 71i32);
        assert(plan_priorities()[14] == 70i32);
        assert(plan_priorities()[15] == 69i32);
        assert(plan_priorities()[16] == 68i32);
        assert(plan_priorities()[17] == 67i32);
        assert(plan_priorities()[18] == 66i32);
        assert(plan_priorities()[19] == 65i32);
        assert(plan_priorities()[20] == 64i32);
        assert(plan_priorities()[21] == 63i32);
}

/// The steps with one of the first `n` priorities come highest priority first, each
/// with a priority no lower than the `n`-th.
proof fn lemma_by_priority_ordered(c: Seq<(P, i32, Seq<char>)>, n: int)
    requires
        0 <= n <= 22,
    ensures
        forall|i: int, j: int|
            0 <= i < j < by_priority(c, n).len() ==> (#[trigger] by_priority(c, n)[i]).1 >= (#[trigger] by_priority(c, n)[j]).1,
        n > 0 ==> forall|i: int| 0 <= i < by_priority(c, n).len() ==> (#[trigger] by_priority(c, n)[i]).1 >= plan_priorities()[n - 1],
    decreases n,
{
    lemma_priorities_fall();
    if n > 0 {
        lemma_by_priority_ordered(c, n - 1);
        let a = by_priority(c, n - 1);
        let b = c.filter(with_priority(plan_priorities()[n - 1]));
        let r = by_priority(c, n);
        assert(r == a + b);
        assert forall|k: int| 0 <= k < b.len() implies (#[trigger] b[k]).1 == plan_priorities()[n - 1] by {
            c.lemma_filter_pred(with_priority(plan_priorities()[n - 1]), k);
        }
        assert forall|i: int| 0 <= i < r.len() implies (#[trigger] r[i]).1 >= plan_priorities()[n - 1] by {
            if i < a.len() {
                assert(r[i] == a[i]);
                assert(plan_priorities()[n - 2] > plan_priorities()[n - 1]);
            } else {
                assert(r[i] == b[i - a.len()]);
            }
        }
        assert forall|i: int, j: int| 0 <= i < j < r.len() implies (#[trigger] r[i]).1 >= (#[trigger] r[j]).1 by {
            if j < a.len() {
                assert(r[i] == a[i] && r[j] == a[j]);
            } else if i < a.len() {
                assert(r[i] == a[i] && r[j] == b[j - a.len()]);
                assert(plan_priorities()[n - 2] > plan_priorities()[n - 1]);
            } else {
                assert(r[i] == b[i - a.len()] && r[j] == b[j - a.len()]);
            }
        }
    }
}

/// A governor's plan lists its steps from the highest priority down.
pub proof fn law_governor_plan_ordered(state: GameState, base_id: usize, signals: GovernorSignals, i: int, j: int)
    requires
        0 <= i < j < state.governor_plan_spec(base_id, signals).len(),
    ensures
        state.governor_plan_spec(base_id, signals)[i].1 >= state.governor_plan_spec(base_id, signals)[j].1,
{
    lemma_priorities_fall();
    match state.base_spec(base_id) {
        Some(b) => lemma_by_priority_ordered(state.governor_candidates(b, signals), 22),
        None => {},
    }
}

impl GameState {
    /// Every step of `v` is buildable by `b`'s owner, and a facility step names a facility
    /// `b` lacks.
    pub open spec fn steps_sound(self, b: Base, v: Seq<(P, i32, Seq<char>)>) -> bool {
        forall|k: int| 0 <= k < v.len() ==> {
            let e = #[trigger] v[k];
            &&& self.buildable(b.owner, e.0)
            &&& e.0.facility_of() matches Some(f) ==> !b.facilities@.contains(f)
        }
    }

    proof fn lemma_steps_sound_concat(self, b: Base, x: Seq<(P, i32, Seq<char>)>, y: Seq<(P, i32, Seq<char>)>)
        requires
            self.steps_sound(b, x),
            self.steps_sound(b, y),
        ensures
            self.steps_sound(b, x + y),
    {
        assert forall|k: int| 0 <= k < (x + y).len() implies {
            let e = #[trigger] (x + y)[k];
            &&& self.buildable(b.owner, e.0)
            &&& e.0.facility_of() matches Some(f) ==> !b.facilities@.contains(f)
        } by {
            if k < x.len() {
                assert((x + y)[k] == x[k]);
            } else {
                assert((x + y)[k] == y[k - x.len()]);
            }
        }
    }

    proof fn lemma_recovery_sound(self, b: Base, s: GovernorSignals, pre: Seq<(P, i32, Seq<char>)>)
        requires
            self.steps_sound(b, pre),
        ensures
            self.steps_sound(b, self.recovery_steps(b, s, pre)),
    {
        let y = s.yields;
        let mut acc = pre;
        let t = step_if(s.unrest > 0 && !b.facilities@.contains(F::RecreationCommons) && self.buildable(b.owner, P::RecreationCommons), P::RecreationCommons, 100, "Unrest is reducing output here. Recreation Commons will stabilize the base."@);
        assert(self.steps_sound(b, t));
        self.lemma_steps_sound_concat(b, acc, t);
        acc = acc + t;
        let t = step_if(s.damaged_garrisons > 0 && !b.facilities@.contains(F::FieldHospital) && self.buildable(b.owner, P::FieldHospital), P::FieldHospital, 90, "Damaged garrisons are rotating through this base. Field Hospital will speed recovery."@);
        assert(self.steps_sound(b, t));
        self.lemma_steps_sound_concat(b, acc, t);
        acc = acc + t;
        let t = step_if((s.unrest > 0 || y.energy <= y.minerals) && b.facilities@.contains(F::RecreationCommons) && !b.facilities@.contains(F::HologramTheatre) && self.buildable(b.owner, P::HologramTheatre), P::HologramTheatre, 92, "Morale infrastructure is already online here. Hologram Theatre will deepen unrest control and improve energy flow."@);
        assert(self.steps_sound(b, t));
        self.lemma_steps_sound_concat(b, acc, t);
        acc = acc + t;
        let t = step_if(s.damaged_garrisons > 0 && b.facilities@.contains(F::FieldHospital) && !b.facilities@.contains(F::ResearchHospital) && self.buildable(b.owner, P::ResearchHospital), P::ResearchHospital, 91, "Recovery infrastructure is already active here. Research Hospital will accelerate healing, growth, and scientific output."@);
        assert(self.steps_sound(b, t));
        self.lemma_steps_sound_concat(b, acc, t);
        acc = acc + t;
        let t = step_if(s.psi_pressure >= 2 && self.buildable(b.owner, P::PsiSentinel), P::PsiSentinel, 89, "Psionic threats are nearby. Psi Sentinel will harden this base against native and psi pressure."@);
        assert(self.steps_sound(b, t));
        self.lemma_steps_sound_concat(b, acc, t);
        acc = acc + t;
        let t = step_if(s.psi_pressure >= 1 && !b.facilities@.contains(F::PsiBeacon) && self.buildable(b.owner, P::PsiBeacon), P::PsiBeacon, 88, "Psi pressure is building here. Psi Beacon will strengthen psionic security and local resilience."@);
        assert(self.steps_sound(b, t));
        self.lemma_steps_sound_concat(b, acc, t);
        acc = acc + t;
        let t = step_if((s.military_pressure >= 1 || s.psi_pressure >= 1 || s.damaged_garrisons > 0) && (b.facilities@.contains(F::PsiBeacon) || b.facilities@.contains(F::MilitaryAcademy) || b.facilities@.contains(F::FieldHospital)) && !b.facilities@.contains(F::BioenhancementCenter) && self.buildable(b.owner, P::BioenhancementCenter), P::BioenhancementCenter, 87, "This base already has frontline support infrastructure. Bioenhancement Center will improve training, psi resilience, and sustained readiness."@);
        assert(self.steps_sound(b, t));
        self.lemma_steps_sound_concat(b, acc, t);
        acc = acc + t;
        assert(acc == self.recovery_steps(b, s, pre));
    }

    proof fn lemma_support_sound(self, b: Base, s: GovernorSignals, pre: Seq<(P, i32, Seq<char>)>)
        requires
            self.steps_sound(b, pre),
        ensures
            self.steps_sound(b, self.support_steps(b, s, pre)),
    {
        let y = s.yields;
        let links = self.bases@.filter(trade_partner_of(b)).len();
        let escorts = self.units@.filter(self.escort_near(b)).len();
        let mut acc = pre;
        let t = step_if(s.unit_upkeep > 0 && !b.facilities@.contains(F::CommandCenter) && self.buildable(b.owner, P::CommandCenter), P::CommandCenter, 80, "Support pressure is rising. Command Center will improve support and training."@);
        assert(self.steps_sound(b, t));
        self.lemma_steps_sound_concat(b, acc, t);
        acc = acc + t;
        let t = step_if(y.energy <= y.minerals && !b.facilities@.contains(F::NetworkNode) && self.buildable(b.owner, P::NetworkNode), P::NetworkNode, 66, "Research and energy output are lagging. Network Node will improve knowledge and energy flow."@);
        assert(self.steps_sound(b, t));
        self.lemma_steps_sound_concat(b, acc, t);
        acc = acc + t;
        let t = step_if(links >= 1 && !b.facilities@.contains(F::TradeExchange) && self.buildable(b.owner, P::TradeExchange), P::TradeExchange, 65, "Nearby friendly bases can support trade here. Trade Exchange will convert that network into stronger energy flow."@);
        assert(self.steps_sound(b, t));
        self.lemma_steps_sound_concat(b, acc, t);
        acc = acc + t;
        let t = step_if(links >= 1 && escorts == 0 && self.buildable(b.owner, P::EscortSpeeder) && (s.military_pressure >= 1 || s.psi_pressure >= 1 || s.convoy_lanes_threatened), P::EscortSpeeder, 67, "Local convoy lanes are exposed. Escort Speeder will add mobile interception defense."@);
        assert(self.steps_sound(b, t));
        self.lemma_steps_sound_concat(b, acc, t);
        acc = acc + t;
        let t = step_if(links >= 1 && !b.facilities@.contains(F::PatrolGrid) && self.buildable(b.owner, P::PatrolGrid) && (s.military_pressure >= 1 || s.psi_pressure >= 1), P::PatrolGrid, 66, "Convoy routes here need protection. Patrol Grid will increase route capacity and reduce logistics disruption."@);
        assert(self.steps_sound(b, t));
        self.lemma_steps_sound_concat(b, acc, t);
        acc = acc + t;
        let t = step_if(links >= 1 && !b.facilities@.contains(F::FreightDepot) && self.buildable(b.owner, P::FreightDepot) && (b.facilities@.contains(F::TradeExchange) || y.minerals <= y.energy), P::FreightDepot, 64, "Friendly bases can support freight flow here. Freight Depot will convert that network into stronger mineral throughput."@);
        assert(self.steps_sound(b, t));
        self.lemma_steps_sound_concat(b, acc, t);
        acc = acc + t;
        let t = step_if(y.nutrients <= (if b.population > 1 { b.population as int } else { 1 }) + 1 && !b.facilities@.contains(F::Greenhouse) && self.buildable(b.owner, P::Greenhouse), P::Greenhouse, 65, "Food security is thin here. Greenhouse will improve nutrient flow and growth resilience."@);
        assert(self.steps_sound(b, t));
        self.lemma_steps_sound_concat(b, acc, t);
        acc = acc + t;
        assert(acc == self.support_steps(b, s, pre));
    }

    proof fn lemma_economy_sound(self, b: Base, s: GovernorSignals, pre: Seq<(P, i32, Seq<char>)>)
        requires
            self.steps_sound(b, pre),
        ensures
            self.steps_sound(b, self.economy_steps(b, s, pre)),
    {
        let y = s.yields;
        let mut acc = pre;
        let t = step_if(y.minerals <= 6 && !b.facilities@.contains(F::MineralRefinery) && self.buildable(b.owner, P::MineralRefinery), P::MineralRefinery, 64, "Extraction throughput is thin here. Mineral Refinery will strengthen industrial output."@);
        assert(self.steps_sound(b, t));
        self.lemma_steps_sound_concat(b, acc, t);
        acc = acc + t;
        let t = step_if((y.nutrients <= 6 || y.minerals <= 6) && !b.facilities@.contains(F::RecyclingTanks) && self.buildable(b.owner, P::RecyclingTanks), P::RecyclingTanks, 63, "Core growth and mineral flow are thin. Recycling Tanks will stabilize early economic output."@);
        assert(self.steps_sound(b, t));
        self.lemma_steps_sound_concat(b, acc, t);
        acc = acc + t;
        let t = step_if((s.food_margin <= 0 || y.energy <= y.minerals) && b.facilities@.contains(F::FieldHospital) && !b.facilities@.contains(F::ResearchHospital) && self.buildable(b.owner, P::ResearchHospital), P::ResearchHospital, 76, "This base needs stronger long-term recovery and research support. Research Hospital will improve healing, growth, and energy output."@);
        assert(self.steps_sound(b, t));
        self.lemma_steps_sound_concat(b, acc, t);
        acc = acc + t;
        let t = step_if(s.military_pressure >= 2 && !b.facilities@.contains(F::PerimeterDefense) && self.buildable(b.owner, P::PerimeterDefense), P::PerimeterDefense, 75, "Frontline pressure is high. Perimeter Defense will harden this base immediately."@);
        assert(self.steps_sound(b, t));
        self.lemma_steps_sound_concat(b, acc, t);
        acc = acc + t;
        let t = step_if(s.military_pressure >= 1 && !b.facilities@.contains(F::SensorArray) && self.buildable(b.owner, P::SensorArray), P::SensorArray, 72, "Sensor coverage is thin. Sensor Array will strengthen frontier defense and energy output."@);
        assert(self.steps_sound(b, t));
        self.lemma_steps_sound_concat(b, acc, t);
        acc = acc + t;
        let t = step_if(s.military_pressure >= 1 && s.attack_bias >= 1 && !b.facilities@.contains(F::TransitHub) && self.buildable(b.owner, P::TransitHub), P::TransitHub, 71, "Fast-response forces need better logistics. Transit Hub will support mobile strike units."@);
        assert(self.steps_sound(b, t));
        self.lemma_steps_sound_concat(b, acc, t);
        acc = acc + t;
        let t = step_if(s.military_pressure >= 1 && s.attack_bias >= 1 && b.facilities@.contains(F::TransitHub) && !b.facilities@.contains(F::ForwardDepot) && self.buildable(b.owner, P::ForwardDepot), P::ForwardDepot, 70, "Mobile forces are active here. Forward Depot will sustain fast-response attacks and repairs."@);
        assert(self.steps_sound(b, t));
        self.lemma_steps_sound_concat(b, acc, t);
        acc = acc + t;
        assert(acc == self.economy_steps(b, s, pre));
    }

    proof fn lemma_defense_sound(self, b: Base, s: GovernorSignals, pre: Seq<(P, i32, Seq<char>)>)
        requires
            self.steps_sound(b, pre),
        ensures
            self.steps_sound(b, self.defense_steps(b, s, pre)),
    {
        let mut acc = pre;
        let t = step_if(s.military_pressure >= 2 && self.buildable(b.owner, P::GarrisonGuard), P::GarrisonGuard, 68, "A hardened garrison unit would improve local base defense immediately."@);
        assert(self.steps_sound(b, t));
        self.lemma_steps_sound_concat(b, acc, t);
        acc = acc + t;
        let t = step_if(s.military_pressure >= 2 && self.buildable(b.owner, P::PsiSentinel), P::PsiSentinel, 67, "Psionic defense is available. Psi Sentinel would strengthen hostile-frontier security."@);
        assert(self.steps_sound(b, t));
        self.lemma_steps_sound_concat(b, acc, t);
        acc = acc + t;
        let t = step_if(s.military_pressure >= 2 && !b.facilities@.contains(F::MilitaryAcademy) && self.buildable(b.owner, P::MilitaryAcademy), P::MilitaryAcademy, 70, "Frontline pressure is high. Military Academy will field veteran troops faster."@);
        assert(self.steps_sound(b, t));
        self.lemma_steps_sound_concat(b, acc, t);
        acc = acc + t;
        let t = step_if(s.military_pressure >= 1 && s.attack_bias >= 1 && self.buildable(b.owner, P::ResonanceLaser), P::ResonanceLaser, 69, "Advanced shock infantry is available here. Resonance Laser can anchor breakthroughs and punish exposed attackers."@);
        assert(self.steps_sound(b, t));
        self.lemma_steps_sound_concat(b, acc, t);
        acc = acc + t;
        let t = step_if(s.military_pressure >= 1 && s.attack_bias >= 1 && self.buildable(b.owner, P::RaiderSpeeder), P::RaiderSpeeder, 69, "Mobile strike pressure fits this doctrine. Raider Speeder can exploit exposed enemy lines quickly."@);
        assert(self.steps_sound(b, t));
        self.lemma_steps_sound_concat(b, acc, t);
        acc = acc + t;
        let t = step_if(b.governor_mode == GovernorMode::MachinePolity && !b.facilities@.contains(F::MineralRefinery) && self.buildable(b.owner, P::MineralRefinery), P::MineralRefinery, 110, "Machine Polity: Prioritizing raw mineral throughput for industrial dominance."@);
        assert(self.steps_sound(b, t));
        self.lemma_steps_sound_concat(b, acc, t);
        acc = acc + t;
        let t = step_if(b.governor_mode == GovernorMode::MachinePolity && !b.facilities@.contains(F::TransitHub) && self.buildable(b.owner, P::TransitHub), P::TransitHub, 105, "Machine Polity: Standardizing logistical architecture for efficiency."@);
        assert(self.steps_sound(b, t));
        self.lemma_steps_sound_concat(b, acc, t);
        acc = acc + t;
        assert(acc == self.defense_steps(b, s, pre));
    }

    /// Every proposed step is buildable and no facility step names a facility the base
    /// already has.
    proof fn lemma_candidates_sound(self, b: Base, s: GovernorSignals)
        ensures
            self.steps_sound(b, self.governor_candidates(b, s)),
    {
        let e = Seq::<(P, i32, Seq<char>)>::empty();
        assert(self.steps_sound(b, e));
        self.lemma_recovery_sound(b, s, e);
        let r1 = self.recovery_steps(b, s, e);
        self.lemma_support_sound(b, s, r1);
        let r2 = self.support_steps(b, s, r1);
        self.lemma_economy_sound(b, s, r2);
        let r3 = self.economy_steps(b, s, r2);
        self.lemma_defense_sound(b, s, r3);
    }
}

/// Each step a governor plans can be built by the base's owner, and a facility step
/// names a facility the base does not have yet.
pub proof fn law_governor_plan_sound(state: GameState, base_id: usize, signals: GovernorSignals, k: int)
    requires
        0 <= k < state.governor_plan_spec(base_id, signals).len(),
    ensures
        state.base_spec(base_id) matches Some(b) && {
            let e = state.governor_plan_spec(base_id, signals)[k];
            &&& state.buildable(b.owner, e.0)
            &&& e.0.facility_of() matches Some(f) ==> !b.facilities@.contains(f)
        },
{
    let b = state.base_spec(base_id)->0;
    let c = state.governor_candidates(b, signals);
    state.lemma_candidates_sound(b, signals);
    lemma_by_priority_within(c, 22);
    let e = by_priority(c, 22)[k];
    assert(c.contains(e));
    let m = choose|m: int| 0 <= m < c.len() && c[m] == e;
    assert(c[m] == e);
}

/// A step with one of the first `n` priorities is kept by the ordering.
pub(crate) proof fn lemma_by_priority_includes(c: Seq<(P, i32, Seq<char>)>, n: int, e: (P, i32, Seq<char>), k: int)
    requires
        c.contains(e),
        0 <= k < n <= plan_priorities().len(),
        e.1 == plan_priorities()[k],
    ensures
        by_priority(c, n).contains(e),
    decreases n,
{
    let a = by_priority(c, n - 1);
    let f = c.filter(with_priority(plan_priorities()[n - 1]));
    assert(by_priority(c, n) == a + f);
    if k == n - 1 {
        c.filter_lemma(with_priority(plan_priorities()[n - 1]));
        let i = choose|i: int| 0 <= i < c.len() && c[i] == e;
        assert(with_priority(plan_priorities()[n - 1])(c[i]));
        assert(f.contains(c[i]));
        let j = choose|j: int| 0 <= j < f.len() && f[j] == e;
        assert((a + f)[a.len() + j] == e);
    } else {
        lemma_by_priority_includes(c, n - 1, e, k);
        let j = choose|j: int| 0 <= j < a.len() && a[j] == e;
        assert((a + f)[j] == e);
    }
}

/// A sequence joined to another holds what either held.
pub(crate) proof fn lemma_concat_keeps()
    ensures
        forall|x: Seq<(P, i32, Seq<char>)>, y: Seq<(P, i32, Seq<char>)>, e: (P, i32, Seq<char>)|
            (x.contains(e) || y.contains(e)) ==> #[trigger] (x + y).contains(e),
{
    assert forall|x: Seq<(P, i32, Seq<char>)>, y: Seq<(P, i32, Seq<char>)>, e: (P, i32, Seq<char>)|
        (x.contains(e) || y.contains(e)) implies #[trigger] (x + y).contains(e) by {
        if x.contains(e) {
            let i = choose|i: int| 0 <= i < x.len() && x[i] == e;
            assert((x + y)[i] == e);
        } else {
            let i = choose|i: int| 0 <= i < y.len() && y[i] == e;
            assert((x + y)[x.len() + i] == e);
        }
    }
}

/// Under military pressure of 2 or more, a base without Perimeter Defense whose owner can
/// build it is advised to build it at priority 75, whatever the owner's appetite for
/// attack and whatever else the base needs.
pub proof fn law_frontline_pressure_plans_perimeter_defense(state: GameState, base_id: usize, signals: GovernorSignals)
    requires
        state.base_spec(base_id) matches Some(b) && {
            &&& signals.military_pressure >= 2
            &&& !b.facilities@.contains(F::PerimeterDefense)
            &&& state.production_available_spec(b.owner, P::PerimeterDefense)
        },
    ensures
        state.governor_plan_spec(base_id, signals).contains(
            (P::PerimeterDefense, 75i32, "Frontline pressure is high. Perimeter Defense will harden this base immediately."@),
        ),
{
    let b = state.base_spec(base_id)->0;
    let e = (P::PerimeterDefense, 75i32, "Frontline pressure is high. Perimeter Defense will harden this base immediately."@);
    reveal(GameState::buildable);
    lemma_concat_keeps();
    let r2 = state.support_steps(b, signals, state.recovery_steps(b, signals, Seq::empty()));
    assert(step_if(true, e.0, e.1, e.2).contains(e)) by {
        assert(step_if(true, e.0, e.1, e.2)[0] == e);
    }
    let r3 = state.economy_steps(b, signals, r2);
    assert(r3.contains(e));
    let c = state.governor_candidates(b, signals);
    assert(c.contains(e));
    assert(plan_priorities()[11] == 75i32);
    lemma_by_priority_includes(c, 22, e, 11);
}

/// What a joined sequence holds, one of its parts held; and a step a rule proposes is
/// proposed only when the rule's condition holds.
pub(crate) proof fn lemma_concat_splits()
    ensures
        forall|x: Seq<(P, i32, Seq<char>)>, y: Seq<(P, i32, Seq<char>)>, e: (P, i32, Seq<char>)|
            #[trigger] (x + y).contains(e) ==> x.contains(e) || y.contains(e),
        forall|cond: bool, item: P, priority: i32, reason: Seq<char>, e: (P, i32, Seq<char>)|
            #[trigger] step_if(cond, item, priority, reason).contains(e) ==> cond && e == (item, priority, reason),
{
    assert forall|x: Seq<(P, i32, Seq<char>)>, y: Seq<(P, i32, Seq<char>)>, e: (P, i32, Seq<char>)|
        #[trigger] (x + y).contains(e) implies x.contains(e) || y.contains(e) by {
        let i = choose|i: int| 0 <= i < (x + y).len() && (x + y)[i] == e;
        if i < x.len() {
            assert(x[i] == e);
        } else {
            assert(y[i - x.len()] == e);
        }
    }
    assert forall|cond: bool, item: P, priority: i32, reason: Seq<char>, e: (P, i32, Seq<char>)|
        #[trigger] step_if(cond, item, priority, reason).contains(e) implies cond && e == (item, priority, reason) by {
        let i = choose|i: int| 0 <= i < step_if(cond, item, priority, reason).len() && step_if(cond, item, priority, reason)[i] == e;
    }
}

/// Every step ordered by priority is one of the proposed steps.
pub(crate) proof fn lemma_by_priority_within(c: Seq<(P, i32, Seq<char>)>, n: int)
    requires
        0 <= n,
    ensures
        forall|k: int| 0 <= k < by_priority(c, n).len() ==> c.contains(#[trigger] by_priority(c, n)[k]),
    decreases n,
{
    if n > 0 {
        lemma_by_priority_within(c, n - 1);
        let a = by_priority(c, n - 1);
        let f = c.filter(with_priority(plan_priorities()[n - 1]));
        let r = by_priority(c, n);
        assert(r == a + f);
        assert forall|k: int| 0 <= k < r.len() implies c.contains(#[trigger] r[k]) by {
            if k < a.len() {
                assert(r[k] == a[k]);
                assert(c.contains(a[k]));
            } else {
                assert(r[k] == f[k - a.len()]);
                crate::seqs::lemma_filter_member(c, with_priority(plan_priorities()[n - 1]), k - a.len());
            }
        }
    }
}

/// Appends a step when `cond` holds.
fn push_step(plan: &mut Vec<GovernorPlanStep>, cond: bool, item: P, priority: i32, reason: &str)
    ensures
        step_views(final(plan)@) == step_views(old(plan)@) + step_if(cond, item, priority, reason@),
{
    if cond {
        plan.push(GovernorPlanStep { item, priority, reason: owned(reason) });
        assert(step_views(plan@) =~= step_views(old(plan)@) + step_if(cond, item, priority, reason@));
    } else {
        assert(step_views(plan@) =~= step_views(old(plan)@) + step_if(cond, item, priority, reason@));
    }
}

impl GameState {
    /// Whether `owner` may build `item` now, kept folded while the plan's rules are
    /// weighed.
    #[verifier::opaque]
    pub open spec fn buildable(self, owner: usize, item: P) -> bool {
        self.production_available_spec(owner, item)
    }

    /// Whether `owner` may build `item` now.
    fn can_build(&self, owner: usize, item: P) -> (r: bool)
        ensures
            r == self.buildable(owner, item),
    {
        proof {
            reveal(GameState::buildable);
        }
        self.is_production_available(owner, item)
    }

    /// The morale, recovery and psionic steps a governor of base `b` proposes, in order.
    pub open spec fn recovery_steps(self, b: Base, s: GovernorSignals, pre: Seq<(P, i32, Seq<char>)>) -> Seq<(P, i32, Seq<char>)> {
        let y = s.yields;
        let links = self.bases@.filter(trade_partner_of(b)).len();
        let escorts = self.units@.filter(self.escort_near(b)).len();
        pre
            + step_if(
                s.unrest > 0 && !b.facilities@.contains(F::RecreationCommons) && self.buildable(b.owner, P::RecreationCommons),
                P::RecreationCommons,
                100,
                "Unrest is reducing output here. Recreation Commons will stabilize the base."@,
            )
            + step_if(
                s.damaged_garrisons > 0 && !b.facilities@.contains(F::FieldHospital) && self.buildable(b.owner, P::FieldHospital),
                P::FieldHospital,
                90,
                "Damaged garrisons are rotating through this base. Field Hospital will speed recovery."@,
            )
            + step_if(
                (s.unrest > 0 || y.energy <= y.minerals) && b.facilities@.contains(F::RecreationCommons) && !b.facilities@.contains(F::HologramTheatre) && self.buildable(b.owner, P::HologramTheatre),
                P::HologramTheatre,
                92,
                "Morale infrastructure is already online here. Hologram Theatre will deepen unrest control and improve energy flow."@,
            )
            + step_if(
                s.damaged_garrisons > 0 && b.facilities@.contains(F::FieldHospital) && !b.facilities@.contains(F::ResearchHospital) && self.buildable(b.owner, P::ResearchHospital),
                P::ResearchHospital,
                91,
                "Recovery infrastructure is already active here. Research Hospital will accelerate healing, growth, and scientific output."@,
            )
            + step_if(
                s.psi_pressure >= 2 && self.buildable(b.owner, P::PsiSentinel),
                P::PsiSentinel,
                89,
                "Psionic threats are nearby. Psi Sentinel will harden this base against native and psi pressure."@,
            )
            + step_if(
                s.psi_pressure >= 1 && !b.facilities@.contains(F::PsiBeacon) && self.buildable(b.owner, P::PsiBeacon),
                P::PsiBeacon,
                88,
                "Psi pressure is building here. Psi Beacon will strengthen psionic security and local resilience."@,
            )
            + step_if(
                (s.military_pressure >= 1 || s.psi_pressure >= 1 || s.damaged_garrisons > 0) && (b.facilities@.contains(F::PsiBeacon) || b.facilities@.contains(F::MilitaryAcademy) || b.facilities@.contains(F::FieldHospital)) && !b.facilities@.contains(F::BioenhancementCenter) && self.buildable(b.owner, P::BioenhancementCenter),
                P::BioenhancementCenter,
                87,
                "This base already has frontline support infrastructure. Bioenhancement Center will improve training, psi resilience, and sustained readiness."@,
            )
    }
    /// The support, research, trade and food steps a governor of base `b` proposes, in order.
    pub open spec fn support_steps(self, b: Base, s: GovernorSignals, pre: Seq<(P, i32, Seq<char>)>) -> Seq<(P, i32, Seq<char>)> {
        let y = s.yields;
        let links = self.bases@.filter(trade_partner_of(b)).len();
        let escorts = self.units@.filter(self.escort_near(b)).len();
        pre
            + step_if(
                s.unit_upkeep > 0 && !b.facilities@.contains(F::CommandCenter) && self.buildable(b.owner, P::CommandCenter),
                P::CommandCenter,
                80,
                "Support pressure is rising. Command Center will improve support and training."@,
            )
            + step_if(
                y.energy <= y.minerals && !b.facilities@.contains(F::NetworkNode) && self.buildable(b.owner, P::NetworkNode),
                P::NetworkNode,
                66,
                "Research and energy output are lagging. Network Node will improve knowledge and energy flow."@,
            )
            + step_if(
                links >= 1 && !b.facilities@.contains(F::TradeExchange) && self.buildable(b.owner, P::TradeExchange),
                P::TradeExchange,
                65,
                "Nearby friendly bases can support trade here. Trade Exchange will convert that network into stronger energy flow."@,
            )
            + step_if(
                links >= 1 && escorts == 0 && self.buildable(b.owner, P::EscortSpeeder) && (s.military_pressure >= 1 || s.psi_pressure >= 1 || s.convoy_lanes_threatened),
                P::EscortSpeeder,
                67,
                "Local convoy lanes are exposed. Escort Speeder will add mobile interception defense."@,
            )
            + step_if(
                links >= 1 && !b.facilities@.contains(F::PatrolGrid) && self.buildable(b.owner, P::PatrolGrid) && (s.military_pressure >= 1 || s.psi_pressure >= 1),
                P::PatrolGrid,
                66,
                "Convoy routes here need protection. Patrol Grid will increase route capacity and reduce logistics disruption."@,
            )
            + step_if(
                links >= 1 && !b.facilities@.contains(F::FreightDepot) && self.buildable(b.owner, P::FreightDepot) && (b.facilities@.contains(F::TradeExchange) || y.minerals <= y.energy),
                P::FreightDepot,
                64,
                "Friendly bases can support freight flow here. Freight Depot will convert that network into stronger mineral throughput."@,
            )
            + step_if(
                y.nutrients <= (if b.population > 1 { b.population as int } else { 1 }) + 1 && !b.facilities@.contains(F::Greenhouse) && self.buildable(b.owner, P::Greenhouse),
                P::Greenhouse,
                65,
                "Food security is thin here. Greenhouse will improve nutrient flow and growth resilience."@,
            )
    }
    /// The industry and frontline steps a governor of base `b` proposes, in order.
    pub open spec fn economy_steps(self, b: Base, s: GovernorSignals, pre: Seq<(P, i32, Seq<char>)>) -> Seq<(P, i32, Seq<char>)> {
        let y = s.yields;
        let links = self.bases@.filter(trade_partner_of(b)).len();
        let escorts = self.units@.filter(self.escort_near(b)).len();
        pre
            + step_if(
                y.minerals <= 6 && !b.facilities@.contains(F::MineralRefinery) && self.buildable(b.owner, P::MineralRefinery),
                P::MineralRefinery,
                64,
                "Extraction throughput is thin here. Mineral Refinery will strengthen industrial output."@,
            )
            + step_if(
                (y.nutrients <= 6 || y.minerals <= 6) && !b.facilities@.contains(F::RecyclingTanks) && self.buildable(b.owner, P::RecyclingTanks),
                P::RecyclingTanks,
                63,
                "Core growth and mineral flow are thin. Recycling Tanks will stabilize early economic output."@,
            )
            + step_if(
                (s.food_margin <= 0 || y.energy <= y.minerals) && b.facilities@.contains(F::FieldHospital) && !b.facilities@.contains(F::ResearchHospital) && self.buildable(b.owner, P::ResearchHospital),
                P::ResearchHospital,
                76,
                "This base needs stronger long-term recovery and research support. Research Hospital will improve healing, growth, and energy output."@,
            )
            + step_if(
                s.military_pressure >= 2 && !b.facilities@.contains(F::PerimeterDefense) && self.buildable(b.owner, P::PerimeterDefense),
                P::PerimeterDefense,
                75,
                "Frontline pressure is high. Perimeter Defense will harden this base immediately."@,
            )
            + step_if(
                s.military_pressure >= 1 && !b.facilities@.contains(F::SensorArray) && self.buildable(b.owner, P::SensorArray),
                P::SensorArray,
                72,
                "Sensor coverage is thin. Sensor Array will strengthen frontier defense and energy output."@,
            )
            + step_if(
                s.military_pressure >= 1 && s.attack_bias >= 1 && !b.facilities@.contains(F::TransitHub) && self.buildable(b.owner, P::TransitHub),
                P::TransitHub,
                71,
                "Fast-response forces need better logistics. Transit Hub will support mobile strike units."@,
            )
            + step_if(
                s.military_pressure >= 1 && s.attack_bias >= 1 && b.facilities@.contains(F::TransitHub) && !b.facilities@.contains(F::ForwardDepot) && self.buildable(b.owner, P::ForwardDepot),
                P::ForwardDepot,
                70,
                "Mobile forces are active here. Forward Depot will sustain fast-response attacks and repairs."@,
            )
    }
    /// The defense, strike and machine-polity steps a governor of base `b` proposes, in order.
    pub open spec fn defense_steps(self, b: Base, s: GovernorSignals, pre: Seq<(P, i32, Seq<char>)>) -> Seq<(P, i32, Seq<char>)> {
        let y = s.yields;
        let links = self.bases@.filter(trade_partner_of(b)).len();
        let escorts = self.units@.filter(self.escort_near(b)).len();
        pre
            + step_if(
                s.military_pressure >= 2 && self.buildable(b.owner, P::GarrisonGuard),
                P::GarrisonGuard,
                68,
                "A hardened garrison unit would improve local base defense immediately."@,
            )
            + step_if(
                s.military_pressure >= 2 && self.buildable(b.owner, P::PsiSentinel),
                P::PsiSentinel,
                67,
                "Psionic defense is available. Psi Sentinel would strengthen hostile-frontier security."@,
            )
            + step_if(
                s.military_pressure >= 2 && !b.facilities@.contains(F::MilitaryAcademy) && self.buildable(b.owner, P::MilitaryAcademy),
                P::MilitaryAcademy,
                70,
                "Frontline pressure is high. Military Academy will field veteran troops faster."@,
            )
            + step_if(
                s.military_pressure >= 1 && s.attack_bias >= 1 && self.buildable(b.owner, P::ResonanceLaser),
                P::ResonanceLaser,
                69,
                "Advanced shock infantry is available here. Resonance Laser can anchor breakthroughs and punish exposed attackers."@,
            )
            + step_if(
                s.military_pressure >= 1 && s.attack_bias >= 1 && self.buildable(b.owner, P::RaiderSpeeder),
                P::RaiderSpeeder,
                69,
                "Mobile strike pressure fits this doctrine. Raider Speeder can exploit exposed enemy lines quickly."@,
            )
            + step_if(
                b.governor_mode == GovernorMode::MachinePolity && !b.facilities@.contains(F::MineralRefinery) && self.buildable(b.owner, P::MineralRefinery),
                P::MineralRefinery,
                110,
                "Machine Polity: Prioritizing raw mineral throughput for industrial dominance."@,
            )
            + step_if(
                b.governor_mode == GovernorMode::MachinePolity && !b.facilities@.contains(F::TransitHub) && self.buildable(b.owner, P::TransitHub),
                P::TransitHub,
                105,
                "Machine Polity: Standardizing logistical architecture for efficiency."@,
            )
    }
    /// The steps a governor of base `b` proposes, in the order it weighs them.
    pub open spec fn governor_candidates(self, b: Base, s: GovernorSignals) -> Seq<(P, i32, Seq<char>)> {
        self.defense_steps(b, s, self.economy_steps(b, s, self.support_steps(b, s, self.recovery_steps(b, s, Seq::empty()))))
    }

    /// Appends the morale, recovery and psionic steps for `base`.
    fn push_recovery_steps(&self, base: &Base, s: GovernorSignals, links: usize, escorts: usize, candidates: &mut Vec<GovernorPlanStep>)
        requires
            base.population < i32::MAX,
            links == self.bases@.filter(trade_partner_of(*base)).len(),
            escorts == self.units@.filter(self.escort_near(*base)).len(),
        ensures
            step_views(final(candidates)@) == self.recovery_steps(*base, s, step_views(old(candidates)@)),
    {
        let y = s.yields;
        let owner = base.owner;
        push_step(
            candidates,
            s.unrest > 0 && !facilities_contain(&base.facilities, F::RecreationCommons) && self.can_build(owner, P::RecreationCommons),
            P::RecreationCommons,
            100,
            "Unrest is reducing output here. Recreation Commons will stabilize the base.",
        );
        push_step(
            candidates,
            s.damaged_garrisons > 0 && !facilities_contain(&base.facilities, F::FieldHospital) && self.can_build(owner, P::FieldHospital),
            P::FieldHospital,
            90,
            "Damaged garrisons are rotating through this base. Field Hospital will speed recovery.",
        );
        push_step(
            candidates,
            (s.unrest > 0 || y.energy <= y.minerals) && facilities_contain(&base.facilities, F::RecreationCommons) && !facilities_contain(&base.facilities, F::HologramTheatre) && self.can_build(owner, P::HologramTheatre),
            P::HologramTheatre,
            92,
            "Morale infrastructure is already online here. Hologram Theatre will deepen unrest control and improve energy flow.",
        );
        push_step(
            candidates,
            s.damaged_garrisons > 0 && facilities_contain(&base.facilities, F::FieldHospital) && !facilities_contain(&base.facilities, F::ResearchHospital) && self.can_build(owner, P::ResearchHospital),
            P::ResearchHospital,
            91,
            "Recovery infrastructure is already active here. Research Hospital will accelerate healing, growth, and scientific output.",
        );
        push_step(
            candidates,
            s.psi_pressure >= 2 && self.can_build(owner, P::PsiSentinel),
            P::PsiSentinel,
            89,
            "Psionic threats are nearby. Psi Sentinel will harden this base against native and psi pressure.",
        );
        push_step(
            candidates,
            s.psi_pressure >= 1 && !facilities_contain(&base.facilities, F::PsiBeacon) && self.can_build(owner, P::PsiBeacon),
            P::PsiBeacon,
            88,
            "Psi pressure is building here. Psi Beacon will strengthen psionic security and local resilience.",
        );
        push_step(
            candidates,
            (s.military_pressure >= 1 || s.psi_pressure >= 1 || s.damaged_garrisons > 0) && (facilities_contain(&base.facilities, F::PsiBeacon) || facilities_contain(&base.facilities, F::MilitaryAcademy) || facilities_contain(&base.facilities, F::FieldHospital)) && !facilities_contain(&base.facilities, F::BioenhancementCenter) && self.can_build(owner, P::BioenhancementCenter),
            P::BioenhancementCenter,
            87,
            "This base already has frontline support infrastructure. Bioenhancement Center will improve training, psi resilience, and sustained readiness.",
        );
    }
    /// Appends the support, research, trade and food steps for `base`.
    fn push_support_steps(&self, base: &Base, s: GovernorSignals, links: usize, escorts: usize, candidates: &mut Vec<GovernorPlanStep>)
        requires
            base.population < i32::MAX,
            links == self.bases@.filter(trade_partner_of(*base)).len(),
            escorts == self.units@.filter(self.escort_near(*base)).len(),
        ensures
            step_views(final(candidates)@) == self.support_steps(*base, s, step_views(old(candidates)@)),
    {
        let y = s.yields;
        let owner = base.owner;
        let pop: i32 = if base.population > 1 { base.population } else { 1 };
        push_step(
            candidates,
            s.unit_upkeep > 0 && !facilities_contain(&base.facilities, F::CommandCenter) && self.can_build(owner, P::CommandCenter),
            P::CommandCenter,
            80,
            "Support pressure is rising. Command Center will improve support and training.",
        );
        push_step(
            candidates,
            y.energy <= y.minerals && !facilities_contain(&base.facilities, F::NetworkNode) && self.can_build(owner, P::NetworkNode),
            P::NetworkNode,
            66,
            "Research and energy output are lagging. Network Node will improve knowledge and energy flow.",
        );
        push_step(
            candidates,
            links >= 1 && !facilities_contain(&base.facilities, F::TradeExchange) && self.can_build(owner, P::TradeExchange),
            P::TradeExchange,
            65,
            "Nearby friendly bases can support trade here. Trade Exchange will convert that network into stronger energy flow.",
        );
        push_step(
            candidates,
            links >= 1 && escorts == 0 && self.can_build(owner, P::EscortSpeeder) && (s.military_pressure >= 1 || s.psi_pressure >= 1 || s.convoy_lanes_threatened),
            P::EscortSpeeder,
            67,
            "Local convoy lanes are exposed. Escort Speeder will add mobile interception defense.",
        );
        push_step(
            candidates,
            links >= 1 && !facilities_contain(&base.facilities, F::PatrolGrid) && self.can_build(owner, P::PatrolGrid) && (s.military_pressure >= 1 || s.psi_pressure >= 1),
            P::PatrolGrid,
            66,
            "Convoy routes here need protection. Patrol Grid will increase route capacity and reduce logistics disruption.",
        );
        push_step(
            candidates,
            links >= 1 && !facilities_contain(&base.facilities, F::FreightDepot) && self.can_build(owner, P::FreightDepot) && (facilities_contain(&base.facilities, F::TradeExchange) || y.minerals <= y.energy),
            P::FreightDepot,
            64,
            "Friendly bases can support freight flow here. Freight Depot will convert that network into stronger mineral throughput.",
        );
        push_step(
            candidates,
            y.nutrients <= pop + 1 && !facilities_contain(&base.facilities, F::Greenhouse) && self.can_build(owner, P::Greenhouse),
            P::Greenhouse,
            65,
            "Food security is thin here. Greenhouse will improve nutrient flow and growth resilience.",
        );
    }
    /// Appends the industry and frontline steps for `base`.
    fn push_economy_steps(&self, base: &Base, s: GovernorSignals, links: usize, escorts: usize, candidates: &mut Vec<GovernorPlanStep>)
        requires
            base.population < i32::MAX,
            links == self.bases@.filter(trade_partner_of(*base)).len(),
            escorts == self.units@.filter(self.escort_near(*base)).len(),
        ensures
            step_views(final(candidates)@) == self.economy_steps(*base, s, step_views(old(candidates)@)),
    {
        let y = s.yields;
        let owner = base.owner;
        push_step(
            candidates,
            y.minerals <= 6 && !facilities_contain(&base.facilities, F::MineralRefinery) && self.can_build(owner, P::MineralRefinery),
            P::MineralRefinery,
            64,
            "Extraction throughput is thin here. Mineral Refinery will strengthen industrial output.",
        );
        push_step(
            candidates,
            (y.nutrients <= 6 || y.minerals <= 6) && !facilities_contain(&base.facilities, F::RecyclingTanks) && self.can_build(owner, P::RecyclingTanks),
            P::RecyclingTanks,
            63,
            "Core growth and mineral flow are thin. Recycling Tanks will stabilize early economic output.",
        );
        push_step(
            candidates,
            (s.food_margin <= 0 || y.energy <= y.minerals) && facilities_contain(&base.facilities, F::FieldHospital) && !facilities_contain(&base.facilities, F::ResearchHospital) && self.can_build(owner, P::ResearchHospital),
            P::ResearchHospital,
            76,
            "This base needs stronger long-term recovery and research support. Research Hospital will improve healing, growth, and energy output.",
        );
        push_step(
            candidates,
            s.military_pressure >= 2 && !facilities_contain(&base.facilities, F::PerimeterDefense) && self.can_build(owner, P::PerimeterDefense),
            P::PerimeterDefense,
            75,
            "Frontline pressure is high. Perimeter Defense will harden this base immediately.",
        );
        push_step(
            candidates,
            s.military_pressure >= 1 && !facilities_contain(&base.facilities, F::SensorArray) && self.can_build(owner, P::SensorArray),
            P::SensorArray,
            72,
            "Sensor coverage is thin. Sensor Array will strengthen frontier defense and energy output.",
        );
        push_step(
            candidates,
            s.military_pressure >= 1 && s.attack_bias >= 1 && !facilities_contain(&base.facilities, F::TransitHub) && self.can_build(owner, P::TransitHub),
            P::TransitHub,
            71,
            "Fast-response forces need better logistics. Transit Hub will support mobile strike units.",
        );
        push_step(
            candidates,
            s.military_pressure >= 1 && s.attack_bias >= 1 && facilities_contain(&base.facilities, F::TransitHub) && !facilities_contain(&base.facilities, F::ForwardDepot) && self.can_build(owner, P::ForwardDepot),
            P::ForwardDepot,
            70,
            "Mobile forces are active here. Forward Depot will sustain fast-response attacks and repairs.",
        );
    }
    /// Appends the defense, strike and machine-polity steps for `base`.
    fn push_defense_steps(&self, base: &Base, s: GovernorSignals, links: usize, escorts: usize, candidates: &mut Vec<GovernorPlanStep>)
        requires
            base.population < i32::MAX,
            links == self.bases@.filter(trade_partner_of(*base)).len(),
            escorts == self.units@.filter(self.escort_near(*base)).len(),
        ensures
            step_views(final(candidates)@) == self.defense_steps(*base, s, step_views(old(candidates)@)),
    {
        let owner = base.owner;
        let machine = base.governor_mode == GovernorMode::MachinePolity;
        push_step(
            candidates,
            s.military_pressure >= 2 && self.can_build(owner, P::GarrisonGuard),
            P::GarrisonGuard,
            68,
            "A hardened garrison unit would improve local base defense immediately.",
        );
        push_step(
            candidates,
            s.military_pressure >= 2 && self.can_build(owner, P::PsiSentinel),
            P::PsiSentinel,
            67,
            "Psionic defense is available. Psi Sentinel would strengthen hostile-frontier security.",
        );
        push_step(
            candidates,
            s.military_pressure >= 2 && !facilities_contain(&base.facilities, F::MilitaryAcademy) && self.can_build(owner, P::MilitaryAcademy),
            P::MilitaryAcademy,
            70,
            "Frontline pressure is high. Military Academy will field veteran troops faster.",
        );
        push_step(
            candidates,
            s.military_pressure >= 1 && s.attack_bias >= 1 && self.can_build(owner, P::ResonanceLaser),
            P::ResonanceLaser,
            69,
            "Advanced shock infantry is available here. Resonance Laser can anchor breakthroughs and punish exposed attackers.",
        );
        push_step(
            candidates,
            s.military_pressure >= 1 && s.attack_bias >= 1 && self.can_build(owner, P::RaiderSpeeder),
            P::RaiderSpeeder,
            69,
            "Mobile strike pressure fits this doctrine. Raider Speeder can exploit exposed enemy lines quickly.",
        );
        push_step(
            candidates,
            machine && !facilities_contain(&base.facilities, F::MineralRefinery) && self.can_build(owner, P::MineralRefinery),
            P::MineralRefinery,
            110,
            "Machine Polity: Prioritizing raw mineral throughput for industrial dominance.",
        );
        push_step(
            candidates,
            machine && !facilities_contain(&base.facilities, F::TransitHub) && self.can_build(owner, P::TransitHub),
            P::TransitHub,
            105,
            "Machine Polity: Standardizing logistical architecture for efficiency.",
        );
    }

    /// The plan of base `base_id`: no plan without the base, else its proposed steps
    /// ordered by priority, highest first, keeping the proposal order within a priority.
    pub open spec fn governor_plan_spec(self, base_id: usize, s: GovernorSignals) -> Seq<(P, i32, Seq<char>)> {
        match self.base_spec(base_id) {
            Some(b) => by_priority(self.governor_candidates(b, s), plan_priorities().len() as int),
            None => Seq::empty(),
        }
    }

    /// The build plan a governor proposes for base `base_id` under `signals`: morale,
    /// recovery, psionic, support, research, trade, convoy, food, industry and defense
    /// steps, each where the base needs it, can build it and lacks it, plus the machine
    /// polity's industrial steps; highest priority first.
    pub fn base_governor_plan(&self, base_id: usize, signals: GovernorSignals) -> (r: Vec<GovernorPlanStep>)
        requires
            self.base_spec(base_id) matches Some(b) ==> b.population < i32::MAX,
        ensures
            step_views(r@) == self.governor_plan_spec(base_id, signals),
    {
        let base = match self.base(base_id) {
            Some(b) => b,
            None => return Vec::new(),
        };
        let links = self.base_potential_trade_links(base_id);
        let escorts = self.base_convoy_escort_count(base_id);
        let mut candidates: Vec<GovernorPlanStep> = Vec::new();
        assert(step_views(candidates@) =~= Seq::<(P, i32, Seq<char>)>::empty());
        self.push_recovery_steps(base, signals, links, escorts, &mut candidates);
        self.push_support_steps(base, signals, links, escorts, &mut candidates);
        self.push_economy_steps(base, signals, links, escorts, &mut candidates);
        self.push_defense_steps(base, signals, links, escorts, &mut candidates);
        order_by_priority(&candidates)
    }
}

/// The steps of `c` by priority, highest first, keeping their order within a priority.
fn order_by_priority(c: &Vec<GovernorPlanStep>) -> (r: Vec<GovernorPlanStep>)
    ensures
        step_views(r@) == by_priority(step_views(c@), plan_priorities().len() as int),
{
    let priorities: [i32; 22] = [110, 105, 100, 92, 91, 90, 89, 88, 87, 80, 76, 75, 72, 71, 70, 69, 68, 67, 66, 65, 64, 63];
    let ghost cv = step_views(c@);
    let mut out: Vec<GovernorPlanStep> = Vec::new();
    let mut n: usize = 0;
    while n < 22
        invariant
            n <= 22,
            priorities@ == plan_priorities(),
            cv == step_views(c@),
            step_views(out@) == by_priority(cv, n as int),
        decreases 22 - n,
    {
        let p = priorities[n];
        let ghost before = by_priority(cv, n as int);
        let mut j: usize = 0;
        while j < c.len()
            invariant
                j <= c@.len(),
                cv == step_views(c@),
                p == plan_priorities()[n as int],
                step_views(out@) == before + cv.take(j as int).filter(with_priority(p)),
            decreases c@.len() - j,
        {
            proof {
                assert(cv.take(j + 1) =~= cv.take(j as int).push(cv[j as int]));
                cv.take(j as int).lemma_filter_push(cv[j as int], with_priority(p));
            }
            if c[j].priority == p {
                let step = GovernorPlanStep { item: c[j].item, priority: c[j].priority, reason: c[j].reason.clone() };
                assert(step_view(step) == cv[j as int]);
                let ghost prior = out@;
                out.push(step);
                assert(step_views(out@) =~= step_views(prior).push(step_view(step)));
                assert(step_views(out@) =~= before + cv.take(j + 1).filter(with_priority(p)));
            } else {
                assert(step_views(out@) =~= before + cv.take(j + 1).filter(with_priority(p)));
            }
            j += 1;
        }
        assert(cv.take(c@.len() as int) =~= cv);
        n += 1;
    }
    out
}

/// The locked recommendation of a base names an item its owner cannot build yet, for
/// lacking exactly the named technology, and never a facility the base already has; a
/// missing base has none.
pub proof fn law_locked_recommendation_sound(state: GameState, base_id: usize, signals: GovernorSignals)
    ensures
        state.base_spec(base_id) is None ==> state.locked_recommendation_spec(base_id, signals) is None,
        state.locked_recommendation_spec(base_id, signals) matches Some(e) ==> state.base_spec(base_id) matches Some(b) && {
            &&& state.missing_tech_spec(b.owner, e.0) == Some(e.1)
            &&& !state.production_available_spec(b.owner, e.0)
            &&& e.0.facility_of() matches Some(f) ==> !b.facilities@.contains(f)
        },
{
    if let Some(b) = state.base_spec(base_id) {
        state.lemma_locked_candidates_sound(b, signals);
        let c = state.locked_candidates(b, signals);
        if c.len() > 0 {
            state.lemma_locked_entry(b, c[0]);
        }
    }
}

/// A locked recommendation as the contracts see it.
pub open spec fn locked_views(v: Seq<(P, Tech, String)>) -> Seq<(P, Tech, Seq<char>)> {
    v.map_values(|e: (P, Tech, String)| (e.0, e.1, e.2@))
}

/// Appends `item` with the technology it waits for when `cond` holds and a technology is
/// missing.
fn push_locked(found: &mut Vec<(P, Tech, String)>, cond: bool, item: P, missing: Option<Tech>, reason: &str)
    ensures
        locked_views(final(found)@) == locked_views(old(found)@) + (if cond && missing is Some {
            seq![(item, missing->0, reason@)]
        } else {
            Seq::empty()
        }),
{
    let ghost prior = found@;
    if cond {
        match missing {
            Some(t) => {
                found.push((item, t, owned(reason)));
                assert(locked_views(found@) =~= locked_views(prior).push((item, t, reason@)));
                assert(locked_views(found@) =~= locked_views(prior) + seq![(item, t, reason@)]);
            },
            None => {
                assert(locked_views(found@) =~= locked_views(prior) + Seq::empty());
            },
        }
    } else {
        assert(locked_views(found@) =~= locked_views(prior) + Seq::empty());
    }
}

impl GameState {
    /// The technology `owner` still lacks for `item`, kept folded while the rules are
    /// weighed.
    #[verifier::opaque]
    pub open spec fn lacking(self, owner: usize, item: P) -> Option<Tech> {
        self.missing_tech_spec(owner, item)
    }

    /// The technology `owner` still lacks for `item`.
    fn lacking_tech(&self, owner: usize, item: P) -> (r: Option<Tech>)
        ensures
            r == self.lacking(owner, item),
    {
        proof {
            reveal(GameState::lacking);
        }
        self.missing_required_tech_for_item(owner, item)
    }

    /// `item` with the technology it waits for, when `cond` holds and `owner` lacks one.
    pub open spec fn locked_if(self, owner: usize, cond: bool, item: P, reason: Seq<char>) -> Seq<(P, Tech, Seq<char>)> {
        if cond && self.lacking(owner, item) is Some {
            seq![(item, self.lacking(owner, item)->0, reason)]
        } else {
            Seq::empty()
        }
    }

    /// Every entry of `v` names an item whose owner lacks exactly the entry's technology
    /// for it, and a facility item names a facility `b` lacks.
    pub open spec fn locked_sound(self, b: Base, v: Seq<(P, Tech, Seq<char>)>) -> bool {
        forall|k: int| 0 <= k < v.len() ==> {
            let e = #[trigger] v[k];
            &&& self.lacking(b.owner, e.0) == Some(e.1)
            &&& e.0.facility_of() matches Some(f) ==> !b.facilities@.contains(f)
        }
    }

    /// Joining sound lists, and a rule that checks its facility is missing, keep soundness.
    proof fn lemma_locked_pieces_sound(self, b: Base)
        ensures
            forall|x: Seq<(P, Tech, Seq<char>)>, y: Seq<(P, Tech, Seq<char>)>|
                self.locked_sound(b, x) && self.locked_sound(b, y) ==> #[trigger] self.locked_sound(b, x + y),
            forall|cond: bool, item: P, reason: Seq<char>|
                (cond && item.facility_of() is Some ==> !b.facilities@.contains(item.facility_of()->0))
                    ==> #[trigger] self.locked_sound(b, self.locked_if(b.owner, cond, item, reason)),
    {
        assert forall|x: Seq<(P, Tech, Seq<char>)>, y: Seq<(P, Tech, Seq<char>)>|
            self.locked_sound(b, x) && self.locked_sound(b, y) implies #[trigger] self.locked_sound(b, x + y) by {
            assert forall|k: int| 0 <= k < (x + y).len() implies {
                let e = #[trigger] (x + y)[k];
                &&& self.lacking(b.owner, e.0) == Some(e.1)
                &&& e.0.facility_of() matches Some(f) ==> !b.facilities@.contains(f)
            } by {
                if k < x.len() {
                    assert((x + y)[k] == x[k]);
                } else {
                    assert((x + y)[k] == y[k - x.len()]);
                }
            }
        }
    }

    #[verifier::spinoff_prover]
    #[verifier::rlimit(60)]
    proof fn lemma_locked_recovery_sound(self, b: Base, s: GovernorSignals, pre: Seq<(P, Tech, Seq<char>)>)
        requires
            self.locked_sound(b, pre),
        ensures
            self.locked_sound(b, self.locked_recovery(b, s, pre)),
    {
        self.lemma_locked_pieces_sound(b);
    }

    #[verifier::spinoff_prover]
    #[verifier::rlimit(60)]
    proof fn lemma_locked_support_sound(self, b: Base, s: GovernorSignals, pre: Seq<(P, Tech, Seq<char>)>)
        requires
            self.locked_sound(b, pre),
        ensures
            self.locked_sound(b, self.locked_support(b, s, pre)),
    {
        self.lemma_locked_pieces_sound(b);
    }

    #[verifier::spinoff_prover]
    #[verifier::rlimit(60)]
    proof fn lemma_locked_economy_sound(self, b: Base, s: GovernorSignals, pre: Seq<(P, Tech, Seq<char>)>)
        requires
            self.locked_sound(b, pre),
        ensures
            self.locked_sound(b, self.locked_economy(b, s, pre)),
    {
        self.lemma_locked_pieces_sound(b);
    }

    #[verifier::spinoff_prover]
    #[verifier::rlimit(60)]
    proof fn lemma_locked_defense_sound(self, b: Base, s: GovernorSignals, pre: Seq<(P, Tech, Seq<char>)>)
        requires
            self.locked_sound(b, pre),
        ensures
            self.locked_sound(b, self.locked_defense(b, s, pre)),
    {
        self.lemma_locked_pieces_sound(b);
    }

    /// Every locked candidate of base `b` is sound.
    proof fn lemma_locked_candidates_sound(self, b: Base, s: GovernorSignals)
        ensures
            self.locked_sound(b, self.locked_candidates(b, s)),
    {
        let e = Seq::<(P, Tech, Seq<char>)>::empty();
        assert(self.locked_sound(b, e));
        self.lemma_locked_recovery_sound(b, s, e);
        let r1 = self.locked_recovery(b, s, e);
        self.lemma_locked_support_sound(b, s, r1);
        let r2 = self.locked_support(b, s, r1);
        self.lemma_locked_economy_sound(b, s, r2);
        let r3 = self.locked_economy(b, s, r2);
        self.lemma_locked_defense_sound(b, s, r3);
    }

    /// An item whose owner lacks the technology it needs cannot be built.
    proof fn lemma_locked_entry(self, b: Base, e: (P, Tech, Seq<char>))
        requires
            self.lacking(b.owner, e.0) == Some(e.1),
        ensures
            self.missing_tech_spec(b.owner, e.0) == Some(e.1),
            !self.production_available_spec(b.owner, e.0),
    {
        reveal(GameState::lacking);
    }

    /// The recovery rules a governor of base `b` finds locked, in order.
    pub open spec fn locked_recovery(self, b: Base, s: GovernorSignals, pre: Seq<(P, Tech, Seq<char>)>) -> Seq<(P, Tech, Seq<char>)> {
        let y = s.yields;
        let links = self.bases@.filter(trade_partner_of(b)).len();
        let escorts = self.units@.filter(self.escort_near(b)).len();
        pre
            + self.locked_if(
                b.owner,
                s.unrest > 0 && !b.facilities@.contains(F::RecreationCommons),
                P::RecreationCommons,
                "Unrest is reducing output here. Recreation Commons would stabilize the base once unlocked."@,
            )
            + self.locked_if(
                b.owner,
                s.damaged_garrisons > 0 && !b.facilities@.contains(F::FieldHospital),
                P::FieldHospital,
                "Damaged garrisons are rotating through this base. Field Hospital would speed recovery once unlocked."@,
            )
            + self.locked_if(
                b.owner,
                (s.unrest > 0 || y.energy <= y.minerals) && b.facilities@.contains(F::RecreationCommons) && !b.facilities@.contains(F::HologramTheatre),
                P::HologramTheatre,
                "Morale infrastructure is already online here. Hologram Theatre would deepen unrest control and improve energy flow once unlocked."@,
            )
            + self.locked_if(
                b.owner,
                s.damaged_garrisons > 0 && b.facilities@.contains(F::FieldHospital) && !b.facilities@.contains(F::ResearchHospital),
                P::ResearchHospital,
                "Recovery infrastructure is already active here. Research Hospital would accelerate healing, growth, and scientific output once unlocked."@,
            )
            + self.locked_if(
                b.owner,
                s.psi_pressure >= 2,
                P::PsiSentinel,
                "Psionic threats are nearby. Psi Sentinel would harden this base once unlocked."@,
            )
            + self.locked_if(
                b.owner,
                s.psi_pressure >= 1 && !b.facilities@.contains(F::PsiBeacon),
                P::PsiBeacon,
                "Psi pressure is building here. Psi Beacon would strengthen local resilience once unlocked."@,
            )
    }

    /// The support rules a governor of base `b` finds locked, in order.
    pub open spec fn locked_support(self, b: Base, s: GovernorSignals, pre: Seq<(P, Tech, Seq<char>)>) -> Seq<(P, Tech, Seq<char>)> {
        let y = s.yields;
        let links = self.bases@.filter(trade_partner_of(b)).len();
        let escorts = self.units@.filter(self.escort_near(b)).len();
        pre
            + self.locked_if(
                b.owner,
                (s.military_pressure >= 1 || s.psi_pressure >= 1 || s.damaged_garrisons > 0) && (b.facilities@.contains(F::PsiBeacon) || b.facilities@.contains(F::MilitaryAcademy) || b.facilities@.contains(F::FieldHospital)) && !b.facilities@.contains(F::BioenhancementCenter),
                P::BioenhancementCenter,
                "This base already has frontline support infrastructure. Bioenhancement Center would improve training and resilience once unlocked."@,
            )
            + self.locked_if(
                b.owner,
                s.unit_upkeep > 0 && !b.facilities@.contains(F::CommandCenter),
                P::CommandCenter,
                "Support pressure is rising. Command Center would improve support and training once unlocked."@,
            )
            + self.locked_if(
                b.owner,
                y.energy <= y.minerals && !b.facilities@.contains(F::NetworkNode),
                P::NetworkNode,
                "Research and energy output are lagging. Network Node would improve knowledge flow once unlocked."@,
            )
            + self.locked_if(
                b.owner,
                links >= 1 && !b.facilities@.contains(F::TradeExchange),
                P::TradeExchange,
                "Nearby friendly bases can support trade here. Trade Exchange would convert that network once unlocked."@,
            )
            + self.locked_if(
                b.owner,
                links >= 1 && escorts == 0 && (s.military_pressure >= 1 || s.psi_pressure >= 1 || s.convoy_lanes_threatened),
                P::EscortSpeeder,
                "Local convoy lanes are exposed. Escort Speeder would add mobile defense once unlocked."@,
            )
            + self.locked_if(
                b.owner,
                links >= 1 && !b.facilities@.contains(F::PatrolGrid) && (s.military_pressure >= 1 || s.psi_pressure >= 1),
                P::PatrolGrid,
                "Convoy routes here need protection. Patrol Grid would reduce disruption once unlocked."@,
            )
    }

    /// The economy rules a governor of base `b` finds locked, in order.
    pub open spec fn locked_economy(self, b: Base, s: GovernorSignals, pre: Seq<(P, Tech, Seq<char>)>) -> Seq<(P, Tech, Seq<char>)> {
        let y = s.yields;
        let links = self.bases@.filter(trade_partner_of(b)).len();
        let escorts = self.units@.filter(self.escort_near(b)).len();
        pre
            + self.locked_if(
                b.owner,
                links >= 1 && !b.facilities@.contains(F::FreightDepot) && (b.facilities@.contains(F::TradeExchange) || y.minerals <= y.energy),
                P::FreightDepot,
                "Friendly bases can support freight flow here. Freight Depot would improve mineral throughput once unlocked."@,
            )
            + self.locked_if(
                b.owner,
                y.nutrients <= (if b.population > 1 { b.population as int } else { 1 }) + 1 && !b.facilities@.contains(F::Greenhouse),
                P::Greenhouse,
                "Food security is thin here. Greenhouse would improve nutrient flow once unlocked."@,
            )
            + self.locked_if(
                b.owner,
                y.minerals <= 6 && !b.facilities@.contains(F::MineralRefinery),
                P::MineralRefinery,
                "Extraction throughput is thin here. Mineral Refinery would strengthen industry once unlocked."@,
            )
            + self.locked_if(
                b.owner,
                (y.nutrients <= 6 || y.minerals <= 6) && !b.facilities@.contains(F::RecyclingTanks),
                P::RecyclingTanks,
                "Core growth and mineral flow are thin. Recycling Tanks would stabilize output once unlocked."@,
            )
            + self.locked_if(
                b.owner,
                (s.food_margin <= 0 || y.energy <= y.minerals) && b.facilities@.contains(F::FieldHospital) && !b.facilities@.contains(F::ResearchHospital),
                P::ResearchHospital,
                "This base needs stronger long-term recovery and research support. Research Hospital would help once unlocked."@,
            )
            + self.locked_if(
                b.owner,
                s.military_pressure >= 2 && !b.facilities@.contains(F::PerimeterDefense),
                P::PerimeterDefense,
                "Frontline pressure is high. Perimeter Defense would harden this base once unlocked."@,
            )
    }

    /// The defense rules a governor of base `b` finds locked, in order.
    pub open spec fn locked_defense(self, b: Base, s: GovernorSignals, pre: Seq<(P, Tech, Seq<char>)>) -> Seq<(P, Tech, Seq<char>)> {
        let y = s.yields;
        let links = self.bases@.filter(trade_partner_of(b)).len();
        let escorts = self.units@.filter(self.escort_near(b)).len();
        pre
            + self.locked_if(
                b.owner,
                s.military_pressure >= 1 && !b.facilities@.contains(F::SensorArray),
                P::SensorArray,
                "Sensor coverage is thin. Sensor Array would strengthen frontier defense once unlocked."@,
            )
            + self.locked_if(
                b.owner,
                s.military_pressure >= 1 && s.attack_bias >= 1 && !b.facilities@.contains(F::TransitHub),
                P::TransitHub,
                "Fast-response forces need better logistics. Transit Hub would support mobile strikes once unlocked."@,
            )
            + self.locked_if(
                b.owner,
                s.military_pressure >= 1 && s.attack_bias >= 1 && b.facilities@.contains(F::TransitHub) && !b.facilities@.contains(F::ForwardDepot),
                P::ForwardDepot,
                "Mobile forces are active here. Forward Depot would sustain attacks once unlocked."@,
            )
            + self.locked_if(
                b.owner,
                s.military_pressure >= 2 && !b.facilities@.contains(F::MilitaryAcademy),
                P::MilitaryAcademy,
                "Frontline pressure is high. Military Academy would field veteran troops once unlocked."@,
            )
            + self.locked_if(
                b.owner,
                s.military_pressure >= 1 && s.attack_bias >= 1,
                P::ResonanceLaser,
                "Advanced shock infantry would anchor breakthroughs here once unlocked."@,
            )
            + self.locked_if(
                b.owner,
                s.military_pressure >= 1 && s.attack_bias >= 1,
                P::RaiderSpeeder,
                "Mobile strike pressure fits this doctrine. Raider Speeder would exploit exposed lines once unlocked."@,
            )
    }

    /// The locked recommendations of base `b`, in the order a governor weighs them.
    pub open spec fn locked_candidates(self, b: Base, s: GovernorSignals) -> Seq<(P, Tech, Seq<char>)> {
        self.locked_defense(b, s, self.locked_economy(b, s, self.locked_support(b, s, self.locked_recovery(b, s, Seq::empty()))))
    }

    /// The first step base `base_id` needs but cannot build for a missing technology.
    pub open spec fn locked_recommendation_spec(self, base_id: usize, s: GovernorSignals) -> Option<(P, Tech, Seq<char>)> {
        match self.base_spec(base_id) {
            Some(b) => {
                let c = self.locked_candidates(b, s);
                if c.len() > 0 {
                    Some(c[0])
                } else {
                    None
                }
            },
            None => None,
        }
    }

    /// Appends the recovery rules that find their item locked for `base`.
    fn push_locked_recovery(&self, base: &Base, s: GovernorSignals, links: usize, escorts: usize, found: &mut Vec<(P, Tech, String)>)
        requires
            base.population < i32::MAX,
            links == self.bases@.filter(trade_partner_of(*base)).len(),
            escorts == self.units@.filter(self.escort_near(*base)).len(),
        ensures
            locked_views(final(found)@) == self.locked_recovery(*base, s, locked_views(old(found)@)),
    {
        let y = s.yields;
        let owner = base.owner;
        push_locked(
            found,
            s.unrest > 0 && !facilities_contain(&base.facilities, F::RecreationCommons),
            P::RecreationCommons,
            self.lacking_tech(owner, P::RecreationCommons),
            "Unrest is reducing output here. Recreation Commons would stabilize the base once unlocked.",
        );
        push_locked(
            found,
            s.damaged_garrisons > 0 && !facilities_contain(&base.facilities, F::FieldHospital),
            P::FieldHospital,
            self.lacking_tech(owner, P::FieldHospital),
            "Damaged garrisons are rotating through this base. Field Hospital would speed recovery once unlocked.",
        );
        push_locked(
            found,
            (s.unrest > 0 || y.energy <= y.minerals) && facilities_contain(&base.facilities, F::RecreationCommons) && !facilities_contain(&base.facilities, F::HologramTheatre),
            P::HologramTheatre,
            self.lacking_tech(owner, P::HologramTheatre),
            "Morale infrastructure is already online here. Hologram Theatre would deepen unrest control and improve energy flow once unlocked.",
        );
        push_locked(
            found,
            s.damaged_garrisons > 0 && facilities_contain(&base.facilities, F::FieldHospital) && !facilities_contain(&base.facilities, F::ResearchHospital),
            P::ResearchHospital,
            self.lacking_tech(owner, P::ResearchHospital),
            "Recovery infrastructure is already active here. Research Hospital would accelerate healing, growth, and scientific output once unlocked.",
        );
        push_locked(
            found,
            s.psi_pressure >= 2,
            P::PsiSentinel,
            self.lacking_tech(owner, P::PsiSentinel),
            "Psionic threats are nearby. Psi Sentinel would harden this base once unlocked.",
        );
        push_locked(
            found,
            s.psi_pressure >= 1 && !facilities_contain(&base.facilities, F::PsiBeacon),
            P::PsiBeacon,
            self.lacking_tech(owner, P::PsiBeacon),
            "Psi pressure is building here. Psi Beacon would strengthen local resilience once unlocked.",
        );
    }

    /// Appends the support rules that find their item locked for `base`.
    fn push_locked_support(&self, base: &Base, s: GovernorSignals, links: usize, escorts: usize, found: &mut Vec<(P, Tech, String)>)
        requires
            base.population < i32::MAX,
            links == self.bases@.filter(trade_partner_of(*base)).len(),
            escorts == self.units@.filter(self.escort_near(*base)).len(),
        ensures
            locked_views(final(found)@) == self.locked_support(*base, s, locked_views(old(found)@)),
    {
        let y = s.yields;
        let owner = base.owner;
        push_locked(
            found,
            (s.military_pressure >= 1 || s.psi_pressure >= 1 || s.damaged_garrisons > 0) && (facilities_contain(&base.facilities, F::PsiBeacon) || facilities_contain(&base.facilities, F::MilitaryAcademy) || facilities_contain(&base.facilities, F::FieldHospital)) && !facilities_contain(&base.facilities, F::BioenhancementCenter),
            P::BioenhancementCenter,
            self.lacking_tech(owner, P::BioenhancementCenter),
            "This base already has frontline support infrastructure. Bioenhancement Center would improve training and resilience once unlocked.",
        );
        push_locked(
            found,
            s.unit_upkeep > 0 && !facilities_contain(&base.facilities, F::CommandCenter),
            P::CommandCenter,
            self.lacking_tech(owner, P::CommandCenter),
            "Support pressure is rising. Command Center would improve support and training once unlocked.",
        );
        push_locked(
            found,
            y.energy <= y.minerals && !facilities_contain(&base.facilities, F::NetworkNode),
            P::NetworkNode,
            self.lacking_tech(owner, P::NetworkNode),
            "Research and energy output are lagging. Network Node would improve knowledge flow once unlocked.",
        );
        push_locked(
            found,
            links >= 1 && !facilities_contain(&base.facilities, F::TradeExchange),
            P::TradeExchange,
            self.lacking_tech(owner, P::TradeExchange),
            "Nearby friendly bases can support trade here. Trade Exchange would convert that network once unlocked.",
        );
        push_locked(
            found,
            links >= 1 && escorts == 0 && (s.military_pressure >= 1 || s.psi_pressure >= 1 || s.convoy_lanes_threatened),
            P::EscortSpeeder,
            self.lacking_tech(owner, P::EscortSpeeder),
            "Local convoy lanes are exposed. Escort Speeder would add mobile defense once unlocked.",
        );
        push_locked(
            found,
            links >= 1 && !facilities_contain(&base.facilities, F::PatrolGrid) && (s.military_pressure >= 1 || s.psi_pressure >= 1),
            P::PatrolGrid,
            self.lacking_tech(owner, P::PatrolGrid),
            "Convoy routes here need protection. Patrol Grid would reduce disruption once unlocked.",
        );
    }

    /// Appends the economy rules that find their item locked for `base`.
    fn push_locked_economy(&self, base: &Base, s: GovernorSignals, links: usize, escorts: usize, found: &mut Vec<(P, Tech, String)>)
        requires
            base.population < i32::MAX,
            links == self.bases@.filter(trade_partner_of(*base)).len(),
            escorts == self.units@.filter(self.escort_near(*base)).len(),
        ensures
            locked_views(final(found)@) == self.locked_economy(*base, s, locked_views(old(found)@)),
    {
        let y = s.yields;
        let owner = base.owner;
        let pop: i32 = if base.population > 1 { base.population } else { 1 };
        push_locked(
            found,
            links >= 1 && !facilities_contain(&base.facilities, F::FreightDepot) && (facilities_contain(&base.facilities, F::TradeExchange) || y.minerals <= y.energy),
            P::FreightDepot,
            self.lacking_tech(owner, P::FreightDepot),
            "Friendly bases can support freight flow here. Freight Depot would improve mineral throughput once unlocked.",
        );
        push_locked(
            found,
            y.nutrients <= pop + 1 && !facilities_contain(&base.facilities, F::Greenhouse),
            P::Greenhouse,
            self.lacking_tech(owner, P::Greenhouse),
            "Food security is thin here. Greenhouse would improve nutrient flow once unlocked.",
        );
        push_locked(
            found,
            y.minerals <= 6 && !facilities_contain(&base.facilities, F::MineralRefinery),
            P::MineralRefinery,
            self.lacking_tech(owner, P::MineralRefinery),
            "Extraction throughput is thin here. Mineral Refinery would strengthen industry once unlocked.",
        );
        push_locked(
            found,
            (y.nutrients <= 6 || y.minerals <= 6) && !facilities_contain(&base.facilities, F::RecyclingTanks),
            P::RecyclingTanks,
            self.lacking_tech(owner, P::RecyclingTanks),
            "Core growth and mineral flow are thin. Recycling Tanks would stabilize output once unlocked.",
        );
        push_locked(
            found,
            (s.food_margin <= 0 || y.energy <= y.minerals) && facilities_contain(&base.facilities, F::FieldHospital) && !facilities_contain(&base.facilities, F::ResearchHospital),
            P::ResearchHospital,
            self.lacking_tech(owner, P::ResearchHospital),
            "This base needs stronger long-term recovery and research support. Research Hospital would help once unlocked.",
        );
        push_locked(
            found,
            s.military_pressure >= 2 && !facilities_contain(&base.facilities, F::PerimeterDefense),
            P::PerimeterDefense,
            self.lacking_tech(owner, P::PerimeterDefense),
            "Frontline pressure is high. Perimeter Defense would harden this base once unlocked.",
        );
    }

    /// Appends the defense rules that find their item locked for `base`.
    fn push_locked_defense(&self, base: &Base, s: GovernorSignals, links: usize, escorts: usize, found: &mut Vec<(P, Tech, String)>)
        requires
            base.population < i32::MAX,
            links == self.bases@.filter(trade_partner_of(*base)).len(),
            escorts == self.units@.filter(self.escort_near(*base)).len(),
        ensures
            locked_views(final(found)@) == self.locked_defense(*base, s, locked_views(old(found)@)),
    {
        let owner = base.owner;
        push_locked(
            found,
            s.military_pressure >= 1 && !facilities_contain(&base.facilities, F::SensorArray),
            P::SensorArray,
            self.lacking_tech(owner, P::SensorArray),
            "Sensor coverage is thin. Sensor Array would strengthen frontier defense once unlocked.",
        );
        push_locked(
            found,
            s.military_pressure >= 1 && s.attack_bias >= 1 && !facilities_contain(&base.facilities, F::TransitHub),
            P::TransitHub,
            self.lacking_tech(owner, P::TransitHub),
            "Fast-response forces need better logistics. Transit Hub would support mobile strikes once unlocked.",
        );
        push_locked(
            found,
            s.military_pressure >= 1 && s.attack_bias >= 1 && facilities_contain(&base.facilities, F::TransitHub) && !facilities_contain(&base.facilities, F::ForwardDepot),
            P::ForwardDepot,
            self.lacking_tech(owner, P::ForwardDepot),
            "Mobile forces are active here. Forward Depot would sustain attacks once unlocked.",
        );
        push_locked(
            found,
            s.military_pressure >= 2 && !facilities_contain(&base.facilities, F::MilitaryAcademy),
            P::MilitaryAcademy,
            self.lacking_tech(owner, P::MilitaryAcademy),
            "Frontline pressure is high. Military Academy would field veteran troops once unlocked.",
        );
        push_locked(
            found,
            s.military_pressure >= 1 && s.attack_bias >= 1,
            P::ResonanceLaser,
            self.lacking_tech(owner, P::ResonanceLaser),
            "Advanced shock infantry would anchor breakthroughs here once unlocked.",
        );
        push_locked(
            found,
            s.military_pressure >= 1 && s.attack_bias >= 1,
            P::RaiderSpeeder,
            self.lacking_tech(owner, P::RaiderSpeeder),
            "Mobile strike pressure fits this doctrine. Raider Speeder would exploit exposed lines once unlocked.",
        );
    }

    /// The first step the governor of base `base_id` would take under `signals` but cannot,
    /// because its owner lacks the technology: the item, that technology, and why.
    pub fn base_governor_locked_recommendation(&self, base_id: usize, signals: GovernorSignals) -> (r: Option<(P, Tech, String)>)
        requires
            self.base_spec(base_id) matches Some(b) ==> b.population < i32::MAX,
        ensures
            match r {
                Some((item, tech, reason)) => self.locked_recommendation_spec(base_id, signals) == Some((item, tech, reason@)),
                None => self.locked_recommendation_spec(base_id, signals) is None,
            },
    {
        let base = match self.base(base_id) {
            Some(b) => b,
            None => return None,
        };
        let links = self.base_potential_trade_links(base_id);
        let escorts = self.base_convoy_escort_count(base_id);
        let mut found: Vec<(P, Tech, String)> = Vec::new();
        assert(locked_views(found@) =~= Seq::<(P, Tech, Seq<char>)>::empty());
        self.push_locked_recovery(base, signals, links, escorts, &mut found);
        self.push_locked_support(base, signals, links, escorts, &mut found);
        self.push_locked_economy(base, signals, links, escorts, &mut found);
        self.push_locked_defense(base, signals, links, escorts, &mut found);
        if found.len() == 0 {
            return None;
        }
        let (item, tech, ref reason) = found[0];
        let text = reason.clone();
        assert(locked_views(found@)[0] == (item, tech, text@));
        Some((item, tech, text))
    }
}

} // verus!
