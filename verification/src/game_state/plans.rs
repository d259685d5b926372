//! Build plans drawn from a base governor's proposal: its first recommendation, the
//! items of one focus, and putting such a plan into a base's production.
use crate::game_state::governor::{step_views, GovernorSignals};
use crate::game_state::queue::{log_general, only_logged};
use crate::game_state::production::items_contain;
use crate::game_state::GovernorPlanStep;
use crate::model::{GameState, ProductionItem as P};
use vstd::prelude::*;

verus! {

/// Which items of a governor's proposal a named plan keeps.
#[derive(Clone, Copy, Debug, PartialEq, Eq, Structural)]
pub enum PlanFocus {
    Defense,
    Recovery,
    Economy,
    Logistics,
    Frontline,
}

/// Whether a plan of focus `focus` keeps item `p`.
pub open spec fn in_focus(focus: PlanFocus, p: P) -> bool {
    match focus {
        PlanFocus::Defense => match p {
            P::PerimeterDefense | P::SensorArray | P::GarrisonGuard | P::PsiSentinel | P::PsiBeacon | P::MilitaryAcademy | P::BioenhancementCenter | P::ResonanceLaser => true,
            _ => false,
        },
        PlanFocus::Recovery => match p {
            P::FieldHospital | P::ResearchHospital | P::BioenhancementCenter | P::CommandCenter | P::RecreationCommons | P::PsiBeacon | P::PsiSentinel | P::GarrisonGuard | P::EscortSpeeder => true,
            _ => false,
        },
        PlanFocus::Economy => match p {
            P::RecreationCommons | P::HologramTheatre | P::Greenhouse | P::MineralRefinery | P::TradeExchange | P::FreightDepot | P::PatrolGrid | P::RecyclingTanks | P::ResearchHospital | P::NetworkNode | P::CommandCenter => true,
            _ => false,
        },
        PlanFocus::Logistics => match p {
            P::TradeExchange | P::FreightDepot | P::CommandCenter | P::FieldHospital | P::PatrolGrid | P::TransitHub | P::ForwardDepot | P::EscortSpeeder | P::SensorArray | P::NetworkNode => true,
            _ => false,
        },
        PlanFocus::Frontline => match p {
            P::PerimeterDefense | P::SensorArray | P::TransitHub | P::ForwardDepot | P::PsiBeacon | P::BioenhancementCenter | P::GarrisonGuard | P::EscortSpeeder | P::RaiderSpeeder | P::ResonanceLaser | P::PsiSentinel | P::MilitaryAcademy => true,
            _ => false,
        },
    }
}

/// Whether a plan of focus `focus` keeps item `p`.
fn item_in_focus(focus: PlanFocus, p: P) -> (r: bool)
    ensures
        r == in_focus(focus, p),
{
    match focus {
        PlanFocus::Defense => match p {
            P::PerimeterDefense | P::SensorArray | P::GarrisonGuard | P::PsiSentinel | P::PsiBeacon | P::MilitaryAcademy | P::BioenhancementCenter | P::ResonanceLaser => true,
            _ => false,
        },
        PlanFocus::Recovery => match p {
            P::FieldHospital | P::ResearchHospital | P::BioenhancementCenter | P::CommandCenter | P::RecreationCommons | P::PsiBeacon | P::PsiSentinel | P::GarrisonGuard | P::EscortSpeeder => true,
            _ => false,
        },
        PlanFocus::Economy => match p {
            P::RecreationCommons | P::HologramTheatre | P::Greenhouse | P::MineralRefinery | P::TradeExchange | P::FreightDepot | P::PatrolGrid | P::RecyclingTanks | P::ResearchHospital | P::NetworkNode | P::CommandCenter => true,
            _ => false,
        },
        PlanFocus::Logistics => match p {
            P::TradeExchange | P::FreightDepot | P::CommandCenter | P::FieldHospital | P::PatrolGrid | P::TransitHub | P::ForwardDepot | P::EscortSpeeder | P::SensorArray | P::NetworkNode => true,
            _ => false,
        },
        PlanFocus::Frontline => match p {
            P::PerimeterDefense | P::SensorArray | P::TransitHub | P::ForwardDepot | P::PsiBeacon | P::BioenhancementCenter | P::GarrisonGuard | P::EscortSpeeder | P::RaiderSpeeder | P::ResonanceLaser | P::PsiSentinel | P::MilitaryAcademy => true,
            _ => false,
        },
    }
}

/// The items of plan steps, in order.
pub open spec fn plan_item_seq(c: Seq<(P, i32, Seq<char>)>) -> Seq<P> {
    c.map_values(|e: (P, i32, Seq<char>)| e.0)
}

/// The items of the first `n` steps of `c` (all of them where there are no more).
pub open spec fn first_items(c: Seq<(P, i32, Seq<char>)>, n: nat) -> Seq<P> {
    if plan_item_seq(c).len() <= n {
        plan_item_seq(c)
    } else {
        plan_item_seq(c).take(n as int)
    }
}

/// Matches the plan steps whose item a plan of focus `focus` keeps.
pub open spec fn focus_filter(focus: PlanFocus) -> spec_fn((P, i32, Seq<char>)) -> bool {
    |e: (P, i32, Seq<char>)| in_focus(focus, e.0)
}

/// The first `n` items of `plan` that a plan of focus `focus` keeps, in plan order.
pub open spec fn focus_plan_items(plan: Seq<(P, i32, Seq<char>)>, focus: PlanFocus, n: nat) -> Seq<P> {
    first_items(plan.filter(focus_filter(focus)), n)
}

/// Taking one more step into account adds its item while fewer than `n` are taken.
proof fn lemma_first_items_push(f: Seq<(P, i32, Seq<char>)>, e: (P, i32, Seq<char>), n: nat)
    ensures
        first_items(f, n).len() == if f.len() < n { f.len() } else { n },
        first_items(f.push(e), n) == if f.len() < n {
            first_items(f, n).push(e.0)
        } else {
            first_items(f, n)
        },
{
    let items = plan_item_seq(f);
    assert(plan_item_seq(f.push(e)) =~= items.push(e.0));
    if f.len() >= n {
        assert(items.push(e.0).take(n as int) =~= first_items(f, n));
    }
}

/// The first `max_steps` items of `plan` that a plan of focus `focus` keeps.
fn focus_items(plan: &Vec<GovernorPlanStep>, focus: PlanFocus, max_steps: usize) -> (r: Vec<P>)
    ensures
        r@ == focus_plan_items(step_views(plan@), focus, max_steps as nat),
{
    let ghost pv = step_views(plan@);
    let mut out: Vec<P> = Vec::new();
    let mut i: usize = 0;
    assert(pv.take(0).filter(focus_filter(focus)) =~= Seq::<(P, i32, Seq<char>)>::empty());
    assert(plan_item_seq(Seq::<(P, i32, Seq<char>)>::empty()) =~= Seq::<P>::empty());
    while i < plan.len()
        invariant
            i <= plan@.len(),
            pv == step_views(plan@),
            out@ == first_items(pv.take(i as int).filter(focus_filter(focus)), max_steps as nat),
        decreases plan@.len() - i,
    {
        let ghost f = pv.take(i as int).filter(focus_filter(focus));
        proof {
            assert(pv.take(i + 1) =~= pv.take(i as int).push(pv[i as int]));
            pv.take(i as int).lemma_filter_push(pv[i as int], focus_filter(focus));
            lemma_first_items_push(f, pv[i as int], max_steps as nat);
        }
        let item = plan[i].item;
        assert(pv[i as int].0 == item);
        if item_in_focus(focus, item) && out.len() < max_steps {
            out.push(item);
        }
        i += 1;
    }
    assert(pv.take(plan@.len() as int) =~= pv);
    out
}

/// The items a governor queue takes from `plan`, in plan order: each item that is neither
/// the current production `current`, nor already in `queued`, nor taken before, until `n`
/// are taken.
pub open spec fn queue_pick(plan: Seq<(P, i32, Seq<char>)>, current: P, queued: Seq<P>, n: nat) -> Seq<P>
    decreases plan.len(),
{
    if plan.len() == 0 {
        Seq::empty()
    } else {
        let prev = queue_pick(plan.drop_last(), current, queued, n);
        let item = plan.last().0;
        if prev.len() >= n || item == current || queued.contains(item) || prev.contains(item) {
            prev
        } else {
            prev.push(item)
        }
    }
}

/// The governor queue items of `plan` for base `base_id`: none without the base.
pub open spec fn governor_queue_spec(state: GameState, base_id: usize, plan: Seq<(P, i32, Seq<char>)>, n: nat) -> Seq<P> {
    match state.base_spec(base_id) {
        Some(b) => queue_pick(plan, b.production, b.production_queue@, n),
        None => Seq::empty(),
    }
}

/// The items a governor queue takes from `plan` at a base producing `current` with
/// `queued` waiting.
fn pick_queue_items(plan: &Vec<GovernorPlanStep>, current: P, queued: &Vec<P>, max_steps: usize) -> (r: Vec<P>)
    ensures
        r@ == queue_pick(step_views(plan@), current, queued@, max_steps as nat),
{
    let ghost pv = step_views(plan@);
    let mut out: Vec<P> = Vec::new();
    let mut i: usize = 0;
    assert(pv.take(0) =~= Seq::<(P, i32, Seq<char>)>::empty());
    while i < plan.len()
        invariant
            i <= plan@.len(),
            pv == step_views(plan@),
            out@ == queue_pick(pv.take(i as int), current, queued@, max_steps as nat),
            out@.len() <= max_steps,
        decreases plan@.len() - i,
    {
        proof {
            assert(pv.take(i + 1).drop_last() =~= pv.take(i as int));
            assert(pv.take(i + 1).last() == pv[i as int]);
        }
        let item = plan[i].item;
        assert(pv[i as int].0 == item);
        if out.len() < max_steps && item != current && !items_contain(queued, item) && !items_contain(&out, item) {
            out.push(item);
        }
        i += 1;
    }
    assert(pv.take(plan@.len() as int) =~= pv);
    out
}

/// The items of a balanced plan for base `base_id` under `s`: under military or psionic
/// pressure the frontline items of the plan; with damaged garrisons the recovery items;
/// with unrest the economy items; with logistics stress the logistics items; otherwise
/// the governor queue items, or failing those one raider (for an owner inclined to attack
/// that can build it) or else one former (where it can be built).
pub open spec fn balanced_items_spec(state: GameState, base_id: usize, s: GovernorSignals, n: nat) -> Seq<P> {
    let plan = state.governor_plan_spec(base_id, s);
    if s.military_pressure >= 2 || s.psi_pressure >= 2 {
        focus_plan_items(plan, PlanFocus::Frontline, n)
    } else if s.damaged_garrisons > 0 {
        focus_plan_items(plan, PlanFocus::Recovery, n)
    } else if s.unrest > 0 {
        focus_plan_items(plan, PlanFocus::Economy, n)
    } else if s.logistics_stress > 0 {
        focus_plan_items(plan, PlanFocus::Logistics, n)
    } else if governor_queue_spec(state, base_id, plan, n).len() > 0 {
        governor_queue_spec(state, base_id, plan, n)
    } else {
        match state.base_spec(base_id) {
            Some(b) => if s.attack_bias >= 1 && state.production_available_spec(b.owner, P::RaiderSpeeder) {
                seq![P::RaiderSpeeder]
            } else if state.production_available_spec(b.owner, P::Former) {
                seq![P::Former]
            } else {
                Seq::empty()
            },
            None => Seq::empty(),
        }
    }
}

/// Step `i` is the first step of `plan` that builds `item`.
pub open spec fn first_step_for(plan: Seq<(P, i32, Seq<char>)>, item: P, i: int) -> bool {
    &&& 0 <= i < plan.len()
    &&& plan[i].0 == item
    &&& forall|j: int| 0 <= j < i ==> #[trigger] plan[j].0 != item
}

/// A focused plan only proposes what it focuses on and what the governor's plan for the
/// base proposes: every item of it is kept by its focus and is the item of some plan step.
pub proof fn law_focus_plan_within_governor_plan(
    state: GameState,
    base_id: usize,
    signals: GovernorSignals,
    focus: PlanFocus,
    n: nat,
    k: int,
)
    requires
        0 <= k < focus_plan_items(state.governor_plan_spec(base_id, signals), focus, n).len(),
    ensures
        in_focus(focus, focus_plan_items(state.governor_plan_spec(base_id, signals), focus, n)[k]),
        exists|i: int|
            0 <= i < state.governor_plan_spec(base_id, signals).len() && #[trigger] state.governor_plan_spec(
                base_id,
                signals,
            )[i].0 == focus_plan_items(state.governor_plan_spec(base_id, signals), focus, n)[k],
{
    let plan = state.governor_plan_spec(base_id, signals);
    let f = plan.filter(focus_filter(focus));
    assert(focus_plan_items(plan, focus, n)[k] == f[k].0);
    plan.filter_lemma(focus_filter(focus));
    crate::seqs::lemma_filter_member(plan, focus_filter(focus), k);
    let i = choose|i: int| 0 <= i < plan.len() && plan[i] == f[k];
    assert(plan[i].0 == f[k].0);
}

/// What reporting the outcome of the named plan `items` does: a refusal of its first item
/// is logged and `false` returned; otherwise the plan is carried out and `true` returned.
pub open spec fn plan_action_applied(
    old: GameState,
    new: GameState,
    base_id: usize,
    items: Seq<P>,
    empty_message: Seq<char>,
    label: Seq<char>,
    r: bool,
) -> bool {
    if items.len() > 0 && old.production_change_refusal(base_id, items[0]) is Some {
        !r && only_logged(
            old,
            new,
            label + " failed to set production: "@ + old.production_change_refusal(base_id, items[0])->0,
        )
    } else {
        r && GameState::named_plan_applied(old, new, base_id, items, empty_message, label, Ok(()))
    }
}

impl GameState {
    /// The first step of the governor's plan for base `base_id`: its item and reason.
    pub fn base_governor_recommendation(&self, base_id: usize, signals: GovernorSignals) -> (r: Option<(P, String)>)
        requires
            self.base_spec(base_id) matches Some(b) ==> b.population < i32::MAX,
        ensures
            match r {
                Some((item, reason)) => {
                    let plan = self.governor_plan_spec(base_id, signals);
                    plan.len() > 0 && plan[0].0 == item && plan[0].2 == reason@
                },
                None => self.governor_plan_spec(base_id, signals).len() == 0,
            },
    {
        let plan = self.base_governor_plan(base_id, signals);
        if plan.len() == 0 {
            return None;
        }
        let reason = plan[0].reason.clone();
        assert(step_views(plan@)[0] == (plan@[0].item, plan@[0].priority, plan@[0].reason@));
        Some((plan[0].item, reason))
    }

    /// Up to `max_steps` items of the governor's plan for base `base_id` that a queue
    /// would add: those that are not the current production, not queued and not taken
    /// before, in plan order; none without the base.
    pub fn base_governor_queue_items(&self, base_id: usize, max_steps: usize, signals: GovernorSignals) -> (r: Vec<P>)
        requires
            self.base_spec(base_id) matches Some(b) ==> b.population < i32::MAX,
        ensures
            r@ == governor_queue_spec(*self, base_id, self.governor_plan_spec(base_id, signals), max_steps as nat),
    {
        let base = match self.base(base_id) {
            Some(b) => b,
            None => return Vec::new(),
        };
        let plan = self.base_governor_plan(base_id, signals);
        pick_queue_items(&plan, base.production, &base.production_queue, max_steps)
    }

    /// Puts the governor queue items of base `base_id` into its production as a named plan.
    pub fn apply_governor_plan_queue(&mut self, base_id: usize, max_steps: usize, signals: GovernorSignals) -> (r: Result<(), String>)
        requires
            old(self).base_spec(base_id) matches Some(b) ==> b.population < i32::MAX,
        ensures
            GameState::named_plan_applied(
                *old(self),
                *final(self),
                base_id,
                governor_queue_spec(*old(self), base_id, old(self).governor_plan_spec(base_id, signals), max_steps as nat),
                "Governor queue had no new items to apply."@,
                "Governor"@,
                r,
            ),
    {
        let items = self.base_governor_queue_items(base_id, max_steps, signals);
        self.apply_named_plan(base_id, items, "Governor queue had no new items to apply.", "Governor")
    }

    /// Puts the governor queue items of base `base_id` into its production, logging why
    /// when it cannot; returns whether it did.
    pub fn apply_governor_plan_queue_action(&mut self, base_id: usize, max_steps: usize, signals: GovernorSignals) -> (r: bool)
        requires
            old(self).base_spec(base_id) matches Some(b) ==> b.population < i32::MAX,
        ensures
            plan_action_applied(
                *old(self),
                *final(self),
                base_id,
                governor_queue_spec(*old(self), base_id, old(self).governor_plan_spec(base_id, signals), max_steps as nat),
                "Governor queue had no new items to apply."@,
                "Governor"@,
                r,
            ),
    {
        match self.apply_governor_plan_queue(base_id, max_steps, signals) {
            Ok(()) => true,
            Err(err) => {
                log_general(self, err);
                false
            },
        }
    }

    /// Up to `max_steps` items of a balanced plan for base `base_id`, chosen by the
    /// pressure the base is under (see `balanced_items_spec`).
    pub fn base_balanced_plan_items(&self, base_id: usize, max_steps: usize, signals: GovernorSignals) -> (r: Vec<P>)
        requires
            self.base_spec(base_id) matches Some(b) ==> b.population < i32::MAX,
        ensures
            r@ == balanced_items_spec(*self, base_id, signals, max_steps as nat),
    {
        if signals.military_pressure >= 2 || signals.psi_pressure >= 2 {
            let plan = self.base_governor_plan(base_id, signals);
            return focus_items(&plan, PlanFocus::Frontline, max_steps);
        }
        if signals.damaged_garrisons > 0 {
            return self.base_recovery_plan_items(base_id, max_steps, signals);
        }
        if signals.unrest > 0 {
            return self.base_economy_plan_items(base_id, max_steps, signals);
        }
        if signals.logistics_stress > 0 {
            return self.base_logistics_plan_items(base_id, max_steps, signals);
        }
        let mut items = self.base_governor_queue_items(base_id, max_steps, signals);
        if items.len() == 0 {
            if let Some(base) = self.base(base_id) {
                if signals.attack_bias >= 1 && self.is_production_available(base.owner, P::RaiderSpeeder) {
                    items.push(P::RaiderSpeeder);
                } else if self.is_production_available(base.owner, P::Former) {
                    items.push(P::Former);
                }
            }
        }
        items
    }

    /// Carries out the balanced plan at base `base_id` as a named plan.
    pub fn apply_balanced_plan(&mut self, base_id: usize, max_steps: usize, signals: GovernorSignals) -> (r: Result<(), String>)
        requires
            old(self).base_spec(base_id) matches Some(b) ==> b.population < i32::MAX,
        ensures
            GameState::named_plan_applied(
                *old(self),
                *final(self),
                base_id,
                balanced_items_spec(*old(self), base_id, signals, max_steps as nat),
                "Balanced governor found no useful changes."@,
                "Balanced governor"@,
                r,
            ),
    {
        let items = self.base_balanced_plan_items(base_id, max_steps, signals);
        self.apply_named_plan(base_id, items, "Balanced governor found no useful changes.", "Balanced governor")
    }

    /// Carries out the balanced plan at base `base_id`, logging why when it cannot;
    /// returns whether it did.
    pub fn apply_balanced_plan_action(&mut self, base_id: usize, max_steps: usize, signals: GovernorSignals) -> (r: bool)
        requires
            old(self).base_spec(base_id) matches Some(b) ==> b.population < i32::MAX,
        ensures
            plan_action_applied(
                *old(self),
                *final(self),
                base_id,
                balanced_items_spec(*old(self), base_id, signals, max_steps as nat),
                "Balanced governor found no useful changes."@,
                "Balanced governor"@,
                r,
            ),
    {
        match self.apply_balanced_plan(base_id, max_steps, signals) {
            Ok(()) => true,
            Err(err) => {
                log_general(self, err);
                false
            },
        }
    }

    /// The priority and reason of the first step of the governor's plan for base
    /// `base_id` that builds `item`, if any step does.
    pub fn base_governor_reason_for_item(&self, base_id: usize, item: P, signals: GovernorSignals) -> (r: Option<(i32, String)>)
        requires
            self.base_spec(base_id) matches Some(b) ==> b.population < i32::MAX,
        ensures
            ({
                let plan = self.governor_plan_spec(base_id, signals);
                match r {
                    Some((priority, reason)) => exists|i: int|
                        #[trigger] first_step_for(plan, item, i) && plan[i].1 == priority && plan[i].2 == reason@,
                    None => forall|j: int| 0 <= j < plan.len() ==> #[trigger] plan[j].0 != item,
                }
            }),
    {
        let plan = self.base_governor_plan(base_id, signals);
        let ghost pv = step_views(plan@);
        let mut i: usize = 0;
        while i < plan.len()
            invariant
                i <= plan@.len(),
                pv == step_views(plan@),
                pv == self.governor_plan_spec(base_id, signals),
                forall|j: int| 0 <= j < i ==> #[trigger] pv[j].0 != item,
            decreases plan@.len() - i,
        {
            assert(pv[i as int] == (plan@[i as int].item, plan@[i as int].priority, plan@[i as int].reason@));
            if plan[i].item == item {
                let reason = plan[i].reason.clone();
                assert(pv[i as int].0 == item && pv[i as int].1 == plan[i as int].priority && pv[i as int].2 == reason@);
                assert(first_step_for(pv, item, i as int));
                return Some((plan[i].priority, reason));
            }
            i += 1;
        }
        None
    }

    /// Carries out the plan of focus `focus` at base `base_id`.
    fn apply_focus_plan(
        &mut self,
        base_id: usize,
        max_steps: usize,
        signals: GovernorSignals,
        focus: PlanFocus,
        empty_message: &str,
        label: &str,
    ) -> (r: Result<(), String>)
        requires
            old(self).base_spec(base_id) matches Some(b) ==> b.population < i32::MAX,
        ensures
            GameState::named_plan_applied(
                *old(self),
                *final(self),
                base_id,
                focus_plan_items(old(self).governor_plan_spec(base_id, signals), focus, max_steps as nat),
                empty_message@,
                label@,
                r,
            ),
    {
        let plan = self.base_governor_plan(base_id, signals);
        let items = focus_items(&plan, focus, max_steps);
        self.apply_named_plan(base_id, items, empty_message, label)
    }

    /// Carries out the plan of focus `focus` at base `base_id`, logging a refusal.
    fn apply_focus_plan_action(
        &mut self,
        base_id: usize,
        max_steps: usize,
        signals: GovernorSignals,
        focus: PlanFocus,
        empty_message: &str,
        label: &str,
    ) -> (r: bool)
        requires
            old(self).base_spec(base_id) matches Some(b) ==> b.population < i32::MAX,
        ensures
            plan_action_applied(
                *old(self),
                *final(self),
                base_id,
                focus_plan_items(old(self).governor_plan_spec(base_id, signals), focus, max_steps as nat),
                empty_message@,
                label@,
                r,
            ),
    {
        match self.apply_focus_plan(base_id, max_steps, signals, focus, empty_message, label) {
            Ok(()) => true,
            Err(err) => {
                log_general(self, err);
                false
            },
        }
    }

    /// The first `max_steps` items of the governor's plan for base `base_id` that a
    /// defense plan keeps: defenses, sensors, garrison and psionic units, the academy and the bioenhancement center.
    pub fn base_defense_plan_items(&self, base_id: usize, max_steps: usize, signals: GovernorSignals) -> (r: Vec<P>)
        requires
            self.base_spec(base_id) matches Some(b) ==> b.population < i32::MAX,
        ensures
            r@ == focus_plan_items(self.governor_plan_spec(base_id, signals), PlanFocus::Defense, max_steps as nat),
    {
        let plan = self.base_governor_plan(base_id, signals);
        focus_items(&plan, PlanFocus::Defense, max_steps)
    }

    /// Carries out the defense plan at base `base_id` as a named plan.
    pub fn apply_defense_plan(&mut self, base_id: usize, max_steps: usize, signals: GovernorSignals) -> (r: Result<(), String>)
        requires
            old(self).base_spec(base_id) matches Some(b) ==> b.population < i32::MAX,
        ensures
            GameState::named_plan_applied(
                *old(self),
                *final(self),
                base_id,
                focus_plan_items(old(self).governor_plan_spec(base_id, signals), PlanFocus::Defense, max_steps as nat),
                "Defense plan had no applicable actions."@,
                "Defense plan"@,
                r,
            ),
    {
        self.apply_focus_plan(base_id, max_steps, signals, PlanFocus::Defense, "Defense plan had no applicable actions.", "Defense plan")
    }

    /// Carries out the defense plan at base `base_id`, logging why when it cannot; returns
    /// whether it did.
    pub fn apply_defense_plan_action(&mut self, base_id: usize, max_steps: usize, signals: GovernorSignals) -> (r: bool)
        requires
            old(self).base_spec(base_id) matches Some(b) ==> b.population < i32::MAX,
        ensures
            plan_action_applied(
                *old(self),
                *final(self),
                base_id,
                focus_plan_items(old(self).governor_plan_spec(base_id, signals), PlanFocus::Defense, max_steps as nat),
                "Defense plan had no applicable actions."@,
                "Defense plan"@,
                r,
            ),
    {
        self.apply_focus_plan_action(base_id, max_steps, signals, PlanFocus::Defense, "Defense plan had no applicable actions.", "Defense plan")
    }

    /// The first `max_steps` items of the governor's plan for base `base_id` that a
    /// recovery plan keeps: hospitals, the bioenhancement and command centers, morale facilities and garrison units.
    pub fn base_recovery_plan_items(&self, base_id: usize, max_steps: usize, signals: GovernorSignals) -> (r: Vec<P>)
        requires
            self.base_spec(base_id) matches Some(b) ==> b.population < i32::MAX,
        ensures
            r@ == focus_plan_items(self.governor_plan_spec(base_id, signals), PlanFocus::Recovery, max_steps as nat),
    {
        let plan = self.base_governor_plan(base_id, signals);
        focus_items(&plan, PlanFocus::Recovery, max_steps)
    }

    /// Carries out the recovery plan at base `base_id` as a named plan.
    pub fn apply_recovery_plan(&mut self, base_id: usize, max_steps: usize, signals: GovernorSignals) -> (r: Result<(), String>)
        requires
            old(self).base_spec(base_id) matches Some(b) ==> b.population < i32::MAX,
        ensures
            GameState::named_plan_applied(
                *old(self),
                *final(self),
                base_id,
                focus_plan_items(old(self).governor_plan_spec(base_id, signals), PlanFocus::Recovery, max_steps as nat),
                "Recovery plan had no applicable actions."@,
                "Recovery plan"@,
                r,
            ),
    {
        self.apply_focus_plan(base_id, max_steps, signals, PlanFocus::Recovery, "Recovery plan had no applicable actions.", "Recovery plan")
    }

    /// Carries out the recovery plan at base `base_id`, logging why when it cannot; returns
    /// whether it did.
    pub fn apply_recovery_plan_action(&mut self, base_id: usize, max_steps: usize, signals: GovernorSignals) -> (r: bool)
        requires
            old(self).base_spec(base_id) matches Some(b) ==> b.population < i32::MAX,
        ensures
            plan_action_applied(
                *old(self),
                *final(self),
                base_id,
                focus_plan_items(old(self).governor_plan_spec(base_id, signals), PlanFocus::Recovery, max_steps as nat),
                "Recovery plan had no applicable actions."@,
                "Recovery plan"@,
                r,
            ),
    {
        self.apply_focus_plan_action(base_id, max_steps, signals, PlanFocus::Recovery, "Recovery plan had no applicable actions.", "Recovery plan")
    }

    /// The first `max_steps` items of the governor's plan for base `base_id` that a
    /// economy plan keeps: morale, food, industry, trade, research and command facilities.
    pub fn base_economy_plan_items(&self, base_id: usize, max_steps: usize, signals: GovernorSignals) -> (r: Vec<P>)
        requires
            self.base_spec(base_id) matches Some(b) ==> b.population < i32::MAX,
        ensures
            r@ == focus_plan_items(self.governor_plan_spec(base_id, signals), PlanFocus::Economy, max_steps as nat),
    {
        let plan = self.base_governor_plan(base_id, signals);
        focus_items(&plan, PlanFocus::Economy, max_steps)
    }

    /// Carries out the economy plan at base `base_id` as a named plan.
    pub fn apply_economy_plan(&mut self, base_id: usize, max_steps: usize, signals: GovernorSignals) -> (r: Result<(), String>)
        requires
            old(self).base_spec(base_id) matches Some(b) ==> b.population < i32::MAX,
        ensures
            GameState::named_plan_applied(
                *old(self),
                *final(self),
                base_id,
                focus_plan_items(old(self).governor_plan_spec(base_id, signals), PlanFocus::Economy, max_steps as nat),
                "Economic plan had no applicable actions."@,
                "Economic plan"@,
                r,
            ),
    {
        self.apply_focus_plan(base_id, max_steps, signals, PlanFocus::Economy, "Economic plan had no applicable actions.", "Economic plan")
    }

    /// Carries out the economy plan at base `base_id`, logging why when it cannot; returns
    /// whether it did.
    pub fn apply_economy_plan_action(&mut self, base_id: usize, max_steps: usize, signals: GovernorSignals) -> (r: bool)
        requires
            old(self).base_spec(base_id) matches Some(b) ==> b.population < i32::MAX,
        ensures
            plan_action_applied(
                *old(self),
                *final(self),
                base_id,
                focus_plan_items(old(self).governor_plan_spec(base_id, signals), PlanFocus::Economy, max_steps as nat),
                "Economic plan had no applicable actions."@,
                "Economic plan"@,
                r,
            ),
    {
        self.apply_focus_plan_action(base_id, max_steps, signals, PlanFocus::Economy, "Economic plan had no applicable actions.", "Economic plan")
    }

    /// The first `max_steps` items of the governor's plan for base `base_id` that a
    /// logistics plan keeps: trade, freight, command, patrol, transit and depot facilities, escorts, sensors and the network node.
    pub fn base_logistics_plan_items(&self, base_id: usize, max_steps: usize, signals: GovernorSignals) -> (r: Vec<P>)
        requires
            self.base_spec(base_id) matches Some(b) ==> b.population < i32::MAX,
        ensures
            r@ == focus_plan_items(self.governor_plan_spec(base_id, signals), PlanFocus::Logistics, max_steps as nat),
    {
        let plan = self.base_governor_plan(base_id, signals);
        focus_items(&plan, PlanFocus::Logistics, max_steps)
    }

    /// Carries out the logistics plan at base `base_id` as a named plan.
    pub fn apply_logistics_plan(&mut self, base_id: usize, max_steps: usize, signals: GovernorSignals) -> (r: Result<(), String>)
        requires
            old(self).base_spec(base_id) matches Some(b) ==> b.population < i32::MAX,
        ensures
            GameState::named_plan_applied(
                *old(self),
                *final(self),
                base_id,
                focus_plan_items(old(self).governor_plan_spec(base_id, signals), PlanFocus::Logistics, max_steps as nat),
                "Logistics plan had no applicable actions."@,
                "Logistics plan"@,
                r,
            ),
    {
        self.apply_focus_plan(base_id, max_steps, signals, PlanFocus::Logistics, "Logistics plan had no applicable actions.", "Logistics plan")
    }

    /// Carries out the logistics plan at base `base_id`, logging why when it cannot; returns
    /// whether it did.
    pub fn apply_logistics_plan_action(&mut self, base_id: usize, max_steps: usize, signals: GovernorSignals) -> (r: bool)
        requires
            old(self).base_spec(base_id) matches Some(b) ==> b.population < i32::MAX,
        ensures
            plan_action_applied(
                *old(self),
                *final(self),
                base_id,
                focus_plan_items(old(self).governor_plan_spec(base_id, signals), PlanFocus::Logistics, max_steps as nat),
                "Logistics plan had no applicable actions."@,
                "Logistics plan"@,
                r,
            ),
    {
        self.apply_focus_plan_action(base_id, max_steps, signals, PlanFocus::Logistics, "Logistics plan had no applicable actions.", "Logistics plan")
    }
}

} // verus!
