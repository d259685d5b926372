//! What each rule of a base governor guarantees: whenever a rule's condition holds at a
//! base, the governor's plan for that base includes the rule's step.
use crate::game_state::bases::trade_partner_of;
use crate::game_state::governor::{
    lemma_by_priority_includes, lemma_by_priority_within, lemma_concat_keeps, lemma_concat_splits, plan_priorities, step_if,
    GovernorSignals,
};
use crate::model::{Facility as F, GameState, GovernorMode, ProductionItem as P};
use vstd::prelude::*;

verus! {

/// Whenever its condition holds at a base, the governor's plan for it includes
/// RecreationCommons at priority 100: "Unrest is reducing output here. Recreation Commons will stabilize the base."
pub proof fn law_governor_plans_recreation_commons_at_100(state: GameState, base_id: usize, s: GovernorSignals)
    requires
        state.base_spec(base_id) matches Some(b) && (s.unrest > 0 && !b.facilities@.contains(F::RecreationCommons) && state.production_available_spec(b.owner, P::RecreationCommons)),
    ensures
        state.governor_plan_spec(base_id, s).contains((P::RecreationCommons, 100i32, "Unrest is reducing output here. Recreation Commons will stabilize the base."@)),
{
    reveal(GameState::buildable);
    lemma_concat_keeps();
    let b = state.base_spec(base_id)->0;
    let e = (P::RecreationCommons, 100i32, "Unrest is reducing output here. Recreation Commons will stabilize the base."@);
    assert(step_if(true, e.0, e.1, e.2)[0] == e);
    assert(plan_priorities()[2] == 100i32);
        let r1 = state.recovery_steps(b, s, Seq::empty());
        assert(r1.contains(e));
        let r2 = state.support_steps(b, s, r1);
        assert(r2.contains(e));
        let r3 = state.economy_steps(b, s, r2);
        assert(r3.contains(e));
        let c = state.defense_steps(b, s, r3);
        assert(c.contains(e));
    assert(c == state.governor_candidates(b, s));
    lemma_by_priority_includes(c, 22, e, 2);
}

/// Whenever its condition holds at a base, the governor's plan for it includes
/// FieldHospital at priority 90: "Damaged garrisons are rotating through this base. Field Hospital will speed recovery."
pub proof fn law_governor_plans_field_hospital_at_90(state: GameState, base_id: usize, s: GovernorSignals)
    requires
        state.base_spec(base_id) matches Some(b) && (s.damaged_garrisons > 0 && !b.facilities@.contains(F::FieldHospital) && state.production_available_spec(b.owner, P::FieldHospital)),
    ensures
        state.governor_plan_spec(base_id, s).contains((P::FieldHospital, 90i32, "Damaged garrisons are rotating through this base. Field Hospital will speed recovery."@)),
{
    reveal(GameState::buildable);
    lemma_concat_keeps();
    let b = state.base_spec(base_id)->0;
    let e = (P::FieldHospital, 90i32, "Damaged garrisons are rotating through this base. Field Hospital will speed recovery."@);
    assert(step_if(true, e.0, e.1, e.2)[0] == e);
    assert(plan_priorities()[5] == 90i32);
        let r1 = state.recovery_steps(b, s, Seq::empty());
        assert(r1.contains(e));
        let r2 = state.support_steps(b, s, r1);
        assert(r2.contains(e));
        let r3 = state.economy_steps(b, s, r2);
        assert(r3.contains(e));
        let c = state.defense_steps(b, s, r3);
        assert(c.contains(e));
    assert(c == state.governor_candidates(b, s));
    lemma_by_priority_includes(c, 22, e, 5);
}

/// Whenever its condition holds at a base, the governor's plan for it includes
/// HologramTheatre at priority 92: "Morale infrastructure is already online here. Hologram Theatre will deepen unrest control and improve energy flow."
pub proof fn law_governor_plans_hologram_theatre_at_92(state: GameState, base_id: usize, s: GovernorSignals)
    requires
        state.base_spec(base_id) matches Some(b) && ((s.unrest > 0 || s.yields.energy <= s.yields.minerals) && b.facilities@.contains(F::RecreationCommons) && !b.facilities@.contains(F::HologramTheatre) && state.production_available_spec(b.owner, P::HologramTheatre)),
    ensures
        state.governor_plan_spec(base_id, s).contains((P::HologramTheatre, 92i32, "Morale infrastructure is already online here. Hologram Theatre will deepen unrest control and improve energy flow."@)),
{
    reveal(GameState::buildable);
    lemma_concat_keeps();
    let b = state.base_spec(base_id)->0;
    let e = (P::HologramTheatre, 92i32, "Morale infrastructure is already online here. Hologram Theatre will deepen unrest control and improve energy flow."@);
    assert(step_if(true, e.0, e.1, e.2)[0] == e);
    assert(plan_priorities()[3] == 92i32);
        let r1 = state.recovery_steps(b, s, Seq::empty());
        assert(r1.contains(e));
        let r2 = state.support_steps(b, s, r1);
        assert(r2.contains(e));
        let r3 = state.economy_steps(b, s, r2);
        assert(r3.contains(e));
        let c = state.defense_steps(b, s, r3);
        assert(c.contains(e));
    assert(c == state.governor_candidates(b, s));
    lemma_by_priority_includes(c, 22, e, 3);
}

/// Whenever its condition holds at a base, the governor's plan for it includes
/// ResearchHospital at priority 91: "Recovery infrastructure is already active here. Research Hospital will accelerate healing, growth, and scientific output."
pub proof fn law_governor_plans_research_hospital_at_91(state: GameState, base_id: usize, s: GovernorSignals)
    requires
        state.base_spec(base_id) matches Some(b) && (s.damaged_garrisons > 0 && b.facilities@.contains(F::FieldHospital) && !b.facilities@.contains(F::ResearchHospital) && state.production_available_spec(b.owner, P::ResearchHospital)),
    ensures
        state.governor_plan_spec(base_id, s).contains((P::ResearchHospital, 91i32, "Recovery infrastructure is already active here. Research Hospital will accelerate healing, growth, and scientific output."@)),
{
    reveal(GameState::buildable);
    lemma_concat_keeps();
    let b = state.base_spec(base_id)->0;
    let e = (P::ResearchHospital, 91i32, "Recovery infrastructure is already active here. Research Hospital will accelerate healing, growth, and scientific output."@);
    assert(step_if(true, e.0, e.1, e.2)[0] == e);
    assert(plan_priorities()[4] == 91i32);
        let r1 = state.recovery_steps(b, s, Seq::empty());
        assert(r1.contains(e));
        let r2 = state.support_steps(b, s, r1);
        assert(r2.contains(e));
        let r3 = state.economy_steps(b, s, r2);
        assert(r3.contains(e));
        let c = state.defense_steps(b, s, r3);
        assert(c.contains(e));
    assert(c == state.governor_candidates(b, s));
    lemma_by_priority_includes(c, 22, e, 4);
}

/// Whenever its condition holds at a base, the governor's plan for it includes
/// PsiSentinel at priority 89: "Psionic threats are nearby. Psi Sentinel will harden this base against native and psi pressure."
pub proof fn law_governor_plans_psi_sentinel_at_89(state: GameState, base_id: usize, s: GovernorSignals)
    requires
        state.base_spec(base_id) matches Some(b) && (s.psi_pressure >= 2 && state.production_available_spec(b.owner, P::PsiSentinel)),
    ensures
        state.governor_plan_spec(base_id, s).contains((P::PsiSentinel, 89i32, "Psionic threats are nearby. Psi Sentinel will harden this base against native and psi pressure."@)),
{
    reveal(GameState::buildable);
    lemma_concat_keeps();
    let b = state.base_spec(base_id)->0;
    let e = (P::PsiSentinel, 89i32, "Psionic threats are nearby. Psi Sentinel will harden this base against native and psi pressure."@);
    assert(step_if(true, e.0, e.1, e.2)[0] == e);
    assert(plan_priorities()[6] == 89i32);
        let r1 = state.recovery_steps(b, s, Seq::empty());
        assert(r1.contains(e));
        let r2 = state.support_steps(b, s, r1);
        assert(r2.contains(e));
        let r3 = state.economy_steps(b, s, r2);
        assert(r3.contains(e));
        let c = state.defense_steps(b, s, r3);
        assert(c.contains(e));
    assert(c == state.governor_candidates(b, s));
    lemma_by_priority_includes(c, 22, e, 6);
}

/// Whenever its condition holds at a base, the governor's plan for it includes
/// PsiBeacon at priority 88: "Psi pressure is building here. Psi Beacon will strengthen psionic security and local resilience."
pub proof fn law_governor_plans_psi_beacon_at_88(state: GameState, base_id: usize, s: GovernorSignals)
    requires
        state.base_spec(base_id) matches Some(b) && (s.psi_pressure >= 1 && !b.facilities@.contains(F::PsiBeacon) && state.production_available_spec(b.owner, P::PsiBeacon)),
    ensures
        state.governor_plan_spec(base_id, s).contains((P::PsiBeacon, 88i32, "Psi pressure is building here. Psi Beacon will strengthen psionic security and local resilience."@)),
{
    reveal(GameState::buildable);
    lemma_concat_keeps();
    let b = state.base_spec(base_id)->0;
    let e = (P::PsiBeacon, 88i32, "Psi pressure is building here. Psi Beacon will strengthen psionic security and local resilience."@);
    assert(step_if(true, e.0, e.1, e.2)[0] == e);
    assert(plan_priorities()[7] == 88i32);
        let r1 = state.recovery_steps(b, s, Seq::empty());
        assert(r1.contains(e));
        let r2 = state.support_steps(b, s, r1);
        assert(r2.contains(e));
        let r3 = state.economy_steps(b, s, r2);
        assert(r3.contains(e));
        let c = state.defense_steps(b, s, r3);
        assert(c.contains(e));
    assert(c == state.governor_candidates(b, s));
    lemma_by_priority_includes(c, 22, e, 7);
}

/// Whenever its condition holds at a base, the governor's plan for it includes
/// BioenhancementCenter at priority 87: "This base already has frontline support infrastructure. Bioenhancement Center will improve training, psi resilience, and sustained readiness."
pub proof fn law_governor_plans_bioenhancement_center_at_87(state: GameState, base_id: usize, s: GovernorSignals)
    requires
        state.base_spec(base_id) matches Some(b) && ((s.military_pressure >= 1 || s.psi_pressure >= 1 || s.damaged_garrisons > 0) && (b.facilities@.contains(F::PsiBeacon) || b.facilities@.contains(F::MilitaryAcademy) || b.facilities@.contains(F::FieldHospital)) && !b.facilities@.contains(F::BioenhancementCenter) && state.production_available_spec(b.owner, P::BioenhancementCenter)),
    ensures
        state.governor_plan_spec(base_id, s).contains((P::BioenhancementCenter, 87i32, "This base already has frontline support infrastructure. Bioenhancement Center will improve training, psi resilience, and sustained readiness."@)),
{
    reveal(GameState::buildable);
    lemma_concat_keeps();
    let b = state.base_spec(base_id)->0;
    let e = (P::BioenhancementCenter, 87i32, "This base already has frontline support infrastructure. Bioenhancement Center will improve training, psi resilience, and sustained readiness."@);
    assert(step_if(true, e.0, e.1, e.2)[0] == e);
    assert(plan_priorities()[8] == 87i32);
        let r1 = state.recovery_steps(b, s, Seq::empty());
        assert(r1.contains(e));
        let r2 = state.support_steps(b, s, r1);
        assert(r2.contains(e));
        let r3 = state.economy_steps(b, s, r2);
        assert(r3.contains(e));
        let c = state.defense_steps(b, s, r3);
        assert(c.contains(e));
    assert(c == state.governor_candidates(b, s));
    lemma_by_priority_includes(c, 22, e, 8);
}

/// Whenever its condition holds at a base, the governor's plan for it includes
/// CommandCenter at priority 80: "Support pressure is rising. Command Center will improve support and training."
pub proof fn law_governor_plans_command_center_at_80(state: GameState, base_id: usize, s: GovernorSignals)
    requires
        state.base_spec(base_id) matches Some(b) && (s.unit_upkeep > 0 && !b.facilities@.contains(F::CommandCenter) && state.production_available_spec(b.owner, P::CommandCenter)),
    ensures
        state.governor_plan_spec(base_id, s).contains((P::CommandCenter, 80i32, "Support pressure is rising. Command Center will improve support and training."@)),
{
    reveal(GameState::buildable);
    lemma_concat_keeps();
    let b = state.base_spec(base_id)->0;
    let e = (P::CommandCenter, 80i32, "Support pressure is rising. Command Center will improve support and training."@);
    assert(step_if(true, e.0, e.1, e.2)[0] == e);
    assert(plan_priorities()[9] == 80i32);
        let r1 = state.recovery_steps(b, s, Seq::empty());
        let r2 = state.support_steps(b, s, r1);
        assert(r2.contains(e));
        let r3 = state.economy_steps(b, s, r2);
        assert(r3.contains(e));
        let c = state.defense_steps(b, s, r3);
        assert(c.contains(e));
    assert(c == state.governor_candidates(b, s));
    lemma_by_priority_includes(c, 22, e, 9);
}

/// Whenever its condition holds at a base, the governor's plan for it includes
/// NetworkNode at priority 66: "Research and energy output are lagging. Network Node will improve knowledge and energy flow."
pub proof fn law_governor_plans_network_node_at_66(state: GameState, base_id: usize, s: GovernorSignals)
    requires
        state.base_spec(base_id) matches Some(b) && (s.yields.energy <= s.yields.minerals && !b.facilities@.contains(F::NetworkNode) && state.production_available_spec(b.owner, P::NetworkNode)),
    ensures
        state.governor_plan_spec(base_id, s).contains((P::NetworkNode, 66i32, "Research and energy output are lagging. Network Node will improve knowledge and energy flow."@)),
{
    reveal(GameState::buildable);
    lemma_concat_keeps();
    let b = state.base_spec(base_id)->0;
    let e = (P::NetworkNode, 66i32, "Research and energy output are lagging. Network Node will improve knowledge and energy flow."@);
    assert(step_if(true, e.0, e.1, e.2)[0] == e);
    assert(plan_priorities()[18] == 66i32);
        let r1 = state.recovery_steps(b, s, Seq::empty());
        let r2 = state.support_steps(b, s, r1);
        assert(r2.contains(e));
        let r3 = state.economy_steps(b, s, r2);
        assert(r3.contains(e));
        let c = state.defense_steps(b, s, r3);
        assert(c.contains(e));
    assert(c == state.governor_candidates(b, s));
    lemma_by_priority_includes(c, 22, e, 18);
}

/// Whenever its condition holds at a base, the governor's plan for it includes
/// TradeExchange at priority 65: "Nearby friendly bases can support trade here. Trade Exchange will convert that network into stronger energy flow."
pub proof fn law_governor_plans_trade_exchange_at_65(state: GameState, base_id: usize, s: GovernorSignals)
    requires
        state.base_spec(base_id) matches Some(b) && (state.bases@.filter(trade_partner_of(b)).len() >= 1 && !b.facilities@.contains(F::TradeExchange) && state.production_available_spec(b.owner, P::TradeExchange)),
    ensures
        state.governor_plan_spec(base_id, s).contains((P::TradeExchange, 65i32, "Nearby friendly bases can support trade here. Trade Exchange will convert that network into stronger energy flow."@)),
{
    reveal(GameState::buildable);
    lemma_concat_keeps();
    let b = state.base_spec(base_id)->0;
    let e = (P::TradeExchange, 65i32, "Nearby friendly bases can support trade here. Trade Exchange will convert that network into stronger energy flow."@);
    assert(step_if(true, e.0, e.1, e.2)[0] == e);
    assert(plan_priorities()[19] == 65i32);
        let r1 = state.recovery_steps(b, s, Seq::empty());
        let r2 = state.support_steps(b, s, r1);
        assert(r2.contains(e));
        let r3 = state.economy_steps(b, s, r2);
        assert(r3.contains(e));
        let c = state.defense_steps(b, s, r3);
        assert(c.contains(e));
    assert(c == state.governor_candidates(b, s));
    lemma_by_priority_includes(c, 22, e, 19);
}

/// Whenever its condition holds at a base, the governor's plan for it includes
/// EscortSpeeder at priority 67: "Local convoy lanes are exposed. Escort Speeder will add mobile interception defense."
pub proof fn law_governor_plans_escort_speeder_at_67(state: GameState, base_id: usize, s: GovernorSignals)
    requires
        state.base_spec(base_id) matches Some(b) && (state.bases@.filter(trade_partner_of(b)).len() >= 1 && state.units@.filter(state.escort_near(b)).len() == 0 && state.production_available_spec(b.owner, P::EscortSpeeder) && (s.military_pressure >= 1 || s.psi_pressure >= 1 || s.convoy_lanes_threatened)),
    ensures
        state.governor_plan_spec(base_id, s).contains((P::EscortSpeeder, 67i32, "Local convoy lanes are exposed. Escort Speeder will add mobile interception defense."@)),
{
    reveal(GameState::buildable);
    lemma_concat_keeps();
    let b = state.base_spec(base_id)->0;
    let e = (P::EscortSpeeder, 67i32, "Local convoy lanes are exposed. Escort Speeder will add mobile interception defense."@);
    assert(step_if(true, e.0, e.1, e.2)[0] == e);
    assert(plan_priorities()[17] == 67i32);
        let r1 = state.recovery_steps(b, s, Seq::empty());
        let r2 = state.support_steps(b, s, r1);
        assert(r2.contains(e));
        let r3 = state.economy_steps(b, s, r2);
        assert(r3.contains(e));
        let c = state.defense_steps(b, s, r3);
        assert(c.contains(e));
    assert(c == state.governor_candidates(b, s));
    lemma_by_priority_includes(c, 22, e, 17);
}

/// Whenever its condition holds at a base, the governor's plan for it includes
/// PatrolGrid at priority 66: "Convoy routes here need protection. Patrol Grid will increase route capacity and reduce logistics disruption."
pub proof fn law_governor_plans_patrol_grid_at_66(state: GameState, base_id: usize, s: GovernorSignals)
    requires
        state.base_spec(base_id) matches Some(b) && (state.bases@.filter(trade_partner_of(b)).len() >= 1 && !b.facilities@.contains(F::PatrolGrid) && state.production_available_spec(b.owner, P::PatrolGrid) && (s.military_pressure >= 1 || s.psi_pressure >= 1)),
    ensures
        state.governor_plan_spec(base_id, s).contains((P::PatrolGrid, 66i32, "Convoy routes here need protection. Patrol Grid will increase route capacity and reduce logistics disruption."@)),
{
    reveal(GameState::buildable);
    lemma_concat_keeps();
    let b = state.base_spec(base_id)->0;
    let e = (P::PatrolGrid, 66i32, "Convoy routes here need protection. Patrol Grid will increase route capacity and reduce logistics disruption."@);
    assert(step_if(true, e.0, e.1, e.2)[0] == e);
    assert(plan_priorities()[18] == 66i32);
        let r1 = state.recovery_steps(b, s, Seq::empty());
        let r2 = state.support_steps(b, s, r1);
        assert(r2.contains(e));
        let r3 = state.economy_steps(b, s, r2);
        assert(r3.contains(e));
        let c = state.defense_steps(b, s, r3);
        assert(c.contains(e));
    assert(c == state.governor_candidates(b, s));
    lemma_by_priority_includes(c, 22, e, 18);
}

/// Whenever its condition holds at a base, the governor's plan for it includes
/// FreightDepot at priority 64: "Friendly bases can support freight flow here. Freight Depot will convert that network into stronger mineral throughput."
pub proof fn law_governor_plans_freight_depot_at_64(state: GameState, base_id: usize, s: GovernorSignals)
    requires
        state.base_spec(base_id) matches Some(b) && (state.bases@.filter(trade_partner_of(b)).len() >= 1 && !b.facilities@.contains(F::FreightDepot) && state.production_available_spec(b.owner, P::FreightDepot) && (b.facilities@.contains(F::TradeExchange) || s.yields.minerals <= s.yields.energy)),
    ensures
        state.governor_plan_spec(base_id, s).contains((P::FreightDepot, 64i32, "Friendly bases can support freight flow here. Freight Depot will convert that network into stronger mineral throughput."@)),
{
    reveal(GameState::buildable);
    lemma_concat_keeps();
    let b = state.base_spec(base_id)->0;
    let e = (P::FreightDepot, 64i32, "Friendly bases can support freight flow here. Freight Depot will convert that network into stronger mineral throughput."@);
    assert(step_if(true, e.0, e.1, e.2)[0] == e);
    assert(plan_priorities()[20] == 64i32);
        let r1 = state.recovery_steps(b, s, Seq::empty());
        let r2 = state.support_steps(b, s, r1);
        assert(r2.contains(e));
        let r3 = state.economy_steps(b, s, r2);
        assert(r3.contains(e));
        let c = state.defense_steps(b, s, r3);
        assert(c.contains(e));
    assert(c == state.governor_candidates(b, s));
    lemma_by_priority_includes(c, 22, e, 20);
}

/// Whenever its condition holds at a base, the governor's plan for it includes
/// Greenhouse at priority 65: "Food security is thin here. Greenhouse will improve nutrient flow and growth resilience."
pub proof fn law_governor_plans_greenhouse_at_65(state: GameState, base_id: usize, s: GovernorSignals)
    requires
        state.base_spec(base_id) matches Some(b) && (s.yields.nutrients <= (if b.population > 1 { b.population as int } else { 1 }) + 1 && !b.facilities@.contains(F::Greenhouse) && state.production_available_spec(b.owner, P::Greenhouse)),
    ensures
        state.governor_plan_spec(base_id, s).contains((P::Greenhouse, 65i32, "Food security is thin here. Greenhouse will improve nutrient flow and growth resilience."@)),
{
    reveal(GameState::buildable);
    lemma_concat_keeps();
    let b = state.base_spec(base_id)->0;
    let e = (P::Greenhouse, 65i32, "Food security is thin here. Greenhouse will improve nutrient flow and growth resilience."@);
    assert(step_if(true, e.0, e.1, e.2)[0] == e);
    assert(plan_priorities()[19] == 65i32);
        let r1 = state.recovery_steps(b, s, Seq::empty());
        let r2 = state.support_steps(b, s, r1);
        assert(r2.contains(e));
        let r3 = state.economy_steps(b, s, r2);
        assert(r3.contains(e));
        let c = state.defense_steps(b, s, r3);
        assert(c.contains(e));
    assert(c == state.governor_candidates(b, s));
    lemma_by_priority_includes(c, 22, e, 19);
}

/// Whenever its condition holds at a base, the governor's plan for it includes
/// MineralRefinery at priority 64: "Extraction throughput is thin here. Mineral Refinery will strengthen industrial output."
pub proof fn law_governor_plans_mineral_refinery_at_64(state: GameState, base_id: usize, s: GovernorSignals)
    requires
        state.base_spec(base_id) matches Some(b) && (s.yields.minerals <= 6 && !b.facilities@.contains(F::MineralRefinery) && state.production_available_spec(b.owner, P::MineralRefinery)),
    ensures
        state.governor_plan_spec(base_id, s).contains((P::MineralRefinery, 64i32, "Extraction throughput is thin here. Mineral Refinery will strengthen industrial output."@)),
{
    reveal(GameState::buildable);
    lemma_concat_keeps();
    let b = state.base_spec(base_id)->0;
    let e = (P::MineralRefinery, 64i32, "Extraction throughput is thin here. Mineral Refinery will strengthen industrial output."@);
    assert(step_if(true, e.0, e.1, e.2)[0] == e);
    assert(plan_priorities()[20] == 64i32);
        let r1 = state.recovery_steps(b, s, Seq::empty());
        let r2 = state.support_steps(b, s, r1);
        let r3 = state.economy_steps(b, s, r2);
        assert(r3.contains(e));
        let c = state.defense_steps(b, s, r3);
        assert(c.contains(e));
    assert(c == state.governor_candidates(b, s));
    lemma_by_priority_includes(c, 22, e, 20);
}

/// Whenever its condition holds at a base, the governor's plan for it includes
/// RecyclingTanks at priority 63: "Core growth and mineral flow are thin. Recycling Tanks will stabilize early economic output."
pub proof fn law_governor_plans_recycling_tanks_at_63(state: GameState, base_id: usize, s: GovernorSignals)
    requires
        state.base_spec(base_id) matches Some(b) && ((s.yields.nutrients <= 6 || s.yields.minerals <= 6) && !b.facilities@.contains(F::RecyclingTanks) && state.production_available_spec(b.owner, P::RecyclingTanks)),
    ensures
        state.governor_plan_spec(base_id, s).contains((P::RecyclingTanks, 63i32, "Core growth and mineral flow are thin. Recycling Tanks will stabilize early economic output."@)),
{
    reveal(GameState::buildable);
    lemma_concat_keeps();
    let b = state.base_spec(base_id)->0;
    let e = (P::RecyclingTanks, 63i32, "Core growth and mineral flow are thin. Recycling Tanks will stabilize early economic output."@);
    assert(step_if(true, e.0, e.1, e.2)[0] == e);
    assert(plan_priorities()[21] == 63i32);
        let r1 = state.recovery_steps(b, s, Seq::empty());
        let r2 = state.support_steps(b, s, r1);
        let r3 = state.economy_steps(b, s, r2);
        assert(r3.contains(e));
        let c = state.defense_steps(b, s, r3);
        assert(c.contains(e));
    assert(c == state.governor_candidates(b, s));
    lemma_by_priority_includes(c, 22, e, 21);
}

/// Whenever its condition holds at a base, the governor's plan for it includes
/// ResearchHospital at priority 76: "This base needs stronger long-term recovery and research support. Research Hospital will improve healing, growth, and energy output."
pub proof fn law_governor_plans_research_hospital_at_76(state: GameState, base_id: usize, s: GovernorSignals)
    requires
        state.base_spec(base_id) matches Some(b) && ((s.food_margin <= 0 || s.yields.energy <= s.yields.minerals) && b.facilities@.contains(F::FieldHospital) && !b.facilities@.contains(F::ResearchHospital) && state.production_available_spec(b.owner, P::ResearchHospital)),
    ensures
        state.governor_plan_spec(base_id, s).contains((P::ResearchHospital, 76i32, "This base needs stronger long-term recovery and research support. Research Hospital will improve healing, growth, and energy output."@)),
{
    reveal(GameState::buildable);
    lemma_concat_keeps();
    let b = state.base_spec(base_id)->0;
    let e = (P::ResearchHospital, 76i32, "This base needs stronger long-term recovery and research support. Research Hospital will improve healing, growth, and energy output."@);
    assert(step_if(true, e.0, e.1, e.2)[0] == e);
    assert(plan_priorities()[10] == 76i32);
        let r1 = state.recovery_steps(b, s, Seq::empty());
        let r2 = state.support_steps(b, s, r1);
        let r3 = state.economy_steps(b, s, r2);
        assert(r3.contains(e));
        let c = state.defense_steps(b, s, r3);
        assert(c.contains(e));
    assert(c == state.governor_candidates(b, s));
    lemma_by_priority_includes(c, 22, e, 10);
}

/// Whenever its condition holds at a base, the governor's plan for it includes
/// SensorArray at priority 72: "Sensor coverage is thin. Sensor Array will strengthen frontier defense and energy output."
pub proof fn law_governor_plans_sensor_array_at_72(state: GameState, base_id: usize, s: GovernorSignals)
    requires
        state.base_spec(base_id) matches Some(b) && (s.military_pressure >= 1 && !b.facilities@.contains(F::SensorArray) && state.production_available_spec(b.owner, P::SensorArray)),
    ensures
        state.governor_plan_spec(base_id, s).contains((P::SensorArray, 72i32, "Sensor coverage is thin. Sensor Array will strengthen frontier defense and energy output."@)),
{
    reveal(GameState::buildable);
    lemma_concat_keeps();
    let b = state.base_spec(base_id)->0;
    let e = (P::SensorArray, 72i32, "Sensor coverage is thin. Sensor Array will strengthen frontier defense and energy output."@);
    assert(step_if(true, e.0, e.1, e.2)[0] == e);
    assert(plan_priorities()[12] == 72i32);
        let r1 = state.recovery_steps(b, s, Seq::empty());
        let r2 = state.support_steps(b, s, r1);
        let r3 = state.economy_steps(b, s, r2);
        assert(r3.contains(e));
        let c = state.defense_steps(b, s, r3);
        assert(c.contains(e));
    assert(c == state.governor_candidates(b, s));
    lemma_by_priority_includes(c, 22, e, 12);
}

/// Whenever its condition holds at a base, the governor's plan for it includes
/// TransitHub at priority 71: "Fast-response forces need better logistics. Transit Hub will support mobile strike units."
pub proof fn law_governor_plans_transit_hub_at_71(state: GameState, base_id: usize, s: GovernorSignals)
    requires
        state.base_spec(base_id) matches Some(b) && (s.military_pressure >= 1 && s.attack_bias >= 1 && !b.facilities@.contains(F::TransitHub) && state.production_available_spec(b.owner, P::TransitHub)),
    ensures
        state.governor_plan_spec(base_id, s).contains((P::TransitHub, 71i32, "Fast-response forces need better logistics. Transit Hub will support mobile strike units."@)),
{
    reveal(GameState::buildable);
    lemma_concat_keeps();
    let b = state.base_spec(base_id)->0;
    let e = (P::TransitHub, 71i32, "Fast-response forces need better logistics. Transit Hub will support mobile strike units."@);
    assert(step_if(true, e.0, e.1, e.2)[0] == e);
    assert(plan_priorities()[13] == 71i32);
        let r1 = state.recovery_steps(b, s, Seq::empty());
        let r2 = state.support_steps(b, s, r1);
        let r3 = state.economy_steps(b, s, r2);
        assert(r3.contains(e));
        let c = state.defense_steps(b, s, r3);
        assert(c.contains(e));
    assert(c == state.governor_candidates(b, s));
    lemma_by_priority_includes(c, 22, e, 13);
}

/// Whenever its condition holds at a base, the governor's plan for it includes
/// ForwardDepot at priority 70: "Mobile forces are active here. Forward Depot will sustain fast-response attacks and repairs."
pub proof fn law_governor_plans_forward_depot_at_70(state: GameState, base_id: usize, s: GovernorSignals)
    requires
        state.base_spec(base_id) matches Some(b) && (s.military_pressure >= 1 && s.attack_bias >= 1 && b.facilities@.contains(F::TransitHub) && !b.facilities@.contains(F::ForwardDepot) && state.production_available_spec(b.owner, P::ForwardDepot)),
    ensures
        state.governor_plan_spec(base_id, s).contains((P::ForwardDepot, 70i32, "Mobile forces are active here. Forward Depot will sustain fast-response attacks and repairs."@)),
{
    reveal(GameState::buildable);
    lemma_concat_keeps();
    let b = state.base_spec(base_id)->0;
    let e = (P::ForwardDepot, 70i32, "Mobile forces are active here. Forward Depot will sustain fast-response attacks and repairs."@);
    assert(step_if(true, e.0, e.1, e.2)[0] == e);
    assert(plan_priorities()[14] == 70i32);
        let r1 = state.recovery_steps(b, s, Seq::empty());
        let r2 = state.support_steps(b, s, r1);
        let r3 = state.economy_steps(b, s, r2);
        assert(r3.contains(e));
        let c = state.defense_steps(b, s, r3);
        assert(c.contains(e));
    assert(c == state.governor_candidates(b, s));
    lemma_by_priority_includes(c, 22, e, 14);
}

/// Whenever its condition holds at a base, the governor's plan for it includes
/// GarrisonGuard at priority 68: "A hardened garrison unit would improve local base defense immediately."
pub proof fn law_governor_plans_garrison_guard_at_68(state: GameState, base_id: usize, s: GovernorSignals)
    requires
        state.base_spec(base_id) matches Some(b) && (s.military_pressure >= 2 && state.production_available_spec(b.owner, P::GarrisonGuard)),
    ensures
        state.governor_plan_spec(base_id, s).contains((P::GarrisonGuard, 68i32, "A hardened garrison unit would improve local base defense immediately."@)),
{
    reveal(GameState::buildable);
    lemma_concat_keeps();
    let b = state.base_spec(base_id)->0;
    let e = (P::GarrisonGuard, 68i32, "A hardened garrison unit would improve local base defense immediately."@);
    assert(step_if(true, e.0, e.1, e.2)[0] == e);
    assert(plan_priorities()[16] == 68i32);
        let r1 = state.recovery_steps(b, s, Seq::empty());
        let r2 = state.support_steps(b, s, r1);
        let r3 = state.economy_steps(b, s, r2);
        let c = state.defense_steps(b, s, r3);
        assert(c.contains(e));
    assert(c == state.governor_candidates(b, s));
    lemma_by_priority_includes(c, 22, e, 16);
}

/// Whenever its condition holds at a base, the governor's plan for it includes
/// PsiSentinel at priority 67: "Psionic defense is available. Psi Sentinel would strengthen hostile-frontier security."
pub proof fn law_governor_plans_psi_sentinel_at_67(state: GameState, base_id: usize, s: GovernorSignals)
    requires
        state.base_spec(base_id) matches Some(b) && (s.military_pressure >= 2 && state.production_available_spec(b.owner, P::PsiSentinel)),
    ensures
        state.governor_plan_spec(base_id, s).contains((P::PsiSentinel, 67i32, "Psionic defense is available. Psi Sentinel would strengthen hostile-frontier security."@)),
{
    reveal(GameState::buildable);
    lemma_concat_keeps();
    let b = state.base_spec(base_id)->0;
    let e = (P::PsiSentinel, 67i32, "Psionic defense is available. Psi Sentinel would strengthen hostile-frontier security."@);
    assert(step_if(true, e.0, e.1, e.2)[0] == e);
    assert(plan_priorities()[17] == 67i32);
        let r1 = state.recovery_steps(b, s, Seq::empty());
        let r2 = state.support_steps(b, s, r1);
        let r3 = state.economy_steps(b, s, r2);
        let c = state.defense_steps(b, s, r3);
        assert(c.contains(e));
    assert(c == state.governor_candidates(b, s));
    lemma_by_priority_includes(c, 22, e, 17);
}

/// Whenever its condition holds at a base, the governor's plan for it includes
/// MilitaryAcademy at priority 70: "Frontline pressure is high. Military Academy will field veteran troops faster."
pub proof fn law_governor_plans_military_academy_at_70(state: GameState, base_id: usize, s: GovernorSignals)
    requires
        state.base_spec(base_id) matches Some(b) && (s.military_pressure >= 2 && !b.facilities@.contains(F::MilitaryAcademy) && state.production_available_spec(b.owner, P::MilitaryAcademy)),
    ensures
        state.governor_plan_spec(base_id, s).contains((P::MilitaryAcademy, 70i32, "Frontline pressure is high. Military Academy will field veteran troops faster."@)),
{
    reveal(GameState::buildable);
    lemma_concat_keeps();
    let b = state.base_spec(base_id)->0;
    let e = (P::MilitaryAcademy, 70i32, "Frontline pressure is high. Military Academy will field veteran troops faster."@);
    assert(step_if(true, e.0, e.1, e.2)[0] == e);
    assert(plan_priorities()[14] == 70i32);
        let r1 = state.recovery_steps(b, s, Seq::empty());
        let r2 = state.support_steps(b, s, r1);
        let r3 = state.economy_steps(b, s, r2);
        let c = state.defense_steps(b, s, r3);
        assert(c.contains(e));
    assert(c == state.governor_candidates(b, s));
    lemma_by_priority_includes(c, 22, e, 14);
}

/// Whenever its condition holds at a base, the governor's plan for it includes
/// ResonanceLaser at priority 69: "Advanced shock infantry is available here. Resonance Laser can anchor breakthroughs and punish exposed attackers."
pub proof fn law_governor_plans_resonance_laser_at_69(state: GameState, base_id: usize, s: GovernorSignals)
    requires
        state.base_spec(base_id) matches Some(b) && (s.military_pressure >= 1 && s.attack_bias >= 1 && state.production_available_spec(b.owner, P::ResonanceLaser)),
    ensures
        state.governor_plan_spec(base_id, s).contains((P::ResonanceLaser, 69i32, "Advanced shock infantry is available here. Resonance Laser can anchor breakthroughs and punish exposed attackers."@)),
{
    reveal(GameState::buildable);
    lemma_concat_keeps();
    let b = state.base_spec(base_id)->0;
    let e = (P::ResonanceLaser, 69i32, "Advanced shock infantry is available here. Resonance Laser can anchor breakthroughs and punish exposed attackers."@);
    assert(step_if(true, e.0, e.1, e.2)[0] == e);
    assert(plan_priorities()[15] == 69i32);
        let r1 = state.recovery_steps(b, s, Seq::empty());
        let r2 = state.support_steps(b, s, r1);
        let r3 = state.economy_steps(b, s, r2);
        let c = state.defense_steps(b, s, r3);
        assert(c.contains(e));
    assert(c == state.governor_candidates(b, s));
    lemma_by_priority_includes(c, 22, e, 15);
}

/// Whenever its condition holds at a base, the governor's plan for it includes
/// RaiderSpeeder at priority 69: "Mobile strike pressure fits this doctrine. Raider Speeder can exploit exposed enemy lines quickly."
pub proof fn law_governor_plans_raider_speeder_at_69(state: GameState, base_id: usize, s: GovernorSignals)
    requires
        state.base_spec(base_id) matches Some(b) && (s.military_pressure >= 1 && s.attack_bias >= 1 && state.production_available_spec(b.owner, P::RaiderSpeeder)),
    ensures
        state.governor_plan_spec(base_id, s).contains((P::RaiderSpeeder, 69i32, "Mobile strike pressure fits this doctrine. Raider Speeder can exploit exposed enemy lines quickly."@)),
{
    reveal(GameState::buildable);
    lemma_concat_keeps();
    let b = state.base_spec(base_id)->0;
    let e = (P::RaiderSpeeder, 69i32, "Mobile strike pressure fits this doctrine. Raider Speeder can exploit exposed enemy lines quickly."@);
    assert(step_if(true, e.0, e.1, e.2)[0] == e);
    assert(plan_priorities()[15] == 69i32);
        let r1 = state.recovery_steps(b, s, Seq::empty());
        let r2 = state.support_steps(b, s, r1);
        let r3 = state.economy_steps(b, s, r2);
        let c = state.defense_steps(b, s, r3);
        assert(c.contains(e));
    assert(c == state.governor_candidates(b, s));
    lemma_by_priority_includes(c, 22, e, 15);
}

/// Whenever its condition holds at a base, the governor's plan for it includes
/// MineralRefinery at priority 110: "Machine Polity: Prioritizing raw mineral throughput for industrial dominance."
pub proof fn law_governor_plans_mineral_refinery_at_110(state: GameState, base_id: usize, s: GovernorSignals)
    requires
        state.base_spec(base_id) matches Some(b) && (b.governor_mode == GovernorMode::MachinePolity && !b.facilities@.contains(F::MineralRefinery) && state.production_available_spec(b.owner, P::MineralRefinery)),
    ensures
        state.governor_plan_spec(base_id, s).contains((P::MineralRefinery, 110i32, "Machine Polity: Prioritizing raw mineral throughput for industrial dominance."@)),
{
    reveal(GameState::buildable);
    lemma_concat_keeps();
    let b = state.base_spec(base_id)->0;
    let e = (P::MineralRefinery, 110i32, "Machine Polity: Prioritizing raw mineral throughput for industrial dominance."@);
    assert(step_if(true, e.0, e.1, e.2)[0] == e);
    assert(plan_priorities()[0] == 110i32);
        let r1 = state.recovery_steps(b, s, Seq::empty());
        let r2 = state.support_steps(b, s, r1);
        let r3 = state.economy_steps(b, s, r2);
        let c = state.defense_steps(b, s, r3);
        assert(c.contains(e));
    assert(c == state.governor_candidates(b, s));
    lemma_by_priority_includes(c, 22, e, 0);
}

/// Whenever its condition holds at a base, the governor's plan for it includes
/// TransitHub at priority 105: "Machine Polity: Standardizing logistical architecture for efficiency."
pub proof fn law_governor_plans_transit_hub_at_105(state: GameState, base_id: usize, s: GovernorSignals)
    requires
        state.base_spec(base_id) matches Some(b) && (b.governor_mode == GovernorMode::MachinePolity && !b.facilities@.contains(F::TransitHub) && state.production_available_spec(b.owner, P::TransitHub)),
    ensures
        state.governor_plan_spec(base_id, s).contains((P::TransitHub, 105i32, "Machine Polity: Standardizing logistical architecture for efficiency."@)),
{
    reveal(GameState::buildable);
    lemma_concat_keeps();
    let b = state.base_spec(base_id)->0;
    let e = (P::TransitHub, 105i32, "Machine Polity: Standardizing logistical architecture for efficiency."@);
    assert(step_if(true, e.0, e.1, e.2)[0] == e);
    assert(plan_priorities()[1] == 105i32);
        let r1 = state.recovery_steps(b, s, Seq::empty());
        let r2 = state.support_steps(b, s, r1);
        let r3 = state.economy_steps(b, s, r2);
        let c = state.defense_steps(b, s, r3);
        assert(c.contains(e));
    assert(c == state.governor_candidates(b, s));
    lemma_by_priority_includes(c, 22, e, 1);
}

/// The governor proposes RecreationCommons at priority 100 only at a base where its rule's
/// condition holds.
pub proof fn law_governor_plans_recreation_commons_at_100_only_when_needed(state: GameState, base_id: usize, s: GovernorSignals)
    requires
        state.governor_plan_spec(base_id, s).contains((P::RecreationCommons, 100i32, "Unrest is reducing output here. Recreation Commons will stabilize the base."@)),
    ensures
        state.base_spec(base_id) matches Some(b) && (s.unrest > 0 && !b.facilities@.contains(F::RecreationCommons) && state.production_available_spec(b.owner, P::RecreationCommons)),
{
    reveal(GameState::buildable);
    lemma_concat_splits();
    let e = (P::RecreationCommons, 100i32, "Unrest is reducing output here. Recreation Commons will stabilize the base."@);
    let b = state.base_spec(base_id)->0;
    let c = state.governor_candidates(b, s);
    lemma_by_priority_within(c, 22);
    let k = choose|k: int| 0 <= k < state.governor_plan_spec(base_id, s).len() && state.governor_plan_spec(base_id, s)[k] == e;
    assert(c.contains(state.governor_plan_spec(base_id, s)[k]));
    assert(c.contains(e));
}

/// The governor proposes FieldHospital at priority 90 only at a base where its rule's
/// condition holds.
pub proof fn law_governor_plans_field_hospital_at_90_only_when_needed(state: GameState, base_id: usize, s: GovernorSignals)
    requires
        state.governor_plan_spec(base_id, s).contains((P::FieldHospital, 90i32, "Damaged garrisons are rotating through this base. Field Hospital will speed recovery."@)),
    ensures
        state.base_spec(base_id) matches Some(b) && (s.damaged_garrisons > 0 && !b.facilities@.contains(F::FieldHospital) && state.production_available_spec(b.owner, P::FieldHospital)),
{
    reveal(GameState::buildable);
    lemma_concat_splits();
    let e = (P::FieldHospital, 90i32, "Damaged garrisons are rotating through this base. Field Hospital will speed recovery."@);
    let b = state.base_spec(base_id)->0;
    let c = state.governor_candidates(b, s);
    lemma_by_priority_within(c, 22);
    let k = choose|k: int| 0 <= k < state.governor_plan_spec(base_id, s).len() && state.governor_plan_spec(base_id, s)[k] == e;
    assert(c.contains(state.governor_plan_spec(base_id, s)[k]));
    assert(c.contains(e));
}

/// The governor proposes HologramTheatre at priority 92 only at a base where its rule's
/// condition holds.
pub proof fn law_governor_plans_hologram_theatre_at_92_only_when_needed(state: GameState, base_id: usize, s: GovernorSignals)
    requires
        state.governor_plan_spec(base_id, s).contains((P::HologramTheatre, 92i32, "Morale infrastructure is already online here. Hologram Theatre will deepen unrest control and improve energy flow."@)),
    ensures
        state.base_spec(base_id) matches Some(b) && ((s.unrest > 0 || s.yields.energy <= s.yields.minerals) && b.facilities@.contains(F::RecreationCommons) && !b.facilities@.contains(F::HologramTheatre) && state.production_available_spec(b.owner, P::HologramTheatre)),
{
    reveal(GameState::buildable);
    lemma_concat_splits();
    let e = (P::HologramTheatre, 92i32, "Morale infrastructure is already online here. Hologram Theatre will deepen unrest control and improve energy flow."@);
    let b = state.base_spec(base_id)->0;
    let c = state.governor_candidates(b, s);
    lemma_by_priority_within(c, 22);
    let k = choose|k: int| 0 <= k < state.governor_plan_spec(base_id, s).len() && state.governor_plan_spec(base_id, s)[k] == e;
    assert(c.contains(state.governor_plan_spec(base_id, s)[k]));
    assert(c.contains(e));
}

/// The governor proposes ResearchHospital at priority 91 only at a base where its rule's
/// condition holds.
pub proof fn law_governor_plans_research_hospital_at_91_only_when_needed(state: GameState, base_id: usize, s: GovernorSignals)
    requires
        state.governor_plan_spec(base_id, s).contains((P::ResearchHospital, 91i32, "Recovery infrastructure is already active here. Research Hospital will accelerate healing, growth, and scientific output."@)),
    ensures
        state.base_spec(base_id) matches Some(b) && (s.damaged_garrisons > 0 && b.facilities@.contains(F::FieldHospital) && !b.facilities@.contains(F::ResearchHospital) && state.production_available_spec(b.owner, P::ResearchHospital)),
{
    reveal(GameState::buildable);
    lemma_concat_splits();
    let e = (P::ResearchHospital, 91i32, "Recovery infrastructure is already active here. Research Hospital will accelerate healing, growth, and scientific output."@);
    let b = state.base_spec(base_id)->0;
    let c = state.governor_candidates(b, s);
    lemma_by_priority_within(c, 22);
    let k = choose|k: int| 0 <= k < state.governor_plan_spec(base_id, s).len() && state.governor_plan_spec(base_id, s)[k] == e;
    assert(c.contains(state.governor_plan_spec(base_id, s)[k]));
    assert(c.contains(e));
}

/// The governor proposes PsiSentinel at priority 89 only at a base where its rule's
/// condition holds.
pub proof fn law_governor_plans_psi_sentinel_at_89_only_when_needed(state: GameState, base_id: usize, s: GovernorSignals)
    requires
        state.governor_plan_spec(base_id, s).contains((P::PsiSentinel, 89i32, "Psionic threats are nearby. Psi Sentinel will harden this base against native and psi pressure."@)),
    ensures
        state.base_spec(base_id) matches Some(b) && (s.psi_pressure >= 2 && state.production_available_spec(b.owner, P::PsiSentinel)),
{
    reveal(GameState::buildable);
    lemma_concat_splits();
    let e = (P::PsiSentinel, 89i32, "Psionic threats are nearby. Psi Sentinel will harden this base against native and psi pressure."@);
    let b = state.base_spec(base_id)->0;
    let c = state.governor_candidates(b, s);
    lemma_by_priority_within(c, 22);
    let k = choose|k: int| 0 <= k < state.governor_plan_spec(base_id, s).len() && state.governor_plan_spec(base_id, s)[k] == e;
    assert(c.contains(state.governor_plan_spec(base_id, s)[k]));
    assert(c.contains(e));
}

/// The governor proposes PsiBeacon at priority 88 only at a base where its rule's
/// condition holds.
pub proof fn law_governor_plans_psi_beacon_at_88_only_when_needed(state: GameState, base_id: usize, s: GovernorSignals)
    requires
        state.governor_plan_spec(base_id, s).contains((P::PsiBeacon, 88i32, "Psi pressure is building here. Psi Beacon will strengthen psionic security and local resilience."@)),
    ensures
        state.base_spec(base_id) matches Some(b) && (s.psi_pressure >= 1 && !b.facilities@.contains(F::PsiBeacon) && state.production_available_spec(b.owner, P::PsiBeacon)),
{
    reveal(GameState::buildable);
    lemma_concat_splits();
    let e = (P::PsiBeacon, 88i32, "Psi pressure is building here. Psi Beacon will strengthen psionic security and local resilience."@);
    let b = state.base_spec(base_id)->0;
    let c = state.governor_candidates(b, s);
    lemma_by_priority_within(c, 22);
    let k = choose|k: int| 0 <= k < state.governor_plan_spec(base_id, s).len() && state.governor_plan_spec(base_id, s)[k] == e;
    assert(c.contains(state.governor_plan_spec(base_id, s)[k]));
    assert(c.contains(e));
}

/// The governor proposes BioenhancementCenter at priority 87 only at a base where its rule's
/// condition holds.
pub proof fn law_governor_plans_bioenhancement_center_at_87_only_when_needed(state: GameState, base_id: usize, s: GovernorSignals)
    requires
        state.governor_plan_spec(base_id, s).contains((P::BioenhancementCenter, 87i32, "This base already has frontline support infrastructure. Bioenhancement Center will improve training, psi resilience, and sustained readiness."@)),
    ensures
        state.base_spec(base_id) matches Some(b) && ((s.military_pressure >= 1 || s.psi_pressure >= 1 || s.damaged_garrisons > 0) && (b.facilities@.contains(F::PsiBeacon) || b.facilities@.contains(F::MilitaryAcademy) || b.facilities@.contains(F::FieldHospital)) && !b.facilities@.contains(F::BioenhancementCenter) && state.production_available_spec(b.owner, P::BioenhancementCenter)),
{
    reveal(GameState::buildable);
    lemma_concat_splits();
    let e = (P::BioenhancementCenter, 87i32, "This base already has frontline support infrastructure. Bioenhancement Center will improve training, psi resilience, and sustained readiness."@);
    let b = state.base_spec(base_id)->0;
    let c = state.governor_candidates(b, s);
    lemma_by_priority_within(c, 22);
    let k = choose|k: int| 0 <= k < state.governor_plan_spec(base_id, s).len() && state.governor_plan_spec(base_id, s)[k] == e;
    assert(c.contains(state.governor_plan_spec(base_id, s)[k]));
    assert(c.contains(e));
}

/// The governor proposes CommandCenter at priority 80 only at a base where its rule's
/// condition holds.
pub proof fn law_governor_plans_command_center_at_80_only_when_needed(state: GameState, base_id: usize, s: GovernorSignals)
    requires
        state.governor_plan_spec(base_id, s).contains((P::CommandCenter, 80i32, "Support pressure is rising. Command Center will improve support and training."@)),
    ensures
        state.base_spec(base_id) matches Some(b) && (s.unit_upkeep > 0 && !b.facilities@.contains(F::CommandCenter) && state.production_available_spec(b.owner, P::CommandCenter)),
{
    reveal(GameState::buildable);
    lemma_concat_splits();
    let e = (P::CommandCenter, 80i32, "Support pressure is rising. Command Center will improve support and training."@);
    let b = state.base_spec(base_id)->0;
    let c = state.governor_candidates(b, s);
    lemma_by_priority_within(c, 22);
    let k = choose|k: int| 0 <= k < state.governor_plan_spec(base_id, s).len() && state.governor_plan_spec(base_id, s)[k] == e;
    assert(c.contains(state.governor_plan_spec(base_id, s)[k]));
    assert(c.contains(e));
}

/// The governor proposes NetworkNode at priority 66 only at a base where its rule's
/// condition holds.
pub proof fn law_governor_plans_network_node_at_66_only_when_needed(state: GameState, base_id: usize, s: GovernorSignals)
    requires
        state.governor_plan_spec(base_id, s).contains((P::NetworkNode, 66i32, "Research and energy output are lagging. Network Node will improve knowledge and energy flow."@)),
    ensures
        state.base_spec(base_id) matches Some(b) && (s.yields.energy <= s.yields.minerals && !b.facilities@.contains(F::NetworkNode) && state.production_available_spec(b.owner, P::NetworkNode)),
{
    reveal(GameState::buildable);
    lemma_concat_splits();
    let e = (P::NetworkNode, 66i32, "Research and energy output are lagging. Network Node will improve knowledge and energy flow."@);
    let b = state.base_spec(base_id)->0;
    let c = state.governor_candidates(b, s);
    lemma_by_priority_within(c, 22);
    let k = choose|k: int| 0 <= k < state.governor_plan_spec(base_id, s).len() && state.governor_plan_spec(base_id, s)[k] == e;
    assert(c.contains(state.governor_plan_spec(base_id, s)[k]));
    assert(c.contains(e));
}

/// The governor proposes TradeExchange at priority 65 only at a base where its rule's
/// condition holds.
pub proof fn law_governor_plans_trade_exchange_at_65_only_when_needed(state: GameState, base_id: usize, s: GovernorSignals)
    requires
        state.governor_plan_spec(base_id, s).contains((P::TradeExchange, 65i32, "Nearby friendly bases can support trade here. Trade Exchange will convert that network into stronger energy flow."@)),
    ensures
        state.base_spec(base_id) matches Some(b) && (state.bases@.filter(trade_partner_of(b)).len() >= 1 && !b.facilities@.contains(F::TradeExchange) && state.production_available_spec(b.owner, P::TradeExchange)),
{
    reveal(GameState::buildable);
    lemma_concat_splits();
    let e = (P::TradeExchange, 65i32, "Nearby friendly bases can support trade here. Trade Exchange will convert that network into stronger energy flow."@);
    let b = state.base_spec(base_id)->0;
    let c = state.governor_candidates(b, s);
    lemma_by_priority_within(c, 22);
    let k = choose|k: int| 0 <= k < state.governor_plan_spec(base_id, s).len() && state.governor_plan_spec(base_id, s)[k] == e;
    assert(c.contains(state.governor_plan_spec(base_id, s)[k]));
    assert(c.contains(e));
}

/// The governor proposes EscortSpeeder at priority 67 only at a base where its rule's
/// condition holds.
pub proof fn law_governor_plans_escort_speeder_at_67_only_when_needed(state: GameState, base_id: usize, s: GovernorSignals)
    requires
        state.governor_plan_spec(base_id, s).contains((P::EscortSpeeder, 67i32, "Local convoy lanes are exposed. Escort Speeder will add mobile interception defense."@)),
    ensures
        state.base_spec(base_id) matches Some(b) && (state.bases@.filter(trade_partner_of(b)).len() >= 1 && state.units@.filter(state.escort_near(b)).len() == 0 && state.production_available_spec(b.owner, P::EscortSpeeder) && (s.military_pressure >= 1 || s.psi_pressure >= 1 || s.convoy_lanes_threatened)),
{
    reveal(GameState::buildable);
    lemma_concat_splits();
    let e = (P::EscortSpeeder, 67i32, "Local convoy lanes are exposed. Escort Speeder will add mobile interception defense."@);
    let b = state.base_spec(base_id)->0;
    let c = state.governor_candidates(b, s);
    lemma_by_priority_within(c, 22);
    let k = choose|k: int| 0 <= k < state.governor_plan_spec(base_id, s).len() && state.governor_plan_spec(base_id, s)[k] == e;
    assert(c.contains(state.governor_plan_spec(base_id, s)[k]));
    assert(c.contains(e));
}

/// The governor proposes PatrolGrid at priority 66 only at a base where its rule's
/// condition holds.
pub proof fn law_governor_plans_patrol_grid_at_66_only_when_needed(state: GameState, base_id: usize, s: GovernorSignals)
    requires
        state.governor_plan_spec(base_id, s).contains((P::PatrolGrid, 66i32, "Convoy routes here need protection. Patrol Grid will increase route capacity and reduce logistics disruption."@)),
    ensures
        state.base_spec(base_id) matches Some(b) && (state.bases@.filter(trade_partner_of(b)).len() >= 1 && !b.facilities@.contains(F::PatrolGrid) && state.production_available_spec(b.owner, P::PatrolGrid) && (s.military_pressure >= 1 || s.psi_pressure >= 1)),
{
    reveal(GameState::buildable);
    lemma_concat_splits();
    let e = (P::PatrolGrid, 66i32, "Convoy routes here need protection. Patrol Grid will increase route capacity and reduce logistics disruption."@);
    let b = state.base_spec(base_id)->0;
    let c = state.governor_candidates(b, s);
    lemma_by_priority_within(c, 22);
    let k = choose|k: int| 0 <= k < state.governor_plan_spec(base_id, s).len() && state.governor_plan_spec(base_id, s)[k] == e;
    assert(c.contains(state.governor_plan_spec(base_id, s)[k]));
    assert(c.contains(e));
}

/// The governor proposes FreightDepot at priority 64 only at a base where its rule's
/// condition holds.
pub proof fn law_governor_plans_freight_depot_at_64_only_when_needed(state: GameState, base_id: usize, s: GovernorSignals)
    requires
        state.governor_plan_spec(base_id, s).contains((P::FreightDepot, 64i32, "Friendly bases can support freight flow here. Freight Depot will convert that network into stronger mineral throughput."@)),
    ensures
        state.base_spec(base_id) matches Some(b) && (state.bases@.filter(trade_partner_of(b)).len() >= 1 && !b.facilities@.contains(F::FreightDepot) && state.production_available_spec(b.owner, P::FreightDepot) && (b.facilities@.contains(F::TradeExchange) || s.yields.minerals <= s.yields.energy)),
{
    reveal(GameState::buildable);
    lemma_concat_splits();
    let e = (P::FreightDepot, 64i32, "Friendly bases can support freight flow here. Freight Depot will convert that network into stronger mineral throughput."@);
    let b = state.base_spec(base_id)->0;
    let c = state.governor_candidates(b, s);
    lemma_by_priority_within(c, 22);
    let k = choose|k: int| 0 <= k < state.governor_plan_spec(base_id, s).len() && state.governor_plan_spec(base_id, s)[k] == e;
    assert(c.contains(state.governor_plan_spec(base_id, s)[k]));
    assert(c.contains(e));
}

/// The governor proposes Greenhouse at priority 65 only at a base where its rule's
/// condition holds.
pub proof fn law_governor_plans_greenhouse_at_65_only_when_needed(state: GameState, base_id: usize, s: GovernorSignals)
    requires
        state.governor_plan_spec(base_id, s).contains((P::Greenhouse, 65i32, "Food security is thin here. Greenhouse will improve nutrient flow and growth resilience."@)),
    ensures
        state.base_spec(base_id) matches Some(b) && (s.yields.nutrients <= (if b.population > 1 { b.population as int } else { 1 }) + 1 && !b.facilities@.contains(F::Greenhouse) && state.production_available_spec(b.owner, P::Greenhouse)),
{
    reveal(GameState::buildable);
    lemma_concat_splits();
    let e = (P::Greenhouse, 65i32, "Food security is thin here. Greenhouse will improve nutrient flow and growth resilience."@);
    let b = state.base_spec(base_id)->0;
    let c = state.governor_candidates(b, s);
    lemma_by_priority_within(c, 22);
    let k = choose|k: int| 0 <= k < state.governor_plan_spec(base_id, s).len() && state.governor_plan_spec(base_id, s)[k] == e;
    assert(c.contains(state.governor_plan_spec(base_id, s)[k]));
    assert(c.contains(e));
}

/// The governor proposes MineralRefinery at priority 64 only at a base where its rule's
/// condition holds.
pub proof fn law_governor_plans_mineral_refinery_at_64_only_when_needed(state: GameState, base_id: usize, s: GovernorSignals)
    requires
        state.governor_plan_spec(base_id, s).contains((P::MineralRefinery, 64i32, "Extraction throughput is thin here. Mineral Refinery will strengthen industrial output."@)),
    ensures
        state.base_spec(base_id) matches Some(b) && (s.yields.minerals <= 6 && !b.facilities@.contains(F::MineralRefinery) && state.production_available_spec(b.owner, P::MineralRefinery)),
{
    reveal(GameState::buildable);
    lemma_concat_splits();
    let e = (P::MineralRefinery, 64i32, "Extraction throughput is thin here. Mineral Refinery will strengthen industrial output."@);
    let b = state.base_spec(base_id)->0;
    let c = state.governor_candidates(b, s);
    lemma_by_priority_within(c, 22);
    let k = choose|k: int| 0 <= k < state.governor_plan_spec(base_id, s).len() && state.governor_plan_spec(base_id, s)[k] == e;
    assert(c.contains(state.governor_plan_spec(base_id, s)[k]));
    assert(c.contains(e));
}

/// The governor proposes RecyclingTanks at priority 63 only at a base where its rule's
/// condition holds.
pub proof fn law_governor_plans_recycling_tanks_at_63_only_when_needed(state: GameState, base_id: usize, s: GovernorSignals)
    requires
        state.governor_plan_spec(base_id, s).contains((P::RecyclingTanks, 63i32, "Core growth and mineral flow are thin. Recycling Tanks will stabilize early economic output."@)),
    ensures
        state.base_spec(base_id) matches Some(b) && ((s.yields.nutrients <= 6 || s.yields.minerals <= 6) && !b.facilities@.contains(F::RecyclingTanks) && state.production_available_spec(b.owner, P::RecyclingTanks)),
{
    reveal(GameState::buildable);
    lemma_concat_splits();
    let e = (P::RecyclingTanks, 63i32, "Core growth and mineral flow are thin. Recycling Tanks will stabilize early economic output."@);
    let b = state.base_spec(base_id)->0;
    let c = state.governor_candidates(b, s);
    lemma_by_priority_within(c, 22);
    let k = choose|k: int| 0 <= k < state.governor_plan_spec(base_id, s).len() && state.governor_plan_spec(base_id, s)[k] == e;
    assert(c.contains(state.governor_plan_spec(base_id, s)[k]));
    assert(c.contains(e));
}

/// The governor proposes ResearchHospital at priority 76 only at a base where its rule's
/// condition holds.
pub proof fn law_governor_plans_research_hospital_at_76_only_when_needed(state: GameState, base_id: usize, s: GovernorSignals)
    requires
        state.governor_plan_spec(base_id, s).contains((P::ResearchHospital, 76i32, "This base needs stronger long-term recovery and research support. Research Hospital will improve healing, growth, and energy output."@)),
    ensures
        state.base_spec(base_id) matches Some(b) && ((s.food_margin <= 0 || s.yields.energy <= s.yields.minerals) && b.facilities@.contains(F::FieldHospital) && !b.facilities@.contains(F::ResearchHospital) && state.production_available_spec(b.owner, P::ResearchHospital)),
{
    reveal(GameState::buildable);
    lemma_concat_splits();
    let e = (P::ResearchHospital, 76i32, "This base needs stronger long-term recovery and research support. Research Hospital will improve healing, growth, and energy output."@);
    let b = state.base_spec(base_id)->0;
    let c = state.governor_candidates(b, s);
    lemma_by_priority_within(c, 22);
    let k = choose|k: int| 0 <= k < state.governor_plan_spec(base_id, s).len() && state.governor_plan_spec(base_id, s)[k] == e;
    assert(c.contains(state.governor_plan_spec(base_id, s)[k]));
    assert(c.contains(e));
}

/// The governor proposes PerimeterDefense at priority 75 only at a base where its rule's
/// condition holds.
pub proof fn law_governor_plans_perimeter_defense_at_75_only_when_needed(state: GameState, base_id: usize, s: GovernorSignals)
    requires
        state.governor_plan_spec(base_id, s).contains((P::PerimeterDefense, 75i32, "Frontline pressure is high. Perimeter Defense will harden this base immediately."@)),
    ensures
        state.base_spec(base_id) matches Some(b) && (s.military_pressure >= 2 && !b.facilities@.contains(F::PerimeterDefense) && state.production_available_spec(b.owner, P::PerimeterDefense)),
{
    reveal(GameState::buildable);
    lemma_concat_splits();
    let e = (P::PerimeterDefense, 75i32, "Frontline pressure is high. Perimeter Defense will harden this base immediately."@);
    let b = state.base_spec(base_id)->0;
    let c = state.governor_candidates(b, s);
    lemma_by_priority_within(c, 22);
    let k = choose|k: int| 0 <= k < state.governor_plan_spec(base_id, s).len() && state.governor_plan_spec(base_id, s)[k] == e;
    assert(c.contains(state.governor_plan_spec(base_id, s)[k]));
    assert(c.contains(e));
}

/// The governor proposes SensorArray at priority 72 only at a base where its rule's
/// condition holds.
pub proof fn law_governor_plans_sensor_array_at_72_only_when_needed(state: GameState, base_id: usize, s: GovernorSignals)
    requires
        state.governor_plan_spec(base_id, s).contains((P::SensorArray, 72i32, "Sensor coverage is thin. Sensor Array will strengthen frontier defense and energy output."@)),
    ensures
        state.base_spec(base_id) matches Some(b) && (s.military_pressure >= 1 && !b.facilities@.contains(F::SensorArray) && state.production_available_spec(b.owner, P::SensorArray)),
{
    reveal(GameState::buildable);
    lemma_concat_splits();
    let e = (P::SensorArray, 72i32, "Sensor coverage is thin. Sensor Array will strengthen frontier defense and energy output."@);
    let b = state.base_spec(base_id)->0;
    let c = state.governor_candidates(b, s);
    lemma_by_priority_within(c, 22);
    let k = choose|k: int| 0 <= k < state.governor_plan_spec(base_id, s).len() && state.governor_plan_spec(base_id, s)[k] == e;
    assert(c.contains(state.governor_plan_spec(base_id, s)[k]));
    assert(c.contains(e));
}

/// The governor proposes TransitHub at priority 71 only at a base where its rule's
/// condition holds.
pub proof fn law_governor_plans_transit_hub_at_71_only_when_needed(state: GameState, base_id: usize, s: GovernorSignals)
    requires
        state.governor_plan_spec(base_id, s).contains((P::TransitHub, 71i32, "Fast-response forces need better logistics. Transit Hub will support mobile strike units."@)),
    ensures
        state.base_spec(base_id) matches Some(b) && (s.military_pressure >= 1 && s.attack_bias >= 1 && !b.facilities@.contains(F::TransitHub) && state.production_available_spec(b.owner, P::TransitHub)),
{
    reveal(GameState::buildable);
    lemma_concat_splits();
    let e = (P::TransitHub, 71i32, "Fast-response forces need better logistics. Transit Hub will support mobile strike units."@);
    let b = state.base_spec(base_id)->0;
    let c = state.governor_candidates(b, s);
    lemma_by_priority_within(c, 22);
    let k = choose|k: int| 0 <= k < state.governor_plan_spec(base_id, s).len() && state.governor_plan_spec(base_id, s)[k] == e;
    assert(c.contains(state.governor_plan_spec(base_id, s)[k]));
    assert(c.contains(e));
}

/// The governor proposes ForwardDepot at priority 70 only at a base where its rule's
/// condition holds.
pub proof fn law_governor_plans_forward_depot_at_70_only_when_needed(state: GameState, base_id: usize, s: GovernorSignals)
    requires
        state.governor_plan_spec(base_id, s).contains((P::ForwardDepot, 70i32, "Mobile forces are active here. Forward Depot will sustain fast-response attacks and repairs."@)),
    ensures
        state.base_spec(base_id) matches Some(b) && (s.military_pressure >= 1 && s.attack_bias >= 1 && b.facilities@.contains(F::TransitHub) && !b.facilities@.contains(F::ForwardDepot) && state.production_available_spec(b.owner, P::ForwardDepot)),
{
    reveal(GameState::buildable);
    lemma_concat_splits();
    let e = (P::ForwardDepot, 70i32, "Mobile forces are active here. Forward Depot will sustain fast-response attacks and repairs."@);
    let b = state.base_spec(base_id)->0;
    let c = state.governor_candidates(b, s);
    lemma_by_priority_within(c, 22);
    let k = choose|k: int| 0 <= k < state.governor_plan_spec(base_id, s).len() && state.governor_plan_spec(base_id, s)[k] == e;
    assert(c.contains(state.governor_plan_spec(base_id, s)[k]));
    assert(c.contains(e));
}

/// The governor proposes GarrisonGuard at priority 68 only at a base where its rule's
/// condition holds.
pub proof fn law_governor_plans_garrison_guard_at_68_only_when_needed(state: GameState, base_id: usize, s: GovernorSignals)
    requires
        state.governor_plan_spec(base_id, s).contains((P::GarrisonGuard, 68i32, "A hardened garrison unit would improve local base defense immediately."@)),
    ensures
        state.base_spec(base_id) matches Some(b) && (s.military_pressure >= 2 && state.production_available_spec(b.owner, P::GarrisonGuard)),
{
    reveal(GameState::buildable);
    lemma_concat_splits();
    let e = (P::GarrisonGuard, 68i32, "A hardened garrison unit would improve local base defense immediately."@);
    let b = state.base_spec(base_id)->0;
    let c = state.governor_candidates(b, s);
    lemma_by_priority_within(c, 22);
    let k = choose|k: int| 0 <= k < state.governor_plan_spec(base_id, s).len() && state.governor_plan_spec(base_id, s)[k] == e;
    assert(c.contains(state.governor_plan_spec(base_id, s)[k]));
    assert(c.contains(e));
}

/// The governor proposes PsiSentinel at priority 67 only at a base where its rule's
/// condition holds.
pub proof fn law_governor_plans_psi_sentinel_at_67_only_when_needed(state: GameState, base_id: usize, s: GovernorSignals)
    requires
        state.governor_plan_spec(base_id, s).contains((P::PsiSentinel, 67i32, "Psionic defense is available. Psi Sentinel would strengthen hostile-frontier security."@)),
    ensures
        state.base_spec(base_id) matches Some(b) && (s.military_pressure >= 2 && state.production_available_spec(b.owner, P::PsiSentinel)),
{
    reveal(GameState::buildable);
    lemma_concat_splits();
    let e = (P::PsiSentinel, 67i32, "Psionic defense is available. Psi Sentinel would strengthen hostile-frontier security."@);
    let b = state.base_spec(base_id)->0;
    let c = state.governor_candidates(b, s);
    lemma_by_priority_within(c, 22);
    let k = choose|k: int| 0 <= k < state.governor_plan_spec(base_id, s).len() && state.governor_plan_spec(base_id, s)[k] == e;
    assert(c.contains(state.governor_plan_spec(base_id, s)[k]));
    assert(c.contains(e));
}

/// The governor proposes MilitaryAcademy at priority 70 only at a base where its rule's
/// condition holds.
pub proof fn law_governor_plans_military_academy_at_70_only_when_needed(state: GameState, base_id: usize, s: GovernorSignals)
    requires
        state.governor_plan_spec(base_id, s).contains((P::MilitaryAcademy, 70i32, "Frontline pressure is high. Military Academy will field veteran troops faster."@)),
    ensures
        state.base_spec(base_id) matches Some(b) && (s.military_pressure >= 2 && !b.facilities@.contains(F::MilitaryAcademy) && state.production_available_spec(b.owner, P::MilitaryAcademy)),
{
    reveal(GameState::buildable);
    lemma_concat_splits();
    let e = (P::MilitaryAcademy, 70i32, "Frontline pressure is high. Military Academy will field veteran troops faster."@);
    let b = state.base_spec(base_id)->0;
    let c = state.governor_candidates(b, s);
    lemma_by_priority_within(c, 22);
    let k = choose|k: int| 0 <= k < state.governor_plan_spec(base_id, s).len() && state.governor_plan_spec(base_id, s)[k] == e;
    assert(c.contains(state.governor_plan_spec(base_id, s)[k]));
    assert(c.contains(e));
}

/// The governor proposes ResonanceLaser at priority 69 only at a base where its rule's
/// condition holds.
pub proof fn law_governor_plans_resonance_laser_at_69_only_when_needed(state: GameState, base_id: usize, s: GovernorSignals)
    requires
        state.governor_plan_spec(base_id, s).contains((P::ResonanceLaser, 69i32, "Advanced shock infantry is available here. Resonance Laser can anchor breakthroughs and punish exposed attackers."@)),
    ensures
        state.base_spec(base_id) matches Some(b) && (s.military_pressure >= 1 && s.attack_bias >= 1 && state.production_available_spec(b.owner, P::ResonanceLaser)),
{
    reveal(GameState::buildable);
    lemma_concat_splits();
    let e = (P::ResonanceLaser, 69i32, "Advanced shock infantry is available here. Resonance Laser can anchor breakthroughs and punish exposed attackers."@);
    let b = state.base_spec(base_id)->0;
    let c = state.governor_candidates(b, s);
    lemma_by_priority_within(c, 22);
    let k = choose|k: int| 0 <= k < state.governor_plan_spec(base_id, s).len() && state.governor_plan_spec(base_id, s)[k] == e;
    assert(c.contains(state.governor_plan_spec(base_id, s)[k]));
    assert(c.contains(e));
}

/// The governor proposes RaiderSpeeder at priority 69 only at a base where its rule's
/// condition holds.
pub proof fn law_governor_plans_raider_speeder_at_69_only_when_needed(state: GameState, base_id: usize, s: GovernorSignals)
    requires
        state.governor_plan_spec(base_id, s).contains((P::RaiderSpeeder, 69i32, "Mobile strike pressure fits this doctrine. Raider Speeder can exploit exposed enemy lines quickly."@)),
    ensures
        state.base_spec(base_id) matches Some(b) && (s.military_pressure >= 1 && s.attack_bias >= 1 && state.production_available_spec(b.owner, P::RaiderSpeeder)),
{
    reveal(GameState::buildable);
    lemma_concat_splits();
    let e = (P::RaiderSpeeder, 69i32, "Mobile strike pressure fits this doctrine. Raider Speeder can exploit exposed enemy lines quickly."@);
    let b = state.base_spec(base_id)->0;
    let c = state.governor_candidates(b, s);
    lemma_by_priority_within(c, 22);
    let k = choose|k: int| 0 <= k < state.governor_plan_spec(base_id, s).len() && state.governor_plan_spec(base_id, s)[k] == e;
    assert(c.contains(state.governor_plan_spec(base_id, s)[k]));
    assert(c.contains(e));
}

/// The governor proposes MineralRefinery at priority 110 only at a base where its rule's
/// condition holds.
pub proof fn law_governor_plans_mineral_refinery_at_110_only_when_needed(state: GameState, base_id: usize, s: GovernorSignals)
    requires
        state.governor_plan_spec(base_id, s).contains((P::MineralRefinery, 110i32, "Machine Polity: Prioritizing raw mineral throughput for industrial dominance."@)),
    ensures
        state.base_spec(base_id) matches Some(b) && (b.governor_mode == GovernorMode::MachinePolity && !b.facilities@.contains(F::MineralRefinery) && state.production_available_spec(b.owner, P::MineralRefinery)),
{
    reveal(GameState::buildable);
    lemma_concat_splits();
    let e = (P::MineralRefinery, 110i32, "Machine Polity: Prioritizing raw mineral throughput for industrial dominance."@);
    let b = state.base_spec(base_id)->0;
    let c = state.governor_candidates(b, s);
    lemma_by_priority_within(c, 22);
    let k = choose|k: int| 0 <= k < state.governor_plan_spec(base_id, s).len() && state.governor_plan_spec(base_id, s)[k] == e;
    assert(c.contains(state.governor_plan_spec(base_id, s)[k]));
    assert(c.contains(e));
}

/// The governor proposes TransitHub at priority 105 only at a base where its rule's
/// condition holds.
pub proof fn law_governor_plans_transit_hub_at_105_only_when_needed(state: GameState, base_id: usize, s: GovernorSignals)
    requires
        state.governor_plan_spec(base_id, s).contains((P::TransitHub, 105i32, "Machine Polity: Standardizing logistical architecture for efficiency."@)),
    ensures
        state.base_spec(base_id) matches Some(b) && (b.governor_mode == GovernorMode::MachinePolity && !b.facilities@.contains(F::TransitHub) && state.production_available_spec(b.owner, P::TransitHub)),
{
    reveal(GameState::buildable);
    lemma_concat_splits();
    let e = (P::TransitHub, 105i32, "Machine Polity: Standardizing logistical architecture for efficiency."@);
    let b = state.base_spec(base_id)->0;
    let c = state.governor_candidates(b, s);
    lemma_by_priority_within(c, 22);
    let k = choose|k: int| 0 <= k < state.governor_plan_spec(base_id, s).len() && state.governor_plan_spec(base_id, s)[k] == e;
    assert(c.contains(state.governor_plan_spec(base_id, s)[k]));
    assert(c.contains(e));
}

} // verus!
