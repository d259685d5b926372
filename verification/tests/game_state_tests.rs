use std::collections::BTreeSet;

use smac_core::components::{Ability, Armor, Chassis, UnitDesign, Weapon};
use smac_core::model::{CouncilState, CouncilVote, DemandKind, FactionAttributes, SocialEngineering};
use smac_core::{
    Base, ConvoyRoute, ConvoyRouteKind, DiplomacyStatus, DiplomaticRelation, Economics,
    ConvoyOverlayStatus, EventCategory, EventLogEntry, Faction, GameOver, GameState, GovernorMode, Improvement,
    MapInteractionResult, Politics, ProductionItem, SecretProject, SidebarTab, Tech, Terrain, Tile,
    Unit, UnitActivity, UnitKind, Values, Yields,
};

fn faction(id: usize, name: &str) -> Faction {
    Faction {
        id,
        name: name.to_string(),
        energy: 10,
        research: 0,
        techs_discovered: 1,
        is_ai: id != 0,
        known_techs: vec![Tech::CentauriEcology],
        current_research: Tech::SocialPsych,
        unit_designs: Vec::new(),
        food_security: 0,
        ai_dependence: 0,
        orbital_index: 0,
        sky_hydroponics: 0,
        solar_transmitters: 0,
        orbital_defenses: 0,
        planet_toxicity: 0,
        base_attributes: FactionAttributes::default(),
        social_engineering: SocialEngineering::default(),
        personality: Default::default(),
        headquarters_base_id: None,
    }
}

fn unit(id: usize, owner: usize, kind: UnitKind, x: usize, y: usize) -> Unit {
    Unit {
        id,
        owner,
        kind,
        design_index: 0,
        x,
        y,
        moves_left: 1,
        hp: 10,
        experience: 0,
        cargo_unit_ids: Vec::new(),
        activity: UnitActivity::Idle,
        alive: true,
    }
}

fn base(id: usize, owner: usize, name: &str, x: usize, y: usize) -> Base {
    Base {
        id,
        owner,
        name: name.to_string(),
        x,
        y,
        population: 1,
        nutrients_stock: 0,
        minerals_stock: 5,
        production: ProductionItem::ScoutPatrol,
        production_queue: Vec::new(),
        facilities: Vec::new(),
        governor_mode: GovernorMode::Off,
    }
}

/// A 4 x 3 map of flat land explored and seen by faction 0, with two factions and the natives.
fn sample_state() -> GameState {
    let width = 4;
    let height = 3;
    let mut tiles = Vec::new();
    for y in 0..height {
        for x in 0..width {
            let mut seen = BTreeSet::new();
            seen.insert(0usize);
            tiles.push(Tile {
                x,
                y,
                terrain: Terrain::Flat,
                elevation: 1,
                moisture: 1,
                unit: None,
                base: None,
                pod: false,
                improvement: None,
                explored_by_owner: seen.clone(),
                visible_by_owner: seen,
            });
        }
    }
    let factions = vec![faction(0, "Peacekeepers"), faction(1, "Spartans"), faction(2, "Natives")];
    let relations = vec![vec![DiplomaticRelation::default(); 3]; 3];
    GameState {
        width,
        height,
        seed: 7,
        turn: 10,
        dust_fall_turns_left: 0,
        tidal_chaos_turns_left: 0,
        tiles,
        units: Vec::new(),
        bases: Vec::new(),
        convoy_routes: Vec::new(),
        factions,
        relations,
        built_secret_projects: Vec::new(),
        log: Vec::new(),
        pending_diplomacy_offers: Vec::new(),
        pending_tech_trades: Vec::new(),
        pending_demands: Vec::new(),
        triggered_narratives: Vec::new(),
        council: CouncilState::default(),
        game_over: None,
        command_center_turn_traces: Vec::new(),
    }
}

fn last_log(state: &GameState) -> String {
    state.log.last().map(|e| e.message.clone()).unwrap_or_default()
}

#[test]
fn lookups_find_tiles_units_bases_and_factions() {
    let mut state = sample_state();
    state.units.push(unit(5, 0, UnitKind::ScoutPatrol, 1, 1));
    state.bases.push(base(0, 1, "Sparta Command", 2, 2));
    assert_eq!(state.tile_index(3, 2), 11);
    assert_eq!(state.tile(3, 2).map(|t| (t.x, t.y)), Some((3, 2)));
    assert!(state.tile(4, 0).is_none());
    assert_eq!(state.unit(5).map(|u| u.x), Some(1));
    assert!(state.unit(6).is_none());
    assert_eq!(state.base(0).map(|b| b.name.clone()), Some("Sparta Command".to_string()));
    assert_eq!(state.faction_name(1), "Spartans");
    assert_eq!(state.faction_name(9), "Faction");
    assert_eq!(state.live_units_for(0).len(), 1);
    assert_eq!(state.bases_for(1).len(), 1);
    assert!(state.faction_alive(0));
    assert!(state.faction_alive(1));
    assert!(!state.faction_alive(2));
    assert_eq!(state.distance(0, 0, 3, 2), 5);
    assert!(GameState::is_adjacent(1, 1, 2, 2));
    assert!(!GameState::is_adjacent(1, 1, 1, 1));
    assert!(state.tile_visible_to_owner(0, 0, 0));
    assert!(!state.tile_explored_by_owner(0, 0, 1));
}

#[test]
fn log_keeps_at_most_ten_thousand_entries() {
    let mut state = sample_state();
    for i in 0..10001 {
        state.push_log(format!("entry {i}"));
    }
    assert_eq!(state.log.len(), 10000);
    assert_eq!(state.log[0].message, "entry 1");
    assert_eq!(state.log[9999].message, "entry 10000");
    assert_eq!(state.log[9999].category, EventCategory::General);
    assert_eq!(state.log[9999].turn, 10);
}

#[test]
fn noise_is_a_fixed_hash_of_its_inputs() {
    let state = sample_state();
    let a = state.sample_noise(1, 2, 3);
    assert_eq!(a, state.sample_noise(1, 2, 3));
    let mut n: u32 = 7 ^ 3 ^ 1u32.wrapping_mul(374_761_393) ^ 2u32.wrapping_mul(668_265_263);
    n = (n ^ (n >> 13)).wrapping_mul(1_274_126_177);
    assert_eq!(a, n ^ (n >> 16));
}

#[test]
fn tile_yields_count_improvements_and_mirrors() {
    let mut state = sample_state();
    state.tiles[5].improvement = Some(Improvement::Solar);
    state.tiles[4].improvement = Some(Improvement::EchelonMirror);
    state.tiles[0].improvement = Some(Improvement::EchelonMirror);
    state.tiles[1].improvement = Some(Improvement::Condenser);
    // flat 2/1/1 plus solar 0/0/2 plus two neighbouring mirrors
    assert_eq!(state.tile_total_yields(1, 1), Yields { nutrients: 2, minerals: 1, energy: 5 });
    assert_eq!(state.count_adjacent_improvements(1, 1, Improvement::EchelonMirror), 2);
    // condenser doubles nutrients: (2 + 2) * 2
    assert_eq!(state.tile_total_yields(1, 0), Yields { nutrients: 8, minerals: 1, energy: 1 });
    assert_eq!(state.tile_yield_summary(1, 0), "8 nutrients / 1 minerals / 1 energy");
    state.tidal_chaos_turns_left = 2;
    state.tiles[1].elevation = 0;
    assert_eq!(state.tile_total_yields(1, 0), Yields { nutrients: 0, minerals: 0, energy: 0 });
    assert_eq!(state.tile_total_yields(9, 9), Yields { nutrients: 0, minerals: 0, energy: 0 });
}

#[test]
fn potential_improvements_list_land_options() {
    let mut state = sample_state();
    let options = state.tile_potential_improvements(0, 0);
    assert_eq!(options.len(), 5);
    assert_eq!(options[0], (Improvement::Farm, Yields { nutrients: 3, minerals: 1, energy: 1 }));
    assert_eq!(options[4], (Improvement::ThermalBorehole, Yields { nutrients: 2, minerals: 7, energy: 7 }));
    state.tiles[0].terrain = Terrain::Ocean;
    assert!(state.tile_potential_improvements(0, 0).is_empty());
}

#[test]
fn unit_path_moves_diagonally_then_straight() {
    let mut state = sample_state();
    state.units.push(unit(1, 0, UnitKind::Speeder, 0, 0));
    assert_eq!(state.unit_path_to(1, 3, 1), vec![(1, 1), (2, 1), (3, 1)]);
    assert_eq!(state.unit_path_to(1, 0, 0), Vec::<(usize, usize)>::new());
    assert_eq!(state.unit_path_to(1, 100, 0).len(), 50);
    assert!(state.unit_path_to(2, 1, 1).is_empty());
}

#[test]
fn control_goes_to_the_first_closest_base() {
    let mut state = sample_state();
    assert_eq!(state.control_owner_at(1, 1), None);
    state.bases.push(base(0, 0, "Alpha", 0, 0));
    state.bases.push(base(1, 1, "Beta", 3, 0));
    assert_eq!(state.control_owner_at(1, 0), Some(0));
    assert_eq!(state.control_owner_at(2, 0), Some(1));
    assert!(state.is_border_tile(1, 0));
    assert!(!state.is_border_tile(0, 2));
}

#[test]
fn psi_threat_weighs_hostile_psi_units_by_distance() {
    let mut state = sample_state();
    state.units.push(unit(1, 1, UnitKind::MindWorm, 0, 0));
    state.units.push(unit(2, 1, UnitKind::TranceScout, 3, 2));
    state.units.push(unit(3, 0, UnitKind::MindWorm, 0, 0));
    state.units.push(unit(4, 1, UnitKind::ScoutPatrol, 0, 0));
    // distance 1 counts 3, distance 4 counts 2; own and non-psi units do not count
    assert_eq!(state.psi_threat_at(0, 1, 0), 5);
}

#[test]
fn unit_traits_follow_design_and_kind() {
    let mut state = sample_state();
    state.factions[0].unit_designs.push(UnitDesign {
        name: "Lifter".to_string(),
        chassis: Chassis::Sea,
        weapon: Weapon::HandLaser(1),
        armor: Armor::SynthMetal(1),
        abilities: vec![Ability::Transport, Ability::Escort],
        cost: 30,
    });
    state.units.push(unit(1, 0, UnitKind::CustomUnit(state.factions[0].unit_designs[0].clone()), 0, 0));
    state.units.push(unit(2, 0, UnitKind::Needlejet, 1, 0));
    // abilities follow the design index: the jet points at no design
    state.units[1].design_index = 5;
    assert!(!state.unit_has_ability(2, Ability::Escort));
    assert!(state.unit_has_ability(1, Ability::Transport));
    assert!(!state.unit_has_ability(1, Ability::Amphibious));
    assert!(state.unit_is_sea_unit(1));
    assert!(state.unit_can_enter_ocean(1));
    assert!(!state.unit_can_enter_land(1));
    assert!(state.unit_is_aircraft(2));
    assert!(state.unit_is_fast(2));
    assert!(state.unit_is_exposed(2));
    assert_eq!(state.unit_weapon(1), Some(Weapon::HandLaser(1)));
    assert_eq!(state.tile_move_cost(1, 0, 0), 99);
    assert_eq!(state.tile_move_cost(2, 0, 0), 1);
    state.bases.push(base(0, 0, "Home", 0, 1));
    assert_eq!(state.base_convoy_escort_count(0), 1);
    assert_eq!(state.base_convoy_escort_security(0), 2);
}

#[test]
fn production_queue_edits_report_and_refuse() {
    let mut state = sample_state();
    let mut b = base(3, 0, "Haven", 1, 1);
    b.production_queue = vec![ProductionItem::Former, ProductionItem::ColonyPod, ProductionItem::ProbeTeam];
    state.bases.push(b);
    assert_eq!(
        state.promote_queued_production_to_active(9, 0),
        Err("Base not found.".to_string())
    );
    assert_eq!(
        state.remove_queued_production(3, 7),
        Err("Queue item not found.".to_string())
    );
    assert!(state.promote_queued_production_to_active(3, 1).is_ok());
    assert_eq!(state.bases[0].production, ProductionItem::ColonyPod);
    assert_eq!(
        state.bases[0].production_queue,
        vec![ProductionItem::ScoutPatrol, ProductionItem::Former, ProductionItem::ProbeTeam]
    );
    assert_eq!(state.bases[0].minerals_stock, 0);
    assert_eq!(last_log(&state), "Haven promoted Colony Pod to active production.");
    assert!(state.move_queued_production_up(3, 2).is_ok());
    assert_eq!(
        state.bases[0].production_queue,
        vec![ProductionItem::ScoutPatrol, ProductionItem::ProbeTeam, ProductionItem::Former]
    );
    assert_eq!(
        state.move_queued_production_down(3, 2),
        Err("Queue item cannot move down.".to_string())
    );
    assert!(!state.move_queued_production_up_action(3, 0));
    assert_eq!(last_log(&state), "Queue move failed: Queue item cannot move up.");
    assert!(state.remove_queued_production_action(3, 0));
    assert_eq!(last_log(&state), "Haven removed Scout Patrol from its queue.");
    assert!(state.clear_production_queue(3).is_ok());
    assert!(state.bases[0].production_queue.is_empty());
    assert!(!state.clear_production_queue_action(3));
    assert_eq!(last_log(&state), "Queue clear failed: Production queue is already empty.");
}

#[test]
fn governor_and_facility_edits() {
    let mut state = sample_state();
    state.bases.push(base(0, 0, "Haven", 1, 1));
    assert_eq!(state.governor_mode_for_base(0), GovernorMode::Off);
    assert!(state.set_base_governor_mode_action(0, GovernorMode::Economy));
    assert_eq!(last_log(&state), "Haven governor set to Economy.");
    assert!(!state.set_base_governor_mode_action(0, GovernorMode::Economy));
    assert!(!state.set_base_governor_mode_action(4, GovernorMode::Economy));
    assert_eq!(last_log(&state), "Governor change failed: base not found.");
    assert_eq!(state.faction_governor_mode_counts(0), (0, 0, 0, 0, 1, 0));
    assert!(state.complete_facility(0, smac_core::Facility::RecyclingTanks));
    assert!(!state.complete_facility(0, smac_core::Facility::RecyclingTanks));
    state.bases[0].production_queue = vec![ProductionItem::Former];
    state.advance_base_queue(0);
    assert_eq!(state.bases[0].production, ProductionItem::Former);
    assert!(state.bases[0].production_queue.is_empty());
    assert_eq!(state.production_name(0, ProductionItem::CustomUnit(3)), "Unknown Custom Unit");
    assert_eq!(state.production_role_badge(0, ProductionItem::CustomUnit(3)), "✧CST");
}

#[test]
fn expansion_limit_grows_with_map_and_efficiency() {
    let mut state = sample_state();
    assert_eq!(state.base_expansion_limit(7), 8);
    // 12 tiles give a factor of one: 4 + 1 + 0
    assert_eq!(state.base_expansion_limit(0), 5);
    state.factions[0].base_attributes.efficiency = 2;
    assert_eq!(state.base_expansion_limit(0), 9);
    state.factions[0].base_attributes.efficiency = -5;
    assert_eq!(state.base_expansion_limit(0), 2);
}

#[test]
fn council_sessions_elect_by_two_thirds() {
    let mut state = sample_state();
    assert_eq!(state.call_council(), Err("Planetary Council is not yet active.".to_string()));
    state.built_secret_projects.push((SecretProject::EmpathGuild, 0));
    state.check_council_activation();
    assert!(state.council.is_active);
    assert_eq!(
        last_log(&state),
        "PLANETARY COUNCIL: The Empath Guild has established the Planetary Council."
    );
    state.council.last_meeting_turn = -20;
    assert!(state.call_council().is_ok());
    let mut b = base(0, 0, "Haven", 1, 1);
    b.population = 3;
    state.bases.push(b);
    assert_eq!(
        state.vote_for_governor(2, 0),
        Err("Native life cannot participate in council votes.".to_string())
    );
    assert!(state.vote_for_governor(0, 0).is_ok());
    assert_eq!(
        state.vote_for_governor(0, 1),
        Err("Faction has already voted in this council session.".to_string())
    );
    // faction 0 weighs 3 * 2 with the guild; a second vote closes the session
    assert!(state.vote_for_governor(1, 0).is_ok());
    assert_eq!(state.council.governor_id, Some(0));
    assert!(state.council.pending_votes.is_empty());
    assert_eq!(state.council.last_meeting_turn, 10);
    assert_eq!(
        state.log[state.log.len() - 2].message,
        "PLANETARY COUNCIL: Spartans cast a 0-weight governor vote for Peacekeepers."
    );
    assert_eq!(
        last_log(&state),
        "PLANETARY COUNCIL: Peacekeepers has been elected Planetary Governor!"
    );
    assert_eq!(
        state.call_council(),
        Err("Council cannot be called so soon after the last meeting.".to_string())
    );
}

#[test]
fn split_council_elects_no_one() {
    let mut state = sample_state();
    state.council.is_active = true;
    state.council.pending_votes.push(CouncilVote { faction_id: 5, candidate_id: 1, weight: 5 });
    let mut b = base(0, 0, "Haven", 1, 1);
    b.population = 5;
    state.bases.push(b);
    assert!(state.vote_for_supreme_leader(0, 0).is_ok());
    assert_eq!(state.council.governor_id, None);
    assert_eq!(
        last_log(&state),
        "PLANETARY COUNCIL: No candidate received the required 2/3 majority."
    );
}

#[test]
fn demands_and_trades_move_techs_and_energy() {
    let mut state = sample_state();
    state.factions[1].known_techs.push(Tech::Biogenetics);
    assert!(state.execute_demand(0, 1, DemandKind::Technology(Tech::Biogenetics)).is_ok());
    assert!(state.factions[0].known_techs.contains(&Tech::Biogenetics));
    assert_eq!(state.factions[0].techs_discovered, 2);
    assert_eq!(last_log(&state), "DEMAND: Spartans surrendered Biogenetics to Peacekeepers.");
    assert!(state.execute_demand(0, 1, DemandKind::Technology(Tech::Biogenetics)).is_err());
    assert!(state.execute_demand(0, 1, DemandKind::Energy(25)).is_ok());
    assert_eq!(state.factions[0].energy, 20);
    assert_eq!(state.factions[1].energy, 0);
    assert_eq!(last_log(&state), "DEMAND: Spartans paid 10 energy tribute to Peacekeepers.");
    state.factions[0].known_techs.push(Tech::IndustrialBase);
    state.factions[1].known_techs.push(Tech::GeneSplicing);
    assert_eq!(
        state.execute_tech_trade(0, 9, Tech::IndustrialBase, Tech::GeneSplicing),
        Err("Receiver not found".to_string())
    );
    assert!(state.execute_tech_trade(0, 1, Tech::IndustrialBase, Tech::GeneSplicing).is_ok());
    assert!(state.factions[1].known_techs.contains(&Tech::IndustrialBase));
    assert_eq!(
        last_log(&state),
        "TECH TRADE: Peacekeepers and Spartans traded technologies: IndustrialBase for GeneSplicing."
    );
    assert_eq!(state.log.last().unwrap().category, EventCategory::Diplomacy);
}

#[test]
fn social_engineering_respects_ideologies() {
    let mut state = sample_state();
    state.factions[1].name = "The Human Hive".to_string();
    assert_eq!(
        state.choose_social_engineering(1, Some(Politics::Democratic), None, None, None),
        Err("The Human Hive cannot use Democratic politics.".to_string())
    );
    assert!(state
        .choose_social_engineering(1, Some(Politics::Police), Some(Economics::Planned), Some(Values::Power), None)
        .is_ok());
    assert_eq!(state.factions[1].social_engineering.politics, Politics::Police);
    assert_eq!(state.factions[1].social_engineering.economics, Economics::Planned);
    assert_eq!(last_log(&state), "The Human Hive updated Social Engineering.");
    assert_eq!(
        state.choose_social_engineering(8, None, None, None, None),
        Err("Faction not found.".to_string())
    );
}

#[test]
fn transports_load_and_unload() {
    let mut state = sample_state();
    state.factions[0].unit_designs.push(UnitDesign {
        name: "Ferry".to_string(),
        chassis: Chassis::Sea,
        weapon: Weapon::HandLaser(1),
        armor: Armor::SynthMetal(1),
        abilities: vec![Ability::Transport],
        cost: 30,
    });
    state.units.push(unit(1, 0, UnitKind::ScoutPatrol, 1, 1));
    state.units.push(unit(2, 0, UnitKind::SeaTransport, 2, 1));
    state.tiles[5].unit = Some(1);
    assert_eq!(state.load_unit(1, 1), Err("Unit cannot load itself".to_string()));
    assert!(state.load_unit(1, 2).is_ok());
    assert_eq!(state.units[1].cargo_unit_ids, vec![1]);
    assert_eq!(state.tiles[5].unit, None);
    assert_eq!(last_log(&state), "Peacekeepers loaded a unit onto a transport at (1, 1).");
    assert_eq!(
        state.unload_unit(1, 2, 0, 0),
        Err("Cannot unload to a non-adjacent tile.".to_string())
    );
    assert!(state.unload_unit(1, 2, 3, 1).is_ok());
    assert!(state.units[1].cargo_unit_ids.is_empty());
    assert_eq!((state.units[0].x, state.units[0].y), (3, 1));
    assert_eq!(state.tiles[7].unit, Some(1));
    assert_eq!(last_log(&state), "Peacekeepers unloaded a unit at (3, 1).");
}

#[test]
fn unit_orders_change_only_their_unit() {
    let mut state = sample_state();
    state.units.push(unit(1, 0, UnitKind::ScoutPatrol, 1, 1));
    state.set_unit_activity(1, UnitActivity::Sentry);
    assert_eq!(state.units[0].activity, UnitActivity::Sentry);
    assert_eq!(state.units[0].moves_left, 0);
    state.set_unit_moves(1, 3);
    assert_eq!(state.units[0].moves_left, 3);
    state.promote_unit(1);
    assert_eq!(state.units[0].experience, 1);
    assert_eq!(last_log(&state), "Peacekeepers Scout Patrol advanced to Disciplined rank.");
    state.units[0].experience = 3;
    let before = state.log.len();
    state.promote_unit(1);
    assert_eq!(state.log.len(), before);
}

#[test]
fn patrolling_aircraft_intercept_in_the_open() {
    let mut state = sample_state();
    state.units.push(unit(1, 0, UnitKind::ScoutPatrol, 1, 1));
    let mut jet = unit(2, 1, UnitKind::Needlejet, 2, 2);
    jet.activity = UnitActivity::Patrol;
    state.units.push(jet);
    assert_eq!(state.find_interceptor(1, 1, 1), Some(2));
    state.tiles[5].base = Some(0);
    assert_eq!(state.find_interceptor(1, 1, 1), None);
}

#[test]
fn convoy_routes_are_removed_and_repaired() {
    let mut state = sample_state();
    state.bases.push(base(0, 0, "Alpha", 0, 0));
    state.bases.push(base(1, 0, "Beta", 3, 0));
    state.convoy_routes.push(ConvoyRoute { base_a_id: 0, base_b_id: 1, kind: ConvoyRouteKind::Trade, integrity: 1 });
    assert_eq!(state.faction_collapsing_route_count(0), 1);
    assert_eq!(state.suggested_convoy_repairs(0), vec![(0, 1, ConvoyRouteKind::Trade)]);
    assert!(state.repair_convoy_route_typed(1, 0, ConvoyRouteKind::Trade).is_ok());
    assert_eq!(state.convoy_routes[0].integrity, 2);
    assert_eq!(state.factions[0].energy, 8);
    assert_eq!(last_log(&state), "Repaired Trade convoy route between Alpha and Beta (integrity 2/3).");
    assert_eq!(state.apply_convoy_repairs_all(0), 1);
    assert_eq!(state.convoy_routes[0].integrity, 3);
    assert_eq!(last_log(&state), "Operations repaired 1 convoy route(s).");
    assert_eq!(state.apply_convoy_repairs_all(0), 0);
    assert_eq!(last_log(&state), "No damaged convoy routes currently need repairs.");
    assert!(!state.repair_convoy_route_action(0, 1, ConvoyRouteKind::Trade));
    assert_eq!(
        last_log(&state),
        "Repair convoy route failed: Convoy route is already at full integrity."
    );
    assert_eq!(
        state.apply_filtered_convoy_repairs(vec![(0, 1, ConvoyRouteKind::Trade, 3)]),
        0
    );
    assert_eq!(last_log(&state), "No filtered convoy routes were eligible for repair.");
    assert!(state.remove_convoy_route(1, 0).is_ok());
    assert!(state.convoy_routes.is_empty());
    assert_eq!(last_log(&state), "Removed Trade convoy route between Alpha and Beta.");
    assert!(!state.remove_convoy_route_action(0, 1, None));
    assert_eq!(last_log(&state), "Remove convoy route failed: Convoy route not found.");
}

#[test]
fn convoy_flags_map_to_status_and_severity() {
    assert_eq!(
        GameState::convoy_overlay_status_for_flags(false, true, 1, false),
        ConvoyOverlayStatus::Collapsing
    );
    assert_eq!(GameState::convoy_route_status_label(true, false, 3, true), "DISRUPTED");
    assert!(GameState::tile_on_convoy_path(2, 0, 0, 0, 3, 2));
    assert!(GameState::tile_on_convoy_path(3, 1, 0, 0, 3, 2));
    assert!(!GameState::tile_on_convoy_path(1, 1, 0, 0, 3, 2));
    let state = GameState::player_operations_action_state(
        "Repair",
        2,
        smac_core::game_state::PlayerOperationsActionType::RepairConvoys,
    );
    assert_eq!(state.button_text, "Repair (2)");
    assert!(state.enabled);
    let summary = smac_core::ConvoyRouteSummary {
        base_a_id: 0,
        base_b_id: 1,
        base_a_name: "A".to_string(),
        base_b_name: "B".to_string(),
        kind: ConvoyRouteKind::Freight,
        disrupted: true,
        intercepted: true,
        integrity: 1,
        protected: false,
    };
    assert_eq!(GameState::convoy_route_severity_score(&summary), 122);
    assert_eq!(GameState::convoy_summary_priority(&summary), (4, -1, 1, 1));
}

#[test]
fn pollution_raises_toxicity_and_warns() {
    let mut state = sample_state();
    state.process_planetary_impact();
    assert!(state.log.is_empty());
    state.tiles[0].improvement = Some(Improvement::ThermalBorehole);
    state.tiles[1].improvement = Some(Improvement::ThermalBorehole);
    state.factions[1].planet_toxicity = 499;
    state.process_planetary_impact();
    assert_eq!(state.factions[0].planet_toxicity, 2);
    assert_eq!(state.factions[1].planet_toxicity, 501);
    assert_eq!(
        last_log(&state),
        "PLANETARY STRESS: High borehole activity is poisoning the biosphere for Spartans!"
    );
    assert_eq!(state.log.last().unwrap().category, EventCategory::Crisis);
}

#[test]
fn crises_warn_of_famine_and_drift() {
    let mut state = sample_state();
    state.factions[0].food_security = -60;
    state.factions[0].planet_toxicity = 60;
    state.factions[0].ai_dependence = 75;
    state.process_strategic_crises(0);
    let messages: Vec<String> = state.log.iter().map(|e| e.message.clone()).collect();
    assert_eq!(
        messages,
        vec![
            "GLOBAL FAMINE: Widespread starvation causing instability.".to_string(),
            "ENVIRONMENTAL ALERT: High toxicity detected. Habitats under strain.".to_string(),
            "GOVERNANCE WARNING: Significant reliance on AI. Synthetic drift detected.".to_string(),
        ]
    );
    let before = state.log.len();
    state.process_strategic_crises(9);
    assert_eq!(state.log.len(), before);
}

#[test]
fn planet_speaks_each_message_once() {
    let mut state = sample_state();
    state.factions[0].planet_toxicity = 65;
    state.check_narrative_triggers(0);
    assert_eq!(state.triggered_narratives.len(), 2);
    assert_eq!(
        last_log(&state),
        "VOICE OF PLANET: The fungus spreads. It is my white blood cells, rushing to the site of infection."
    );
    assert_eq!(state.log.last().unwrap().category, EventCategory::Narrative);
    state.check_narrative_triggers(0);
    assert_eq!(state.triggered_narratives.len(), 2);
    assert_eq!(state.log.len(), 2);
}

#[test]
fn attitudes_drift_with_status_borders_and_power() {
    let mut state = sample_state();
    state.relations[0][1].status = DiplomacyStatus::Pact;
    state.relations[1][0].status = DiplomacyStatus::War;
    let mut big = base(0, 0, "Big", 0, 0);
    big.population = 7;
    state.bases.push(big);
    state.bases.push(base(1, 1, "Small", 2, 0));
    state.update_diplomatic_attitudes();
    // a pact adds three and ignores borders and power
    assert_eq!(state.relations[0][1].attitude, 3);
    // war -2, a border within four steps -2, fear of a bigger neighbour -1
    assert_eq!(state.relations[1][0].attitude, -5);
    assert_eq!(state.relations[0][2].attitude, 0);
}

#[test]
fn screens_read_the_state() {
    let mut state = sample_state();
    assert_eq!(state.handle_sidebar_hotkey("W"), Some(SidebarTab::Workshop));
    assert_eq!(state.handle_sidebar_hotkey("P"), None);
    let sidebar = state.sidebar_display_state(SidebarTab::Logs);
    assert_eq!(sidebar.heading_text, "Operations");
    assert_eq!(sidebar.tabs.len(), 8);
    assert!(sidebar.tabs[6].selected);
    assert_eq!(sidebar.tabs[6].hotkey_text, "5");
    assert!(state.game_over_display_state().is_none());
    state.game_over = Some(GameOver::CouncilGovernorElected);
    let banner = state.game_over_display_state().unwrap();
    assert_eq!(banner.message_text, "MILESTONE: A Planetary Governor has been elected.");
    assert_eq!(banner.color_hex, "#AAAAFF");
    state.log.push(EventLogEntry { category: EventCategory::General, message: "COMBAT: x".to_string(), turn: 1 });
    state.log.push(EventLogEntry { category: EventCategory::General, message: "--- Turn".to_string(), turn: 1 });
    state.log.push(EventLogEntry { category: EventCategory::General, message: "quiet".to_string(), turn: 1 });
    let console = state.command_console_display_state();
    assert_eq!(console.event_log[0], ("COMBAT: x".to_string(), Some("#ff6464")));
    assert_eq!(console.event_log[1].1, Some("#d3d3d3"));
    assert_eq!(console.event_log[2].1, None);
    state.units.push(unit(4, 0, UnitKind::ScoutPatrol, 1, 1));
    state.tiles[5].unit = Some(4);
    assert_eq!(state.process_map_interaction(1, 1, None, 0), MapInteractionResult::SelectUnit(4));
    assert_eq!(
        state.process_map_interaction(2, 1, Some(4), 0),
        MapInteractionResult::MoveUnit { unit_id: 4, target_x: 2, target_y: 1 }
    );
    assert_eq!(
        state.process_map_interaction(2, 1, Some(4), 1),
        MapInteractionResult::Error("Unexplored sector. Move a unit closer.".to_string())
    );
    assert_eq!(state.next_unit_cycle_target(&[2, 5, 9], Some(5)), Some(9));
    assert_eq!(state.next_unit_cycle_target(&[2, 5, 9], Some(9)), Some(2));
    assert_eq!(state.next_base_cycle_target(&[], None), None);
}

#[test]
fn map_labels_show_what_the_viewer_knows() {
    let mut state = sample_state();
    state.bases.push(base(0, 1, "Sparta", 2, 2));
    state.tiles[10].base = Some(0);
    assert_eq!(state.tile_map_label(2, 2, 0), "\u{232c}");
    assert_eq!(state.tile_map_label(2, 2, 1), " ");
    state.tiles[0].pod = true;
    assert_eq!(state.tile_map_label(0, 0, 0), "?");
    state.units.push(unit(1, 0, UnitKind::Former, 1, 0));
    state.tiles[1].unit = Some(1);
    assert_eq!(state.tile_map_label(1, 0, 0), "\u{2692}");
}

#[test]
fn editing_spawns_builds_and_moves() {
    let mut state = sample_state();
    assert_eq!(state.spawn_base(1, 2, 1), Some(0));
    assert_eq!(state.bases[0].name, "Base 0");
    assert_eq!(state.tiles[6].base, Some(0));
    assert_eq!(last_log(&state), "EDITOR: Spawned Base 0 for faction 1.");
    assert_eq!(state.spawn_base(1, 2, 1), None);
    assert_eq!(state.spawn_base(1, 9, 1), None);
    state.units.push(unit(1, 0, UnitKind::Former, 1, 1));
    assert!(state.build_improvement(1, Improvement::ThermalBorehole).is_ok());
    assert_eq!(state.tiles[5].improvement, Some(Improvement::ThermalBorehole));
    assert_eq!(state.units[0].moves_left, 0);
    assert_eq!(last_log(&state), "Former built Thermal Borehole at 1, 1.");
    assert_eq!(
        state.build_improvement(1, Improvement::Farm),
        Err("That former has no moves left this turn.".to_string())
    );
    state.units[0].moves_left = 2;
    assert!(state.move_unit_without_combat(1, 2, 2).is_ok());
    assert_eq!(state.units[0].moves_left, 1);
    assert_eq!(state.tiles[10].unit, Some(1));
    assert_eq!(
        state.build_improvement(1, Improvement::ThermalBorehole),
        Err("Thermal Boreholes cannot be built adjacent to each other.".to_string())
    );
    let design = UnitDesign {
        name: "Rover".to_string(),
        chassis: Chassis::Speeder,
        weapon: Weapon::HandLaser(1),
        armor: Armor::SynthMetal(1),
        abilities: Vec::new(),
        cost: 20,
    };
    assert_eq!(state.ensure_design_index(0, &design), Ok(0));
    assert_eq!(state.ensure_design_index(0, &design), Ok(0));
    assert_eq!(state.factions[0].unit_designs.len(), 1);
    assert_eq!(state.ensure_design_index(5, &design), Err("Faction not found.".to_string()));
}

#[test]
fn command_center_traces_follow_bases() {
    let mut state = sample_state();
    let mut b = base(0, 0, "Forge", 1, 1);
    b.production = ProductionItem::CommandCenter;
    b.minerals_stock = 12;
    state.bases.push(b);
    state.capture_command_center_post_production_traces(0);
    assert_eq!(state.command_center_turn_traces.len(), 1);
    assert_eq!(state.command_center_turn_traces[0].base_name, "Forge");
    assert_eq!(state.command_center_turn_traces[0].end_stock, 12);
    state.bases[0].minerals_stock = 4;
    state.update_command_center_post_interdiction_traces(0);
    assert_eq!(state.command_center_turn_traces[0].post_interdiction_stock, 4);
    state.bases[0].minerals_stock = 1;
    state.update_command_center_end_stock_traces(0);
    assert_eq!(state.command_center_turn_traces[0].end_stock, 1);
    assert_eq!(state.command_center_turn_traces[0].post_production_stock, 12);
    assert_eq!(state.command_center_turn_traces_for_owner(0).len(), 1);
    state.clear_command_center_turn_traces_for_owner(0);
    assert!(state.command_center_turn_traces.is_empty());
}

#[test]
fn escort_sabotage_hurts_the_nearest_escort() {
    let mut state = sample_state();
    state.bases.push(base(0, 0, "Alpha", 0, 0));
    state.bases.push(base(1, 0, "Beta", 3, 0));
    let mut escort = unit(7, 0, UnitKind::EscortSpeeder, 1, 0);
    escort.hp = 2;
    state.units.push(escort);
    state.tiles[1].unit = Some(7);
    assert!(state.damage_route_escort_skirmisher(0, 1, 0));
    assert!(!state.units[0].alive);
    assert_eq!(state.tiles[1].unit, None);
    assert_eq!(last_log(&state), "Peacekeepers lost an Escort Speeder while screening a convoy route.");
    assert!(!state.damage_route_escort_skirmisher(0, 1, 0));
}

#[test]
fn disbanding_prefers_green_combat_units() {
    let mut state = sample_state();
    assert_eq!(state.find_disbandable_unit(0), None);
    state.units.push(unit(1, 0, UnitKind::ColonyPod, 0, 0));
    assert_eq!(state.find_disbandable_unit(0), Some(1));
    let mut veteran = unit(2, 0, UnitKind::ScoutPatrol, 0, 0);
    veteran.experience = 2;
    state.units.push(veteran);
    state.units.push(unit(3, 0, UnitKind::Speeder, 0, 0));
    assert_eq!(state.find_disbandable_unit(0), Some(3));
}

#[test]
fn energy_waste_grows_with_distance_from_headquarters() {
    let mut state = sample_state();
    state.bases.push(base(0, 0, "Capital", 0, 0));
    state.bases.push(base(1, 0, "Outpost", 3, 2));
    state.factions[0].headquarters_base_id = Some(0);
    // distance 5, doubled, over an efficiency score of 10
    assert_eq!(state.energy_waste_pct(1), 1);
    assert_eq!(state.energy_waste_pct(0), 0);
    assert_eq!(state.energy_waste_pct(9), 0);
}

#[test]
fn secret_projects_change_tile_yields() {
    let mut state = sample_state();
    state.tiles[0].improvement = Some(Improvement::ThermalBorehole);
    state.built_secret_projects.push((SecretProject::SingularityContainment, 0));
    state.built_secret_projects.push((SecretProject::OrbitalElevator, 0));
    // flat 2/1/1 plus borehole 0/6/6, plus two minerals, energy doubled on the base tile
    assert_eq!(
        state.base_tile_yields_with_modifiers(Some(0), 0, 0, 0, 0),
        Yields { nutrients: 2, minerals: 9, energy: 14 }
    );
    assert_eq!(
        state.base_tile_yields_with_modifiers(None, 0, 0, 0, 0),
        Yields { nutrients: 2, minerals: 7, energy: 7 }
    );
}
