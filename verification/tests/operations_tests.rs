use std::collections::BTreeSet;

use smac_core::components::{Armor, Chassis, UnitDesign, Weapon};
use smac_core::game_state::governor::GovernorSignals;
use smac_core::game_state::operations::{BaseStrain, OperationsSignals};
use smac_core::game_state::sight::SightRadii;
use smac_core::model::{CouncilState, Economics, FactionAttributes, GameOver, ProbeAction, SocialEngineering};
use smac_core::{
    Base, DiplomacyStatus, DiplomaticRelation, EventCategory, Facility, Faction, GameState, GovernorMode,
    ProductionItem, SecretProject, Tech, Terrain, Tile, Unit, UnitActivity, UnitKind, Yields,
};

fn faction(id: usize, name: &str) -> Faction {
    Faction {
        id,
        name: name.to_string(),
        energy: 10,
        research: 0,
        techs_discovered: 1,
        is_ai: id != 0,
        known_techs: vec![Tech::CentauriEcology],
        current_research: Tech::SocialPsych,
        unit_designs: Vec::new(),
        food_security: 0,
        ai_dependence: 0,
        orbital_index: 0,
        sky_hydroponics: 0,
        solar_transmitters: 0,
        orbital_defenses: 0,
        planet_toxicity: 0,
        base_attributes: FactionAttributes::default(),
        social_engineering: SocialEngineering::default(),
        personality: Default::default(),
        headquarters_base_id: None,
    }
}

fn unit(id: usize, owner: usize, kind: UnitKind, x: usize, y: usize) -> Unit {
    Unit {
        id,
        owner,
        kind,
        design_index: 0,
        x,
        y,
        moves_left: 1,
        hp: 10,
        experience: 0,
        cargo_unit_ids: Vec::new(),
        activity: UnitActivity::Idle,
        alive: true,
    }
}

fn base(id: usize, owner: usize, name: &str, x: usize, y: usize) -> Base {
    Base {
        id,
        owner,
        name: name.to_string(),
        x,
        y,
        population: 1,
        nutrients_stock: 0,
        minerals_stock: 5,
        production: ProductionItem::ScoutPatrol,
        production_queue: Vec::new(),
        facilities: Vec::new(),
        governor_mode: GovernorMode::Off,
    }
}

/// A 4 x 3 map of flat land explored and seen by faction 0, with two factions and the natives.
fn sample_state() -> GameState {
    let width = 4;
    let height = 3;
    let mut tiles = Vec::new();
    for y in 0..height {
        for x in 0..width {
            let mut seen = BTreeSet::new();
            seen.insert(0usize);
            tiles.push(Tile {
                x,
                y,
                terrain: Terrain::Flat,
                elevation: 1,
                moisture: 1,
                unit: None,
                base: None,
                pod: false,
                improvement: None,
                explored_by_owner: seen.clone(),
                visible_by_owner: seen,
            });
        }
    }
    let factions = vec![faction(0, "Peacekeepers"), faction(1, "Spartans"), faction(2, "Natives")];
    let relations = vec![vec![DiplomaticRelation::default(); 3]; 3];
    GameState {
        width,
        height,
        seed: 7,
        turn: 10,
        dust_fall_turns_left: 0,
        tidal_chaos_turns_left: 0,
        tiles,
        units: Vec::new(),
        bases: Vec::new(),
        convoy_routes: Vec::new(),
        factions,
        relations,
        built_secret_projects: Vec::new(),
        log: Vec::new(),
        pending_diplomacy_offers: Vec::new(),
        pending_tech_trades: Vec::new(),
        pending_demands: Vec::new(),
        triggered_narratives: Vec::new(),
        council: CouncilState::default(),
        game_over: None,
        command_center_turn_traces: Vec::new(),
    }
}

fn last_log(state: &GameState) -> String {
    state.log.last().map(|e| e.message.clone()).unwrap_or_default()
}


fn tile_index(state: &GameState, x: usize, y: usize) -> usize {
    y * state.width + x
}

/// A probe team of faction 0 at (1, 1) carrying a scout, next to a base of faction 1 at (2, 1).
fn probe_state() -> GameState {
    let mut state = sample_state();
    state.factions[1].known_techs = vec![Tech::CentauriEcology, Tech::SocialPsych, Tech::IndustrialBase];
    let mut team = unit(1, 0, UnitKind::ProbeTeam, 1, 1);
    team.cargo_unit_ids = vec![7];
    state.units.push(team);
    state.units.push(unit(7, 0, UnitKind::ScoutPatrol, 1, 1));
    state.units.push(unit(2, 1, UnitKind::GarrisonGuard, 2, 1));
    let mut target = base(0, 1, "Sparta", 2, 1);
    target.facilities = vec![Facility::RecyclingTanks, Facility::NetworkNode];
    state.bases.push(target);
    let here = tile_index(&state, 1, 1);
    state.tiles[here].unit = Some(1);
    let there = tile_index(&state, 2, 1);
    state.tiles[there].base = Some(0);
    state.tiles[there].unit = Some(2);
    state
}

#[test]
fn probe_steals_the_first_new_tech_and_is_spent_with_its_cargo() {
    let mut state = probe_state();
    assert_eq!(state.perform_probe_action(1, 2, 1, ProbeAction::StealTech), Ok(()));
    assert_eq!(state.factions[0].known_techs, vec![Tech::CentauriEcology, Tech::SocialPsych]);
    assert_eq!(state.factions[0].techs_discovered, 2);
    assert!(!state.units[0].alive);
    assert_eq!(state.units[0].hp, 0);
    assert_eq!(state.units[0].moves_left, 0);
    assert!(!state.units[1].alive);
    assert!(state.units[2].alive);
    assert!(state.unit(1).is_none());
    let here = tile_index(&state, 1, 1);
    assert_eq!(state.tiles[here].unit, None);
    let entry = state.log.last().unwrap();
    assert_eq!(entry.category, EventCategory::Diplomacy);
    assert_eq!(entry.message, "COVERT: Peacekeepers probe team stole Social Psych from Spartans!");
}

#[test]
fn probe_refusals_leave_the_state_alone() {
    let state = probe_state();
    let cases: Vec<(usize, usize, usize, ProbeAction, &str)> = vec![
        (9, 2, 1, ProbeAction::StealTech, "Probe unit not found."),
        (7, 2, 1, ProbeAction::StealTech, "Unit does not have Probe capabilities."),
        (1, 3, 2, ProbeAction::StealTech, "Target must be adjacent to the probe unit."),
        (1, 1, 0, ProbeAction::StealTech, "Must target an enemy base to steal tech."),
        (1, 1, 0, ProbeAction::SabotageFacility, "Must target an enemy base to sabotage."),
        (1, 1, 0, ProbeAction::SubvertUnit, "Must target a unit to subvert."),
        (1, 2, 1, ProbeAction::SubvertUnit, "Insufficient energy to subvert. Need 50."),
    ];
    for (unit_id, x, y, action, message) in cases {
        let mut s = state.clone();
        assert_eq!(s.perform_probe_action(unit_id, x, y, action), Err(message.to_string()));
        assert_eq!(s.log.len(), 0);
        assert!(s.units[0].alive);
    }
    let mut tired = state.clone();
    tired.units[0].moves_left = 0;
    assert_eq!(
        tired.perform_probe_action(1, 2, 1, ProbeAction::StealTech),
        Err("Unit has no moves left.".to_string())
    );
    let mut known = state.clone();
    known.factions[0].known_techs = known.factions[1].known_techs.clone();
    assert_eq!(
        known.perform_probe_action(1, 2, 1, ProbeAction::StealTech),
        Err("Target faction has no new technologies to steal.".to_string())
    );
    let mut own = state.clone();
    own.bases[0].owner = 0;
    assert_eq!(
        own.perform_probe_action(1, 2, 1, ProbeAction::SabotageFacility),
        Err("Cannot sabotage your own base.".to_string())
    );
    assert_eq!(
        own.perform_probe_action(1, 2, 1, ProbeAction::StealTech),
        Err("Cannot steal tech from your own base.".to_string())
    );
    let mut bare = state.clone();
    bare.bases[0].facilities.clear();
    assert_eq!(
        bare.perform_probe_action(1, 2, 1, ProbeAction::SabotageFacility),
        Err("Base has no facilities to sabotage.".to_string())
    );
}

#[test]
fn probe_sabotages_the_newest_facility() {
    let mut state = probe_state();
    assert_eq!(state.perform_probe_action(1, 2, 1, ProbeAction::SabotageFacility), Ok(()));
    assert_eq!(state.bases[0].facilities, vec![Facility::RecyclingTanks]);
    assert!(!state.units[0].alive);
    assert_eq!(
        state.log.last().unwrap().message,
        "COVERT: Peacekeepers probe team sabotaged NetworkNode in Spartans's base Sparta!"
    );
}

#[test]
fn probe_subverts_a_unit_for_energy() {
    let mut state = probe_state();
    state.factions[0].energy = 60;
    assert_eq!(state.perform_probe_action(1, 2, 1, ProbeAction::SubvertUnit), Ok(()));
    assert_eq!(state.factions[0].energy, 10);
    assert_eq!(state.units[2].owner, 0);
    assert!(state.units[2].alive);
    assert!(!state.units[0].alive);
    assert!(!state.units[1].alive);
    assert_eq!(
        state.log.last().unwrap().message,
        "COVERT: Peacekeepers probe team subverted a Spartans unit for 50 energy!"
    );
}

#[test]
fn unit_strength_comes_from_design_or_kind() {
    let mut state = sample_state();
    state.factions[0].unit_designs.push(UnitDesign {
        name: "Lancer".to_string(),
        chassis: Chassis::Speeder,
        weapon: Weapon::PlasmaBolt(6),
        armor: Armor::PlasmaSteel(4),
        abilities: Vec::new(),
        cost: 50,
    });
    state.units.push(unit(1, 0, UnitKind::Speeder, 0, 0));
    let mut jet = unit(2, 0, UnitKind::Needlejet, 1, 0);
    jet.design_index = 5;
    state.units.push(jet);
    assert_eq!(state.unit_attack_strength(1), 6);
    assert_eq!(state.unit_defense_strength(1), 4);
    assert_eq!(state.unit_attack_strength(2), 5);
    assert_eq!(state.unit_defense_strength(2), 1);
    assert_eq!(state.unit_attack_strength(3), 0);
    assert_eq!(state.unit_defense_strength(3), 0);
}

#[test]
fn registry_lists_every_project_with_its_builder() {
    let mut state = sample_state();
    state.built_secret_projects.push((SecretProject::EmpathGuild, 1));
    let registry = state.secret_project_registry_display_state();
    assert_eq!(registry.heading_text, "SECRET PROJECTS");
    assert_eq!(registry.projects.len(), 7);
    let guild = &registry.projects[2];
    assert_eq!(guild.project_name, "Empath Guild");
    assert_eq!(guild.owner_name, "Spartans");
    assert_eq!(guild.owner_color_hex, "#d0d0d0");
    assert_eq!(guild.status_text, "Built");
    assert_eq!(guild.effects_text, "Significantly reduces the risk of Governance Override.");
    let weather = &registry.projects[0];
    assert_eq!(weather.project_name, "Weather Paradigm");
    assert_eq!(weather.owner_name, "-");
    assert_eq!(weather.owner_color_hex, "#888888");
    assert_eq!(weather.status_text, "Available");
    assert_eq!(weather.effects_text, "Local bases are immune to Dust Fall nutrient penalties.");
}

#[test]
fn bases_work_their_best_surrounding_tiles() {
    let mut state = sample_state();
    let rocky = tile_index(&state, 0, 0);
    state.tiles[rocky].terrain = Terrain::Rocky;
    let ocean = tile_index(&state, 2, 1);
    state.tiles[ocean].terrain = Terrain::Ocean;
    let rolling = tile_index(&state, 2, 2);
    state.tiles[rolling].terrain = Terrain::Rolling;
    let mut home = base(0, 0, "Home", 1, 1);
    home.population = 8;
    state.bases.push(home);
    // own flat tile, five flats, the rolling tile, then the ocean over the rocks on a tied score
    assert_eq!(state.worked_base_tile_yields(0), Some(Yields { nutrients: 14, minerals: 8, energy: 9 }));
    state.bases[0].population = 3;
    assert_eq!(state.worked_base_tile_yields(0), Some(Yields { nutrients: 6, minerals: 3, energy: 3 }));
    state.bases[0].population = 0;
    assert_eq!(state.worked_base_tile_yields(0), Some(Yields { nutrients: 14, minerals: 11, energy: 9 }));
    assert_eq!(state.worked_base_tile_yields(5), None);
}

#[test]
fn production_choices_check_techs_and_duplicates() {
    let mut state = sample_state();
    state.bases.push(base(0, 0, "Haven", 1, 1));
    state.bases[0].production_queue.push(ProductionItem::Former);
    assert_eq!(
        state.set_base_production(0, ProductionItem::NetworkNode),
        Err("Network Node requires Information Networks.".to_string())
    );
    assert_eq!(state.set_base_production(0, ProductionItem::PsiBeacon), Ok(()));
    assert_eq!(state.bases[0].production, ProductionItem::PsiBeacon);
    assert_eq!(state.bases[0].minerals_stock, 0);
    assert!(state.bases[0].production_queue.is_empty());
    assert_eq!(last_log(&state), "Haven switched production to Psi Beacon.");
    assert_eq!(
        state.queue_base_production(0, ProductionItem::PsiBeacon),
        Err("That facility is already queued here.".to_string())
    );
    assert_eq!(state.queue_base_production(0, ProductionItem::ScoutPatrol), Ok(()));
    assert_eq!(state.bases[0].production_queue, vec![ProductionItem::ScoutPatrol]);
    assert_eq!(last_log(&state), "Haven queued Scout Patrol.");
    state.bases[0].facilities.push(Facility::RecyclingTanks);
    assert_eq!(
        state.queue_base_production(0, ProductionItem::RecyclingTanks),
        Err("That facility is already built here.".to_string())
    );
    assert_eq!(state.set_base_production(4, ProductionItem::Former), Err("Base not found.".to_string()));
    assert!(!state.set_base_production_action(4, ProductionItem::Former));
    assert_eq!(last_log(&state), "Production change failed: Base not found.");
    assert!(!state.queue_base_production_action(0, ProductionItem::Speeder));
    assert_eq!(
        last_log(&state),
        "Production queue change failed: Speeder requires Doctrine: Mobility."
    );
    assert!(state.queue_base_production_action(0, ProductionItem::Former));
    state.bases.push(base(1, 9, "Lost", 0, 0));
    assert_eq!(
        state.queue_base_production(1, ProductionItem::Former),
        Err("Base owner is invalid.".to_string())
    );
}

#[test]
fn availability_follows_designs_projects_and_techs() {
    let mut state = sample_state();
    assert!(!state.is_production_available(0, ProductionItem::CustomUnit(0)));
    state.factions[0].unit_designs.push(UnitDesign {
        name: "Lifter".to_string(),
        chassis: Chassis::Sea,
        weapon: Weapon::HandLaser(1),
        armor: Armor::SynthMetal(1),
        abilities: Vec::new(),
        cost: 30,
    });
    assert!(state.is_production_available(0, ProductionItem::CustomUnit(0)));
    assert!(state.is_production_available(0, ProductionItem::WeatherPattern));
    assert!(!state.is_production_available(0, ProductionItem::Speeder));
    assert_eq!(state.missing_required_tech_for_item(0, ProductionItem::Speeder), Some(Tech::DoctrineMobility));
    assert_eq!(state.missing_required_tech_for_item(0, ProductionItem::ScoutPatrol), None);
    let mut building = base(0, 0, "Haven", 1, 1);
    building.production = ProductionItem::WeatherPattern;
    state.bases.push(building);
    assert!(!state.is_production_available(0, ProductionItem::WeatherPattern));
    assert!(state.is_production_available(1, ProductionItem::WeatherPattern));
    state.built_secret_projects.push((SecretProject::WeatherPattern, 0));
    assert!(!state.is_production_available(1, ProductionItem::WeatherPattern));

    let (available, locked) = state.production_items_for_owner(0);
    assert_eq!(
        available,
        vec![
            ProductionItem::ScoutPatrol,
            ProductionItem::ColonyPod,
            ProductionItem::Former,
            ProductionItem::TranceScout,
            ProductionItem::RecyclingTanks,
            ProductionItem::PerimeterDefense,
            ProductionItem::PsiBeacon,
            ProductionItem::StockpileEnergy,
            ProductionItem::CustomUnit(0),
        ]
    );
    assert_eq!(locked.len(), 33);
    assert_eq!(locked[0], (ProductionItem::Speeder, Some(Tech::DoctrineMobility)));
    assert!(locked.contains(&(ProductionItem::WeatherPattern, None)));
    assert!(state
        .production_tooltip_for_owner(0, ProductionItem::ScoutPatrol)
        .ends_with("\nStatus: Available"));
    assert!(state
        .production_tooltip_for_owner(0, ProductionItem::Speeder)
        .ends_with("\nStatus: Locked\nMissing tech: Doctrine: Mobility"));
    assert!(state
        .production_tooltip_for_owner(0, ProductionItem::WeatherPattern)
        .ends_with("\nStatus: Unavailable"));
}

#[test]
fn scrapping_picks_the_first_most_expensive_facility() {
    let mut state = sample_state();
    let mut a = base(4, 0, "Alpha", 0, 0);
    a.facilities = vec![Facility::RecyclingTanks, Facility::NetworkNode];
    let mut b = base(5, 0, "Beta", 3, 0);
    b.facilities = vec![Facility::CommandCenter];
    let mut c = base(6, 1, "Gamma", 3, 2);
    c.facilities = vec![Facility::ResearchHospital];
    state.bases.push(a);
    state.bases.push(b);
    state.bases.push(c);
    assert_eq!(state.find_scrapable_facility(0), Some((4, Facility::NetworkNode)));
    assert_eq!(state.find_scrapable_facility(1), Some((6, Facility::ResearchHospital)));
    assert_eq!(state.find_scrapable_facility(2), None);
}

#[test]
fn research_designs_and_top_bar() {
    let mut state = sample_state();
    assert_eq!(state.research_progress(0), Some((Tech::SocialPsych, 0, 20)));
    assert_eq!(state.research_progress(9), None);
    for name in ["Lifter", "Scout Patrol"] {
        state.factions[0].unit_designs.push(UnitDesign {
            name: name.to_string(),
            chassis: Chassis::Infantry,
            weapon: Weapon::HandLaser(1),
            armor: Armor::SynthMetal(1),
            abilities: Vec::new(),
            cost: 10,
        });
    }
    assert_eq!(state.find_design_index_for_kind(0, UnitKind::ScoutPatrol), 1);
    let lifter = state.factions[0].unit_designs[0].clone();
    assert_eq!(state.find_design_index_for_kind(0, UnitKind::CustomUnit(lifter)), 0);
    assert_eq!(state.find_design_index_for_kind(0, UnitKind::MindWorm), 0);
    assert_eq!(state.find_design_index_for_kind(9, UnitKind::ScoutPatrol), 0);

    let bar = state.top_bar_display_state(0);
    assert_eq!(bar.year_text, "Year: 2110");
    assert_eq!(bar.energy_text.as_deref(), Some("Energy: 10"));
    assert_eq!(bar.research_text.as_deref(), Some("Research: 0/20"));
    assert_eq!(bar.food_text.as_deref(), Some("Food: 0%"));
    assert_eq!(bar.toxicity_text.as_deref(), Some("Toxicity: 0"));
    assert_eq!(bar.ai_dependence_text.as_deref(), Some("AI: 0%"));
    assert_eq!(bar.dust_fall_warning, None);
    state.dust_fall_turns_left = 3;
    let bar = state.top_bar_display_state(9);
    assert_eq!(bar.energy_text, None);
    assert_eq!(bar.dust_fall_warning.as_deref(), Some("\u{26a0} DUST FALL: 3y remaining"));
}

#[test]
fn unlock_previews_apply_as_named_plans() {
    let mut state = sample_state();
    state.bases.push(base(0, 0, "Haven", 1, 1));
    assert_eq!(
        state.apply_research_unlock_queue_preview_items(0, Tech::SocialPsych, vec![ProductionItem::Former]),
        Err("Social Psych is not known by this faction yet.".to_string())
    );
    assert_eq!(
        state.apply_research_unlock_queue_preview_items(3, Tech::CentauriEcology, Vec::new()),
        Err("Base not found.".to_string())
    );
    assert_eq!(state.apply_research_unlock_queue_preview_items(0, Tech::CentauriEcology, Vec::new()), Ok(()));
    assert_eq!(last_log(&state), "No staged unlock preview is waiting on Centauri Ecology for this base.");
    assert_eq!(
        state.apply_research_unlock_queue_preview_items(
            0,
            Tech::CentauriEcology,
            vec![ProductionItem::NetworkNode, ProductionItem::Former],
        ),
        Err("Unlock preview Centauri Ecology failed to set production: Network Node requires Information Networks."
            .to_string())
    );
    assert_eq!(
        state.apply_research_unlock_queue_preview_items(
            0,
            Tech::CentauriEcology,
            vec![
                ProductionItem::PsiBeacon,
                ProductionItem::ScoutPatrol,
                ProductionItem::NetworkNode,
                ProductionItem::Former,
            ],
        ),
        Ok(())
    );
    assert_eq!(state.bases[0].production, ProductionItem::PsiBeacon);
    assert_eq!(state.bases[0].production_queue, vec![ProductionItem::ScoutPatrol, ProductionItem::Former]);
    assert_eq!(last_log(&state), "Unlock preview Centauri Ecology queued Psi Beacon and 2 follow-up item(s).");
}

#[test]
fn moving_a_queue_entry_up_and_back_restores_the_queue() {
    let mut state = sample_state();
    let mut haven = base(0, 0, "Haven", 1, 1);
    haven.production_queue = vec![ProductionItem::Former, ProductionItem::ColonyPod, ProductionItem::ScoutPatrol];
    state.bases.push(haven);
    let before = state.bases[0].clone();
    assert_eq!(state.move_queued_production_up(0, 2), Ok(()));
    assert_eq!(
        state.bases[0].production_queue,
        vec![ProductionItem::Former, ProductionItem::ScoutPatrol, ProductionItem::ColonyPod]
    );
    assert_eq!(state.move_queued_production_down(0, 1), Ok(()));
    assert_eq!(state.bases[0].production_queue, before.production_queue);
    assert_eq!(state.bases[0].production, before.production);
    assert_eq!(state.bases[0].minerals_stock, before.minerals_stock);
    assert_eq!(state.log.len(), 2);
}

#[test]
fn governor_reads_back_as_set() {
    let mut state = sample_state();
    state.bases.push(base(0, 0, "Haven", 1, 1));
    assert!(state.set_base_governor_mode_action(0, GovernorMode::Defense));
    assert_eq!(state.governor_mode_for_base(0), GovernorMode::Defense);
    assert!(!state.set_base_governor_mode_action(0, GovernorMode::Defense));
    assert_eq!(state.governor_mode_for_base(0), GovernorMode::Defense);
}

fn haven_with_needs() -> (GameState, GovernorSignals) {
    let mut state = sample_state();
    state.factions[0].known_techs = vec![Tech::CentauriEcology, Tech::SocialPsych];
    let mut haven = base(0, 0, "Haven", 1, 1);
    haven.population = 3;
    state.bases.push(haven);
    let signals = GovernorSignals {
        unrest: 1,
        damaged_garrisons: 0,
        unit_upkeep: 0,
        military_pressure: 0,
        psi_pressure: 1,
        attack_bias: 0,
        yields: Yields { nutrients: 5, minerals: 5, energy: 5 },
        food_margin: 1,
        convoy_lanes_threatened: false,
        logistics_stress: 0,
    };
    (state, signals)
}

#[test]
fn governor_plans_what_the_base_needs_by_priority() {
    let (mut state, signals) = haven_with_needs();
    let plan = state.base_governor_plan(0, signals);
    let steps: Vec<(ProductionItem, i32)> = plan.iter().map(|s| (s.item, s.priority)).collect();
    assert_eq!(
        steps,
        vec![
            (ProductionItem::RecreationCommons, 100),
            (ProductionItem::PsiBeacon, 88),
            (ProductionItem::RecyclingTanks, 63),
        ]
    );
    assert_eq!(plan[0].reason, "Unrest is reducing output here. Recreation Commons will stabilize the base.");
    assert!(state.base_governor_plan(7, signals).is_empty());

    state.factions[0].known_techs.push(Tech::IndustrialBase);
    state.bases[0].governor_mode = GovernorMode::MachinePolity;
    let steps: Vec<(ProductionItem, i32)> =
        state.base_governor_plan(0, signals).iter().map(|s| (s.item, s.priority)).collect();
    assert_eq!(
        steps,
        vec![
            (ProductionItem::MineralRefinery, 110),
            (ProductionItem::RecreationCommons, 100),
            (ProductionItem::PsiBeacon, 88),
            (ProductionItem::MineralRefinery, 64),
            (ProductionItem::RecyclingTanks, 63),
        ]
    );
    state.bases[0].facilities = vec![Facility::RecyclingTanks, Facility::MineralRefinery];
    let steps: Vec<ProductionItem> = state.base_governor_plan(0, signals).iter().map(|s| s.item).collect();
    assert_eq!(steps, vec![ProductionItem::RecreationCommons, ProductionItem::PsiBeacon]);
}

#[test]
fn governor_names_the_first_step_waiting_on_a_tech() {
    let (state, signals) = haven_with_needs();
    assert_eq!(
        state.base_governor_locked_recommendation(0, signals),
        Some((
            ProductionItem::NetworkNode,
            Tech::InformationNetworks,
            "Research and energy output are lagging. Network Node would improve knowledge flow once unlocked."
                .to_string()
        ))
    );
    let calm = GovernorSignals { yields: Yields { nutrients: 20, minerals: 20, energy: 30 }, unrest: 0, psi_pressure: 0, ..signals };
    assert_eq!(state.base_governor_locked_recommendation(0, calm), None);
    assert_eq!(state.base_governor_locked_recommendation(7, signals), None);
}

#[test]
fn social_engineering_screen_shows_open_and_taken_choices() {
    let state = sample_state();
    let enabled = vec!["police".to_string(), "green".to_string()];
    let screen = state.social_engineering_display_state(0, &enabled);
    assert_eq!(screen.heading_text, "SOCIAL ENGINEERING");
    let names: Vec<&str> = screen.categories.iter().map(|c| c.name).collect();
    assert_eq!(names, vec!["Politics", "Economics", "Values", "Future Society"]);
    let frontier = &screen.categories[0].options[0];
    assert_eq!(frontier.choice_text, "Frontier");
    assert!(frontier.enabled && frontier.selected);
    let police = &screen.categories[0].options[1];
    assert_eq!(police.modifiers_text, "+2 Support, +2 Police, -2 Efficiency");
    assert!(police.enabled && !police.selected);
    assert!(!screen.categories[0].options[2].enabled);
    assert!(screen.categories[1].options[3].enabled);
    assert_eq!(screen.categories[1].options[3].economics, Some(Economics::Green));
    let none = &screen.categories[3].options[0];
    assert_eq!(none.choice_text, "None");
    assert!(none.selected);
    assert_eq!(screen.categories[3].options[2].choice_text, "Thought Control");
    assert!(!screen.categories[3].options[2].enabled);
}

#[test]
fn operations_advice_lists_strain_and_cuts_at_six_lines() {
    let mut state = sample_state();
    state.factions[0].known_techs.push(Tech::PlanetaryNetworks);
    let mut haven = base(0, 0, "Haven", 1, 1);
    haven.facilities = vec![Facility::RecreationCommons];
    state.bases.push(haven);
    state.bases.push(base(1, 1, "Sparta", 3, 2));
    state.units.push(unit(5, 0, UnitKind::ScoutPatrol, 0, 0));
    let strain = BaseStrain { unrest: 2, damaged_garrisons: 0, psi_pressure: 0, food_margin: Some(-1), mineral_margin: None };
    let calm = BaseStrain { unrest: 4, damaged_garrisons: 0, psi_pressure: 0, food_margin: None, mineral_margin: None };
    let signals = OperationsSignals {
        owner: 0,
        base_strain: vec![strain, calm],
        unit_upkeep: 3,
        total_upkeep: 5,
        disrupted_routes: 1,
        intercepted_routes: 0,
        research_pressure_base_ids: vec![0, 9],
        unit_advice: vec![Some("Scout Patrol 5 is idle.".to_string())],
    };
    let advice = state.player_operations_advice(&signals);
    assert_eq!(
        advice,
        vec![
            "Haven has unrest 2 reducing output. Consider Recreation Commons or Hologram Theatre or a lower support burden.",
            "Haven is food-strained (margin -1). Consider Greenhouse coverage or better farm tiles.",
            "Support costs are 3 energy this turn (5 total upkeep). Consider Command Centers or fewer idle units.",
            "1 convoy route(s) are disrupted by frontier pressure. Safer routes or stronger defenses would restore logistics.",
            "Your logistics network is under pressure with no Escort Speeders on station. A mobile escort wing would improve convoy survival.",
            "Current research Social Psych would unblock governor plans at 1 base(s): Haven.",
        ]
    );
    let quiet = OperationsSignals {
        owner: 0,
        base_strain: vec![BaseStrain { unrest: 0, ..strain }, calm],
        unit_upkeep: 0,
        total_upkeep: 0,
        disrupted_routes: 0,
        intercepted_routes: 0,
        research_pressure_base_ids: Vec::new(),
        unit_advice: vec![Some("Scout Patrol 5 is idle.".to_string())],
    };
    assert_eq!(
        state.player_operations_advice(&quiet),
        vec![
            "Haven is food-strained (margin -1). Consider Greenhouse coverage or better farm tiles.",
            "Scout Patrol 5 is idle.",
        ]
    );
}

#[test]
fn governor_recommends_the_first_step_of_its_plan() {
    let (state, signals) = haven_with_needs();
    assert_eq!(
        state.base_governor_recommendation(0, signals),
        Some((
            ProductionItem::RecreationCommons,
            "Unrest is reducing output here. Recreation Commons will stabilize the base.".to_string()
        ))
    );
    assert_eq!(state.base_governor_recommendation(7, signals), None);
}

#[test]
fn focused_plans_keep_their_items_in_plan_order() {
    let (state, signals) = haven_with_needs();
    assert_eq!(state.base_defense_plan_items(0, 4, signals), vec![ProductionItem::PsiBeacon]);
    assert_eq!(state.base_recovery_plan_items(0, 1, signals), vec![ProductionItem::RecreationCommons]);
    assert_eq!(
        state.base_recovery_plan_items(0, 4, signals),
        vec![ProductionItem::RecreationCommons, ProductionItem::PsiBeacon]
    );
    assert_eq!(
        state.base_economy_plan_items(0, 4, signals),
        vec![ProductionItem::RecreationCommons, ProductionItem::RecyclingTanks]
    );
    assert_eq!(state.base_economy_plan_items(0, 0, signals), Vec::<ProductionItem>::new());
    assert!(state.base_logistics_plan_items(0, 4, signals).is_empty());
    assert!(state.base_defense_plan_items(7, 4, signals).is_empty());
}

#[test]
fn focused_plans_apply_as_named_plans() {
    let (mut state, signals) = haven_with_needs();
    assert_eq!(state.apply_economy_plan(0, 4, signals), Ok(()));
    assert_eq!(state.bases[0].production, ProductionItem::RecreationCommons);
    assert_eq!(state.bases[0].production_queue, vec![ProductionItem::RecyclingTanks]);
    assert_eq!(last_log(&state), "Economic plan queued Recreation Commons and 1 follow-up item(s).");

    let (mut state, signals) = haven_with_needs();
    assert!(state.apply_logistics_plan_action(0, 4, signals));
    assert_eq!(state.bases[0].production, ProductionItem::ScoutPatrol);
    assert_eq!(last_log(&state), "Logistics plan had no applicable actions.");

    let (mut state, signals) = haven_with_needs();
    assert_eq!(state.apply_defense_plan(0, 4, signals), Ok(()));
    assert_eq!(state.bases[0].production, ProductionItem::PsiBeacon);
    assert_eq!(last_log(&state), "Defense plan queued Psi Beacon and 0 follow-up item(s).");

    let (mut state, signals) = haven_with_needs();
    assert!(state.apply_recovery_plan_action(0, 1, signals));
    assert_eq!(state.bases[0].production, ProductionItem::RecreationCommons);
    assert!(state.bases[0].production_queue.is_empty());
}

#[test]
fn research_begins_only_on_available_techs() {
    let mut state = sample_state();
    assert!(state.is_research_available(0, Tech::SocialPsych));
    assert!(!state.is_research_available(0, Tech::CentauriEcology));
    assert!(!state.is_research_available(0, Tech::ProgenitorPsych));
    assert!(!state.is_research_available(9, Tech::SocialPsych));

    state.factions[0].research = 7;
    state.choose_research(0, Tech::CentauriEcology);
    assert_eq!(last_log(&state), "Centauri Ecology is already known.");
    state.choose_research(0, Tech::ProgenitorPsych);
    assert_eq!(last_log(&state), "Peacekeepers cannot begin Progenitor Psych yet.");
    assert_eq!(state.factions[0].current_research, Tech::SocialPsych);
    assert_eq!(state.factions[0].research, 7);

    state.choose_research(0, Tech::IndustrialBase);
    assert_eq!(state.factions[0].current_research, Tech::IndustrialBase);
    assert_eq!(state.factions[0].research, 0);
    assert_eq!(last_log(&state), "Peacekeepers began research: Industrial Base.");

    let before = state.log.len();
    state.choose_research(9, Tech::IndustrialBase);
    assert_eq!(state.log.len(), before);
}

#[test]
fn governor_queue_skips_current_queued_and_repeated_items() {
    let (mut state, signals) = haven_with_needs();
    assert_eq!(
        state.base_governor_queue_items(0, 2, signals),
        vec![ProductionItem::RecreationCommons, ProductionItem::PsiBeacon]
    );
    state.bases[0].production = ProductionItem::PsiBeacon;
    state.bases[0].production_queue = vec![ProductionItem::RecyclingTanks];
    assert_eq!(state.base_governor_queue_items(0, 5, signals), vec![ProductionItem::RecreationCommons]);
    assert!(state.base_governor_queue_items(7, 5, signals).is_empty());

    assert!(state.apply_governor_plan_queue_action(0, 5, signals));
    assert_eq!(state.bases[0].production, ProductionItem::RecreationCommons);
    assert_eq!(last_log(&state), "Governor queued Recreation Commons and 0 follow-up item(s).");
}

#[test]
fn balanced_plan_follows_the_strongest_pressure() {
    let (mut state, signals) = haven_with_needs();
    assert_eq!(
        state.base_balanced_plan_items(0, 4, signals),
        vec![ProductionItem::RecreationCommons, ProductionItem::RecyclingTanks]
    );
    let pressed = GovernorSignals { psi_pressure: 2, ..signals };
    assert_eq!(state.base_balanced_plan_items(0, 4, pressed), vec![ProductionItem::PsiBeacon]);

    let calm = GovernorSignals { unrest: 0, psi_pressure: 0, ..signals };
    assert_eq!(state.base_balanced_plan_items(0, 0, calm), vec![ProductionItem::Former]);
    let bold = GovernorSignals { attack_bias: 1, ..calm };
    assert_eq!(state.base_balanced_plan_items(0, 0, bold), vec![ProductionItem::Former]);
    state.factions[0].known_techs.push(Tech::IndustrialBase);
    state.factions[0].known_techs.push(Tech::DoctrineMobility);
    assert_eq!(state.base_balanced_plan_items(0, 0, bold), vec![ProductionItem::RaiderSpeeder]);

    assert_eq!(state.apply_balanced_plan(0, 0, calm), Ok(()));
    assert_eq!(state.bases[0].production, ProductionItem::Former);
    assert_eq!(last_log(&state), "Balanced governor queued Former and 0 follow-up item(s).");
}

#[test]
fn governor_gives_the_reason_of_the_first_step_for_an_item() {
    let (state, signals) = haven_with_needs();
    assert_eq!(
        state.base_governor_reason_for_item(0, ProductionItem::RecreationCommons, signals),
        Some((100, "Unrest is reducing output here. Recreation Commons will stabilize the base.".to_string()))
    );
    assert_eq!(
        state.base_governor_reason_for_item(0, ProductionItem::PsiBeacon, signals).map(|(p, _)| p),
        Some(88)
    );
    assert_eq!(state.base_governor_reason_for_item(0, ProductionItem::TransitHub, signals), None);
    assert_eq!(state.base_governor_reason_for_item(7, ProductionItem::PsiBeacon, signals), None);
}

#[test]
fn focused_plan_items_come_from_the_governor_plan() {
    let (state, signals) = haven_with_needs();
    let plan: Vec<ProductionItem> = state.base_governor_plan(0, signals).iter().map(|s| s.item).collect();
    for items in [
        state.base_defense_plan_items(0, 9, signals),
        state.base_recovery_plan_items(0, 9, signals),
        state.base_economy_plan_items(0, 9, signals),
        state.base_logistics_plan_items(0, 9, signals),
    ] {
        for item in items {
            assert!(plan.contains(&item));
        }
    }
}

#[test]
fn chosen_research_reads_back_and_spares_other_factions() {
    let mut state = sample_state();
    state.factions[0].research = 4;
    let spartans = (state.factions[1].current_research, state.factions[1].research);
    state.choose_research(0, Tech::Biogenetics);
    assert_eq!(state.factions.len(), 3);
    assert_eq!(state.factions[0].current_research, Tech::Biogenetics);
    assert_eq!(state.factions[0].research, 0);
    assert_eq!((state.factions[1].current_research, state.factions[1].research), spartans);
}

#[test]
fn roles_name_the_player_the_ai_and_the_natives() {
    let state = sample_state();
    let roles = state.runtime_roles();
    assert_eq!((roles.player, roles.ai, roles.native), (0, 1, 2));
    assert_eq!(state.player_owner(), 0);
    assert_eq!(state.ai_owner(), 1);
    assert_eq!(state.native_owner(), 2);
    let names: Vec<&str> = state.non_native_factions().iter().map(|f| f.name.as_str()).collect();
    assert_eq!(names, vec!["Peacekeepers", "Spartans"]);
    assert_eq!(state.player_faction().map(|f| f.name.as_str()), Some("Peacekeepers"));
    let mut empty = sample_state();
    empty.factions.clear();
    assert!(empty.player_faction().is_none());
    assert!(empty.non_native_factions().is_empty());
}

#[test]
fn research_buckets_split_the_tree_by_what_is_known() {
    let state = sample_state();
    let (known, open, blocked) = state.research_buckets(0);
    assert_eq!(known, vec![Tech::CentauriEcology]);
    assert_eq!(open, vec![Tech::SocialPsych, Tech::IndustrialBase, Tech::Biogenetics]);
    assert_eq!(blocked.len(), 11);
    assert_eq!(blocked[0], (Tech::ProgenitorPsych, vec![Tech::SocialPsych]));
    assert!(blocked.contains(&(Tech::GeneSplicing, vec![Tech::Biogenetics])));
    assert!(blocked.contains(&(Tech::SecretsOfTheHumanBrain, vec![Tech::ProgenitorPsych, Tech::Biogenetics])));

    let (known, open, blocked) = state.research_buckets(9);
    assert!(known.is_empty() && open.is_empty());
    assert_eq!(blocked.len(), 15);
    assert!(blocked.iter().all(|(_, missing)| missing.is_empty()));
}

#[test]
fn ai_pressure_counts_nearby_units_and_weighs_bases_by_distance() {
    let mut state = sample_state();
    state.units.push(unit(0, 1, UnitKind::ScoutPatrol, 1, 1));
    state.units.push(unit(1, 1, UnitKind::ScoutPatrol, 3, 2));
    let mut dead = unit(2, 1, UnitKind::ScoutPatrol, 0, 1);
    dead.alive = false;
    state.units.push(dead);
    state.units.push(unit(3, 0, UnitKind::ScoutPatrol, 0, 0));
    assert_eq!(state.offensive_threat_at(0, 0), 1);
    assert_eq!(state.offensive_threat_at(3, 2), 2);

    assert_eq!(state.frontier_pressure_at(0, 0), 0);
    state.bases.push(base(0, 1, "Sparta", 1, 0));
    state.bases.push(base(1, 1, "Ares", 3, 2));
    state.bases.push(base(2, 0, "Haven", 0, 2));
    let border = if state.is_border_tile(0, 0) { 1 } else { 0 };
    assert_eq!(state.frontier_pressure_at(0, 0), 3 + 2 + border);
}

#[test]
fn game_ends_on_victory_conquest_or_defeat() {
    let mut state = sample_state();
    state.factions[1].energy = 10000;
    state.units.push(unit(0, 0, UnitKind::ScoutPatrol, 0, 0));
    state.check_game_over();
    assert_eq!(state.game_over, Some(GameOver::AiWonEconomic));
    assert_eq!(last_log(&state), "VICTORY: Spartans has achieved economic dominance. The market is yours.");
    let logged = state.log.len();
    state.check_game_over();
    assert_eq!(state.log.len(), logged);

    let mut state = sample_state();
    state.units.push(unit(0, 0, UnitKind::ScoutPatrol, 0, 0));
    state.units.push(unit(1, 2, UnitKind::MindWorm, 1, 0));
    state.check_game_over();
    assert_eq!(state.game_over, Some(GameOver::PlayerWonConquest));
    assert_eq!(last_log(&state), "VICTORY: Conquest! All rival factions eliminated.");

    let mut state = sample_state();
    state.bases.push(base(0, 1, "Sparta", 1, 1));
    state.check_game_over();
    assert_eq!(state.game_over, Some(GameOver::AiWonConquest));
    assert_eq!(last_log(&state), "VICTORY: Spartans has achieved total conquest of Planet.");

    let mut state = sample_state();
    state.check_game_over();
    assert_eq!(state.game_over, Some(GameOver::PlayerLost));
    assert_eq!(last_log(&state), "DEFEAT: Your faction has been wiped out.");

    let mut state = sample_state();
    state.units.push(unit(0, 0, UnitKind::ScoutPatrol, 0, 0));
    state.units.push(unit(1, 1, UnitKind::ScoutPatrol, 1, 0));
    state.check_game_over();
    assert_eq!(state.game_over, None);
    assert!(state.log.is_empty());
}

fn seen_by_player(state: &GameState) -> Vec<(usize, usize)> {
    state.tiles.iter().filter(|t| t.visible_by_owner.contains(&0)).map(|t| (t.x, t.y)).collect()
}

#[test]
fn player_sees_only_what_its_units_bases_and_pacts_reach() {
    let mut state = sample_state();
    let radii = SightRadii { unit: 1, base: 0 };
    state.units.push(unit(0, 0, UnitKind::ScoutPatrol, 0, 0));
    state.units.push(unit(1, 1, UnitKind::ScoutPatrol, 3, 2));
    state.bases.push(base(0, 0, "Haven", 2, 0));
    state.update_player_visibility(radii);
    assert_eq!(seen_by_player(&state), vec![(0, 0), (1, 0), (2, 0), (0, 1)]);
    assert!(state.tiles.iter().all(|t| t.explored_by_owner.contains(&0)));

    assert_eq!(state.update_diplomacy(0, 1, DiplomacyStatus::Pact, radii), Ok(()));
    assert_eq!(state.relations[0][1].status, DiplomacyStatus::Pact);
    assert_eq!(state.relations[1][0].status, DiplomacyStatus::Pact);
    assert_eq!(last_log(&state), "DIPLOMACY: Peacekeepers and Spartans have signed a Pact.");
    assert_eq!(seen_by_player(&state), vec![(0, 0), (1, 0), (2, 0), (0, 1), (3, 1), (2, 2), (3, 2)]);
}

#[test]
fn diplomacy_refuses_self_and_unknown_factions() {
    let mut state = sample_state();
    let radii = SightRadii { unit: 1, base: 1 };
    assert_eq!(state.update_diplomacy(0, 0, DiplomacyStatus::War, radii), Err("Cannot update diplomacy with self.".to_string()));
    assert_eq!(state.update_diplomacy(0, 9, DiplomacyStatus::War, radii), Err("Invalid faction index.".to_string()));
    assert!(state.log.is_empty());
    let seen = seen_by_player(&state);
    assert_eq!(state.update_diplomacy(1, 2, DiplomacyStatus::War, radii), Ok(()));
    assert_eq!(state.relations[2][1].status, DiplomacyStatus::War);
    assert_eq!(last_log(&state), "DIPLOMACY: Spartans and Natives have signed a War.");
    assert_eq!(seen_by_player(&state), seen);
}

#[test]
fn diplomacy_panel_lists_the_player_relations() {
    let mut state = sample_state();
    state.factions[1].name = "Spartan Federation".to_string();
    state.relations[0][1].status = DiplomacyStatus::War;
    state.relations[0][1].attitude = -50;

    let panel = state.faction_diplomacy_panel_state(0, 0);
    assert_eq!(panel.heading_text, "DIPLOMACY");
    assert_eq!(panel.relations_heading_text, "Global Relations");
    assert_eq!(panel.relations.len(), 1);
    let row = &panel.relations[0];
    assert_eq!(row.faction_id, 1);
    assert_eq!(row.faction_name, "Spartan Federation");
    assert_eq!(row.leader_name, "Colonel Corazon Santiago");
    assert_eq!(
        Some(row.color_hex.as_str()),
        smac_core::presentation::faction_color_hex("Spartan Federation")
    );
    assert_eq!(row.status_text, "WAR");
    assert_eq!(row.attitude_text, "Hostile");
    assert!(row.can_offer_truce && !row.can_declare_war && !row.can_sign_treaty && !row.can_sign_pact);

    let panel = state.faction_diplomacy_panel_state(0, 1);
    assert_eq!(panel.relations_heading_text, "Relationship");
    assert_eq!(panel.relations.len(), 1);
    let row = &panel.relations[0];
    assert_eq!(row.faction_name, "Peacekeepers");
    assert_eq!(row.leader_name, "Unknown");
    assert_eq!(row.color_hex, "#d0d0d0");
    assert_eq!(row.status_text, "Truce");
    assert!(row.can_sign_treaty && row.can_declare_war);
}

#[test]
fn save_slots_are_named_after_the_year_and_player() {
    let state = sample_state();
    assert_eq!(state.default_save_slot_name(""), "Unnamed Save");
    assert_eq!(state.default_save_slot_name("slot_1"), "Year 2110 - Peacekeepers");
}

#[test]
fn completing_a_project_stops_rival_builds_and_tells_their_owners() {
    let mut state = sample_state();
    let radii = SightRadii { unit: 1, base: 1 };
    let mut sparta = base(0, 1, "Sparta", 3, 2);
    sparta.production = ProductionItem::EmpathGuild;
    state.bases.push(sparta);
    let mut haven = base(1, 0, "Haven", 0, 0);
    haven.production = ProductionItem::WeatherPattern;
    haven.production_queue = vec![ProductionItem::EmpathGuild, ProductionItem::Former];
    state.bases.push(haven);

    assert!(state.complete_secret_project(0, SecretProject::EmpathGuild, radii));
    assert_eq!(state.built_secret_projects, vec![(SecretProject::EmpathGuild, 0)]);
    assert_eq!(state.bases[0].production, ProductionItem::StockpileEnergy);
    assert_eq!(state.bases[1].production, ProductionItem::WeatherPattern);
    assert_eq!(state.bases[1].production_queue, vec![ProductionItem::Former]);
    let name = smac_core::content::production_name(ProductionItem::EmpathGuild);
    let n = state.log.len();
    assert_eq!(state.log[n - 2].message, format!("GLOBAL WONDER: Peacekeepers has completed {name}!"));
    assert_eq!(
        state.log[n - 1].message,
        format!("Spartans construction of {name} in Sparta was aborted! Peacekeepers finished it first.")
    );
    assert_eq!(seen_by_player(&state), vec![(0, 0), (1, 0), (0, 1), (3, 1), (2, 2), (3, 2)]);

    let before = state.log.len();
    assert!(!state.complete_secret_project(1, SecretProject::EmpathGuild, radii));
    assert_eq!(state.log.len(), before);
}
