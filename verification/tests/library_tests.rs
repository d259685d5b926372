use smac_core::content::{tech_enabled_facility_names, tech_enabled_unit_names, tech_prerequisites};
use smac_core::game_state::step_toward_coord;
use smac_core::localization::{Localization, LocalizationData};
use smac_core::map::{tile_type_glyph, TileType};
use smac_core::model::{AttributeKind, FactionAttributes, SocialEngineering};
use smac_core::narrative::{get_voice_of_planet_triggers, NarrativeCondition};
use smac_core::presentation::{
    armor_label, base_panel_summary, convoy_overlay_status_glyph, diplomacy_attitude_text,
    faction_color_hex, faction_leader_name, faction_status_summary, format_stability,
    format_unix_timestamp, format_yields, production_tooltip_summary, save_browser_row_summary,
    summarize_named_counts, summarize_production_item_counts, tech_unlock_summary,
    unit_map_symbol, unit_rank_name, weapon_label,
};
use smac_core::save::SaveSlotMetadata;
use smac_core::{
    base_focus_filter_label, logistics_route_sort_label, Armor, ConvoyOverlayStatus,
    DiplomacyStatus, Economics, Facility, Faction, FutureSociety, GovernorMode, Improvement,
    LogisticsRouteFilter, LogisticsRouteSort, MapOverlay, Politics, ProductionItem,
    SaveSlotCategory, SaveSlotListing, SecretProject, SidebarTab, Tech, Terrain, UnitKind,
    Values, Weapon, Yields,
};

#[test]
fn content_ids_read_back() {
    for item in ProductionItem::all() {
        assert_eq!(ProductionItem::from_content_id(item.content_id()), Some(item));
    }
    for kind in UnitKind::all() {
        assert_eq!(UnitKind::from_content_id(kind.clone().content_id()), Some(kind));
    }
    for f in Facility::all() {
        assert_eq!(Facility::from_content_id(f.content_id()), Some(f));
        assert_eq!(ProductionItem::from_facility(f).and_then(|i| i.facility()), Some(f));
    }
    for p in SecretProject::all() {
        assert_eq!(SecretProject::from_content_id(p.content_id()), Some(p));
    }
    for i in Improvement::all() {
        assert_eq!(Improvement::from_content_id(i.content_id()), Some(i));
    }
    assert_eq!(Tech::from_content_id("doctrine_air_power"), Some(Tech::DoctrineAirPower));
    assert_eq!(Tech::from_content_id("doctrine air power"), None);
    assert_eq!(ProductionItem::from_content_id("custom_unit"), None);
    assert_eq!(Improvement::from_content_id("solar_collector"), Some(Improvement::Solar));
}

#[test]
fn tech_names_read_back() {
    for t in Tech::all() {
        assert_eq!(Tech::from_content_name(smac_core::presentation::tech_name(t)), Some(t));
    }
    assert_eq!(Tech::from_content_name("Doctrine: Mobility"), Some(Tech::DoctrineMobility));
    assert_eq!(Tech::from_content_name("Doctrine: Initiative"), None);
}

#[test]
fn terrain_and_yields() {
    assert!(Terrain::Flat.is_land());
    assert!(!Terrain::Crater.is_land());
    assert!(Terrain::Crater.is_ocean());
    let y = Terrain::Rolling.yields().add(Improvement::Forest.yields());
    assert_eq!((y.nutrients, y.minerals, y.energy), (2, 4, 2));
    assert_eq!(format_yields(y), "2 nutrients / 4 minerals / 2 energy");
    let neg = Yields { nutrients: -3, minerals: 0, energy: 12 };
    assert_eq!(format_yields(neg), "-3 nutrients / 0 minerals / 12 energy");
    assert!(UnitKind::ColonyPod.can_found_base());
    assert!(UnitKind::SeaColonyPod.can_found_base());
    assert!(!UnitKind::Former.can_found_base());
    assert!(UnitKind::Former.can_terraform());
}

fn faction_with(se: SocialEngineering) -> Faction {
    Faction {
        id: 0,
        name: "University of Planet".to_string(),
        energy: 0,
        research: 0,
        techs_discovered: 0,
        is_ai: false,
        known_techs: vec![],
        current_research: Tech::SocialPsych,
        unit_designs: vec![],
        food_security: 0,
        ai_dependence: 0,
        orbital_index: 0,
        sky_hydroponics: 0,
        solar_transmitters: 0,
        orbital_defenses: 0,
        planet_toxicity: 0,
        base_attributes: FactionAttributes {
            research: 1,
            free_facilities: vec![Facility::NetworkNode],
            ..Default::default()
        },
        social_engineering: se,
        personality: Default::default(),
        headquarters_base_id: None,
    }
}

#[test]
fn social_choices_shift_attributes() {
    let f = faction_with(SocialEngineering {
        politics: Politics::Democratic,
        economics: Economics::FreeMarket,
        values: Values::Knowledge,
        future: FutureSociety::Cybernetic,
    });
    let a = f.effective_attributes();
    assert_eq!(a.growth, 2);
    assert_eq!(a.efficiency, 2 + 2 + 1 + 2);
    assert_eq!(a.support, -2);
    assert_eq!(a.economy, 2);
    assert_eq!(a.planet, -2 + 1);
    assert_eq!(a.research, 1 + 2 + 2);
    assert_eq!(a.probe, -1);
    assert_eq!(a.police, -1);
    assert_eq!(a.free_facilities, vec![Facility::NetworkNode]);
    let plain = faction_with(SocialEngineering::default()).effective_attributes();
    assert_eq!(plain.research, 1);
    assert_eq!(plain.growth, 0);
    let _ = AttributeKind::Growth;
}

#[test]
fn unlock_lists_follow_requirements() {
    assert_eq!(tech_enabled_facility_names(Tech::GeneSplicing), vec!["Research Hospital"]);
    assert_eq!(
        tech_enabled_unit_names(Tech::DoctrineMobility),
        vec!["Speeder", "Escort Speeder", "Raider Speeder"]
    );
    assert_eq!(tech_prerequisites(Tech::PlanetaryNetworks), vec![Tech::SocialPsych]);
    assert_eq!(
        tech_unlock_summary(Tech::GeneSplicing),
        "Requires: Biogenetics, Centauri Ecology | Facilities: Research Hospital"
    );
    assert_eq!(
        tech_unlock_summary(Tech::CentauriEcology),
        "Units: Trance Scout | Facilities: Psi Beacon"
    );
}

#[test]
fn named_counts_rank_by_count_then_name() {
    let entries = vec![
        ("Beta".to_string(), 2),
        ("Alpha".to_string(), 2),
        ("Gamma".to_string(), 5),
        ("Delta".to_string(), 1),
    ];
    assert_eq!(summarize_named_counts(&entries, "None", 3), "Gamma x5, Alpha x2, Beta x2");
    assert_eq!(summarize_named_counts(&entries, "None", 10), "Gamma x5, Alpha x2, Beta x2, Delta x1");
    assert_eq!(summarize_named_counts(&entries, "None", 0), "");
    assert_eq!(summarize_named_counts(&[], "None", 3), "None");
    assert_eq!(
        summarize_production_item_counts(
            &[(ProductionItem::Speeder, 1), (ProductionItem::Former, 1), (ProductionItem::ColonyPod, 3)],
            "None",
            5
        ),
        "Colony Pod x3, Former x1, Speeder x1"
    );
}

#[test]
fn timestamps_are_calendar_dates() {
    assert_eq!(format_unix_timestamp(None), "Unknown");
    assert_eq!(format_unix_timestamp(Some(86_400 * 365)), "1971-01-01 00:00 UTC");
    assert_eq!(format_unix_timestamp(Some(951_782_400)), "2000-02-29 00:00 UTC");
    assert_eq!(format_unix_timestamp(Some(1_700_000_000)), "2023-11-14 22:13 UTC");
    assert_eq!(format_unix_timestamp(Some(4_102_444_799)), "2099-12-31 23:59 UTC");
}

#[test]
fn stability_and_ranks() {
    assert_eq!(format_stability(-4), "Stable");
    assert_eq!(format_stability(1), "Strained (-1 minerals, -2 energy)");
    assert_eq!(format_stability(3), "Unrest 3 (-3 minerals, -6 energy)");
    assert_eq!(unit_rank_name(-5), "Green");
    assert_eq!(unit_rank_name(2), "Veteran");
    assert_eq!(unit_rank_name(9), "Elite");
    assert_eq!(diplomacy_attitude_text(-80), "Vendetta");
    assert_eq!(diplomacy_attitude_text(-10), "Cold");
    assert_eq!(diplomacy_attitude_text(9), "Neutral");
    assert_eq!(diplomacy_attitude_text(80), "Inseparable");
}

#[test]
fn save_row_previews_trimmed_notes() {
    let metadata = SaveSlotMetadata {
        save_name: "Campaign".to_string(),
        saved_turn: 42,
        recovery_note_count: 1,
        last_updated_unix: Some(0),
        notes: "   a very long note about the northern frontier bases   ".to_string(),
        category: Some(SaveSlotCategory::Manual),
        auto_recovery_base_ids: vec![],
        auto_defense_base_ids: vec![],
        auto_economy_base_ids: vec![],
    };
    let entry = SaveSlotListing {
        id: "manual_1".to_string(),
        snapshot_path: "saves/manual_1.json".to_string(),
        metadata_path: "saves/manual_1.json.meta".to_string(),
        metadata: Some(metadata),
        category: SaveSlotCategory::Manual,
    };
    let row = save_browser_row_summary(&entry);
    assert_eq!(row.display_name, "Campaign");
    assert_eq!(row.turn_text, "42");
    assert_eq!(row.recovery_text, "Recovered (1)");
    assert_eq!(row.updated_text, "1970-01-01 00:00 UTC");
    assert_eq!(row.category_text, "Manual");
    assert_eq!(row.notes_preview, "a very long note about the northern ...");
    assert!(!row.is_empty);
}

#[test]
fn tooltips_and_panels() {
    let tip = production_tooltip_summary(ProductionItem::PsiBeacon);
    assert!(tip.contains("Psi support: +2"));
    assert!(tip.contains("Unlock: Centauri Ecology"));
    let wonder = production_tooltip_summary(ProductionItem::EmpathGuild);
    assert!(wonder.contains("Global Wonder: Only one can exist in the world."));
    let panel = base_panel_summary(
        "New Apogee",
        "University of Planet",
        3,
        GovernorMode::Economy,
        2,
        0,
        10,
        5,
        Yields { nutrients: 4, minerals: 2, energy: 3 },
        Yields { nutrients: 4, minerals: 1, energy: 3 },
        ProductionItem::NetworkNode,
        12,
        &[ProductionItem::Former, ProductionItem::ScoutPatrol],
        &[],
    );
    assert_eq!(panel.governor_mode, "Economy");
    assert_eq!(panel.production, "Network Node (12/60)");
    assert_eq!(panel.queue, "Former -> Scout Patrol");
    assert_eq!(panel.facilities, "None");
    assert_eq!(panel.storage, "10 nutrients / 5 minerals");
    let status = faction_status_summary(
        "Nobody", 1, 2, 3, 4, Tech::SocialPsych, 5, 0, 0, 0, 0, 0, 0, 0, 0, 0, 0, 0, 0,
    );
    assert_eq!(status.color_hex, "#d0d0d0");
    assert!(status.leader.is_none());
    assert_eq!(status.research_progress, "4/20");
    assert_eq!(faction_leader_name("University of Planet"), Some("Academician Prokhor Zakharov"));
    assert!(faction_color_hex("University of Planet").is_some());
}

#[test]
fn labels_and_enumerations() {
    assert_eq!(MapOverlay::all().len(), 9);
    assert_eq!(SidebarTab::all()[2].hotkey_text(), "P");
    assert_eq!(SidebarTab::Logs.label_text(), "Logs");
    assert_eq!(LogisticsRouteFilter::all().len(), 8);
    assert_eq!(logistics_route_sort_label(LogisticsRouteSort::Kind), "Type");
    assert_eq!(base_focus_filter_label(smac_core::BaseFocusFilter::QueueGap), "Queue Gap");
    assert_eq!(ConvoyOverlayStatus::Collapsing.priority(), 5);
    assert_eq!(ConvoyOverlayStatus::NoRoute.priority(), 0);
    assert_eq!(convoy_overlay_status_glyph(ConvoyOverlayStatus::NoRoute), None);
    assert_eq!(convoy_overlay_status_glyph(ConvoyOverlayStatus::Intercepted), Some("!"));
    assert_eq!(step_toward_coord(3, 7), 1);
    assert_eq!(step_toward_coord(7, 3), -1);
    assert_eq!(step_toward_coord(4, 4), 0);
    assert_eq!(weapon_label(Weapon::PlasmaBolt(6)), "Plasma Bolt (6)");
    assert_eq!(armor_label(Armor::SynthMetal(2)), "Synthmetal Armor (2)");
    assert_eq!(unit_map_symbol(UnitKind::Former, 1), "\u{2692}");
    assert_eq!(tile_type_glyph(TileType::Hills), '#');
    assert_eq!(smac_core::presentation::diplomacy_status_text(DiplomacyStatus::Pact), "PACT");
}

#[test]
fn narrative_triggers_in_order() {
    let triggers = get_voice_of_planet_triggers();
    assert_eq!(triggers.len(), 6);
    assert_eq!(triggers[0].condition, NarrativeCondition::Toxicity(30));
    assert_eq!(triggers[4].condition, NarrativeCondition::Technology(Tech::PlanetaryNetworks));
    assert!(triggers[5].message.starts_with("The first century"));
}

#[test]
fn localization_falls_back_to_key() {
    let empty = Localization::new();
    assert_eq!(empty.get("menu.start"), "menu.start");
    let mut data = LocalizationData::empty();
    data.insert("menu.start".to_string(), "Commencer".to_string());
    data.insert("menu.start".to_string(), "Démarrer".to_string());
    let loc = Localization::from_data(data);
    assert_eq!(loc.get("menu.start"), "Démarrer");
    assert_eq!(loc.get("menu.quit"), "menu.quit");
}
