use smac_core::presentation::{
    available_research_label, build_availability_summary, format_recovery_status,
    format_unix_timestamp, governor_mode_mix_summary, production_dependency_text,
    production_role_badge, production_role_category, production_sequence_summary,
    production_tooltip_summary_with_status, research_available_empty_text,
    research_blocked_empty_text, research_blocked_label, research_blocked_missing_text,
    research_current_label, research_cycle_affected_base_label, research_focus_affected_label,
    research_state_summary, research_unlock_affects_text, research_unlock_impact_text,
    save_browser_row_summary, summarize_base_names, summarize_base_unlock_blocks,
    summarize_named_counts, summarize_production_item_counts, tech_unlock_lines,
    unlock_preview_action_label, unlock_preview_apply_all_label, unlock_preview_apply_all_tooltip,
    unlock_preview_apply_label, unlock_preview_apply_tooltip, unlock_preview_availability_text,
    unlock_preview_clear_label, unlock_preview_drift_text, unlock_preview_focus_label,
    unlock_preview_heading, unlock_preview_keep_open_label, unlock_preview_more_bases_text,
    unlock_preview_refresh_label, unlock_preview_row_text, unlock_preview_section_heading,
    unlock_preview_stage_all_log_label, unlock_preview_stage_log_label,
    unlock_preview_stale_label, unlock_preview_status_text,
};
use smac_core::{ProductionItem, SaveSlotCategory, SaveSlotListing, Tech};

#[test]
fn unix_timestamp_is_formatted_for_display() {
    assert_eq!(format_unix_timestamp(Some(0)), "1970-01-01 00:00 UTC");
}

#[test]
fn recovery_status_is_human_readable() {
    assert_eq!(format_recovery_status(0), "Clean");
    assert_eq!(format_recovery_status(2), "Recovered (2)");
}

#[test]
fn save_browser_summary_formats_category_and_empty_state() {
    let entry = SaveSlotListing {
        id: "autosave_1".to_string(),
        snapshot_path: "saves/autosave_1.json".into(),
        metadata_path: "saves/autosave_1.json.meta".into(),
        metadata: None,
        category: SaveSlotCategory::Empty,
    };
    let summary = save_browser_row_summary(&entry);
    assert_eq!(summary.display_name, "Empty");
    assert_eq!(summary.category_text, "Empty");
    assert!(summary.is_empty);
}

#[test]
fn production_tooltip_reports_locked_status() {
    let tooltip = production_tooltip_summary_with_status(
        ProductionItem::ForwardDepot,
        false,
        Some(Tech::DoctrineMobility),
    );
    assert!(tooltip.contains("Status: Locked"));
    assert!(tooltip.contains("Missing tech: Doctrine: Mobility"));
}

#[test]
fn production_role_helpers_are_stable() {
    assert_eq!(production_role_badge(ProductionItem::RaiderSpeeder), "RAID");
    assert_eq!(production_role_category(ProductionItem::PsiBeacon), "Psi");
    assert_eq!(
        production_dependency_text(ProductionItem::ForwardDepot),
        "Requires Doctrine: Mobility"
    );
}

#[test]
fn tech_unlock_lines_surface_named_unlock_buckets() {
    let lines = tech_unlock_lines(Tech::GeneSplicing);
    assert!(lines
        .iter()
        .any(|line| line.contains("Facilities: Research Hospital")));
}

#[test]
fn status_summary_helpers_are_stable() {
    assert_eq!(
        build_availability_summary(3, 5),
        "Build availability: 3 available / 5 locked"
    );
    assert_eq!(
        governor_mode_mix_summary(1, 2, 3, 4, 5),
        "1 balanced / 2 defense / 3 recovery / 4 economy / 5 logistics"
    );
    assert_eq!(
        research_state_summary(2, 4, 6),
        "Research state: 2 known / 4 available now / 6 blocked"
    );
    assert_eq!(
        summarize_named_counts(
            &[("Economy".to_string(), 2), ("Defense".to_string(), 1)],
            "None",
            4
        ),
        "Economy x2, Defense x1"
    );
    assert_eq!(
        summarize_production_item_counts(
            &[
                (ProductionItem::Former, 2),
                (ProductionItem::ScoutPatrol, 1)
            ],
            "None",
            4
        ),
        "Former x2, Scout Patrol x1"
    );
    assert_eq!(
        summarize_base_names(
            &["New Apogee".to_string(), "UN Headquarters".to_string()],
            "None",
            2
        ),
        "New Apogee, UN Headquarters"
    );
    assert_eq!(
        summarize_base_unlock_blocks(
            &[(
                "New Apogee".to_string(),
                ProductionItem::HologramTheatre,
                Tech::PlanetaryNetworks
            )],
            "None",
            2
        ),
        "New Apogee -> Hologram Theatre (Planetary Networks)"
    );
    assert_eq!(
        production_sequence_summary(&[
            ProductionItem::HologramTheatre,
            ProductionItem::NetworkNode
        ]),
        "Hologram Theatre -> Network Node"
    );
    assert_eq!(
        research_current_label(Tech::PlanetaryNetworks, 3, 20),
        "Current: Planetary Networks (3/20)"
    );
    assert_eq!(
        available_research_label(Tech::PlanetaryNetworks, true),
        "Selected: Planetary Networks"
    );
    assert_eq!(
        unlock_preview_heading(Tech::PlanetaryNetworks),
        "Pinned unlock preview: Planetary Networks"
    );
    assert_eq!(
        unlock_preview_section_heading(),
        "Queue preview if research lands"
    );
    assert_eq!(
        unlock_preview_row_text("New Apogee", &[ProductionItem::HologramTheatre]),
        "New Apogee: Hologram Theatre"
    );
    assert_eq!(unlock_preview_stale_label(), "(stale)");
    assert_eq!(unlock_preview_focus_label(), "Focus");
    assert_eq!(unlock_preview_apply_label(), "Apply");
    assert_eq!(unlock_preview_keep_open_label(), "Keep preview open");
    assert_eq!(unlock_preview_stage_log_label(), "Stage in log");
    assert_eq!(
        unlock_preview_stage_all_log_label(),
        "Stage all previews in log"
    );
    assert_eq!(unlock_preview_refresh_label(), "Refresh");
    assert_eq!(unlock_preview_apply_all_label(), "Apply all");
    assert_eq!(unlock_preview_clear_label(), "Clear");
    assert_eq!(research_cycle_affected_base_label(), "Cycle affected base");
    assert_eq!(research_focus_affected_label(), "Focus affected");
    assert_eq!(research_unlock_impact_text(2), "Unblocks 2 base plan(s)");
    assert_eq!(
        research_unlock_affects_text("New Apogee -> Hologram Theatre (Planetary Networks)"),
        "Affects: New Apogee -> Hologram Theatre (Planetary Networks)"
    );
    assert_eq!(
        unlock_preview_more_bases_text(3),
        "3 more base(s) not shown"
    );
    assert_eq!(
        research_available_empty_text(),
        "No new techs are currently selectable."
    );
    assert_eq!(research_blocked_missing_text(&[]), "Progress blocked");
    assert_eq!(
        research_blocked_label(Tech::PlanetaryNetworks, &[Tech::SocialPsych]),
        "Planetary Networks [Missing: Social Psych]"
    );
    assert_eq!(research_blocked_empty_text(), "No blocked techs remain.");
    assert_eq!(unlock_preview_action_label(false, 0), "Preview queue");
    assert_eq!(unlock_preview_action_label(true, 0), "Pinned preview");
    assert_eq!(unlock_preview_action_label(true, 1), "Refresh preview");
    assert_eq!(
        unlock_preview_status_text(3, 0),
        "Pinned preview: 3 current"
    );
    assert_eq!(
        unlock_preview_status_text(3, 1),
        "Pinned preview: 1/3 stale"
    );
    assert_eq!(
        unlock_preview_availability_text(Tech::PlanetaryNetworks, true),
        "This preview becomes actionable after current research completes: Planetary Networks."
    );
    assert_eq!(
        unlock_preview_drift_text(2),
        "2 staged base preview(s) drifted from current governor intent."
    );
    assert_eq!(
        unlock_preview_apply_tooltip(true, true, Tech::PlanetaryNetworks),
        "Apply this staged queue to the base now."
    );
    assert_eq!(
        unlock_preview_apply_all_tooltip(false, true, Tech::PlanetaryNetworks),
        "One or more staged queues drifted from current governor intent. Refresh the preview first."
    );
}
