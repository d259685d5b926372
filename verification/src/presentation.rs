//! Display text for the game's panels: names, badges, summaries, tooltips
//! and formatted numbers, each stated as the text it produces.
use crate::components::{Armor, Chassis, Weapon};
use crate::content;
use crate::content::{
    facility_name_text, production_cost_value, production_name_text, required_tech_of,
    tech_cost_value, tech_name_text,
};
use crate::game_state::{BaseStatusTagKind, ConvoyOverlayStatus};
use crate::model::{
    BaseAreaRole, ConvoyRouteKind, DiplomacyStatus, Facility, GovernorMode, Improvement,
    ProductionItem, SecretProject, Tech, Terrain, UnitKind, Yields,
};
use crate::ranking::{rank_named_counts, rank_sort, pair_views, NamedCount};
use crate::save::{SaveSlotCategory, SaveSlotListing};
use crate::text::{
    int_text, join, join_strings, nat_text, owned, push_int, push_nat, push_text,
    push_zero_padded, trim, trimmed, zero_pad, char_range, u64_text,
};
use vstd::prelude::*;

verus! {

pub struct FactionStatusSummary<'a> {
    pub name: &'a str,
    pub leader: Option<&'a str>,
    pub description: Option<&'a str>,
    pub color_hex: &'a str,
    pub base_count: usize,
    pub unit_count: usize,
    pub energy: i32,
    pub research_progress: String,
    pub current_tech: &'a str,
    pub techs_discovered: i32,
    pub unrest_base_count: usize,
    pub recovery_base_count: usize,
    pub frontier_base_count: usize,
    pub rear_area_base_count: usize,
    pub psi_frontier_base_count: usize,
    pub warzone_base_count: usize,
    pub trade_route_count: usize,
    pub freight_route_count: usize,
    pub disrupted_route_count: usize,
    pub intercepted_route_count: usize,
    pub convoy_capacity_used: usize,
    pub convoy_capacity_total: usize,
}

pub struct BasePanelSummary<'a> {
    pub name: &'a str,
    pub owner_name: &'a str,
    pub population: i32,
    pub governor_mode: &'a str,
    pub trade_links: usize,
    pub stability: String,
    pub storage: String,
    pub output: String,
    pub effective_output: String,
    pub production: String,
    pub queue: String,
    pub facilities: String,
}

pub struct UnitPanelSummary<'a> {
    pub unit_name: &'a str,
    pub owner_name: &'a str,
    pub rank: &'a str,
    pub role: &'a str,
    pub location: String,
    pub moves_left: i32,
    pub hp: i32,
}

pub struct TilePanelSummary<'a> {
    pub coordinates: String,
    pub terrain_name: &'a str,
    pub elevation: i32,
    pub moisture: i32,
    pub yield_summary: String,
    pub improvement_name: Option<&'a str>,
}

pub struct SaveBrowserRowSummary {
    pub file_id: String,
    pub display_name: String,
    pub turn_text: String,
    pub recovery_text: String,
    pub updated_text: String,
    pub category_text: String,
    pub notes_preview: String,
    pub is_empty: bool,
}

#[derive(Clone, Copy, Debug, PartialEq, Eq, Structural)]
pub enum MapOverlay {
    Terrain,
    Yields,
    Ownership,
    Borders,
    Threat,
    FrontierPressure,
    PsiThreat,
    Logistics,
    Trade,
}

impl MapOverlay {
    /// Every overlay, in menu order.
    pub open spec fn all_seq() -> Seq<MapOverlay> {
        seq![
            MapOverlay::Terrain,
            MapOverlay::Yields,
            MapOverlay::Ownership,
            MapOverlay::Borders,
            MapOverlay::Threat,
            MapOverlay::FrontierPressure,
            MapOverlay::PsiThreat,
            MapOverlay::Logistics,
            MapOverlay::Trade,
        ]
    }

    pub fn all() -> (r: [MapOverlay; 9])
        ensures
            r@ == MapOverlay::all_seq(),
    {
        [
            MapOverlay::Terrain,
            MapOverlay::Yields,
            MapOverlay::Ownership,
            MapOverlay::Borders,
            MapOverlay::Threat,
            MapOverlay::FrontierPressure,
            MapOverlay::PsiThreat,
            MapOverlay::Logistics,
            MapOverlay::Trade,
        ]
    }
}

/// The view of an optional string.
pub open spec fn opt_view(o: Option<&str>) -> Option<Seq<char>> {
    match o {
        Some(s) => Some(s@),
        None => None,
    }
}

/// The name of a map overlay.
pub open spec fn map_overlay_label_text(overlay: MapOverlay) -> Seq<char> {
    match overlay {
        MapOverlay::Terrain => "Terrain"@,
        MapOverlay::Yields => "Yields"@,
        MapOverlay::Ownership => "Ownership"@,
        MapOverlay::Borders => "Borders"@,
        MapOverlay::Threat => "Offensive Threat"@,
        MapOverlay::FrontierPressure => "Frontier Pressure"@,
        MapOverlay::PsiThreat => "Psi Threat"@,
        MapOverlay::Logistics => "Logistics"@,
        MapOverlay::Trade => "Global Trade"@,
    }
}

pub fn map_overlay_label(overlay: MapOverlay) -> (r: &'static str)
    ensures
        r@ == map_overlay_label_text(overlay),
{
    match overlay {
        MapOverlay::Terrain => "Terrain",
        MapOverlay::Yields => "Yields",
        MapOverlay::Ownership => "Ownership",
        MapOverlay::Borders => "Borders",
        MapOverlay::Threat => "Offensive Threat",
        MapOverlay::FrontierPressure => "Frontier Pressure",
        MapOverlay::PsiThreat => "Psi Threat",
        MapOverlay::Logistics => "Logistics",
        MapOverlay::Trade => "Global Trade",
    }
}

/// The legend shown under a map overlay.
pub open spec fn map_overlay_legend_text(overlay: MapOverlay) -> Seq<char> {
    match overlay {
        MapOverlay::Terrain => "Terrain: blue ocean, green flat, olive rolling, brown rocky, teal fungus."@,
        MapOverlay::Yields => "Yields: brighter tiles produce more total output."@,
        MapOverlay::Ownership => "Ownership: green player control, red rival control, gray unclaimed."@,
        MapOverlay::Borders => "Borders: highlighted tiles sit near faction bases and control edges."@,
        MapOverlay::Threat => "Offensive Threat: deeper red means stronger nearby mobile enemy pressure."@,
        MapOverlay::FrontierPressure => "Frontier Pressure: amber intensity shows static border and enemy-base exposure."@,
        MapOverlay::PsiThreat => "Psi Threat: purple intensity shows native/psi danger bands."@,
        MapOverlay::Logistics => "Logistics: green active lanes, blue escorted hubs, orange disrupted lanes, red intercepted lanes."@,
        MapOverlay::Trade => "Trade: Arrows show active trade/freight routes between bases."@,
    }
}

pub fn map_overlay_legend(overlay: MapOverlay) -> (r: &'static str)
    ensures
        r@ == map_overlay_legend_text(overlay),
{
    match overlay {
        MapOverlay::Terrain => "Terrain: blue ocean, green flat, olive rolling, brown rocky, teal fungus.",
        MapOverlay::Yields => "Yields: brighter tiles produce more total output.",
        MapOverlay::Ownership => "Ownership: green player control, red rival control, gray unclaimed.",
        MapOverlay::Borders => "Borders: highlighted tiles sit near faction bases and control edges.",
        MapOverlay::Threat => "Offensive Threat: deeper red means stronger nearby mobile enemy pressure.",
        MapOverlay::FrontierPressure => "Frontier Pressure: amber intensity shows static border and enemy-base exposure.",
        MapOverlay::PsiThreat => "Psi Threat: purple intensity shows native/psi danger bands.",
        MapOverlay::Logistics => "Logistics: green active lanes, blue escorted hubs, orange disrupted lanes, red intercepted lanes.",
        MapOverlay::Trade => "Trade: Arrows show active trade/freight routes between bases.",
    }
}

/// The display name of a terrain.
pub open spec fn terrain_name_text(terrain: Terrain) -> Seq<char> {
    match terrain {
        Terrain::Ocean => "Ocean"@,
        Terrain::Flat => "Flat"@,
        Terrain::Rolling => "Rolling"@,
        Terrain::Rocky => "Rocky"@,
        Terrain::Fungus => "Xenofungus"@,
        Terrain::Crater => "Nuclear Crater"@,
    }
}

pub fn terrain_name(terrain: Terrain) -> (r: &'static str)
    ensures
        r@ == terrain_name_text(terrain),
{
    match terrain {
        Terrain::Ocean => "Ocean",
        Terrain::Flat => "Flat",
        Terrain::Rolling => "Rolling",
        Terrain::Rocky => "Rocky",
        Terrain::Fungus => "Xenofungus",
        Terrain::Crater => "Nuclear Crater",
    }
}

/// The map symbol of a terrain.
pub open spec fn terrain_symbol_text(terrain: Terrain) -> Seq<char> {
    match terrain {
        Terrain::Ocean => "w"@,
        Terrain::Flat => "."@,
        Terrain::Rolling => "r"@,
        Terrain::Rocky => "^"@,
        Terrain::Fungus => "F"@,
        Terrain::Crater => "X"@,
    }
}

pub fn terrain_symbol(terrain: Terrain) -> (r: &'static str)
    ensures
        r@ == terrain_symbol_text(terrain),
{
    match terrain {
        Terrain::Ocean => "w",
        Terrain::Flat => ".",
        Terrain::Rolling => "r",
        Terrain::Rocky => "^",
        Terrain::Fungus => "F",
        Terrain::Crater => "X",
    }
}

/// The color of a convoy overlay status.
pub open spec fn convoy_overlay_status_color_hex_text(status: ConvoyOverlayStatus) -> Seq<char> {
    match status {
        ConvoyOverlayStatus::Intercepted => "#bc3838"@,
        ConvoyOverlayStatus::Disrupted => "#c48434"@,
        ConvoyOverlayStatus::Collapsing => "#dc5628"@,
        ConvoyOverlayStatus::Protected => "#4694b6"@,
        ConvoyOverlayStatus::Active => "#489c58"@,
        ConvoyOverlayStatus::NoRoute => "#386048"@,
    }
}

pub fn convoy_overlay_status_color_hex(status: ConvoyOverlayStatus) -> (r: &'static str)
    ensures
        r@ == convoy_overlay_status_color_hex_text(status),
{
    match status {
        ConvoyOverlayStatus::Intercepted => "#bc3838",
        ConvoyOverlayStatus::Disrupted => "#c48434",
        ConvoyOverlayStatus::Collapsing => "#dc5628",
        ConvoyOverlayStatus::Protected => "#4694b6",
        ConvoyOverlayStatus::Active => "#489c58",
        ConvoyOverlayStatus::NoRoute => "#386048",
    }
}

/// The display name of a terrain improvement.
pub open spec fn improvement_name_text(improvement: Improvement) -> Seq<char> {
    match improvement {
        Improvement::Farm => "Farm"@,
        Improvement::Mine => "Mine"@,
        Improvement::Solar => "Solar"@,
        Improvement::Road => "Road"@,
        Improvement::Condenser => "Condenser"@,
        Improvement::EchelonMirror => "Echelon Mirror"@,
        Improvement::Forest => "Forest"@,
        Improvement::ThermalBorehole => "Thermal Borehole"@,
    }
}

pub fn improvement_name(improvement: Improvement) -> (r: &'static str)
    ensures
        r@ == improvement_name_text(improvement),
{
    match improvement {
        Improvement::Farm => "Farm",
        Improvement::Mine => "Mine",
        Improvement::Solar => "Solar",
        Improvement::Road => "Road",
        Improvement::Condenser => "Condenser",
        Improvement::EchelonMirror => "Echelon Mirror",
        Improvement::Forest => "Forest",
        Improvement::ThermalBorehole => "Thermal Borehole",
    }
}

/// The map glyph of a terrain improvement.
pub open spec fn improvement_glyph_text(improvement: Improvement) -> Seq<char> {
    match improvement {
        Improvement::Farm => "v"@,
        Improvement::Mine => "X"@,
        Improvement::Solar => "*"@,
        Improvement::Road => "="@,
        Improvement::Condenser => "C"@,
        Improvement::EchelonMirror => "M"@,
        Improvement::Forest => "T"@,
        Improvement::ThermalBorehole => "B"@,
    }
}

pub fn improvement_glyph(improvement: Improvement) -> (r: &'static str)
    ensures
        r@ == improvement_glyph_text(improvement),
{
    match improvement {
        Improvement::Farm => "v",
        Improvement::Mine => "X",
        Improvement::Solar => "*",
        Improvement::Road => "=",
        Improvement::Condenser => "C",
        Improvement::EchelonMirror => "M",
        Improvement::Forest => "T",
        Improvement::ThermalBorehole => "B",
    }
}

/// The label of a governor mode.
pub open spec fn governor_mode_label_text(mode: GovernorMode) -> Seq<char> {
    match mode {
        GovernorMode::Off => "Manual"@,
        GovernorMode::Balanced => "Balanced"@,
        GovernorMode::Recovery => "Recovery"@,
        GovernorMode::Defense => "Defense"@,
        GovernorMode::Economy => "Economy"@,
        GovernorMode::Logistics => "Logistics"@,
        GovernorMode::MachinePolity => "Machine Polity"@,
    }
}

pub fn governor_mode_label(mode: GovernorMode) -> (r: &'static str)
    ensures
        r@ == governor_mode_label_text(mode),
{
    match mode {
        GovernorMode::Off => "Manual",
        GovernorMode::Balanced => "Balanced",
        GovernorMode::Recovery => "Recovery",
        GovernorMode::Defense => "Defense",
        GovernorMode::Economy => "Economy",
        GovernorMode::Logistics => "Logistics",
        GovernorMode::MachinePolity => "Machine Polity",
    }
}

/// What a governor mode does.
pub open spec fn governor_mode_description_text(mode: GovernorMode) -> Seq<char> {
    match mode {
        GovernorMode::Off => "Manual control of production and research focus."@,
        GovernorMode::Balanced => "Maintains balanced growth and defense posture."@,
        GovernorMode::Recovery => "Prioritizes repair and morale support for stressed bases."@,
        GovernorMode::Defense => "Prioritizes garrisons and defensive facilities for frontline bases."@,
        GovernorMode::Economy => "Prioritizes energy, research, and growth facilities."@,
        GovernorMode::Logistics => "Prioritizes convoy capacity and route security."@,
        GovernorMode::MachinePolity => "Automated governance optimized for industrial efficiency."@,
    }
}

pub fn governor_mode_description(mode: GovernorMode) -> (r: &'static str)
    ensures
        r@ == governor_mode_description_text(mode),
{
    match mode {
        GovernorMode::Off => "Manual control of production and research focus.",
        GovernorMode::Balanced => "Maintains balanced growth and defense posture.",
        GovernorMode::Recovery => "Prioritizes repair and morale support for stressed bases.",
        GovernorMode::Defense => "Prioritizes garrisons and defensive facilities for frontline bases.",
        GovernorMode::Economy => "Prioritizes energy, research, and growth facilities.",
        GovernorMode::Logistics => "Prioritizes convoy capacity and route security.",
        GovernorMode::MachinePolity => "Automated governance optimized for industrial efficiency.",
    }
}

/// The label of a base's area role.
pub open spec fn base_area_role_label_text(role: BaseAreaRole) -> Seq<char> {
    match role {
        BaseAreaRole::RearArea => "Rear Area"@,
        BaseAreaRole::Frontier => "Frontier"@,
        BaseAreaRole::PsiFrontier => "Psi Frontier"@,
        BaseAreaRole::Warzone => "Warzone"@,
    }
}

pub fn base_area_role_label(role: BaseAreaRole) -> (r: &'static str)
    ensures
        r@ == base_area_role_label_text(role),
{
    match role {
        BaseAreaRole::RearArea => "Rear Area",
        BaseAreaRole::Frontier => "Frontier",
        BaseAreaRole::PsiFrontier => "Psi Frontier",
        BaseAreaRole::Warzone => "Warzone",
    }
}

/// The label of a convoy route kind.
pub open spec fn convoy_route_kind_label_text(kind: ConvoyRouteKind) -> Seq<char> {
    match kind {
        ConvoyRouteKind::Trade => "Trade"@,
        ConvoyRouteKind::Freight => "Freight"@,
        ConvoyRouteKind::MilitarySupply => "Military Supply"@,
    }
}

pub fn convoy_route_kind_label(kind: ConvoyRouteKind) -> (r: &'static str)
    ensures
        r@ == convoy_route_kind_label_text(kind),
{
    match kind {
        ConvoyRouteKind::Trade => "Trade",
        ConvoyRouteKind::Freight => "Freight",
        ConvoyRouteKind::MilitarySupply => "Military Supply",
    }
}

/// The label of a unit chassis.
pub open spec fn chassis_label_text(chassis: Chassis) -> Seq<char> {
    match chassis {
        Chassis::Infantry => "Infantry (Base)"@,
        Chassis::Speeder => "Speeder (Fast)"@,
        Chassis::Hovertank => "Hovertank (Heavy)"@,
        Chassis::Aircraft => "Needlejet (Air)"@,
        Chassis::Sea => "Foil (Sea)"@,
    }
}

pub fn chassis_label(chassis: Chassis) -> (r: &'static str)
    ensures
        r@ == chassis_label_text(chassis),
{
    match chassis {
        Chassis::Infantry => "Infantry (Base)",
        Chassis::Speeder => "Speeder (Fast)",
        Chassis::Hovertank => "Hovertank (Heavy)",
        Chassis::Aircraft => "Needlejet (Air)",
        Chassis::Sea => "Foil (Sea)",
    }
}

/// The label of a diplomatic status.
pub open spec fn diplomacy_status_text_text(status: DiplomacyStatus) -> Seq<char> {
    match status {
        DiplomacyStatus::War => "WAR"@,
        DiplomacyStatus::Truce => "Truce"@,
        DiplomacyStatus::Treaty => "Treaty"@,
        DiplomacyStatus::Pact => "PACT"@,
    }
}

pub fn diplomacy_status_text(status: DiplomacyStatus) -> (r: &'static str)
    ensures
        r@ == diplomacy_status_text_text(status),
{
    match status {
        DiplomacyStatus::War => "WAR",
        DiplomacyStatus::Truce => "Truce",
        DiplomacyStatus::Treaty => "Treaty",
        DiplomacyStatus::Pact => "PACT",
    }
}

/// What a unit kind is for.
pub open spec fn unit_role_summary_text(kind: UnitKind) -> Seq<char> {
    match kind {
        UnitKind::ColonyPod => "Expansion unit for founding new bases."@,
        UnitKind::ScoutPatrol => "Baseline infantry for cheap garrison and early skirmishing."@,
        UnitKind::Former => "Terraforming unit for improving yields and roads."@,
        UnitKind::Speeder => "Fast line unit for mobility and flexible response."@,
        UnitKind::ResonanceLaser => "Advanced shock infantry for breakthrough attacks and base assaults."@,
        UnitKind::EscortSpeeder => "Fast escort unit for convoy protection and response patrols."@,
        UnitKind::RaiderSpeeder => "High-speed striker for aggressive flanks and exposed targets."@,
        UnitKind::TranceScout => "Psi-hardened defender against native and psionic threats."@,
        UnitKind::GarrisonGuard => "Heavy defensive infantry for frontier bases and chokepoints."@,
        UnitKind::PsiSentinel => "Elite psi-defense guard for hostile frontier pressure."@,
        UnitKind::MindWorm => "Native psi attacker that threatens exposed units and weak bases."@,
        UnitKind::IsleOfTheDeep => "Native sea-borne lifeform for coastal and ocean pressure."@,
        UnitKind::Needlejet => "High-speed aircraft for rapid interception and strikes."@,
        UnitKind::ProbeTeam => "Covert operatives capable of infiltrating bases and subverting enemy units."@,
        UnitKind::SeaColonyPod => "Sea-borne expansion unit for founding ocean bases."@,
        UnitKind::SeaTransport => "Naval transport for ferrying units across water."@,
        UnitKind::CustomUnit(_) => "A specialized unit built to faction specifications."@,
    }
}

pub fn unit_role_summary(kind: UnitKind) -> (r: &'static str)
    ensures
        r@ == unit_role_summary_text(kind),
{
    match kind {
        UnitKind::ColonyPod => "Expansion unit for founding new bases.",
        UnitKind::ScoutPatrol => "Baseline infantry for cheap garrison and early skirmishing.",
        UnitKind::Former => "Terraforming unit for improving yields and roads.",
        UnitKind::Speeder => "Fast line unit for mobility and flexible response.",
        UnitKind::ResonanceLaser => "Advanced shock infantry for breakthrough attacks and base assaults.",
        UnitKind::EscortSpeeder => "Fast escort unit for convoy protection and response patrols.",
        UnitKind::RaiderSpeeder => "High-speed striker for aggressive flanks and exposed targets.",
        UnitKind::TranceScout => "Psi-hardened defender against native and psionic threats.",
        UnitKind::GarrisonGuard => "Heavy defensive infantry for frontier bases and chokepoints.",
        UnitKind::PsiSentinel => "Elite psi-defense guard for hostile frontier pressure.",
        UnitKind::MindWorm => "Native psi attacker that threatens exposed units and weak bases.",
        UnitKind::IsleOfTheDeep => "Native sea-borne lifeform for coastal and ocean pressure.",
        UnitKind::Needlejet => "High-speed aircraft for rapid interception and strikes.",
        UnitKind::ProbeTeam => "Covert operatives capable of infiltrating bases and subverting enemy units.",
        UnitKind::SeaColonyPod => "Sea-borne expansion unit for founding ocean bases.",
        UnitKind::SeaTransport => "Naval transport for ferrying units across water.",
        UnitKind::CustomUnit(_) => "A specialized unit built to faction specifications.",
    }
}

/// A short badge for a unit kind's role.
pub open spec fn unit_role_badge_text(kind: UnitKind) -> Seq<char> {
    match kind {
        UnitKind::ColonyPod => "COL"@,
        UnitKind::ScoutPatrol => "INF"@,
        UnitKind::Former => "ENG"@,
        UnitKind::Speeder => "MOB"@,
        UnitKind::ResonanceLaser => "SHK"@,
        UnitKind::EscortSpeeder => "ESC"@,
        UnitKind::RaiderSpeeder => "RAID"@,
        UnitKind::TranceScout => "PSI"@,
        UnitKind::GarrisonGuard => "DEF"@,
        UnitKind::PsiSentinel => "PSI+"@,
        UnitKind::MindWorm => "NAT"@,
        UnitKind::IsleOfTheDeep => "SEA"@,
        UnitKind::Needlejet => "AIR"@,
        UnitKind::ProbeTeam => "ESP"@,
        UnitKind::SeaColonyPod => "COL"@,
        UnitKind::SeaTransport => "TRN"@,
        UnitKind::CustomUnit(_) => "SPEC"@,
    }
}

pub fn unit_role_badge(kind: UnitKind) -> (r: &'static str)
    ensures
        r@ == unit_role_badge_text(kind),
{
    match kind {
        UnitKind::ColonyPod => "COL",
        UnitKind::ScoutPatrol => "INF",
        UnitKind::Former => "ENG",
        UnitKind::Speeder => "MOB",
        UnitKind::ResonanceLaser => "SHK",
        UnitKind::EscortSpeeder => "ESC",
        UnitKind::RaiderSpeeder => "RAID",
        UnitKind::TranceScout => "PSI",
        UnitKind::GarrisonGuard => "DEF",
        UnitKind::PsiSentinel => "PSI+",
        UnitKind::MindWorm => "NAT",
        UnitKind::IsleOfTheDeep => "SEA",
        UnitKind::Needlejet => "AIR",
        UnitKind::ProbeTeam => "ESP",
        UnitKind::SeaColonyPod => "COL",
        UnitKind::SeaTransport => "TRN",
        UnitKind::CustomUnit(_) => "SPEC",
    }
}
/// A short badge for a production item's role.
pub open spec fn production_role_badge_text(item: ProductionItem) -> Seq<char> {
    match item {
        ProductionItem::ScoutPatrol => unit_role_badge_text(UnitKind::ScoutPatrol),
        ProductionItem::ColonyPod => unit_role_badge_text(UnitKind::ColonyPod),
        ProductionItem::Former => unit_role_badge_text(UnitKind::Former),
        ProductionItem::Speeder => unit_role_badge_text(UnitKind::Speeder),
        ProductionItem::ResonanceLaser => unit_role_badge_text(UnitKind::ResonanceLaser),
        ProductionItem::EscortSpeeder => unit_role_badge_text(UnitKind::EscortSpeeder),
        ProductionItem::RaiderSpeeder => unit_role_badge_text(UnitKind::RaiderSpeeder),
        ProductionItem::TranceScout => unit_role_badge_text(UnitKind::TranceScout),
        ProductionItem::GarrisonGuard => unit_role_badge_text(UnitKind::GarrisonGuard),
        ProductionItem::PsiSentinel => unit_role_badge_text(UnitKind::PsiSentinel),
        ProductionItem::RecyclingTanks => "ECO"@,
        ProductionItem::PerimeterDefense => "DEF"@,
        ProductionItem::NetworkNode => "RES"@,
        ProductionItem::RecreationCommons => "CIV"@,
        ProductionItem::Greenhouse => "AGR"@,
        ProductionItem::MineralRefinery => "MIN"@,
        ProductionItem::TradeExchange => "TRD"@,
        ProductionItem::FreightDepot => "FRT"@,
        ProductionItem::PatrolGrid => "ESC"@,
        ProductionItem::CommandCenter => "MIL"@,
        ProductionItem::FieldHospital => "REC"@,
        ProductionItem::MilitaryAcademy => "MIL"@,
        ProductionItem::SensorArray => "SEN"@,
        ProductionItem::TransitHub => "MOB"@,
        ProductionItem::PsiBeacon => "PSI"@,
        ProductionItem::ForwardDepot => "LOG"@,
        ProductionItem::HologramTheatre => "MRL"@,
        ProductionItem::BioenhancementCenter => "BIO"@,
        ProductionItem::ResearchHospital => "MED"@,
        ProductionItem::WeatherPattern | ProductionItem::ClinicalImmortality | ProductionItem::EmpathGuild | ProductionItem::OrbitalElevator | ProductionItem::ManifoldDrive | ProductionItem::SingularityContainment | ProductionItem::BlackHoleHarvester => "✧WP"@,
        ProductionItem::ProbeTeam => "ESP"@,
        ProductionItem::CustomUnit(_) => "✧CST"@,
        ProductionItem::StockpileEnergy => "✧WLT"@,
        ProductionItem::SkyHydroponics => "ORB"@,
        ProductionItem::SolarTransmitter => "ORB"@,
        ProductionItem::OrbitalDefense => "ORB"@,
        ProductionItem::SeaColonyPod => unit_role_badge_text(UnitKind::SeaColonyPod),
        ProductionItem::SeaTransport => unit_role_badge_text(UnitKind::SeaTransport),
    }
}

pub fn production_role_badge(item: ProductionItem) -> (r: &'static str)
    ensures
        r@ == production_role_badge_text(item),
{
    match item {
        ProductionItem::ScoutPatrol => unit_role_badge(UnitKind::ScoutPatrol),
        ProductionItem::ColonyPod => unit_role_badge(UnitKind::ColonyPod),
        ProductionItem::Former => unit_role_badge(UnitKind::Former),
        ProductionItem::Speeder => unit_role_badge(UnitKind::Speeder),
        ProductionItem::ResonanceLaser => unit_role_badge(UnitKind::ResonanceLaser),
        ProductionItem::EscortSpeeder => unit_role_badge(UnitKind::EscortSpeeder),
        ProductionItem::RaiderSpeeder => unit_role_badge(UnitKind::RaiderSpeeder),
        ProductionItem::TranceScout => unit_role_badge(UnitKind::TranceScout),
        ProductionItem::GarrisonGuard => unit_role_badge(UnitKind::GarrisonGuard),
        ProductionItem::PsiSentinel => unit_role_badge(UnitKind::PsiSentinel),
        ProductionItem::RecyclingTanks => "ECO",
        ProductionItem::PerimeterDefense => "DEF",
        ProductionItem::NetworkNode => "RES",
        ProductionItem::RecreationCommons => "CIV",
        ProductionItem::Greenhouse => "AGR",
        ProductionItem::MineralRefinery => "MIN",
        ProductionItem::TradeExchange => "TRD",
        ProductionItem::FreightDepot => "FRT",
        ProductionItem::PatrolGrid => "ESC",
        ProductionItem::CommandCenter => "MIL",
        ProductionItem::FieldHospital => "REC",
        ProductionItem::MilitaryAcademy => "MIL",
        ProductionItem::SensorArray => "SEN",
        ProductionItem::TransitHub => "MOB",
        ProductionItem::PsiBeacon => "PSI",
        ProductionItem::ForwardDepot => "LOG",
        ProductionItem::HologramTheatre => "MRL",
        ProductionItem::BioenhancementCenter => "BIO",
        ProductionItem::ResearchHospital => "MED",
        ProductionItem::WeatherPattern | ProductionItem::ClinicalImmortality | ProductionItem::EmpathGuild | ProductionItem::OrbitalElevator | ProductionItem::ManifoldDrive | ProductionItem::SingularityContainment | ProductionItem::BlackHoleHarvester => "✧WP",
        ProductionItem::ProbeTeam => "ESP",
        ProductionItem::CustomUnit(_) => "✧CST",
        ProductionItem::StockpileEnergy => "✧WLT",
        ProductionItem::SkyHydroponics => "ORB",
        ProductionItem::SolarTransmitter => "ORB",
        ProductionItem::OrbitalDefense => "ORB",
        ProductionItem::SeaColonyPod => unit_role_badge(UnitKind::SeaColonyPod),
        ProductionItem::SeaTransport => unit_role_badge(UnitKind::SeaTransport),
    }
}

/// The role category of a production item.
pub open spec fn production_role_category_text(item: ProductionItem) -> Seq<char> {
    match item {
        ProductionItem::ColonyPod => "Expansion"@,
        ProductionItem::Former => "Infrastructure"@,
        ProductionItem::ScoutPatrol | ProductionItem::ResonanceLaser | ProductionItem::GarrisonGuard | ProductionItem::PerimeterDefense | ProductionItem::SensorArray => "Defense"@,
        ProductionItem::Speeder | ProductionItem::EscortSpeeder | ProductionItem::RaiderSpeeder | ProductionItem::TransitHub | ProductionItem::ForwardDepot => "Mobility"@,
        ProductionItem::TranceScout | ProductionItem::PsiSentinel | ProductionItem::PsiBeacon => "Psi"@,
        ProductionItem::ProbeTeam => "Espionage"@,
        ProductionItem::NetworkNode => "Research"@,
        ProductionItem::Greenhouse => "Food"@,
        ProductionItem::MineralRefinery => "Extraction"@,
        ProductionItem::TradeExchange => "Trade"@,
        ProductionItem::FreightDepot => "Logistics"@,
        ProductionItem::PatrolGrid => "Security"@,
        ProductionItem::HologramTheatre => "Morale"@,
        ProductionItem::BioenhancementCenter => "Biotech"@,
        ProductionItem::ResearchHospital => "Recovery"@,
        ProductionItem::RecyclingTanks | ProductionItem::RecreationCommons => "Economy"@,
        ProductionItem::CommandCenter | ProductionItem::MilitaryAcademy => "Command"@,
        ProductionItem::FieldHospital => "Recovery"@,
        ProductionItem::WeatherPattern | ProductionItem::ClinicalImmortality | ProductionItem::EmpathGuild | ProductionItem::OrbitalElevator | ProductionItem::ManifoldDrive | ProductionItem::SingularityContainment | ProductionItem::BlackHoleHarvester => "Wonder"@,
        ProductionItem::CustomUnit(_) => "Custom"@,
        ProductionItem::StockpileEnergy => "Wealth"@,
        ProductionItem::SkyHydroponics | ProductionItem::SolarTransmitter | ProductionItem::OrbitalDefense => "Orbital"@,
        ProductionItem::SeaColonyPod => "Expansion"@,
        ProductionItem::SeaTransport => "Mobility"@,
    }
}

pub fn production_role_category(item: ProductionItem) -> (r: &'static str)
    ensures
        r@ == production_role_category_text(item),
{
    match item {
        ProductionItem::ColonyPod => "Expansion",
        ProductionItem::Former => "Infrastructure",
        ProductionItem::ScoutPatrol | ProductionItem::ResonanceLaser | ProductionItem::GarrisonGuard | ProductionItem::PerimeterDefense | ProductionItem::SensorArray => "Defense",
        ProductionItem::Speeder | ProductionItem::EscortSpeeder | ProductionItem::RaiderSpeeder | ProductionItem::TransitHub | ProductionItem::ForwardDepot => "Mobility",
        ProductionItem::TranceScout | ProductionItem::PsiSentinel | ProductionItem::PsiBeacon => "Psi",
        ProductionItem::ProbeTeam => "Espionage",
        ProductionItem::NetworkNode => "Research",
        ProductionItem::Greenhouse => "Food",
        ProductionItem::MineralRefinery => "Extraction",
        ProductionItem::TradeExchange => "Trade",
        ProductionItem::FreightDepot => "Logistics",
        ProductionItem::PatrolGrid => "Security",
        ProductionItem::HologramTheatre => "Morale",
        ProductionItem::BioenhancementCenter => "Biotech",
        ProductionItem::ResearchHospital => "Recovery",
        ProductionItem::RecyclingTanks | ProductionItem::RecreationCommons => "Economy",
        ProductionItem::CommandCenter | ProductionItem::MilitaryAcademy => "Command",
        ProductionItem::FieldHospital => "Recovery",
        ProductionItem::WeatherPattern | ProductionItem::ClinicalImmortality | ProductionItem::EmpathGuild | ProductionItem::OrbitalElevator | ProductionItem::ManifoldDrive | ProductionItem::SingularityContainment | ProductionItem::BlackHoleHarvester => "Wonder",
        ProductionItem::CustomUnit(_) => "Custom",
        ProductionItem::StockpileEnergy => "Wealth",
        ProductionItem::SkyHydroponics | ProductionItem::SolarTransmitter | ProductionItem::OrbitalDefense => "Orbital",
        ProductionItem::SeaColonyPod => "Expansion",
        ProductionItem::SeaTransport => "Mobility",
    }
}

/// What a production item is for.
pub open spec fn production_role_summary_text(item: ProductionItem) -> Seq<char> {
    match item {
        ProductionItem::ScoutPatrol => unit_role_summary_text(UnitKind::ScoutPatrol),
        ProductionItem::ColonyPod => unit_role_summary_text(UnitKind::ColonyPod),
        ProductionItem::Former => unit_role_summary_text(UnitKind::Former),
        ProductionItem::Speeder => unit_role_summary_text(UnitKind::Speeder),
        ProductionItem::ResonanceLaser => unit_role_summary_text(UnitKind::ResonanceLaser),
        ProductionItem::EscortSpeeder => unit_role_summary_text(UnitKind::EscortSpeeder),
        ProductionItem::RaiderSpeeder => unit_role_summary_text(UnitKind::RaiderSpeeder),
        ProductionItem::TranceScout => unit_role_summary_text(UnitKind::TranceScout),
        ProductionItem::GarrisonGuard => unit_role_summary_text(UnitKind::GarrisonGuard),
        ProductionItem::PsiSentinel => unit_role_summary_text(UnitKind::PsiSentinel),
        ProductionItem::ProbeTeam => unit_role_summary_text(UnitKind::ProbeTeam),
        ProductionItem::RecyclingTanks => "Economic facility that stabilizes early growth and mineral flow."@,
        ProductionItem::PerimeterDefense => "Static defense facility for frontline bases under attack."@,
        ProductionItem::NetworkNode => "Research and energy infrastructure for developing bases."@,
        ProductionItem::RecreationCommons => "Stability facility that suppresses unrest and restores output."@,
        ProductionItem::Greenhouse => "Agriculture facility that improves nutrient flow and steadier population growth."@,
        ProductionItem::MineralRefinery => "Extraction facility that strengthens mineral throughput and industrial output."@,
        ProductionItem::TradeExchange => "Trade infrastructure that converts nearby friendly-base links into stronger energy flow."@,
        ProductionItem::FreightDepot => "Freight logistics facility that converts nearby friendly-base links into stronger mineral throughput."@,
        ProductionItem::PatrolGrid => "Convoy protection and surveillance facility that increases route capacity and reduces disruption."@,
        ProductionItem::CommandCenter => "Training, support, and readiness hub for military bases."@,
        ProductionItem::FieldHospital => "Recovery facility for damaged garrisons and wounded rotations."@,
        ProductionItem::MilitaryAcademy => "Advanced training center for higher-quality new troops."@,
        ProductionItem::SensorArray => "Frontier sensing and coverage facility for threatened borders."@,
        ProductionItem::TransitHub => "Mobility support facility for fast-response and raider-oriented forces."@,
        ProductionItem::PsiBeacon => "Psi-support facility for hostile fungus fronts and native-pressure bases."@,
        ProductionItem::ForwardDepot => "Forward logistics facility for mobile armies, repair rotations, and strike support."@,
        ProductionItem::HologramTheatre => "Morale and culture facility that suppresses unrest while boosting research-side energy flow."@,
        ProductionItem::BioenhancementCenter => "Biotech support facility that improves troop readiness, psi resilience, and long-term base performance."@,
        ProductionItem::ResearchHospital => "Advanced medical complex that accelerates recovery, growth, and scientific throughput."@,
        ProductionItem::WeatherPattern => "Global wonder that stabilizes planetary conditions, protecting against Dust Fall."@,
        ProductionItem::ClinicalImmortality => "Global wonder that optimizes biological health, boosting Food Security."@,
        ProductionItem::EmpathGuild => "Global wonder that strengthens collective oversight, protecting against Governance Override."@,
        ProductionItem::OrbitalElevator => "Global wonder that provides cheap access to orbit, essential for Space Mastery."@,
        ProductionItem::ManifoldDrive => "Global wonder that manipulates gravity wells, essential for Space Mastery."@,
        ProductionItem::SingularityContainment => "Global wonder that stabilizes singularity fields, essential for Black Hole Harvesting."@,
        ProductionItem::BlackHoleHarvester => "Global wonder that extracts energy from the void, essential for Black Hole Harvesting."@,
        ProductionItem::CustomUnit(_) => "A unit designed in your workshop with specialized components."@,
        ProductionItem::StockpileEnergy => "Conversion process that turns excess minerals into immediate energy stock."@,
        ProductionItem::SkyHydroponics => "Orbital satellite that uses advanced genetics to boost planetary nutrient yields."@,
        ProductionItem::SolarTransmitter => "Orbital array that transmits focused solar energy to planetary receivers."@,
        ProductionItem::OrbitalDefense => "Network of defensive pods designed to intercept atmospheric and orbital threats."@,
        ProductionItem::SeaColonyPod => unit_role_summary_text(UnitKind::SeaColonyPod),
        ProductionItem::SeaTransport => unit_role_summary_text(UnitKind::SeaTransport),
    }
}

pub fn production_role_summary(item: ProductionItem) -> (r: &'static str)
    ensures
        r@ == production_role_summary_text(item),
{
    match item {
        ProductionItem::ScoutPatrol => unit_role_summary(UnitKind::ScoutPatrol),
        ProductionItem::ColonyPod => unit_role_summary(UnitKind::ColonyPod),
        ProductionItem::Former => unit_role_summary(UnitKind::Former),
        ProductionItem::Speeder => unit_role_summary(UnitKind::Speeder),
        ProductionItem::ResonanceLaser => unit_role_summary(UnitKind::ResonanceLaser),
        ProductionItem::EscortSpeeder => unit_role_summary(UnitKind::EscortSpeeder),
        ProductionItem::RaiderSpeeder => unit_role_summary(UnitKind::RaiderSpeeder),
        ProductionItem::TranceScout => unit_role_summary(UnitKind::TranceScout),
        ProductionItem::GarrisonGuard => unit_role_summary(UnitKind::GarrisonGuard),
        ProductionItem::PsiSentinel => unit_role_summary(UnitKind::PsiSentinel),
        ProductionItem::ProbeTeam => unit_role_summary(UnitKind::ProbeTeam),
        ProductionItem::RecyclingTanks => "Economic facility that stabilizes early growth and mineral flow.",
        ProductionItem::PerimeterDefense => "Static defense facility for frontline bases under attack.",
        ProductionItem::NetworkNode => "Research and energy infrastructure for developing bases.",
        ProductionItem::RecreationCommons => "Stability facility that suppresses unrest and restores output.",
        ProductionItem::Greenhouse => "Agriculture facility that improves nutrient flow and steadier population growth.",
        ProductionItem::MineralRefinery => "Extraction facility that strengthens mineral throughput and industrial output.",
        ProductionItem::TradeExchange => "Trade infrastructure that converts nearby friendly-base links into stronger energy flow.",
        ProductionItem::FreightDepot => "Freight logistics facility that converts nearby friendly-base links into stronger mineral throughput.",
        ProductionItem::PatrolGrid => "Convoy protection and surveillance facility that increases route capacity and reduces disruption.",
        ProductionItem::CommandCenter => "Training, support, and readiness hub for military bases.",
        ProductionItem::FieldHospital => "Recovery facility for damaged garrisons and wounded rotations.",
        ProductionItem::MilitaryAcademy => "Advanced training center for higher-quality new troops.",
        ProductionItem::SensorArray => "Frontier sensing and coverage facility for threatened borders.",
        ProductionItem::TransitHub => "Mobility support facility for fast-response and raider-oriented forces.",
        ProductionItem::PsiBeacon => "Psi-support facility for hostile fungus fronts and native-pressure bases.",
        ProductionItem::ForwardDepot => "Forward logistics facility for mobile armies, repair rotations, and strike support.",
        ProductionItem::HologramTheatre => "Morale and culture facility that suppresses unrest while boosting research-side energy flow.",
        ProductionItem::BioenhancementCenter => "Biotech support facility that improves troop readiness, psi resilience, and long-term base performance.",
        ProductionItem::ResearchHospital => "Advanced medical complex that accelerates recovery, growth, and scientific throughput.",
        ProductionItem::WeatherPattern => "Global wonder that stabilizes planetary conditions, protecting against Dust Fall.",
        ProductionItem::ClinicalImmortality => "Global wonder that optimizes biological health, boosting Food Security.",
        ProductionItem::EmpathGuild => "Global wonder that strengthens collective oversight, protecting against Governance Override.",
        ProductionItem::OrbitalElevator => "Global wonder that provides cheap access to orbit, essential for Space Mastery.",
        ProductionItem::ManifoldDrive => "Global wonder that manipulates gravity wells, essential for Space Mastery.",
        ProductionItem::SingularityContainment => "Global wonder that stabilizes singularity fields, essential for Black Hole Harvesting.",
        ProductionItem::BlackHoleHarvester => "Global wonder that extracts energy from the void, essential for Black Hole Harvesting.",
        ProductionItem::CustomUnit(_) => "A unit designed in your workshop with specialized components.",
        ProductionItem::StockpileEnergy => "Conversion process that turns excess minerals into immediate energy stock.",
        ProductionItem::SkyHydroponics => "Orbital satellite that uses advanced genetics to boost planetary nutrient yields.",
        ProductionItem::SolarTransmitter => "Orbital array that transmits focused solar energy to planetary receivers.",
        ProductionItem::OrbitalDefense => "Network of defensive pods designed to intercept atmospheric and orbital threats.",
        ProductionItem::SeaColonyPod => unit_role_summary(UnitKind::SeaColonyPod),
        ProductionItem::SeaTransport => unit_role_summary(UnitKind::SeaTransport),
    }
}

/// Only the logistics and trade overlays draw convoy lines.
pub fn map_overlay_uses_convoy_lines(overlay: MapOverlay) -> (r: bool)
    ensures
        r == (overlay == MapOverlay::Logistics || overlay == MapOverlay::Trade),
{
    matches!(overlay, MapOverlay::Logistics | MapOverlay::Trade)
}

pub fn ui_overlay_label() -> (r: &'static str)
    ensures
        r@ == "overlay"@,
{
    "overlay"
}

pub fn ui_minimap_heading() -> (r: &'static str)
    ensures
        r@ == "Minimap"@,
{
    "Minimap"
}

/// The glyph a convoy status shows on the map; a tile with no route shows none.
pub open spec fn convoy_overlay_status_glyph_text(status: ConvoyOverlayStatus) -> Option<Seq<char>> {
    match status {
        ConvoyOverlayStatus::Collapsing => Some("X"@),
        ConvoyOverlayStatus::Intercepted => Some("!"@),
        ConvoyOverlayStatus::Disrupted => Some("="@),
        ConvoyOverlayStatus::Protected => Some("+"@),
        ConvoyOverlayStatus::Active => Some("-"@),
        ConvoyOverlayStatus::NoRoute => None,
    }
}

pub fn convoy_overlay_status_glyph(status: ConvoyOverlayStatus) -> (r: Option<&'static str>)
    ensures
        opt_view(r) == convoy_overlay_status_glyph_text(status),
{
    match status {
        ConvoyOverlayStatus::Collapsing => Some("X"),
        ConvoyOverlayStatus::Intercepted => Some("!"),
        ConvoyOverlayStatus::Disrupted => Some("="),
        ConvoyOverlayStatus::Protected => Some("+"),
        ConvoyOverlayStatus::Active => Some("-"),
        ConvoyOverlayStatus::NoRoute => None,
    }
}

pub fn unit_name(kind: UnitKind) -> (r: &'static str)
    ensures
        r@ == content::unit_name_text(kind),
{
    content::unit_name(&kind)
}

/// The rank a unit's experience earns.
pub open spec fn unit_rank_name_text(experience: i32) -> Seq<char> {
    if experience <= 0 {
        "Green"@
    } else if experience == 1 {
        "Disciplined"@
    } else if experience == 2 {
        "Veteran"@
    } else {
        "Elite"@
    }
}

pub fn unit_rank_name(experience: i32) -> (r: &'static str)
    ensures
        r@ == unit_rank_name_text(experience),
{
    if experience <= 0 {
        "Green"
    } else if experience == 1 {
        "Disciplined"
    } else if experience == 2 {
        "Veteran"
    } else {
        "Elite"
    }
}

/// The map symbol of a unit kind.
pub open spec fn unit_map_symbol_text(kind: UnitKind) -> Seq<char> {
    match kind {
        UnitKind::ColonyPod => "\u{25cb}"@,
        UnitKind::SeaColonyPod => "\u{25cb}"@,
        UnitKind::ScoutPatrol => "\u{25b2}"@,
        UnitKind::Former => "\u{2692}"@,
        UnitKind::Speeder => "\u{bb}"@,
        UnitKind::ResonanceLaser => "\u{26a1}"@,
        UnitKind::EscortSpeeder => "\u{bb}"@,
        UnitKind::RaiderSpeeder => "\u{bb}"@,
        UnitKind::TranceScout => "\u{25bc}"@,
        UnitKind::GarrisonGuard => "\u{25a0}"@,
        UnitKind::PsiSentinel => "\u{25a3}"@,
        UnitKind::MindWorm => "\u{1fab1}"@,
        UnitKind::IsleOfTheDeep => "\u{1f991}"@,
        UnitKind::Needlejet => "\u{2708}"@,
        UnitKind::ProbeTeam => "\u{1f441}"@,
        UnitKind::SeaTransport => "\u{26f4}"@,
        UnitKind::CustomUnit(_) => "\u{2727}"@,
    }
}

/// The map symbol of a unit; every owner sees the same symbol.
pub fn unit_map_symbol(kind: UnitKind, _owner: usize) -> (r: String)
    ensures
        r@ == unit_map_symbol_text(kind),
{
    let symbol = match kind {
        UnitKind::ColonyPod => "\u{25cb}",
        UnitKind::SeaColonyPod => "\u{25cb}",
        UnitKind::ScoutPatrol => "\u{25b2}",
        UnitKind::Former => "\u{2692}",
        UnitKind::Speeder => "\u{bb}",
        UnitKind::ResonanceLaser => "\u{26a1}",
        UnitKind::EscortSpeeder => "\u{bb}",
        UnitKind::RaiderSpeeder => "\u{bb}",
        UnitKind::TranceScout => "\u{25bc}",
        UnitKind::GarrisonGuard => "\u{25a0}",
        UnitKind::PsiSentinel => "\u{25a3}",
        UnitKind::MindWorm => "\u{1fab1}",
        UnitKind::IsleOfTheDeep => "\u{1f991}",
        UnitKind::Needlejet => "\u{2708}",
        UnitKind::ProbeTeam => "\u{1f441}",
        UnitKind::SeaTransport => "\u{26f4}",
        UnitKind::CustomUnit(_) => "\u{2727}",
    };
    owned(symbol)
}

/// A base shows one symbol to its owner and another to everyone else.
pub fn base_map_symbol(owner: usize, viewer_owner: usize) -> (r: &'static str)
    ensures
        r@ == (if owner == viewer_owner {
            "\u{26eb}"@
        } else {
            "\u{232c}"@
        }),
{
    if owner == viewer_owner {
        "\u{26eb}"
    } else {
        "\u{232c}"
    }
}

/// "N nutrients / M minerals / E energy".
pub open spec fn yields_text(y: Yields) -> Seq<char> {
    int_text(y.nutrients as int) + " nutrients / "@ + int_text(y.minerals as int)
        + " minerals / "@ + int_text(y.energy as int) + " energy"@
}

pub fn format_yields(yields: Yields) -> (r: String)
    ensures
        r@ == yields_text(yields),
{
    let mut s = String::new();
    push_int(&mut s, yields.nutrients as i64);
    push_text(&mut s, " nutrients / ");
    push_int(&mut s, yields.minerals as i64);
    push_text(&mut s, " minerals / ");
    push_int(&mut s, yields.energy as i64);
    push_text(&mut s, " energy");
    s
}

/// "N nutrients / M minerals".
pub open spec fn storage_text(nutrients_stock: i32, minerals_stock: i32) -> Seq<char> {
    int_text(nutrients_stock as int) + " nutrients / "@ + int_text(minerals_stock as int)
        + " minerals"@
}

pub fn format_base_storage(nutrients_stock: i32, minerals_stock: i32) -> (r: String)
    ensures
        r@ == storage_text(nutrients_stock, minerals_stock),
{
    let mut s = String::new();
    push_int(&mut s, nutrients_stock as i64);
    push_text(&mut s, " nutrients / ");
    push_int(&mut s, minerals_stock as i64);
    push_text(&mut s, " minerals");
    s
}

/// "current/cost".
pub open spec fn progress_text(current: i32, cost: i32) -> Seq<char> {
    int_text(current as int) + "/"@ + int_text(cost as int)
}

pub fn format_research_progress(current: i32, cost: i32) -> (r: String)
    ensures
        r@ == progress_text(current, cost),
{
    let mut s = String::new();
    push_int(&mut s, current as i64);
    push_text(&mut s, "/");
    push_int(&mut s, cost as i64);
    s
}

/// How a base's unrest reads, with the output it costs.
pub open spec fn stability_text(unrest: i32) -> Seq<char> {
    if unrest <= 0 {
        "Stable"@
    } else if unrest == 1 {
        "Strained (-1 minerals, -2 energy)"@
    } else {
        "Unrest "@ + int_text(unrest as int) + " (-"@ + int_text(unrest as int) + " minerals, -"@
            + int_text(unrest * 2) + " energy)"@
    }
}

/// The stability line of a base; doubling the unrest must fit in `i32`.
pub fn format_stability(unrest: i32) -> (r: String)
    requires
        unrest <= 1073741823,
    ensures
        r@ == stability_text(unrest),
{
    if unrest <= 0 {
        owned("Stable")
    } else if unrest == 1 {
        owned("Strained (-1 minerals, -2 energy)")
    } else {
        let mut s = owned("Unrest ");
        push_int(&mut s, unrest as i64);
        push_text(&mut s, " (-");
        push_int(&mut s, unrest as i64);
        push_text(&mut s, " minerals, -");
        push_int(&mut s, (unrest * 2) as i64);
        push_text(&mut s, " energy)");
        s
    }
}

/// "Clean", or how many recovery notes a save carries.
pub open spec fn recovery_status_text(recovery_note_count: usize) -> Seq<char> {
    if recovery_note_count == 0 {
        "Clean"@
    } else {
        "Recovered ("@ + nat_text(recovery_note_count as nat) + ")"@
    }
}

pub fn format_recovery_status(recovery_note_count: usize) -> (r: String)
    ensures
        r@ == recovery_status_text(recovery_note_count),
{
    if recovery_note_count == 0 {
        owned("Clean")
    } else {
        let mut s = owned("Recovered (");
        push_nat(&mut s, recovery_note_count as u64);
        push_text(&mut s, ")");
        s
    }
}

/// The proleptic Gregorian date (year, month, day) of a day count since 1970-01-01.
pub open spec fn civil_date(days: int) -> (int, int, int) {
    let z = days + 719_468;
    let era = z / 146_097;
    let doe = z - era * 146_097;
    let yoe = (doe - doe / 1_460 + doe / 36_524 - doe / 146_096) / 365;
    let y = yoe + era * 400;
    let doy = doe - (365 * yoe + yoe / 4 - yoe / 100);
    let mp = (5 * doy + 2) / 153;
    let day = doy - (153 * mp + 2) / 5 + 1;
    let month = mp + if mp < 10 {
        3int
    } else {
        -9int
    };
    let year = y + if month <= 2 {
        1int
    } else {
        0int
    };
    (year, month, day)
}

/// The date of a non-negative day count since the Unix epoch.
fn civil_from_days(days_since_unix_epoch: i64) -> (r: (i64, u32, u32))
    requires
        0 <= days_since_unix_epoch <= 1_000_000_000_000_000,
    ensures
        r.0 == civil_date(days_since_unix_epoch as int).0,
        r.1 == civil_date(days_since_unix_epoch as int).1,
        r.2 == civil_date(days_since_unix_epoch as int).2,
        r.0 >= 0,
{
    let z = days_since_unix_epoch + 719_468;
    let era = z / 146_097;
    assert(0 <= era * 146_097 <= z) by (nonlinear_arith)
        requires
            era == z / 146_097,
            z >= 0,
    ;
    let doe = z - era * 146_097;
    assert(doe < 146_097) by (nonlinear_arith)
        requires
            era == z / 146_097,
            z >= 0,
            doe == z - era * 146_097,
    ;
    let yoe = (doe - doe / 1_460 + doe / 36_524 - doe / 146_096) / 365;
    assert(0 <= yoe <= 401);
    assert(0 <= era * 400 <= z) by (nonlinear_arith)
        requires
            era == z / 146_097,
            z >= 0,
    ;
    let y = yoe + era * 400;
    let doy = doe - (365 * yoe + yoe / 4 - yoe / 100);
    let mp = (5 * doy + 2) / 153;
    let day = doy - (153 * mp + 2) / 5 + 1;
    let month = mp + if mp < 10 {
        3
    } else {
        -9
    };
    let year = y + if month <= 2 {
        1
    } else {
        0
    };
    (year, month as u32, day as u32)
}

/// The date and time of a Unix timestamp, as "YYYY-MM-DD HH:MM UTC".
pub open spec fn timestamp_text(t: u64) -> Seq<char> {
    let days = (t / 86_400) as int;
    let secs = (t % 86_400) as int;
    let date = civil_date(days);
    zero_pad(nat_text(date.0 as nat), 4) + "-"@ + zero_pad(nat_text((date.1 as u32) as nat), 2)
        + "-"@ + zero_pad(nat_text((date.2 as u32) as nat), 2) + " "@ + zero_pad(
        nat_text((secs / 3_600) as nat),
        2,
    ) + ":"@ + zero_pad(nat_text(((secs % 3_600) / 60) as nat), 2) + " UTC"@
}

/// A last-updated time for display; "Unknown" when there is none.
pub open spec fn updated_text(last_updated_unix: Option<u64>) -> Seq<char> {
    match last_updated_unix {
        Some(t) => timestamp_text(t),
        None => "Unknown"@,
    }
}

pub fn format_unix_timestamp(last_updated_unix: Option<u64>) -> (r: String)
    ensures
        r@ == updated_text(last_updated_unix),
{
    let timestamp = match last_updated_unix {
        Some(t) => t,
        None => {
            return owned("Unknown");
        },
    };
    let days = (timestamp / 86_400) as i64;
    let secs_of_day = (timestamp % 86_400) as i64;
    let (year, month, day) = civil_from_days(days);
    let hour = secs_of_day / 3_600;
    let minute = (secs_of_day % 3_600) / 60;
    let mut s = String::new();
    let t = u64_text(year as u64);
    push_zero_padded(&mut s, t.as_str(), 4);
    push_text(&mut s, "-");
    let t = u64_text(month as u64);
    push_zero_padded(&mut s, t.as_str(), 2);
    push_text(&mut s, "-");
    let t = u64_text(day as u64);
    push_zero_padded(&mut s, t.as_str(), 2);
    push_text(&mut s, " ");
    let t = u64_text(hour as u64);
    push_zero_padded(&mut s, t.as_str(), 2);
    push_text(&mut s, ":");
    let t = u64_text(minute as u64);
    push_zero_padded(&mut s, t.as_str(), 2);
    push_text(&mut s, " UTC");
    s
}

/// The label of a save slot category.
pub open spec fn save_slot_category_label_text(category: SaveSlotCategory) -> Seq<char> {
    match category {
        SaveSlotCategory::Autosave => "Autosave"@,
        SaveSlotCategory::Manual => "Manual"@,
        SaveSlotCategory::Imported => "Imported"@,
        SaveSlotCategory::Empty => "Empty"@,
    }
}

pub fn save_slot_category_label(category: SaveSlotCategory) -> (r: &'static str)
    ensures
        r@ == save_slot_category_label_text(category),
{
    match category {
        SaveSlotCategory::Autosave => "Autosave",
        SaveSlotCategory::Manual => "Manual",
        SaveSlotCategory::Imported => "Imported",
        SaveSlotCategory::Empty => "Empty",
    }
}

/// The notes of a save as a short preview: trimmed, cut after 36 characters.
pub open spec fn notes_preview_text(notes: Seq<char>) -> Seq<char> {
    let t = trim(notes);
    if t.len() == 0 {
        "No notes"@
    } else if t.len() > 36 {
        t.take(36) + "..."@
    } else {
        t
    }
}

/// A save slot as a row of the save browser.
pub fn save_browser_row_summary(entry: &SaveSlotListing) -> (r: SaveBrowserRowSummary)
    ensures
        r.file_id@ == entry.id@,
        r.display_name@ == (match entry.metadata {
            Some(m) => m.save_name@,
            None => "Empty"@,
        }),
        r.turn_text@ == (match entry.metadata {
            Some(m) => int_text(m.saved_turn as int),
            None => "-"@,
        }),
        r.recovery_text@ == (match entry.metadata {
            Some(m) => recovery_status_text(m.recovery_note_count),
            None => "Empty"@,
        }),
        r.updated_text@ == (match entry.metadata {
            Some(m) => updated_text(m.last_updated_unix),
            None => "Unknown"@,
        }),
        r.category_text@ == save_slot_category_label_text(entry.category),
        r.notes_preview@ == (match entry.metadata {
            Some(m) => notes_preview_text(m.notes@),
            None => "No notes"@,
        }),
        r.is_empty == entry.metadata is None,
{
    let category_text = owned(save_slot_category_label(entry.category));
    match &entry.metadata {
        Some(metadata) => {
            let notes = trimmed(metadata.notes.as_str());
            let count = notes.as_str().unicode_len();
            let notes_preview = if count == 0 {
                owned("No notes")
            } else if count > 36 {
                let mut p = char_range(notes.as_str(), 0, 36);
                push_text(&mut p, "...");
                p
            } else {
                notes
            };
            SaveBrowserRowSummary {
                file_id: entry.id.clone(),
                display_name: metadata.save_name.clone(),
                turn_text: crate::text::i64_text(metadata.saved_turn as i64),
                recovery_text: format_recovery_status(metadata.recovery_note_count),
                updated_text: format_unix_timestamp(metadata.last_updated_unix),
                category_text,
                notes_preview,
                is_empty: false,
            }
        },
        None => SaveBrowserRowSummary {
            file_id: entry.id.clone(),
            display_name: owned("Empty"),
            turn_text: owned("-"),
            recovery_text: owned("Empty"),
            updated_text: owned("Unknown"),
            category_text,
            notes_preview: owned("No notes"),
            is_empty: true,
        },
    }
}

pub fn production_name(item: ProductionItem) -> (r: &'static str)
    ensures
        r@ == production_name_text(item),
{
    content::production_name(item)
}

/// The tooltip line describing a secret project's effect.
/// What a secret project does, in one sentence.
pub open spec fn secret_project_effect_sentence_text(project: SecretProject) -> Seq<char> {
    match project {
        SecretProject::WeatherPattern => "Local bases are immune to Dust Fall nutrient penalties."@,
        SecretProject::ClinicalImmortality => "Provides a global +25% bonus to Food Security."@,
        SecretProject::EmpathGuild => "Significantly reduces the risk of Governance Override."@,
        SecretProject::OrbitalElevator => "Unlocks Space Mastery path. Combined with Manifold Drive, grants Space Transcendence victory."@,
        SecretProject::ManifoldDrive => "Enables faster-than-light travel. Combined with Orbital Elevator, grants Space Transcendence victory."@,
        SecretProject::SingularityContainment => "Unlocks Black Hole Harvesting path. Combined with Black Hole Harvester, grants Singularity Mastery victory."@,
        SecretProject::BlackHoleHarvester => "Draws infinite power from the void. Combined with Singularity Containment, grants Singularity Mastery victory."@,
    }
}

/// The tooltip line naming what a secret project does.
pub open spec fn secret_project_effect_text(project: SecretProject) -> Seq<char> {
    "Effect: "@ + secret_project_effect_sentence_text(project)
}

/// What a secret project does, in one sentence.
pub fn secret_project_effect_sentence(project: SecretProject) -> (r: &'static str)
    ensures
        r@ == secret_project_effect_sentence_text(project),
{
    match project {
        SecretProject::WeatherPattern => "Local bases are immune to Dust Fall nutrient penalties.",
        SecretProject::ClinicalImmortality => "Provides a global +25% bonus to Food Security.",
        SecretProject::EmpathGuild => "Significantly reduces the risk of Governance Override.",
        SecretProject::OrbitalElevator => "Unlocks Space Mastery path. Combined with Manifold Drive, grants Space Transcendence victory.",
        SecretProject::ManifoldDrive => "Enables faster-than-light travel. Combined with Orbital Elevator, grants Space Transcendence victory.",
        SecretProject::SingularityContainment => "Unlocks Black Hole Harvesting path. Combined with Black Hole Harvester, grants Singularity Mastery victory.",
        SecretProject::BlackHoleHarvester => "Draws infinite power from the void. Combined with Singularity Containment, grants Singularity Mastery victory.",
    }
}

/// The lines of a production item's tooltip: role, cost, unlock, psi support, wonder effect.
pub open spec fn tooltip_lines(item: ProductionItem) -> Seq<Seq<char>> {
    let base = seq![
        production_role_summary_text(item),
        "Cost: "@ + int_text(production_cost_value(item) as int),
    ];
    let with_unlock = match required_tech_of(item) {
        Some(t) => base.push("Unlock: "@ + tech_name_text(t)),
        None => base,
    };
    let with_psi = match item.facility_of() {
        Some(f) => if content::facility_psi_support_value(f) > 0 {
            with_unlock.push("Psi support: +"@ + int_text(content::facility_psi_support_value(f) as int))
        } else {
            with_unlock
        },
        None => with_unlock,
    };
    match item.secret_project_of() {
        Some(p) => with_psi.push("Global Wonder: Only one can exist in the world."@).push(
            secret_project_effect_text(p),
        ),
        None => with_psi,
    }
}

/// The string views of a list of owned strings.
pub open spec fn string_views(v: Seq<String>) -> Seq<Seq<char>> {
    v.map_values(|s: String| s@)
}

proof fn lemma_string_views_push(v: Seq<String>, s: String)
    ensures
        string_views(v.push(s)) == string_views(v).push(s@),
{
    assert(string_views(v.push(s)) =~= string_views(v).push(s@));
}

/// A production item's tooltip, one fact per line.
pub fn production_tooltip_summary(item: ProductionItem) -> (r: String)
    ensures
        r@ == join(tooltip_lines(item), "\n"@),
{
    let mut parts: Vec<String> = Vec::new();
    parts.push(owned(production_role_summary(item)));
    let mut cost = owned("Cost: ");
    push_int(&mut cost, content::production_cost(item) as i64);
    parts.push(cost);
    let ghost base = seq![
        production_role_summary_text(item),
        "Cost: "@ + int_text(production_cost_value(item) as int),
    ];
    assert(string_views(parts@) =~= base);
    if let Some(required_tech) = content::required_tech_for_production(item) {
        let mut line = owned("Unlock: ");
        push_text(&mut line, content::tech_name(required_tech));
        proof {
            lemma_string_views_push(parts@, line);
        }
        parts.push(line);
    }
    if let Some(facility) = item.facility() {
        let psi_support = content::facility_psi_support_bonus(facility);
        if psi_support > 0 {
            let mut line = owned("Psi support: +");
            push_int(&mut line, psi_support as i64);
            proof {
                lemma_string_views_push(parts@, line);
            }
            parts.push(line);
        }
    }
    if let Some(project) = item.secret_project() {
        let line = owned("Global Wonder: Only one can exist in the world.");
        proof {
            lemma_string_views_push(parts@, line);
        }
        parts.push(line);
        let mut effect = owned("Effect: ");
        push_text(&mut effect, secret_project_effect_sentence(project));
        proof {
            lemma_string_views_push(parts@, effect);
        }
        parts.push(effect);
    }
    assert(string_views(parts@) == tooltip_lines(item));
    join_strings(&parts, "\n")
}

/// The status a tooltip ends with: available, locked behind a tech, or unavailable.
pub open spec fn status_suffix_text(available: bool, missing_tech: Option<Tech>) -> Seq<char> {
    if available {
        "\nStatus: Available"@
    } else {
        match missing_tech {
            Some(t) => "\nStatus: Locked\nMissing tech: "@ + tech_name_text(t),
            None => "\nStatus: Unavailable"@,
        }
    }
}

pub fn production_tooltip_summary_with_status(
    item: ProductionItem,
    available: bool,
    missing_tech: Option<Tech>,
) -> (r: String)
    ensures
        r@ == join(tooltip_lines(item), "\n"@) + status_suffix_text(available, missing_tech),
{
    let mut tooltip = production_tooltip_summary(item);
    if available {
        push_text(&mut tooltip, "\nStatus: Available");
    } else if let Some(tech) = missing_tech {
        push_text(&mut tooltip, "\nStatus: Locked\nMissing tech: ");
        push_text(&mut tooltip, content::tech_name(tech));
    } else {
        push_text(&mut tooltip, "\nStatus: Unavailable");
    }
    tooltip
}

/// The tech an item waits for, as a line of text.
pub open spec fn dependency_text(item: ProductionItem) -> Seq<char> {
    match required_tech_of(item) {
        Some(t) => "Requires "@ + tech_name_text(t),
        None => "No tech prerequisite"@,
    }
}

pub fn production_dependency_text(item: ProductionItem) -> (r: String)
    ensures
        r@ == dependency_text(item),
{
    if let Some(required_tech) = content::required_tech_for_production(item) {
        let mut s = owned("Requires ");
        push_text(&mut s, content::tech_name(required_tech));
        s
    } else {
        owned("No tech prerequisite")
    }
}

pub fn build_availability_summary(available: usize, locked: usize) -> (r: String)
    ensures
        r@ == "Build availability: "@ + nat_text(available as nat) + " available / "@ + nat_text(
            locked as nat,
        ) + " locked"@,
{
    let mut s = owned("Build availability: ");
    push_nat(&mut s, available as u64);
    push_text(&mut s, " available / ");
    push_nat(&mut s, locked as u64);
    push_text(&mut s, " locked");
    s
}

pub fn governor_mode_mix_summary(
    balanced: usize,
    defense: usize,
    recovery: usize,
    economy: usize,
    logistics: usize,
) -> (r: String)
    ensures
        r@ == nat_text(balanced as nat) + " balanced / "@ + nat_text(defense as nat)
            + " defense / "@ + nat_text(recovery as nat) + " recovery / "@ + nat_text(
            economy as nat,
        ) + " economy / "@ + nat_text(logistics as nat) + " logistics"@,
{
    let mut s = String::new();
    push_nat(&mut s, balanced as u64);
    push_text(&mut s, " balanced / ");
    push_nat(&mut s, defense as u64);
    push_text(&mut s, " defense / ");
    push_nat(&mut s, recovery as u64);
    push_text(&mut s, " recovery / ");
    push_nat(&mut s, economy as u64);
    push_text(&mut s, " economy / ");
    push_nat(&mut s, logistics as u64);
    push_text(&mut s, " logistics");
    s
}

/// The smaller of two numbers.
pub open spec fn min_len(a: int, b: int) -> int {
    if a < b {
        a
    } else {
        b
    }
}

/// "name xcount".
pub open spec fn named_count_text(e: NamedCount) -> Seq<char> {
    e.0 + " x"@ + nat_text(e.1 as nat)
}

/// The first `limit` entries of the ranking of `entries`, as "name xcount" joined by ", ".
pub open spec fn named_counts_text(entries: Seq<NamedCount>, empty: Seq<char>, limit: int) -> Seq<
    char,
> {
    if entries.len() == 0 {
        empty
    } else {
        let ranked = rank_sort(entries);
        join(
            ranked.take(min_len(limit, ranked.len() as int)).map_values(
                |e: NamedCount| named_count_text(e),
            ),
            ", "@,
        )
    }
}

fn render_ranked(ranked: &Vec<(String, usize)>, limit: usize) -> (r: String)
    ensures
        r@ == join(
            pair_views(ranked@).take(min_len(limit as int, ranked@.len() as int)).map_values(
                |e: NamedCount| named_count_text(e),
            ),
            ", "@,
        ),
{
    let n = if limit < ranked.len() {
        limit
    } else {
        ranked.len()
    };
    let ghost views = pair_views(ranked@);
    let mut parts: Vec<String> = Vec::new();
    let mut i: usize = 0;
    while i < n
        invariant
            n <= ranked@.len(),
            n == min_len(limit as int, ranked@.len() as int),
            i <= n,
            views == pair_views(ranked@),
            string_views(parts@) == views.take(i as int).map_values(
                |e: NamedCount| named_count_text(e),
            ),
        decreases n - i,
    {
        let mut line = ranked[i].0.clone();
        push_text(&mut line, " x");
        push_nat(&mut line, ranked[i].1 as u64);
        proof {
            lemma_string_views_push(parts@, line);
        }
        parts.push(line);
        i = i + 1;
        assert(string_views(parts@) =~= views.take(i as int).map_values(
            |e: NamedCount| named_count_text(e),
        ));
    }
    join_strings(&parts, ", ")
}

/// Named counts ranked by count (largest first) and then by name, the first
/// `limit` of them joined by ", "; `empty` when there are none.
pub fn summarize_named_counts(entries: &[(String, usize)], empty: &str, limit: usize) -> (r:
    String)
    ensures
        r@ == named_counts_text(pair_views(entries@), empty@, limit as int),
{
    if entries.len() == 0 {
        return owned(empty);
    }
    let ranked = rank_named_counts(entries);
    render_ranked(&ranked, limit)
}

/// Production items with their names as the named counts they are shown as.
pub open spec fn item_count_views(entries: Seq<(ProductionItem, usize)>) -> Seq<NamedCount> {
    entries.map_values(|e: (ProductionItem, usize)| (production_name_text(e.0), e.1))
}

/// Production item counts ranked by count and then by item name, shown like named counts.
pub fn summarize_production_item_counts(
    entries: &[(ProductionItem, usize)],
    empty: &str,
    limit: usize,
) -> (r: String)
    ensures
        r@ == named_counts_text(item_count_views(entries@), empty@, limit as int),
{
    let mut named: Vec<(String, usize)> = Vec::new();
    let mut i: usize = 0;
    while i < entries.len()
        invariant
            i <= entries@.len(),
            pair_views(named@) == item_count_views(entries@).take(i as int),
        decreases entries@.len() - i,
    {
        let (item, count) = entries[i];
        let ghost before = named@;
        named.push((owned(content::production_name(item)), count));
        assert(pair_views(named@) =~= pair_views(before).push((production_name_text(item), count)));
        assert(item_count_views(entries@).take(i + 1) =~= item_count_views(entries@).take(
            i as int,
        ).push((production_name_text(item), count)));
        i = i + 1;
        assert(pair_views(named@) =~= item_count_views(entries@).take(i as int));
    }
    assert(item_count_views(entries@).take(entries@.len() as int) =~= item_count_views(entries@));
    summarize_named_counts(named.as_slice(), empty, limit)
}

/// The first `limit` names joined by ", "; `empty` when there are none.
pub open spec fn base_names_text(names: Seq<Seq<char>>, empty: Seq<char>, limit: int) -> Seq<char> {
    if names.len() == 0 {
        empty
    } else {
        join(names.take(min_len(limit, names.len() as int)), ", "@)
    }
}

pub fn summarize_base_names(names: &[String], empty: &str, limit: usize) -> (r: String)
    ensures
        r@ == base_names_text(string_views(names@), empty@, limit as int),
{
    if names.len() == 0 {
        return owned(empty);
    }
    let n = if limit < names.len() {
        limit
    } else {
        names.len()
    };
    let mut parts: Vec<String> = Vec::new();
    let mut i: usize = 0;
    while i < n
        invariant
            n <= names@.len(),
            i <= n,
            string_views(parts@) == string_views(names@).take(i as int),
        decreases n - i,
    {
        let name = names[i].clone();
        proof {
            lemma_string_views_push(parts@, name);
        }
        parts.push(name);
        i = i + 1;
        assert(string_views(parts@) =~= string_views(names@).take(i as int));
    }
    join_strings(&parts, ", ")
}

/// "base -> item (tech)".
pub open spec fn unlock_block_text(e: (Seq<char>, ProductionItem, Tech)) -> Seq<char> {
    e.0 + " -> "@ + production_name_text(e.1) + " ("@ + tech_name_text(e.2) + ")"@
}

/// The views of base / item / tech triples.
pub open spec fn unlock_block_views(v: Seq<(String, ProductionItem, Tech)>) -> Seq<
    (Seq<char>, ProductionItem, Tech),
> {
    v.map_values(|e: (String, ProductionItem, Tech)| (e.0@, e.1, e.2))
}

/// The first `limit` blocked base plans as "base -> item (tech)" joined by ", ".
pub open spec fn unlock_blocks_text(
    entries: Seq<(Seq<char>, ProductionItem, Tech)>,
    empty: Seq<char>,
    limit: int,
) -> Seq<char> {
    if entries.len() == 0 {
        empty
    } else {
        join(
            entries.take(min_len(limit, entries.len() as int)).map_values(
                |e: (Seq<char>, ProductionItem, Tech)| unlock_block_text(e),
            ),
            ", "@,
        )
    }
}

pub fn summarize_base_unlock_blocks(
    entries: &[(String, ProductionItem, Tech)],
    empty: &str,
    limit: usize,
) -> (r: String)
    ensures
        r@ == unlock_blocks_text(unlock_block_views(entries@), empty@, limit as int),
{
    if entries.len() == 0 {
        return owned(empty);
    }
    let n = if limit < entries.len() {
        limit
    } else {
        entries.len()
    };
    let ghost views = unlock_block_views(entries@);
    let mut parts: Vec<String> = Vec::new();
    let mut i: usize = 0;
    while i < n
        invariant
            n <= entries@.len(),
            i <= n,
            views == unlock_block_views(entries@),
            string_views(parts@) == views.take(i as int).map_values(
                |e: (Seq<char>, ProductionItem, Tech)| unlock_block_text(e),
            ),
        decreases n - i,
    {
        let mut line = entries[i].0.clone();
        push_text(&mut line, " -> ");
        push_text(&mut line, content::production_name(entries[i].1));
        push_text(&mut line, " (");
        push_text(&mut line, content::tech_name(entries[i].2));
        push_text(&mut line, ")");
        proof {
            lemma_string_views_push(parts@, line);
        }
        parts.push(line);
        i = i + 1;
        assert(string_views(parts@) =~= views.take(i as int).map_values(
            |e: (Seq<char>, ProductionItem, Tech)| unlock_block_text(e),
        ));
    }
    join_strings(&parts, ", ")
}

/// The names of production items.
pub open spec fn item_names(items: Seq<ProductionItem>) -> Seq<Seq<char>> {
    items.map_values(|i: ProductionItem| production_name_text(i))
}

/// The names of production items as owned strings.
fn item_name_strings(items: &[ProductionItem]) -> (r: Vec<String>)
    ensures
        string_views(r@) == item_names(items@),
{
    let mut parts: Vec<String> = Vec::new();
    let mut i: usize = 0;
    while i < items.len()
        invariant
            i <= items@.len(),
            string_views(parts@) == item_names(items@).take(i as int),
        decreases items@.len() - i,
    {
        let name = owned(content::production_name(items[i]));
        proof {
            lemma_string_views_push(parts@, name);
        }
        parts.push(name);
        i = i + 1;
        assert(string_views(parts@) =~= item_names(items@).take(i as int));
    }
    assert(item_names(items@).take(items@.len() as int) =~= item_names(items@));
    parts
}

/// A queue of items as "a -> b -> c"; "None" when empty.
pub open spec fn sequence_text(items: Seq<ProductionItem>) -> Seq<char> {
    if items.len() == 0 {
        "None"@
    } else {
        join(item_names(items), " -> "@)
    }
}

pub fn production_sequence_summary(items: &[ProductionItem]) -> (r: String)
    ensures
        r@ == sequence_text(items@),
{
    if items.len() == 0 {
        return owned("None");
    }
    let parts = item_name_strings(items);
    join_strings(&parts, " -> ")
}

pub fn research_current_label(tech: Tech, current: i32, cost: i32) -> (r: String)
    ensures
        r@ == "Current: "@ + tech_name_text(tech) + " ("@ + progress_text(current, cost) + ")"@,
{
    let mut s = owned("Current: ");
    push_text(&mut s, content::tech_name(tech));
    push_text(&mut s, " (");
    let p = format_research_progress(current, cost);
    push_text(&mut s, p.as_str());
    push_text(&mut s, ")");
    s
}

pub fn available_research_label(tech: Tech, is_selected: bool) -> (r: String)
    ensures
        r@ == (if is_selected {
            "Selected: "@ + tech_name_text(tech)
        } else {
            tech_name_text(tech)
        }),
{
    if is_selected {
        let mut s = owned("Selected: ");
        push_text(&mut s, content::tech_name(tech));
        s
    } else {
        owned(content::tech_name(tech))
    }
}

pub fn unlock_preview_heading(tech: Tech) -> (r: String)
    ensures
        r@ == "Pinned unlock preview: "@ + tech_name_text(tech),
{
    let mut s = owned("Pinned unlock preview: ");
    push_text(&mut s, content::tech_name(tech));
    s
}

pub fn unlock_preview_section_heading() -> (r: &'static str)
    ensures
        r@ == "Queue preview if research lands"@,
{
    "Queue preview if research lands"
}

pub fn unlock_preview_row_text(base_name: &str, items: &[ProductionItem]) -> (r: String)
    ensures
        r@ == base_name@ + ": "@ + sequence_text(items@),
{
    let mut s = owned(base_name);
    push_text(&mut s, ": ");
    let q = production_sequence_summary(items);
    push_text(&mut s, q.as_str());
    s
}

pub fn unlock_preview_stale_label() -> (r: &'static str)
    ensures
        r@ == "(stale)"@,
{
    "(stale)"
}

pub fn unlock_preview_focus_label() -> (r: &'static str)
    ensures
        r@ == "Focus"@,
{
    "Focus"
}

pub fn unlock_preview_apply_label() -> (r: &'static str)
    ensures
        r@ == "Apply"@,
{
    "Apply"
}

pub fn unlock_preview_keep_open_label() -> (r: &'static str)
    ensures
        r@ == "Keep preview open"@,
{
    "Keep preview open"
}

pub fn unlock_preview_stage_log_label() -> (r: &'static str)
    ensures
        r@ == "Stage in log"@,
{
    "Stage in log"
}

pub fn unlock_preview_stage_all_log_label() -> (r: &'static str)
    ensures
        r@ == "Stage all previews in log"@,
{
    "Stage all previews in log"
}

pub fn unlock_preview_refresh_label() -> (r: &'static str)
    ensures
        r@ == "Refresh"@,
{
    "Refresh"
}

pub fn unlock_preview_apply_all_label() -> (r: &'static str)
    ensures
        r@ == "Apply all"@,
{
    "Apply all"
}

pub fn unlock_preview_clear_label() -> (r: &'static str)
    ensures
        r@ == "Clear"@,
{
    "Clear"
}

pub fn research_cycle_affected_base_label() -> (r: &'static str)
    ensures
        r@ == "Cycle affected base"@,
{
    "Cycle affected base"
}

pub fn research_focus_affected_label() -> (r: &'static str)
    ensures
        r@ == "Focus affected"@,
{
    "Focus affected"
}

pub fn research_unlock_impact_text(count: usize) -> (r: String)
    ensures
        r@ == "Unblocks "@ + nat_text(count as nat) + " base plan(s)"@,
{
    let mut s = owned("Unblocks ");
    push_nat(&mut s, count as u64);
    push_text(&mut s, " base plan(s)");
    s
}

pub fn research_unlock_affects_text(summary: &str) -> (r: String)
    ensures
        r@ == "Affects: "@ + summary@,
{
    let mut s = owned("Affects: ");
    push_text(&mut s, summary);
    s
}

pub fn unlock_preview_more_bases_text(hidden: usize) -> (r: String)
    ensures
        r@ == nat_text(hidden as nat) + " more base(s) not shown"@,
{
    let mut s = String::new();
    push_nat(&mut s, hidden as u64);
    push_text(&mut s, " more base(s) not shown");
    s
}

pub fn research_available_empty_text() -> (r: &'static str)
    ensures
        r@ == "No new techs are currently selectable."@,
{
    "No new techs are currently selectable."
}

/// The names of techs.
pub open spec fn tech_names(techs: Seq<Tech>) -> Seq<Seq<char>> {
    techs.map_values(|t: Tech| tech_name_text(t))
}

/// The names of techs as owned strings.
fn tech_name_strings(techs: &[Tech]) -> (r: Vec<String>)
    ensures
        string_views(r@) == tech_names(techs@),
{
    let mut parts: Vec<String> = Vec::new();
    let mut i: usize = 0;
    while i < techs.len()
        invariant
            i <= techs@.len(),
            string_views(parts@) == tech_names(techs@).take(i as int),
        decreases techs@.len() - i,
    {
        let name = owned(content::tech_name(techs[i]));
        proof {
            lemma_string_views_push(parts@, name);
        }
        parts.push(name);
        i = i + 1;
        assert(string_views(parts@) =~= tech_names(techs@).take(i as int));
    }
    assert(tech_names(techs@).take(techs@.len() as int) =~= tech_names(techs@));
    parts
}

/// What a blocked tech is missing.
pub open spec fn blocked_missing_text(missing: Seq<Tech>) -> Seq<char> {
    if missing.len() == 0 {
        "Progress blocked"@
    } else {
        "Missing: "@ + join(tech_names(missing), ", "@)
    }
}

pub fn research_blocked_missing_text(missing: &[Tech]) -> (r: String)
    ensures
        r@ == blocked_missing_text(missing@),
{
    if missing.len() == 0 {
        owned("Progress blocked")
    } else {
        let names = tech_name_strings(missing);
        let joined = join_strings(&names, ", ");
        let mut s = owned("Missing: ");
        push_text(&mut s, joined.as_str());
        s
    }
}

pub fn research_blocked_label(tech: Tech, missing: &[Tech]) -> (r: String)
    ensures
        r@ == tech_name_text(tech) + " ["@ + blocked_missing_text(missing@) + "]"@,
{
    let mut s = owned(content::tech_name(tech));
    push_text(&mut s, " [");
    let m = research_blocked_missing_text(missing);
    push_text(&mut s, m.as_str());
    push_text(&mut s, "]");
    s
}

pub fn research_blocked_empty_text() -> (r: &'static str)
    ensures
        r@ == "No blocked techs remain."@,
{
    "No blocked techs remain."
}

/// Drifted previews ask for a refresh; otherwise a pinned preview shows as pinned.
pub fn unlock_preview_action_label(has_pinned_preview: bool, drifted: usize) -> (r: &'static str)
    ensures
        r@ == (if drifted > 0 {
            "Refresh preview"@
        } else if has_pinned_preview {
            "Pinned preview"@
        } else {
            "Preview queue"@
        }),
{
    if drifted > 0 {
        "Refresh preview"
    } else if has_pinned_preview {
        "Pinned preview"
    } else {
        "Preview queue"
    }
}

pub fn unlock_preview_status_text(total: usize, drifted: usize) -> (r: String)
    ensures
        r@ == (if drifted > 0 {
            "Pinned preview: "@ + nat_text(drifted as nat) + "/"@ + nat_text(total as nat)
                + " stale"@
        } else {
            "Pinned preview: "@ + nat_text(total as nat) + " current"@
        }),
{
    let mut s = owned("Pinned preview: ");
    if drifted > 0 {
        push_nat(&mut s, drifted as u64);
        push_text(&mut s, "/");
        push_nat(&mut s, total as u64);
        push_text(&mut s, " stale");
    } else {
        push_nat(&mut s, total as u64);
        push_text(&mut s, " current");
    }
    s
}

pub fn unlock_preview_availability_text(tech: Tech, waiting_on_current_research: bool) -> (r:
    String)
    ensures
        r@ == (if waiting_on_current_research {
            "This preview becomes actionable after current research completes: "@
                + tech_name_text(tech) + "."@
        } else {
            "This preview becomes actionable once "@ + tech_name_text(tech) + " is known."@
        }),
{
    if waiting_on_current_research {
        let mut s = owned("This preview becomes actionable after current research completes: ");
        push_text(&mut s, content::tech_name(tech));
        push_text(&mut s, ".");
        s
    } else {
        let mut s = owned("This preview becomes actionable once ");
        push_text(&mut s, content::tech_name(tech));
        push_text(&mut s, " is known.");
        s
    }
}

pub fn unlock_preview_drift_text(drifted: usize) -> (r: String)
    ensures
        r@ == nat_text(drifted as nat) + " staged base preview(s) drifted from current governor intent."@,
{
    let mut s = String::new();
    push_nat(&mut s, drifted as u64);
    push_text(&mut s, " staged base preview(s) drifted from current governor intent.");
    s
}

pub fn unlock_preview_apply_tooltip(can_apply: bool, is_current: bool, tech: Tech) -> (r: String)
    ensures
        r@ == (if can_apply && is_current {
            "Apply this staged queue to the base now."@
        } else if !is_current {
            "This staged queue drifted from current governor intent. Refresh the preview first."@
        } else {
            "Unlock "@ + tech_name_text(tech) + " before applying this staged queue."@
        }),
{
    if can_apply && is_current {
        owned("Apply this staged queue to the base now.")
    } else if !is_current {
        owned("This staged queue drifted from current governor intent. Refresh the preview first.")
    } else {
        let mut s = owned("Unlock ");
        push_text(&mut s, content::tech_name(tech));
        push_text(&mut s, " before applying this staged queue.");
        s
    }
}

pub fn unlock_preview_apply_all_tooltip(can_apply: bool, has_drifted: bool, tech: Tech) -> (r:
    String)
    ensures
        r@ == (if can_apply && !has_drifted {
            "Apply all staged queues that are still valid."@
        } else if has_drifted {
            "One or more staged queues drifted from current governor intent. Refresh the preview first."@
        } else {
            "Unlock "@ + tech_name_text(tech) + " before applying staged queues."@
        }),
{
    if can_apply && !has_drifted {
        owned("Apply all staged queues that are still valid.")
    } else if has_drifted {
        owned(
            "One or more staged queues drifted from current governor intent. Refresh the preview first.",
        )
    } else {
        let mut s = owned("Unlock ");
        push_text(&mut s, content::tech_name(tech));
        push_text(&mut s, " before applying staged queues.");
        s
    }
}

pub fn production_cost(item: ProductionItem) -> (r: i32)
    ensures
        r == production_cost_value(item),
{
    content::production_cost(item)
}

pub fn facility_name(facility: Facility) -> (r: &'static str)
    ensures
        r@ == facility_name_text(facility),
{
    content::facility_name(facility)
}

pub fn tech_name(tech: Tech) -> (r: &'static str)
    ensures
        r@ == tech_name_text(tech),
{
    content::tech_name(tech)
}

pub fn tech_description(tech: Tech) -> (r: &'static str)
    ensures
        r@ == content::tech_description_text(tech),
{
    content::tech_description(tech)
}

pub fn tech_cost(tech: Tech) -> (r: i32)
    ensures
        r == tech_cost_value(tech),
{
    content::tech_cost(tech)
}

/// The unlock facts of a tech: what it requires, the units and the facilities it enables.
pub open spec fn tech_unlock_parts(tech: Tech) -> Seq<Seq<char>> {
    let prereqs = content::tech_prerequisites_of(tech);
    let units = content::unit_unlock_names(tech);
    let facilities = content::facility_unlock_names(tech);
    let a = if prereqs.len() > 0 {
        seq!["Requires: "@ + join(tech_names(prereqs), ", "@)]
    } else {
        Seq::empty()
    };
    let b = if units.len() > 0 {
        a.push("Units: "@ + join(units, ", "@))
    } else {
        a
    };
    if facilities.len() > 0 {
        b.push("Facilities: "@ + join(facilities, ", "@))
    } else {
        b
    }
}

/// The lines describing what a tech unlocks, or a single line saying it unlocks nothing.
pub open spec fn tech_unlock_line_texts(tech: Tech) -> Seq<Seq<char>> {
    if tech_unlock_parts(tech).len() == 0 {
        seq!["No direct prototype unlocks"@]
    } else {
        tech_unlock_parts(tech)
    }
}

/// Owned copies of a list of `&str`.
fn strs_to_strings(v: &Vec<&'static str>) -> (r: Vec<String>)
    ensures
        string_views(r@) == content::name_views(v@),
{
    let mut parts: Vec<String> = Vec::new();
    let mut i: usize = 0;
    while i < v.len()
        invariant
            i <= v@.len(),
            string_views(parts@) == content::name_views(v@).take(i as int),
        decreases v@.len() - i,
    {
        let s = owned(v[i]);
        proof {
            lemma_string_views_push(parts@, s);
        }
        parts.push(s);
        i = i + 1;
        assert(string_views(parts@) =~= content::name_views(v@).take(i as int));
    }
    assert(content::name_views(v@).take(v@.len() as int) =~= content::name_views(v@));
    parts
}

/// A labelled list: `label` followed by the joined names.
fn labelled_list(label: &str, names: &Vec<String>) -> (r: String)
    ensures
        r@ == label@ + join(string_views(names@), ", "@),
{
    let mut s = owned(label);
    let joined = join_strings(names, ", ");
    push_text(&mut s, joined.as_str());
    s
}

/// The unlock facts of a tech as owned strings.
fn tech_unlock_part_strings(tech: Tech) -> (r: Vec<String>)
    ensures
        string_views(r@) == tech_unlock_parts(tech),
{
    let mut parts: Vec<String> = Vec::new();
    let prerequisites = content::tech_prerequisites(tech);
    if prerequisites.len() > 0 {
        let names = tech_name_strings(prerequisites.as_slice());
        let line = labelled_list("Requires: ", &names);
        proof {
            lemma_string_views_push(parts@, line);
        }
        parts.push(line);
    }
    let units = content::tech_enabled_unit_names(tech);
    proof {
        assert(content::name_views(units@).len() == units@.len());
    }
    if units.len() > 0 {
        let names = strs_to_strings(&units);
        let line = labelled_list("Units: ", &names);
        proof {
            lemma_string_views_push(parts@, line);
        }
        parts.push(line);
    }
    let facilities = content::tech_enabled_facility_names(tech);
    proof {
        assert(content::name_views(facilities@).len() == facilities@.len());
    }
    if facilities.len() > 0 {
        let names = strs_to_strings(&facilities);
        let line = labelled_list("Facilities: ", &names);
        proof {
            lemma_string_views_push(parts@, line);
        }
        parts.push(line);
    }
    assert(string_views(parts@) =~= tech_unlock_parts(tech));
    parts
}

pub fn tech_unlock_lines(tech: Tech) -> (r: Vec<String>)
    ensures
        string_views(r@) == tech_unlock_line_texts(tech),
{
    let mut lines = tech_unlock_part_strings(tech);
    if lines.len() == 0 {
        let line = owned("No direct prototype unlocks");
        proof {
            lemma_string_views_push(lines@, line);
        }
        lines.push(line);
    }
    lines
}

pub fn tech_unlock_summary(tech: Tech) -> (r: String)
    ensures
        r@ == (if tech_unlock_parts(tech).len() == 0 {
            "No direct prototype unlocks"@
        } else {
            join(tech_unlock_parts(tech), " | "@)
        }),
{
    let parts = tech_unlock_part_strings(tech);
    if parts.len() == 0 {
        owned("No direct prototype unlocks")
    } else {
        join_strings(&parts, " | ")
    }
}

pub fn research_state_summary(known: usize, available: usize, blocked: usize) -> (r: String)
    ensures
        r@ == "Research state: "@ + nat_text(known as nat) + " known / "@ + nat_text(
            available as nat,
        ) + " available now / "@ + nat_text(blocked as nat) + " blocked"@,
{
    let mut s = owned("Research state: ");
    push_nat(&mut s, known as u64);
    push_text(&mut s, " known / ");
    push_nat(&mut s, available as u64);
    push_text(&mut s, " available now / ");
    push_nat(&mut s, blocked as u64);
    push_text(&mut s, " blocked");
    s
}

/// A field of the faction profile of a faction name, when it has one.
pub open spec fn faction_field_text(name: Seq<char>, field: spec_fn(int) -> Seq<char>) -> Option<
    Seq<char>,
> {
    match content::faction_profile_index(name) {
        Some(i) => Some(field(i)),
        None => None,
    }
}

pub fn faction_leader_name(faction_name: &str) -> (r: Option<&'static str>)
    ensures
        opt_view(r) == faction_field_text(
            faction_name@,
            |i: int| content::faction_leader_text(i),
        ),
{
    match content::faction_profile(faction_name) {
        Some(i) => Some(content::faction_leader(i)),
        None => None,
    }
}

pub fn faction_description(faction_name: &str) -> (r: Option<&'static str>)
    ensures
        opt_view(r) == faction_field_text(
            faction_name@,
            |i: int| content::faction_description_text(i),
        ),
{
    match content::faction_profile(faction_name) {
        Some(i) => Some(content::faction_description(i)),
        None => None,
    }
}

pub fn faction_color_hex(faction_name: &str) -> (r: Option<&'static str>)
    ensures
        opt_view(r) == faction_field_text(
            faction_name@,
            |i: int| content::faction_color_text(i),
        ),
{
    match content::faction_profile(faction_name) {
        Some(i) => Some(content::faction_color(i)),
        None => None,
    }
}

/// A faction's row of the faction overview; the counts pass through unchanged.
pub fn faction_status_summary<'a>(
    faction_name: &'a str,
    base_count: usize,
    unit_count: usize,
    energy: i32,
    research: i32,
    current_tech: Tech,
    techs_discovered: i32,
    unrest_base_count: usize,
    recovery_base_count: usize,
    frontier_base_count: usize,
    rear_area_base_count: usize,
    psi_frontier_base_count: usize,
    warzone_base_count: usize,
    trade_route_count: usize,
    freight_route_count: usize,
    disrupted_route_count: usize,
    intercepted_route_count: usize,
    convoy_capacity_used: usize,
    convoy_capacity_total: usize,
) -> (r: FactionStatusSummary<'a>)
    ensures
        r.name@ == faction_name@,
        opt_view(r.leader) == faction_field_text(
            faction_name@,
            |i: int| content::faction_leader_text(i),
        ),
        opt_view(r.description) == faction_field_text(
            faction_name@,
            |i: int| content::faction_description_text(i),
        ),
        r.color_hex@ == (match faction_field_text(
            faction_name@,
            |i: int| content::faction_color_text(i),
        ) {
            Some(c) => c,
            None => "#d0d0d0"@,
        }),
        r.research_progress@ == progress_text(research, tech_cost_value(current_tech)),
        r.current_tech@ == tech_name_text(current_tech),
        r.base_count == base_count,
        r.unit_count == unit_count,
        r.energy == energy,
        r.techs_discovered == techs_discovered,
        r.unrest_base_count == unrest_base_count,
        r.recovery_base_count == recovery_base_count,
        r.frontier_base_count == frontier_base_count,
        r.rear_area_base_count == rear_area_base_count,
        r.psi_frontier_base_count == psi_frontier_base_count,
        r.warzone_base_count == warzone_base_count,
        r.trade_route_count == trade_route_count,
        r.freight_route_count == freight_route_count,
        r.disrupted_route_count == disrupted_route_count,
        r.intercepted_route_count == intercepted_route_count,
        r.convoy_capacity_used == convoy_capacity_used,
        r.convoy_capacity_total == convoy_capacity_total,
{
    let color_hex: &'a str = match faction_color_hex(faction_name) {
        Some(c) => c,
        None => "#d0d0d0",
    };
    FactionStatusSummary {
        name: faction_name,
        leader: faction_leader_name(faction_name),
        description: faction_description(faction_name),
        color_hex,
        base_count,
        unit_count,
        energy,
        research_progress: format_research_progress(research, content::tech_cost(current_tech)),
        current_tech: content::tech_name(current_tech),
        techs_discovered,
        unrest_base_count,
        recovery_base_count,
        frontier_base_count,
        rear_area_base_count,
        psi_frontier_base_count,
        warzone_base_count,
        trade_route_count,
        freight_route_count,
        disrupted_route_count,
        intercepted_route_count,
        convoy_capacity_used,
        convoy_capacity_total,
    }
}

pub fn format_yield_breakdown(yields: Yields) -> (r: String)
    ensures
        r@ == "N: "@ + int_text(yields.nutrients as int) + " | M: "@ + int_text(
            yields.minerals as int,
        ) + " | E: "@ + int_text(yields.energy as int),
{
    let mut s = owned("N: ");
    push_int(&mut s, yields.nutrients as i64);
    push_text(&mut s, " | M: ");
    push_int(&mut s, yields.minerals as i64);
    push_text(&mut s, " | E: ");
    push_int(&mut s, yields.energy as i64);
    s
}

/// The names of facilities.
pub open spec fn facility_names(facilities: Seq<Facility>) -> Seq<Seq<char>> {
    facilities.map_values(|f: Facility| facility_name_text(f))
}

/// A base's facilities joined by ", "; "None" when it has none.
pub open spec fn facilities_text(facilities: Seq<Facility>) -> Seq<char> {
    if facilities.len() == 0 {
        "None"@
    } else {
        join(facility_names(facilities), ", "@)
    }
}

fn facilities_summary(facilities: &[Facility]) -> (r: String)
    ensures
        r@ == facilities_text(facilities@),
{
    if facilities.len() == 0 {
        return owned("None");
    }
    let mut parts: Vec<String> = Vec::new();
    let mut i: usize = 0;
    while i < facilities.len()
        invariant
            i <= facilities@.len(),
            string_views(parts@) == facility_names(facilities@).take(i as int),
        decreases facilities@.len() - i,
    {
        let name = owned(content::facility_name(facilities[i]));
        proof {
            lemma_string_views_push(parts@, name);
        }
        parts.push(name);
        i = i + 1;
        assert(string_views(parts@) =~= facility_names(facilities@).take(i as int));
    }
    assert(facility_names(facilities@).take(facilities@.len() as int) =~= facility_names(
        facilities@,
    ));
    join_strings(&parts, ", ")
}

/// A build queue as "a -> b -> c"; "Empty" when there is nothing queued.
pub open spec fn queue_text(queue: Seq<ProductionItem>) -> Seq<char> {
    if queue.len() == 0 {
        "Empty"@
    } else {
        join(item_names(queue), " -> "@)
    }
}

/// The summary of a base's panel.
pub fn base_panel_summary<'a>(
    name: &'a str,
    owner_name: &'a str,
    population: i32,
    governor_mode: GovernorMode,
    trade_links: usize,
    unrest: i32,
    nutrients_stock: i32,
    minerals_stock: i32,
    raw_output: Yields,
    effective_output: Yields,
    production: ProductionItem,
    production_progress: i32,
    queue: &[ProductionItem],
    facilities: &[Facility],
) -> (r: BasePanelSummary<'a>)
    requires
        unrest <= 1073741823,
    ensures
        r.name@ == name@,
        r.owner_name@ == owner_name@,
        r.population == population,
        r.governor_mode@ == governor_mode_label_text(governor_mode),
        r.trade_links == trade_links,
        r.stability@ == stability_text(unrest),
        r.storage@ == storage_text(nutrients_stock, minerals_stock),
        r.output@ == yields_text(raw_output),
        r.effective_output@ == yields_text(effective_output),
        r.production@ == production_name_text(production) + " ("@ + progress_text(
            production_progress,
            production_cost_value(production),
        ) + ")"@,
        r.queue@ == queue_text(queue@),
        r.facilities@ == facilities_text(facilities@),
{
    let mut production_text = owned(content::production_name(production));
    push_text(&mut production_text, " (");
    let p = format_research_progress(production_progress, content::production_cost(production));
    push_text(&mut production_text, p.as_str());
    push_text(&mut production_text, ")");
    let queue_summary = if queue.len() == 0 {
        owned("Empty")
    } else {
        let parts = item_name_strings(queue);
        join_strings(&parts, " -> ")
    };
    BasePanelSummary {
        name,
        owner_name,
        population,
        governor_mode: governor_mode_label(governor_mode),
        trade_links,
        stability: format_stability(unrest),
        storage: format_base_storage(nutrients_stock, minerals_stock),
        output: format_yields(raw_output),
        effective_output: format_yields(effective_output),
        production: production_text,
        queue: queue_summary,
        facilities: facilities_summary(facilities),
    }
}

/// "x, y".
pub open spec fn coordinates_text(x: usize, y: usize) -> Seq<char> {
    nat_text(x as nat) + ", "@ + nat_text(y as nat)
}

fn format_coordinates(x: usize, y: usize) -> (r: String)
    ensures
        r@ == coordinates_text(x, y),
{
    let mut s = String::new();
    push_nat(&mut s, x as u64);
    push_text(&mut s, ", ");
    push_nat(&mut s, y as u64);
    s
}

/// The summary of a unit's panel.
pub fn unit_panel_summary<'a>(
    kind: UnitKind,
    unit_name: &'a str,
    owner_name: &'a str,
    experience: i32,
    x: usize,
    y: usize,
    moves_left: i32,
    hp: i32,
) -> (r: UnitPanelSummary<'a>)
    ensures
        r.unit_name@ == unit_name@,
        r.owner_name@ == owner_name@,
        r.rank@ == unit_rank_name_text(experience),
        r.role@ == unit_role_summary_text(kind),
        r.location@ == coordinates_text(x, y),
        r.moves_left == moves_left,
        r.hp == hp,
{
    UnitPanelSummary {
        unit_name,
        owner_name,
        rank: unit_rank_name(experience),
        role: unit_role_summary(kind),
        location: format_coordinates(x, y),
        moves_left,
        hp,
    }
}

/// The summary of a tile's panel.
pub fn tile_panel_summary<'a>(
    terrain: Terrain,
    x: usize,
    y: usize,
    elevation: i32,
    moisture: i32,
    yields: Yields,
    improvement: Option<Improvement>,
) -> (r: TilePanelSummary<'a>)
    ensures
        r.coordinates@ == coordinates_text(x, y),
        r.terrain_name@ == terrain_name_text(terrain),
        r.elevation == elevation,
        r.moisture == moisture,
        r.yield_summary@ == yields_text(yields),
        opt_view(r.improvement_name) == (match improvement {
            Some(i) => Some(improvement_name_text(i)),
            None => None,
        }),
{
    TilePanelSummary {
        coordinates: format_coordinates(x, y),
        terrain_name: terrain_name(terrain),
        elevation,
        moisture,
        yield_summary: format_yields(yields),
        improvement_name: match improvement {
            Some(i) => Some(improvement_name(i)),
            None => None,
        },
    }
}

pub fn ui_window_title() -> (r: &'static str)
    ensures
        r@ == content::ui_window_title_text(),
{
    content::ui_window_title()
}

pub fn ui_app_title() -> (r: &'static str)
    ensures
        r@ == content::ui_app_title_text(),
{
    content::ui_app_title()
}

pub fn ui_command_console_heading() -> (r: String)
    ensures
        r@ == content::ui_command_console_heading_text(),
{
    content::ui_command_console_heading()
}

pub fn ui_gameplay_loop_heading() -> (r: &'static str)
    ensures
        r@ == "Gameplay loop:"@,
{
    "Gameplay loop:"
}

/// The steps of one turn, as the help panel lists them.
pub open spec fn gameplay_loop_step_texts() -> Seq<Seq<char>> {
    seq![
        "1. Found a base with C."@,
        "2. Move S scouts into fog."@,
        "3. Pop ? supply pods."@,
        "4. Use F formers to terraform."@,
        "5. Choose base production and research."@,
        "6. End turn and survive Planet."@,
    ]
}

pub fn ui_gameplay_loop_steps() -> (r: [&'static str; 6])
    ensures
        r@.map_values(|s: &'static str| s@) == gameplay_loop_step_texts(),
{
    let r = [
        "1. Found a base with C.",
        "2. Move S scouts into fog.",
        "3. Pop ? supply pods.",
        "4. Use F formers to terraform.",
        "5. Choose base production and research.",
        "6. End turn and survive Planet.",
    ];
    assert(r@.map_values(|s: &'static str| s@) =~= gameplay_loop_step_texts());
    r
}

pub fn ui_selection_heading() -> (r: String)
    ensures
        r@ == content::ui_selection_heading_text(),
{
    content::ui_selection_heading()
}

pub fn ui_research_heading() -> (r: String)
    ensures
        r@ == content::ui_research_heading_text(),
{
    content::ui_research_heading()
}

pub fn ui_factions_heading() -> (r: String)
    ensures
        r@ == content::ui_factions_heading_text(),
{
    content::ui_factions_heading()
}

pub fn ui_event_log_heading() -> (r: String)
    ensures
        r@ == content::ui_event_log_heading_text(),
{
    content::ui_event_log_heading()
}

pub fn ui_planet_heading() -> (r: String)
    ensures
        r@ == content::ui_planet_heading_text(),
{
    content::ui_planet_heading()
}

pub fn ui_victory_text() -> (r: &'static str)
    ensures
        r@ == content::ui_victory_text_text(),
{
    content::ui_victory_text()
}

pub fn ui_defeat_text() -> (r: &'static str)
    ensures
        r@ == content::ui_defeat_text_text(),
{
    content::ui_defeat_text()
}

pub fn ui_warning_text() -> (r: &'static str)
    ensures
        r@ == content::ui_warning_text_text(),
{
    content::ui_warning_text()
}

pub fn ui_accent_hex() -> (r: &'static str)
    ensures
        r@ == content::ui_accent_hex_text(),
{
    content::ui_accent_hex()
}

pub fn ui_secret_project_hex() -> (r: &'static str)
    ensures
        r@ == "#c8c8ff"@,
{
    "#c8c8ff"
}

/// "Name (power)".
pub open spec fn weapon_label_text(weapon: Weapon) -> Seq<char> {
    match weapon {
        Weapon::HandLaser(p) => "Hand Laser"@ + " ("@ + int_text(p as int) + ")"@,
        Weapon::ResonanceLaser(p) => "Resonance Laser"@ + " ("@ + int_text(p as int) + ")"@,
        Weapon::PlasmaBolt(p) => "Plasma Bolt"@ + " ("@ + int_text(p as int) + ")"@,
        Weapon::PlanetBuster(p) => "Planet Buster"@ + " ("@ + int_text(p as int) + ")"@,
    }
}

fn named_power(name: &str, p: i32) -> (r: String)
    ensures
        r@ == name@ + " ("@ + int_text(p as int) + ")"@,
{
    let mut s = owned(name);
    push_text(&mut s, " (");
    push_int(&mut s, p as i64);
    push_text(&mut s, ")");
    s
}

pub fn weapon_label(weapon: Weapon) -> (r: String)
    ensures
        r@ == weapon_label_text(weapon),
{
    match weapon {
        Weapon::HandLaser(p) => named_power("Hand Laser", p),
        Weapon::ResonanceLaser(p) => named_power("Resonance Laser", p),
        Weapon::PlasmaBolt(p) => named_power("Plasma Bolt", p),
        Weapon::PlanetBuster(p) => named_power("Planet Buster", p),
    }
}

/// "Name (power)".
pub open spec fn armor_label_text(armor: Armor) -> Seq<char> {
    match armor {
        Armor::SynthMetal(p) => "Synthmetal Armor"@ + " ("@ + int_text(p as int) + ")"@,
        Armor::ResonanceArmor(p) => "Resonance Armor"@ + " ("@ + int_text(p as int) + ")"@,
        Armor::PlasmaSteel(p) => "Plasma Steel"@ + " ("@ + int_text(p as int) + ")"@,
        Armor::MonolithArmor(p) => "Monolith Armor"@ + " ("@ + int_text(p as int) + ")"@,
    }
}

pub fn armor_label(armor: Armor) -> (r: String)
    ensures
        r@ == armor_label_text(armor),
{
    match armor {
        Armor::SynthMetal(p) => named_power("Synthmetal Armor", p),
        Armor::ResonanceArmor(p) => named_power("Resonance Armor", p),
        Armor::PlasmaSteel(p) => named_power("Plasma Steel", p),
        Armor::MonolithArmor(p) => named_power("Monolith Armor", p),
    }
}

/// The color of a base status tag.
pub open spec fn base_status_tag_color_text(kind: BaseStatusTagKind) -> Seq<char> {
    match kind {
        BaseStatusTagKind::Warning => content::ui_warning_hex_text(),
        BaseStatusTagKind::Danger => content::ui_danger_hex_text(),
        BaseStatusTagKind::Frontier => "#dc6e3c"@,
        BaseStatusTagKind::Psi => "#aa5aa2"@,
        BaseStatusTagKind::Saturated => "#dc6e3c"@,
        BaseStatusTagKind::Tight => content::ui_warning_hex_text(),
    }
}

pub fn base_status_tag_color_hex(kind: BaseStatusTagKind) -> (r: &'static str)
    ensures
        r@ == base_status_tag_color_text(kind),
{
    match kind {
        BaseStatusTagKind::Warning => ui_warning_hex(),
        BaseStatusTagKind::Danger => ui_danger_hex(),
        BaseStatusTagKind::Frontier => "#dc6e3c",
        BaseStatusTagKind::Psi => "#aa5aa2",
        BaseStatusTagKind::Saturated => "#dc6e3c",
        BaseStatusTagKind::Tight => ui_warning_hex(),
    }
}

pub fn ui_warning_hex() -> (r: &'static str)
    ensures
        r@ == content::ui_warning_hex_text(),
{
    content::ui_warning_hex()
}

pub fn ui_danger_hex() -> (r: &'static str)
    ensures
        r@ == content::ui_danger_hex_text(),
{
    content::ui_danger_hex()
}

pub fn ui_success_hex() -> (r: &'static str)
    ensures
        r@ == content::ui_success_hex_text(),
{
    content::ui_success_hex()
}

pub fn ui_panel_fill_hex() -> (r: &'static str)
    ensures
        r@ == content::ui_panel_fill_hex_text(),
{
    content::ui_panel_fill_hex()
}

/// The color of a diplomatic status.
pub open spec fn diplomacy_status_color_text(status: DiplomacyStatus) -> Seq<char> {
    match status {
        DiplomacyStatus::War => content::ui_danger_hex_text(),
        DiplomacyStatus::Truce => content::ui_warning_hex_text(),
        DiplomacyStatus::Treaty => "#46c8c8"@,
        DiplomacyStatus::Pact => content::ui_success_hex_text(),
    }
}

pub fn diplomacy_status_color_hex(status: DiplomacyStatus) -> (r: &'static str)
    ensures
        r@ == diplomacy_status_color_text(status),
{
    match status {
        DiplomacyStatus::War => content::ui_danger_hex(),
        DiplomacyStatus::Truce => content::ui_warning_hex(),
        DiplomacyStatus::Treaty => "#46c8c8",
        DiplomacyStatus::Pact => content::ui_success_hex(),
    }
}

/// The word for a faction's attitude, in bands from -80 up to 80.
pub open spec fn attitude_text(attitude: i32) -> Seq<char> {
    if attitude <= -80 {
        "Vendetta"@
    } else if attitude <= -40 {
        "Hostile"@
    } else if attitude <= -10 {
        "Cold"@
    } else if attitude < 10 {
        "Neutral"@
    } else if attitude < 40 {
        "Cordial"@
    } else if attitude < 80 {
        "Friendly"@
    } else {
        "Inseparable"@
    }
}

pub fn diplomacy_attitude_text(attitude: i32) -> (r: &'static str)
    ensures
        r@ == attitude_text(attitude),
{
    if attitude <= -80 {
        "Vendetta"
    } else if attitude <= -40 {
        "Hostile"
    } else if attitude <= -10 {
        "Cold"
    } else if attitude < 10 {
        "Neutral"
    } else if attitude < 40 {
        "Cordial"
    } else if attitude < 80 {
        "Friendly"
    } else {
        "Inseparable"
    }
}

} // verus!
