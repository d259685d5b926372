//! Interface state: the panels, lists and overlays the game shows, and the
//! labels of their sorting and filtering modes.
use crate::components::UnitDesign;
use crate::model::{
    ConvoyRouteKind, Economics, FutureSociety, GovernorMode, Improvement, Politics,
    ProductionItem, Tech, UnitKind, Values,
};
use crate::presentation::MapOverlay;
use vstd::prelude::*;

pub mod access;
pub mod attitudes;
pub mod bases;
pub mod convoys;
pub mod covert;
pub mod council;
pub mod crises;
pub mod diplomacy;
pub mod diplomacy_panel;
pub mod display;
pub mod editing;
pub mod governor;
pub mod governor_laws;
pub mod operations;
pub mod plans;
pub mod pressure;
pub mod production;
pub mod projects;
pub mod society;
pub mod queue;
pub mod research;
pub mod roles;
pub mod sight;
pub mod strategic;
pub mod tiles;
pub mod traces;
pub mod unit_ops;
pub mod unit_traits;
pub mod victory;
pub mod voices;
pub mod yields;

verus! {

#[derive(Clone, Copy, Debug, PartialEq, Eq, Structural)]
pub enum BaseSortMode {
    Name,
    Unrest,
    Frontier,
    Recovery,
    Governor,
    Logistics,
}

/// The label of a base sort mode.
pub open spec fn base_sort_mode_label_text(x: BaseSortMode) -> Seq<char> {
    match x {
        BaseSortMode::Name => "Name"@,
        BaseSortMode::Unrest => "Unrest"@,
        BaseSortMode::Frontier => "Frontier"@,
        BaseSortMode::Recovery => "Recovery"@,
        BaseSortMode::Governor => "Governor"@,
        BaseSortMode::Logistics => "Logistics"@,
    }
}

pub fn base_sort_mode_label(sort_mode: BaseSortMode) -> (r: &'static str)
    ensures
        r@ == base_sort_mode_label_text(sort_mode),
{
    match sort_mode {
        BaseSortMode::Name => "Name",
        BaseSortMode::Unrest => "Unrest",
        BaseSortMode::Frontier => "Frontier",
        BaseSortMode::Recovery => "Recovery",
        BaseSortMode::Governor => "Governor",
        BaseSortMode::Logistics => "Logistics",
    }
}

#[derive(Clone, Copy, Debug, PartialEq, Eq, Structural)]
pub enum BaseFocusFilter {
    All,
    Frontier,
    Recovery,
    Unrest,
    QueueGap,
    ResearchUnlock,
    Logistics,
    Saturated,
    Tight,
    Collapsing,
    Balanced,
    Defense,
    Economy,
    LogisticsMode,
}

/// The label of a base focus filter.
pub open spec fn base_focus_filter_label_text(x: BaseFocusFilter) -> Seq<char> {
    match x {
        BaseFocusFilter::All => "All"@,
        BaseFocusFilter::Frontier => "Frontier"@,
        BaseFocusFilter::Recovery => "Recovery"@,
        BaseFocusFilter::Unrest => "Unrest"@,
        BaseFocusFilter::QueueGap => "Queue Gap"@,
        BaseFocusFilter::ResearchUnlock => "Research Unlock"@,
        BaseFocusFilter::Logistics => "Logistics"@,
        BaseFocusFilter::Saturated => "Saturated"@,
        BaseFocusFilter::Tight => "Tight"@,
        BaseFocusFilter::Collapsing => "Collapsing"@,
        BaseFocusFilter::Balanced => "Balanced"@,
        BaseFocusFilter::Defense => "Defense"@,
        BaseFocusFilter::Economy => "Economy"@,
        BaseFocusFilter::LogisticsMode => "Logistics Mode"@,
    }
}

pub fn base_focus_filter_label(filter: BaseFocusFilter) -> (r: &'static str)
    ensures
        r@ == base_focus_filter_label_text(filter),
{
    match filter {
        BaseFocusFilter::All => "All",
        BaseFocusFilter::Frontier => "Frontier",
        BaseFocusFilter::Recovery => "Recovery",
        BaseFocusFilter::Unrest => "Unrest",
        BaseFocusFilter::QueueGap => "Queue Gap",
        BaseFocusFilter::ResearchUnlock => "Research Unlock",
        BaseFocusFilter::Logistics => "Logistics",
        BaseFocusFilter::Saturated => "Saturated",
        BaseFocusFilter::Tight => "Tight",
        BaseFocusFilter::Collapsing => "Collapsing",
        BaseFocusFilter::Balanced => "Balanced",
        BaseFocusFilter::Defense => "Defense",
        BaseFocusFilter::Economy => "Economy",
        BaseFocusFilter::LogisticsMode => "Logistics Mode",
    }
}

#[derive(Clone, Copy, Debug, PartialEq, Eq, Structural)]
pub enum LogisticsRouteFilter {
    All,
    Trade,
    Freight,
    Military,
    Disrupted,
    Intercepted,
    Collapsing,
    Protected,
}

/// The label of a convoy route filter.
pub open spec fn logistics_route_filter_label_text(x: LogisticsRouteFilter) -> Seq<char> {
    match x {
        LogisticsRouteFilter::All => "All"@,
        LogisticsRouteFilter::Trade => "Trade"@,
        LogisticsRouteFilter::Freight => "Freight"@,
        LogisticsRouteFilter::Military => "Military"@,
        LogisticsRouteFilter::Disrupted => "Disrupted"@,
        LogisticsRouteFilter::Intercepted => "Intercepted"@,
        LogisticsRouteFilter::Collapsing => "Collapsing"@,
        LogisticsRouteFilter::Protected => "Protected"@,
    }
}

impl LogisticsRouteFilter {
    /// Every variant, in display order.
    pub open spec fn all_seq() -> Seq<LogisticsRouteFilter> {
        seq![LogisticsRouteFilter::All, LogisticsRouteFilter::Trade, LogisticsRouteFilter::Freight, LogisticsRouteFilter::Military, LogisticsRouteFilter::Disrupted, LogisticsRouteFilter::Intercepted, LogisticsRouteFilter::Collapsing, LogisticsRouteFilter::Protected]
    }

    pub fn all() -> (r: [LogisticsRouteFilter; 8])
        ensures
            r@ == LogisticsRouteFilter::all_seq(),
    {
        [LogisticsRouteFilter::All, LogisticsRouteFilter::Trade, LogisticsRouteFilter::Freight, LogisticsRouteFilter::Military, LogisticsRouteFilter::Disrupted, LogisticsRouteFilter::Intercepted, LogisticsRouteFilter::Collapsing, LogisticsRouteFilter::Protected]
    }
}

pub fn logistics_route_filter_label(filter: LogisticsRouteFilter) -> (r: &'static str)
    ensures
        r@ == logistics_route_filter_label_text(filter),
{
    match filter {
        LogisticsRouteFilter::All => "All",
        LogisticsRouteFilter::Trade => "Trade",
        LogisticsRouteFilter::Freight => "Freight",
        LogisticsRouteFilter::Military => "Military",
        LogisticsRouteFilter::Disrupted => "Disrupted",
        LogisticsRouteFilter::Intercepted => "Intercepted",
        LogisticsRouteFilter::Collapsing => "Collapsing",
        LogisticsRouteFilter::Protected => "Protected",
    }
}

#[derive(Clone, Copy, Debug, PartialEq, Eq, Structural)]
pub enum LogisticsRouteSort {
    Severity,
    Name,
    Integrity,
    Kind,
}

/// The label of a convoy route sort order.
pub open spec fn logistics_route_sort_label_text(x: LogisticsRouteSort) -> Seq<char> {
    match x {
        LogisticsRouteSort::Severity => "Severity"@,
        LogisticsRouteSort::Name => "Name"@,
        LogisticsRouteSort::Integrity => "Integrity"@,
        LogisticsRouteSort::Kind => "Type"@,
    }
}

impl LogisticsRouteSort {
    /// Every variant, in display order.
    pub open spec fn all_seq() -> Seq<LogisticsRouteSort> {
        seq![LogisticsRouteSort::Severity, LogisticsRouteSort::Name, LogisticsRouteSort::Integrity, LogisticsRouteSort::Kind]
    }

    pub fn all() -> (r: [LogisticsRouteSort; 4])
        ensures
            r@ == LogisticsRouteSort::all_seq(),
    {
        [LogisticsRouteSort::Severity, LogisticsRouteSort::Name, LogisticsRouteSort::Integrity, LogisticsRouteSort::Kind]
    }
}

pub fn logistics_route_sort_label(sort: LogisticsRouteSort) -> (r: &'static str)
    ensures
        r@ == logistics_route_sort_label_text(sort),
{
    match sort {
        LogisticsRouteSort::Severity => "Severity",
        LogisticsRouteSort::Name => "Name",
        LogisticsRouteSort::Integrity => "Integrity",
        LogisticsRouteSort::Kind => "Type",
    }
}

/// How a convoy route shows on the map overlay, from quietest to most urgent.
#[derive(Clone, Copy, Debug, PartialEq, Eq, Structural)]
pub enum ConvoyOverlayStatus {
    NoRoute,
    Active,
    Protected,
    Disrupted,
    Intercepted,
    Collapsing,
}

impl ConvoyOverlayStatus {
    /// The rank of a status; a tile on several routes shows the highest.
    pub open spec fn rank(self) -> u8 {
        match self {
            ConvoyOverlayStatus::NoRoute => 0,
            ConvoyOverlayStatus::Active => 1,
            ConvoyOverlayStatus::Protected => 2,
            ConvoyOverlayStatus::Disrupted => 3,
            ConvoyOverlayStatus::Intercepted => 4,
            ConvoyOverlayStatus::Collapsing => 5,
        }
    }

    pub fn priority(self) -> (r: u8)
        ensures
            r == self.rank(),
    {
        match self {
            ConvoyOverlayStatus::NoRoute => 0,
            ConvoyOverlayStatus::Active => 1,
            ConvoyOverlayStatus::Protected => 2,
            ConvoyOverlayStatus::Disrupted => 3,
            ConvoyOverlayStatus::Intercepted => 4,
            ConvoyOverlayStatus::Collapsing => 5,
        }
    }
}

/// Different statuses have different ranks, so the ranks order the statuses strictly.
pub proof fn lemma_convoy_status_rank_injective(a: ConvoyOverlayStatus, b: ConvoyOverlayStatus)
    ensures
        a.rank() == b.rank() ==> a == b,
{
}

#[derive(Clone, Copy, Debug, PartialEq, Eq, Structural)]
pub enum SidebarTab {
    Selection,
    Factions,
    Projects,
    Workshop,
    Logistics,
    Saves,
    Logs,
    Editor,
}

impl SidebarTab {
    /// Every tab, in display order.
    pub open spec fn all_seq() -> Seq<SidebarTab> {
        seq![SidebarTab::Selection, SidebarTab::Factions, SidebarTab::Projects, SidebarTab::Workshop, SidebarTab::Logistics, SidebarTab::Saves, SidebarTab::Logs, SidebarTab::Editor]
    }

    pub fn all() -> (r: [SidebarTab; 8])
        ensures
            r@ == SidebarTab::all_seq(),
    {
        [SidebarTab::Selection, SidebarTab::Factions, SidebarTab::Projects, SidebarTab::Workshop, SidebarTab::Logistics, SidebarTab::Saves, SidebarTab::Logs, SidebarTab::Editor]
    }

    /// The tab's label.
    pub open spec fn label_spec(self) -> Seq<char> {
        match self {
            SidebarTab::Selection => "Selection"@,
            SidebarTab::Factions => "Factions"@,
            SidebarTab::Projects => "Projects"@,
            SidebarTab::Workshop => "Workshop"@,
            SidebarTab::Logistics => "Logistics"@,
            SidebarTab::Saves => "Saves"@,
            SidebarTab::Logs => "Logs"@,
            SidebarTab::Editor => "Editor"@,
        }
    }

    pub fn label_text(&self) -> (r: &'static str)
        ensures
            r@ == self.label_spec(),
    {
        match self {
            SidebarTab::Selection => "Selection",
            SidebarTab::Factions => "Factions",
            SidebarTab::Projects => "Projects",
            SidebarTab::Workshop => "Workshop",
            SidebarTab::Logistics => "Logistics",
            SidebarTab::Saves => "Saves",
            SidebarTab::Logs => "Logs",
            SidebarTab::Editor => "Editor",
        }
    }

    /// The key that opens the tab.
    pub open spec fn hotkey_spec(self) -> Seq<char> {
        match self {
            SidebarTab::Selection => "1"@,
            SidebarTab::Factions => "2"@,
            SidebarTab::Projects => "P"@,
            SidebarTab::Workshop => "W"@,
            SidebarTab::Logistics => "3"@,
            SidebarTab::Saves => "4"@,
            SidebarTab::Logs => "5"@,
            SidebarTab::Editor => "E"@,
        }
    }

    pub fn hotkey_text(&self) -> (r: &'static str)
        ensures
            r@ == self.hotkey_spec(),
    {
        match self {
            SidebarTab::Selection => "1",
            SidebarTab::Factions => "2",
            SidebarTab::Projects => "P",
            SidebarTab::Workshop => "W",
            SidebarTab::Logistics => "3",
            SidebarTab::Saves => "4",
            SidebarTab::Logs => "5",
            SidebarTab::Editor => "E",
        }
    }
}

/// One step along an axis from `current` toward `target`: +1, -1 or 0.
pub fn step_toward_coord(current: usize, target: usize) -> (r: isize)
    ensures
        r == (if target > current {
            1int
        } else if target < current {
            -1int
        } else {
            0int
        }),
{
    if target > current {
        1
    } else if target < current {
        -1
    } else {
        0
    }
}

#[derive(Clone, Debug, PartialEq, Eq)]
pub struct GovernorPlanStep {
    pub item: ProductionItem,
    pub priority: i32,
    pub reason: String,
}

#[derive(Clone, Debug, PartialEq, Eq)]
pub struct ResearchUnlockPreviewState {
    pub tech: Tech,
    pub max_steps: usize,
    pub previews: Vec<(usize, Vec<ProductionItem>)>,
}

#[derive(Clone, Debug, PartialEq, Eq)]
pub struct TechUnlockImpactState {
    pub tech: Tech,
    pub base_ids: Vec<usize>,
    pub entries: Vec<(String, ProductionItem, Tech)>,
    pub recommendation_count: usize,
    pub summary_text: Option<String>,
}

#[derive(Clone, Copy, Debug, Default, PartialEq, Eq)]
pub struct FactionSupportSummary {
    pub base_free_support: i32,
    pub facility_free_support: i32,
    pub military_supply_bonus: i32,
    pub total_free_support: i32,
    pub live_units: i32,
    pub supported_units: i32,
    pub unit_upkeep: i32,
}

#[derive(Debug, Clone, PartialEq, Eq)]
pub struct TopBarDisplayState {
    pub year_text: String,
    pub energy_text: Option<String>,
    pub research_text: Option<String>,
    pub food_text: Option<String>,
    pub toxicity_text: Option<String>,
    pub ai_dependence_text: Option<String>,
    pub dust_fall_warning: Option<String>,
}

#[derive(Clone, Debug, PartialEq, Eq)]
pub struct SidebarDisplayState {
    pub heading_text: String,
    pub tabs: Vec<SidebarTabState>,
}

#[derive(Clone, Debug, PartialEq, Eq)]
pub struct SidebarTabState {
    pub tab: SidebarTab,
    pub label_text: &'static str,
    pub hotkey_text: &'static str,
    pub selected: bool,
}

#[derive(Clone, Debug, PartialEq, Eq)]
pub struct CurrentResearchDisplayState {
    pub tech: Tech,
    pub research: i32,
    pub cost: i32,
    pub label_text: String,
    pub description_text: String,
    pub preview_heading_text: String,
    pub unlock_lines: Vec<String>,
    pub affected_base_ids: Vec<usize>,
    pub affected_focus_base_id: Option<usize>,
    pub affected_focus_label_text: Option<String>,
    pub affected_entries_heading: &'static str,
    pub affected_entries: Vec<(String, ProductionItem, Tech)>,
    pub affected_summary_text: Option<String>,
    pub preview_section: CurrentResearchPreviewSectionState,
    pub queue_previews: Vec<(usize, Vec<ProductionItem>)>,
}

#[derive(Clone, Debug, PartialEq, Eq)]
pub struct CurrentResearchPreviewSectionState {
    pub heading_text: String,
    pub focus_label_text: String,
    pub keep_open_label_text: String,
    pub stage_all_log_label_text: String,
    pub hidden_count_text: Option<String>,
    pub rows: Vec<ProductionPreviewRow>,
    pub hidden_count: usize,
}

#[derive(Clone, Debug, PartialEq, Eq)]
pub struct AvailableResearchDisplayState {
    pub tech: Tech,
    pub label_text: String,
    pub cost_text: String,
    pub description_text: String,
    pub unlock_lines: Vec<String>,
    pub unlock_impact_text: Option<String>,
    pub affected_focus_base_id: Option<usize>,
    pub preview_status_text: Option<String>,
    pub preview_action_label: Option<String>,
    pub unlock_impact: TechUnlockImpactState,
}

#[derive(Clone, Debug, PartialEq, Eq)]
pub struct BlockedResearchDisplayState {
    pub tech: Tech,
    pub label_text: String,
    pub description_text: String,
    pub unlock_lines: Vec<String>,
    pub missing: Vec<Tech>,
}

#[derive(Clone, Debug, PartialEq, Eq)]
pub struct KnownResearchDisplayState {
    pub tech: Tech,
    pub label_text: String,
}

#[derive(Clone, Debug, PartialEq, Eq)]
pub struct ResearchPanelDisplayState {
    pub summary_text: String,
    pub available_heading_text: String,
    pub blocked_heading_text: String,
    pub known_heading_text: String,
    pub available_empty_text: String,
    pub blocked_empty_text: String,
    pub known: Vec<KnownResearchDisplayState>,
    pub available: Vec<AvailableResearchDisplayState>,
    pub blocked: Vec<BlockedResearchDisplayState>,
}

#[derive(Clone, Debug, PartialEq, Eq)]
pub struct ProductionPreviewRow {
    pub base_id: usize,
    pub base_name: String,
    pub items: Vec<ProductionItem>,
    pub row_text: String,
}

#[derive(Clone, Debug, PartialEq, Eq)]
pub struct ResearchUnlockPreviewApplyResult {
    pub applied_base_ids: Vec<usize>,
    pub remaining_preview: Option<ResearchUnlockPreviewState>,
    pub focus_base_id: Option<usize>,
}

#[derive(Clone, Debug, PartialEq, Eq)]
pub struct ResearchUnlockPreviewSelection {
    pub preview: ResearchUnlockPreviewState,
    pub affected_base_ids: Vec<usize>,
}

#[derive(Clone, Debug, PartialEq, Eq)]
pub struct ResearchUnlockPreviewStageResult {
    pub selection: Option<ResearchUnlockPreviewSelection>,
    pub staged_count: usize,
    pub focus_base_id: Option<usize>,
}

#[derive(Clone, Debug, PartialEq, Eq)]
pub struct ResearchUnlockPreviewStateActionResult {
    pub preview: Option<ResearchUnlockPreviewState>,
    pub staged_count: usize,
    pub focus_base_id: Option<usize>,
    pub affected_base_ids: Vec<usize>,
}

#[derive(Clone, Debug, PartialEq, Eq)]
pub struct BaseFocusState {
    pub filter: BaseFocusFilter,
    pub count: usize,
    pub count_label: String,
    pub next_focus_base_id: Option<usize>,
    pub action_label_text: Option<String>,
}

#[derive(Clone, Debug, PartialEq, Eq)]
pub struct PlayerOperationsFocusState {
    pub damaged_unit_count: usize,
    pub most_damaged_unit_id: Option<usize>,
    pub next_damaged_unit_id: Option<usize>,
    pub stressed_base_count: usize,
    pub most_unrested_base_id: Option<usize>,
    pub next_stressed_base_id: Option<usize>,
    pub recovering_base_count: usize,
    pub most_recovering_garrison_base_id: Option<usize>,
    pub next_recovering_base_id: Option<usize>,
    pub recovering_garrison_unit_count: usize,
    pub next_recovering_garrison_unit_id: Option<usize>,
    pub current_research_unlock_base_count: usize,
    pub current_research_unlock_focus_base_id: Option<usize>,
}

#[derive(Clone, Copy, Debug, PartialEq, Eq)]
pub enum PlayerOperationsActionType {
    SelectDamagedUnit,
    CycleDamagedUnits,
    JumpStressedBase,
    CycleStressedBases,
    JumpRecoveryBase,
    CycleRecoveryBases,
    ApplyRecoveryBasePlan,
    FallbackAllDamaged,
    ApplyAllRecoveryPlans,
    ApplyFrontierDefensePlans,
    SuggestGovernors,
    RepairConvoys,
    RebuildConvoys,
    AssignEscortPatrols,
    ApplyEconomyPlans,
    FillEmptyQueues,
    JumpResearchUnlock,
    SelectRecoveringGarrison,
}

#[derive(Clone, Debug, PartialEq, Eq)]
pub struct PlayerOperationsActionState {
    pub label_text: String,
    pub button_text: String,
    pub available_count: usize,
    pub enabled: bool,
    pub action_type: PlayerOperationsActionType,
}

#[derive(Clone, Debug, PartialEq, Eq)]
pub struct PlayerOperationsJumpActionState {
    pub filter: BaseFocusFilter,
    pub button_text: String,
    pub enabled: bool,
}

#[derive(Clone, Debug, PartialEq, Eq)]
pub struct PlayerOperationsDashboardState {
    pub heading_text: String,
    pub advice_lines: Vec<String>,
    pub focus: PlayerOperationsFocusState,
    pub jump_actions: Vec<PlayerOperationsJumpActionState>,
    pub bulk_actions: Vec<PlayerOperationsActionState>,
}

#[derive(Clone, Debug, PartialEq, Eq)]
pub struct PinnedResearchUnlockPreviewRowState {
    pub base_id: usize,
    pub base_name: String,
    pub items: Vec<ProductionItem>,
    pub row_text: String,
    pub stale_label_text: Option<String>,
    pub focus_label_text: String,
    pub apply_label_text: String,
    pub can_apply: bool,
    pub apply_tooltip: String,
    pub is_current: bool,
}

#[derive(Clone, Debug, PartialEq, Eq)]
pub struct PinnedResearchUnlockPreviewDisplayState {
    pub tech: Tech,
    pub max_steps: usize,
    pub heading_text: String,
    pub availability_text: Option<String>,
    pub drift_text: Option<String>,
    pub stage_log_label_text: String,
    pub refresh_label_text: String,
    pub clear_label_text: String,
    pub apply_all_label_text: String,
    pub can_apply: bool,
    pub apply_all_enabled: bool,
    pub apply_all_tooltip: String,
    pub waiting_on_current_research: bool,
    pub hidden_count_text: Option<String>,
    pub hidden_count: usize,
    pub drifted_base_ids: Vec<usize>,
    pub rows: Vec<PinnedResearchUnlockPreviewRowState>,
}

#[derive(Clone, Debug, PartialEq, Eq)]
pub struct ResearchUnlockPreviewRefreshResult {
    pub preview: Option<ResearchUnlockPreviewState>,
    pub focus_base_id: Option<usize>,
}

#[derive(Clone, Debug, PartialEq, Eq)]
pub struct ResearchUnlockPreviewStatus {
    pub total: usize,
    pub drifted: usize,
}

#[derive(Clone, Debug, PartialEq, Eq)]
pub struct ConvoyRouteOpportunityState {
    pub base_a_id: usize,
    pub base_b_id: usize,
    pub kind: ConvoyRouteKind,
    pub button_text: String,
}

#[derive(Clone, Debug, PartialEq, Eq)]
pub struct BaseConvoyRouteDisplayRowState {
    pub target_base_id: usize,
    pub target_name: String,
    pub kind: ConvoyRouteKind,
    pub row_text: String,
    pub can_repair: bool,
    pub repair_label_text: String,
    pub remove_label_text: String,
}

#[derive(Clone, Debug, PartialEq, Eq)]
pub struct AvailableConvoyTargetOpportunityState {
    pub target_base_id: usize,
    pub kind: ConvoyRouteKind,
    pub button_text: String,
}

#[derive(Clone, Debug, PartialEq, Eq)]
pub struct ConvoyRouteDisplayRowState {
    pub base_a_id: usize,
    pub base_b_id: usize,
    pub kind: ConvoyRouteKind,
    pub row_text: String,
    pub focus_a_label_text: String,
    pub focus_b_label_text: String,
    pub can_repair: bool,
    pub repair_label_text: String,
    pub remove_label_text: String,
}

#[derive(Clone, Debug, PartialEq, Eq)]
pub struct ConvoyHubDisplayRowState {
    pub base_id: usize,
    pub row_text: String,
    pub saturation_label_text: Option<String>,
    pub is_saturated: bool,
    pub is_tight: bool,
}

#[derive(Clone, Debug, PartialEq, Eq)]
pub struct LogisticsPanelActionState {
    pub button_text: String,
    pub available_count: usize,
    pub enabled: bool,
}

#[derive(Clone, Debug, PartialEq, Eq)]
pub struct FactionLogisticsPanelState {
    pub alerts_heading_text: String,
    pub routes_heading_text: String,
    pub route_opportunities_heading_text: String,
    pub hubs_heading_text: String,
    pub alert_lines: Vec<String>,
    pub jump_saturated_action: LogisticsPanelActionState,
    pub jump_costly_logistics_action: LogisticsPanelActionState,
    pub jump_collapsing_action: LogisticsPanelActionState,
    pub jump_worst_route_action: LogisticsPanelActionState,
    pub repair_filtered_action: LogisticsPanelActionState,
    pub remove_collapsing_action: LogisticsPanelActionState,
    pub filtered_count_text: String,
    pub route_rows: Vec<ConvoyRouteDisplayRowState>,
    pub route_opportunities: Vec<ConvoyRouteOpportunityState>,
    pub hub_rows: Vec<ConvoyHubDisplayRowState>,
}

#[derive(Clone, Debug, PartialEq, Eq)]
pub struct DiplomacyRelationDisplayRowState {
    pub faction_id: usize,
    pub faction_name: String,
    pub leader_name: String,
    pub status_text: String,
    pub attitude_text: String,
    pub color_hex: String,
    pub status_color_hex: String,
    pub can_sign_treaty: bool,
    pub can_sign_pact: bool,
    pub can_declare_war: bool,
    pub can_offer_truce: bool,
}

#[derive(Clone, Debug, PartialEq, Eq)]
pub struct DiplomacyPanelDisplayState {
    pub heading_text: String,
    pub relations_heading_text: String,
    pub relations: Vec<DiplomacyRelationDisplayRowState>,
}

#[derive(Clone, Debug, PartialEq, Eq)]
pub struct SocialEngineeringCategoryOptionState {
    pub choice_text: String,
    pub modifiers_text: String,
    pub enabled: bool,
    pub selected: bool,
    pub politics: Option<Politics>,
    pub economics: Option<Economics>,
    pub values: Option<Values>,
    pub future: Option<FutureSociety>,
}

#[derive(Clone, Debug, PartialEq, Eq)]
pub struct SocialEngineeringCategoryState {
    pub name: &'static str,
    pub options: Vec<SocialEngineeringCategoryOptionState>,
}

#[derive(Clone, Debug, PartialEq, Eq)]
pub struct SocialEngineeringDisplayState {
    pub heading_text: String,
    pub categories: Vec<SocialEngineeringCategoryState>,
}

#[derive(Clone, Debug, PartialEq, Eq)]
pub struct SecretProjectRegistryRowState {
    pub project_name: String,
    pub owner_name: String,
    pub owner_color_hex: String,
    pub status_text: String,
    pub effects_text: String,
}

#[derive(Clone, Debug, PartialEq, Eq)]
pub struct SecretProjectRegistryDisplayState {
    pub heading_text: String,
    pub projects: Vec<SecretProjectRegistryRowState>,
}

#[derive(Clone, Debug, PartialEq, Eq)]
pub struct FactionOverviewDisplayState {
    pub faction_id: usize,
    pub is_player_owned: bool,
    pub color_hex: String,
    pub name: String,
    pub leader_text: Option<String>,
    pub description_text: Option<String>,
    pub base_count_text: String,
    pub unit_count_text: String,
    pub energy_text: String,
    pub upkeep_text: String,
    pub research_progress_text: String,
    pub current_tech_text: String,
    pub techs_discovered_text: String,
    pub indices_heading_text: &'static str,
    pub food_security_text: String,
    pub ai_dependence_text: String,
    pub orbital_index_text: String,
    pub planet_toxicity_text: String,
    pub alerts_text: String,
    pub base_roles_text: String,
    pub logistics_summary_text: String,
    pub governor_summary_heading_text: &'static str,
    pub governor_mode_mix_summary: String,
    pub production_posture_text: String,
    pub production_roles_text: String,
    pub queue_posture_text: String,
    pub queue_roles_text: String,
    pub governor_intent_text: String,
    pub governor_queue_intent_text: String,
    pub queue_gaps_text: String,
    pub tech_blocked_intent_text: String,
    pub secret_projects_heading_text: &'static str,
    pub secret_projects_text: Vec<String>,
    pub jump_queue_gap_label_text: Option<&'static str>,
    pub jump_tech_block_label_text: Option<&'static str>,
    pub queue_gap_base_ids: Vec<usize>,
    pub tech_blocked_base_ids: Vec<usize>,
    pub governor_warnings_heading_text: &'static str,
    pub governor_warnings: Vec<String>,
    pub logistics_panel: FactionLogisticsPanelState,
    pub diplomacy_panel: DiplomacyPanelDisplayState,
    pub social_engineering_panel: SocialEngineeringDisplayState,
}

#[derive(Clone, Debug, PartialEq, Eq)]
pub struct ConvoyOverlayLine {
    pub start_x: usize,
    pub start_y: usize,
    pub end_x: usize,
    pub end_y: usize,
    pub status: ConvoyOverlayStatus,
}

#[derive(Clone, Copy, Debug, PartialEq, Eq)]
pub struct MapOverlayOptionState {
    pub overlay: MapOverlay,
    pub label_text: &'static str,
}


#[derive(Clone, Debug, PartialEq, Eq)]
pub struct MapPanelDisplayState {
    pub heading_text: String,
    pub minimap_heading_text: &'static str,
    pub overlay_label_text: &'static str,
    pub selected_overlay_label_text: &'static str,
    pub overlay_legend_text: &'static str,
    pub uses_convoy_lines: bool,
    pub overlay_options: Vec<MapOverlayOptionState>,
}

#[derive(Clone, Debug, PartialEq, Eq)]
pub struct MapTileDisplayState {
    pub label_text: String,
    pub color_hex: String,
    pub status_glyph: Option<&'static str>,
    pub status_glyph_color_hex: Option<&'static str>,
    pub is_selected: bool,
    pub selection_stroke_color_hex: Option<&'static str>,
}

#[derive(Clone, Debug, PartialEq, Eq)]
pub struct LogisticsBoardDisplayState {
    pub heading_text: String,
    pub gameplay_loop_heading_text: &'static str,
    pub gameplay_loop_steps: Vec<&'static str>,
    pub overview_text: &'static str,
    pub active_routes: Vec<String>,
}

#[derive(Clone, Debug, PartialEq, Eq)]
pub struct CommandConsoleDisplayState {
    pub heading_text: String,
    pub gameplay_loop_heading_text: &'static str,
    pub gameplay_loop_steps: Vec<&'static str>,
    pub event_log_heading_text: String,
    pub event_log: Vec<(String, Option<&'static str>)>,
}

#[derive(Clone, Debug, PartialEq, Eq)]
pub struct ImprovementActionState {
    pub improvement: Improvement,
    pub button_text: &'static str,
}

#[derive(Clone, Debug, PartialEq, Eq)]
pub enum UnitSelectionDisplayState {
    NoSelection {
        message_text: &'static str,
    },
    Missing {
        message_text: &'static str,
    },
    Selected {
        unit_id: usize,
        owner: usize,
        kind: UnitKind,
        label_text: String,
        owner_text: String,
        rank_text: String,
        rank_color_hex: &'static str,
        role_text: String,
        location_text: String,
        moves_text: String,
        moves_color_hex: &'static str,
        hp_text: String,
        hp_color_hex: &'static str,
        advice_text: Option<String>,
        advice_color_hex: &'static str,
        fallback_text: Option<String>,
        fallback_target: Option<(usize, usize)>,
        fallback_button_text: &'static str,
        found_base_label_text: Option<&'static str>,
        terraform_heading_text: &'static str,
        terraform_actions: Vec<ImprovementActionState>,
        upgrade_options: Vec<UnitDesign>,
    },
}

#[derive(Clone, Debug, PartialEq, Eq)]
pub enum TileSelectionDisplayState {
    NoSelection {
        message_text: &'static str,
    },
    Unexplored {
        coordinates_text: String,
        message_text: &'static str,
    },
    Selected {
        coordinates_text: String,
        terrain_text: String,
        elevation_text: String,
        moisture_text: String,
        yield_text: String,
        improvement_text: Option<String>,
        warning_text: Option<&'static str>,
        base_id: Option<usize>,
    },
}

#[derive(Clone, Debug, PartialEq, Eq)]
pub struct SelectionPanelDisplayState {
    pub heading_text: String,
    pub unit: UnitSelectionDisplayState,
    pub tile: TileSelectionDisplayState,
}

#[derive(Clone, Copy, Debug, PartialEq, Eq)]
pub enum BaseStatusTagKind {
    Warning,
    Danger,
    Frontier,
    Psi,
    Saturated,
    Tight,
}

#[derive(Clone, Debug, PartialEq, Eq)]
pub struct BaseStatusTagState {
    pub label_text: &'static str,
    pub kind: BaseStatusTagKind,
}

#[derive(Clone, Debug, PartialEq, Eq)]
pub struct BaseGovernorPlanRowState {
    pub item: ProductionItem,
    pub reason_text: String,
    pub apply_label_text: String,
    pub can_apply: bool,
}

#[derive(Clone, Debug, PartialEq, Eq)]
pub struct BaseQueueRowState {
    pub index: usize,
    pub index_text: String,
    pub item: ProductionItem,
    pub label_text: String,
    pub tooltip_text: String,
    pub governor_reason_text: Option<String>,
    pub activate_label_text: &'static str,
    pub move_up_label_text: &'static str,
    pub move_down_label_text: &'static str,
    pub remove_label_text: &'static str,
}

#[derive(Clone, Debug, PartialEq, Eq)]
pub struct BaseProductionOptionState {
    pub item: ProductionItem,
    pub button_text: String,
    pub tooltip_text: String,
    pub enabled: bool,
}

#[derive(Clone, Debug, PartialEq, Eq)]
pub struct BasePanelDisplayState {
    pub base_id: usize,
    pub owner: usize,
    pub can_manage: bool,
    pub heading_text: String,
    pub owner_text: String,
    pub population_text: String,
    pub governor_text: String,
    pub current_governor_mode: GovernorMode,
    pub current_governor_description: &'static str,
    pub governor_mode_options: Vec<(GovernorMode, &'static str)>,
    pub area_role_text: String,
    pub stability_text: String,
    pub storage_text: String,
    pub output_text: String,
    pub effective_output_text: String,
    pub waste_text: Option<String>,
    pub expansion_limit_text: Option<String>,
    pub defense_pressure_text: String,
    pub psi_pressure_text: String,
    pub damaged_garrisons_text: String,
    pub status_tags_heading_text: &'static str,
    pub status_tags: Vec<BaseStatusTagState>,
    pub production_text: String,
    pub production_role_text: String,
    pub production_dependency_text: String,
    pub production_tooltip_text: String,
    pub governor_alignment_text: Option<String>,
    pub queue_text: String,
    pub facilities_text: String,
    pub build_availability_text: String,
    pub research_focus_heading_text: Option<&'static str>,
    pub research_focus_text: Option<String>,
    pub research_unlock_lines: Vec<String>,
    pub convoy_capacity_text: String,
    pub convoy_status_tags: Vec<BaseStatusTagState>,
    pub active_convoy_links_text: String,
    pub military_supply_links_text: String,
    pub convoy_routes_heading_text: &'static str,
    pub convoy_routes_empty_text: Option<&'static str>,
    pub convoy_routes: Vec<BaseConvoyRouteDisplayRowState>,
    pub available_convoy_targets_heading_text: Option<&'static str>,
    pub available_convoy_targets: Vec<AvailableConvoyTargetOpportunityState>,
    pub governor_heading_text: &'static str,
    pub governor_plan_heading_text: Option<&'static str>,
    pub governor_plan_rows: Vec<BaseGovernorPlanRowState>,
    pub queue_governor_plan_label_text: Option<&'static str>,
    pub apply_recovery_plan_label_text: Option<&'static str>,
    pub apply_defense_plan_label_text: Option<&'static str>,
    pub queue_editor_heading_text: Option<&'static str>,
    pub queue_rows: Vec<BaseQueueRowState>,
    pub clear_queue_label_text: Option<&'static str>,
    pub set_production_heading_text: Option<&'static str>,
    pub set_production_options: Vec<BaseProductionOptionState>,
    pub locked_production_heading_text: Option<String>,
    pub locked_production_options: Vec<BaseProductionOptionState>,
    pub queue_item_heading_text: Option<&'static str>,
    pub queue_item_options: Vec<BaseProductionOptionState>,
}

#[derive(Clone, Debug, PartialEq, Eq)]
pub enum MapInteractionResult {
    Nothing,
    SelectUnit(usize),
    MoveUnit {
        unit_id: usize,
        target_x: usize,
        target_y: usize,
    },
    Error(String),
}

#[derive(Clone, Debug, PartialEq, Eq)]
pub struct GameOverDisplayState {
    pub message_text: &'static str,
    pub color_hex: &'static str,
}


} // verus!
