//! Rules, models and display text for a turn-based planetary strategy game.
pub mod components;
pub mod content;
pub mod game_state;
pub mod localization;
pub mod map;
pub mod model;
pub mod narrative;
pub mod presentation;
pub mod ranking;
pub mod save;
pub mod seqs;
pub mod text;

pub use components::{Ability, Armor, Chassis, UnitDesign, Weapon};
pub use content::RuntimeRoles;
pub use game_state::{
    base_focus_filter_label, base_sort_mode_label, logistics_route_filter_label,
    logistics_route_sort_label, AvailableConvoyTargetOpportunityState,
    AvailableResearchDisplayState, BaseConvoyRouteDisplayRowState, BaseFocusFilter,
    BaseFocusState, BaseGovernorPlanRowState, BasePanelDisplayState, BaseProductionOptionState,
    BaseQueueRowState, BaseSortMode, BaseStatusTagKind, BaseStatusTagState,
    BlockedResearchDisplayState, CommandConsoleDisplayState, ConvoyHubDisplayRowState,
    ConvoyOverlayLine, ConvoyOverlayStatus, ConvoyRouteDisplayRowState,
    ConvoyRouteOpportunityState, CurrentResearchDisplayState, FactionLogisticsPanelState,
    FactionOverviewDisplayState, GovernorPlanStep, ImprovementActionState,
    KnownResearchDisplayState, LogisticsBoardDisplayState, LogisticsPanelActionState,
    LogisticsRouteFilter, LogisticsRouteSort, MapInteractionResult, MapOverlayOptionState,
    MapPanelDisplayState, MapTileDisplayState, PinnedResearchUnlockPreviewDisplayState,
    PinnedResearchUnlockPreviewRowState, PlayerOperationsActionState, PlayerOperationsActionType,
    PlayerOperationsDashboardState, PlayerOperationsFocusState, ProductionPreviewRow,
    ResearchPanelDisplayState, ResearchUnlockPreviewApplyResult,
    ResearchUnlockPreviewRefreshResult, ResearchUnlockPreviewSelection,
    ResearchUnlockPreviewStageResult, ResearchUnlockPreviewState,
    ResearchUnlockPreviewStateActionResult, ResearchUnlockPreviewStatus,
    SelectionPanelDisplayState, SidebarDisplayState, SidebarTab, TechUnlockImpactState,
    TileSelectionDisplayState, TopBarDisplayState, UnitSelectionDisplayState,
};
pub use model::{
    ActionableAlert, AlertPriority, Base, BaseAreaRole, ConvoyRoute, ConvoyRouteKind,
    ConvoyRouteSummary, DiplomacyStatus, DiplomaticRelation, Economics, EventCategory,
    EventLogEntry, Facility, Faction, FutureSociety, GameAction, GameOver, GameState, GovernorMode,
    Improvement, Politics, ProductionItem, SecretProject, Tech, Terrain, Tile, TurnSummary, Unit,
    UnitActivity, UnitKind, Values, Yields,
};
pub use presentation::MapOverlay;
pub use save::{SaveSlotCategory, SaveSlotListing, SaveSlotMetadata};
