//! What the screens around the map show, read from the game state.
use crate::game_state::convoys::base_label;
use crate::game_state::{
    ProductionPreviewRow, ResearchUnlockPreviewState, CommandConsoleDisplayState,
    GameOverDisplayState, LogisticsBoardDisplayState, MapInteractionResult, MapOverlayOptionState,
    MapPanelDisplayState, SidebarDisplayState, SecretProjectRegistryDisplayState,
    SecretProjectRegistryRowState, SidebarTab, SidebarTabState, TopBarDisplayState,
};
use crate::model::{
    ConvoyRouteKind, GameOver, GameState, ProductionItem, SecretProject, Tech, UnitKind,
};
use crate::components::UnitDesign;
use crate::seqs::{first_index, first_match, is_first, lemma_first_match_at, lemma_first_match_none};
use crate::text::{int_text, push_int, push_nat};
use crate::presentation::{self, MapOverlay};
use crate::text::{
    contains_text, occurs_at, owned, push_text, text_contains, text_eq, text_starts_with,
};
use vstd::prelude::*;

verus! {

/// The color a log line is shown in, by the tag it carries.
pub open spec fn log_color(m: Seq<char>) -> Option<Seq<char>> {
    if contains_text(m, "COMBAT:"@) {
        Some("#ff6464"@)
    } else if contains_text(m, "CRISIS EVENT:"@) || contains_text(m, "TOXICITY CRISIS:"@) {
        Some("#ff9632"@)
    } else if contains_text(m, "GLOBAL WONDER:"@) {
        Some("#c8c8ff"@)
    } else if contains_text(m, "GOVERNANCE OVERRIDE:"@) {
        Some("#b464ff"@)
    } else if occurs_at(m, "---"@, 0) {
        Some("#d3d3d3"@)
    } else {
        None
    }
}

/// The name a route kind prints with in debug output.
pub open spec fn route_kind_debug_text(k: ConvoyRouteKind) -> Seq<char> {
    match k {
        ConvoyRouteKind::Trade => "Trade"@,
        ConvoyRouteKind::Freight => "Freight"@,
        ConvoyRouteKind::MilitarySupply => "MilitarySupply"@,
    }
}

/// What the game-over banner says for `result`, and in which color.
pub open spec fn game_over_texts(result: GameOver) -> (Seq<char>, Seq<char>) {
    match result {
        GameOver::PlayerWonConquest | GameOver::PlayerWonEconomic | GameOver::PlayerWonTranscendence
        | GameOver::PlayerWonSpaceTranscendence | GameOver::PlayerWonBlackHoleHarvesting => (
            "VICTORY: You have won the game!"@,
            crate::content::ui_success_hex_text(),
        ),
        GameOver::CouncilGovernorElected => (
            "MILESTONE: A Planetary Governor has been elected."@,
            "#AAAAFF"@,
        ),
        GameOver::PlayerLost => (crate::content::ui_defeat_text_text(), crate::content::ui_danger_hex_text()),
        _ => ("DEFEAT: A rival faction has won the game."@, crate::content::ui_danger_hex_text()),
    }
}

/// The color of a log message.
fn log_color_of(m: &str) -> (r: Option<&'static str>)
    ensures
        presentation::opt_view(r) == log_color(m@),
{
    if text_contains(m, "COMBAT:") {
        Some("#ff6464")
    } else if text_contains(m, "CRISIS EVENT:") || text_contains(m, "TOXICITY CRISIS:") {
        Some("#ff9632")
    } else if text_contains(m, "GLOBAL WONDER:") {
        Some("#c8c8ff")
    } else if text_contains(m, "GOVERNANCE OVERRIDE:") {
        Some("#b464ff")
    } else if text_starts_with(m, "---") {
        Some("#d3d3d3")
    } else {
        None
    }
}

/// The gameplay-loop steps as a vector.
fn gameplay_loop_steps_vec() -> (r: Vec<&'static str>)
    ensures
        r@.map_values(|s: &'static str| s@) == presentation::gameplay_loop_step_texts(),
{
    let steps = presentation::ui_gameplay_loop_steps();
    let mut r: Vec<&'static str> = Vec::new();
    let mut k: usize = 0;
    while k < 6
        invariant
            k <= 6,
            steps@.map_values(|s: &'static str| s@) == presentation::gameplay_loop_step_texts(),
            r@ == steps@.take(k as int),
        decreases 6 - k,
    {
        r.push(steps[k]);
        assert(r@ =~= steps@.take(k + 1));
        k += 1;
    }
    assert(r@ =~= steps@);
    r
}

/// A route kind's debug name.
fn route_kind_debug_name(k: ConvoyRouteKind) -> (r: &'static str)
    ensures
        r@ == route_kind_debug_text(k),
{
    match k {
        ConvoyRouteKind::Trade => "Trade",
        ConvoyRouteKind::Freight => "Freight",
        ConvoyRouteKind::MilitarySupply => "MilitarySupply",
    }
}


/// The next id of a cycle over `ids`.
fn cycle_next(ids: &[usize], current: Option<usize>) -> (r: Option<usize>)
    ensures
        ids@.len() == 0 ==> r is None,
        ids@.len() > 0 ==> match current {
            None => r == Some(ids@[0]),
            Some(c) => {
                ||| (forall|i: int| 0 <= i < ids@.len() ==> ids@[i] <= c) && r == Some(ids@[0])
                ||| exists|i: int|
                    0 <= i < ids@.len() && ids@[i] > c && (forall|j: int| 0 <= j < i ==> ids@[j] <= c) && r
                        == Some(ids@[i])
            },
        },
{
    if ids.len() == 0 {
        return None;
    }
    match current {
        None => Some(ids[0]),
        Some(c) => {
            let mut i: usize = 0;
            while i < ids.len()
                invariant
                    i <= ids@.len(),
                    ids@.len() > 0,
                    current == Some(c),
                    forall|j: int| 0 <= j < i ==> ids@[j] <= c,
                decreases ids@.len() - i,
            {
                if ids[i] > c {
                    assert(0 <= i < ids@.len() && ids@[i as int] > c && (forall|j: int| 0 <= j < i ==> ids@[j] <= c));
                    return Some(ids[i]);
                }
                i += 1;
            }
            Some(ids[0])
        },
    }
}

/// Copies a list of production items.
fn copy_items(items: &Vec<ProductionItem>) -> (r: Vec<ProductionItem>)
    ensures
        r@ == items@,
{
    let r = items.clone();
    assert(r@ =~= items@);
    r
}

impl GameState {
    /// The sidebar tab a key opens.
    pub fn handle_sidebar_hotkey(&self, key_text: &str) -> (r: Option<SidebarTab>)
        ensures
            r == (if key_text@ == "1"@ {
                Some(SidebarTab::Selection)
            } else if key_text@ == "2"@ {
                Some(SidebarTab::Factions)
            } else if key_text@ == "W"@ {
                Some(SidebarTab::Workshop)
            } else if key_text@ == "3"@ {
                Some(SidebarTab::Logistics)
            } else if key_text@ == "4"@ {
                Some(SidebarTab::Saves)
            } else if key_text@ == "5"@ {
                Some(SidebarTab::Logs)
            } else {
                None
            }),
    {
        if text_eq(key_text, "1") {
            Some(SidebarTab::Selection)
        } else if text_eq(key_text, "2") {
            Some(SidebarTab::Factions)
        } else if text_eq(key_text, "W") {
            Some(SidebarTab::Workshop)
        } else if text_eq(key_text, "3") {
            Some(SidebarTab::Logistics)
        } else if text_eq(key_text, "4") {
            Some(SidebarTab::Saves)
        } else if text_eq(key_text, "5") {
            Some(SidebarTab::Logs)
        } else {
            None
        }
    }

    /// The game-over banner, once the game has ended.
    pub fn game_over_display_state(&self) -> (r: Option<GameOverDisplayState>)
        ensures
            match self.game_over {
                Some(result) => r matches Some(d) && d.message_text@ == game_over_texts(result).0
                    && d.color_hex@ == game_over_texts(result).1,
                None => r is None,
            },
    {
        match self.game_over {
            Some(result) => Some(
                match result {
                    GameOver::PlayerWonConquest | GameOver::PlayerWonEconomic
                    | GameOver::PlayerWonTranscendence | GameOver::PlayerWonSpaceTranscendence
                    | GameOver::PlayerWonBlackHoleHarvesting => GameOverDisplayState {
                        message_text: "VICTORY: You have won the game!",
                        color_hex: presentation::ui_success_hex(),
                    },
                    GameOver::AiWonConquest | GameOver::AiWonEconomic | GameOver::AiWonTranscendence
                    | GameOver::AiWonSpaceTranscendence | GameOver::AiWonBlackHoleHarvesting
                    | GameOver::DiplomaticVictory | GameOver::PlanetUnited => GameOverDisplayState {
                        message_text: "DEFEAT: A rival faction has won the game.",
                        color_hex: presentation::ui_danger_hex(),
                    },
                    GameOver::CouncilGovernorElected => GameOverDisplayState {
                        message_text: "MILESTONE: A Planetary Governor has been elected.",
                        color_hex: "#AAAAFF",
                    },
                    GameOver::PlayerLost => GameOverDisplayState {
                        message_text: presentation::ui_defeat_text(),
                        color_hex: presentation::ui_danger_hex(),
                    },
                },
            ),
            None => None,
        }
    }

    /// What a click on `(x, y)` does for `owner`: nothing off the map, an error on
    /// unexplored ground, selecting an own unit standing there, else moving the selected unit.
    pub fn process_map_interaction(&self, x: usize, y: usize, selected_unit_id: Option<usize>, owner: usize) -> (r: MapInteractionResult)
        ensures
            match self.tile_at(x, y) {
                None => r == MapInteractionResult::Nothing,
                Some(t) => if !t.explored_by_owner@.contains(owner) {
                    r matches MapInteractionResult::Error(e) && e@ == "Unexplored sector. Move a unit closer."@
                } else if t.unit matches Some(id) && self.unit_spec(id) matches Some(u) && u.owner == owner {
                    r == MapInteractionResult::SelectUnit(t.unit->0)
                } else {
                    r == match selected_unit_id {
                        Some(unit_id) => MapInteractionResult::MoveUnit { unit_id, target_x: x, target_y: y },
                        None => MapInteractionResult::Nothing,
                    }
                },
            },
    {
        broadcast use vstd::std_specs::btree::group_btree_axioms;
        broadcast use vstd::laws_cmp::group_laws_cmp;
        let tile = match self.tile(x, y) {
            Some(t) => t,
            None => return MapInteractionResult::Nothing,
        };
        if !tile.explored_by_owner.contains(&owner) {
            return MapInteractionResult::Error(owned("Unexplored sector. Move a unit closer."));
        }
        match tile.unit {
            Some(unit_id) => match self.unit(unit_id) {
                Some(unit) => {
                    if unit.owner == owner {
                        return MapInteractionResult::SelectUnit(unit_id);
                    }
                },
                None => {},
            },
            None => {},
        }
        match selected_unit_id {
            Some(unit_id) => MapInteractionResult::MoveUnit { unit_id, target_x: x, target_y: y },
            None => MapInteractionResult::Nothing,
        }
    }

    /// The sidebar: its heading and every tab, with `active_tab` selected.
    pub fn sidebar_display_state(&self, active_tab: SidebarTab) -> (r: SidebarDisplayState)
        ensures
            r.heading_text@ == "Operations"@,
            r.tabs@.len() == 8,
            forall|i: int|
                0 <= i < 8 ==> {
                    let t = #[trigger] r.tabs@[i];
                    &&& t.tab == SidebarTab::all_seq()[i]
                    &&& t.label_text@ == SidebarTab::all_seq()[i].label_spec()
                    &&& t.hotkey_text@ == SidebarTab::all_seq()[i].hotkey_spec()
                    &&& t.selected == (SidebarTab::all_seq()[i] == active_tab)
                },
    {
        let all = SidebarTab::all();
        let mut tabs: Vec<SidebarTabState> = Vec::new();
        let mut k: usize = 0;
        while k < 8
            invariant
                k <= 8,
                all@ == SidebarTab::all_seq(),
                tabs@.len() == k,
                forall|i: int|
                    0 <= i < k ==> {
                        let t = #[trigger] tabs@[i];
                        &&& t.tab == SidebarTab::all_seq()[i]
                        &&& t.label_text@ == SidebarTab::all_seq()[i].label_spec()
                        &&& t.hotkey_text@ == SidebarTab::all_seq()[i].hotkey_spec()
                        &&& t.selected == (SidebarTab::all_seq()[i] == active_tab)
                    },
            decreases 8 - k,
        {
            let tab = all[k];
            tabs.push(
                SidebarTabState {
                    tab,
                    label_text: tab.label_text(),
                    hotkey_text: tab.hotkey_text(),
                    selected: tab == active_tab,
                },
            );
            k += 1;
        }
        SidebarDisplayState { heading_text: owned("Operations"), tabs }
    }

    /// The map panel for `overlay`, with every overlay offered.
    pub fn map_panel_display_state(&self, overlay: MapOverlay) -> (r: MapPanelDisplayState)
        ensures
            r.heading_text@ == crate::content::ui_planet_heading_text(),
            r.minimap_heading_text@ == "Minimap"@,
            r.overlay_label_text@ == "overlay"@,
            r.selected_overlay_label_text@ == presentation::map_overlay_label_text(overlay),
            r.overlay_legend_text@ == presentation::map_overlay_legend_text(overlay),
            r.uses_convoy_lines == (overlay == MapOverlay::Logistics || overlay == MapOverlay::Trade),
            r.overlay_options@.len() == 9,
            forall|i: int|
                0 <= i < 9 ==> (#[trigger] r.overlay_options@[i]).overlay == MapOverlay::all_seq()[i]
                    && r.overlay_options@[i].label_text@ == presentation::map_overlay_label_text(
                    MapOverlay::all_seq()[i],
                ),
    {
        let all = MapOverlay::all();
        let mut options: Vec<MapOverlayOptionState> = Vec::new();
        let mut k: usize = 0;
        while k < 9
            invariant
                k <= 9,
                all@ == MapOverlay::all_seq(),
                options@.len() == k,
                forall|i: int|
                    0 <= i < k ==> (#[trigger] options@[i]).overlay == MapOverlay::all_seq()[i]
                        && options@[i].label_text@ == presentation::map_overlay_label_text(
                        MapOverlay::all_seq()[i],
                    ),
            decreases 9 - k,
        {
            let o = all[k];
            options.push(MapOverlayOptionState { overlay: o, label_text: presentation::map_overlay_label(o) });
            k += 1;
        }
        MapPanelDisplayState {
            heading_text: presentation::ui_planet_heading(),
            minimap_heading_text: presentation::ui_minimap_heading(),
            overlay_label_text: presentation::ui_overlay_label(),
            selected_overlay_label_text: presentation::map_overlay_label(overlay),
            overlay_legend_text: presentation::map_overlay_legend(overlay),
            uses_convoy_lines: presentation::map_overlay_uses_convoy_lines(overlay),
            overlay_options: options,
        }
    }

    /// The logistics board: one line "A <-> B (Kind)" per convoy route, where the route's
    /// base ids index the base list.
    pub fn logistics_board_display_state(&self) -> (r: LogisticsBoardDisplayState)
        requires
            forall|i: int|
                0 <= i < self.convoy_routes@.len() ==> (#[trigger] self.convoy_routes@[i]).base_a_id
                    < self.bases@.len() && self.convoy_routes@[i].base_b_id < self.bases@.len(),
        ensures
            r.heading_text@ == "Logistics Board"@,
            r.gameplay_loop_heading_text@ == "Gameplay loop:"@,
            r.gameplay_loop_steps@.map_values(|s: &'static str| s@) == presentation::gameplay_loop_step_texts(),
            r.overview_text@ == "Detailed list of active convoy routes:"@,
            r.active_routes@.len() == self.convoy_routes@.len(),
            forall|i: int|
                0 <= i < self.convoy_routes@.len() ==> (#[trigger] r.active_routes@[i])@ == {
                    let route = self.convoy_routes@[i];
                    self.bases@[route.base_a_id as int].name@ + " <-> "@
                        + self.bases@[route.base_b_id as int].name@ + " ("@
                        + route_kind_debug_text(route.kind) + ")"@
                },
    {
        let mut active_routes: Vec<String> = Vec::new();
        let mut k: usize = 0;
        while k < self.convoy_routes.len()
            invariant
                k <= self.convoy_routes@.len(),
                forall|i: int|
                    0 <= i < self.convoy_routes@.len() ==> (#[trigger] self.convoy_routes@[i]).base_a_id
                        < self.bases@.len() && self.convoy_routes@[i].base_b_id < self.bases@.len(),
                active_routes@.len() == k,
                forall|i: int|
                    0 <= i < k ==> (#[trigger] active_routes@[i])@ == {
                        let route = self.convoy_routes@[i];
                        self.bases@[route.base_a_id as int].name@ + " <-> "@
                            + self.bases@[route.base_b_id as int].name@ + " ("@
                            + route_kind_debug_text(route.kind) + ")"@
                    },
            decreases self.convoy_routes@.len() - k,
        {
            let route = self.convoy_routes[k];
            let mut line = owned(self.bases[route.base_a_id].name.as_str());
            push_text(&mut line, " <-> ");
            push_text(&mut line, self.bases[route.base_b_id].name.as_str());
            push_text(&mut line, " (");
            push_text(&mut line, route_kind_debug_name(route.kind));
            push_text(&mut line, ")");
            active_routes.push(line);
            k += 1;
        }
        LogisticsBoardDisplayState {
            heading_text: owned("Logistics Board"),
            gameplay_loop_heading_text: presentation::ui_gameplay_loop_heading(),
            gameplay_loop_steps: gameplay_loop_steps_vec(),
            overview_text: "Detailed list of active convoy routes:",
            active_routes,
        }
    }

    /// The command console: its headings, the gameplay loop and every log message with the
    /// color its tag calls for.
    pub fn command_console_display_state(&self) -> (r: CommandConsoleDisplayState)
        ensures
            r.heading_text@ == crate::content::ui_command_console_heading_text(),
            r.gameplay_loop_heading_text@ == "Gameplay loop:"@,
            r.gameplay_loop_steps@.map_values(|s: &'static str| s@) == presentation::gameplay_loop_step_texts(),
            r.event_log_heading_text@ == crate::content::ui_event_log_heading_text(),
            r.event_log@.len() == self.log@.len(),
            forall|i: int|
                0 <= i < self.log@.len() ==> (#[trigger] r.event_log@[i]).0@ == self.log@[i].message@
                    && presentation::opt_view(r.event_log@[i].1) == log_color(self.log@[i].message@),
    {
        let mut event_log: Vec<(String, Option<&'static str>)> = Vec::new();
        let mut k: usize = 0;
        while k < self.log.len()
            invariant
                k <= self.log@.len(),
                event_log@.len() == k,
                forall|i: int|
                    0 <= i < k ==> (#[trigger] event_log@[i]).0@ == self.log@[i].message@
                        && presentation::opt_view(event_log@[i].1) == log_color(self.log@[i].message@),
            decreases self.log@.len() - k,
        {
            let message = &self.log[k].message;
            let color = log_color_of(message.as_str());
            event_log.push((message.clone(), color));
            k += 1;
        }
        CommandConsoleDisplayState {
            heading_text: presentation::ui_command_console_heading(),
            gameplay_loop_heading_text: presentation::ui_gameplay_loop_heading(),
            gameplay_loop_steps: gameplay_loop_steps_vec(),
            event_log_heading_text: presentation::ui_event_log_heading(),
            event_log,
        }
    }
    /// The unit after `current_unit_id` in a cycle over `unit_ids`: the first listed id
    /// greater than it, else the first id.
    pub fn next_unit_cycle_target(&self, unit_ids: &[usize], current_unit_id: Option<usize>) -> (r: Option<usize>)
        ensures
            unit_ids@.len() == 0 ==> r is None,
            unit_ids@.len() > 0 ==> match current_unit_id {
                None => r == Some(unit_ids@[0]),
                Some(c) => {
                    ||| (forall|i: int| 0 <= i < unit_ids@.len() ==> unit_ids@[i] <= c) && r == Some(unit_ids@[0])
                    ||| exists|i: int|
                        0 <= i < unit_ids@.len() && unit_ids@[i] > c && (forall|j: int| 0 <= j < i ==> unit_ids@[j] <= c)
                            && r == Some(unit_ids@[i])
                },
            },
    {
        cycle_next(unit_ids, current_unit_id)
    }

    /// The base after `current_base_id` in a cycle over `base_ids`: the first listed id
    /// greater than it, else the first id.
    pub fn next_base_cycle_target(&self, base_ids: &[usize], current_base_id: Option<usize>) -> (r: Option<usize>)
        ensures
            base_ids@.len() == 0 ==> r is None,
            base_ids@.len() > 0 ==> match current_base_id {
                None => r == Some(base_ids@[0]),
                Some(c) => {
                    ||| (forall|i: int| 0 <= i < base_ids@.len() ==> base_ids@[i] <= c) && r == Some(base_ids@[0])
                    ||| exists|i: int|
                        0 <= i < base_ids@.len() && base_ids@[i] > c && (forall|j: int| 0 <= j < i ==> base_ids@[j] <= c)
                            && r == Some(base_ids@[i])
                },
            },
    {
        cycle_next(base_ids, current_base_id)
    }

    /// Whether faction `owner` already knows the technology `preview` is about.
    pub fn can_apply_research_unlock_preview(&self, owner: usize, preview: &ResearchUnlockPreviewState) -> (r: bool)
        ensures
            r == (owner < self.factions@.len() && self.factions@[owner as int].known_techs@.contains(preview.tech)),
    {
        if owner >= self.factions.len() {
            return false;
        }
        let techs = &self.factions[owner].known_techs;
        let mut i: usize = 0;
        while i < techs.len()
            invariant
                i <= techs@.len(),
                owner < self.factions@.len(),
                techs@ == self.factions@[owner as int].known_techs@,
                forall|j: int| 0 <= j < i ==> techs@[j] != preview.tech,
            decreases techs@.len() - i,
        {
            if techs[i] == preview.tech {
                assert(techs@[i as int] == preview.tech);
                assert(self.factions@[owner as int].known_techs@.contains(preview.tech));
                return true;
            }
            i += 1;
        }
        false
    }

    /// One preview row per (base, planned items): the base's name (or "Base {id}") and the
    /// planned items after it.
    pub fn production_preview_rows(&self, previews: &[(usize, Vec<ProductionItem>)]) -> (r: Vec<ProductionPreviewRow>)
        ensures
            r@.len() == previews@.len(),
            forall|i: int|
                0 <= i < previews@.len() ==> {
                    let row = #[trigger] r@[i];
                    &&& row.base_id == previews@[i].0
                    &&& row.base_name@ == base_label(*self, previews@[i].0)
                    &&& row.items@ == previews@[i].1@
                    &&& row.row_text@ == base_label(*self, previews@[i].0) + ": "@ + presentation::sequence_text(
                        previews@[i].1@,
                    )
                },
    {
        let mut rows: Vec<ProductionPreviewRow> = Vec::new();
        let mut k: usize = 0;
        while k < previews.len()
            invariant
                k <= previews@.len(),
                rows@.len() == k,
                forall|i: int|
                    0 <= i < k ==> {
                        let row = #[trigger] rows@[i];
                        &&& row.base_id == previews@[i].0
                        &&& row.base_name@ == base_label(*self, previews@[i].0)
                        &&& row.items@ == previews@[i].1@
                        &&& row.row_text@ == base_label(*self, previews@[i].0) + ": "@
                            + presentation::sequence_text(previews@[i].1@)
                    },
            decreases previews@.len() - k,
        {
            let base_id = previews[k].0;
            let name = match self.base(base_id) {
                Some(b) => b.name.clone(),
                None => {
                    let mut s = owned("Base ");
                    push_nat(&mut s, base_id as u64);
                    s
                },
            };
            let items = copy_items(&previews[k].1);
            let row_text = presentation::unlock_preview_row_text(name.as_str(), previews[k].1.as_slice());
            rows.push(ProductionPreviewRow { base_id, base_name: name, items, row_text });
            k += 1;
        }
        rows
    }
}

/// The production item that builds a secret project.
pub open spec fn project_item(p: SecretProject) -> ProductionItem {
    match p {
        SecretProject::WeatherPattern => ProductionItem::WeatherPattern,
        SecretProject::ClinicalImmortality => ProductionItem::ClinicalImmortality,
        SecretProject::EmpathGuild => ProductionItem::EmpathGuild,
        SecretProject::OrbitalElevator => ProductionItem::OrbitalElevator,
        SecretProject::ManifoldDrive => ProductionItem::ManifoldDrive,
        SecretProject::SingularityContainment => ProductionItem::SingularityContainment,
        SecretProject::BlackHoleHarvester => ProductionItem::BlackHoleHarvester,
    }
}

pub(crate) fn project_item_of(p: SecretProject) -> (r: ProductionItem)
    ensures
        r == project_item(p),
{
    match p {
        SecretProject::WeatherPattern => ProductionItem::WeatherPattern,
        SecretProject::ClinicalImmortality => ProductionItem::ClinicalImmortality,
        SecretProject::EmpathGuild => ProductionItem::EmpathGuild,
        SecretProject::OrbitalElevator => ProductionItem::OrbitalElevator,
        SecretProject::ManifoldDrive => ProductionItem::ManifoldDrive,
        SecretProject::SingularityContainment => ProductionItem::SingularityContainment,
        SecretProject::BlackHoleHarvester => ProductionItem::BlackHoleHarvester,
    }
}

/// Matches a built-project record of `p`.
pub open spec fn record_of(p: SecretProject) -> spec_fn((SecretProject, usize)) -> bool {
    |e: (SecretProject, usize)| e.0 == p
}

/// The faction recorded first as having built `p`, if any.
pub open spec fn builder_of(built: Seq<(SecretProject, usize)>, p: SecretProject) -> Option<usize> {
    match first_match(built, record_of(p)) {
        Some(e) => Some(e.1),
        None => None,
    }
}

impl GameState {
    /// `row` shows secret project `p`: its name, who built it in that faction's color,
    /// whether it is built, and what it does.
    pub open spec fn registry_row_shows(self, p: SecretProject, row: SecretProjectRegistryRowState) -> bool {
        &&& row.project_name@ == crate::content::production_name_text(project_item(p))
        &&& row.effects_text@ == presentation::secret_project_effect_sentence_text(p)
        &&& match builder_of(self.built_secret_projects@, p) {
            Some(o) => {
                let name = self.factions@[o as int].name@;
                &&& row.owner_name@ == name
                &&& row.owner_color_hex@ == match presentation::faction_field_text(
                    name,
                    |i: int| crate::content::faction_color_text(i),
                ) {
                    Some(c) => c,
                    None => "#d0d0d0"@,
                }
                &&& row.status_text@ == "Built"@
            },
            None => {
                &&& row.owner_name@ == "-"@
                &&& row.owner_color_hex@ == "#888888"@
                &&& row.status_text@ == "Available"@
            },
        }
    }

    /// The secret-project registry: one row per project, in declaration order, with
    /// what each does (the effect line of its production tooltip).
    pub fn secret_project_registry_display_state(&self) -> (r: SecretProjectRegistryDisplayState)
        requires
            forall|p: SecretProject| #[trigger] builder_of(self.built_secret_projects@, p) matches Some(o) ==> o
                < self.factions@.len(),
        ensures
            r.heading_text@ == "SECRET PROJECTS"@,
            r.projects@.len() == 7,
            forall|k: int| 0 <= k < 7 ==> self.registry_row_shows(SecretProject::all_seq()[k], #[trigger] r.projects@[k]),
    {
        let all = SecretProject::all();
        let mut projects: Vec<SecretProjectRegistryRowState> = Vec::new();
        let mut k: usize = 0;
        while k < 7
            invariant
                k <= 7,
                all@ == SecretProject::all_seq(),
                projects@.len() == k,
                forall|p: SecretProject| #[trigger] builder_of(self.built_secret_projects@, p) matches Some(o) ==> o
                    < self.factions@.len(),
                forall|m: int| 0 <= m < k ==> self.registry_row_shows(SecretProject::all_seq()[m], #[trigger] projects@[m]),
            decreases 7 - k,
        {
            let project = all[k];
            let item = project_item_of(project);
            let (owner_name, owner_color, status) = match self.builder(project) {
                Some(o) => {
                    let name = self.factions[o].name.as_str();
                    let color = match presentation::faction_color_hex(name) {
                        Some(c) => c,
                        None => "#d0d0d0",
                    };
                    (owned(name), owned(color), owned("Built"))
                },
                None => (owned("-"), owned("#888888"), owned("Available")),
            };
            let row = SecretProjectRegistryRowState {
                project_name: owned(presentation::production_name(item)),
                owner_name,
                owner_color_hex: owner_color,
                status_text: status,
                effects_text: owned(presentation::secret_project_effect_sentence(project)),
            };
            assert(self.registry_row_shows(project, row));
            projects.push(row);
            k += 1;
        }
        SecretProjectRegistryDisplayState { heading_text: owned("SECRET PROJECTS"), projects }
    }

    /// The faction recorded first as having built `p`.
    fn builder(&self, p: SecretProject) -> (r: Option<usize>)
        ensures
            r == builder_of(self.built_secret_projects@, p),
    {
        let mut i: usize = 0;
        while i < self.built_secret_projects.len()
            invariant
                i <= self.built_secret_projects@.len(),
                forall|j: int| 0 <= j < i ==> !(#[trigger] record_of(p)(self.built_secret_projects@[j])),
            decreases self.built_secret_projects@.len() - i,
        {
            if self.built_secret_projects[i].0 == p {
                proof {
                    assert(is_first(self.built_secret_projects@, record_of(p), i as int));
                    lemma_first_match_at(self.built_secret_projects@, record_of(p), i as int);
                }
                return Some(self.built_secret_projects[i].1);
            }
            i += 1;
        }
        proof {
            lemma_first_match_none(self.built_secret_projects@, record_of(p));
        }
        None
    }
}

/// Matches the designs named `name`.
pub open spec fn design_named(name: Seq<char>) -> spec_fn(UnitDesign) -> bool {
    |d: UnitDesign| d.name@ == name
}

/// `text` followed by the decimal text of `n`.
fn labelled(text: &str, n: i64) -> (r: String)
    ensures
        r@ == text@ + int_text(n as int),
{
    let mut s = owned(text);
    push_int(&mut s, n);
    s
}

impl GameState {
    /// What `owner` is researching, how far it has got and what it costs.
    pub fn research_progress(&self, owner: usize) -> (r: Option<(Tech, i32, i32)>)
        ensures
            r == if owner < self.factions@.len() {
                let f = self.factions@[owner as int];
                Some((f.current_research, f.research, crate::content::tech_cost_value(f.current_research)))
            } else {
                None
            },
    {
        match self.faction(owner) {
            Some(f) => Some((f.current_research, f.research, crate::content::tech_cost(f.current_research))),
            None => None,
        }
    }

    /// The workshop position of the first of `owner`'s designs named as `kind` is (by its
    /// design's name for a custom unit, by its kind's name otherwise); 0 when there is none.
    pub fn find_design_index_for_kind(&self, owner: usize, kind: UnitKind) -> (r: usize)
        ensures
            r == if owner < self.factions@.len() {
                let name = match kind {
                    UnitKind::CustomUnit(d) => d.name@,
                    _ => crate::content::unit_name_text(kind),
                };
                match first_index(self.factions@[owner as int].unit_designs@, design_named(name)) {
                    Some(i) => i,
                    None => 0,
                }
            } else {
                0
            },
    {
        let f = match self.faction(owner) {
            Some(f) => f,
            None => return 0,
        };
        let target: &str = match &kind {
            UnitKind::CustomUnit(d) => d.name.as_str(),
            _ => crate::content::unit_name(&kind),
        };
        let ghost name = target@;
        assert(name == match kind {
            UnitKind::CustomUnit(d) => d.name@,
            _ => crate::content::unit_name_text(kind),
        });
        let mut i: usize = 0;
        while i < f.unit_designs.len()
            invariant
                i <= f.unit_designs@.len(),
                name == target@,
                owner < self.factions@.len(),
                *f == self.factions@[owner as int],
                name == match kind {
                    UnitKind::CustomUnit(d) => d.name@,
                    _ => crate::content::unit_name_text(kind),
                },
                forall|j: int| 0 <= j < i ==> !(#[trigger] design_named(name)(f.unit_designs@[j])),
            decreases f.unit_designs@.len() - i,
        {
            if text_eq(f.unit_designs[i].name.as_str(), target) {
                proof {
                    assert(is_first(f.unit_designs@, design_named(name), i as int));
                    crate::seqs::lemma_first_index_at(f.unit_designs@, design_named(name), i as int);
                }
                return i;
            }
            i += 1;
        }
        proof {
            crate::seqs::lemma_first_index_none(f.unit_designs@, design_named(name));
        }
        0
    }

    /// The bar above the map: the year, and for an existing faction its energy,
    /// research, food security, toxicity and AI dependence; a dust-fall warning while
    /// one lasts.
    pub fn top_bar_display_state(&self, owner: usize) -> (r: TopBarDisplayState)
        requires
            self.turn + 2100 <= i32::MAX,
        ensures
            r.year_text@ == "Year: "@ + int_text(2100 + self.turn),
            owner < self.factions@.len() ==> {
                let f = self.factions@[owner as int];
                &&& r.energy_text matches Some(t) && t@ == "Energy: "@ + int_text(f.energy as int)
                &&& r.research_text matches Some(t) && t@ == "Research: "@ + int_text(f.research as int) + "/"@
                    + int_text(crate::content::tech_cost_value(f.current_research) as int)
                &&& r.food_text matches Some(t) && t@ == "Food: "@ + int_text(f.food_security as int) + "%"@
                &&& r.toxicity_text matches Some(t) && t@ == "Toxicity: "@ + int_text(f.planet_toxicity as int)
                &&& r.ai_dependence_text matches Some(t) && t@ == "AI: "@ + int_text(f.ai_dependence as int) + "%"@
            },
            owner >= self.factions@.len() ==> r.energy_text is None && r.research_text is None && r.food_text is None
                && r.toxicity_text is None && r.ai_dependence_text is None,
            match r.dust_fall_warning {
                Some(t) => self.dust_fall_turns_left > 0 && t@ == "\u{26a0} DUST FALL: "@ + int_text(self.dust_fall_turns_left as int) + "y remaining"@,
                None => self.dust_fall_turns_left <= 0,
            },
    {
        let year_text = labelled("Year: ", (2100 + self.turn) as i64);
        let (energy_text, research_text, food_text, toxicity_text, ai_dependence_text) = match self.faction(owner) {
            Some(f) => {
                let mut research = labelled("Research: ", f.research as i64);
                push_text(&mut research, "/");
                push_int(&mut research, crate::content::tech_cost(f.current_research) as i64);
                let mut food = labelled("Food: ", f.food_security as i64);
                push_text(&mut food, "%");
                let mut ai = labelled("AI: ", f.ai_dependence as i64);
                push_text(&mut ai, "%");
                (
                    Some(labelled("Energy: ", f.energy as i64)),
                    Some(research),
                    Some(food),
                    Some(labelled("Toxicity: ", f.planet_toxicity as i64)),
                    Some(ai),
                )
            },
            None => (None, None, None, None, None),
        };
        let dust_fall_warning = if self.dust_fall_turns_left > 0 {
            let mut w = labelled("\u{26a0} DUST FALL: ", self.dust_fall_turns_left as i64);
            push_text(&mut w, "y remaining");
            Some(w)
        } else {
            None
        };
        TopBarDisplayState {
            year_text,
            energy_text,
            research_text,
            food_text,
            toxicity_text,
            ai_dependence_text,
            dust_fall_warning,
        }
    }
}

} // verus!
