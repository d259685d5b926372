//! Convoy routes between bases: their status, and removing and repairing them.
use crate::game_state::access::{log_event, logged_as, manhattan};
use crate::game_state::{
    ConvoyOverlayStatus, LogisticsPanelActionState, LogisticsRouteFilter,
    PlayerOperationsActionState, PlayerOperationsActionType,
};
use crate::model::{ConvoyRoute, ConvoyRouteKind, ConvoyRouteSummary, EventCategory, Faction, GameState, Unit};
use crate::presentation;
use crate::seqs::{first_index, is_first, lemma_first_index_at, lemma_first_index_none, none_match};
use crate::text::{nat_text, owned, push_nat, push_text};
use vstd::prelude::*;

verus! {

/// The overlay status of a route with the given flags.
pub open spec fn overlay_status_for(disrupted: bool, intercepted: bool, integrity: u8, protected: bool) -> ConvoyOverlayStatus {
    if intercepted && integrity <= 1 {
        ConvoyOverlayStatus::Collapsing
    } else if intercepted {
        ConvoyOverlayStatus::Intercepted
    } else if disrupted {
        ConvoyOverlayStatus::Disrupted
    } else if protected {
        ConvoyOverlayStatus::Protected
    } else {
        ConvoyOverlayStatus::Active
    }
}

/// A route's overlay status is decided by its flags in order of severity: collapsing
/// exactly when intercepted at integrity 1 or less, intercepted exactly when intercepted
/// above that, disrupted when disrupted but not intercepted, protected when only
/// protected, and active when none of the flags is set; its label names that status.
pub proof fn law_overlay_status_by_severity(disrupted: bool, intercepted: bool, integrity: u8, protected: bool)
    ensures
        (overlay_status_for(disrupted, intercepted, integrity, protected) == ConvoyOverlayStatus::Collapsing)
            <==> (intercepted && integrity <= 1),
        (overlay_status_for(disrupted, intercepted, integrity, protected) == ConvoyOverlayStatus::Intercepted)
            <==> (intercepted && integrity > 1),
        (overlay_status_for(disrupted, intercepted, integrity, protected) == ConvoyOverlayStatus::Disrupted)
            <==> (disrupted && !intercepted),
        (overlay_status_for(disrupted, intercepted, integrity, protected) == ConvoyOverlayStatus::Protected)
            <==> (protected && !disrupted && !intercepted),
        (overlay_status_for(disrupted, intercepted, integrity, protected) == ConvoyOverlayStatus::Active)
            <==> (!protected && !disrupted && !intercepted),
        intercepted && integrity > 1 ==> route_status_label_text(disrupted, intercepted, integrity, protected)
            == "INTERCEPTED"@,
        intercepted && integrity <= 1 ==> route_status_label_text(disrupted, intercepted, integrity, protected)
            == "COLLAPSING"@,
        !intercepted && disrupted ==> route_status_label_text(disrupted, intercepted, integrity, protected)
            == "DISRUPTED"@,
        !intercepted && !disrupted && protected ==> route_status_label_text(disrupted, intercepted, integrity, protected)
            == "Protected"@,
        !intercepted && !disrupted && !protected ==> route_status_label_text(disrupted, intercepted, integrity, protected)
            == "Active"@,
{
}

/// The status label of a route with the given flags.
pub open spec fn route_status_label_text(disrupted: bool, intercepted: bool, integrity: u8, protected: bool) -> Seq<char> {
    match overlay_status_for(disrupted, intercepted, integrity, protected) {
        ConvoyOverlayStatus::Collapsing => "COLLAPSING"@,
        ConvoyOverlayStatus::Intercepted => "INTERCEPTED"@,
        ConvoyOverlayStatus::Disrupted => "DISRUPTED"@,
        ConvoyOverlayStatus::Protected => "Protected"@,
        _ => "Active"@,
    }
}

/// Whether route summary `route` passes `filter`.
pub open spec fn route_matches(route: ConvoyRouteSummary, filter: LogisticsRouteFilter) -> bool {
    match filter {
        LogisticsRouteFilter::All => true,
        LogisticsRouteFilter::Trade => route.kind == ConvoyRouteKind::Trade,
        LogisticsRouteFilter::Freight => route.kind == ConvoyRouteKind::Freight,
        LogisticsRouteFilter::Military => route.kind == ConvoyRouteKind::MilitarySupply,
        LogisticsRouteFilter::Disrupted => route.disrupted,
        LogisticsRouteFilter::Intercepted => route.intercepted,
        LogisticsRouteFilter::Collapsing => route.intercepted && route.integrity <= 1,
        LogisticsRouteFilter::Protected => route.protected && !route.intercepted && !route.disrupted,
    }
}

/// How urgently a route needs attention; higher is worse.
pub open spec fn route_severity(route: ConvoyRouteSummary) -> int {
    let score: int = (if route.protected { 1int } else { 0 }) + (if route.disrupted { 3int } else { 0 })
        + (if route.intercepted { 5int } else { 0 }) + (if route.integrity <= 1 { 4int } else { 0 });
    score * 10 + (3 - route.integrity)
}

/// The pressure a hostile unit of kind `u` puts on a route it stands near.
pub open spec fn interception_weight(u: Unit) -> int {
    match u.kind {
        crate::model::UnitKind::RaiderSpeeder | crate::model::UnitKind::MindWorm
        | crate::model::UnitKind::ResonanceLaser => 2,
        crate::model::UnitKind::Speeder | crate::model::UnitKind::PsiSentinel
        | crate::model::UnitKind::TranceScout => 1,
        crate::model::UnitKind::ScoutPatrol | crate::model::UnitKind::GarrisonGuard => 1,
        _ => 0,
    }
}

/// The interception pressure that `units` hostile to `owner` put on a route between
/// positions `(ax, ay)` and `(bx, by)`: units within two steps of either end count.
pub open spec fn interception_sum(units: Seq<Unit>, owner: usize, ax: usize, ay: usize, bx: usize, by: usize) -> int
    decreases units.len(),
{
    if units.len() == 0 {
        0
    } else {
        let u = units.last();
        let near = manhattan(u.x, u.y, ax, ay) <= 2 || manhattan(u.x, u.y, bx, by) <= 2;
        interception_sum(units.drop_last(), owner, ax, ay, bx, by) + if u.alive && u.owner != owner
            && near {
            interception_weight(u)
        } else {
            0
        }
    }
}

/// Matches the route between `left` and `right` in that order, of `kind` if one is given.
pub open spec fn route_between(left: usize, right: usize, kind: Option<ConvoyRouteKind>) -> spec_fn(ConvoyRoute) -> bool {
    |r: ConvoyRoute| r.base_a_id == left && r.base_b_id == right && match kind {
        Some(k) => r.kind == k,
        None => true,
    }
}

/// The name shown for base `id`: its name, or "Base {id}" when there is no such base.
pub open spec fn base_label(state: GameState, id: usize) -> Seq<char> {
    match state.base_spec(id) {
        Some(b) => b.name@,
        None => "Base "@ + nat_text(id as nat),
    }
}

/// Whether both ends of `route` are bases of `owner`.
pub open spec fn route_of_owner(state: GameState, owner: usize) -> spec_fn(ConvoyRoute) -> bool {
    |r: ConvoyRoute| state.base_spec(r.base_a_id) is Some && state.base_spec(r.base_b_id) is Some
        && state.base_spec(r.base_a_id)->0.owner == owner && state.base_spec(r.base_b_id)->0.owner == owner
}

/// Matches the routes of `owner` that are at most one integrity point from collapse.
pub open spec fn collapsing_route_of(state: GameState, owner: usize) -> spec_fn(ConvoyRoute) -> bool {
    |r: ConvoyRoute| route_of_owner(state, owner)(r) && r.integrity <= 1
}

/// Matches the damaged routes of `owner`.
pub open spec fn damaged_route_of(state: GameState, owner: usize) -> spec_fn(ConvoyRoute) -> bool {
    |r: ConvoyRoute| route_of_owner(state, owner)(r) && r.integrity < 3
}

/// The name of base `id`, or "Base {id}".
fn base_label_of(state: &GameState, id: usize) -> (r: String)
    ensures
        r@ == base_label(*state, id),
{
    match state.base(id) {
        Some(b) => b.name.clone(),
        None => {
            let mut s = owned("Base ");
            push_nat(&mut s, id as u64);
            s
        },
    }
}

/// The first route position matching `p`.
fn find_route(routes: &Vec<ConvoyRoute>, left: usize, right: usize, kind: Option<ConvoyRouteKind>) -> (r: Option<usize>)
    ensures
        match r {
            Some(i) => first_index(routes@, route_between(left, right, kind)) == Some(i as int),
            None => first_index(routes@, route_between(left, right, kind)) is None,
        },
{
    let mut i: usize = 0;
    while i < routes.len()
        invariant
            i <= routes@.len(),
            forall|j: int| 0 <= j < i ==> !(#[trigger] route_between(left, right, kind)(routes@[j])),
        decreases routes@.len() - i,
    {
        let route = routes[i];
        let kind_ok = match kind {
            Some(k) => route.kind == k,
            None => true,
        };
        if route.base_a_id == left && route.base_b_id == right && kind_ok {
            proof {
                assert(is_first(routes@, route_between(left, right, kind), i as int));
                lemma_first_index_at(routes@, route_between(left, right, kind), i as int);
            }
            return Some(i);
        }
        i += 1;
    }
    proof {
        assert(none_match(routes@, route_between(left, right, kind)));
        lemma_first_index_none(routes@, route_between(left, right, kind));
    }
    None
}

/// Whether route `r` joins bases `x` and `y` (stored in that order), of `kind` if given.
pub open spec fn joins(r: ConvoyRoute, x: usize, y: usize, kind: Option<ConvoyRouteKind>) -> bool {
    r.base_a_id == x && r.base_b_id == y && (kind is None || r.kind == kind->0)
}

/// Removing a route takes out exactly one route, the first one stored between the two
/// bases (lower id first) of the given kind, and keeps the others in order; with no such
/// route nothing is removed.
pub proof fn law_removal_takes_the_first_matching_route(
    old: GameState,
    new: GameState,
    a: usize,
    b: usize,
    kind: Option<ConvoyRouteKind>,
    x: usize,
    y: usize,
)
    requires
        old.removable_route_index(a, b, kind) is Some,
        GameState::route_removed(old, new, a, b, kind),
        x == (if a < b { a } else { b }),
        y == (if a < b { b } else { a }),
    ensures
        exists|i: int|
            0 <= i < old.convoy_routes@.len() && #[trigger] joins(old.convoy_routes@[i], x, y, kind)
                && (forall|j: int| 0 <= j < i ==> !joins(#[trigger] old.convoy_routes@[j], x, y, kind))
                && new.convoy_routes@.len() + 1 == old.convoy_routes@.len()
                && new.convoy_routes@ == old.convoy_routes@.take(i) + old.convoy_routes@.skip(i + 1),
{
    let p = route_between(x, y, kind);
    let i = old.removable_route_index(a, b, kind)->0;
    assert(is_first(old.convoy_routes@, p, i));
    assert(joins(old.convoy_routes@[i], x, y, kind));
    assert forall|j: int| 0 <= j < i implies !joins(#[trigger] old.convoy_routes@[j], x, y, kind) by {
        assert(!p(old.convoy_routes@[j]));
    }
    assert(old.convoy_routes@.remove(i) =~= old.convoy_routes@.take(i) + old.convoy_routes@.skip(i + 1));
}

/// No route joining the two bases (either way round, of the kind) means a removal finds
/// nothing to remove.
pub proof fn law_removal_needs_a_route(old: GameState, a: usize, b: usize, kind: Option<ConvoyRouteKind>)
    requires
        forall|j: int| 0 <= j < old.convoy_routes@.len() ==> !joins(#[trigger] old.convoy_routes@[j], a, b, kind)
            && !joins(old.convoy_routes@[j], b, a, kind),
    ensures
        old.removable_route_index(a, b, kind) is None,
{
    let x = if a < b { a } else { b };
    let y = if a < b { b } else { a };
    let p = route_between(x, y, kind);
    if old.removable_route_index(a, b, kind) is Some {
        let i = choose|i: int| is_first(old.convoy_routes@, p, i);
        assert(p(old.convoy_routes@[i]));
        assert(!joins(old.convoy_routes@[i], a, b, kind));
    }
}

/// A repair raises the route's integrity by exactly one and charges the owner of its
/// first base exactly two energy; it is refused at full integrity (3) or with less than
/// two energy.
pub proof fn law_repair_adds_one_integrity_for_two_energy(old: GameState, new: GameState, a: usize, b: usize, kind: ConvoyRouteKind)
    requires
        old.repair_refusal(a, b, kind) is None,
        GameState::route_repaired(old, new, a, b, kind),
    ensures
        ({
            let i = old.repairable_route_index(a, b, kind)->0;
            let route = old.convoy_routes@[i];
            let owner = old.base_spec(route.base_a_id)->0.owner;
            &&& route.integrity < 3
            &&& old.factions@[owner as int].energy >= 2
            &&& new.convoy_routes@.len() == old.convoy_routes@.len()
            &&& new.convoy_routes@[i].integrity == route.integrity + 1
            &&& new.convoy_routes@[i].kind == route.kind
            &&& new.convoy_routes@[i].base_a_id == route.base_a_id && new.convoy_routes@[i].base_b_id == route.base_b_id
            &&& new.factions@[owner as int].energy == old.factions@[owner as int].energy - 2
            &&& forall|j: int| 0 <= j < old.convoy_routes@.len() && j != i ==> new.convoy_routes@[j] == old.convoy_routes@[j]
        }),
{
}

impl GameState {
    /// The overlay status of a route with the given flags.
    pub fn convoy_overlay_status_for_flags(disrupted: bool, intercepted: bool, integrity: u8, protected: bool) -> (r: ConvoyOverlayStatus)
        ensures
            r == overlay_status_for(disrupted, intercepted, integrity, protected),
    {
        if intercepted && integrity <= 1 {
            ConvoyOverlayStatus::Collapsing
        } else if intercepted {
            ConvoyOverlayStatus::Intercepted
        } else if disrupted {
            ConvoyOverlayStatus::Disrupted
        } else if protected {
            ConvoyOverlayStatus::Protected
        } else {
            ConvoyOverlayStatus::Active
        }
    }

    /// The status label of a route with the given flags.
    pub fn convoy_route_status_label(disrupted: bool, intercepted: bool, integrity: u8, protected: bool) -> (r: &'static str)
        ensures
            r@ == route_status_label_text(disrupted, intercepted, integrity, protected),
    {
        match Self::convoy_overlay_status_for_flags(disrupted, intercepted, integrity, protected) {
            ConvoyOverlayStatus::Collapsing => "COLLAPSING",
            ConvoyOverlayStatus::Intercepted => "INTERCEPTED",
            ConvoyOverlayStatus::Disrupted => "DISRUPTED",
            ConvoyOverlayStatus::Protected => "Protected",
            ConvoyOverlayStatus::Active => "Active",
            ConvoyOverlayStatus::NoRoute => "Active",
        }
    }

    /// Whether `(x, y)` lies on the L-shaped path of a route from `(ax, ay)` to `(bx, by)`:
    /// along row `ay` between the two columns, then along column `bx` between the two rows.
    pub fn tile_on_convoy_path(x: usize, y: usize, ax: usize, ay: usize, bx: usize, by: usize) -> (r: bool)
        ensures
            r == ((y == ay && ((ax <= x <= bx) || (bx <= x <= ax))) || (x == bx && ((ay <= y <= by) || (by
                <= y <= ay)))),
    {
        let on_horizontal = y == ay && ((x >= ax && x <= bx) || (x >= bx && x <= ax));
        let on_vertical = x == bx && ((y >= ay && y <= by) || (y >= by && y <= ay));
        on_horizontal || on_vertical
    }

    /// A logistics-panel button: enabled when something is available.
    pub fn logistics_panel_action_state(label: &str, available_count: usize) -> (r: LogisticsPanelActionState)
        ensures
            r.button_text@ == label@,
            r.available_count == available_count,
            r.enabled == (available_count > 0),
    {
        LogisticsPanelActionState { button_text: owned(label), available_count, enabled: available_count > 0 }
    }

    /// Whether route summary `route` passes `filter`.
    pub fn convoy_route_matches_filter(route: &ConvoyRouteSummary, filter: LogisticsRouteFilter) -> (r: bool)
        ensures
            r == route_matches(*route, filter),
    {
        match filter {
            LogisticsRouteFilter::All => true,
            LogisticsRouteFilter::Trade => route.kind == ConvoyRouteKind::Trade,
            LogisticsRouteFilter::Freight => route.kind == ConvoyRouteKind::Freight,
            LogisticsRouteFilter::Military => route.kind == ConvoyRouteKind::MilitarySupply,
            LogisticsRouteFilter::Disrupted => route.disrupted,
            LogisticsRouteFilter::Intercepted => route.intercepted,
            LogisticsRouteFilter::Collapsing => route.intercepted && route.integrity <= 1,
            LogisticsRouteFilter::Protected => route.protected && !route.intercepted && !route.disrupted,
        }
    }

    /// How urgently a route needs attention: ten points per weighted flag, plus the
    /// integrity it has lost.
    pub fn convoy_route_severity_score(route: &ConvoyRouteSummary) -> (r: i32)
        ensures
            r == route_severity(*route),
    {
        let mut score: i32 = 0;
        if route.protected {
            score += 1;
        }
        if route.disrupted {
            score += 3;
        }
        if route.intercepted {
            score += 5;
        }
        if route.integrity <= 1 {
            score += 4;
        }
        score * 10 + (3 - route.integrity as i32)
    }

    /// An operations button: labelled with the count when something is available.
    pub fn player_operations_action_state(label: &str, available_count: usize, action_type: PlayerOperationsActionType) -> (r: PlayerOperationsActionState)
        ensures
            r.label_text@ == label@,
            r.button_text@ == (if available_count > 0 {
                label@ + " ("@ + nat_text(available_count as nat) + ")"@
            } else {
                label@
            }),
            r.available_count == available_count,
            r.enabled == (available_count > 0),
            r.action_type == action_type,
    {
        let button_text = if available_count > 0 {
            let mut s = owned(label);
            push_text(&mut s, " (");
            push_nat(&mut s, available_count as u64);
            push_text(&mut s, ")");
            s
        } else {
            owned(label)
        };
        PlayerOperationsActionState {
            label_text: owned(label),
            button_text,
            available_count,
            enabled: available_count > 0,
            action_type,
        }
    }

    /// The interception pressure that units hostile to `owner` put on the route between
    /// bases `base_a_id` and `base_b_id`.
    pub fn convoy_interception_pressure_for_route(&self, base_a_id: usize, base_b_id: usize, owner: usize) -> (r: i32)
        requires
            self.units@.len() * 2 <= i32::MAX,
        ensures
            r == match (self.base_spec(base_a_id), self.base_spec(base_b_id)) {
                (Some(a), Some(b)) => interception_sum(self.units@, owner, a.x, a.y, b.x, b.y),
                _ => 0,
            },
    {
        let base_a = match self.base(base_a_id) {
            Some(b) => b,
            None => return 0,
        };
        let base_b = match self.base(base_b_id) {
            Some(b) => b,
            None => return 0,
        };
        let mut total: i32 = 0;
        let mut k: usize = 0;
        while k < self.units.len()
            invariant
                k <= self.units@.len(),
                self.units@.len() * 2 <= i32::MAX,
                0 <= total <= 2 * k,
                total == interception_sum(self.units@.take(k as int), owner, base_a.x, base_a.y, base_b.x, base_b.y),
            decreases self.units@.len() - k,
        {
            let u = &self.units[k];
            assert(self.units@.take(k + 1).drop_last() =~= self.units@.take(k as int));
            if u.alive && u.owner != owner {
                let dax: usize = if u.x >= base_a.x { u.x - base_a.x } else { base_a.x - u.x };
                let day: usize = if u.y >= base_a.y { u.y - base_a.y } else { base_a.y - u.y };
                let dbx: usize = if u.x >= base_b.x { u.x - base_b.x } else { base_b.x - u.x };
                let dby: usize = if u.y >= base_b.y { u.y - base_b.y } else { base_b.y - u.y };
                let near = (dax <= 2 && day <= 2 - dax) || (dbx <= 2 && dby <= 2 - dbx);
                if near {
                    let w: i32 = match u.kind {
                        crate::model::UnitKind::RaiderSpeeder | crate::model::UnitKind::MindWorm
                        | crate::model::UnitKind::ResonanceLaser => 2,
                        crate::model::UnitKind::Speeder | crate::model::UnitKind::PsiSentinel
                        | crate::model::UnitKind::TranceScout => 1,
                        crate::model::UnitKind::ScoutPatrol | crate::model::UnitKind::GarrisonGuard => 1,
                        _ => 0,
                    };
                    total = total + w;
                }
            }
            k += 1;
        }
        assert(self.units@.take(self.units@.len() as int) =~= self.units@);
        total
    }

    /// How many routes of `owner` are at most one integrity point from collapse.
    pub fn faction_collapsing_route_count(&self, owner: usize) -> (r: usize)
        ensures
            r == self.convoy_routes@.filter(collapsing_route_of(*self, owner)).len(),
    {
        let ghost p = collapsing_route_of(*self, owner);
        let mut count: usize = 0;
        let mut k: usize = 0;
        while k < self.convoy_routes.len()
            invariant
                k <= self.convoy_routes@.len(),
                p == collapsing_route_of(*self, owner),
                count <= k,
                count == self.convoy_routes@.take(k as int).filter(p).len(),
            decreases self.convoy_routes@.len() - k,
        {
            let route = self.convoy_routes[k];
            proof {
                assert(self.convoy_routes@.take(k + 1) =~= self.convoy_routes@.take(k as int).push(route));
                self.convoy_routes@.take(k as int).lemma_filter_push(route, p);
            }
            let mine = match (self.base(route.base_a_id), self.base(route.base_b_id)) {
                (Some(left), Some(right)) => left.owner == owner && right.owner == owner,
                _ => false,
            };
            if mine && route.integrity <= 1 {
                count += 1;
            }
            k += 1;
        }
        assert(self.convoy_routes@.take(self.convoy_routes@.len() as int) =~= self.convoy_routes@);
        count
    }

    /// The damaged routes of `owner`, as (base, base, kind), in route order.
    pub fn suggested_convoy_repairs(&self, owner: usize) -> (r: Vec<(usize, usize, ConvoyRouteKind)>)
        ensures
            r@ == self.convoy_routes@.filter(damaged_route_of(*self, owner)).map_values(
                |route: ConvoyRoute| (route.base_a_id, route.base_b_id, route.kind),
            ),
    {
        let ghost p = damaged_route_of(*self, owner);
        let mut r: Vec<(usize, usize, ConvoyRouteKind)> = Vec::new();
        let mut k: usize = 0;
        while k < self.convoy_routes.len()
            invariant
                k <= self.convoy_routes@.len(),
                p == damaged_route_of(*self, owner),
                r@ == self.convoy_routes@.take(k as int).filter(p).map_values(
                    |route: ConvoyRoute| (route.base_a_id, route.base_b_id, route.kind),
                ),
            decreases self.convoy_routes@.len() - k,
        {
            let route = self.convoy_routes[k];
            proof {
                assert(self.convoy_routes@.take(k + 1) =~= self.convoy_routes@.take(k as int).push(route));
                self.convoy_routes@.take(k as int).lemma_filter_push(route, p);
            }
            let mine = match (self.base(route.base_a_id), self.base(route.base_b_id)) {
                (Some(left), Some(right)) => left.owner == owner && right.owner == owner,
                _ => false,
            };
            let ghost before = r@;
            if mine && route.integrity < 3 {
                r.push((route.base_a_id, route.base_b_id, route.kind));
            }
            assert(r@ =~= self.convoy_routes@.take(k + 1).filter(p).map_values(
                |route: ConvoyRoute| (route.base_a_id, route.base_b_id, route.kind),
            ));
            k += 1;
        }
        assert(self.convoy_routes@.take(self.convoy_routes@.len() as int) =~= self.convoy_routes@);
        r
    }

    /// Position of the route that `remove_convoy_route_typed` removes.
    pub open spec fn removable_route_index(self, base_a_id: usize, base_b_id: usize, kind: Option<ConvoyRouteKind>) -> Option<int> {
        let (left, right) = if base_a_id < base_b_id { (base_a_id, base_b_id) } else { (base_b_id, base_a_id) };
        first_index(self.convoy_routes@, route_between(left, right, kind))
    }

    /// The route was removed and the removal logged.
    pub open spec fn route_removed(old: GameState, new: GameState, base_a_id: usize, base_b_id: usize, kind: Option<ConvoyRouteKind>) -> bool {
        let i = old.removable_route_index(base_a_id, base_b_id, kind)->0;
        let (left, right) = if base_a_id < base_b_id { (base_a_id, base_b_id) } else { (base_b_id, base_a_id) };
        &&& new.convoy_routes@ == old.convoy_routes@.remove(i)
        &&& logged_as(
            old.log@,
            new.log@,
            EventCategory::General,
            "Removed "@ + presentation::convoy_route_kind_label_text(old.convoy_routes@[i].kind)
                + " convoy route between "@ + base_label(old, left) + " and "@ + base_label(old, right)
                + "."@,
            old.turn,
        )
        &&& new == (GameState { convoy_routes: new.convoy_routes, log: new.log, ..old })
    }

    /// Removes the first route between the two bases (stored lower id first), of `kind` if
    /// one is given.
    pub fn remove_convoy_route_typed(&mut self, base_a_id: usize, base_b_id: usize, kind: Option<ConvoyRouteKind>) -> (r: Result<(), String>)
        ensures
            old(self).removable_route_index(base_a_id, base_b_id, kind) is None ==> (r matches Err(e)
                && e@ == "Convoy route not found."@ && *final(self) == *old(self)),
            old(self).removable_route_index(base_a_id, base_b_id, kind) is Some ==> (r is Ok
                && GameState::route_removed(*old(self), *final(self), base_a_id, base_b_id, kind)),
    {
        let (left, right) = if base_a_id < base_b_id { (base_a_id, base_b_id) } else { (base_b_id, base_a_id) };
        let index = match find_route(&self.convoy_routes, left, right, kind) {
            Some(i) => i,
            None => return Err(owned("Convoy route not found.")),
        };
        proof {
            assert(is_first(self.convoy_routes@, route_between(left, right, kind), index as int)) by {
                let k = choose|k: int| is_first(self.convoy_routes@, route_between(left, right, kind), k);
            }
        }
        let left_name = base_label_of(self, left);
        let right_name = base_label_of(self, right);
        let removed = self.convoy_routes.remove(index);
        let mut message = owned("Removed ");
        push_text(&mut message, presentation::convoy_route_kind_label(removed.kind));
        push_text(&mut message, " convoy route between ");
        push_text(&mut message, left_name.as_str());
        push_text(&mut message, " and ");
        push_text(&mut message, right_name.as_str());
        push_text(&mut message, ".");
        log_event(self, EventCategory::General, message);
        Ok(())
    }

    /// Removes any route between the two bases.
    pub fn remove_convoy_route(&mut self, base_a_id: usize, base_b_id: usize) -> (r: Result<(), String>)
        ensures
            old(self).removable_route_index(base_a_id, base_b_id, None) is None ==> (r matches Err(e)
                && e@ == "Convoy route not found."@ && *final(self) == *old(self)),
            old(self).removable_route_index(base_a_id, base_b_id, None) is Some ==> (r is Ok
                && GameState::route_removed(*old(self), *final(self), base_a_id, base_b_id, None)),
    {
        self.remove_convoy_route_typed(base_a_id, base_b_id, None)
    }

    /// Removes a route, logging why when it cannot; returns whether it did.
    pub fn remove_convoy_route_action(&mut self, base_a_id: usize, base_b_id: usize, kind: Option<ConvoyRouteKind>) -> (r: bool)
        ensures
            r == old(self).removable_route_index(base_a_id, base_b_id, kind) is Some,
            r ==> GameState::route_removed(*old(self), *final(self), base_a_id, base_b_id, kind),
            !r ==> logged_as(
                old(self).log@,
                final(self).log@,
                EventCategory::General,
                "Remove convoy route failed: "@ + "Convoy route not found."@,
                old(self).turn,
            ) && *final(self) == (GameState { log: final(self).log, ..*old(self) }),
    {
        match self.remove_convoy_route_typed(base_a_id, base_b_id, kind) {
            Ok(()) => true,
            Err(err) => {
                let mut message = owned("Remove convoy route failed: ");
                push_text(&mut message, err.as_str());
                log_event(self, EventCategory::General, message);
                false
            },
        }
    }

    /// Position of the route that `repair_convoy_route_typed` repairs: the first stored in
    /// the given direction, else the first stored the other way.
    pub open spec fn repairable_route_index(self, base_a_id: usize, base_b_id: usize, kind: ConvoyRouteKind) -> Option<int> {
        match first_index(self.convoy_routes@, route_between(base_a_id, base_b_id, Some(kind))) {
            Some(i) => Some(i),
            None => first_index(self.convoy_routes@, route_between(base_b_id, base_a_id, Some(kind))),
        }
    }

    /// Why `repair_convoy_route_typed` is refused, if it is.
    pub open spec fn repair_refusal(self, base_a_id: usize, base_b_id: usize, kind: ConvoyRouteKind) -> Option<Seq<char>> {
        match self.repairable_route_index(base_a_id, base_b_id, kind) {
            None => Some("Convoy route not found."@),
            Some(i) => {
                let route = self.convoy_routes@[i];
                match self.base_spec(route.base_a_id) {
                    None => Some("Source base not found."@),
                    Some(source) => if route.integrity >= 3 {
                        Some("Convoy route is already at full integrity."@)
                    } else if source.owner >= self.factions@.len() {
                        Some("Faction not found."@)
                    } else if self.factions@[source.owner as int].energy < 2 {
                        Some("Not enough energy to repair convoy route."@)
                    } else {
                        None
                    },
                }
            },
        }
    }

    /// The route gained one integrity point, its owner paid two energy, and the repair
    /// was logged.
    pub open spec fn route_repaired(old: GameState, new: GameState, base_a_id: usize, base_b_id: usize, kind: ConvoyRouteKind) -> bool {
        let i = old.repairable_route_index(base_a_id, base_b_id, kind)->0;
        let route = old.convoy_routes@[i];
        let owner = old.base_spec(route.base_a_id)->0.owner;
        let f = old.factions@[owner as int];
        let integrity = (route.integrity + 1) as u8;
        &&& new.convoy_routes@ == old.convoy_routes@.update(i, ConvoyRoute { integrity, ..route })
        &&& new.factions@ == old.factions@.update(owner as int, Faction { energy: (f.energy - 2) as i32, ..f })
        &&& logged_as(
            old.log@,
            new.log@,
            EventCategory::General,
            "Repaired "@ + presentation::convoy_route_kind_label_text(kind) + " convoy route between "@
                + base_label(old, route.base_a_id) + " and "@ + base_label(old, route.base_b_id)
                + " (integrity "@ + nat_text(integrity as nat) + "/3)."@,
            old.turn,
        )
        &&& new == (GameState {
            convoy_routes: new.convoy_routes,
            factions: new.factions,
            log: new.log,
            ..old
        })
    }

    /// Repairs the route between the two bases of `kind` by one integrity point for two
    /// energy of the owner of its first base.
    pub fn repair_convoy_route_typed(&mut self, base_a_id: usize, base_b_id: usize, kind: ConvoyRouteKind) -> (r: Result<(), String>)
        ensures
            match old(self).repair_refusal(base_a_id, base_b_id, kind) {
                Some(reason) => r matches Err(e) && e@ == reason && *final(self) == *old(self),
                None => r is Ok && GameState::route_repaired(*old(self), *final(self), base_a_id, base_b_id, kind),
            },
    {
        let route_index = match find_route(&self.convoy_routes, base_a_id, base_b_id, Some(kind)) {
            Some(i) => i,
            None => match find_route(&self.convoy_routes, base_b_id, base_a_id, Some(kind)) {
                Some(i) => i,
                None => return Err(owned("Convoy route not found.")),
            },
        };
        let owner = match self.base(self.convoy_routes[route_index].base_a_id) {
            Some(b) => b.owner,
            None => return Err(owned("Source base not found.")),
        };
        if self.convoy_routes[route_index].integrity >= 3 {
            return Err(owned("Convoy route is already at full integrity."));
        }
        if owner >= self.factions.len() {
            return Err(owned("Faction not found."));
        }
        if self.factions[owner].energy < 2 {
            return Err(owned("Not enough energy to repair convoy route."));
        }
        let ghost before = *self;
        self.factions[owner].energy = self.factions[owner].energy - 2;
        let integrity = self.convoy_routes[route_index].integrity + 1;
        self.convoy_routes[route_index].integrity = integrity;
        assert(self.factions@ =~= old(self).factions@.update(
            owner as int,
            Faction { energy: (old(self).factions@[owner as int].energy - 2) as i32, ..old(self).factions@[owner as int] },
        ));
        assert(self.convoy_routes@ =~= old(self).convoy_routes@.update(
            route_index as int,
            ConvoyRoute { integrity, ..old(self).convoy_routes@[route_index as int] },
        ));
        let left_name = base_label_of(self, self.convoy_routes[route_index].base_a_id);
        let right_name = base_label_of(self, self.convoy_routes[route_index].base_b_id);
        let mut message = owned("Repaired ");
        push_text(&mut message, presentation::convoy_route_kind_label(kind));
        push_text(&mut message, " convoy route between ");
        push_text(&mut message, left_name.as_str());
        push_text(&mut message, " and ");
        push_text(&mut message, right_name.as_str());
        push_text(&mut message, " (integrity ");
        push_nat(&mut message, integrity as u64);
        push_text(&mut message, "/3).");
        log_event(self, EventCategory::General, message);
        Ok(())
    }

    /// Repairs a route, logging why when it cannot; returns whether it did.
    pub fn repair_convoy_route_action(&mut self, base_a_id: usize, base_b_id: usize, kind: ConvoyRouteKind) -> (r: bool)
        ensures
            r == old(self).repair_refusal(base_a_id, base_b_id, kind) is None,
            r ==> GameState::route_repaired(*old(self), *final(self), base_a_id, base_b_id, kind),
            !r ==> logged_as(
                old(self).log@,
                final(self).log@,
                EventCategory::General,
                "Repair convoy route failed: "@ + old(self).repair_refusal(base_a_id, base_b_id, kind)->0,
                old(self).turn,
            ) && *final(self) == (GameState { log: final(self).log, ..*old(self) }),
    {
        match self.repair_convoy_route_typed(base_a_id, base_b_id, kind) {
            Ok(()) => true,
            Err(err) => {
                let mut message = owned("Repair convoy route failed: ");
                push_text(&mut message, err.as_str());
                log_event(self, EventCategory::General, message);
                false
            },
        }
    }
}

/// One attempted repair: `t` is `s` repaired when the repair is allowed, else `s` itself.
pub open spec fn repair_step(s: GameState, t: GameState, job: (usize, usize, ConvoyRouteKind)) -> bool {
    match s.repair_refusal(job.0, job.1, job.2) {
        Some(_) => t == s,
        None => GameState::route_repaired(s, t, job.0, job.1, job.2),
    }
}

/// `states` runs through the repairs of `jobs` one after another.
pub open spec fn repairs_applied(states: Seq<GameState>, jobs: Seq<(usize, usize, ConvoyRouteKind)>) -> bool {
    &&& states.len() == jobs.len() + 1
    &&& forall|i: int| 0 <= i < jobs.len() ==> #[trigger] repair_step(states[i], states[i + 1], jobs[i])
}

/// How many of the first `n` repairs of `jobs` were carried out along `states`.
pub open spec fn repairs_done(states: Seq<GameState>, jobs: Seq<(usize, usize, ConvoyRouteKind)>, n: int) -> int
    decreases n,
{
    if n <= 0 {
        0
    } else {
        repairs_done(states, jobs, n - 1) + if states[n - 1].repair_refusal(jobs[n - 1].0, jobs[n - 1].1, jobs[n - 1].2) is None {
            1int
        } else {
            0
        }
    }
}

/// The repair jobs of a filtered list: the routes not yet at full integrity.
pub open spec fn filtered_jobs(repairs: Seq<(usize, usize, ConvoyRouteKind, i32)>) -> Seq<(usize, usize, ConvoyRouteKind)> {
    repairs.filter(|j: (usize, usize, ConvoyRouteKind, i32)| j.3 < 3).map_values(
        |j: (usize, usize, ConvoyRouteKind, i32)| (j.0, j.1, j.2),
    )
}

impl GameState {
    /// Carries out `jobs` in order from the current state, recording each state passed.
    fn run_repairs(&mut self, jobs: &Vec<(usize, usize, ConvoyRouteKind)>) -> (r: (usize, Ghost<Seq<GameState>>))
        ensures
            repairs_applied(r.1@, jobs@),
            r.1@[0] == *old(self),
            r.1@.last() == *final(self),
            r.0 == repairs_done(r.1@, jobs@, jobs@.len() as int),
    {
        let ghost mut states: Seq<GameState> = seq![*self];
        let mut repaired: usize = 0;
        let mut k: usize = 0;
        while k < jobs.len()
            invariant
                k <= jobs@.len(),
                states.len() == k + 1,
                states[0] == *old(self),
                states.last() == *self,
                forall|i: int| 0 <= i < k ==> #[trigger] repair_step(states[i], states[i + 1], jobs@[i]),
                repaired <= k,
                repaired == repairs_done(states, jobs@, k as int),
            decreases jobs@.len() - k,
        {
            let (a, b, kind) = jobs[k];
            let ghost before = *self;
            let ok = self.repair_convoy_route_typed(a, b, kind).is_ok();
            proof {
                let old_states = states;
                states = states.push(*self);
                assert(repair_step(states[k as int], states[k + 1], jobs@[k as int]));
                assert forall|i: int| 0 <= i < k + 1 implies #[trigger] repair_step(states[i], states[i + 1], jobs@[i]) by {
                    if i < k {
                        assert(states[i] == old_states[i]);
                        assert(states[i + 1] == old_states[i + 1]);
                    }
                }
                assert forall|n: int| 0 <= n <= k implies repairs_done(states, jobs@, n) == repairs_done(old_states, jobs@, n) by {
                    lemma_repairs_done_prefix(old_states, states, jobs@, n);
                }
            }
            if ok {
                repaired += 1;
            }
            k += 1;
        }
        (repaired, Ghost(states))
    }

    /// Repairs every damaged route of `owner` it can afford, logging the outcome; returns
    /// how many routes it repaired.
    pub fn apply_convoy_repairs_all(&mut self, owner: usize) -> (r: usize)
        ensures
            old(self).convoy_routes@.filter(damaged_route_of(*old(self), owner)).len() == 0 ==> {
                &&& r == 0
                &&& logged_as(
                    old(self).log@,
                    final(self).log@,
                    EventCategory::General,
                    "No damaged convoy routes currently need repairs."@,
                    old(self).turn,
                )
                &&& *final(self) == (GameState { log: final(self).log, ..*old(self) })
            },
            old(self).convoy_routes@.filter(damaged_route_of(*old(self), owner)).len() > 0 ==> {
                let jobs = old(self).convoy_routes@.filter(damaged_route_of(*old(self), owner)).map_values(
                    |route: ConvoyRoute| (route.base_a_id, route.base_b_id, route.kind),
                );
                exists|states: Seq<GameState>|
                    #[trigger] repairs_applied(states, jobs) && states[0] == *old(self) && r
                        == repairs_done(states, jobs, jobs.len() as int) && logged_as(
                        states.last().log@,
                        final(self).log@,
                        EventCategory::General,
                        "Operations repaired "@ + nat_text(r as nat) + " convoy route(s)."@,
                        states.last().turn,
                    ) && *final(self) == (GameState { log: final(self).log, ..states.last() })
            },
    {
        let repairs = self.suggested_convoy_repairs(owner);
        if repairs.len() == 0 {
            log_event(self, EventCategory::General, owned("No damaged convoy routes currently need repairs."));
            return 0;
        }
        let (repaired, Ghost(states)) = self.run_repairs(&repairs);
        let mut message = owned("Operations repaired ");
        push_nat(&mut message, repaired as u64);
        push_text(&mut message, " convoy route(s).");
        log_event(self, EventCategory::General, message);
        assert(repairs_applied(states, repairs@));
        repaired
    }

    /// Repairs each listed route not yet at full integrity, logging the outcome; returns how
    /// many routes it repaired.
    pub fn apply_filtered_convoy_repairs(&mut self, repairs: Vec<(usize, usize, ConvoyRouteKind, i32)>) -> (r: usize)
        ensures
            exists|states: Seq<GameState>|
                #[trigger] repairs_applied(states, filtered_jobs(repairs@)) && states[0] == *old(self) && r
                    == repairs_done(states, filtered_jobs(repairs@), filtered_jobs(repairs@).len() as int)
                    && logged_as(
                    states.last().log@,
                    final(self).log@,
                    EventCategory::General,
                    if r == 0 {
                        "No filtered convoy routes were eligible for repair."@
                    } else {
                        "Operations repaired "@ + nat_text(r as nat) + " filtered convoy route(s)."@
                    },
                    states.last().turn,
                ) && *final(self) == (GameState { log: final(self).log, ..states.last() }),
    {
        let ghost keep = |j: (usize, usize, ConvoyRouteKind, i32)| j.3 < 3;
        let mut jobs: Vec<(usize, usize, ConvoyRouteKind)> = Vec::new();
        let mut k: usize = 0;
        while k < repairs.len()
            invariant
                k <= repairs@.len(),
                keep == (|j: (usize, usize, ConvoyRouteKind, i32)| j.3 < 3),
                jobs@ == repairs@.take(k as int).filter(keep).map_values(
                    |j: (usize, usize, ConvoyRouteKind, i32)| (j.0, j.1, j.2),
                ),
            decreases repairs@.len() - k,
        {
            let job = repairs[k];
            proof {
                assert(repairs@.take(k + 1) =~= repairs@.take(k as int).push(job));
                repairs@.take(k as int).lemma_filter_push(job, keep);
            }
            if job.3 < 3 {
                jobs.push((job.0, job.1, job.2));
            }
            assert(jobs@ =~= repairs@.take(k + 1).filter(keep).map_values(
                |j: (usize, usize, ConvoyRouteKind, i32)| (j.0, j.1, j.2),
            ));
            k += 1;
        }
        assert(repairs@.take(repairs@.len() as int) =~= repairs@);
        assert(jobs@ == filtered_jobs(repairs@));
        let (repaired, Ghost(states)) = self.run_repairs(&jobs);
        if repaired == 0 {
            log_event(self, EventCategory::General, owned("No filtered convoy routes were eligible for repair."));
        } else {
            let mut message = owned("Operations repaired ");
            push_nat(&mut message, repaired as u64);
            push_text(&mut message, " filtered convoy route(s).");
            log_event(self, EventCategory::General, message);
        }
        assert(repairs_applied(states, filtered_jobs(repairs@)));
        repaired
    }
}

/// Counting the first `n` repairs only reads the first `n + 1` states.
proof fn lemma_repairs_done_prefix(a: Seq<GameState>, b: Seq<GameState>, jobs: Seq<(usize, usize, ConvoyRouteKind)>, n: int)
    requires
        0 <= n,
        n < a.len(),
        n < b.len(),
        forall|i: int| 0 <= i < a.len() ==> a[i] == b[i],
    ensures
        repairs_done(a, jobs, n) == repairs_done(b, jobs, n),
    decreases n,
{
    if n > 0 {
        lemma_repairs_done_prefix(a, b, jobs, n - 1);
    }
}

/// `u`'s distance to the nearer end of a route between `a` and `b`.
pub open spec fn route_end_distance(u: Unit, ax: usize, ay: usize, bx: usize, by: usize) -> int {
    let da = manhattan(u.x, u.y, ax, ay);
    let db = manhattan(u.x, u.y, bx, by);
    if da < db { da } else { db }
}

/// Matches `owner`'s live escort speeders within two steps of either end of a route.
pub open spec fn route_escort(owner: usize, ax: usize, ay: usize, bx: usize, by: usize) -> spec_fn(Unit) -> bool {
    |u: Unit| u.alive && u.owner == owner && u.kind is EscortSpeeder && route_end_distance(u, ax, ay, bx, by) <= 2
}

/// `i` is the first of the escorts nearest to the route.
pub open spec fn is_first_nearest_escort(units: Seq<Unit>, owner: usize, ax: usize, ay: usize, bx: usize, by: usize, i: int) -> bool {
    let p = route_escort(owner, ax, ay, bx, by);
    &&& 0 <= i < units.len()
    &&& p(units[i])
    &&& forall|j: int| 0 <= j < units.len() && p(#[trigger] units[j]) ==> route_end_distance(units[i], ax, ay, bx, by)
        <= route_end_distance(units[j], ax, ay, bx, by)
    &&& forall|j: int| 0 <= j < i && p(#[trigger] units[j]) ==> route_end_distance(units[i], ax, ay, bx, by)
        < route_end_distance(units[j], ax, ay, bx, by)
}

/// `hp - 2`, stopping at `i32::MIN`.
pub open spec fn hp_after_sabotage(hp: i32) -> i32 {
    if hp - 2 < i32::MIN { i32::MIN } else { (hp - 2) as i32 }
}

impl GameState {
    /// The escort of `owner` that sabotage on the route between bases `base_a_id` and
    /// `base_b_id` hits, by position among the units: the first nearest escort.
    pub open spec fn sabotaged_escort(self, base_a_id: usize, base_b_id: usize, owner: usize) -> Option<int> {
        match (self.base_spec(base_a_id), self.base_spec(base_b_id)) {
            (Some(a), Some(b)) => if exists|i: int| is_first_nearest_escort(self.units@, owner, a.x, a.y, b.x, b.y, i) {
                Some(choose|i: int| is_first_nearest_escort(self.units@, owner, a.x, a.y, b.x, b.y, i))
            } else {
                None
            },
            _ => None,
        }
    }

    /// Route sabotage hurts the nearest escort speeder of `owner` screening the route
    /// between bases `base_a_id` and `base_b_id` by two hit points, destroying it at zero;
    /// returns whether an escort was hit.
    pub fn damage_route_escort_skirmisher(&mut self, base_a_id: usize, base_b_id: usize, owner: usize) -> (r: bool)
        requires
            match (old(self).base_spec(base_a_id), old(self).base_spec(base_b_id)) {
                (Some(a), Some(b)) => forall|j: int|
                    0 <= j < old(self).units@.len() ==> manhattan(
                        #[trigger] old(self).units@[j].x,
                        old(self).units@[j].y,
                        a.x,
                        a.y,
                    ) <= usize::MAX && manhattan(old(self).units@[j].x, old(self).units@[j].y, b.x, b.y)
                        <= usize::MAX,
                _ => true,
            },
            old(self).sabotaged_escort(base_a_id, base_b_id, owner) matches Some(i) ==> {
                let k = old(self).unit_index_spec(old(self).units@[i].id)->0;
                let u = old(self).units@[k];
                hp_after_sabotage(u.hp) == 0 ==> tile_index_of_unit(*old(self), u) < old(self).tiles@.len()
            },
        ensures
            r == old(self).sabotaged_escort(base_a_id, base_b_id, owner) is Some,
            !r ==> *final(self) == *old(self),
            r ==> {
                let i = old(self).sabotaged_escort(base_a_id, base_b_id, owner)->0;
                let uid = old(self).units@[i].id;
                let k = old(self).unit_index_spec(uid)->0;
                let u = old(self).units@[k];
                let hp = hp_after_sabotage(u.hp);
                let name = if owner < old(self).factions@.len() { old(self).factions@[owner as int].name@ } else { "Faction"@ };
                let ti = tile_index_of_unit(*old(self), u);
                &&& final(self).units@ == old(self).units@.update(k, Unit { hp, alive: u.alive && hp != 0, ..u })
                &&& final(self).tiles@ == if hp == 0 && old(self).tiles@[ti].unit == Some(uid) {
                    old(self).tiles@.update(ti, crate::model::Tile { unit: None, ..old(self).tiles@[ti] })
                } else {
                    old(self).tiles@
                }
                &&& logged_as(
                    old(self).log@,
                    final(self).log@,
                    EventCategory::General,
                    if hp == 0 {
                        name + " lost an Escort Speeder while screening a convoy route."@
                    } else {
                        name + " Escort Speeder took sabotage damage while screening a convoy route."@
                    },
                    old(self).turn,
                )
                &&& *final(self) == (GameState {
                    units: final(self).units,
                    tiles: final(self).tiles,
                    log: final(self).log,
                    ..*old(self)
                })
            },
    {
        let (ax, ay) = match self.base(base_a_id) {
            Some(b) => (b.x, b.y),
            None => return false,
        };
        let (bx, by) = match self.base(base_b_id) {
            Some(b) => (b.x, b.y),
            None => return false,
        };
        let mut best: Option<(usize, usize)> = None;
        let mut j: usize = 0;
        while j < self.units.len()
            invariant
                j <= self.units@.len(),
                *self == *old(self),
                old(self).base_spec(base_a_id) matches Some(a) && a.x == ax && a.y == ay,
                old(self).base_spec(base_b_id) matches Some(b) && b.x == bx && b.y == by,
                forall|m: int|
                    0 <= m < self.units@.len() ==> manhattan(#[trigger] self.units@[m].x, self.units@[m].y, ax, ay)
                        <= usize::MAX && manhattan(self.units@[m].x, self.units@[m].y, bx, by) <= usize::MAX,
                match best {
                    None => forall|m: int| 0 <= m < j ==> !route_escort(owner, ax, ay, bx, by)(#[trigger] self.units@[m]),
                    Some((bi, bd)) => {
                        &&& bi < j
                        &&& bd == route_end_distance(self.units@[bi as int], ax, ay, bx, by)
                        &&& route_escort(owner, ax, ay, bx, by)(self.units@[bi as int])
                        &&& forall|m: int| 0 <= m < j && route_escort(owner, ax, ay, bx, by)(#[trigger] self.units@[m])
                            ==> bd <= route_end_distance(self.units@[m], ax, ay, bx, by)
                        &&& forall|m: int| 0 <= m < bi && route_escort(owner, ax, ay, bx, by)(#[trigger] self.units@[m])
                            ==> bd < route_end_distance(self.units@[m], ax, ay, bx, by)
                    },
                },
            decreases self.units@.len() - j,
        {
            let u = &self.units[j];
            if u.alive && u.owner == owner && matches!(u.kind, crate::model::UnitKind::EscortSpeeder) {
                let dax: usize = if u.x >= ax { u.x - ax } else { ax - u.x };
                let day: usize = if u.y >= ay { u.y - ay } else { ay - u.y };
                let dbx: usize = if u.x >= bx { u.x - bx } else { bx - u.x };
                let dby: usize = if u.y >= by { u.y - by } else { by - u.y };
                assert(manhattan(u.x, u.y, ax, ay) <= usize::MAX);
                assert(manhattan(u.x, u.y, bx, by) <= usize::MAX);
                let da = dax + day;
                let db = dbx + dby;
                let d = if da < db { da } else { db };
                if d <= 2 {
                    match best {
                        None => {
                            best = Some((j, d));
                        },
                        Some((_, bd)) => {
                            if d < bd {
                                best = Some((j, d));
                            }
                        },
                    }
                }
            }
            j += 1;
        }
        let target = match best {
            Some((bi, _)) => bi,
            None => {
                proof {
                    if exists|i: int| is_first_nearest_escort(self.units@, owner, ax, ay, bx, by, i) {
                        let i = choose|i: int| is_first_nearest_escort(self.units@, owner, ax, ay, bx, by, i);
                        assert(route_escort(owner, ax, ay, bx, by)(self.units@[i]));
                    }
                }
                return false;
            },
        };
        proof {
            assert(is_first_nearest_escort(self.units@, owner, ax, ay, bx, by, target as int));
            let c = choose|i: int| is_first_nearest_escort(self.units@, owner, ax, ay, bx, by, i);
            assert(is_first_nearest_escort(self.units@, owner, ax, ay, bx, by, c));
            if c < target {
                assert(route_escort(owner, ax, ay, bx, by)(self.units@[c]));
            } else if target < c {
                assert(route_escort(owner, ax, ay, bx, by)(self.units@[target as int]));
            }
        }
        let unit_id = self.units[target].id;
        proof {
            assert(crate::game_state::access::unit_with_id(unit_id)(self.units@[target as int]));
        }
        let k = match self.unit_index(unit_id) {
            Some(k) => k,
            None => return false,
        };
        let old_hp = self.units[k].hp;
        let hp: i32 = if old_hp < i32::MIN + 2 { i32::MIN } else { old_hp - 2 };
        self.units[k].hp = hp;
        if hp == 0 {
            self.units[k].alive = false;
        }
        assert(self.units@ =~= old(self).units@.update(
            k as int,
            Unit { hp, alive: old(self).units@[k as int].alive && hp != 0, ..old(self).units@[k as int] },
        ));
        let mut message = owned(self.faction_name(owner));
        if hp == 0 {
            let x = self.units[k].x;
            let y = self.units[k].y;
            assert(self.tiles@.len() == self.tiles.len());
            let ti = self.tile_index(x, y);
            if self.tiles[ti].unit == Some(unit_id) {
                self.tiles[ti].unit = None;
                assert(self.tiles@ =~= old(self).tiles@.update(
                    ti as int,
                    crate::model::Tile { unit: None, ..old(self).tiles@[ti as int] },
                ));
            }
            push_text(&mut message, " lost an Escort Speeder while screening a convoy route.");
        } else {
            push_text(&mut message, " Escort Speeder took sabotage damage while screening a convoy route.");
        }
        log_event(self, EventCategory::General, message);
        true
    }
}

/// The tile index of `u`'s position.
pub open spec fn tile_index_of_unit(state: GameState, u: Unit) -> int {
    crate::game_state::access::tile_index_of(state.width, u.x, u.y)
}

} // verus!
