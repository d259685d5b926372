//! Per-base questions and small per-base edits.
use crate::content;
use crate::game_state::access::manhattan;
use crate::game_state::queue::{
    base_same_but_production, changed_base_and_logged, only_logged, logged,
};
use crate::model::{
    social_shift, social_shifts_fit, AttributeKind, Base, ConvoyRouteKind, DiplomacyStatus,
    Facility, GameState, GovernorMode, ProductionItem,
};
use crate::presentation;
use crate::text::{owned, push_text};
use vstd::prelude::*;

verus! {

/// Matches the bases of `owner` run in governor `mode`.
pub open spec fn base_in_mode(owner: usize, mode: GovernorMode) -> spec_fn(Base) -> bool {
    |b: Base| b.owner == owner && b.governor_mode == mode
}

/// Matches the other bases of `b`'s owner within eight steps of `b`.
pub open spec fn trade_partner_of(b: Base) -> spec_fn(Base) -> bool {
    |o: Base| o.id != b.id && o.owner == b.owner && manhattan(o.x, o.y, b.x, b.y) <= 8
}

/// `b` differs from `a` at most in its governor mode.
pub open spec fn base_same_but_governor(a: Base, b: Base) -> bool {
    &&& a.id == b.id
    &&& a.owner == b.owner
    &&& a.name == b.name
    &&& a.x == b.x
    &&& a.y == b.y
    &&& a.population == b.population
    &&& a.nutrients_stock == b.nutrients_stock
    &&& a.minerals_stock == b.minerals_stock
    &&& a.production == b.production
    &&& a.production_queue == b.production_queue
    &&& a.facilities == b.facilities
}

/// A base's governor reads back as last set: once `set_base_governor_mode_action` has
/// run on an existing base, whether it changed the base or found it already in `mode`,
/// `governor_mode_for_base` gives `mode`.
pub proof fn law_governor_reads_back(s0: GameState, s1: GameState, base_id: usize, mode: GovernorMode)
    requires
        s0.base_spec(base_id) is Some,
        (s0.base_spec(base_id) matches Some(b) && b.governor_mode == mode) ==> s1 == s0,
        (s0.base_spec(base_id) matches Some(b) && b.governor_mode != mode) ==> {
            let i = s0.base_index_spec(base_id)->0;
            &&& 0 <= i < s0.bases@.len()
            &&& s1.bases@ == s0.bases@.update(i, s1.bases@[i])
            &&& base_same_but_governor(s0.bases@[i], s1.bases@[i])
            &&& s1.bases@[i].governor_mode == mode
        },
    ensures
        s1.base_spec(base_id) matches Some(b) && b.governor_mode == mode,
{
    let p = crate::game_state::access::base_with_id(base_id);
    let i = crate::seqs::lemma_first_match_index(s0.bases@, p);
    crate::seqs::lemma_first_index_at(s0.bases@, p, i);
    if s0.bases@[i].governor_mode != mode {
        assert forall|j: int| 0 <= j < s0.bases@.len() implies #[trigger] p(s0.bases@[j]) == p(s1.bases@[j]) by {}
        crate::seqs::lemma_first_index_agree(s0.bases@, s1.bases@, p);
        crate::seqs::lemma_first_index_some(s1.bases@, p);
    }
}

/// The monthly energy upkeep of a convoy route of `kind`.
pub open spec fn route_upkeep(kind: ConvoyRouteKind) -> i32 {
    match kind {
        ConvoyRouteKind::Trade => 1,
        ConvoyRouteKind::Freight => 2,
        ConvoyRouteKind::MilitarySupply => 2,
    }
}

/// Whether `v` lists `f`.
pub(crate) fn facilities_contain(v: &Vec<Facility>, f: Facility) -> (r: bool)
    ensures
        r == v@.contains(f),
{
    let mut i: usize = 0;
    while i < v.len()
        invariant
            i <= v@.len(),
            forall|j: int| 0 <= j < i ==> v@[j] != f,
        decreases v@.len() - i,
    {
        if v[i] == f {
            assert(v@[i as int] == f);
            return true;
        }
        i += 1;
    }
    false
}

/// Logs a general message.
fn log_message(state: &mut GameState, message: String)
    ensures
        logged(old(state).log@, final(state).log@, message@, old(state).turn),
        *final(state) == (GameState { log: final(state).log, ..*old(state) }),
{
    let ghost m = message;
    state.push_log(message);
}

impl GameState {
    /// How many bases of `owner` run governor `mode`.
    pub open spec fn mode_count(self, owner: usize, mode: GovernorMode) -> nat {
        self.bases@.filter(base_in_mode(owner, mode)).len()
    }

    /// How many bases the faction `owner` may hold before expansion gets costly.
    pub open spec fn base_expansion_limit_spec(self, owner: usize) -> int {
        if owner >= self.factions@.len() {
            8
        } else {
            let f = self.factions@[owner as int];
            let factor0: int = ((self.width * self.height) as i32) as int / 128;
            let factor: int = if factor0 < 1 { 1 } else { factor0 };
            let eff: int = f.base_attributes.efficiency + social_shift(
                f.social_engineering,
                AttributeKind::Efficiency,
            );
            let limit = 4 + factor + eff * 2;
            if limit < 2 { 2 } else { limit }
        }
    }

    /// The faction's attributes can be computed and its expansion limit fits in `i32`.
    pub open spec fn expansion_limit_fits(self, owner: usize) -> bool {
        let f = self.factions@[owner as int];
        let factor0: int = ((self.width * self.height) as i32) as int / 128;
        let factor: int = if factor0 < 1 { 1 } else { factor0 };
        let eff: int = f.base_attributes.efficiency + social_shift(
            f.social_engineering,
            AttributeKind::Efficiency,
        );
        &&& social_shifts_fit(f.base_attributes, f.social_engineering)
        &&& i32::MIN <= 2 * eff <= i32::MAX
        &&& i32::MIN <= 4 + factor + 2 * eff <= i32::MAX
    }

    /// The governor mode of base `base_id`; off when there is no such base.
    pub fn governor_mode_for_base(&self, base_id: usize) -> (r: GovernorMode)
        ensures
            r == match self.base_spec(base_id) {
                Some(b) => b.governor_mode,
                None => GovernorMode::Off,
            },
    {
        match self.base(base_id) {
            Some(base) => base.governor_mode,
            None => GovernorMode::Off,
        }
    }

    /// Sets the governor of base `base_id` to `mode`; returns whether anything changed.
    /// A missing base is logged; a base already in `mode` is left alone.
    pub fn set_base_governor_mode_action(&mut self, base_id: usize, mode: GovernorMode) -> (r: bool)
        ensures
            r == (old(self).base_spec(base_id) matches Some(b) && b.governor_mode != mode),
            old(self).base_index_spec(base_id) is None ==> only_logged(
                *old(self),
                *final(self),
                "Governor change failed: base not found."@,
            ),
            (old(self).base_spec(base_id) matches Some(b) && b.governor_mode == mode) ==> *final(self)
                == *old(self),
            r ==> {
                let i = old(self).base_index_spec(base_id)->0;
                let b = old(self).bases@[i];
                &&& changed_base_and_logged(
                    *old(self),
                    *final(self),
                    i,
                    b.name@ + " governor set to "@ + presentation::governor_mode_label_text(mode)
                        + "."@,
                )
                &&& base_same_but_governor(b, final(self).bases@[i])
                &&& final(self).bases@[i].governor_mode == mode
            },
    {
        let i = match self.base_index(base_id) {
            Some(i) => i,
            None => {
                log_message(self, owned("Governor change failed: base not found."));
                return false;
            },
        };
        if self.bases[i].governor_mode == mode {
            return false;
        }
        self.bases[i].governor_mode = mode;
        let mut message = owned(self.bases[i].name.as_str());
        push_text(&mut message, " governor set to ");
        push_text(&mut message, presentation::governor_mode_label(mode));
        push_text(&mut message, ".");
        assert(self.bases@ =~= old(self).bases@.update(i as int, self.bases@[i as int]));
        log_message(self, message);
        true
    }

    /// Starts building the head of base `base_id`'s queue, if it has one.
    pub fn advance_base_queue(&mut self, base_id: usize)
        ensures
            match old(self).base_index_spec(base_id) {
                Some(i) => {
                    let b = old(self).bases@[i];
                    if b.production_queue@.len() > 0 {
                        &&& final(self).bases@ == old(self).bases@.update(i, final(self).bases@[i])
                        &&& base_same_but_production(b, final(self).bases@[i])
                        &&& final(self).bases@[i].production == b.production_queue@[0]
                        &&& final(self).bases@[i].production_queue@ == b.production_queue@.drop_first()
                        &&& final(self).bases@[i].minerals_stock == b.minerals_stock
                        &&& *final(self) == (GameState { bases: final(self).bases, ..*old(self) })
                    } else {
                        *final(self) == *old(self)
                    }
                },
                None => *final(self) == *old(self),
            },
    {
        let i = match self.base_index(base_id) {
            Some(i) => i,
            None => return ,
        };
        if self.bases[i].production_queue.len() > 0 {
            let next = self.bases[i].production_queue.remove(0);
            self.bases[i].production = next;
            assert(self.bases@[i as int].production_queue@ =~= old(self).bases@[i as int].production_queue@.drop_first());
            assert(self.bases@ =~= old(self).bases@.update(i as int, self.bases@[i as int]));
        }
    }

    /// Adds `facility` to base `base_id`; returns false when there is no such base or it
    /// already has the facility.
    pub fn complete_facility(&mut self, base_id: usize, facility: Facility) -> (r: bool)
        ensures
            r == (old(self).base_spec(base_id) matches Some(b) && !b.facilities@.contains(facility)),
            !r ==> *final(self) == *old(self),
            r ==> {
                let i = old(self).base_index_spec(base_id)->0;
                let b = old(self).bases@[i];
                &&& final(self).bases@ == old(self).bases@.update(i, final(self).bases@[i])
                &&& final(self).bases@[i].facilities@ == b.facilities@.push(facility)
                &&& final(self).bases@[i] == (Base { facilities: final(self).bases@[i].facilities, ..b })
                &&& *final(self) == (GameState { bases: final(self).bases, ..*old(self) })
            },
    {
        let i = match self.base_index(base_id) {
            Some(i) => i,
            None => return false,
        };
        if facilities_contain(&self.bases[i].facilities, facility) {
            return false;
        }
        self.bases[i].facilities.push(facility);
        assert(self.bases@ =~= old(self).bases@.update(i as int, self.bases@[i as int]));
        true
    }

    /// How many bases the faction `owner` may hold: four, plus one per 128 tiles of map
    /// (at least one), plus twice its efficiency, and never below two; eight for an
    /// unknown faction.
    pub fn base_expansion_limit(&self, owner: usize) -> (r: i32)
        requires
            self.width * self.height <= usize::MAX,
            owner < self.factions@.len() ==> self.expansion_limit_fits(owner),
        ensures
            r == self.base_expansion_limit_spec(owner),
    {
        let faction = match self.faction(owner) {
            Some(f) => f,
            None => return 8,
        };
        let attributes = faction.effective_attributes();
        assert(attributes.attribute(AttributeKind::Efficiency) == faction.base_attributes.attribute(
            AttributeKind::Efficiency,
        ) + social_shift(faction.social_engineering, AttributeKind::Efficiency));
        let cells = (self.width * self.height) as i32;
        let factor0 = cells / 128;
        let factor: i32 = if factor0 < 1 { 1 } else { factor0 };
        let limit = 4 + factor + attributes.efficiency * 2;
        if limit < 2 { 2 } else { limit }
    }

    /// The number of bases of `owner` under each standard governor mode: off, balanced,
    /// defense, recovery, economy and logistics (machine polity is not counted).
    pub fn faction_governor_mode_counts(&self, owner: usize) -> (r: (usize, usize, usize, usize, usize, usize))
        ensures
            r.0 == self.mode_count(owner, GovernorMode::Off),
            r.1 == self.mode_count(owner, GovernorMode::Balanced),
            r.2 == self.mode_count(owner, GovernorMode::Defense),
            r.3 == self.mode_count(owner, GovernorMode::Recovery),
            r.4 == self.mode_count(owner, GovernorMode::Economy),
            r.5 == self.mode_count(owner, GovernorMode::Logistics),
    {
        let mut counts: [usize; 6] = [0, 0, 0, 0, 0, 0];
        let ghost modes = seq![
            GovernorMode::Off,
            GovernorMode::Balanced,
            GovernorMode::Defense,
            GovernorMode::Recovery,
            GovernorMode::Economy,
            GovernorMode::Logistics,
        ];
        let mut k: usize = 0;
        while k < self.bases.len()
            invariant
                k <= self.bases@.len(),
                modes.len() == 6,
                modes == seq![
                    GovernorMode::Off,
                    GovernorMode::Balanced,
                    GovernorMode::Defense,
                    GovernorMode::Recovery,
                    GovernorMode::Economy,
                    GovernorMode::Logistics,
                ],
                forall|m: int|
                    0 <= m < 6 ==> #[trigger] counts@[m] == self.bases@.take(k as int).filter(
                        base_in_mode(owner, modes[m]),
                    ).len(),
                forall|m: int| 0 <= m < 6 ==> #[trigger] counts@[m] <= k,
            decreases self.bases@.len() - k,
        {
            let b = &self.bases[k];
            proof {
                assert(self.bases@.take(k + 1) =~= self.bases@.take(k as int).push(*b));
                assert forall|m: int| 0 <= m < 6 implies self.bases@.take(k + 1).filter(
                    base_in_mode(owner, modes[m]),
                ).len() == self.bases@.take(k as int).filter(base_in_mode(owner, modes[m])).len()
                    + (if base_in_mode(owner, modes[m])(*b) { 1int } else { 0 }) by {
                    self.bases@.take(k as int).lemma_filter_push(*b, base_in_mode(owner, modes[m]));
                }
            }
            if b.owner == owner {
                let slot: usize = match b.governor_mode {
                    GovernorMode::Off => 0,
                    GovernorMode::Balanced => 1,
                    GovernorMode::Defense => 2,
                    GovernorMode::Recovery => 3,
                    GovernorMode::Economy => 4,
                    GovernorMode::Logistics => 5,
                    GovernorMode::MachinePolity => 6,
                };
                if slot < 6 {
                    counts.set(slot, counts[slot] + 1);
                }
            }
            k += 1;
        }
        assert(self.bases@.take(self.bases@.len() as int) =~= self.bases@);
        assert(counts@[0] == self.mode_count(owner, GovernorMode::Off));
        assert(counts@[1] == self.mode_count(owner, GovernorMode::Balanced));
        assert(counts@[2] == self.mode_count(owner, GovernorMode::Defense));
        assert(counts@[3] == self.mode_count(owner, GovernorMode::Recovery));
        assert(counts@[4] == self.mode_count(owner, GovernorMode::Economy));
        assert(counts@[5] == self.mode_count(owner, GovernorMode::Logistics));
        (counts[0], counts[1], counts[2], counts[3], counts[4], counts[5])
    }

    /// The formatted stocks of base `base_id`.
    pub fn base_storage_summary(&self, base_id: usize) -> (r: Option<String>)
        ensures
            match self.base_spec(base_id) {
                Some(b) => r matches Some(s) && s@ == presentation::storage_text(
                    b.nutrients_stock,
                    b.minerals_stock,
                ),
                None => r is None,
            },
    {
        match self.base(base_id) {
            Some(base) => Some(presentation::format_base_storage(base.nutrients_stock, base.minerals_stock)),
            None => None,
        }
    }

    /// The energy upkeep of a convoy route of `kind`.
    pub fn convoy_route_upkeep(&self, kind: ConvoyRouteKind) -> (r: i32)
        ensures
            r == route_upkeep(kind),
    {
        match kind {
            ConvoyRouteKind::Trade => 1,
            ConvoyRouteKind::Freight => 2,
            ConvoyRouteKind::MilitarySupply => 2,
        }
    }

    /// How many other bases of the same owner lie within eight steps of base `base_id`.
    pub fn base_potential_trade_links(&self, base_id: usize) -> (r: usize)
        ensures
            r == match self.base_spec(base_id) {
                Some(b) => self.bases@.filter(trade_partner_of(b)).len(),
                None => 0,
            },
    {
        let base = match self.base(base_id) {
            Some(b) => b,
            None => return 0,
        };
        let ghost p = trade_partner_of(*base);
        let mut count: usize = 0;
        let mut k: usize = 0;
        while k < self.bases.len()
            invariant
                k <= self.bases@.len(),
                p == trade_partner_of(*base),
                count == self.bases@.take(k as int).filter(p).len(),
                count <= k,
            decreases self.bases@.len() - k,
        {
            let o = &self.bases[k];
            proof {
                assert(self.bases@.take(k + 1) =~= self.bases@.take(k as int).push(*o));
                self.bases@.take(k as int).lemma_filter_push(*o, p);
            }
            if o.id != base.id && o.owner == base.owner {
                let dx: usize = if o.x >= base.x { o.x - base.x } else { base.x - o.x };
                let dy: usize = if o.y >= base.y { o.y - base.y } else { base.y - o.y };
                if dx <= 8 && dy <= 8 - dx {
                    count += 1;
                }
            }
            k += 1;
        }
        assert(self.bases@.take(self.bases@.len() as int) =~= self.bases@);
        count
    }

    /// Whether a diplomatic relation is recorded between `a` and `b`.
    pub open spec fn has_relation(self, a: usize, b: usize) -> bool {
        a < self.relations@.len() && b < self.relations@[a as int]@.len()
    }

    /// Whether bases `base_a_id` and `base_b_id` may be joined by a convoy route: two
    /// different bases, of one owner or of owners at treaty or pact, within twelve steps.
    pub open spec fn convoy_route_valid_spec(self, base_a_id: usize, base_b_id: usize) -> bool {
        match (self.base_spec(base_a_id), self.base_spec(base_b_id)) {
            (Some(a), Some(b)) => {
                let allowed = a.owner == b.owner || {
                    let s = self.relations@[a.owner as int]@[b.owner as int].status;
                    s == DiplomacyStatus::Treaty || s == DiplomacyStatus::Pact
                };
                a.id != b.id && allowed && manhattan(a.x, a.y, b.x, b.y) <= 12
            },
            _ => false,
        }
    }

    /// Whether bases `base_a_id` and `base_b_id` may be joined by a convoy route.
    pub fn is_convoy_route_valid(&self, base_a_id: usize, base_b_id: usize) -> (r: bool)
        requires
            (self.base_spec(base_a_id), self.base_spec(base_b_id)) matches (Some(a), Some(b)) ==> (
            a.owner != b.owner ==> self.has_relation(a.owner, b.owner)),
        ensures
            r == self.convoy_route_valid_spec(base_a_id, base_b_id),
    {
        let base_a = match self.base(base_a_id) {
            Some(b) => b,
            None => return false,
        };
        let base_b = match self.base(base_b_id) {
            Some(b) => b,
            None => return false,
        };
        let allowed = if base_a.owner != base_b.owner {
            let status = self.relations[base_a.owner][base_b.owner].status;
            status == DiplomacyStatus::Treaty || status == DiplomacyStatus::Pact
        } else {
            true
        };
        let dx: usize = if base_a.x >= base_b.x { base_a.x - base_b.x } else { base_b.x - base_a.x };
        let dy: usize = if base_a.y >= base_b.y { base_a.y - base_b.y } else { base_b.y - base_a.y };
        base_a.id != base_b.id && allowed && dx <= 12 && dy <= 12 - dx
    }

    /// The display name of `item` for `owner`: a custom unit by its design's name.
    pub fn production_name(&self, owner: usize, item: ProductionItem) -> (r: String)
        ensures
            r@ == match item {
                ProductionItem::CustomUnit(index) => if owner < self.factions@.len() && index
                    < self.factions@[owner as int].unit_designs@.len() {
                    self.factions@[owner as int].unit_designs@[index as int].name@
                } else {
                    "Unknown Custom Unit"@
                },
                _ => content::production_name_text(item),
            },
    {
        match item {
            ProductionItem::CustomUnit(index) => {
                if owner < self.factions.len() && index < self.factions[owner].unit_designs.len() {
                    self.factions[owner].unit_designs[index].name.clone()
                } else {
                    owned("Unknown Custom Unit")
                }
            },
            _ => owned(presentation::production_name(item)),
        }
    }

    /// The role badge of `item`; every custom unit shares one badge.
    pub fn production_role_badge(&self, _owner: usize, item: ProductionItem) -> (r: &'static str)
        ensures
            r@ == match item {
                ProductionItem::CustomUnit(_) => "\u{2727}CST"@,
                _ => presentation::production_role_badge_text(item),
            },
    {
        match item {
            ProductionItem::CustomUnit(_) => "\u{2727}CST",
            _ => presentation::production_role_badge(item),
        }
    }

    /// The panel summary of unit `unit_id`, named after its design where it has one.
    pub fn unit_panel_summary(&self, unit_id: usize) -> (r: Option<presentation::UnitPanelSummary<'_>>)
        ensures
            match self.unit_spec(unit_id) {
                None => r is None,
                Some(u) => if u.owner >= self.factions@.len() {
                    r is None
                } else {
                    r matches Some(s) && s.unit_name@ == (match self.design_for(u) {
                        Some(d) => d.name@,
                        None => content::unit_name_text(u.kind),
                    }) && s.owner_name@ == self.factions@[u.owner as int].name@
                        && s.rank@ == presentation::unit_rank_name_text(u.experience)
                        && s.role@ == presentation::unit_role_summary_text(u.kind)
                        && s.location@ == presentation::coordinates_text(u.x, u.y)
                        && s.moves_left == u.moves_left && s.hp == u.hp
                },
            },
    {
        let unit = match self.unit(unit_id) {
            Some(u) => u,
            None => return None,
        };
        let faction = match self.faction(unit.owner) {
            Some(f) => f,
            None => return None,
        };
        let design_name: &str = if unit.design_index < faction.unit_designs.len() {
            faction.unit_designs[unit.design_index].name.as_str()
        } else {
            presentation::unit_name(unit.kind.copied())
        };
        Some(
            presentation::unit_panel_summary(
                unit.kind.copied(),
                design_name,
                self.faction_name(unit.owner),
                unit.experience,
                unit.x,
                unit.y,
                unit.moves_left,
                unit.hp,
            ),
        )
    }
}

} // verus!
