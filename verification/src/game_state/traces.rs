//! The per-turn record of bases building a command center, and small per-item rules.
use crate::game_state::SocialEngineeringCategoryOptionState;
use crate::model::{
    Base, CommandCenterTurnTrace, ConvoyRouteSummary, Economics, Facility, FutureSociety,
    GameState, Politics, ProductionItem, Unit, UnitKind, Values,
};
use crate::text::owned;
use vstd::prelude::*;

verus! {

/// Matches the traces of base `base_id` of `owner` on `turn`.
pub open spec fn trace_for(turn: i32, owner: usize, base_id: usize) -> spec_fn(CommandCenterTurnTrace) -> bool {
    |t: CommandCenterTurnTrace| t.turn == turn && t.owner == owner && t.base_id == base_id
}

/// Matches the traces that are not of `owner` on `turn`.
pub open spec fn trace_kept(turn: i32, owner: usize) -> spec_fn(CommandCenterTurnTrace) -> bool {
    |t: CommandCenterTurnTrace| !(t.turn == turn && t.owner == owner)
}

/// Matches the bases of `owner` building a command center they do not have yet.
pub open spec fn building_command_center(owner: usize) -> spec_fn(Base) -> bool {
    |b: Base| b.owner == owner && b.production == ProductionItem::CommandCenter && !b.facilities@.contains(
        Facility::CommandCenter,
    )
}

/// The fresh trace of base `b` of `owner` on `turn`.
pub open spec fn fresh_trace_matches(t: CommandCenterTurnTrace, b: Base, owner: usize, turn: i32) -> bool {
    &&& t.turn == turn
    &&& t.owner == owner
    &&& t.base_id == b.id
    &&& t.base_name@ == b.name@
    &&& t.post_production_stock == b.minerals_stock
    &&& t.post_interdiction_stock == b.minerals_stock
    &&& t.upkeep_drain == 0
    &&& t.upkeep_order_index is None
    &&& t.end_stock == b.minerals_stock
}

/// Whether a unit kind is kept out of disbanding when other units remain.
pub open spec fn spared_from_disbanding(u: Unit) -> bool {
    u.kind is ColonyPod || u.kind is Former
}

/// The ordering key by which route summaries are ranked for attention.
pub open spec fn summary_priority(s: ConvoyRouteSummary) -> (int, int, int, int) {
    (
        if s.intercepted && s.integrity <= 1 {
            4
        } else if s.intercepted {
            3
        } else if s.disrupted {
            2
        } else if s.protected {
            1
        } else {
            0
        },
        -(s.integrity as int),
        if s.intercepted { 1 } else { 0 },
        if s.disrupted { 1 } else { 0 },
    )
}

/// Whether `item` builds a military unit or facility.
pub open spec fn military_item(item: ProductionItem) -> bool {
    match item {
        ProductionItem::ScoutPatrol | ProductionItem::ResonanceLaser | ProductionItem::Speeder
        | ProductionItem::EscortSpeeder | ProductionItem::RaiderSpeeder | ProductionItem::TranceScout
        | ProductionItem::GarrisonGuard | ProductionItem::PsiSentinel | ProductionItem::PerimeterDefense
        | ProductionItem::CommandCenter | ProductionItem::MilitaryAcademy | ProductionItem::SensorArray => true,
        _ => false,
    }
}

/// Whether `v` lists `f`.
fn has_facility(v: &Vec<Facility>, f: Facility) -> (r: bool)
    ensures
        r == v@.contains(f),
{
    let mut i: usize = 0;
    while i < v.len()
        invariant
            i <= v@.len(),
            forall|j: int| 0 <= j < i ==> v@[j] != f,
        decreases v@.len() - i,
    {
        if v[i] == f {
            assert(v@[i as int] == f);
            return true;
        }
        i += 1;
    }
    false
}

/// A field-by-field copy of a trace.
fn copy_trace(t: &CommandCenterTurnTrace) -> (r: CommandCenterTurnTrace)
    ensures
        r == *t,
{
    CommandCenterTurnTrace {
        turn: t.turn,
        owner: t.owner,
        base_id: t.base_id,
        base_name: t.base_name.clone(),
        post_production_stock: t.post_production_stock,
        post_interdiction_stock: t.post_interdiction_stock,
        upkeep_drain: t.upkeep_drain,
        upkeep_order_index: t.upkeep_order_index,
        end_stock: t.end_stock,
    }
}

impl GameState {
    /// Drops the traces of `owner` recorded this turn.
    pub fn clear_command_center_turn_traces_for_owner(&mut self, owner: usize)
        ensures
            final(self).command_center_turn_traces@ == old(self).command_center_turn_traces@.filter(
                trace_kept(old(self).turn, owner),
            ),
            *final(self) == (GameState { command_center_turn_traces: final(self).command_center_turn_traces, ..*old(self) }),
    {
        let ghost p = trace_kept(self.turn, owner);
        let mut kept: Vec<CommandCenterTurnTrace> = Vec::new();
        let mut k: usize = 0;
        while k < self.command_center_turn_traces.len()
            invariant
                k <= self.command_center_turn_traces@.len(),
                *self == *old(self),
                p == trace_kept(self.turn, owner),
                kept@ == self.command_center_turn_traces@.take(k as int).filter(p),
            decreases self.command_center_turn_traces@.len() - k,
        {
            let t = &self.command_center_turn_traces[k];
            proof {
                assert(self.command_center_turn_traces@.take(k + 1) =~= self.command_center_turn_traces@.take(k as int).push(*t));
                self.command_center_turn_traces@.take(k as int).lemma_filter_push(*t, p);
            }
            if !(t.turn == self.turn && t.owner == owner) {
                kept.push(copy_trace(t));
            }
            k += 1;
        }
        assert(self.command_center_turn_traces@.take(self.command_center_turn_traces@.len() as int)
            =~= self.command_center_turn_traces@);
        self.command_center_turn_traces = kept;
    }

    /// Replaces `owner`'s traces of this turn with a fresh trace of each of its bases that
    /// is building a command center it does not have, at the base's current mineral stock.
    pub fn capture_command_center_post_production_traces(&mut self, owner: usize)
        ensures
            ({
                let kept = old(self).command_center_turn_traces@.filter(trace_kept(old(self).turn, owner));
                let building = old(self).bases@.filter(building_command_center(owner));
                let traces = final(self).command_center_turn_traces@;
                &&& traces.len() == kept.len() + building.len()
                &&& traces.take(kept.len() as int) == kept
                &&& forall|i: int|
                    0 <= i < building.len() ==> #[trigger] fresh_trace_matches(
                        traces[kept.len() + i],
                        building[i],
                        owner,
                        old(self).turn,
                    )
            }),
            *final(self) == (GameState { command_center_turn_traces: final(self).command_center_turn_traces, ..*old(self) }),
    {
        self.clear_command_center_turn_traces_for_owner(owner);
        let ghost kept = self.command_center_turn_traces@;
        let ghost p = building_command_center(owner);
        let ghost mid = *self;
        let mut k: usize = 0;
        let mut added: usize = 0;
        while k < self.bases.len()
            invariant
                k <= self.bases@.len(),
                p == building_command_center(owner),
                self.bases@ == old(self).bases@,
                self.turn == old(self).turn,
                added == self.bases@.take(k as int).filter(p).len(),
                self.command_center_turn_traces@.len() == kept.len() + added,
                self.command_center_turn_traces@.take(kept.len() as int) == kept,
                forall|i: int|
                    0 <= i < added ==> #[trigger] fresh_trace_matches(
                        self.command_center_turn_traces@[kept.len() + i],
                        self.bases@.take(k as int).filter(p)[i],
                        owner,
                        old(self).turn,
                    ),
                *self == (GameState { command_center_turn_traces: self.command_center_turn_traces, ..mid }),
            decreases self.bases@.len() - k,
        {
            let b = &self.bases[k];
            proof {
                assert(self.bases@.take(k + 1) =~= self.bases@.take(k as int).push(*b));
                self.bases@.take(k as int).lemma_filter_push(*b, p);
            }
            if b.owner == owner && b.production == ProductionItem::CommandCenter && !has_facility(&b.facilities, Facility::CommandCenter) {
                let trace = CommandCenterTurnTrace {
                    turn: self.turn,
                    owner,
                    base_id: b.id,
                    base_name: b.name.clone(),
                    post_production_stock: b.minerals_stock,
                    post_interdiction_stock: b.minerals_stock,
                    upkeep_drain: 0,
                    upkeep_order_index: None,
                    end_stock: b.minerals_stock,
                };
                let ghost before = self.command_center_turn_traces@;
                self.command_center_turn_traces.push(trace);
                assert(self.command_center_turn_traces@.take(kept.len() as int) =~= before.take(kept.len() as int));
                added += 1;
            }
            k += 1;
        }
        assert(self.bases@.take(self.bases@.len() as int) =~= self.bases@);
    }

    /// The trace of base `base_id` of `owner` this turn, by position.
    pub open spec fn trace_index_for(self, owner: usize, base_id: usize) -> Option<int> {
        crate::seqs::first_index(
            self.command_center_turn_traces@,
            trace_for(self.turn, owner, base_id),
        )
    }

    /// The position of the trace of base `base_id` of `owner` this turn.
    fn trace_position(&self, owner: usize, base_id: usize) -> (r: Option<usize>)
        ensures
            match r {
                Some(i) => i < self.command_center_turn_traces@.len() && crate::seqs::is_first(
                    self.command_center_turn_traces@,
                    trace_for(self.turn, owner, base_id),
                    i as int,
                ),
                None => crate::seqs::none_match(self.command_center_turn_traces@, trace_for(self.turn, owner, base_id)),
            },
    {
        let ghost p = trace_for(self.turn, owner, base_id);
        let mut i: usize = 0;
        while i < self.command_center_turn_traces.len()
            invariant
                i <= self.command_center_turn_traces@.len(),
                p == trace_for(self.turn, owner, base_id),
                forall|j: int| 0 <= j < i ==> !p(#[trigger] self.command_center_turn_traces@[j]),
            decreases self.command_center_turn_traces@.len() - i,
        {
            let t = &self.command_center_turn_traces[i];
            if t.turn == self.turn && t.owner == owner && t.base_id == base_id {
                return Some(i);
            }
            i += 1;
        }
        None
    }

    /// Records each base of `owner`'s stock after interdiction (and as its end stock) in the
    /// first trace of this turn for that base.
    pub fn update_command_center_post_interdiction_traces(&mut self, owner: usize)
        ensures
            GameState::trace_stocks_recorded(*old(self), *final(self), owner, true),
    {
        self.record_trace_stocks(owner, true);
    }

    /// Records each base of `owner`'s end stock in the first trace of this turn for that base.
    pub fn update_command_center_end_stock_traces(&mut self, owner: usize)
        ensures
            GameState::trace_stocks_recorded(*old(self), *final(self), owner, false),
    {
        self.record_trace_stocks(owner, false);
    }

    /// `new` is `old` with the first trace of this turn of each base of `owner` given that
    /// base's mineral stock (the last such base where ids repeat), as end stock and, when
    /// `interdiction`, also as stock after interdiction.
    pub open spec fn trace_stocks_recorded(old: GameState, new: GameState, owner: usize, interdiction: bool) -> bool {
        &&& new.command_center_turn_traces@.len() == old.command_center_turn_traces@.len()
        &&& forall|i: int|
            0 <= i < old.command_center_turn_traces@.len() ==> #[trigger] new.command_center_turn_traces@[i]
                == stocked_trace(old, owner, interdiction, i, old.bases@.len() as int)
        &&& new == (GameState { command_center_turn_traces: new.command_center_turn_traces, ..old })
    }

    /// Writes stocks into the traces, as the two updates above describe.
    fn record_trace_stocks(&mut self, owner: usize, interdiction: bool)
        ensures
            GameState::trace_stocks_recorded(*old(self), *final(self), owner, interdiction),
    {
        let ghost start = *self;
        let mut k: usize = 0;
        while k < self.bases.len()
            invariant
                k <= self.bases@.len(),
                self.command_center_turn_traces@.len() == start.command_center_turn_traces@.len(),
                forall|i: int|
                    0 <= i < start.command_center_turn_traces@.len() ==> #[trigger] self.command_center_turn_traces@[i]
                        == stocked_trace(start, owner, interdiction, i, k as int),
                *self == (GameState { command_center_turn_traces: self.command_center_turn_traces, ..start }),
            decreases self.bases@.len() - k,
        {
            if self.bases[k].owner == owner {
                let base_id = self.bases[k].id;
                let stock = self.bases[k].minerals_stock;
                proof {
                    assert forall|j: int| 0 <= j < start.command_center_turn_traces@.len() implies
                        trace_for(start.turn, owner, base_id)(#[trigger] self.command_center_turn_traces@[j])
                            == trace_for(start.turn, owner, base_id)(start.command_center_turn_traces@[j]) by {
                        lemma_stocked_trace_key(start, owner, interdiction, j, k as int);
                    }
                }
                match self.trace_position(owner, base_id) {
                    Some(i) => {
                        let ghost before = self.command_center_turn_traces@;
                        proof {
                            assert(crate::seqs::is_first(before, trace_for(start.turn, owner, base_id), i as int));
                            assert(trace_for(start.turn, owner, base_id)(before[i as int]));
                            assert(trace_for(start.turn, owner, base_id)(start.command_center_turn_traces@[i as int]));
                            assert forall|j: int| 0 <= j < i implies !trace_for(start.turn, owner, base_id)(
                                #[trigger] start.command_center_turn_traces@[j],
                            ) by {
                                assert(!trace_for(start.turn, owner, base_id)(before[j]));
                            }
                        }
                        self.command_center_turn_traces[i].end_stock = stock;
                        if interdiction {
                            self.command_center_turn_traces[i].post_interdiction_stock = stock;
                        }
                        proof {
                            assert(crate::seqs::is_first(start.command_center_turn_traces@, trace_for(start.turn, owner, base_id), i as int));
                            assert forall|j: int| 0 <= j < start.command_center_turn_traces@.len() implies
                                #[trigger] self.command_center_turn_traces@[j] == stocked_trace(start, owner, interdiction, j, k + 1) by {
                                if j != i {
                                    if crate::seqs::is_first(start.command_center_turn_traces@, trace_for(start.turn, owner, base_id), j) {
                                        if j < i {
                                            assert(trace_for(start.turn, owner, base_id)(start.command_center_turn_traces@[j]));
                                        } else {
                                            assert(trace_for(start.turn, owner, base_id)(start.command_center_turn_traces@[i as int]));
                                        }
                                    }
                                }
                            }
                        }
                    },
                    None => {
                        proof {
                            assert forall|j: int| 0 <= j < start.command_center_turn_traces@.len() implies
                                #[trigger] self.command_center_turn_traces@[j] == stocked_trace(start, owner, interdiction, j, k + 1) by {
                                assert(!trace_for(start.turn, owner, base_id)(self.command_center_turn_traces@[j]));
                            }
                        }
                    },
                }
            }
            k += 1;
        }
    }
}

/// Trace `i` of `state` after the first `k` bases recorded their stocks.
pub open spec fn stocked_trace(state: GameState, owner: usize, interdiction: bool, i: int, k: int) -> CommandCenterTurnTrace
    decreases k,
{
    let t = state.command_center_turn_traces@[i];
    if k <= 0 {
        t
    } else {
        let earlier = stocked_trace(state, owner, interdiction, i, k - 1);
        let b = state.bases@[k - 1];
        let first = crate::seqs::is_first(state.command_center_turn_traces@, trace_for(state.turn, owner, b.id), i);
        if b.owner == owner && first {
            if interdiction {
                CommandCenterTurnTrace { post_interdiction_stock: b.minerals_stock, end_stock: b.minerals_stock, ..earlier }
            } else {
                CommandCenterTurnTrace { end_stock: b.minerals_stock, ..earlier }
            }
        } else {
            earlier
        }
    }
}

/// Matches the live units of `owner` that may be disbanded first.
pub open spec fn disband_candidate(owner: usize) -> spec_fn(Unit) -> bool {
    |u: Unit| u.alive && u.owner == owner && !spared_from_disbanding(u)
}

/// `i` is the first candidate of lowest experience, below 999.
pub open spec fn is_disband_pick(units: Seq<Unit>, owner: usize, i: int) -> bool {
    &&& 0 <= i < units.len()
    &&& disband_candidate(owner)(units[i])
    &&& units[i].experience < 999
    &&& forall|j: int| 0 <= j < units.len() && disband_candidate(owner)(#[trigger] units[j]) ==> units[i].experience <= units[j].experience
    &&& forall|j: int| 0 <= j < i && disband_candidate(owner)(#[trigger] units[j]) ==> units[i].experience < units[j].experience
}

/// Recording stocks keeps each trace's turn, owner and base.
proof fn lemma_stocked_trace_key(state: GameState, owner: usize, interdiction: bool, i: int, k: int)
    ensures
        stocked_trace(state, owner, interdiction, i, k).turn == state.command_center_turn_traces@[i].turn,
        stocked_trace(state, owner, interdiction, i, k).owner == state.command_center_turn_traces@[i].owner,
        stocked_trace(state, owner, interdiction, i, k).base_id == state.command_center_turn_traces@[i].base_id,
    decreases k,
{
    if k > 0 {
        lemma_stocked_trace_key(state, owner, interdiction, i, k - 1);
    }
}

impl GameState {
    /// The unit `owner` disbands first when it must: the first live unit of lowest
    /// experience (below 999) that is neither a colony pod nor a former, else its first
    /// live unit.
    pub open spec fn disbandable_unit_spec(self, owner: usize) -> Option<usize> {
        if exists|i: int| is_disband_pick(self.units@, owner, i) {
            Some(self.units@[choose|i: int| is_disband_pick(self.units@, owner, i)].id)
        } else {
            match crate::seqs::first_match(self.units@, crate::game_state::access::live_unit_of(owner)) {
                Some(u) => Some(u.id),
                None => None,
            }
        }
    }

    /// The unit `owner` disbands first when it must.
    pub fn find_disbandable_unit(&self, owner: usize) -> (r: Option<usize>)
        ensures
            r == self.disbandable_unit_spec(owner),
    {
        let mut best: Option<usize> = None;
        let mut best_index: usize = 0;
        let mut lowest_exp: i32 = 999;
        let mut k: usize = 0;
        while k < self.units.len()
            invariant
                k <= self.units@.len(),
                match best {
                    None => lowest_exp == 999 && forall|j: int| 0 <= j < k && disband_candidate(owner)(#[trigger] self.units@[j])
                        ==> self.units@[j].experience >= 999,
                    Some(id) => {
                        &&& best_index < k
                        &&& id == self.units@[best_index as int].id
                        &&& lowest_exp == self.units@[best_index as int].experience
                        &&& lowest_exp < 999
                        &&& disband_candidate(owner)(self.units@[best_index as int])
                        &&& forall|j: int| 0 <= j < k && disband_candidate(owner)(#[trigger] self.units@[j]) ==> lowest_exp <= self.units@[j].experience
                        &&& forall|j: int| 0 <= j < best_index && disband_candidate(owner)(#[trigger] self.units@[j]) ==> lowest_exp < self.units@[j].experience
                    },
                },
            decreases self.units@.len() - k,
        {
            let u = &self.units[k];
            if u.alive && u.owner == owner && !matches!(u.kind, UnitKind::ColonyPod | UnitKind::Former) {
                if u.experience < lowest_exp {
                    lowest_exp = u.experience;
                    best = Some(u.id);
                    best_index = k;
                }
            }
            k += 1;
        }
        match best {
            Some(id) => {
                proof {
                    assert(is_disband_pick(self.units@, owner, best_index as int));
                    let c = choose|i: int| is_disband_pick(self.units@, owner, i);
                    assert(is_disband_pick(self.units@, owner, c));
                    if c < best_index {
                        assert(disband_candidate(owner)(self.units@[c]));
                    } else if best_index < c {
                        assert(disband_candidate(owner)(self.units@[best_index as int]));
                    }
                }
                Some(id)
            },
            None => {
                proof {
                    if exists|i: int| is_disband_pick(self.units@, owner, i) {
                        let c = choose|i: int| is_disband_pick(self.units@, owner, i);
                        assert(disband_candidate(owner)(self.units@[c]));
                    }
                }
                assert(!exists|i: int| is_disband_pick(self.units@, owner, i));
                let mut m: usize = 0;
                while m < self.units.len()
                    invariant
                        m <= self.units@.len(),
                        !exists|i: int| is_disband_pick(self.units@, owner, i),
                        forall|j: int| 0 <= j < m ==> !(#[trigger] crate::game_state::access::live_unit_of(owner)(self.units@[j])),
                    decreases self.units@.len() - m,
                {
                    if self.units[m].alive && self.units[m].owner == owner {
                        proof {
                            assert(crate::seqs::is_first(self.units@, crate::game_state::access::live_unit_of(owner), m as int));
                            crate::seqs::lemma_first_match_at(self.units@, crate::game_state::access::live_unit_of(owner), m as int);
                        }
                        return Some(self.units[m].id);
                    }
                    m += 1;
                }
                proof {
                    crate::seqs::lemma_first_match_none(self.units@, crate::game_state::access::live_unit_of(owner));
                }
                None
            },
        }
    }

    /// The key by which route summaries are ranked for attention.
    pub fn convoy_summary_priority(summary: &ConvoyRouteSummary) -> (r: (i32, i32, i32, i32))
        ensures
            (r.0 as int, r.1 as int, r.2 as int, r.3 as int) == summary_priority(*summary),
    {
        (
            if summary.intercepted && summary.integrity <= 1 {
                4
            } else if summary.intercepted {
                3
            } else if summary.disrupted {
                2
            } else if summary.protected {
                1
            } else {
                0
            },
            -(summary.integrity as i32),
            if summary.intercepted { 1 } else { 0 },
            if summary.disrupted { 1 } else { 0 },
        )
    }

    /// Whether `item` builds a military unit or facility.
    pub fn production_item_is_military(&self, item: ProductionItem) -> (r: bool)
        ensures
            r == military_item(item),
    {
        matches!(
            item,
            ProductionItem::ScoutPatrol | ProductionItem::ResonanceLaser | ProductionItem::Speeder
                | ProductionItem::EscortSpeeder | ProductionItem::RaiderSpeeder | ProductionItem::TranceScout
                | ProductionItem::GarrisonGuard | ProductionItem::PsiSentinel | ProductionItem::PerimeterDefense
                | ProductionItem::CommandCenter | ProductionItem::MilitaryAcademy | ProductionItem::SensorArray
        )
    }

    /// A political choice offered on the social engineering panel.
    pub fn politics_option(&self, politics: Politics, choice_text: &str, modifiers_text: &str, enabled: bool, selected: bool) -> (r: SocialEngineeringCategoryOptionState)
        ensures
            r.choice_text@ == choice_text@,
            r.modifiers_text@ == modifiers_text@,
            r.enabled == enabled,
            r.selected == selected,
            r.politics == Some(politics),
            r.economics is None,
            r.values is None,
            r.future is None,
    {
        SocialEngineeringCategoryOptionState {
            choice_text: owned(choice_text),
            modifiers_text: owned(modifiers_text),
            enabled,
            selected,
            politics: Some(politics),
            economics: None,
            values: None,
            future: None,
        }
    }

    /// An economic choice offered on the social engineering panel.
    pub fn economics_option(&self, economics: Economics, choice_text: &str, modifiers_text: &str, enabled: bool, selected: bool) -> (r: SocialEngineeringCategoryOptionState)
        ensures
            r.choice_text@ == choice_text@,
            r.modifiers_text@ == modifiers_text@,
            r.enabled == enabled,
            r.selected == selected,
            r.politics is None,
            r.economics == Some(economics),
            r.values is None,
            r.future is None,
    {
        SocialEngineeringCategoryOptionState {
            choice_text: owned(choice_text),
            modifiers_text: owned(modifiers_text),
            enabled,
            selected,
            politics: None,
            economics: Some(economics),
            values: None,
            future: None,
        }
    }

    /// A choice of values offered on the social engineering panel.
    pub fn values_option(&self, values: Values, choice_text: &str, modifiers_text: &str, enabled: bool, selected: bool) -> (r: SocialEngineeringCategoryOptionState)
        ensures
            r.choice_text@ == choice_text@,
            r.modifiers_text@ == modifiers_text@,
            r.enabled == enabled,
            r.selected == selected,
            r.politics is None,
            r.economics is None,
            r.values == Some(values),
            r.future is None,
    {
        SocialEngineeringCategoryOptionState {
            choice_text: owned(choice_text),
            modifiers_text: owned(modifiers_text),
            enabled,
            selected,
            politics: None,
            economics: None,
            values: Some(values),
            future: None,
        }
    }

    /// A future-society choice offered on the social engineering panel.
    pub fn future_option(&self, future: FutureSociety, choice_text: &str, modifiers_text: &str, enabled: bool, selected: bool) -> (r: SocialEngineeringCategoryOptionState)
        ensures
            r.choice_text@ == choice_text@,
            r.modifiers_text@ == modifiers_text@,
            r.enabled == enabled,
            r.selected == selected,
            r.politics is None,
            r.economics is None,
            r.values is None,
            r.future == Some(future),
    {
        SocialEngineeringCategoryOptionState {
            choice_text: owned(choice_text),
            modifiers_text: owned(modifiers_text),
            enabled,
            selected,
            politics: None,
            economics: None,
            values: None,
            future: Some(future),
        }
    }
}

} // verus!
