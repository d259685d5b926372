//! What a faction can build, and choosing or queueing a base's production.
use crate::content::{production_name_text, required_tech_of, tech_name_text};
use crate::game_state::bases::facilities_contain;
use crate::game_state::diplomacy::{knows, techs_contain};
use crate::game_state::display::record_of;
use crate::game_state::queue::{base_same_but_production, changed_base_and_logged, log_general, only_logged};
use crate::model::{Base, Facility, Faction, GameState, ProductionItem, SecretProject, Tech};
use crate::presentation;
use crate::seqs::any_match;
use crate::text::{owned, push_text};
use vstd::prelude::*;

verus! {

/// Matches the bases of `owner` building secret project `p`.
pub open spec fn building_project(owner: usize, p: SecretProject) -> spec_fn(Base) -> bool {
    |b: Base| b.owner == owner && b.production.secret_project_of() == Some(p)
}

/// Why `base`, run by `faction`, cannot take up `item`, if it cannot: the technology it
/// needs is unknown, or the facility it builds is already there or already planned.
pub open spec fn build_refusal(base: Base, faction: Faction, item: ProductionItem) -> Option<Seq<char>> {
    match required_tech_of(item) {
        Some(t) if !faction.known_techs@.contains(t) => Some(
            production_name_text(item) + " requires "@ + tech_name_text(t) + "."@,
        ),
        _ => match item.facility_of() {
            Some(f) => if base.facilities@.contains(f) {
                Some("That facility is already built here."@)
            } else if base.production == item || base.production_queue@.contains(item) {
                Some("That facility is already queued here."@)
            } else {
                None
            },
            None => None,
        },
    }
}

/// The facilities of `owner`'s bases, base by base in order, each with its base's id.
pub open spec fn owner_facilities(bases: Seq<Base>, owner: usize) -> Seq<(usize, Facility)>
    decreases bases.len(),
{
    if bases.len() == 0 {
        Seq::empty()
    } else {
        let b = bases.last();
        owner_facilities(bases.drop_last(), owner) + if b.owner == owner {
            b.facilities@.map_values(|f: Facility| (b.id, f))
        } else {
            Seq::empty()
        }
    }
}

/// What building a facility costs.
pub open spec fn facility_cost(f: Facility) -> int {
    crate::content::production_cost_value(ProductionItem::of_facility(f)) as int
}

/// The facility to scrap among `s`: the first of the most expensive, or none when every
/// cost is below zero.
pub open spec fn scrap_choice(s: Seq<(usize, Facility)>) -> Option<(usize, Facility)>
    decreases s.len(),
{
    if s.len() == 0 {
        None
    } else {
        let prev = scrap_choice(s.drop_last());
        let highest: int = match prev {
            Some(p) => facility_cost(p.1),
            None => -1,
        };
        if facility_cost(s.last().1) > highest {
            Some(s.last())
        } else {
            prev
        }
    }
}

/// One attempt to queue `item`: `t` is `s` with the item queued when base `base_id` may
/// take it up, else `s` itself.
pub open spec fn queue_step(s: GameState, t: GameState, base_id: usize, item: ProductionItem) -> bool {
    match s.production_change_refusal(base_id, item) {
        Some(_) => t == s,
        None => GameState::production_queued(s, t, base_id, item),
    }
}

/// `states` runs through the attempts to queue `items` one after another.
pub open spec fn queues_applied(states: Seq<GameState>, base_id: usize, items: Seq<ProductionItem>) -> bool {
    &&& states.len() == items.len() + 1
    &&& forall|i: int| 0 <= i < items.len() ==> #[trigger] queue_step(states[i], states[i + 1], base_id, items[i])
}

/// How many of the first `n` attempts to queue `items` along `states` succeeded.
pub open spec fn queued_count(states: Seq<GameState>, base_id: usize, items: Seq<ProductionItem>, n: int) -> int
    decreases n,
{
    if n <= 0 {
        0
    } else {
        queued_count(states, base_id, items, n - 1) + if states[n - 1].production_change_refusal(base_id, items[n - 1]) is None {
            1int
        } else {
            0
        }
    }
}

/// Counting along a longer run of states agrees on the common prefix.
proof fn lemma_queued_count_prefix(a: Seq<GameState>, b: Seq<GameState>, base_id: usize, items: Seq<ProductionItem>, n: int)
    requires
        0 <= n,
        n < a.len(),
        n < b.len(),
        forall|i: int| 0 <= i < n ==> a[i] == b[i],
    ensures
        queued_count(a, base_id, items, n) == queued_count(b, base_id, items, n),
    decreases n,
{
    if n > 0 {
        lemma_queued_count_prefix(a, b, base_id, items, n - 1);
    }
}

/// Whether `v` lists `item`.
pub(crate) fn items_contain(v: &Vec<ProductionItem>, item: ProductionItem) -> (r: bool)
    ensures
        r == v@.contains(item),
{
    let mut i: usize = 0;
    while i < v.len()
        invariant
            i <= v@.len(),
            forall|j: int| 0 <= j < i ==> v@[j] != item,
        decreases v@.len() - i,
    {
        if v[i] == item {
            assert(v@[i as int] == item);
            return true;
        }
        i += 1;
    }
    false
}

/// Checks that `base`, run by `faction`, may take up `item`.
fn validate_base_build_choice(base: &Base, faction: &Faction, item: ProductionItem) -> (r: Result<(), String>)
    ensures
        match build_refusal(*base, *faction, item) {
            Some(e) => r matches Err(m) && m@ == e,
            None => r is Ok,
        },
{
    match crate::content::required_tech_for_production(item) {
        Some(t) => {
            if !techs_contain(&faction.known_techs, t) {
                let mut message = owned(presentation::production_name(item));
                push_text(&mut message, " requires ");
                push_text(&mut message, presentation::tech_name(t));
                push_text(&mut message, ".");
                return Err(message);
            }
        },
        None => {},
    }
    match item.facility() {
        Some(f) => {
            if facilities_contain(&base.facilities, f) {
                return Err(owned("That facility is already built here."));
            }
            if base.production == item || items_contain(&base.production_queue, item) {
                return Err(owned("That facility is already queued here."));
            }
        },
        None => {},
    }
    Ok(())
}

/// A base takes up an item only when its owner knows the technology the item needs, and
/// a facility only when the base neither has it nor already builds or queues it; an item
/// needing no technology and building no facility is never refused at a valid base.
pub proof fn law_production_needs_tech_and_no_duplicate_facility(state: GameState, base_id: usize, item: ProductionItem)
    requires
        state.base_index_spec(base_id) is Some,
    ensures
        ({
            let b = state.bases@[state.base_index_spec(base_id)->0];
            &&& state.production_change_refusal(base_id, item) is None ==> {
                &&& b.owner < state.factions@.len()
                &&& (required_tech_of(item) matches Some(t) ==> state.factions@[b.owner as int].known_techs@.contains(t))
                &&& (item.facility_of() matches Some(f) ==> !b.facilities@.contains(f) && b.production != item
                    && !b.production_queue@.contains(item))
            }
            &&& b.owner < state.factions@.len() && required_tech_of(item) is None && item.facility_of() is None
                ==> state.production_change_refusal(base_id, item) is None
        }),
{
}

impl GameState {
    /// Whether `owner` may build `item`: a custom design must be in its workshop; a secret
    /// project must be unbuilt and not under way in another of its bases; and the
    /// technology the item needs must be known.
    pub open spec fn production_available_spec(self, owner: usize, item: ProductionItem) -> bool {
        match item {
            ProductionItem::CustomUnit(index) => owner < self.factions@.len() && index
                < self.factions@[owner as int].unit_designs@.len(),
            _ => {
                let project_taken = match item.secret_project_of() {
                    Some(p) => any_match(self.built_secret_projects@, record_of(p)) || any_match(
                        self.bases@,
                        building_project(owner, p),
                    ),
                    None => false,
                };
                !project_taken && match required_tech_of(item) {
                    Some(t) => knows(self.factions@, owner, t),
                    None => true,
                }
            },
        }
    }

    /// The technology `owner` still lacks for `item`, when the item needs one and the
    /// faction exists.
    pub open spec fn missing_tech_spec(self, owner: usize, item: ProductionItem) -> Option<Tech> {
        match required_tech_of(item) {
            Some(t) => if owner < self.factions@.len() && !self.factions@[owner as int].known_techs@.contains(t) {
                Some(t)
            } else {
                None
            },
            None => None,
        }
    }

    /// Whether `owner` may build `item` now.
    pub fn is_production_available(&self, owner: usize, item: ProductionItem) -> (r: bool)
        ensures
            r == self.production_available_spec(owner, item),
    {
        if let ProductionItem::CustomUnit(index) = item {
            return match self.faction(owner) {
                Some(f) => index < f.unit_designs.len(),
                None => false,
            };
        }
        if let Some(project) = item.secret_project() {
            let mut i: usize = 0;
            while i < self.built_secret_projects.len()
                invariant
                    i <= self.built_secret_projects@.len(),
                    item.secret_project_of() == Some(project),
                    !(item is CustomUnit),
                    forall|j: int| 0 <= j < i ==> !(#[trigger] record_of(project)(self.built_secret_projects@[j])),
                decreases self.built_secret_projects@.len() - i,
            {
                if self.built_secret_projects[i].0 == project {
                    assert(record_of(project)(self.built_secret_projects@[i as int]));
                    assert(any_match(self.built_secret_projects@, record_of(project)));
                    assert(!(item is CustomUnit));
                    return false;
                }
                i += 1;
            }
            let mut k: usize = 0;
            while k < self.bases.len()
                invariant
                    k <= self.bases@.len(),
                    item.secret_project_of() == Some(project),
                    !(item is CustomUnit),
                    forall|j: int| 0 <= j < self.built_secret_projects@.len() ==> !(#[trigger] record_of(project)(self.built_secret_projects@[j])),
                    forall|j: int| 0 <= j < k ==> !(#[trigger] building_project(owner, project)(self.bases@[j])),
                decreases self.bases@.len() - k,
            {
                if self.bases[k].owner == owner && self.bases[k].production.secret_project() == Some(project) {
                    assert(building_project(owner, project)(self.bases@[k as int]));
                    assert(any_match(self.bases@, building_project(owner, project)));
                    assert(!(item is CustomUnit));
                    return false;
                }
                k += 1;
            }
        }
        match crate::content::required_tech_for_production(item) {
            Some(t) => match self.faction(owner) {
                Some(f) => techs_contain(&f.known_techs, t),
                None => false,
            },
            None => true,
        }
    }

    /// The technology `owner` still lacks for `item`.
    pub fn missing_required_tech_for_item(&self, owner: usize, item: ProductionItem) -> (r: Option<Tech>)
        ensures
            r == self.missing_tech_spec(owner, item),
    {
        let t = match crate::content::required_tech_for_production(item) {
            Some(t) => t,
            None => return None,
        };
        let f = match self.faction(owner) {
            Some(f) => f,
            None => return None,
        };
        if techs_contain(&f.known_techs, t) {
            None
        } else {
            Some(t)
        }
    }

    /// Matches the items `owner` may build now.
    pub open spec fn buildable_by(self, owner: usize) -> spec_fn(ProductionItem) -> bool {
        |item: ProductionItem| self.production_available_spec(owner, item)
    }

    /// Matches the items `owner` may not build now.
    pub open spec fn not_buildable_by(self, owner: usize) -> spec_fn(ProductionItem) -> bool {
        |item: ProductionItem| !self.production_available_spec(owner, item)
    }

    /// Every standard item of the menu is either buildable by `owner` or locked for it,
    /// so the two lists of `production_items_for_owner` share out the whole menu.
    pub proof fn law_menu_split(self, owner: usize)
        ensures
            ProductionItem::all_seq().filter(self.buildable_by(owner)).len() + ProductionItem::all_seq().filter(
                self.not_buildable_by(owner),
            ).len() == ProductionItem::all_seq().len(),
    {
        crate::seqs::lemma_filter_split(ProductionItem::all_seq(), self.buildable_by(owner), self.not_buildable_by(owner));
    }

    /// The production menu of `owner`: the standard items it may build, in menu order,
    /// then one entry per design in its workshop; and the standard items it may not
    /// build, each with the technology it still lacks for it.
    pub fn production_items_for_owner(&self, owner: usize) -> (r: (Vec<ProductionItem>, Vec<(ProductionItem, Option<Tech>)>))
        ensures
            r.0@ == ProductionItem::all_seq().filter(self.buildable_by(owner)) + Seq::new(
                if owner < self.factions@.len() { self.factions@[owner as int].unit_designs@.len() } else { 0 },
                |i: int| ProductionItem::CustomUnit(i as usize),
            ),
            r.1@ == ProductionItem::all_seq().filter(self.not_buildable_by(owner)).map_values(
                |item: ProductionItem| (item, self.missing_tech_spec(owner, item)),
            ),
    {
        let all = ProductionItem::all();
        let ghost items = ProductionItem::all_seq();
        let mut available: Vec<ProductionItem> = Vec::new();
        let mut locked: Vec<(ProductionItem, Option<Tech>)> = Vec::new();
        let mut k: usize = 0;
        while k < 41
            invariant
                k <= 41,
                all@ == items,
                items == ProductionItem::all_seq(),
                available@ == items.take(k as int).filter(self.buildable_by(owner)),
                locked@ == items.take(k as int).filter(self.not_buildable_by(owner)).map_values(
                    |item: ProductionItem| (item, self.missing_tech_spec(owner, item)),
                ),
            decreases 41 - k,
        {
            let item = all[k];
            proof {
                assert(items.take(k + 1) =~= items.take(k as int).push(item));
                items.take(k as int).lemma_filter_push(item, self.buildable_by(owner));
                items.take(k as int).lemma_filter_push(item, self.not_buildable_by(owner));
            }
            if self.is_production_available(owner, item) {
                available.push(item);
            } else {
                let missing = self.missing_required_tech_for_item(owner, item);
                proof {
                    let f = |it: ProductionItem| (it, self.missing_tech_spec(owner, it));
                    let before = items.take(k as int).filter(self.not_buildable_by(owner));
                    assert(before.push(item).map_values(f) =~= before.map_values(f).push((item, missing)));
                }
                locked.push((item, missing));
            }
            k += 1;
        }
        assert(items.take(41) =~= items);
        let ghost statics = available@;
        let n: usize = match self.faction(owner) {
            Some(f) => f.unit_designs.len(),
            None => 0,
        };
        let mut d: usize = 0;
        while d < n
            invariant
                d <= n,
                n == (if owner < self.factions@.len() { self.factions@[owner as int].unit_designs@.len() } else { 0 }),
                available@ == statics + Seq::new(d as nat, |i: int| ProductionItem::CustomUnit(i as usize)),
            decreases n - d,
        {
            available.push(ProductionItem::CustomUnit(d));
            assert(statics + Seq::new((d + 1) as nat, |i: int| ProductionItem::CustomUnit(i as usize))
                =~= (statics + Seq::new(d as nat, |i: int| ProductionItem::CustomUnit(i as usize))).push(ProductionItem::CustomUnit(d)));
            d += 1;
        }
        (available, locked)
    }

    /// The tooltip of `item` in `owner`'s production menu: its summary, then whether it
    /// can be built now or which technology it still needs.
    pub fn production_tooltip_for_owner(&self, owner: usize, item: ProductionItem) -> (r: String)
        ensures
            r@ == crate::text::join(presentation::tooltip_lines(item), "\n"@)
                + presentation::status_suffix_text(
                self.production_available_spec(owner, item),
                self.missing_tech_spec(owner, item),
            ),
    {
        let available = self.is_production_available(owner, item);
        let missing = self.missing_required_tech_for_item(owner, item);
        presentation::production_tooltip_summary_with_status(item, available, missing)
    }

    /// The base and facility `owner` would scrap first: the most expensive of its
    /// facilities, the first such in base order.
    pub fn find_scrapable_facility(&self, owner: usize) -> (r: Option<(usize, Facility)>)
        ensures
            r == scrap_choice(owner_facilities(self.bases@, owner)),
    {
        let mut best: Option<(usize, Facility)> = None;
        let mut highest: i32 = -1;
        let mut i: usize = 0;
        while i < self.bases.len()
            invariant
                i <= self.bases@.len(),
                best == scrap_choice(owner_facilities(self.bases@.take(i as int), owner)),
                highest == match best {
                    Some(p) => facility_cost(p.1),
                    None => -1,
                },
            decreases self.bases@.len() - i,
        {
            let ghost before = owner_facilities(self.bases@.take(i as int), owner);
            proof {
                assert(self.bases@.take(i + 1).drop_last() =~= self.bases@.take(i as int));
            }
            if self.bases[i].owner == owner {
                let base = &self.bases[i];
                let mut j: usize = 0;
                while j < base.facilities.len()
                    invariant
                        j <= base.facilities@.len(),
                        best == scrap_choice(before + base.facilities@.take(j as int).map_values(|f: Facility| (base.id, f))),
                        highest == match best {
                            Some(p) => facility_cost(p.1),
                            None => -1,
                        },
                    decreases base.facilities@.len() - j,
                {
                    let f = base.facilities[j];
                    let item = ProductionItem::from_facility(f).unwrap();
                    let cost = crate::content::production_cost(item);
                    proof {
                        let m = |g: Facility| (base.id, g);
                        let s1 = before + base.facilities@.take(j as int).map_values(m);
                        let s2 = before + base.facilities@.take(j + 1).map_values(m);
                        assert(s2 =~= s1.push((base.id, f)));
                        assert(s2.drop_last() =~= s1);
                    }
                    if cost > highest {
                        highest = cost;
                        best = Some((base.id, f));
                    }
                    j += 1;
                }
                proof {
                    assert(base.facilities@.take(base.facilities@.len() as int) =~= base.facilities@);
                }
            }
            i += 1;
        }
        proof {
            assert(self.bases@.take(self.bases@.len() as int) =~= self.bases@);
        }
        best
    }

    /// Tries to queue each of `items` at base `base_id` in order, recording each state passed.
    fn run_queue(&mut self, base_id: usize, items: &Vec<ProductionItem>, from: usize) -> (r: (usize, Ghost<Seq<GameState>>))
        requires
            from <= items@.len(),
        ensures
            queues_applied(r.1@, base_id, items@.skip(from as int)),
            r.1@[0] == *old(self),
            r.1@.last() == *final(self),
            r.0 == queued_count(r.1@, base_id, items@.skip(from as int), items@.len() - from),
            r.0 <= items@.len(),
    {
        let ghost rest = items@.skip(from as int);
        let ghost mut states: Seq<GameState> = seq![*self];
        let mut queued: usize = 0;
        let mut k: usize = from;
        while k < items.len()
            invariant
                from <= k <= items@.len(),
                rest == items@.skip(from as int),
                states.len() == k - from + 1,
                states[0] == *old(self),
                states.last() == *self,
                forall|i: int| 0 <= i < k - from ==> #[trigger] queue_step(states[i], states[i + 1], base_id, rest[i]),
                queued <= k - from,
                queued == queued_count(states, base_id, rest, k - from),
            decreases items@.len() - k,
        {
            let item = items[k];
            assert(rest[k - from] == item);
            let ok = self.queue_base_production(base_id, item).is_ok();
            proof {
                let old_states = states;
                states = states.push(*self);
                assert(queue_step(states[k - from], states[k - from + 1], base_id, rest[k - from]));
                assert forall|i: int| 0 <= i < k - from + 1 implies #[trigger] queue_step(states[i], states[i + 1], base_id, rest[i]) by {
                    if i < k - from {
                        assert(states[i] == old_states[i]);
                        assert(states[i + 1] == old_states[i + 1]);
                    }
                }
                lemma_queued_count_prefix(old_states, states, base_id, rest, k - from);
            }
            if ok {
                queued += 1;
            }
            k += 1;
        }
        (queued, Ghost(states))
    }

    /// What carrying out the named plan `items` at base `base_id` does: an empty plan only
    /// logs `empty_message`; otherwise the first item must become the production (else the
    /// refusal is returned under `label` and nothing changes), the others are queued one
    /// by one, and the outcome is logged under `label`.
    pub open spec fn named_plan_applied(
        old: GameState,
        new: GameState,
        base_id: usize,
        items: Seq<ProductionItem>,
        empty_message: Seq<char>,
        label: Seq<char>,
        r: Result<(), String>,
    ) -> bool {
        &&& items.len() == 0 ==> r is Ok && only_logged(old, new, empty_message)
        &&& items.len() > 0 ==> match old.production_change_refusal(base_id, items[0]) {
            Some(e) => r matches Err(m) && m@ == label + " failed to set production: "@ + e && new == old,
            None => r is Ok && exists|states: Seq<GameState>|
                #[trigger] queues_applied(states, base_id, items.drop_first())
                && GameState::production_switched(old, states[0], base_id, items[0])
                && only_logged(
                    states.last(),
                    new,
                    label + " queued "@ + production_name_text(items[0]) + " and "@ + crate::text::nat_text(
                        queued_count(states, base_id, items.drop_first(), items.len() - 1) as nat,
                    ) + " follow-up item(s)."@,
                ),
        }
    }

    /// Carries out a named plan at base `base_id`: the first item becomes the production,
    /// the others are queued where the base may take them up, and the outcome is logged
    /// under `label`; an empty plan only logs `empty_message`.
    pub(crate) fn apply_named_plan(&mut self, base_id: usize, items: Vec<ProductionItem>, empty_message: &str, label: &str) -> (r: Result<(), String>)
        ensures
            GameState::named_plan_applied(*old(self), *final(self), base_id, items@, empty_message@, label@, r),
    {
        if items.len() == 0 {
            log_general(self, owned(empty_message));
            return Ok(());
        }
        let first = items[0];
        match self.set_base_production(base_id, first) {
            Ok(()) => {},
            Err(err) => {
                let mut message = owned(label);
                push_text(&mut message, " failed to set production: ");
                push_text(&mut message, err.as_str());
                return Err(message);
            },
        }
        let (queued, Ghost(states)) = self.run_queue(base_id, &items, 1);
        assert(items@.skip(1) =~= items@.drop_first());
        let mut message = owned(label);
        push_text(&mut message, " queued ");
        push_text(&mut message, presentation::production_name(first));
        push_text(&mut message, " and ");
        crate::text::push_nat(&mut message, queued as u64);
        push_text(&mut message, " follow-up item(s).");
        log_general(self, message);
        assert(queues_applied(states, base_id, items@.drop_first()));
        Ok(())
    }

    /// Why the queue preview for `tech` cannot be applied at base `base_id`, if it cannot.
    pub open spec fn unlock_preview_refusal(self, base_id: usize, tech: Tech) -> Option<Seq<char>> {
        match self.base_spec(base_id) {
            None => Some("Base not found."@),
            Some(b) => if knows(self.factions@, b.owner, tech) {
                None
            } else {
                Some(tech_name_text(tech) + " is not known by this faction yet."@)
            },
        }
    }

    /// Applies the build plan previewed for when `tech` is known at base `base_id`, once
    /// its owner knows it: `items` as a named plan labelled after the technology.
    pub fn apply_research_unlock_queue_preview_items(&mut self, base_id: usize, tech: Tech, items: Vec<ProductionItem>) -> (r: Result<(), String>)
        ensures
            match old(self).unlock_preview_refusal(base_id, tech) {
                Some(e) => r matches Err(m) && m@ == e && *final(self) == *old(self),
                None => {
                    let label = "Unlock preview "@ + tech_name_text(tech);
                    &&& items@.len() == 0 ==> r is Ok && only_logged(
                        *old(self),
                        *final(self),
                        "No staged unlock preview is waiting on "@ + tech_name_text(tech) + " for this base."@,
                    )
                    &&& items@.len() > 0 ==> match old(self).production_change_refusal(base_id, items@[0]) {
                        Some(e) => r matches Err(m) && m@ == label + " failed to set production: "@ + e && *final(self)
                            == *old(self),
                        None => r is Ok && exists|states: Seq<GameState>|
                            #[trigger] queues_applied(states, base_id, items@.drop_first())
                            && GameState::production_switched(*old(self), states[0], base_id, items@[0])
                            && only_logged(
                                states.last(),
                                *final(self),
                                label + " queued "@ + production_name_text(items@[0]) + " and "@ + crate::text::nat_text(
                                    queued_count(states, base_id, items@.drop_first(), items@.len() - 1) as nat,
                                ) + " follow-up item(s)."@,
                            ),
                    }
                },
            },
    {
        let owner = match self.base(base_id) {
            Some(b) => b.owner,
            None => return Err(owned("Base not found.")),
        };
        let knows_tech = match self.faction(owner) {
            Some(f) => techs_contain(&f.known_techs, tech),
            None => false,
        };
        if !knows_tech {
            let mut message = owned(presentation::tech_name(tech));
            push_text(&mut message, " is not known by this faction yet.");
            return Err(message);
        }
        let mut empty_message = owned("No staged unlock preview is waiting on ");
        push_text(&mut empty_message, presentation::tech_name(tech));
        push_text(&mut empty_message, " for this base.");
        let mut label = owned("Unlock preview ");
        push_text(&mut label, presentation::tech_name(tech));
        self.apply_named_plan(base_id, items, empty_message.as_str(), label.as_str())
    }

    /// Why base `base_id` cannot switch to or queue `item`, if it cannot.
    pub open spec fn production_change_refusal(self, base_id: usize, item: ProductionItem) -> Option<Seq<char>> {
        match self.base_index_spec(base_id) {
            None => Some("Base not found."@),
            Some(i) => {
                let b = self.bases@[i];
                if b.owner >= self.factions@.len() {
                    Some("Base owner is invalid."@)
                } else {
                    build_refusal(b, self.factions@[b.owner as int], item)
                }
            },
        }
    }

    /// Base `base_id` switched to building `item`, from an empty stock and an empty queue.
    pub open spec fn production_switched(old: GameState, new: GameState, base_id: usize, item: ProductionItem) -> bool {
        let i = old.base_index_spec(base_id)->0;
        let b = old.bases@[i];
        &&& changed_base_and_logged(
            old,
            new,
            i,
            b.name@ + " switched production to "@ + production_name_text(item) + "."@,
        )
        &&& base_same_but_production(b, new.bases@[i])
        &&& new.bases@[i].production == item
        &&& new.bases@[i].minerals_stock == 0
        &&& new.bases@[i].production_queue@ == Seq::<ProductionItem>::empty()
    }

    /// Base `base_id` put `item` at the back of its queue.
    pub open spec fn production_queued(old: GameState, new: GameState, base_id: usize, item: ProductionItem) -> bool {
        let i = old.base_index_spec(base_id)->0;
        let b = old.bases@[i];
        &&& changed_base_and_logged(old, new, i, b.name@ + " queued "@ + production_name_text(item) + "."@)
        &&& base_same_but_production(b, new.bases@[i])
        &&& new.bases@[i].production == b.production
        &&& new.bases@[i].minerals_stock == b.minerals_stock
        &&& new.bases@[i].production_queue@ == b.production_queue@.push(item)
    }

    /// Switches base `base_id` to building `item`; the mineral stock restarts and the
    /// queue is emptied.
    pub fn set_base_production(&mut self, base_id: usize, item: ProductionItem) -> (r: Result<(), String>)
        ensures
            match old(self).production_change_refusal(base_id, item) {
                Some(e) => r matches Err(m) && m@ == e && *final(self) == *old(self),
                None => r is Ok && GameState::production_switched(*old(self), *final(self), base_id, item),
            },
    {
        let i = match self.base_index(base_id) {
            Some(i) => i,
            None => return Err(owned("Base not found.")),
        };
        let owner = self.bases[i].owner;
        if owner >= self.factions.len() {
            return Err(owned("Base owner is invalid."));
        }
        match validate_base_build_choice(&self.bases[i], &self.factions[owner], item) {
            Ok(()) => {},
            Err(e) => return Err(e),
        }
        self.bases[i].production = item;
        self.bases[i].minerals_stock = 0;
        self.bases[i].production_queue.clear();
        let mut message = owned(self.bases[i].name.as_str());
        push_text(&mut message, " switched production to ");
        push_text(&mut message, presentation::production_name(item));
        push_text(&mut message, ".");
        assert(self.bases@ =~= old(self).bases@.update(i as int, self.bases@[i as int]));
        log_general(self, message);
        Ok(())
    }

    /// Puts `item` at the back of base `base_id`'s queue.
    pub fn queue_base_production(&mut self, base_id: usize, item: ProductionItem) -> (r: Result<(), String>)
        ensures
            match old(self).production_change_refusal(base_id, item) {
                Some(e) => r matches Err(m) && m@ == e && *final(self) == *old(self),
                None => r is Ok && GameState::production_queued(*old(self), *final(self), base_id, item),
            },
    {
        let i = match self.base_index(base_id) {
            Some(i) => i,
            None => return Err(owned("Base not found.")),
        };
        let owner = self.bases[i].owner;
        if owner >= self.factions.len() {
            return Err(owned("Base owner is invalid."));
        }
        match validate_base_build_choice(&self.bases[i], &self.factions[owner], item) {
            Ok(()) => {},
            Err(e) => return Err(e),
        }
        if items_contain(&self.bases[i].production_queue, item) && item.facility().is_some() {
            return Err(owned("That facility is already queued."));
        }
        self.bases[i].production_queue.push(item);
        let mut message = owned(self.bases[i].name.as_str());
        push_text(&mut message, " queued ");
        push_text(&mut message, presentation::production_name(item));
        push_text(&mut message, ".");
        assert(self.bases@ =~= old(self).bases@.update(i as int, self.bases@[i as int]));
        log_general(self, message);
        Ok(())
    }

    /// Switches production, logging why when it cannot; returns whether it did.
    pub fn set_base_production_action(&mut self, base_id: usize, item: ProductionItem) -> (r: bool)
        ensures
            match old(self).production_change_refusal(base_id, item) {
                Some(e) => !r && only_logged(*old(self), *final(self), "Production change failed: "@ + e),
                None => r && GameState::production_switched(*old(self), *final(self), base_id, item),
            },
    {
        match self.set_base_production(base_id, item) {
            Ok(()) => true,
            Err(err) => {
                let mut message = owned("Production change failed: ");
                push_text(&mut message, err.as_str());
                log_general(self, message);
                false
            },
        }
    }

    /// Queues production, logging why when it cannot; returns whether it did.
    pub fn queue_base_production_action(&mut self, base_id: usize, item: ProductionItem) -> (r: bool)
        ensures
            match old(self).production_change_refusal(base_id, item) {
                Some(e) => !r && only_logged(*old(self), *final(self), "Production queue change failed: "@ + e),
                None => r && GameState::production_queued(*old(self), *final(self), base_id, item),
            },
    {
        match self.queue_base_production(base_id, item) {
            Ok(()) => true,
            Err(err) => {
                let mut message = owned("Production queue change failed: ");
                push_text(&mut message, err.as_str());
                log_general(self, message);
                false
            },
        }
    }
}

} // verus!
