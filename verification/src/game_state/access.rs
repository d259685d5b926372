//! Looking things up in the game state: tiles, units, bases, factions and the log.
use crate::model::{
    Base, CommandCenterTurnTrace, EventCategory, EventLogEntry, Faction, GameState,
    SecretProject, Tile, Unit,
};
use crate::seqs::{
    first_index, first_match, is_first, lemma_first_index_at, lemma_first_index_none,
    lemma_first_match_at, lemma_first_match_none, none_match,
};
use vstd::prelude::*;

verus! {

/// The log keeps at most this many entries; the oldest go first.
pub const LOG_CAPACITY: usize = 10000;

/// Matches a unit that is alive and has the given id.
pub open spec fn live_unit_with_id(id: usize) -> spec_fn(Unit) -> bool {
    |u: Unit| u.id == id && u.alive
}

/// Matches a unit, alive or not, with the given id.
pub open spec fn unit_with_id(id: usize) -> spec_fn(Unit) -> bool {
    |u: Unit| u.id == id
}

/// Matches a unit that is alive and belongs to `owner`.
pub open spec fn live_unit_of(owner: usize) -> spec_fn(Unit) -> bool {
    |u: Unit| u.alive && u.owner == owner
}

/// Matches a base with the given id.
pub open spec fn base_with_id(id: usize) -> spec_fn(Base) -> bool {
    |b: Base| b.id == id
}

/// Matches a base that belongs to `owner`.
pub open spec fn base_of(owner: usize) -> spec_fn(Base) -> bool {
    |b: Base| b.owner == owner
}

/// Matches a command-center trace of `owner` recorded on `turn`.
pub open spec fn trace_of(turn: i32, owner: usize) -> spec_fn(CommandCenterTurnTrace) -> bool {
    |t: CommandCenterTurnTrace| t.turn == turn && t.owner == owner
}

/// Row-major position of `(x, y)` on a map `width` tiles wide.
pub open spec fn tile_index_of(width: usize, x: usize, y: usize) -> int {
    y * width + x
}

/// The log after appending `entry` and dropping the oldest entry when over capacity.
pub open spec fn log_after_push(log: Seq<EventLogEntry>, entry: EventLogEntry) -> Seq<EventLogEntry> {
    let pushed = log.push(entry);
    if pushed.len() > LOG_CAPACITY {
        pushed.drop_first()
    } else {
        pushed
    }
}

/// `new_log` is `old_log` after an entry of `category` with text `message` was appended on
/// turn `turn`.
pub open spec fn logged_as(
    old_log: Seq<EventLogEntry>,
    new_log: Seq<EventLogEntry>,
    category: EventCategory,
    message: Seq<char>,
    turn: i32,
) -> bool {
    &&& new_log.len() > 0
    &&& new_log.last().category == category
    &&& new_log.last().message@ == message
    &&& new_log.last().turn == turn
    &&& new_log == log_after_push(old_log, new_log.last())
}

/// What a log entry says: its category, its text and its turn.
pub open spec fn line_of(e: EventLogEntry) -> (EventCategory, Seq<char>, i32) {
    (e.category, e.message@, e.turn)
}

/// What the log says, entry by entry.
pub open spec fn log_lines(log: Seq<EventLogEntry>) -> Seq<(EventCategory, Seq<char>, i32)> {
    log.map_values(|e: EventLogEntry| line_of(e))
}

/// The log's lines after appending `line`, dropping the oldest when over capacity.
pub open spec fn push_line(
    lines: Seq<(EventCategory, Seq<char>, i32)>,
    line: (EventCategory, Seq<char>, i32),
) -> Seq<(EventCategory, Seq<char>, i32)> {
    let pushed = lines.push(line);
    if pushed.len() > LOG_CAPACITY {
        pushed.drop_first()
    } else {
        pushed
    }
}

/// The log's lines after appending each of `more` in order.
pub open spec fn push_lines(
    lines: Seq<(EventCategory, Seq<char>, i32)>,
    more: Seq<(EventCategory, Seq<char>, i32)>,
) -> Seq<(EventCategory, Seq<char>, i32)>
    decreases more.len(),
{
    if more.len() == 0 {
        lines
    } else {
        push_line(push_lines(lines, more.drop_last()), more.last())
    }
}

/// The log never grows past its capacity: after an append the newest entry is the one
/// appended, and the entries before it are the earlier ones in order, less the oldest
/// when the log was full.
pub proof fn law_log_bounded(log: Seq<EventLogEntry>, entry: EventLogEntry)
    requires
        log.len() <= LOG_CAPACITY,
    ensures
        log_after_push(log, entry).len() <= LOG_CAPACITY,
        log_after_push(log, entry).last() == entry,
        log_after_push(log, entry).drop_last() == if log.len() < LOG_CAPACITY {
            log
        } else {
            log.drop_first()
        },
{
    let pushed = log.push(entry);
    if pushed.len() > LOG_CAPACITY {
        assert(pushed.drop_first().drop_last() =~= log.drop_first());
    } else {
        assert(pushed.drop_last() =~= log);
    }
}

/// Logging one entry appends its line.
pub proof fn lemma_logged_line(
    old_log: Seq<EventLogEntry>,
    new_log: Seq<EventLogEntry>,
    category: EventCategory,
    message: Seq<char>,
    turn: i32,
)
    requires
        logged_as(old_log, new_log, category, message, turn),
    ensures
        log_lines(new_log) == push_line(log_lines(old_log), (category, message, turn)),
{
    let e = new_log.last();
    let pushed = old_log.push(e);
    assert(log_lines(pushed) =~= log_lines(old_log).push(line_of(e)));
    if pushed.len() > LOG_CAPACITY {
        assert(log_lines(pushed.drop_first()) =~= log_lines(pushed).drop_first());
    }
}

/// Appending the lines of `more` then one more line is appending `more` extended by it.
pub proof fn lemma_push_lines_snoc(
    lines: Seq<(EventCategory, Seq<char>, i32)>,
    more: Seq<(EventCategory, Seq<char>, i32)>,
    line: (EventCategory, Seq<char>, i32),
)
    ensures
        push_lines(lines, more.push(line)) == push_line(push_lines(lines, more), line),
{
    assert(more.push(line).drop_last() =~= more);
}

/// Logs `message` under `category`, extending the record `lines` of what was logged
/// since the log read `start`.
pub(crate) fn log_tracked(
    state: &mut GameState,
    category: EventCategory,
    message: String,
    Ghost(start): Ghost<Seq<(EventCategory, Seq<char>, i32)>>,
    Ghost(lines): Ghost<Seq<(EventCategory, Seq<char>, i32)>>,
) -> (r: Ghost<Seq<(EventCategory, Seq<char>, i32)>>)
    requires
        log_lines(old(state).log@) == push_lines(start, lines),
    ensures
        r@ == lines.push((category, message@, old(state).turn)),
        log_lines(final(state).log@) == push_lines(start, r@),
        *final(state) == (GameState { log: final(state).log, ..*old(state) }),
{
    let ghost m = message@;
    let ghost before = state.log@;
    log_event(state, category, message);
    proof {
        lemma_logged_line(before, state.log@, category, m, old(state).turn);
        lemma_push_lines_snoc(start, lines, (category, m, old(state).turn));
    }
    Ghost(lines.push((category, m, old(state).turn)))
}

/// Logs `message` under `category`.
pub(crate) fn log_event(state: &mut GameState, category: EventCategory, message: String)
    ensures
        logged_as(old(state).log@, final(state).log@, category, message@, old(state).turn),
        *final(state) == (GameState { log: final(state).log, ..*old(state) }),
{
    state.push_event_log(category, message);
}

/// Manhattan distance between two map positions.
pub open spec fn manhattan(ax: usize, ay: usize, bx: usize, by: usize) -> int {
    let dx: int = if ax >= bx { ax - bx } else { bx - ax };
    let dy: int = if ay >= by { ay - by } else { by - ay };
    dx + dy
}

/// The hash that drives every pseudo-random event of the game.
pub open spec fn noise_of(seed: u32, x: i32, y: i32, salt: u32) -> u32 {
    let n0 = seed ^ salt ^ vstd::wrapping::u32_specs::wrapping_mul(x as u32, 374_761_393u32)
        ^ vstd::wrapping::u32_specs::wrapping_mul(y as u32, 668_265_263u32);
    let n1 = vstd::wrapping::u32_specs::wrapping_mul(n0 ^ (n0 >> 13u32), 1_274_126_177u32);
    n1 ^ (n1 >> 16u32)
}

/// A field-by-field copy of a command-center trace.
fn copy_trace(t: &CommandCenterTurnTrace) -> (r: CommandCenterTurnTrace)
    ensures
        r == *t,
{
    CommandCenterTurnTrace {
        turn: t.turn,
        owner: t.owner,
        base_id: t.base_id,
        base_name: t.base_name.clone(),
        post_production_stock: t.post_production_stock,
        post_interdiction_stock: t.post_interdiction_stock,
        upkeep_drain: t.upkeep_drain,
        upkeep_order_index: t.upkeep_order_index,
        end_stock: t.end_stock,
    }
}

impl GameState {
    /// The tile at `(x, y)`, when the position lies on the map and the tile exists.
    pub open spec fn tile_at(self, x: usize, y: usize) -> Option<Tile> {
        let i = tile_index_of(self.width, x, y);
        if x < self.width && y < self.height && i < self.tiles@.len() {
            Some(self.tiles@[i])
        } else {
            None
        }
    }

    /// The first live unit with the given id.
    pub open spec fn unit_spec(self, id: usize) -> Option<Unit> {
        first_match(self.units@, live_unit_with_id(id))
    }

    /// The first base with the given id.
    pub open spec fn base_spec(self, id: usize) -> Option<Base> {
        first_match(self.bases@, base_with_id(id))
    }

    /// Whether some unit of `owner` is alive or `owner` holds a base.
    pub open spec fn faction_alive_spec(self, owner: usize) -> bool {
        (exists|i: int| 0 <= i < self.units@.len() && (#[trigger] live_unit_of(owner)(self.units@[i])))
            || (exists|i: int| 0 <= i < self.bases@.len() && (#[trigger] self.bases@[i]).owner == owner)
    }

    /// Position in `units` of the first live unit with id `id`.
    pub open spec fn live_unit_index_spec(self, id: usize) -> Option<int> {
        first_index(self.units@, live_unit_with_id(id))
    }

    /// Position in `units` of the first unit, alive or not, with id `id`.
    pub open spec fn unit_index_spec(self, id: usize) -> Option<int> {
        first_index(self.units@, unit_with_id(id))
    }

    /// Position of the first live unit with id `id`.
    pub(crate) fn live_unit_index(&self, id: usize) -> (r: Option<usize>)
        ensures
            match r {
                Some(i) => self.live_unit_index_spec(id) == Some(i as int) && i < self.units@.len()
                    && self.units@[i as int].id == id && self.units@[i as int].alive,
                None => self.live_unit_index_spec(id) is None,
            },
            self.live_unit_index_spec(id) is Some <==> self.unit_spec(id) is Some,
            match self.live_unit_index_spec(id) {
                Some(i) => self.unit_spec(id) == Some(self.units@[i]),
                None => true,
            },
    {
        let mut i: usize = 0;
        while i < self.units.len()
            invariant
                i <= self.units@.len(),
                forall|j: int| 0 <= j < i ==> !(#[trigger] live_unit_with_id(id)(self.units@[j])),
            decreases self.units@.len() - i,
        {
            if self.units[i].id == id && self.units[i].alive {
                proof {
                    assert(is_first(self.units@, live_unit_with_id(id), i as int));
                    lemma_first_index_at(self.units@, live_unit_with_id(id), i as int);
                }
                return Some(i);
            }
            i += 1;
        }
        proof {
            assert(none_match(self.units@, live_unit_with_id(id)));
            lemma_first_index_none(self.units@, live_unit_with_id(id));
        }
        None
    }

    /// Position of the first unit, alive or not, with id `id`.
    pub(crate) fn unit_index(&self, id: usize) -> (r: Option<usize>)
        ensures
            match r {
                Some(i) => self.unit_index_spec(id) == Some(i as int) && i < self.units@.len()
                    && self.units@[i as int].id == id,
                None => self.unit_index_spec(id) is None && none_match(self.units@, unit_with_id(id)),
            },
    {
        let mut i: usize = 0;
        while i < self.units.len()
            invariant
                i <= self.units@.len(),
                forall|j: int| 0 <= j < i ==> !(#[trigger] unit_with_id(id)(self.units@[j])),
            decreases self.units@.len() - i,
        {
            if self.units[i].id == id {
                proof {
                    assert(is_first(self.units@, unit_with_id(id), i as int));
                    lemma_first_index_at(self.units@, unit_with_id(id), i as int);
                }
                return Some(i);
            }
            i += 1;
        }
        proof {
            assert(none_match(self.units@, unit_with_id(id)));
            lemma_first_index_none(self.units@, unit_with_id(id));
        }
        None
    }

    /// Position in `bases` of the first base with id `id`.
    pub open spec fn base_index_spec(self, id: usize) -> Option<int> {
        first_index(self.bases@, base_with_id(id))
    }

    /// Position of the first base with id `id`.
    pub(crate) fn base_index(&self, id: usize) -> (r: Option<usize>)
        ensures
            match r {
                Some(i) => self.base_index_spec(id) == Some(i as int) && i < self.bases@.len()
                    && self.bases@[i as int].id == id,
                None => self.base_index_spec(id) is None && none_match(self.bases@, base_with_id(id)),
            },
            self.base_index_spec(id) is Some <==> self.base_spec(id) is Some,
            match self.base_index_spec(id) {
                Some(i) => self.base_spec(id) == Some(self.bases@[i]),
                None => true,
            },
    {
        let mut i: usize = 0;
        while i < self.bases.len()
            invariant
                i <= self.bases@.len(),
                forall|j: int| 0 <= j < i ==> !(#[trigger] base_with_id(id)(self.bases@[j])),
            decreases self.bases@.len() - i,
        {
            if self.bases[i].id == id {
                proof {
                    assert(is_first(self.bases@, base_with_id(id), i as int));
                    lemma_first_index_at(self.bases@, base_with_id(id), i as int);
                }
                return Some(i);
            }
            i += 1;
        }
        proof {
            assert(none_match(self.bases@, base_with_id(id)));
            lemma_first_index_none(self.bases@, base_with_id(id));
        }
        None
    }

    /// Row-major index of `(x, y)`.
    pub fn tile_index(&self, x: usize, y: usize) -> (r: usize)
        requires
            tile_index_of(self.width, x, y) <= usize::MAX,
        ensures
            r == tile_index_of(self.width, x, y),
    {
        assert(0 <= y * self.width) by (nonlinear_arith);
        y * self.width + x
    }

    /// The tile at `(x, y)`, or `None` off the map.
    pub fn tile(&self, x: usize, y: usize) -> (r: Option<&Tile>)
        ensures
            match r {
                Some(t) => self.tile_at(x, y) == Some(*t),
                None => self.tile_at(x, y) is None,
            },
    {
        if x >= self.width || y >= self.height {
            return None;
        }
        let row = match y.checked_mul(self.width) {
            Some(v) => v,
            None => {
                assert(tile_index_of(self.width, x, y) > usize::MAX);
                assert(self.tiles@.len() == self.tiles.len());
                return None;
            },
        };
        let idx = match row.checked_add(x) {
            Some(v) => v,
            None => {
                assert(tile_index_of(self.width, x, y) > usize::MAX);
                assert(self.tiles@.len() == self.tiles.len());
                return None;
            },
        };
        if idx < self.tiles.len() {
            Some(&self.tiles[idx])
        } else {
            None
        }
    }

    /// The live unit with id `id`.
    pub fn unit(&self, id: usize) -> (r: Option<&Unit>)
        ensures
            match r {
                Some(u) => self.unit_spec(id) == Some(*u),
                None => self.unit_spec(id) is None,
            },
    {
        let mut i: usize = 0;
        while i < self.units.len()
            invariant
                i <= self.units@.len(),
                forall|j: int| 0 <= j < i ==> !(#[trigger] live_unit_with_id(id)(self.units@[j])),
            decreases self.units@.len() - i,
        {
            if self.units[i].id == id && self.units[i].alive {
                proof {
                    assert(is_first(self.units@, live_unit_with_id(id), i as int));
                    lemma_first_match_at(self.units@, live_unit_with_id(id), i as int);
                }
                return Some(&self.units[i]);
            }
            i += 1;
        }
        proof {
            assert(none_match(self.units@, live_unit_with_id(id)));
            lemma_first_match_none(self.units@, live_unit_with_id(id));
        }
        None
    }

    /// The base with id `id`.
    pub fn base(&self, id: usize) -> (r: Option<&Base>)
        ensures
            match r {
                Some(b) => self.base_spec(id) == Some(*b),
                None => self.base_spec(id) is None,
            },
    {
        let mut i: usize = 0;
        while i < self.bases.len()
            invariant
                i <= self.bases@.len(),
                forall|j: int| 0 <= j < i ==> !(#[trigger] base_with_id(id)(self.bases@[j])),
            decreases self.bases@.len() - i,
        {
            if self.bases[i].id == id {
                proof {
                    assert(is_first(self.bases@, base_with_id(id), i as int));
                    lemma_first_match_at(self.bases@, base_with_id(id), i as int);
                }
                return Some(&self.bases[i]);
            }
            i += 1;
        }
        proof {
            assert(none_match(self.bases@, base_with_id(id)));
            lemma_first_match_none(self.bases@, base_with_id(id));
        }
        None
    }

    /// The faction at index `owner`.
    pub fn faction(&self, owner: usize) -> (r: Option<&Faction>)
        ensures
            match r {
                Some(f) => owner < self.factions@.len() && *f == self.factions@[owner as int],
                None => owner >= self.factions@.len(),
            },
    {
        if owner < self.factions.len() {
            Some(&self.factions[owner])
        } else {
            None
        }
    }

    /// All factions, in owner order.
    pub fn factions(&self) -> (r: &[Faction])
        ensures
            r@ == self.factions@,
    {
        self.factions.as_slice()
    }

    /// The name of faction `owner`, or "Faction" when there is none.
    pub fn faction_name(&self, owner: usize) -> (r: &str)
        ensures
            r@ == if owner < self.factions@.len() {
                self.factions@[owner as int].name@
            } else {
                "Faction"@
            },
    {
        if owner < self.factions.len() {
            self.factions[owner].name.as_str()
        } else {
            "Faction"
        }
    }

    /// The live units of `owner`, in the order they are stored.
    pub fn live_units_for(&self, owner: usize) -> (r: Vec<&Unit>)
        ensures
            r@.map_values(|u: &Unit| *u) == self.units@.filter(live_unit_of(owner)),
    {
        let mut r: Vec<&Unit> = Vec::new();
        let mut k: usize = 0;
        while k < self.units.len()
            invariant
                k <= self.units@.len(),
                r@.map_values(|u: &Unit| *u) == self.units@.take(k as int).filter(live_unit_of(owner)),
            decreases self.units@.len() - k,
        {
            let u = &self.units[k];
            proof {
                assert(self.units@.take(k + 1) =~= self.units@.take(k as int).push(*u));
                self.units@.take(k as int).lemma_filter_push(*u, live_unit_of(owner));
            }
            let ghost before = r@;
            if u.alive && u.owner == owner {
                r.push(u);
                assert(r@.map_values(|u: &Unit| *u) =~= before.map_values(|u: &Unit| *u).push(*u));
            }
            k += 1;
        }
        assert(self.units@.take(self.units@.len() as int) =~= self.units@);
        r
    }

    /// The bases of `owner`, in the order they are stored.
    pub fn bases_for(&self, owner: usize) -> (r: Vec<&Base>)
        ensures
            r@.map_values(|b: &Base| *b) == self.bases@.filter(base_of(owner)),
    {
        let mut r: Vec<&Base> = Vec::new();
        let mut k: usize = 0;
        while k < self.bases.len()
            invariant
                k <= self.bases@.len(),
                r@.map_values(|b: &Base| *b) == self.bases@.take(k as int).filter(base_of(owner)),
            decreases self.bases@.len() - k,
        {
            let b = &self.bases[k];
            proof {
                assert(self.bases@.take(k + 1) =~= self.bases@.take(k as int).push(*b));
                self.bases@.take(k as int).lemma_filter_push(*b, base_of(owner));
            }
            let ghost before = r@;
            if b.owner == owner {
                r.push(b);
                assert(r@.map_values(|b: &Base| *b) =~= before.map_values(|b: &Base| *b).push(*b));
            }
            k += 1;
        }
        assert(self.bases@.take(self.bases@.len() as int) =~= self.bases@);
        r
    }

    /// Whether `owner` has completed `project`.
    pub fn has_secret_project(&self, owner: usize, project: SecretProject) -> (r: bool)
        ensures
            r == exists|i: int|
                0 <= i < self.built_secret_projects@.len()
                    && (#[trigger] self.built_secret_projects@[i]) == (project, owner),
    {
        let mut i: usize = 0;
        while i < self.built_secret_projects.len()
            invariant
                i <= self.built_secret_projects@.len(),
                forall|j: int|
                    0 <= j < i ==> (#[trigger] self.built_secret_projects@[j]) != (project, owner),
            decreases self.built_secret_projects@.len() - i,
        {
            let (p, o) = self.built_secret_projects[i];
            if p == project && o == owner {
                assert(self.built_secret_projects@[i as int] == (project, owner));
                return true;
            }
            i += 1;
        }
        false
    }

    /// Whether a base of another faction than `faction_id` is building `project`.
    pub fn is_other_faction_building_secret_project(&self, faction_id: usize, project: SecretProject) -> (r: bool)
        ensures
            r == exists|i: int|
                0 <= i < self.bases@.len() && (#[trigger] self.bases@[i]).owner != faction_id
                    && self.bases@[i].production.secret_project_of() == Some(project),
    {
        let mut i: usize = 0;
        while i < self.bases.len()
            invariant
                i <= self.bases@.len(),
                forall|j: int|
                    0 <= j < i ==> !((#[trigger] self.bases@[j]).owner != faction_id
                        && self.bases@[j].production.secret_project_of() == Some(project)),
            decreases self.bases@.len() - i,
        {
            let b = &self.bases[i];
            if b.owner != faction_id {
                match b.production.secret_project() {
                    Some(p) => {
                        if p == project {
                            return true;
                        }
                    },
                    None => {},
                }
            }
            i += 1;
        }
        false
    }

    /// Whether `owner` can see the tile at `(x, y)` this turn.
    pub fn tile_visible_to_owner(&self, x: usize, y: usize, owner: usize) -> (r: bool)
        ensures
            r == match self.tile_at(x, y) {
                Some(t) => t.visible_by_owner@.contains(owner),
                None => false,
            },
    {
        broadcast use vstd::std_specs::btree::group_btree_axioms;
        broadcast use vstd::laws_cmp::group_laws_cmp;
        match self.tile(x, y) {
            Some(t) => t.visible_by_owner.contains(&owner),
            None => false,
        }
    }

    /// Whether `owner` has ever explored the tile at `(x, y)`.
    pub fn tile_explored_by_owner(&self, x: usize, y: usize, owner: usize) -> (r: bool)
        ensures
            r == match self.tile_at(x, y) {
                Some(t) => t.explored_by_owner@.contains(owner),
                None => false,
            },
    {
        broadcast use vstd::std_specs::btree::group_btree_axioms;
        broadcast use vstd::laws_cmp::group_laws_cmp;
        match self.tile(x, y) {
            Some(t) => t.explored_by_owner.contains(&owner),
            None => false,
        }
    }

    /// Manhattan distance between `(ax, ay)` and `(bx, by)`, as an `i32`.
    pub fn distance(&self, ax: usize, ay: usize, bx: usize, by: usize) -> (r: i32)
        requires
            manhattan(ax, ay, bx, by) <= usize::MAX,
        ensures
            r == manhattan(ax, ay, bx, by) as i32,
            manhattan(ax, ay, bx, by) <= i32::MAX ==> r == manhattan(ax, ay, bx, by),
    {
        let dx: usize = if ax >= bx { ax - bx } else { bx - ax };
        let dy: usize = if ay >= by { ay - by } else { by - ay };
        (dx + dy) as i32
    }

    /// Whether `(ax, ay)` and `(bx, by)` are distinct and touch, diagonals included.
    pub fn is_adjacent(ax: usize, ay: usize, bx: usize, by: usize) -> (r: bool)
        ensures
            r == {
                let dx: int = if ax >= bx { ax - bx } else { bx - ax };
                let dy: int = if ay >= by { ay - by } else { by - ay };
                dx <= 1 && dy <= 1 && dx + dy > 0
            },
    {
        let dx: usize = if ax >= bx { ax - bx } else { bx - ax };
        let dy: usize = if ay >= by { ay - by } else { by - ay };
        dx <= 1 && dy <= 1 && (dx > 0 || dy > 0)
    }

    /// A deterministic hash of the seed, a position-like pair and a salt.
    pub fn sample_noise(&self, x: i32, y: i32, salt: u32) -> (r: u32)
        ensures
            r == noise_of(self.seed, x, y, salt),
    {
        let n: u32 = self.seed ^ salt ^ (x as u32).wrapping_mul(374_761_393) ^ (y as u32).wrapping_mul(
            668_265_263,
        );
        let n: u32 = (n ^ (n >> 13)).wrapping_mul(1_274_126_177);
        n ^ (n >> 16)
    }

    /// Whether `owner` still has a live unit or a base.
    pub fn faction_alive(&self, owner: usize) -> (r: bool)
        ensures
            r == self.faction_alive_spec(owner),
    {
        let mut i: usize = 0;
        while i < self.units.len()
            invariant
                i <= self.units@.len(),
                forall|j: int| 0 <= j < i ==> !(#[trigger] live_unit_of(owner)(self.units@[j])),
            decreases self.units@.len() - i,
        {
            if self.units[i].alive && self.units[i].owner == owner {
                assert(live_unit_of(owner)(self.units@[i as int]));
                return true;
            }
            i += 1;
        }
        let mut k: usize = 0;
        while k < self.bases.len()
            invariant
                k <= self.bases@.len(),
                forall|j: int| 0 <= j < self.units@.len() ==> !(#[trigger] live_unit_of(owner)(self.units@[j])),
                forall|j: int| 0 <= j < k ==> (#[trigger] self.bases@[j]).owner != owner,
            decreases self.bases@.len() - k,
        {
            if self.bases[k].owner == owner {
                assert(self.bases@[k as int].owner == owner);
                return true;
            }
            k += 1;
        }
        false
    }

    /// Appends a general entry to the log.
    pub fn push_log(&mut self, message: String)
        ensures
            final(self).log@ == log_after_push(
                old(self).log@,
                EventLogEntry { category: EventCategory::General, message, turn: old(self).turn },
            ),
            *final(self) == (GameState { log: final(self).log, ..*old(self) }),
    {
        self.push_event_log(EventCategory::General, message);
    }

    /// Appends an entry of `category` stamped with the current turn, keeping the log
    /// within its capacity by dropping the oldest entry.
    pub fn push_event_log(&mut self, category: EventCategory, message: String)
        ensures
            final(self).log@ == log_after_push(
                old(self).log@,
                EventLogEntry { category, message, turn: old(self).turn },
            ),
            *final(self) == (GameState { log: final(self).log, ..*old(self) }),
    {
        let turn = self.turn;
        self.log.push(EventLogEntry { category, message, turn });
        if self.log.len() > LOG_CAPACITY {
            self.log.remove(0);
        }
    }

    /// The command-center traces of `owner` recorded on the current turn.
    pub fn command_center_turn_traces_for_owner(&self, owner: usize) -> (r: Vec<CommandCenterTurnTrace>)
        ensures
            r@ == self.command_center_turn_traces@.filter(trace_of(self.turn, owner)),
    {
        let mut r: Vec<CommandCenterTurnTrace> = Vec::new();
        let mut k: usize = 0;
        let ghost p = trace_of(self.turn, owner);
        while k < self.command_center_turn_traces.len()
            invariant
                k <= self.command_center_turn_traces@.len(),
                p == trace_of(self.turn, owner),
                r@ == self.command_center_turn_traces@.take(k as int).filter(p),
            decreases self.command_center_turn_traces@.len() - k,
        {
            let t = &self.command_center_turn_traces[k];
            proof {
                assert(self.command_center_turn_traces@.take(k + 1)
                    =~= self.command_center_turn_traces@.take(k as int).push(*t));
                self.command_center_turn_traces@.take(k as int).lemma_filter_push(*t, p);
            }
            if t.turn == self.turn && t.owner == owner {
                r.push(copy_trace(t));
            }
            k += 1;
        }
        assert(self.command_center_turn_traces@.take(
            self.command_center_turn_traces@.len() as int,
        ) =~= self.command_center_turn_traces@);
        r
    }
}

} // verus!
