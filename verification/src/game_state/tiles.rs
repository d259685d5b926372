//! What the map yields, costs and shows, tile by tile.
use crate::model::{GameState, Improvement, Terrain, Unit, UnitKind, Yields};
use crate::presentation;
use crate::text::owned;
use vstd::prelude::*;

verus! {

/// The amount-wise sum of two yields, for amounts that fit.
pub open spec fn yields_plus(a: Yields, b: Yields) -> Yields {
    Yields {
        nutrients: (a.nutrients + b.nutrients) as i32,
        minerals: (a.minerals + b.minerals) as i32,
        energy: (a.energy + b.energy) as i32,
    }
}

/// No yields at all.
pub open spec fn no_yields() -> Yields {
    Yields { nutrients: 0, minerals: 0, energy: 0 }
}

/// The bonus of an optional improvement; nothing for none.
pub open spec fn improvement_bonus(improvement: Option<Improvement>) -> Yields {
    match improvement {
        Some(i) => i.bonus_yields(),
        None => no_yields(),
    }
}

/// The improvements a former may offer on land, in the order they are listed.
pub open spec fn land_improvement_options() -> Seq<Improvement> {
    seq![
        Improvement::Farm,
        Improvement::Mine,
        Improvement::Solar,
        Improvement::Forest,
        Improvement::ThermalBorehole,
    ]
}

/// One step of `c` toward `t`.
pub open spec fn step_coord(c: usize, t: usize) -> usize {
    if c < t {
        (c + 1) as usize
    } else if c > t {
        (c - 1) as usize
    } else {
        c
    }
}

/// The straight-then-diagonal path from `(cx, cy)` toward `(tx, ty)`, at most `n` steps long.
pub open spec fn path_toward(cx: usize, cy: usize, tx: usize, ty: usize, n: nat) -> Seq<(usize, usize)>
    decreases n,
{
    if n == 0 || (cx == tx && cy == ty) {
        Seq::empty()
    } else {
        let nx = step_coord(cx, tx);
        let ny = step_coord(cy, ty);
        seq![(nx, ny)] + path_toward(nx, ny, tx, ty, (n - 1) as nat)
    }
}

/// The king's-move distance between two tiles: the larger of the two axis distances.
pub open spec fn king_distance(ax: usize, ay: usize, bx: usize, by: usize) -> int {
    let dx: int = if ax >= bx { ax - bx } else { bx - ax };
    let dy: int = if ay >= by { ay - by } else { by - ay };
    if dx >= dy { dx } else { dy }
}

/// The position a path is at before its step `k`.
pub open spec fn path_before(cx: usize, cy: usize, path: Seq<(usize, usize)>, k: int) -> (usize, usize) {
    if k == 0 { (cx, cy) } else { path[k - 1] }
}

/// A planned path goes one king's move at a time, each step one tile closer to the
/// target, and has as many steps as the target is far, up to the step limit: when the
/// target lies within the limit the path ends on it.
pub proof fn law_path_steps(cx: usize, cy: usize, tx: usize, ty: usize, n: nat)
    ensures
        ({
            let p = path_toward(cx, cy, tx, ty, n);
            let d = king_distance(cx, cy, tx, ty);
            &&& p.len() == if d <= n { d } else { n as int }
            &&& forall|k: int| 0 <= k < p.len() ==> {
                let (px, py) = path_before(cx, cy, p, k);
                &&& king_distance(px, py, (#[trigger] p[k]).0, p[k].1) == 1
                &&& king_distance(p[k].0, p[k].1, tx, ty) == king_distance(px, py, tx, ty) - 1
            }
            &&& d <= n && p.len() > 0 ==> p.last() == (tx, ty)
        }),
    decreases n,
{
    let p = path_toward(cx, cy, tx, ty, n);
    if n == 0 || (cx == tx && cy == ty) {
    } else {
        let nx = step_coord(cx, tx);
        let ny = step_coord(cy, ty);
        law_path_steps(nx, ny, tx, ty, (n - 1) as nat);
        let rest = path_toward(nx, ny, tx, ty, (n - 1) as nat);
        assert(p == seq![(nx, ny)] + rest);
        assert forall|k: int| 0 <= k < p.len() implies {
            let (px, py) = path_before(cx, cy, p, k);
            &&& king_distance(px, py, (#[trigger] p[k]).0, p[k].1) == 1
            &&& king_distance(p[k].0, p[k].1, tx, ty) == king_distance(px, py, tx, ty) - 1
        } by {
            if k > 0 {
                assert(p[k] == rest[k - 1]);
                assert(path_before(cx, cy, p, k) == path_before(nx, ny, rest, k - 1));
            }
        }
        if rest.len() > 0 {
            assert(p.last() == rest.last());
        }
    }
}

/// The longest path `unit_path_to` plans.
pub const PATH_STEP_LIMIT: usize = 50;

/// Manhattan distance measured through `i32` coordinates.
pub open spec fn i32_distance(ax: usize, ay: usize, bx: usize, by: usize) -> int {
    let dx: int = (ax as i32) as int - (bx as i32) as int;
    let dy: int = (ay as i32) as int - (by as i32) as int;
    (if dx < 0 { -dx } else { dx }) + (if dy < 0 { -dy } else { dy })
}

/// Whether that distance can be computed in `i32` without overflow.
pub open spec fn i32_distance_fits(ax: usize, ay: usize, bx: usize, by: usize) -> bool {
    let dx: int = (ax as i32) as int - (bx as i32) as int;
    let dy: int = (ay as i32) as int - (by as i32) as int;
    &&& -i32::MAX <= dx <= i32::MAX
    &&& -i32::MAX <= dy <= i32::MAX
    &&& i32_distance(ax, ay, bx, by) <= i32::MAX
}

/// `|a - b|` in `i32`, for values whose difference fits.
pub(crate) fn i32_abs_diff(a: usize, b: usize) -> (r: i32)
    requires
        -i32::MAX <= (a as i32) as int - (b as i32) as int <= i32::MAX,
    ensures
        r == (if ((a as i32) as int - (b as i32) as int) < 0 {
            (b as i32) as int - (a as i32) as int
        } else {
            (a as i32) as int - (b as i32) as int
        }),
{
    let d = (a as i32) - (b as i32);
    if d < 0 {
        -d
    } else {
        d
    }
}

/// A coordinate that can move one step either way once taken through `isize`.
pub open spec fn isize_step_safe(v: usize) -> bool {
    isize::MIN < (v as isize) < isize::MAX
}

/// The psionic weight of a hostile psi unit at distance `d`.
pub open spec fn psi_weight(d: int) -> int {
    if d <= 2 {
        3
    } else if d <= 4 {
        2
    } else {
        1
    }
}

/// Whether `u` is a live psionic unit of another faction than `owner`.
pub open spec fn is_hostile_psi(u: Unit, owner: usize) -> bool {
    u.alive && u.owner != owner && (u.kind is MindWorm || u.kind is TranceScout
        || u.kind is PsiSentinel)
}

/// The psionic pressure that `units` put on `(x, y)` against `owner`.
pub open spec fn psi_threat_sum(units: Seq<Unit>, owner: usize, x: usize, y: usize) -> int
    decreases units.len(),
{
    if units.len() == 0 {
        0
    } else {
        let u = units.last();
        let d = i32_distance(u.x, u.y, x, y);
        psi_threat_sum(units.drop_last(), owner, x, y) + if is_hostile_psi(u, owner) && d <= 6 {
            psi_weight(d)
        } else {
            0
        }
    }
}

proof fn lemma_psi_threat_monotone(units: Seq<Unit>, owner: usize, x: usize, y: usize, k: int)
    requires
        0 <= k <= units.len(),
    ensures
        0 <= psi_threat_sum(units.take(k), owner, x, y) <= psi_threat_sum(units, owner, x, y),
    decreases units.len(),
{
    if units.len() > 0 {
        if k == units.len() {
            assert(units.take(k) =~= units);
            lemma_psi_threat_monotone(units.drop_last(), owner, x, y, units.len() - 1);
            assert(units.drop_last().take(units.len() - 1) =~= units.drop_last());
        } else {
            lemma_psi_threat_monotone(units.drop_last(), owner, x, y, k);
            assert(units.drop_last().take(k) =~= units.take(k));
        }
    }
}

impl GameState {
    /// A tile's yields with `improvement` in place of whatever stands there.
    pub open spec fn yields_with_improvement_spec(self, x: usize, y: usize, improvement: Option<Improvement>) -> Yields {
        match self.tile_at(x, y) {
            Some(t) => yields_plus(t.terrain.base_yields(), improvement_bonus(improvement)),
            None => no_yields(),
        }
    }

    /// Whether the neighbour of `(x, y)` at offset `(dx, dy)` lies on the map and holds `target`,
    /// with coordinates taken through `isize`.
    pub open spec fn neighbour_has(self, x: usize, y: usize, dx: int, dy: int, target: Improvement) -> bool {
        let nx: int = (x as isize) as int + dx;
        let ny: int = (y as isize) as int + dy;
        &&& 0 <= nx < (self.width as isize) as int
        &&& 0 <= ny < (self.height as isize) as int
        &&& self.tile_at(nx as usize, ny as usize) matches Some(t)
        &&& t.improvement == Some(target)
    }

    /// How many of the eight neighbours of `(x, y)` hold `target`.
    pub open spec fn adjacent_count_spec(self, x: usize, y: usize, target: Improvement) -> int {
        (if self.neighbour_has(x, y, -1, -1, target) { 1int } else { 0 })
            + (if self.neighbour_has(x, y, 0, -1, target) { 1int } else { 0 })
            + (if self.neighbour_has(x, y, 1, -1, target) { 1int } else { 0 })
            + (if self.neighbour_has(x, y, -1, 0, target) { 1int } else { 0 })
            + (if self.neighbour_has(x, y, 1, 0, target) { 1int } else { 0 })
            + (if self.neighbour_has(x, y, -1, 1, target) { 1int } else { 0 })
            + (if self.neighbour_has(x, y, 0, 1, target) { 1int } else { 0 })
            + (if self.neighbour_has(x, y, 1, 1, target) { 1int } else { 0 })
    }

    /// What the tile at `(x, y)` yields this turn.
    pub open spec fn tile_total_yields_spec(self, x: usize, y: usize) -> Yields {
        match self.tile_at(x, y) {
            None => no_yields(),
            Some(t) => if self.tidal_chaos_turns_left > 0 && t.terrain != Terrain::Ocean
                && t.terrain != Terrain::Crater && t.elevation <= 0 {
                no_yields()
            } else {
                let with_improvement = yields_plus(t.terrain.base_yields(), improvement_bonus(t.improvement));
                if t.improvement == Some(Improvement::Condenser) {
                    Yields { nutrients: (with_improvement.nutrients * 2) as i32, ..with_improvement }
                } else if t.improvement == Some(Improvement::Solar) {
                    Yields {
                        energy: (with_improvement.energy + self.adjacent_count_spec(
                            x,
                            y,
                            Improvement::EchelonMirror,
                        )) as i32,
                        ..with_improvement
                    }
                } else {
                    with_improvement
                }
            },
        }
    }

    /// The base with id `id` decides who controls `(x, y)` when it is the first of the
    /// closest bases.
    pub open spec fn is_first_closest_base(self, x: usize, y: usize, i: int) -> bool {
        &&& 0 <= i < self.bases@.len()
        &&& forall|j: int| 0 <= j < self.bases@.len() ==> i32_distance(
            self.bases@[i].x,
            self.bases@[i].y,
            x,
            y,
        ) <= #[trigger] i32_distance(self.bases@[j].x, self.bases@[j].y, x, y)
        &&& forall|j: int| 0 <= j < i ==> i32_distance(self.bases@[i].x, self.bases@[i].y, x, y)
            < #[trigger] i32_distance(self.bases@[j].x, self.bases@[j].y, x, y)
    }

    /// The owner of the first closest base to `(x, y)`; `None` without bases.
    pub open spec fn control_owner_spec(self, x: usize, y: usize) -> Option<usize> {
        if exists|i: int| self.is_first_closest_base(x, y, i) {
            Some(self.bases@[choose|i: int| self.is_first_closest_base(x, y, i)].owner)
        } else {
            None
        }
    }

    /// Only one base is the first closest.
    pub proof fn lemma_first_closest_unique(self, x: usize, y: usize, i: int, j: int)
        requires
            self.is_first_closest_base(x, y, i),
            self.is_first_closest_base(x, y, j),
        ensures
            i == j,
    {
        if i < j {
            assert(i32_distance(self.bases@[j].x, self.bases@[j].y, x, y) < i32_distance(self.bases@[i].x, self.bases@[i].y, x, y));
        } else if j < i {
            assert(i32_distance(self.bases@[i].x, self.bases@[i].y, x, y) < i32_distance(self.bases@[j].x, self.bases@[j].y, x, y));
        }
    }

    /// Every base's distance to `(x, y)` can be computed in `i32`.
    pub open spec fn control_distances_fit(self, x: usize, y: usize) -> bool {
        forall|j: int|
            0 <= j < self.bases@.len() ==> #[trigger] i32_distance_fits(
                self.bases@[j].x,
                self.bases@[j].y,
                x,
                y,
            )
    }

    /// A tile's yields with `improvement` in place of whatever stands there.
    fn calculate_tile_yields_with_improvement(&self, x: usize, y: usize, improvement: Option<Improvement>) -> (r: Yields)
        ensures
            r == self.yields_with_improvement_spec(x, y, improvement),
    {
        let tile = match self.tile(x, y) {
            Some(t) => t,
            None => return Yields { nutrients: 0, minerals: 0, energy: 0 },
        };
        let base = tile.terrain.yields();
        let imp_bonus = match improvement {
            Some(i) => i.yields(),
            None => Yields { nutrients: 0, minerals: 0, energy: 0 },
        };
        Yields {
            nutrients: base.nutrients + imp_bonus.nutrients,
            minerals: base.minerals + imp_bonus.minerals,
            energy: base.energy + imp_bonus.energy,
        }
    }

    /// The yields each land improvement would give the tile at `(x, y)`; nothing on water
    /// or off the map.
    pub fn tile_potential_improvements(&self, x: usize, y: usize) -> (r: Vec<(Improvement, Yields)>)
        ensures
            r@ == match self.tile_at(x, y) {
                Some(t) => if t.terrain != Terrain::Ocean && t.terrain != Terrain::Crater {
                    land_improvement_options().map_values(
                        |i: Improvement| (i, self.yields_with_improvement_spec(x, y, Some(i))),
                    )
                } else {
                    Seq::empty()
                },
                None => Seq::empty(),
            },
    {
        let tile = match self.tile(x, y) {
            Some(t) => t,
            None => return Vec::new(),
        };
        let mut potentials: Vec<(Improvement, Yields)> = Vec::new();
        if tile.terrain.is_land() {
            let options = [
                Improvement::Farm,
                Improvement::Mine,
                Improvement::Solar,
                Improvement::Forest,
                Improvement::ThermalBorehole,
            ];
            assert(options@ == land_improvement_options());
            let mut k: usize = 0;
            while k < 5
                invariant
                    k <= 5,
                    options@ == land_improvement_options(),
                    potentials@ == land_improvement_options().take(k as int).map_values(
                        |i: Improvement| (i, self.yields_with_improvement_spec(x, y, Some(i))),
                    ),
                decreases 5 - k,
            {
                let opt = options[k];
                let yields = self.calculate_tile_yields_with_improvement(x, y, Some(opt));
                potentials.push((opt, yields));
                assert(land_improvement_options().take(k + 1) =~= land_improvement_options().take(
                    k as int,
                ).push(opt));
                k += 1;
            }
            assert(land_improvement_options().take(5) =~= land_improvement_options());
        }
        potentials
    }

    /// How many of the eight neighbours of `(x, y)` hold `target`.
    pub fn count_adjacent_improvements(&self, x: usize, y: usize, target: Improvement) -> (r: usize)
        requires
            isize_step_safe(x),
            isize_step_safe(y),
        ensures
            r == self.adjacent_count_spec(x, y, target),
    {
        let mut count: usize = 0;
        let w = self.width as isize;
        let h = self.height as isize;
        let offsets: [(isize, isize); 8] = [
            (-1, -1),
            (0, -1),
            (1, -1),
            (-1, 0),
            (1, 0),
            (-1, 1),
            (0, 1),
            (1, 1),
        ];
        let ghost counted = seq![
            self.neighbour_has(x, y, -1, -1, target),
            self.neighbour_has(x, y, 0, -1, target),
            self.neighbour_has(x, y, 1, -1, target),
            self.neighbour_has(x, y, -1, 0, target),
            self.neighbour_has(x, y, 1, 0, target),
            self.neighbour_has(x, y, -1, 1, target),
            self.neighbour_has(x, y, 0, 1, target),
            self.neighbour_has(x, y, 1, 1, target),
        ];
        let mut k: usize = 0;
        while k < 8
            invariant
                k <= 8,
                isize_step_safe(x),
                isize_step_safe(y),
                w == self.width as isize,
                h == self.height as isize,
                offsets@ == seq![
                    (-1isize, -1isize),
                    (0isize, -1isize),
                    (1isize, -1isize),
                    (-1isize, 0isize),
                    (1isize, 0isize),
                    (-1isize, 1isize),
                    (0isize, 1isize),
                    (1isize, 1isize),
                ],
                forall|j: int| 0 <= j < 8 ==> #[trigger] counted[j] == self.neighbour_has(
                    x,
                    y,
                    offsets@[j].0 as int,
                    offsets@[j].1 as int,
                    target,
                ),
                counted.len() == 8,
                count <= k,
                count == counted.take(k as int).filter(|b: bool| b).len(),
            decreases 8 - k,
        {
            let (dx, dy) = offsets[k];
            let nx = x as isize + dx;
            let ny = y as isize + dy;
            let mut hit = false;
            if nx >= 0 && nx < w && ny >= 0 && ny < h {
                match self.tile(nx as usize, ny as usize) {
                    Some(tile) => {
                        if tile.improvement == Some(target) {
                            hit = true;
                        }
                    },
                    None => {},
                }
            }
            assert(hit == counted[k as int]);
            proof {
                assert(counted.take(k + 1) =~= counted.take(k as int).push(counted[k as int]));
                counted.take(k as int).lemma_filter_push(counted[k as int], |b: bool| b);
                counted.take(k as int).lemma_filter_len(|b: bool| b);
            }
            if hit {
                count += 1;
            }
            k += 1;
        }
        assert(counted.take(8) =~= counted);
        reveal_with_fuel(Seq::filter, 9);
        count
    }

    /// What the tile at `(x, y)` yields this turn: nothing off the map or on flooded land,
    /// otherwise terrain and improvement, with condensers doubling nutrients and each
    /// neighbouring echelon mirror adding one energy to a solar collector.
    pub fn tile_total_yields(&self, x: usize, y: usize) -> (r: Yields)
        requires
            isize_step_safe(x),
            isize_step_safe(y),
        ensures
            r == self.tile_total_yields_spec(x, y),
    {
        let tile = match self.tile(x, y) {
            Some(t) => t,
            None => return Yields { nutrients: 0, minerals: 0, energy: 0 },
        };
        if self.tidal_chaos_turns_left > 0 && tile.terrain.is_land() && tile.elevation <= 0 {
            return Yields { nutrients: 0, minerals: 0, energy: 0 };
        }
        let mut total = tile.terrain.yields();
        match tile.improvement {
            Some(improvement) => {
                total = total.add(improvement.yields());
            },
            None => {},
        }
        if tile.improvement == Some(Improvement::Condenser) {
            total.nutrients = total.nutrients * 2;
        }
        if tile.improvement == Some(Improvement::Solar) {
            let adjacent_mirrors = self.count_adjacent_improvements(x, y, Improvement::EchelonMirror);
            assert(adjacent_mirrors <= 8);
            total.energy = total.energy + adjacent_mirrors as i32;
        }
        total
    }

    /// The formatted yields of the tile at `(x, y)`.
    pub fn tile_yield_summary(&self, x: usize, y: usize) -> (r: String)
        requires
            isize_step_safe(x),
            isize_step_safe(y),
        ensures
            r@ == presentation::yields_text(self.tile_total_yields_spec(x, y)),
    {
        presentation::format_yields(self.tile_total_yields(x, y))
    }

    /// The panel summary of the tile at `(x, y)`; `None` off the map.
    pub fn tile_panel_summary(&self, x: usize, y: usize) -> (r: Option<presentation::TilePanelSummary<'_>>)
        requires
            isize_step_safe(x),
            isize_step_safe(y),
        ensures
            match self.tile_at(x, y) {
                None => r is None,
                Some(t) => r matches Some(s) && s.coordinates@ == presentation::coordinates_text(t.x, t.y)
                    && s.terrain_name@ == presentation::terrain_name_text(t.terrain)
                    && s.elevation == t.elevation && s.moisture == t.moisture
                    && s.yield_summary@ == presentation::yields_text(self.tile_total_yields_spec(x, y))
                    && presentation::opt_view(s.improvement_name) == (match t.improvement {
                        Some(i) => Some(presentation::improvement_name_text(i)),
                        None => None,
                    }),
            },
    {
        let tile = match self.tile(x, y) {
            Some(t) => t,
            None => return None,
        };
        Some(
            presentation::tile_panel_summary(
                tile.terrain,
                tile.x,
                tile.y,
                tile.elevation,
                tile.moisture,
                self.tile_total_yields(x, y),
                tile.improvement,
            ),
        )
    }

    /// What it costs the unit `unit_id` to enter `(x, y)`: 99 where it cannot go, else by terrain.
    pub fn tile_move_cost(&self, unit_id: usize, x: usize, y: usize) -> (r: i32)
        ensures
            r == match self.tile_at(x, y) {
                None => 99i32,
                Some(t) => {
                    let land = t.terrain != Terrain::Ocean && t.terrain != Terrain::Crater;
                    if !land && !self.unit_can_enter_ocean_spec(unit_id) {
                        99i32
                    } else if land && !self.unit_can_enter_land_spec(unit_id) {
                        99i32
                    } else {
                        match t.terrain {
                            Terrain::Rocky => 2i32,
                            Terrain::Rolling => 1i32,
                            Terrain::Flat => 1i32,
                            Terrain::Ocean => 1i32,
                            Terrain::Fungus => 3i32,
                            Terrain::Crater => 3i32,
                        }
                    }
                },
            },
    {
        let tile = match self.tile(x, y) {
            Some(t) => t,
            None => return 99,
        };
        if !tile.terrain.is_land() && !self.unit_can_enter_ocean(unit_id) {
            return 99;
        }
        if tile.terrain.is_land() && !self.unit_can_enter_land(unit_id) {
            return 99;
        }
        match tile.terrain {
            Terrain::Rocky => 2,
            Terrain::Rolling => 1,
            Terrain::Flat => 1,
            Terrain::Ocean => 1,
            Terrain::Fungus => 3,
            Terrain::Crater => 3,
        }
    }

    /// The path the unit `unit_id` would walk toward `(target_x, target_y)`: each step moves
    /// one square along each axis that differs, for at most fifty steps.
    pub fn unit_path_to(&self, unit_id: usize, target_x: usize, target_y: usize) -> (r: Vec<(usize, usize)>)
        ensures
            r@ == match self.unit_spec(unit_id) {
                Some(u) => path_toward(u.x, u.y, target_x, target_y, PATH_STEP_LIMIT as nat),
                None => Seq::empty(),
            },
    {
        let unit = match self.unit(unit_id) {
            Some(u) => u,
            None => return Vec::new(),
        };
        let mut path: Vec<(usize, usize)> = Vec::new();
        let mut cx = unit.x;
        let mut cy = unit.y;
        while (cx != target_x || cy != target_y) && path.len() < PATH_STEP_LIMIT
            invariant
                path@.len() <= PATH_STEP_LIMIT,
                path@ + path_toward(cx, cy, target_x, target_y, (PATH_STEP_LIMIT - path@.len()) as nat)
                    == path_toward(unit.x, unit.y, target_x, target_y, PATH_STEP_LIMIT as nat),
            decreases PATH_STEP_LIMIT - path@.len(),
        {
            let ghost n = (PATH_STEP_LIMIT - path@.len()) as nat;
            let ghost before = path@;
            let ghost (ox, oy) = (cx, cy);
            if cx < target_x {
                cx += 1;
            } else if cx > target_x {
                cx -= 1;
            }
            if cy < target_y {
                cy += 1;
            } else if cy > target_y {
                cy -= 1;
            }
            path.push((cx, cy));
            assert(path_toward(ox, oy, target_x, target_y, n) == seq![(cx, cy)] + path_toward(
                cx,
                cy,
                target_x,
                target_y,
                (n - 1) as nat,
            ));
            assert(path@ + path_toward(cx, cy, target_x, target_y, (n - 1) as nat) =~= before
                + path_toward(ox, oy, target_x, target_y, n));
        }
        assert(path_toward(cx, cy, target_x, target_y, (PATH_STEP_LIMIT - path@.len()) as nat)
            =~= Seq::<(usize, usize)>::empty());
        assert(path@ =~= path@ + Seq::<(usize, usize)>::empty());
        path
    }

    /// The owner of the first base closest to `(x, y)`, measuring distance through `i32`
    /// coordinates; `None` when there are no bases.
    pub fn control_owner_at(&self, x: usize, y: usize) -> (r: Option<usize>)
        requires
            self.control_distances_fit(x, y),
        ensures
            r == self.control_owner_spec(x, y),
            self.bases@.len() == 0 ==> r is None,
            self.bases@.len() > 0 ==> exists|i: int|
                self.is_first_closest_base(x, y, i) && r == Some(#[trigger] self.bases@[i].owner),
    {
        if self.bases.len() == 0 {
            assert(!exists|i: int| self.is_first_closest_base(x, y, i));
            return None;
        }
        assert(i32_distance_fits(self.bases@[0].x, self.bases@[0].y, x, y));
        let mut best: usize = 0;
        let mut best_key: i32 = i32_abs_diff(self.bases[0].x, x) + i32_abs_diff(self.bases[0].y, y);
        let mut k: usize = 1;
        while k < self.bases.len()
            invariant
                1 <= k <= self.bases@.len(),
                best < k,
                self.control_distances_fit(x, y),
                best_key == i32_distance(self.bases@[best as int].x, self.bases@[best as int].y, x, y),
                forall|j: int| 0 <= j < k ==> best_key <= #[trigger] i32_distance(
                    self.bases@[j].x,
                    self.bases@[j].y,
                    x,
                    y,
                ),
                forall|j: int| 0 <= j < best ==> best_key < #[trigger] i32_distance(
                    self.bases@[j].x,
                    self.bases@[j].y,
                    x,
                    y,
                ),
            decreases self.bases@.len() - k,
        {
            assert(i32_distance_fits(self.bases@[k as int].x, self.bases@[k as int].y, x, y));
            let key = i32_abs_diff(self.bases[k].x, x) + i32_abs_diff(self.bases[k].y, y);
            if key < best_key {
                best = k;
                best_key = key;
            }
            k += 1;
        }
        assert(self.is_first_closest_base(x, y, best as int));
        proof {
            let c = choose|i: int| self.is_first_closest_base(x, y, i);
            self.lemma_first_closest_unique(x, y, c, best as int);
        }
        Some(self.bases[best].owner)
    }

    /// The four orthogonal neighbours of `(x, y)`, clamped at the edges of `usize`.
    pub open spec fn border_neighbours(x: usize, y: usize) -> Seq<(usize, usize)> {
        seq![
            (if x == 0 { 0usize } else { (x - 1) as usize }, y),
            (if x == usize::MAX { usize::MAX } else { (x + 1) as usize }, y),
            (x, if y == 0 { 0usize } else { (y - 1) as usize }),
            (x, if y == usize::MAX { usize::MAX } else { (y + 1) as usize }),
        ]
    }

    /// Whether some orthogonal neighbour of `(x, y)` on the map is controlled by another
    /// owner than `(x, y)` itself.
    pub open spec fn is_border_spec(self, x: usize, y: usize) -> bool {
        exists|k: int|
            0 <= k < 4 && (#[trigger] GameState::border_neighbours(x, y)[k]).0 < self.width
                && GameState::border_neighbours(x, y)[k].1 < self.height && self.control_owner_spec(
                GameState::border_neighbours(x, y)[k].0,
                GameState::border_neighbours(x, y)[k].1,
            ) != self.control_owner_spec(x, y)
    }

    /// Whether `(x, y)` lies on a border between areas of control.
    pub fn is_border_tile(&self, x: usize, y: usize) -> (r: bool)
        requires
            self.control_distances_fit(x, y),
            forall|k: int|
                0 <= k < 4 && (#[trigger] GameState::border_neighbours(x, y)[k]).0 < self.width
                    && GameState::border_neighbours(x, y)[k].1 < self.height ==> self.control_distances_fit(
                    GameState::border_neighbours(x, y)[k].0,
                    GameState::border_neighbours(x, y)[k].1,
                ),
        ensures
            r == self.is_border_spec(x, y),
    {
        let owner = self.control_owner_at(x, y);
        let neighbours: [(usize, usize); 4] = [
            (x.saturating_sub(1), y),
            (x.saturating_add(1), y),
            (x, y.saturating_sub(1)),
            (x, y.saturating_add(1)),
        ];
        assert(neighbours@ =~= GameState::border_neighbours(x, y));
        let mut k: usize = 0;
        while k < 4
            invariant
                k <= 4,
                neighbours@ == GameState::border_neighbours(x, y),
                owner == self.control_owner_spec(x, y),
                forall|m: int|
                    0 <= m < 4 && (#[trigger] GameState::border_neighbours(x, y)[m]).0 < self.width
                        && GameState::border_neighbours(x, y)[m].1 < self.height ==> self.control_distances_fit(
                        GameState::border_neighbours(x, y)[m].0,
                        GameState::border_neighbours(x, y)[m].1,
                    ),
                forall|m: int|
                    0 <= m < k ==> !((#[trigger] GameState::border_neighbours(x, y)[m]).0 < self.width
                        && GameState::border_neighbours(x, y)[m].1 < self.height && self.control_owner_spec(
                        GameState::border_neighbours(x, y)[m].0,
                        GameState::border_neighbours(x, y)[m].1,
                    ) != self.control_owner_spec(x, y)),
            decreases 4 - k,
        {
            let (nx, ny) = neighbours[k];
            assert((nx, ny) == GameState::border_neighbours(x, y)[k as int]);
            if nx < self.width && ny < self.height {
                let other = self.control_owner_at(nx, ny);
                if other != owner {
                    return true;
                }
            }
            k += 1;
        }
        false
    }

    /// The psionic pressure that hostile psi units within six steps put on `(x, y)`:
    /// three for those within two steps, two within four, one beyond.
    pub fn psi_threat_at(&self, owner: usize, x: usize, y: usize) -> (r: i32)
        requires
            forall|j: int|
                0 <= j < self.units@.len() && is_hostile_psi(self.units@[j], owner)
                    ==> #[trigger] i32_distance_fits(self.units@[j].x, self.units@[j].y, x, y),
            psi_threat_sum(self.units@, owner, x, y) <= i32::MAX,
        ensures
            r == psi_threat_sum(self.units@, owner, x, y),
    {
        let mut total: i32 = 0;
        let mut k: usize = 0;
        while k < self.units.len()
            invariant
                k <= self.units@.len(),
                forall|j: int|
                    0 <= j < self.units@.len() && is_hostile_psi(self.units@[j], owner)
                        ==> #[trigger] i32_distance_fits(self.units@[j].x, self.units@[j].y, x, y),
                psi_threat_sum(self.units@, owner, x, y) <= i32::MAX,
                total == psi_threat_sum(self.units@.take(k as int), owner, x, y),
            decreases self.units@.len() - k,
        {
            let u = &self.units[k];
            proof {
                assert(self.units@.take(k + 1).drop_last() =~= self.units@.take(k as int));
                lemma_psi_threat_monotone(self.units@, owner, x, y, k + 1);
            }
            let hostile = u.alive && u.owner != owner && matches!(
                u.kind,
                UnitKind::MindWorm | UnitKind::TranceScout | UnitKind::PsiSentinel
            );
            if hostile {
                assert(i32_distance_fits(u.x, u.y, x, y));
                let d = i32_abs_diff(u.x, x) + i32_abs_diff(u.y, y);
                if d <= 6 {
                    let w: i32 = if d <= 2 {
                        3
                    } else if d <= 4 {
                        2
                    } else {
                        1
                    };
                    total = total + w;
                }
            }
            k += 1;
        }
        assert(self.units@.take(self.units@.len() as int) =~= self.units@);
        total
    }

    /// The symbol the tile at `(x, y)` shows to `viewer_owner`: blank where unexplored, a
    /// visible unit or supply pod first, then a base, an improvement, the terrain.
    pub fn tile_map_label(&self, x: usize, y: usize, viewer_owner: usize) -> (r: String)
        ensures
            r@ == self.tile_map_label_spec(x, y, viewer_owner),
    {
        broadcast use vstd::std_specs::btree::group_btree_axioms;
        broadcast use vstd::laws_cmp::group_laws_cmp;
        let tile = match self.tile(x, y) {
            Some(t) => t,
            None => return owned(" "),
        };
        if !tile.explored_by_owner.contains(&viewer_owner) {
            return owned(" ");
        }
        if tile.visible_by_owner.contains(&viewer_owner) {
            match tile.unit {
                Some(unit_id) => match self.unit(unit_id) {
                    Some(unit) => return presentation::unit_map_symbol(unit.kind.copied(), unit.owner),
                    None => {},
                },
                None => {},
            }
            if tile.pod {
                return owned("?");
            }
        }
        match tile.base {
            Some(base_id) => match self.base(base_id) {
                Some(base) => return owned(presentation::base_map_symbol(base.owner, viewer_owner)),
                None => {},
            },
            None => {},
        }
        match tile.improvement {
            Some(improvement) => return owned(presentation::improvement_glyph(improvement)),
            None => {},
        }
        owned(presentation::terrain_symbol(tile.terrain))
    }

    /// The map symbol of `(x, y)` as `viewer_owner` sees it.
    pub open spec fn tile_map_label_spec(self, x: usize, y: usize, viewer_owner: usize) -> Seq<char> {
        match self.tile_at(x, y) {
            None => " "@,
            Some(t) => if !t.explored_by_owner@.contains(viewer_owner) {
                " "@
            } else if t.visible_by_owner@.contains(viewer_owner) && t.unit is Some
                && self.unit_spec(t.unit->0) is Some {
                presentation::unit_map_symbol_text(self.unit_spec(t.unit->0)->0.kind)
            } else if t.visible_by_owner@.contains(viewer_owner) && t.pod {
                "?"@
            } else if t.base is Some && self.base_spec(t.base->0) is Some {
                if self.base_spec(t.base->0)->0.owner == viewer_owner {
                    "\u{26eb}"@
                } else {
                    "\u{232c}"@
                }
            } else if t.improvement is Some {
                presentation::improvement_glyph_text(t.improvement->0)
            } else {
                presentation::terrain_symbol_text(t.terrain)
            },
        }
    }
}

} // verus!
