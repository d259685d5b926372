//! What a base's tiles yield once the owner's projects and attributes are counted.
use crate::game_state::tiles::{i32_distance, i32_distance_fits, isize_step_safe};
use crate::model::{
    social_shift, social_shifts_fit, AttributeKind, GameState, Improvement, SecretProject, Terrain,
    Yields,
};
use vstd::prelude::*;

verus! {

/// Amounts small enough that a few bonuses and a doubling cannot overflow.
pub open spec fn small_yields(y: Yields) -> bool {
    &&& 0 <= y.nutrients <= 64
    &&& 0 <= y.minerals <= 64
    &&& 0 <= y.energy <= 64
}

/// The score by which a base prefers the tiles it works, then the amounts themselves.
pub open spec fn tile_score(y: Yields) -> (int, int, int, int) {
    (y.nutrients * 6 + y.minerals * 4 + y.energy * 3, y.nutrients as int, y.minerals as int, y.energy as int)
}

/// `a` outranks `b` as a score: higher by the first component, then the next ones.
pub open spec fn score_above(a: (int, int, int, int), b: (int, int, int, int)) -> bool {
    a.0 > b.0 || (a.0 == b.0 && (a.1 > b.1 || (a.1 == b.1 && (a.2 > b.2 || (a.2 == b.2 && a.3 > b.3)))))
}

/// A base works candidate tile `a` before `b`: higher score first, then lower `x`, then
/// lower `y`.
pub open spec fn worked_before(a: (Yields, usize, usize), b: (Yields, usize, usize)) -> bool {
    let sa = tile_score(a.0);
    let sb = tile_score(b.0);
    score_above(sa, sb) || (sa == sb && (a.1 < b.1 || (a.1 == b.1 && a.2 < b.2)))
}

/// How many of the first `n` candidates a base works before `e`.
pub open spec fn rank_among(c: Seq<(Yields, usize, usize)>, e: (Yields, usize, usize), n: int) -> int
    decreases n,
{
    if n <= 0 {
        0
    } else {
        rank_among(c, e, n - 1) + if worked_before(c[n - 1], e) { 1int } else { 0 }
    }
}

/// The summed yields of those of the first `n` candidates that rank among the best `k`.
pub open spec fn best_total(c: Seq<(Yields, usize, usize)>, k: int, n: int) -> (int, int, int)
    decreases n,
{
    if n <= 0 {
        (0, 0, 0)
    } else {
        let t = best_total(c, k, n - 1);
        let y = c[n - 1].0;
        if rank_among(c, c[n - 1], c.len() as int) < k {
            (t.0 + y.nutrients, t.1 + y.minerals, t.2 + y.energy)
        } else {
            t
        }
    }
}

/// No two candidates lie on the same tile.
pub open spec fn distinct_tiles(c: Seq<(Yields, usize, usize)>) -> bool {
    forall|i: int, j: int|
        0 <= i < c.len() && 0 <= j < c.len() && i != j ==> (#[trigger] c[i].1 != #[trigger] c[j].1 || c[i].2 != c[j].2)
}

/// Working before is transitive.
proof fn lemma_worked_before_transitive(a: (Yields, usize, usize), b: (Yields, usize, usize), e: (Yields, usize, usize))
    requires
        worked_before(a, b),
        worked_before(b, e),
    ensures
        worked_before(a, e),
{
}

/// A candidate ranked before another has fewer candidates before it.
proof fn lemma_rank_monotone(c: Seq<(Yields, usize, usize)>, a: (Yields, usize, usize), b: (Yields, usize, usize), n: int)
    requires
        0 <= n <= c.len(),
        worked_before(a, b),
    ensures
        rank_among(c, a, n) <= rank_among(c, b, n),
        (exists|m: int| 0 <= m < n && c[m] == a) ==> rank_among(c, a, n) < rank_among(c, b, n),
    decreases n,
{
    if n > 0 {
        lemma_rank_monotone(c, a, b, n - 1);
        if worked_before(c[n - 1], a) {
            lemma_worked_before_transitive(c[n - 1], a, b);
        }
        if exists|m: int| 0 <= m < n && c[m] == a {
            let m = choose|m: int| 0 <= m < n && c[m] == a;
            if m < n - 1 {
                assert(exists|q: int| 0 <= q < n - 1 && c[q] == a);
            } else {
                assert(!worked_before(a, a));
            }
        }
    }
}

/// A candidate's rank is below the number of candidates.
proof fn lemma_rank_below(c: Seq<(Yields, usize, usize)>, i: int, n: int)
    requires
        0 <= i < c.len(),
        0 <= n <= c.len(),
    ensures
        0 <= rank_among(c, c[i], n) <= n,
        i < n ==> rank_among(c, c[i], n) < n,
    decreases n,
{
    if n > 0 {
        lemma_rank_below(c, i, n - 1);
        if i == n - 1 {
            assert(!worked_before(c[i], c[i]));
        }
    }
}

/// Among candidates on distinct tiles no two share a rank and each rank is below their
/// number, so those ranked below `k` are the first `k` in the order a base works them.
pub proof fn law_worked_ranks_distinct(c: Seq<(Yields, usize, usize)>, i: int, j: int)
    requires
        distinct_tiles(c),
        0 <= i < c.len(),
        0 <= j < c.len(),
        i != j,
    ensures
        rank_among(c, c[i], c.len() as int) != rank_among(c, c[j], c.len() as int),
        0 <= rank_among(c, c[i], c.len() as int) < c.len(),
{
    let n = c.len() as int;
    lemma_rank_below(c, i, n);
    assert(c[i].1 != c[j].1 || c[i].2 != c[j].2);
    if worked_before(c[i], c[j]) {
        lemma_rank_monotone(c, c[i], c[j], n);
        assert(c[i] == c[i]);
    } else {
        assert(worked_before(c[j], c[i]));
        lemma_rank_monotone(c, c[j], c[i], n);
        assert(c[j] == c[j]);
    }
}

/// A base works its best tiles: any tile ranked among the `k` it works scores at least as
/// high, by six per nutrient, four per mineral and three per energy, as any tile it
/// leaves unworked.
pub proof fn law_worked_tiles_outscore_unworked(c: Seq<(Yields, usize, usize)>, k: int, i: int, j: int)
    requires
        0 <= i < c.len(),
        0 <= j < c.len(),
        rank_among(c, c[i], c.len() as int) < k <= rank_among(c, c[j], c.len() as int),
    ensures
        6 * c[i].0.nutrients + 4 * c[i].0.minerals + 3 * c[i].0.energy >= 6 * c[j].0.nutrients + 4 * c[j].0.minerals + 3
            * c[j].0.energy,
{
    if 6 * c[i].0.nutrients + 4 * c[i].0.minerals + 3 * c[i].0.energy < 6 * c[j].0.nutrients + 4 * c[j].0.minerals + 3
        * c[j].0.energy {
        assert(worked_before(c[j], c[i]));
        assert(c[j] == c[j]);
        lemma_rank_monotone(c, c[j], c[i], c.len() as int);
    }
}

/// How many tiles around it a base of this population works: one per citizen beyond
/// the first, at most eight; a population below one counts as eight.
pub open spec fn surrounding_worked(population: i32) -> int {
    if population >= 1 {
        if population - 1 < 8 { population - 1 } else { 8 }
    } else {
        8
    }
}

/// The eight offsets around a tile, row by row from the top left.
pub open spec fn neighbour_offset(k: int) -> (int, int) {
    ((k + (if k >= 4 { 1int } else { 0 })) % 3 - 1, (k + (if k >= 4 { 1int } else { 0 })) / 3 - 1)
}

/// The tile at offset `m` from `(bx, by)`, when it lies on the map.
pub open spec fn offset_tile(bx: usize, by: usize, m: int, width: usize, height: usize) -> Option<(usize, usize)> {
    let (dx, dy) = neighbour_offset(m);
    if on_axis(bx, dx, width) && on_axis(by, dy, height) {
        Some((((bx as isize) + dx) as usize, ((by as isize) + dy) as usize))
    } else {
        None
    }
}

/// Different offsets lead to different tiles.
proof fn lemma_offset_tiles_distinct(bx: usize, by: usize, width: usize, height: usize)
    ensures
        forall|m1: int, m2: int|
            0 <= m1 < 8 && 0 <= m2 < 8 && m1 != m2 && #[trigger] offset_tile(bx, by, m1, width, height) is Some
                && #[trigger] offset_tile(bx, by, m2, width, height) is Some ==> offset_tile(bx, by, m1, width, height)
                != offset_tile(bx, by, m2, width, height),
{
    assert(neighbour_offset(0) == (-1int, -1int));
    assert(neighbour_offset(1) == (0int, -1int));
    assert(neighbour_offset(2) == (1int, -1int));
    assert(neighbour_offset(3) == (-1int, 0int));
    assert(neighbour_offset(4) == (1int, 0int));
    assert(neighbour_offset(5) == (-1int, 1int));
    assert(neighbour_offset(6) == (0int, 1int));
    assert(neighbour_offset(7) == (1int, 1int));
}

/// Whether `c + d` lands on `[0, limit)` as the map's signed coordinates read it.
pub open spec fn on_axis(c: usize, d: int, limit: usize) -> bool {
    (c as isize) + d >= 0 && (c as isize) + d < (limit as isize)
}

/// The Weather Paradigm helps only on fungus: a tile that is not fungus, holds no
/// borehole and is not the base's own tile yields a base without the economy bonus
/// exactly the tile's own yields, whatever projects the owner holds.
pub proof fn law_plain_tile_yields_its_own(state: GameState, owner: Option<usize>, base_x: usize, base_y: usize, tile_x: usize, tile_y: usize)
    requires
        state.tile_at(tile_x, tile_y) matches Some(t) && t.terrain != Terrain::Fungus
            && t.improvement != Some(Improvement::ThermalBorehole),
        !state.economy_bonus(owner),
        tile_x != base_x || tile_y != base_y,
    ensures
        state.modified_tile_yields(owner, base_x, base_y, tile_x, tile_y) == state.tile_total_yields_spec(tile_x, tile_y),
{
}

/// On a fungus tile the Weather Paradigm adds one nutrient, one mineral and one energy:
/// two games that differ only in the owner having completed it give yields that differ
/// by exactly that, away from boreholes and the base's own tile.
pub proof fn law_weather_paradigm_adds_one_each_on_fungus(
    before: GameState,
    after: GameState,
    owner: usize,
    base_x: usize,
    base_y: usize,
    tile_x: usize,
    tile_y: usize,
)
    requires
        before.tile_at(tile_x, tile_y) matches Some(t) && t.terrain == Terrain::Fungus
            && t.improvement != Some(Improvement::ThermalBorehole),
        tile_x != base_x || tile_y != base_y,
        !before.has_project_spec(owner, SecretProject::WeatherPattern),
        after == (GameState { built_secret_projects: after.built_secret_projects, ..before }),
        after.built_secret_projects@ == before.built_secret_projects@.push((SecretProject::WeatherPattern, owner)),
    ensures
        after.modified_tile_yields(Some(owner), base_x, base_y, tile_x, tile_y).nutrients
            == before.modified_tile_yields(Some(owner), base_x, base_y, tile_x, tile_y).nutrients + 1,
        after.modified_tile_yields(Some(owner), base_x, base_y, tile_x, tile_y).minerals
            == before.modified_tile_yields(Some(owner), base_x, base_y, tile_x, tile_y).minerals + 1,
        after.modified_tile_yields(Some(owner), base_x, base_y, tile_x, tile_y).energy
            == before.modified_tile_yields(Some(owner), base_x, base_y, tile_x, tile_y).energy + 1,
{
    before.lemma_tile_total_yields_small(tile_x, tile_y);
    let n = before.built_secret_projects@.len() as int;
    assert(after.built_secret_projects@[n] == (SecretProject::WeatherPattern, owner));
    assert(after.tile_at(tile_x, tile_y) == before.tile_at(tile_x, tile_y));
    assert(after.tile_total_yields_spec(tile_x, tile_y) == before.tile_total_yields_spec(tile_x, tile_y));
}

/// `after` is `before` with `owner` recorded as having completed `p`, which it had not.
pub open spec fn project_added(before: GameState, after: GameState, owner: usize, p: SecretProject) -> bool {
    &&& !before.has_project_spec(owner, p)
    &&& after == (GameState { built_secret_projects: after.built_secret_projects, ..before })
    &&& after.built_secret_projects@ == before.built_secret_projects@.push((p, owner))
}

/// Adding one project record leaves every other project as it was and grants that one.
proof fn lemma_project_added(before: GameState, after: GameState, owner: usize, p: SecretProject)
    requires
        project_added(before, after, owner, p),
    ensures
        after.has_project_spec(owner, p),
        forall|o: usize, q: SecretProject| (o != owner || q != p) ==> (#[trigger] after.has_project_spec(o, q) == before.has_project_spec(o, q)),
        forall|x: usize, y: usize| #[trigger] after.tile_at(x, y) == before.tile_at(x, y),
        forall|x: usize, y: usize| #[trigger] after.tile_total_yields_spec(x, y) == before.tile_total_yields_spec(x, y),
        forall|o: Option<usize>| #[trigger] after.economy_bonus(o) == before.economy_bonus(o),
{
    let n = before.built_secret_projects@.len() as int;
    assert(after.built_secret_projects@[n] == (p, owner));
    assert forall|o: usize, q: SecretProject| (o != owner || q != p) implies (#[trigger] after.has_project_spec(o, q) == before.has_project_spec(o, q)) by {
        if after.has_project_spec(o, q) {
            let i = choose|i: int| 0 <= i < after.built_secret_projects@.len() && after.built_secret_projects@[i] == (q, o);
            assert(i < n);
            assert(before.built_secret_projects@[i] == (q, o));
        }
        if before.has_project_spec(o, q) {
            let i = choose|i: int| 0 <= i < before.built_secret_projects@.len() && before.built_secret_projects@[i] == (q, o);
            assert(after.built_secret_projects@[i] == (q, o));
        }
    }
    assert forall|x: usize, y: usize| #[trigger] after.tile_total_yields_spec(x, y) == before.tile_total_yields_spec(x, y) by {
        assert(after.tile_at(x, y) == before.tile_at(x, y));
        assert(after.adjacent_count_spec(x, y, Improvement::EchelonMirror) == before.adjacent_count_spec(x, y, Improvement::EchelonMirror));
    }
}

/// The Weather Paradigm changes nothing on a tile that is not fungus.
pub proof fn law_weather_paradigm_leaves_other_tiles(
    before: GameState,
    after: GameState,
    owner: usize,
    base_x: usize,
    base_y: usize,
    tile_x: usize,
    tile_y: usize,
)
    requires
        project_added(before, after, owner, SecretProject::WeatherPattern),
        !(before.tile_at(tile_x, tile_y) matches Some(t) && t.terrain == Terrain::Fungus),
    ensures
        after.modified_tile_yields(Some(owner), base_x, base_y, tile_x, tile_y) == before.modified_tile_yields(
            Some(owner),
            base_x,
            base_y,
            tile_x,
            tile_y,
        ),
{
    lemma_project_added(before, after, owner, SecretProject::WeatherPattern);
}

/// Singularity Containment adds two minerals on a thermal borehole, and nothing else.
pub proof fn law_singularity_containment_adds_minerals_on_boreholes(
    before: GameState,
    after: GameState,
    owner: usize,
    base_x: usize,
    base_y: usize,
    tile_x: usize,
    tile_y: usize,
)
    requires
        project_added(before, after, owner, SecretProject::SingularityContainment),
    ensures
        ({
            let a = after.modified_tile_yields(Some(owner), base_x, base_y, tile_x, tile_y);
            let b = before.modified_tile_yields(Some(owner), base_x, base_y, tile_x, tile_y);
            let borehole = before.tile_at(tile_x, tile_y) matches Some(t) && t.improvement == Some(Improvement::ThermalBorehole);
            &&& a.nutrients == b.nutrients
            &&& a.energy == b.energy
            &&& a.minerals == b.minerals + if borehole { 2int } else { 0 }
        }),
{
    lemma_project_added(before, after, owner, SecretProject::SingularityContainment);
    before.lemma_tile_total_yields_small(tile_x, tile_y);
}

/// The Black Hole Harvester adds two energy on a thermal borehole other than the base's
/// own tile, and nothing else there.
pub proof fn law_black_hole_harvester_adds_energy_on_boreholes(
    before: GameState,
    after: GameState,
    owner: usize,
    base_x: usize,
    base_y: usize,
    tile_x: usize,
    tile_y: usize,
)
    requires
        project_added(before, after, owner, SecretProject::BlackHoleHarvester),
        tile_x != base_x || tile_y != base_y,
    ensures
        ({
            let a = after.modified_tile_yields(Some(owner), base_x, base_y, tile_x, tile_y);
            let b = before.modified_tile_yields(Some(owner), base_x, base_y, tile_x, tile_y);
            let borehole = before.tile_at(tile_x, tile_y) matches Some(t) && t.improvement == Some(Improvement::ThermalBorehole);
            &&& a.nutrients == b.nutrients
            &&& a.minerals == b.minerals
            &&& a.energy == b.energy + if borehole { 2int } else { 0 }
        }),
{
    lemma_project_added(before, after, owner, SecretProject::BlackHoleHarvester);
    before.lemma_tile_total_yields_small(tile_x, tile_y);
}

/// The Orbital Elevator doubles the energy of the base's own tile and changes no other tile.
pub proof fn law_orbital_elevator_doubles_base_tile_energy(
    before: GameState,
    after: GameState,
    owner: usize,
    base_x: usize,
    base_y: usize,
    tile_x: usize,
    tile_y: usize,
)
    requires
        project_added(before, after, owner, SecretProject::OrbitalElevator),
    ensures
        ({
            let a = after.modified_tile_yields(Some(owner), base_x, base_y, tile_x, tile_y);
            let b = before.modified_tile_yields(Some(owner), base_x, base_y, tile_x, tile_y);
            &&& a.nutrients == b.nutrients
            &&& a.minerals == b.minerals
            &&& a.energy == if tile_x == base_x && tile_y == base_y { 2 * b.energy } else { b.energy as int }
        }),
{
    lemma_project_added(before, after, owner, SecretProject::OrbitalElevator);
    before.lemma_tile_total_yields_small(tile_x, tile_y);
}

/// A strong economy adds one energy on a producing tile; away from fungus, boreholes and
/// the base's own tile nothing else changes the tile's own yields.
pub proof fn law_economy_adds_energy_on_producing_tiles(state: GameState, owner: Option<usize>, base_x: usize, base_y: usize, tile_x: usize, tile_y: usize)
    requires
        state.tile_at(tile_x, tile_y) matches Some(t) && t.terrain != Terrain::Fungus
            && t.improvement != Some(Improvement::ThermalBorehole),
        state.economy_bonus(owner),
        tile_x != base_x || tile_y != base_y,
    ensures
        ({
            let m = state.modified_tile_yields(owner, base_x, base_y, tile_x, tile_y);
            let t = state.tile_total_yields_spec(tile_x, tile_y);
            &&& m.nutrients == t.nutrients
            &&& m.minerals == t.minerals
            &&& m.energy == if t.energy > 0 { t.energy + 1 } else { t.energy as int }
        }),
{
    state.lemma_tile_total_yields_small(tile_x, tile_y);
}

impl GameState {
    /// A tile's yields never exceed a small bound.
    pub proof fn lemma_tile_total_yields_small(self, x: usize, y: usize)
        ensures
            small_yields(self.tile_total_yields_spec(x, y)),
    {
        assert(0 <= self.adjacent_count_spec(x, y, Improvement::EchelonMirror) <= 8);
    }

    /// Whether `owner`'s economy earns the extra energy on producing tiles.
    pub open spec fn economy_bonus(self, owner: Option<usize>) -> bool {
        match owner {
            Some(o) => o < self.factions@.len() && self.factions@[o as int].base_attributes.economy
                + social_shift(self.factions@[o as int].social_engineering, AttributeKind::Economy) >= 2,
            None => false,
        }
    }

    /// Whether `owner` has completed `project`.
    pub open spec fn owner_has_project(self, owner: Option<usize>, project: SecretProject) -> bool {
        match owner {
            Some(o) => self.has_project_spec(o, project),
            None => false,
        }
    }

    /// What tile `(tile_x, tile_y)` yields to a base of `owner` at `(base_x, base_y)`.
    pub open spec fn modified_tile_yields(self, owner: Option<usize>, base_x: usize, base_y: usize, tile_x: usize, tile_y: usize) -> Yields {
        let t0 = self.tile_total_yields_spec(tile_x, tile_y);
        let e1: int = if self.economy_bonus(owner) && t0.energy > 0 { t0.energy + 1 } else { t0.energy as int };
        let fungus = self.tile_at(tile_x, tile_y) matches Some(t) && t.terrain == Terrain::Fungus
            && self.owner_has_project(owner, SecretProject::WeatherPattern);
        let n2: int = if fungus { t0.nutrients + 1 } else { t0.nutrients as int };
        let m2: int = if fungus { t0.minerals + 1 } else { t0.minerals as int };
        let e2: int = if fungus { e1 + 1 } else { e1 };
        let borehole = self.tile_at(tile_x, tile_y) matches Some(t) && t.improvement == Some(
            Improvement::ThermalBorehole,
        );
        let m3: int = if borehole && self.owner_has_project(owner, SecretProject::SingularityContainment) {
            m2 + 2
        } else {
            m2
        };
        let e3: int = if borehole && self.owner_has_project(owner, SecretProject::BlackHoleHarvester) {
            e2 + 2
        } else {
            e2
        };
        let e4: int = if tile_x == base_x && tile_y == base_y && self.owner_has_project(
            owner,
            SecretProject::OrbitalElevator,
        ) {
            e3 * 2
        } else {
            e3
        };
        Yields { nutrients: n2 as i32, minerals: m3 as i32, energy: e4 as i32 }
    }

    /// What tile `(tile_x, tile_y)` yields to a base of `owner` at `(base_x, base_y)`: the
    /// tile's own yields, one more energy on producing tiles under a strong economy, the
    /// weather paradigm's bonus on fungus, the singularity and black-hole bonuses on
    /// boreholes, and double energy on the base tile with the orbital elevator.
    pub fn base_tile_yields_with_modifiers(
        &self,
        owner: Option<usize>,
        base_x: usize,
        base_y: usize,
        tile_x: usize,
        tile_y: usize,
    ) -> (r: Yields)
        requires
            isize_step_safe(tile_x),
            isize_step_safe(tile_y),
            match owner {
                Some(o) => o < self.factions@.len() ==> social_shifts_fit(
                    self.factions@[o as int].base_attributes,
                    self.factions@[o as int].social_engineering,
                ),
                None => true,
            },
        ensures
            r == self.modified_tile_yields(owner, base_x, base_y, tile_x, tile_y),
    {
        proof {
            self.lemma_tile_total_yields_small(tile_x, tile_y);
        }
        let mut tile_yields = self.tile_total_yields(tile_x, tile_y);
        let economy_bonus = match owner {
            Some(o) => match self.faction(o) {
                Some(f) => {
                    let attributes = f.effective_attributes();
                    assert(attributes.attribute(AttributeKind::Economy) == f.base_attributes.attribute(
                        AttributeKind::Economy,
                    ) + social_shift(f.social_engineering, AttributeKind::Economy));
                    attributes.economy >= 2
                },
                None => false,
            },
            None => false,
        };
        if economy_bonus && tile_yields.energy > 0 {
            tile_yields.energy = tile_yields.energy + 1;
        }
        match self.tile(tile_x, tile_y) {
            Some(tile) => {
                if tile.terrain == Terrain::Fungus {
                    match owner {
                        Some(o) => {
                            if self.has_secret_project(o, SecretProject::WeatherPattern) {
                                tile_yields.nutrients = tile_yields.nutrients + 1;
                                tile_yields.minerals = tile_yields.minerals + 1;
                                tile_yields.energy = tile_yields.energy + 1;
                            }
                        },
                        None => {},
                    }
                }
                if tile.improvement == Some(Improvement::ThermalBorehole) {
                    match owner {
                        Some(o) => {
                            if self.has_secret_project(o, SecretProject::SingularityContainment) {
                                tile_yields.minerals = tile_yields.minerals + 2;
                            }
                            if self.has_secret_project(o, SecretProject::BlackHoleHarvester) {
                                tile_yields.energy = tile_yields.energy + 2;
                            }
                        },
                        None => {},
                    }
                }
            },
            None => {},
        }
        if tile_x == base_x && tile_y == base_y {
            match owner {
                Some(o) => {
                    if self.has_secret_project(o, SecretProject::OrbitalElevator) {
                        tile_yields.energy = tile_yields.energy * 2;
                    }
                },
                None => {},
            }
        }
        tile_yields
    }

    /// What neighbouring tile `(nx, ny)` yields to a base of `owner` at `(bx, by)`; folded
    /// away where only the choice of tiles matters.
    #[verifier::opaque]
    pub open spec fn neighbour_yields(self, owner: Option<usize>, bx: usize, by: usize, nx: usize, ny: usize) -> Yields {
        self.modified_tile_yields(owner, bx, by, nx, ny)
    }

    /// The tiles around `(bx, by)` among the first `k` offsets that lie on the map, each
    /// with what it yields to a base of `owner` there.
    pub open spec fn neighbour_candidates(self, owner: Option<usize>, bx: usize, by: usize, k: int) -> Seq<(Yields, usize, usize)>
        decreases k,
    {
        if k <= 0 {
            Seq::empty()
        } else {
            let rest = self.neighbour_candidates(owner, bx, by, k - 1);
            let (dx, dy) = neighbour_offset(k - 1);
            if on_axis(bx, dx, self.width) && on_axis(by, dy, self.height) {
                let nx = ((bx as isize) + dx) as usize;
                let ny = ((by as isize) + dy) as usize;
                rest.push((self.neighbour_yields(owner, bx, by, nx, ny), nx, ny))
            } else {
                rest
            }
        }
    }

    /// The candidates among the first `k` offsets lie on distinct tiles, each at one of
    /// those offsets.
    proof fn lemma_candidates_distinct(self, owner: Option<usize>, bx: usize, by: usize, k: int)
        requires
            0 <= k <= 8,
        ensures
            distinct_tiles(self.neighbour_candidates(owner, bx, by, k)),
            forall|i: int| 0 <= i < self.neighbour_candidates(owner, bx, by, k).len() ==> exists|m: int| {
                let e = #[trigger] self.neighbour_candidates(owner, bx, by, k)[i];
                &&& 0 <= m < k
                &&& #[trigger] offset_tile(bx, by, m, self.width, self.height) == Some((e.1, e.2))
            },
        decreases k,
    {
        if k > 0 {
            self.lemma_candidates_distinct(owner, bx, by, k - 1);
            let rest = self.neighbour_candidates(owner, bx, by, k - 1);
            let c = self.neighbour_candidates(owner, bx, by, k);
            lemma_offset_tiles_distinct(bx, by, self.width, self.height);
            assert forall|i: int| 0 <= i < c.len() implies exists|m: int| {
                let e = #[trigger] c[i];
                &&& 0 <= m < k
                &&& #[trigger] offset_tile(bx, by, m, self.width, self.height) == Some((e.1, e.2))
            } by {
                if i < rest.len() {
                    assert(c[i] == rest[i]);
                    let m = choose|m: int| {
                        let e = #[trigger] rest[i];
                        &&& 0 <= m < k - 1
                        &&& #[trigger] offset_tile(bx, by, m, self.width, self.height) == Some((e.1, e.2))
                    };
                    assert(0 <= m < k);
                } else {
                    assert(offset_tile(bx, by, k - 1, self.width, self.height) == Some((c[i].1, c[i].2)));
                }
            }
            assert forall|i: int, j: int| 0 <= i < c.len() && 0 <= j < c.len() && i != j implies (#[trigger] c[i].1
                != #[trigger] c[j].1 || c[i].2 != c[j].2) by {
                if i < rest.len() && j < rest.len() {
                    assert(c[i] == rest[i] && c[j] == rest[j]);
                } else if i < rest.len() {
                    assert(c[i] == rest[i]);
                    let m = choose|m: int| {
                        let e = #[trigger] rest[i];
                        &&& 0 <= m < k - 1
                        &&& #[trigger] offset_tile(bx, by, m, self.width, self.height) == Some((e.1, e.2))
                    };
                    assert(offset_tile(bx, by, k - 1, self.width, self.height) == Some((c[j].1, c[j].2)));
                } else {
                    assert(c[j] == rest[j]);
                    let m = choose|m: int| {
                        let e = #[trigger] rest[j];
                        &&& 0 <= m < k - 1
                        &&& #[trigger] offset_tile(bx, by, m, self.width, self.height) == Some((e.1, e.2))
                    };
                    assert(offset_tile(bx, by, k - 1, self.width, self.height) == Some((c[i].1, c[i].2)));
                }
            }
        }
    }

    /// The tiles a base chooses among are distinct.
    pub proof fn law_neighbour_tiles_distinct(self, owner: Option<usize>, bx: usize, by: usize)
        ensures
            distinct_tiles(self.neighbour_candidates(owner, bx, by, 8)),
    {
        self.lemma_candidates_distinct(owner, bx, by, 8);
    }

    /// What base `base_id` gathers from the tiles it works: its own tile, plus the
    /// surrounding tiles that rank best (by score, then left to right, then top to
    /// bottom), as many as its population works.
    pub open spec fn worked_yields_spec(self, base_id: usize) -> Option<(int, int, int)> {
        match self.base_spec(base_id) {
            Some(b) => {
                let own = self.modified_tile_yields(Some(b.owner), b.x, b.y, b.x, b.y);
                let c = self.neighbour_candidates(Some(b.owner), b.x, b.y, 8);
                let t = best_total(c, surrounding_worked(b.population), c.len() as int);
                Some((own.nutrients + t.0, own.minerals + t.1, own.energy + t.2))
            },
            None => None,
        }
    }

    /// A modified tile yield stays between 0 and 136 in each amount.
    proof fn lemma_modified_small(self, owner: Option<usize>, bx: usize, by: usize, x: usize, y: usize)
        ensures
            0 <= self.modified_tile_yields(owner, bx, by, x, y).nutrients <= 136,
            0 <= self.modified_tile_yields(owner, bx, by, x, y).minerals <= 136,
            0 <= self.modified_tile_yields(owner, bx, by, x, y).energy <= 136,
    {
        self.lemma_tile_total_yields_small(x, y);
    }

    /// What base `base_id` gathers from the tiles it works; `None` without such a base.
    pub fn worked_base_tile_yields(&self, base_id: usize) -> (r: Option<Yields>)
        requires
            self.base_spec(base_id) matches Some(b) ==> {
                &&& isize_step_safe(b.x)
                &&& isize_step_safe(b.y)
                &&& b.owner < self.factions@.len() ==> social_shifts_fit(
                    self.factions@[b.owner as int].base_attributes,
                    self.factions@[b.owner as int].social_engineering,
                )
            },
        ensures
            match r {
                Some(y) => self.worked_yields_spec(base_id) == Some(
                    (y.nutrients as int, y.minerals as int, y.energy as int),
                ),
                None => self.worked_yields_spec(base_id) is None,
            },
    {
        let base = match self.base(base_id) {
            Some(b) => b,
            None => return None,
        };
        let owner = Some(base.owner);
        let bx = base.x;
        let by = base.y;
        let own = self.base_tile_yields_with_modifiers(owner, bx, by, bx, by);
        proof {
            self.lemma_modified_small(owner, bx, by, bx, by);
        }
        let w = self.width as isize;
        let h = self.height as isize;
        let mut cands: Vec<(Yields, usize, usize)> = Vec::new();
        let mut k: usize = 0;
        while k < 8
            invariant
                k <= 8,
                isize_step_safe(bx),
                isize_step_safe(by),
                w == self.width as isize,
                h == self.height as isize,
                owner == Some(base.owner),
                base.owner < self.factions@.len() ==> social_shifts_fit(
                    self.factions@[base.owner as int].base_attributes,
                    self.factions@[base.owner as int].social_engineering,
                ),
                cands@ == self.neighbour_candidates(owner, bx, by, k as int),
                cands@.len() <= k,
                forall|j: int| 0 <= j < cands@.len() ==> {
                    let y = #[trigger] cands@[j].0;
                    &&& 0 <= y.nutrients <= 136
                    &&& 0 <= y.minerals <= 136
                    &&& 0 <= y.energy <= 136
                },
            decreases 8 - k,
        {
            let dx: isize = if k == 0 || k == 3 || k == 5 { -1 } else if k == 1 || k == 6 { 0 } else { 1 };
            let dy: isize = if k < 3 { -1 } else if k < 5 { 0 } else { 1 };
            assert(neighbour_offset(k as int) == (dx as int, dy as int));
            let nx = bx as isize + dx;
            let ny = by as isize + dy;
            if !(nx < 0 || ny < 0 || nx >= w || ny >= h) {
                let ux = nx as usize;
                let uy = ny as usize;
                let y = self.base_tile_yields_with_modifiers(owner, bx, by, ux, uy);
                proof {
                    self.lemma_modified_small(owner, bx, by, ux, uy);
                    reveal(GameState::neighbour_yields);
                }
                cands.push((y, ux, uy));
            }
            k += 1;
        }
        let take = if base.population >= 1 {
            if base.population - 1 < 8 { (base.population - 1) as usize } else { 8 }
        } else {
            8
        };
        let mut n: i32 = 0;
        let mut m: i32 = 0;
        let mut e: i32 = 0;
        let mut i: usize = 0;
        let ghost c = cands@;
        while i < cands.len()
            invariant
                c == cands@,
                c.len() <= 8,
                i <= c.len(),
                take == surrounding_worked(base.population),
                forall|j: int| 0 <= j < c.len() ==> {
                    let y = #[trigger] c[j].0;
                    &&& 0 <= y.nutrients <= 136
                    &&& 0 <= y.minerals <= 136
                    &&& 0 <= y.energy <= 136
                },
                (n as int, m as int, e as int) == best_total(c, take as int, i as int),
                0 <= n <= 136 * i,
                0 <= m <= 136 * i,
                0 <= e <= 136 * i,
            decreases c.len() - i,
        {
            let rank = rank_in(&cands, i);
            if rank < take {
                n = n + cands[i].0.nutrients;
                m = m + cands[i].0.minerals;
                e = e + cands[i].0.energy;
            }
            i += 1;
        }
        Some(Yields { nutrients: own.nutrients + n, minerals: own.minerals + m, energy: own.energy + e })
    }

    /// The score a base ranks a worked tile by: six per nutrient, four per mineral, three
    /// per energy, then the amounts themselves.
    pub fn worked_tile_score(yields: Yields) -> (r: (i32, i32, i32, i32))
        requires
            i32::MIN <= yields.nutrients * 6 + yields.minerals * 4 + yields.energy * 3 <= i32::MAX,
            i32::MIN <= yields.nutrients * 6 <= i32::MAX,
            i32::MIN <= yields.minerals * 4 <= i32::MAX,
            i32::MIN <= yields.energy * 3 <= i32::MAX,
            i32::MIN <= yields.nutrients * 6 + yields.minerals * 4 <= i32::MAX,
        ensures
            r.0 == tile_score(yields).0,
            r.1 == yields.nutrients,
            r.2 == yields.minerals,
            r.3 == yields.energy,
    {
        (yields.nutrients * 6 + yields.minerals * 4 + yields.energy * 3, yields.nutrients, yields.minerals, yields.energy)
    }

    /// The share of energy base `base_id` wastes, in percent: twice its distance to the
    /// owner's headquarters over the owner's efficiency score (ten plus twice efficiency,
    /// at least one), kept between 0 and 90.
    pub open spec fn energy_waste_spec(self, base_id: usize) -> int {
        match self.base_spec(base_id) {
            None => 0,
            Some(b) => if b.owner >= self.factions@.len() {
                0
            } else {
                let f = self.factions@[b.owner as int];
                let distance: int = match f.headquarters_base_id {
                    Some(hq_id) => match self.base_spec(hq_id) {
                        Some(hq) => i32_distance(b.x, b.y, hq.x, hq.y),
                        None => 0,
                    },
                    None => 0,
                };
                let eff = f.base_attributes.efficiency + social_shift(f.social_engineering, AttributeKind::Efficiency);
                let score0 = 10 + eff * 2;
                let score = if score0 < 1 { 1 } else { score0 };
                let waste = (distance * 2) / score;
                if waste < 0 { 0 } else if waste > 90 { 90 } else { waste }
            },
        }
    }

    /// The share of energy base `base_id` wastes, in percent.
    pub fn energy_waste_pct(&self, base_id: usize) -> (r: i32)
        requires
            match self.base_spec(base_id) {
                Some(b) => b.owner < self.factions@.len() ==> {
                    let f = self.factions@[b.owner as int];
                    let eff = f.base_attributes.efficiency + social_shift(f.social_engineering, AttributeKind::Efficiency);
                    &&& social_shifts_fit(f.base_attributes, f.social_engineering)
                    &&& i32::MIN <= eff * 2 <= i32::MAX
                    &&& i32::MIN <= 10 + eff * 2 <= i32::MAX
                    &&& match f.headquarters_base_id {
                        Some(hq_id) => match self.base_spec(hq_id) {
                            Some(hq) => i32_distance_fits(b.x, b.y, hq.x, hq.y) && i32_distance(b.x, b.y, hq.x, hq.y)
                                * 2 <= i32::MAX,
                            None => true,
                        },
                        None => true,
                    }
                },
                None => true,
            },
        ensures
            r == self.energy_waste_spec(base_id),
    {
        let base = match self.base(base_id) {
            Some(b) => b,
            None => return 0,
        };
        let faction = match self.faction(base.owner) {
            Some(f) => f,
            None => return 0,
        };
        let attributes = faction.effective_attributes();
        assert(attributes.attribute(AttributeKind::Efficiency) == faction.base_attributes.attribute(
            AttributeKind::Efficiency,
        ) + social_shift(faction.social_engineering, AttributeKind::Efficiency));
        let distance: i32 = match faction.headquarters_base_id {
            Some(hq_id) => match self.base(hq_id) {
                Some(hq) => {
                    let dx = (base.x as i32) - (hq.x as i32);
                    let dy = (base.y as i32) - (hq.y as i32);
                    let ax = if dx < 0 { -dx } else { dx };
                    let ay = if dy < 0 { -dy } else { dy };
                    ax + ay
                },
                None => 0,
            },
            None => 0,
        };
        let score0 = 10 + attributes.efficiency * 2;
        let score = if score0 < 1 { 1 } else { score0 };
        let waste = (distance * 2) / score;
        if waste < 0 {
            0
        } else if waste > 90 {
            90
        } else {
            waste
        }
    }
}

/// How many candidates a base works before candidate `i`.
fn rank_in(c: &Vec<(Yields, usize, usize)>, i: usize) -> (r: usize)
    requires
        i < c@.len(),
        forall|j: int| 0 <= j < c@.len() ==> {
            let y = #[trigger] c@[j].0;
            &&& 0 <= y.nutrients <= 136
            &&& 0 <= y.minerals <= 136
            &&& 0 <= y.energy <= 136
        },
    ensures
        r == rank_among(c@, c@[i as int], c@.len() as int),
{
    let e = c[i];
    let se = GameState::worked_tile_score(e.0);
    let mut count: usize = 0;
    let mut j: usize = 0;
    while j < c.len()
        invariant
            j <= c@.len(),
            e == c@[i as int],
            se.0 == tile_score(e.0).0,
            se.1 == e.0.nutrients,
            se.2 == e.0.minerals,
            se.3 == e.0.energy,
            count == rank_among(c@, e, j as int),
            count <= j,
            forall|q: int| 0 <= q < c@.len() ==> {
                let y = #[trigger] c@[q].0;
                &&& 0 <= y.nutrients <= 136
                &&& 0 <= y.minerals <= 136
                &&& 0 <= y.energy <= 136
            },
        decreases c@.len() - j,
    {
        let o = c[j];
        let so = GameState::worked_tile_score(o.0);
        let above = so.0 > se.0 || (so.0 == se.0 && (so.1 > se.1 || (so.1 == se.1 && (so.2 > se.2 || (so.2 == se.2
            && so.3 > se.3)))));
        let same = so.0 == se.0 && so.1 == se.1 && so.2 == se.2 && so.3 == se.3;
        assert(worked_before(o, e) == (above || (same && (o.1 < e.1 || (o.1 == e.1 && o.2 < e.2)))));
        if above || (same && (o.1 < e.1 || (o.1 == e.1 && o.2 < e.2))) {
            count += 1;
        }
        j += 1;
    }
    count
}

} // verus!
