//! How strongly the rival AI presses on a tile.
use crate::content::runtime_roles_spec;
use crate::model::{Base, GameState, Unit};
use vstd::prelude::*;

verus! {

/// The distance the threat rules measure between `(ax, ay)` and `(bx, by)`: the sum of the
/// coordinate gaps, each coordinate taken as an `i32`.
pub open spec fn threat_distance(ax: usize, ay: usize, bx: usize, by: usize) -> int {
    let dx = (ax as i32) as int - (bx as i32) as int;
    let dy = (ay as i32) as int - (by as i32) as int;
    (if dx < 0 { -dx } else { dx }) + (if dy < 0 { -dy } else { dy })
}

fn threat_distance_of(ax: usize, ay: usize, bx: usize, by: usize) -> (r: i64)
    ensures
        r == threat_distance(ax, ay, bx, by),
{
    let dx: i64 = (ax as i32) as i64 - (bx as i32) as i64;
    let dy: i64 = (ay as i32) as i64 - (by as i32) as i64;
    let adx: i64 = if dx < 0 { -dx } else { dx };
    let ady: i64 = if dy < 0 { -dy } else { dy };
    adx + ady
}

/// Matches the live units of the rival AI within three steps of `(x, y)`.
pub open spec fn threat_near(x: usize, y: usize) -> spec_fn(Unit) -> bool {
    |u: Unit| u.alive && u.owner == runtime_roles_spec().ai && threat_distance(u.x, u.y, x, y) <= 3
}

/// The pressure one base at distance `d` puts on a tile.
pub open spec fn base_pressure(d: int) -> int {
    if d <= 3 {
        3
    } else if d <= 5 {
        2
    } else if d <= 7 {
        1
    } else {
        0
    }
}

/// The pressure the rival AI's bases among `bases` put on `(x, y)`.
pub open spec fn ai_base_pressure(bases: Seq<Base>, x: usize, y: usize) -> int
    decreases bases.len(),
{
    if bases.len() == 0 {
        0
    } else {
        let b = bases.last();
        ai_base_pressure(bases.drop_last(), x, y) + if b.owner == runtime_roles_spec().ai {
            base_pressure(threat_distance(b.x, b.y, x, y))
        } else {
            0
        }
    }
}

proof fn lemma_ai_base_pressure_bounded(bases: Seq<Base>, x: usize, y: usize)
    ensures
        0 <= ai_base_pressure(bases, x, y) <= 3 * bases.len(),
    decreases bases.len(),
{
    if bases.len() > 0 {
        lemma_ai_base_pressure_bounded(bases.drop_last(), x, y);
    }
}

impl GameState {
    /// The number of live rival AI units within three steps of `(x, y)`.
    pub fn offensive_threat_at(&self, x: usize, y: usize) -> (r: i32)
        ensures
            r == self.units@.filter(threat_near(x, y)).len() as i32,
    {
        let ai = self.ai_owner();
        let mut count: usize = 0;
        let mut k: usize = 0;
        while k < self.units.len()
            invariant
                k <= self.units@.len(),
                ai == runtime_roles_spec().ai,
                count == self.units@.take(k as int).filter(threat_near(x, y)).len(),
                count <= k,
            decreases self.units@.len() - k,
        {
            let u = &self.units[k];
            proof {
                assert(self.units@.take(k + 1) =~= self.units@.take(k as int).push(*u));
                self.units@.take(k as int).lemma_filter_push(*u, threat_near(x, y));
            }
            if u.alive && u.owner == ai && threat_distance_of(u.x, u.y, x, y) <= 3 {
                count += 1;
            }
            k += 1;
        }
        assert(self.units@.take(self.units@.len() as int) =~= self.units@);
        count as i32
    }

    /// The pressure on `(x, y)`: one where it lies on a border, plus for each base of the
    /// rival AI three within three steps, two within five and one within seven.
    pub fn frontier_pressure_at(&self, x: usize, y: usize) -> (r: i32)
        requires
            self.control_distances_fit(x, y),
            forall|k: int|
                0 <= k < 4 && (#[trigger] GameState::border_neighbours(x, y)[k]).0 < self.width
                    && GameState::border_neighbours(x, y)[k].1 < self.height ==> self.control_distances_fit(
                    GameState::border_neighbours(x, y)[k].0,
                    GameState::border_neighbours(x, y)[k].1,
                ),
            3 * self.bases@.len() + 1 <= i32::MAX,
        ensures
            r == (if self.is_border_spec(x, y) { 1int } else { 0 }) + ai_base_pressure(self.bases@, x, y),
    {
        let mut pressure: i32 = if self.is_border_tile(x, y) { 1 } else { 0 };
        let ghost start = pressure as int;
        let ai = self.ai_owner();
        let mut k: usize = 0;
        while k < self.bases.len()
            invariant
                k <= self.bases@.len(),
                ai == runtime_roles_spec().ai,
                3 * self.bases@.len() + 1 <= i32::MAX,
                0 <= start <= 1,
                pressure == start + ai_base_pressure(self.bases@.take(k as int), x, y),
            decreases self.bases@.len() - k,
        {
            let b = &self.bases[k];
            proof {
                assert(self.bases@.take(k + 1).drop_last() =~= self.bases@.take(k as int));
                lemma_ai_base_pressure_bounded(self.bases@.take(k as int), x, y);
            }
            if b.owner == ai {
                let d = threat_distance_of(b.x, b.y, x, y);
                if d <= 3 {
                    pressure += 3;
                } else if d <= 5 {
                    pressure += 2;
                } else if d <= 7 {
                    pressure += 1;
                }
            }
            k += 1;
        }
        assert(self.bases@.take(self.bases@.len() as int) =~= self.bases@);
        pressure
    }
}

} // verus!
