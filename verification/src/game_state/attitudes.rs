//! How factions come to feel about each other: treaties, borders and relative power.
use crate::game_state::council::{population_sum, population_sums_fit};
use crate::game_state::tiles::{i32_abs_diff, i32_distance, i32_distance_fits};
use crate::model::{Base, DiplomacyStatus, DiplomaticRelation, GameState, NATIVE_ID};
use vstd::prelude::*;

verus! {

/// The nearest of `cs`'s bases of owner `j` to `b`, folded into `acc`.
pub open spec fn nearest_from(cs: Seq<Base>, j: usize, b: Base, acc: int) -> int
    decreases cs.len(),
{
    if cs.len() == 0 {
        acc
    } else {
        let a = nearest_from(cs.drop_last(), j, b, acc);
        let c = cs.last();
        let d = i32_distance(b.x, b.y, c.x, c.y);
        if c.owner == j && d < a {
            d
        } else {
            a
        }
    }
}

/// The nearest distance between a base of `i` among `bs` and a base of `j` among `all`,
/// folded into `acc`.
pub open spec fn nearest_between(bs: Seq<Base>, all: Seq<Base>, i: usize, j: usize, acc: int) -> int
    decreases bs.len(),
{
    if bs.len() == 0 {
        acc
    } else {
        let a = nearest_between(bs.drop_last(), all, i, j, acc);
        let b = bs.last();
        if b.owner == i {
            nearest_from(all, j, b, a)
        } else {
            a
        }
    }
}

/// The border distance between factions `i` and `j`: the nearest pair of their bases,
/// 100 when either has none or all are farther.
pub open spec fn border_distance(bases: Seq<Base>, i: usize, j: usize) -> int {
    nearest_between(bases, bases, i, j, 100)
}

/// What a diplomatic status does to attitude each turn.
pub open spec fn status_drift(s: DiplomacyStatus) -> int {
    match s {
        DiplomacyStatus::War => -2,
        DiplomacyStatus::Truce => 0,
        DiplomacyStatus::Treaty => 1,
        DiplomacyStatus::Pact => 3,
    }
}

/// Whether faction `i` of `n` is paired with another non-native faction.
pub open spec fn has_partner(n: int, i: int) -> bool {
    n - 1 - (if NATIVE_ID < n && NATIVE_ID != i { 1int } else { 0 }) > 0
}

/// Whether the attitude of `i` toward `j` is updated.
pub open spec fn attitude_pair(n: int, i: int, j: int) -> bool {
    0 <= i < n && 0 <= j < n && i != j && i != NATIVE_ID && j != NATIVE_ID
}

/// `v` kept between -100 and 100.
pub open spec fn clamp_attitude(v: int) -> int {
    if v < -100 {
        -100
    } else if v > 100 {
        100
    } else {
        v
    }
}

impl GameState {
    /// How the attitude of faction `i` toward `j` moves this turn: with the status between
    /// them, minus friction on a close border without treaty or pact, and one more or less
    /// when one holds more than twice the other's population.
    pub open spec fn attitude_change(self, i: usize, j: usize) -> int {
        let status = self.relations@[i as int]@[j as int].status;
        let dist = border_distance(self.bases@, i, j);
        let friction: int = if dist <= 8 && status != DiplomacyStatus::Pact && status != DiplomacyStatus::Treaty {
            if dist <= 4 { 2 } else { 1 }
        } else {
            0
        };
        let pi = population_sum(self.bases@, i);
        let pj = population_sum(self.bases@, j);
        let power: int = if pj > pi * 2 && status != DiplomacyStatus::Pact {
            -1
        } else if pi > pj * 2 && status != DiplomacyStatus::Pact {
            1
        } else {
            0
        };
        status_drift(status) - friction + power
    }

    /// The attitude update can run: every relation it reads exists and no sum overflows.
    pub open spec fn attitudes_safe(self) -> bool {
        let n = self.factions@.len() as int;
        &&& forall|i: int, j: int|
            #[trigger] attitude_pair(n, i, j) ==> i < self.relations@.len() && j < self.relations@[i]@.len()
        &&& forall|a: int, b: int|
            0 <= a < self.bases@.len() && 0 <= b < self.bases@.len() && self.bases@[a].owner
                != self.bases@[b].owner && self.bases@[a].owner < n && self.bases@[b].owner < n
                ==> #[trigger] i32_distance_fits(self.bases@[a].x, self.bases@[a].y, self.bases@[b].x, self.bases@[b].y)
        &&& forall|i: int|
            0 <= i < n && i != NATIVE_ID && #[trigger] has_partner(n, i) ==> population_sums_fit(self.bases@, i as usize)
                && i32::MIN <= population_sum(self.bases@, i as usize) * 2 <= i32::MAX
        &&& forall|i: int, j: int|
            #[trigger] attitude_pair(n, i, j) ==> i32::MIN <= self.relations@[i]@[j].attitude + self.attitude_change(i as usize, j as usize) <= i32::MAX
    }
}

impl GameState {
    /// The border distance between factions `i` and `j`.
    fn border_distance_of(&self, i: usize, j: usize) -> (r: usize)
        requires
            forall|a: int, b: int|
                0 <= a < self.bases@.len() && 0 <= b < self.bases@.len() && self.bases@[a].owner == i
                    && self.bases@[b].owner == j ==> #[trigger] i32_distance_fits(
                    self.bases@[a].x,
                    self.bases@[a].y,
                    self.bases@[b].x,
                    self.bases@[b].y,
                ),
        ensures
            r == border_distance(self.bases@, i, j),
    {
        let ghost all = self.bases@;
        let mut best: usize = 100;
        let mut a: usize = 0;
        while a < self.bases.len()
            invariant
                a <= all.len(),
                all == self.bases@,
                best <= 100,
                best == nearest_between(all.take(a as int), all, i, j, 100),
                forall|x: int, y: int|
                    0 <= x < all.len() && 0 <= y < all.len() && all[x].owner == i && all[y].owner == j
                        ==> #[trigger] i32_distance_fits(all[x].x, all[x].y, all[y].x, all[y].y),
            decreases all.len() - a,
        {
            assert(all.take(a + 1).drop_last() =~= all.take(a as int));
            if self.bases[a].owner == i {
                let ghost acc0 = best as int;
                let mut c: usize = 0;
                while c < self.bases.len()
                    invariant
                        c <= all.len(),
                        a < all.len(),
                        all == self.bases@,
                        all[a as int].owner == i,
                        best <= 100,
                        best == nearest_from(all.take(c as int), j, all[a as int], acc0),
                        forall|x: int, y: int|
                            0 <= x < all.len() && 0 <= y < all.len() && all[x].owner == i && all[y].owner == j
                                ==> #[trigger] i32_distance_fits(all[x].x, all[x].y, all[y].x, all[y].y),
                    decreases all.len() - c,
                {
                    assert(all.take(c + 1).drop_last() =~= all.take(c as int));
                    if self.bases[c].owner == j {
                        assert(i32_distance_fits(all[a as int].x, all[a as int].y, all[c as int].x, all[c as int].y));
                        let d = (i32_abs_diff(self.bases[a].x, self.bases[c].x) + i32_abs_diff(
                            self.bases[a].y,
                            self.bases[c].y,
                        )) as usize;
                        if d < best {
                            best = d;
                        }
                    }
                    c += 1;
                }
                assert(all.take(all.len() as int) =~= all);
            }
            a += 1;
        }
        assert(all.take(all.len() as int) =~= all);
        best
    }

    /// The total population of `owner`'s bases.
    fn population_of(&self, owner: usize) -> (r: i32)
        requires
            population_sums_fit(self.bases@, owner),
        ensures
            r == population_sum(self.bases@, owner),
    {
        let mut sum: i32 = 0;
        let mut k: usize = 0;
        while k < self.bases.len()
            invariant
                k <= self.bases@.len(),
                population_sums_fit(self.bases@, owner),
                sum == population_sum(self.bases@.take(k as int), owner),
            decreases self.bases@.len() - k,
        {
            assert(self.bases@.take(k + 1).drop_last() =~= self.bases@.take(k as int));
            assert(i32::MIN <= population_sum(self.bases@.take(k + 1), owner) <= i32::MAX);
            if self.bases[k].owner == owner {
                sum = sum + self.bases[k].population;
            }
            k += 1;
        }
        assert(self.bases@.take(self.bases@.len() as int) =~= self.bases@);
        sum
    }

    /// Moves every non-native faction's attitude toward every other non-native faction by
    /// `attitude_change`, kept between -100 and 100.
    pub fn update_diplomatic_attitudes(&mut self)
        requires
            old(self).attitudes_safe(),
        ensures
            final(self).relations@.len() == old(self).relations@.len(),
            forall|i: int|
                0 <= i < old(self).relations@.len() ==> (#[trigger] final(self).relations@[i])@.len()
                    == old(self).relations@[i]@.len(),
            forall|i: int, j: int|
                #![trigger final(self).relations@[i]@[j]]
                0 <= i < old(self).relations@.len() && 0 <= j < old(self).relations@[i]@.len()
                    ==> final(self).relations@[i]@[j] == if attitude_pair(old(self).factions@.len() as int, i, j) {
                    DiplomaticRelation {
                        attitude: clamp_attitude(
                            old(self).relations@[i]@[j].attitude + old(self).attitude_change(i as usize, j as usize),
                        ) as i32,
                        ..old(self).relations@[i]@[j]
                    }
                } else {
                    old(self).relations@[i]@[j]
                },
            *final(self) == (GameState { relations: final(self).relations, ..*old(self) }),
    {
        let n = self.factions.len();
        let ghost old_rel = self.relations@;
        let mut i: usize = 0;
        while i < n
            invariant
                i <= n,
                n == old(self).factions@.len(),
                old(self).attitudes_safe(),
                old_rel == old(self).relations@,
                self.relations@.len() == old_rel.len(),
                forall|x: int| 0 <= x < old_rel.len() ==> (#[trigger] self.relations@[x])@.len() == old_rel[x]@.len(),
                forall|x: int, y: int|
                    #![trigger self.relations@[x]@[y]]
                    0 <= x < old_rel.len() && 0 <= y < old_rel[x]@.len() ==> self.relations@[x]@[y] == if x < i
                        && attitude_pair(n as int, x, y) {
                        DiplomaticRelation {
                            attitude: clamp_attitude(old_rel[x]@[y].attitude + old(self).attitude_change(x as usize, y as usize)) as i32,
                            ..old_rel[x]@[y]
                        }
                    } else {
                        old_rel[x]@[y]
                    },
                *self == (GameState { relations: self.relations, ..*old(self) }),
            decreases n - i,
        {
            let mut j: usize = 0;
            while j < n
                invariant
                    i < n,
                    j <= n,
                    n == old(self).factions@.len(),
                    old(self).attitudes_safe(),
                    old_rel == old(self).relations@,
                    self.relations@.len() == old_rel.len(),
                    forall|x: int| 0 <= x < old_rel.len() ==> (#[trigger] self.relations@[x])@.len() == old_rel[x]@.len(),
                    forall|x: int, y: int|
                        #![trigger self.relations@[x]@[y]]
                        0 <= x < old_rel.len() && 0 <= y < old_rel[x]@.len() ==> self.relations@[x]@[y] == if (x < i
                            || (x == i && y < j)) && attitude_pair(n as int, x, y) {
                            DiplomaticRelation {
                                attitude: clamp_attitude(old_rel[x]@[y].attitude + old(self).attitude_change(x as usize, y as usize)) as i32,
                                ..old_rel[x]@[y]
                            }
                        } else {
                            old_rel[x]@[y]
                        },
                    *self == (GameState { relations: self.relations, ..*old(self) }),
                decreases n - j,
            {
                if i != j && i != NATIVE_ID && j != NATIVE_ID {
                    assert(attitude_pair(n as int, i as int, j as int));
                    assert(i < old_rel.len() && j < old_rel[i as int]@.len());
                    let status = self.relations[i][j].status;
                    let current_attitude = self.relations[i][j].attitude;
                    assert(self.relations@[i as int]@[j as int] == old_rel[i as int]@[j as int]);
                    let mut change: i32 = match status {
                        DiplomacyStatus::War => -2,
                        DiplomacyStatus::Truce => 0,
                        DiplomacyStatus::Treaty => 1,
                        DiplomacyStatus::Pact => 3,
                    };
                    proof {
                        assert forall|a: int, b: int|
                            0 <= a < self.bases@.len() && 0 <= b < self.bases@.len() && self.bases@[a].owner == i
                                && self.bases@[b].owner == j implies #[trigger] i32_distance_fits(
                                self.bases@[a].x,
                                self.bases@[a].y,
                                self.bases@[b].x,
                                self.bases@[b].y,
                            ) by {
                            assert(self.bases@[a].owner != self.bases@[b].owner);
                        }
                    }
                    let dist = self.border_distance_of(i, j);
                    if dist <= 8 && status != DiplomacyStatus::Pact && status != DiplomacyStatus::Treaty {
                        change = change - 1;
                        if dist <= 4 {
                            change = change - 1;
                        }
                    }
                    assert(has_partner(n as int, i as int));
                    assert(has_partner(n as int, j as int));
                    let pop_i = self.population_of(i);
                    let pop_j = self.population_of(j);
                    if pop_j > pop_i * 2 && status != DiplomacyStatus::Pact {
                        change = change - 1;
                    } else if pop_i > pop_j * 2 && status != DiplomacyStatus::Pact {
                        change = change + 1;
                    }
                    assert(change == old(self).attitude_change(i, j));
                    let raw = current_attitude + change;
                    let updated: i32 = if raw < -100 {
                        -100
                    } else if raw > 100 {
                        100
                    } else {
                        raw
                    };
                    self.relations[i][j].attitude = updated;
                }
                j += 1;
            }
            i += 1;
        }
    }
}

} // verus!
