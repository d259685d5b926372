//! Editing a base's build queue and governor from the player's side.
use crate::game_state::access::log_after_push;
use crate::model::{Base, EventCategory, EventLogEntry, GameState, ProductionItem};
use crate::presentation;
use crate::text::{owned, push_text};
use vstd::prelude::*;

verus! {

/// `b` differs from `a` at most in its production, its queue and its mineral stock.
pub open spec fn base_same_but_production(a: Base, b: Base) -> bool {
    &&& a.id == b.id
    &&& a.owner == b.owner
    &&& a.name == b.name
    &&& a.x == b.x
    &&& a.y == b.y
    &&& a.population == b.population
    &&& a.nutrients_stock == b.nutrients_stock
    &&& a.facilities == b.facilities
    &&& a.governor_mode == b.governor_mode
}

/// A general log entry.
pub open spec fn general_entry(message: Seq<char>, turn: i32) -> (EventCategory, Seq<char>, i32) {
    (EventCategory::General, message, turn)
}

/// `new_log` is `old_log` after a general entry with text `message` was appended on turn `turn`.
pub open spec fn logged(old_log: Seq<EventLogEntry>, new_log: Seq<EventLogEntry>, message: Seq<char>, turn: i32) -> bool {
    &&& new_log.len() > 0
    &&& new_log.last().category == EventCategory::General
    &&& new_log.last().message@ == message
    &&& new_log.last().turn == turn
    &&& new_log == log_after_push(old_log, new_log.last())
}

/// `new` is `old` with base `i` replaced, a message logged, and nothing else changed.
pub open spec fn changed_base_and_logged(old: GameState, new: GameState, i: int, message: Seq<char>) -> bool {
    &&& 0 <= i < old.bases@.len()
    &&& new.bases@ == old.bases@.update(i, new.bases@[i])
    &&& logged(old.log@, new.log@, message, old.turn)
    &&& new == (GameState { bases: new.bases, log: new.log, ..old })
}

/// `new` is `old` with a message logged and nothing else changed.
pub open spec fn only_logged(old: GameState, new: GameState, message: Seq<char>) -> bool {
    &&& logged(old.log@, new.log@, message, old.turn)
    &&& new == (GameState { log: new.log, ..old })
}

/// Concatenates two pieces of text into a new string.
fn text2(a: &str, b: &str) -> (r: String)
    ensures
        r@ == a@ + b@,
{
    let mut s = owned(a);
    push_text(&mut s, b);
    s
}

/// Concatenates three pieces of text into a new string.
fn text3(a: &str, b: &str, c: &str) -> (r: String)
    ensures
        r@ == a@ + b@ + c@,
{
    let mut s = owned(a);
    push_text(&mut s, b);
    push_text(&mut s, c);
    s
}

/// Logs `message` and records the entry it made, for the proofs above.
pub(crate) fn log_general(state: &mut GameState, message: String)
    ensures
        logged(old(state).log@, final(state).log@, message@, old(state).turn),
        *final(state) == (GameState { log: final(state).log, ..*old(state) }),
{
    let ghost m = message;
    state.push_log(message);
    assert(final(state).log@ == log_after_push(
        old(state).log@,
        EventLogEntry { category: EventCategory::General, message: m, turn: old(state).turn },
    ));
}

/// Moving a queue entry one place and then back (up then down, or down then up) gives
/// the base back as it was: two swaps of the same pair of entries undo each other, and
/// nothing but the log changes.
pub proof fn law_queue_swap_undone(s0: GameState, s1: GameState, s2: GameState, base_id: usize, a: int)
    requires
        GameState::queue_swapped(s0, s1, base_id, a),
        GameState::queue_swapped(s1, s2, base_id, a),
        s0.base_index_spec(base_id) is Some,
        0 <= a,
        a + 1 < s0.bases@[s0.base_index_spec(base_id)->0].production_queue@.len(),
    ensures
        ({
            let i = s0.base_index_spec(base_id)->0;
            &&& s2.bases@.len() == s0.bases@.len()
            &&& forall|j: int| 0 <= j < s0.bases@.len() && j != i ==> #[trigger] s2.bases@[j] == s0.bases@[j]
            &&& base_same_but_production(s0.bases@[i], s2.bases@[i])
            &&& s2.bases@[i].production == s0.bases@[i].production
            &&& s2.bases@[i].production_queue@ == s0.bases@[i].production_queue@
            &&& s2.bases@[i].minerals_stock == s0.bases@[i].minerals_stock
            &&& s2 == (GameState { bases: s2.bases, log: s2.log, ..s0 })
        }),
{
    let i = s0.base_index_spec(base_id)->0;
    assert forall|j: int| 0 <= j < s0.bases@.len() implies #[trigger] crate::game_state::access::base_with_id(base_id)(s0.bases@[j])
        == crate::game_state::access::base_with_id(base_id)(s1.bases@[j]) by {}
    crate::seqs::lemma_first_index_agree(s0.bases@, s1.bases@, crate::game_state::access::base_with_id(base_id));
    let q = s0.bases@[i].production_queue@;
    assert(s2.bases@[i].production_queue@ =~= q);
}

impl GameState {
    /// Whether base `base_id` exists and has a queue entry at `queue_index`.
    pub open spec fn queue_entry_exists(self, base_id: usize, queue_index: usize) -> bool {
        match self.base_index_spec(base_id) {
            Some(i) => queue_index < self.bases@[i].production_queue@.len(),
            None => false,
        }
    }

    /// Why an edit of queue entry `queue_index` of base `base_id` is refused.
    pub open spec fn queue_entry_error(self, base_id: usize) -> Seq<char> {
        if self.base_index_spec(base_id) is None {
            "Base not found."@
        } else {
            "Queue item not found."@
        }
    }

    /// The queue entry became the active production, the previous one heads the queue,
    /// and the mineral stock restarted from zero.
    pub open spec fn promoted(old: GameState, new: GameState, base_id: usize, queue_index: usize) -> bool {
        let i = old.base_index_spec(base_id)->0;
        let b = old.bases@[i];
        let next = b.production_queue@[queue_index as int];
        &&& changed_base_and_logged(
            old,
            new,
            i,
            b.name@ + " promoted "@ + crate::content::production_name_text(next)
                + " to active production."@,
        )
        &&& base_same_but_production(b, new.bases@[i])
        &&& new.bases@[i].production == next
        &&& new.bases@[i].production_queue@ == seq![b.production] + b.production_queue@.remove(
            queue_index as int,
        )
        &&& new.bases@[i].minerals_stock == 0
    }

    /// The queue entry was dropped from the queue.
    pub open spec fn queue_entry_removed(old: GameState, new: GameState, base_id: usize, queue_index: usize) -> bool {
        let i = old.base_index_spec(base_id)->0;
        let b = old.bases@[i];
        &&& changed_base_and_logged(
            old,
            new,
            i,
            b.name@ + " removed "@ + crate::content::production_name_text(
                b.production_queue@[queue_index as int],
            ) + " from its queue."@,
        )
        &&& base_same_but_production(b, new.bases@[i])
        &&& new.bases@[i].production == b.production
        &&& new.bases@[i].production_queue@ == b.production_queue@.remove(queue_index as int)
        &&& new.bases@[i].minerals_stock == b.minerals_stock
    }

    /// Whether base `base_id` exists and has something queued.
    pub open spec fn queue_clearable(self, base_id: usize) -> bool {
        match self.base_index_spec(base_id) {
            Some(i) => self.bases@[i].production_queue@.len() > 0,
            None => false,
        }
    }

    /// The queue was emptied.
    pub open spec fn queue_cleared(old: GameState, new: GameState, base_id: usize) -> bool {
        let i = old.base_index_spec(base_id)->0;
        let b = old.bases@[i];
        &&& changed_base_and_logged(old, new, i, b.name@ + " cleared its production queue."@)
        &&& base_same_but_production(b, new.bases@[i])
        &&& new.bases@[i].production == b.production
        &&& new.bases@[i].production_queue@ == Seq::<ProductionItem>::empty()
        &&& new.bases@[i].minerals_stock == b.minerals_stock
    }

    /// Queue entries `a` and `a + 1` traded places.
    pub open spec fn queue_swapped(old: GameState, new: GameState, base_id: usize, a: int) -> bool {
        let i = old.base_index_spec(base_id)->0;
        let b = old.bases@[i];
        let q = b.production_queue@;
        &&& changed_base_and_logged(old, new, i, b.name@ + " reprioritized its build queue."@)
        &&& base_same_but_production(b, new.bases@[i])
        &&& new.bases@[i].production == b.production
        &&& new.bases@[i].production_queue@ == q.update(a, q[a + 1]).update(a + 1, q[a])
        &&& new.bases@[i].minerals_stock == b.minerals_stock
    }

    /// Whether queue entry `queue_index` of base `base_id` can move one place up.
    pub open spec fn can_move_up(self, base_id: usize, queue_index: usize) -> bool {
        match self.base_index_spec(base_id) {
            Some(i) => 0 < queue_index < self.bases@[i].production_queue@.len(),
            None => false,
        }
    }

    /// Whether queue entry `queue_index` of base `base_id` can move one place down.
    pub open spec fn can_move_down(self, base_id: usize, queue_index: usize) -> bool {
        match self.base_index_spec(base_id) {
            Some(i) => queue_index + 1 < self.bases@[i].production_queue@.len(),
            None => false,
        }
    }

    /// Makes queue entry `queue_index` of base `base_id` the active production; the
    /// previous production goes to the head of the queue and the mineral stock restarts.
    pub fn promote_queued_production_to_active(&mut self, base_id: usize, queue_index: usize) -> (r: Result<(), String>)
        ensures
            r is Ok <==> old(self).queue_entry_exists(base_id, queue_index),
            r is Ok ==> GameState::promoted(*old(self), *final(self), base_id, queue_index),
            r matches Err(e) ==> e@ == old(self).queue_entry_error(base_id) && *final(self) == *old(self),
    {
        let i = match self.base_index(base_id) {
            Some(i) => i,
            None => return Err(owned("Base not found.")),
        };
        if queue_index >= self.bases[i].production_queue.len() {
            return Err(owned("Queue item not found."));
        }
        let next_active = self.bases[i].production_queue.remove(queue_index);
        let previous_active = self.bases[i].production;
        self.bases[i].production = next_active;
        self.bases[i].production_queue.insert(0, previous_active);
        self.bases[i].minerals_stock = 0;
        assert(self.bases@[i as int].production_queue@ =~= seq![old(self).bases@[i as int].production]
            + old(self).bases@[i as int].production_queue@.remove(queue_index as int));
        let message = text3(
            self.bases[i].name.as_str(),
            " promoted ",
            presentation::production_name(next_active),
        );
        let mut message = message;
        push_text(&mut message, " to active production.");
        assert(self.bases@ =~= old(self).bases@.update(i as int, self.bases@[i as int]));
        log_general(self, message);
        Ok(())
    }

    /// Promotes a queue entry, logging why when it cannot; returns whether it did.
    pub fn promote_queued_production_to_active_action(&mut self, base_id: usize, queue_index: usize) -> (r: bool)
        ensures
            r == old(self).queue_entry_exists(base_id, queue_index),
            r ==> GameState::promoted(*old(self), *final(self), base_id, queue_index),
            !r ==> only_logged(
                *old(self),
                *final(self),
                "Queue promotion failed: "@ + old(self).queue_entry_error(base_id),
            ),
    {
        match self.promote_queued_production_to_active(base_id, queue_index) {
            Ok(()) => true,
            Err(err) => {
                let message = text2("Queue promotion failed: ", err.as_str());
                log_general(self, message);
                false
            },
        }
    }

    /// Drops queue entry `queue_index` of base `base_id`.
    pub fn remove_queued_production(&mut self, base_id: usize, queue_index: usize) -> (r: Result<(), String>)
        ensures
            r is Ok <==> old(self).queue_entry_exists(base_id, queue_index),
            r is Ok ==> GameState::queue_entry_removed(*old(self), *final(self), base_id, queue_index),
            r matches Err(e) ==> e@ == old(self).queue_entry_error(base_id) && *final(self) == *old(self),
    {
        let i = match self.base_index(base_id) {
            Some(i) => i,
            None => return Err(owned("Base not found.")),
        };
        if queue_index >= self.bases[i].production_queue.len() {
            return Err(owned("Queue item not found."));
        }
        let removed = self.bases[i].production_queue.remove(queue_index);
        let message = text3(
            self.bases[i].name.as_str(),
            " removed ",
            presentation::production_name(removed),
        );
        let mut message = message;
        push_text(&mut message, " from its queue.");
        assert(self.bases@ =~= old(self).bases@.update(i as int, self.bases@[i as int]));
        log_general(self, message);
        Ok(())
    }

    /// Drops a queue entry, logging why when it cannot; returns whether it did.
    pub fn remove_queued_production_action(&mut self, base_id: usize, queue_index: usize) -> (r: bool)
        ensures
            r == old(self).queue_entry_exists(base_id, queue_index),
            r ==> GameState::queue_entry_removed(*old(self), *final(self), base_id, queue_index),
            !r ==> only_logged(
                *old(self),
                *final(self),
                "Queue removal failed: "@ + old(self).queue_entry_error(base_id),
            ),
    {
        match self.remove_queued_production(base_id, queue_index) {
            Ok(()) => true,
            Err(err) => {
                let message = text2("Queue removal failed: ", err.as_str());
                log_general(self, message);
                false
            },
        }
    }

    /// Empties the build queue of base `base_id`.
    pub fn clear_production_queue(&mut self, base_id: usize) -> (r: Result<(), String>)
        ensures
            r is Ok <==> old(self).queue_clearable(base_id),
            r is Ok ==> GameState::queue_cleared(*old(self), *final(self), base_id),
            r matches Err(e) ==> *final(self) == *old(self) && e@ == (if old(self).base_index_spec(
                base_id,
            ) is None {
                "Base not found."@
            } else {
                "Production queue is already empty."@
            }),
    {
        let i = match self.base_index(base_id) {
            Some(i) => i,
            None => return Err(owned("Base not found.")),
        };
        if self.bases[i].production_queue.len() == 0 {
            return Err(owned("Production queue is already empty."));
        }
        self.bases[i].production_queue.clear();
        let message = text2(self.bases[i].name.as_str(), " cleared its production queue.");
        assert(self.bases@ =~= old(self).bases@.update(i as int, self.bases@[i as int]));
        log_general(self, message);
        Ok(())
    }

    /// Empties a build queue, logging why when it cannot; returns whether it did.
    pub fn clear_production_queue_action(&mut self, base_id: usize) -> (r: bool)
        ensures
            r == old(self).queue_clearable(base_id),
            r ==> GameState::queue_cleared(*old(self), *final(self), base_id),
            !r ==> only_logged(
                *old(self),
                *final(self),
                "Queue clear failed: "@ + (if old(self).base_index_spec(base_id) is None {
                    "Base not found."@
                } else {
                    "Production queue is already empty."@
                }),
            ),
    {
        match self.clear_production_queue(base_id) {
            Ok(()) => true,
            Err(err) => {
                let message = text2("Queue clear failed: ", err.as_str());
                log_general(self, message);
                false
            },
        }
    }

    /// Moves queue entry `queue_index` of base `base_id` one place toward the front.
    pub fn move_queued_production_up(&mut self, base_id: usize, queue_index: usize) -> (r: Result<(), String>)
        ensures
            r is Ok <==> old(self).can_move_up(base_id, queue_index),
            r is Ok ==> GameState::queue_swapped(*old(self), *final(self), base_id, queue_index - 1),
            r matches Err(e) ==> *final(self) == *old(self) && e@ == (if old(self).base_index_spec(
                base_id,
            ) is None {
                "Base not found."@
            } else {
                "Queue item cannot move up."@
            }),
    {
        let i = match self.base_index(base_id) {
            Some(i) => i,
            None => return Err(owned("Base not found.")),
        };
        if queue_index == 0 || queue_index >= self.bases[i].production_queue.len() {
            return Err(owned("Queue item cannot move up."));
        }
        let upper = self.bases[i].production_queue[queue_index - 1];
        let lower = self.bases[i].production_queue[queue_index];
        let ghost q = old(self).bases@[i as int].production_queue@;
        self.bases[i].production_queue.set(queue_index - 1, lower);
        self.bases[i].production_queue.set(queue_index, upper);
        assert(self.bases@[i as int].production_queue@ =~= q.update(
            queue_index - 1,
            q[queue_index as int],
        ).update(queue_index as int, q[queue_index - 1]));
        let message = text2(self.bases[i].name.as_str(), " reprioritized its build queue.");
        assert(self.bases@ =~= old(self).bases@.update(i as int, self.bases@[i as int]));
        log_general(self, message);
        Ok(())
    }

    /// Moves a queue entry up, logging why when it cannot; returns whether it did.
    pub fn move_queued_production_up_action(&mut self, base_id: usize, queue_index: usize) -> (r: bool)
        ensures
            r == old(self).can_move_up(base_id, queue_index),
            r ==> GameState::queue_swapped(*old(self), *final(self), base_id, queue_index - 1),
            !r ==> only_logged(
                *old(self),
                *final(self),
                "Queue move failed: "@ + (if old(self).base_index_spec(base_id) is None {
                    "Base not found."@
                } else {
                    "Queue item cannot move up."@
                }),
            ),
    {
        match self.move_queued_production_up(base_id, queue_index) {
            Ok(()) => true,
            Err(err) => {
                let message = text2("Queue move failed: ", err.as_str());
                log_general(self, message);
                false
            },
        }
    }

    /// Moves queue entry `queue_index` of base `base_id` one place toward the back.
    pub fn move_queued_production_down(&mut self, base_id: usize, queue_index: usize) -> (r: Result<(), String>)
        ensures
            r is Ok <==> old(self).can_move_down(base_id, queue_index),
            r is Ok ==> GameState::queue_swapped(*old(self), *final(self), base_id, queue_index as int),
            r matches Err(e) ==> *final(self) == *old(self) && e@ == (if old(self).base_index_spec(
                base_id,
            ) is None {
                "Base not found."@
            } else {
                "Queue item cannot move down."@
            }),
    {
        let i = match self.base_index(base_id) {
            Some(i) => i,
            None => return Err(owned("Base not found.")),
        };
        if queue_index >= self.bases[i].production_queue.len() || queue_index + 1
            >= self.bases[i].production_queue.len() {
            return Err(owned("Queue item cannot move down."));
        }
        let upper = self.bases[i].production_queue[queue_index];
        let lower = self.bases[i].production_queue[queue_index + 1];
        let ghost q = old(self).bases@[i as int].production_queue@;
        self.bases[i].production_queue.set(queue_index, lower);
        self.bases[i].production_queue.set(queue_index + 1, upper);
        assert(self.bases@[i as int].production_queue@ =~= q.update(
            queue_index as int,
            q[queue_index + 1],
        ).update(queue_index + 1, q[queue_index as int]));
        let message = text2(self.bases[i].name.as_str(), " reprioritized its build queue.");
        assert(self.bases@ =~= old(self).bases@.update(i as int, self.bases@[i as int]));
        log_general(self, message);
        Ok(())
    }

    /// Moves a queue entry down, logging why when it cannot; returns whether it did.
    pub fn move_queued_production_down_action(&mut self, base_id: usize, queue_index: usize) -> (r: bool)
        ensures
            r == old(self).can_move_down(base_id, queue_index),
            r ==> GameState::queue_swapped(*old(self), *final(self), base_id, queue_index as int),
            !r ==> only_logged(
                *old(self),
                *final(self),
                "Queue move failed: "@ + (if old(self).base_index_spec(base_id) is None {
                    "Base not found."@
                } else {
                    "Queue item cannot move down."@
                }),
            ),
    {
        match self.move_queued_production_down(base_id, queue_index) {
            Ok(()) => true,
            Err(err) => {
                let message = text2("Queue move failed: ", err.as_str());
                log_general(self, message);
                false
            },
        }
    }
}

} // verus!
