//! The pallet state and its three operations: `set_counter_value`,
//! `increment`, and `decrement`. Each operation validates its origin and
//! its arithmetic before committing anything, so a failing call returns
//! its error with the state exactly as it was.

use vstd::prelude::*;
use std::collections::HashMap;
use crate::origin::{Origin, Error, require_root, require_signed};

verus! {

broadcast use vstd::std_specs::hash::group_hash_axioms;

/// An immutable record of one successful mutation, appended to the event
/// log exactly once per accepted call and never for a failed call.
#[derive(Clone, Copy, Debug, PartialEq, Eq, Structural)]
pub enum Event {
    /// The counter was explicitly set to a new value by the root origin.
    CounterValueSet {
        /// The new value set.
        counter_value: u32,
    },
    /// The counter was increased by a signed actor.
    CounterIncremented {
        /// The new value of the counter.
        counter_value: u32,
        /// The actor who incremented the counter.
        who: u64,
        /// The amount by which the counter was incremented.
        incremented_amount: u32,
    },
    /// The counter was decreased by a signed actor.
    CounterDecremented {
        /// The new value of the counter.
        counter_value: u32,
        /// The actor who decremented the counter.
        who: u64,
        /// The amount by which the counter was decremented.
        decremented_amount: u32,
    },
}

/// The counter's stored value read as a plain number: an absent value has
/// never been initialized and is treated as 0.
pub open spec fn stored_or_zero(v: Option<u32>) -> u32 {
    match v {
        Some(x) => x,
        None => 0,
    }
}

/// An actor's interaction count read as a plain number: an absent entry
/// is treated as 0.
pub open spec fn count_or_zero(m: Map<u64, u32>, who: u64) -> u32 {
    if m.contains_key(who) {
        m[who]
    } else {
        0
    }
}

/// The whole module state: the optional counter value, the per-actor
/// interaction ledger, the configured maximum (fixed at construction),
/// and the append-only event log.
pub struct Pallet {
    /// The counter; `None` means it was never initialized (read as 0).
    pub counter_value: Option<u32>,
    /// How many successful `increment`/`decrement` calls each actor made.
    pub user_interactions: HashMap<u64, u32>,
    /// The configured upper bound for the counter, immutable after `new`.
    pub counter_max_value: u32,
    /// Every event emitted so far, oldest first.
    pub events: Vec<Event>,
}

/// The parts of the state that an operation may change: a failed call
/// must leave all three exactly as they were.
pub open spec fn state_unchanged(pre: Pallet, post: Pallet) -> bool {
    &&& post.counter_value == pre.counter_value
    &&& post.user_interactions@ == pre.user_interactions@
    &&& post.events@ == pre.events@
}

impl Pallet {
    /// The counter invariant: once initialized, the value never exceeds
    /// the configured maximum.
    pub open spec fn wf(self) -> bool {
        self.counter_value matches Some(v) ==> v <= self.counter_max_value
    }

    /// The current counter value for arithmetic purposes (absent reads as 0).
    pub open spec fn counter_or_zero(self) -> u32 {
        stored_or_zero(self.counter_value)
    }

    /// The interaction count of `who` (absent reads as 0).
    pub open spec fn interactions_of(self, who: u64) -> u32 {
        count_or_zero(self.user_interactions@, who)
    }

    /// Creates a fresh module state: counter uninitialized, ledger empty,
    /// event log empty, with the given configured maximum.
    pub fn new(counter_max_value: u32) -> (p: Pallet)
        ensures
            p.wf(),
            p.counter_value is None,
            p.user_interactions@ == Map::<u64, u32>::empty(),
            p.counter_max_value == counter_max_value,
            p.events@ == Seq::<Event>::empty(),
    {
        Pallet {
            counter_value: None,
            user_interactions: HashMap::new(),
            counter_max_value,
            events: Vec::new(),
        }
    }

    /// When `set_counter_value` is owed success: root origin and a value
    /// within the configured maximum.
    pub open spec fn set_allowed(self, origin: Origin, new_value: u32) -> bool {
        &&& origin is Root
        &&& new_value <= self.counter_max_value
    }

    /// When `increment` is owed success: a signed origin, a sum that
    /// neither overflows the counter's width nor exceeds the configured
    /// maximum, and room left in the actor's interaction count.
    pub open spec fn increment_allowed(self, origin: Origin, amount: u32) -> bool {
        &&& origin matches Origin::Signed(who)
        &&& self.counter_or_zero() + amount <= u32::MAX
        &&& self.counter_or_zero() + amount <= self.counter_max_value
        &&& self.interactions_of(who) < u32::MAX
    }

    /// When `decrement` is owed success: a signed origin, an amount no
    /// larger than the current value, and room left in the actor's
    /// interaction count.
    pub open spec fn decrement_allowed(self, origin: Origin, amount: u32) -> bool {
        &&& origin matches Origin::Signed(who)
        &&& amount <= self.counter_or_zero()
        &&& self.interactions_of(who) < u32::MAX
    }

    /// Overwrites the counter with `new_value`. Only the root origin may
    /// call this, the value must not exceed the configured maximum, and a
    /// success emits `CounterValueSet` and does not touch the interaction
    /// ledger (a privileged set is not counted as an interaction).
    pub fn set_counter_value(&mut self, origin: Origin, new_value: u32) -> (r: Result<(), Error>)
        requires
            old(self).wf(),
        ensures
            final(self).wf(),
            final(self).counter_max_value == old(self).counter_max_value,
            r is Ok <==> old(self).set_allowed(origin, new_value),
            r is Ok ==> {
                &&& final(self).counter_value == Some(new_value)
                &&& final(self).user_interactions@ == old(self).user_interactions@
                &&& final(self).events@ == old(self).events@.push(
                    (Event::CounterValueSet { counter_value: new_value }),
                )
            },
            !(origin is Root) ==> r == Err::<(), Error>(Error::BadOrigin),
            origin is Root && new_value > old(self).counter_max_value ==> r == Err::<(), Error>(
                Error::CounterValueExceedsMax,
            ),
            r is Err ==> state_unchanged(*old(self), *final(self)),
    {
        require_root(origin)?;
        if new_value > self.counter_max_value {
            return Err(Error::CounterValueExceedsMax);
        }
        self.counter_value = Some(new_value);
        self.events.push(Event::CounterValueSet { counter_value: new_value });
        Ok(())
    }

    /// Adds `amount_to_increment` to the counter (an uninitialized counter
    /// reads as 0). Only a signed actor may call this; the checked sum must
    /// fit the counter's width and stay within the configured maximum, and
    /// the actor's interaction count must not overflow. A success writes
    /// the new value, counts one interaction for the actor, and emits
    /// `CounterIncremented`; every failure leaves the state untouched.
    pub fn increment(&mut self, origin: Origin, amount_to_increment: u32) -> (r: Result<
        (),
        Error,
    >)
        requires
            old(self).wf(),
        ensures
            final(self).wf(),
            final(self).counter_max_value == old(self).counter_max_value,
            r is Ok <==> old(self).increment_allowed(origin, amount_to_increment),
            r is Ok ==> ({
                let who = origin->Signed_0;
                &&& final(self).counter_value == Some(
                    (old(self).counter_or_zero() + amount_to_increment) as u32,
                )
                &&& final(self).user_interactions@ == old(self).user_interactions@.insert(
                    who,
                    (old(self).interactions_of(who) + 1) as u32,
                )
                &&& final(self).events@ == old(self).events@.push(
                    (Event::CounterIncremented {
                        counter_value: (old(self).counter_or_zero() + amount_to_increment) as u32,
                        who,
                        incremented_amount: amount_to_increment,
                    }),
                )
            }),
            !(origin is Signed) ==> r == Err::<(), Error>(Error::BadOrigin),
            origin is Signed && old(self).counter_or_zero() + amount_to_increment > u32::MAX ==> r
                == Err::<(), Error>(Error::CounterOverflow),
            origin is Signed && old(self).counter_or_zero() + amount_to_increment <= u32::MAX
                && old(self).counter_or_zero() + amount_to_increment > old(self).counter_max_value
                ==> r == Err::<(), Error>(Error::CounterValueExceedsMax),
            origin matches Origin::Signed(who) && old(self).counter_or_zero() + amount_to_increment
                <= old(self).counter_max_value && old(self).interactions_of(who) == u32::MAX ==> r
                == Err::<(), Error>(Error::UserInteractionOverflow),
            r is Err ==> state_unchanged(*old(self), *final(self)),
    {
        let who = require_signed(origin)?;
        let current_value = match self.counter_value {
            Some(v) => v,
            None => 0,
        };
        let new_value = match current_value.checked_add(amount_to_increment) {
            Some(v) => v,
            None => {
                return Err(Error::CounterOverflow);
            },
        };
        if new_value > self.counter_max_value {
            return Err(Error::CounterValueExceedsMax);
        }
        let interactions = match self.user_interactions.get(&who) {
            Some(c) => *c,
            None => 0,
        };
        let new_interactions = match interactions.checked_add(1) {
            Some(c) => c,
            None => {
                return Err(Error::UserInteractionOverflow);
            },
        };
        self.counter_value = Some(new_value);
        self.user_interactions.insert(who, new_interactions);
        self.events.push(
            Event::CounterIncremented {
                counter_value: new_value,
                who,
                incremented_amount: amount_to_increment,
            },
        );
        Ok(())
    }

    /// Subtracts `amount_to_decrement` from the counter (an uninitialized
    /// counter reads as 0). Only a signed actor may call this; the checked
    /// difference must not go below zero (no upper-bound re-check is
    /// needed, as decrementing only moves the value toward zero), and the
    /// actor's interaction count must not overflow. A success writes the
    /// new value, counts one interaction for the actor, and emits
    /// `CounterDecremented`; every failure leaves the state untouched.
    pub fn decrement(&mut self, origin: Origin, amount_to_decrement: u32) -> (r: Result<
        (),
        Error,
    >)
        requires
            old(self).wf(),
        ensures
            final(self).wf(),
            final(self).counter_max_value == old(self).counter_max_value,
            r is Ok <==> old(self).decrement_allowed(origin, amount_to_decrement),
            r is Ok ==> ({
                let who = origin->Signed_0;
                &&& final(self).counter_value == Some(
                    (old(self).counter_or_zero() - amount_to_decrement) as u32,
                )
                &&& final(self).user_interactions@ == old(self).user_interactions@.insert(
                    who,
                    (old(self).interactions_of(who) + 1) as u32,
                )
                &&& final(self).events@ == old(self).events@.push(
                    (Event::CounterDecremented {
                        counter_value: (old(self).counter_or_zero() - amount_to_decrement) as u32,
                        who,
                        decremented_amount: amount_to_decrement,
                    }),
                )
            }),
            !(origin is Signed) ==> r == Err::<(), Error>(Error::BadOrigin),
            origin is Signed && amount_to_decrement > old(self).counter_or_zero() ==> r == Err::<
                (),
                Error,
            >(Error::CounterValueBelowZero),
            origin matches Origin::Signed(who) && amount_to_decrement <= old(self).counter_or_zero()
                && old(self).interactions_of(who) == u32::MAX ==> r == Err::<(), Error>(
                Error::UserInteractionOverflow,
            ),
            r is Err ==> state_unchanged(*old(self), *final(self)),
    {
        let who = require_signed(origin)?;
        let current_value = match self.counter_value {
            Some(v) => v,
            None => 0,
        };
        let new_value = match current_value.checked_sub(amount_to_decrement) {
            Some(v) => v,
            None => {
                return Err(Error::CounterValueBelowZero);
            },
        };
        let interactions = match self.user_interactions.get(&who) {
            Some(c) => *c,
            None => 0,
        };
        let new_interactions = match interactions.checked_add(1) {
            Some(c) => c,
            None => {
                return Err(Error::UserInteractionOverflow);
            },
        };
        self.counter_value = Some(new_value);
        self.user_interactions.insert(who, new_interactions);
        self.events.push(
            Event::CounterDecremented {
                counter_value: new_value,
                who,
                decremented_amount: amount_to_decrement,
            },
        );
        Ok(())
    }

    /// The stored counter value; `None` if it was never initialized.
    pub fn get_counter_value(&self) -> (r: Option<u32>)
        ensures
            r == self.counter_value,
    {
        self.counter_value
    }

    /// The stored interaction count of `who`; `None` if the actor never
    /// completed a successful `increment` or `decrement`.
    pub fn get_user_interactions(&self, who: u64) -> (r: Option<u32>)
        ensures
            r matches Some(c) ==> self.user_interactions@.contains_key(who)
                && self.user_interactions@[who] == c,
            r is None ==> !self.user_interactions@.contains_key(who),
    {
        match self.user_interactions.get(&who) {
            Some(c) => Some(*c),
            None => None,
        }
    }

    /// The most recently emitted event; `None` while the log is empty.
    pub fn last_event(&self) -> (r: Option<Event>)
        ensures
            self.events@.len() == 0 ==> r is None,
            self.events@.len() > 0 ==> r == Some(self.events@.last()),
    {
        if self.events.len() == 0 {
            None
        } else {
            Some(self.events[self.events.len() - 1])
        }
    }

    /// How many events have been emitted so far.
    pub fn event_count(&self) -> (r: usize)
        ensures
            r == self.events@.len(),
    {
        self.events.len()
    }
}

} // verus!
