//! Rate limits. A bucket holds one token for every caller; a token that was
//! taken is back once the bucket's delay has passed.

use std::collections::HashMap;
use vstd::prelude::*;

verus! {

broadcast use vstd::std_specs::hash::group_hash_axioms;

/// What a bucket remembers of one caller.
#[derive(Clone, Copy, Debug, PartialEq, Eq)]
pub struct Slot {
    /// When the caller last took the token, in seconds.
    pub last: u64,
    /// Whether the caller has not been turned away since then.
    pub first_try: bool,
}

/// What came of asking a bucket for its token.
#[derive(Clone, Copy, Debug, PartialEq, Eq)]
pub enum Take {
    /// The token was taken. `prior` is what the bucket remembered of the
    /// caller before, which is what a refund brings back.
    Granted { prior: Option<Slot> },
    /// The token is not back yet. `remaining` is how many seconds are left
    /// until it is, and `first_try` whether this is the first time that the
    /// caller is turned away since taking it.
    Limited { remaining: u64, first_try: bool },
}

/// Whether a caller remembered as `slot` is turned away at `now` by a
/// bucket with this delay.
pub open spec fn limited(slot: Option<Slot>, delay: u64, now: u64) -> bool {
    match slot {
        Some(s) => now < s.last + delay,
        None => false,
    }
}

/// The seconds left until the token is back, as far as 64 bits can tell.
pub open spec fn seconds_left(last: u64, delay: u64, now: u64) -> u64 {
    if last + delay - now > u64::MAX {
        u64::MAX
    } else {
        (last + delay - now) as u64
    }
}

/// What `take` answers a caller remembered as `slot`.
pub open spec fn take_answer(slot: Option<Slot>, delay: u64, now: u64) -> Take {
    match slot {
        Some(s) => if now < s.last + delay {
            Take::Limited { remaining: seconds_left(s.last, delay, now), first_try: s.first_try }
        } else {
            Take::Granted { prior: slot }
        },
        None => Take::Granted { prior: slot },
    }
}

/// What the bucket remembers of the caller after `take`.
pub open spec fn take_slot(slot: Option<Slot>, delay: u64, now: u64) -> Slot {
    match slot {
        Some(s) => if now < s.last + delay {
            Slot { last: s.last, first_try: false }
        } else {
            Slot { last: now, first_try: true }
        },
        None => Slot { last: now, first_try: true },
    }
}

/// What is remembered of `caller`, if anything.
pub open spec fn slot_of(slots: Map<u64, Slot>, caller: u64) -> Option<Slot> {
    if slots.contains_key(caller) {
        Some(slots[caller])
    } else {
        None
    }
}

/// The memory of a bucket after `caller` asked for the token at `now`.
pub open spec fn after_take(slots: Map<u64, Slot>, delay: u64, caller: u64, now: u64) -> Map<
    u64,
    Slot,
> {
    slots.insert(caller, take_slot(slot_of(slots, caller), delay, now))
}

/// The memory of a bucket once `caller` is remembered as `prior` again.
pub open spec fn after_restore(slots: Map<u64, Slot>, caller: u64, prior: Option<Slot>) -> Map<
    u64,
    Slot,
> {
    match prior {
        Some(s) => slots.insert(caller, s),
        None => slots.remove(caller),
    }
}

/// A named rate limit.
pub struct Bucket {
    name: String,
    delay: u64,
    slots: HashMap<u64, Slot>,
}

impl Bucket {
    /// The name under which commands refer to the bucket.
    pub closed spec fn name(&self) -> Seq<char> {
        self.name@
    }

    /// The seconds that pass before a token is back.
    pub closed spec fn delay(&self) -> u64 {
        self.delay
    }

    /// What the bucket remembers, by caller.
    pub closed spec fn slots(&self) -> Map<u64, Slot> {
        self.slots@
    }

    /// A bucket that remembers nobody.
    pub fn new(name: String, delay: u64) -> (bucket: Bucket)
        ensures
            bucket.name() == name@,
            bucket.delay() == delay,
            bucket.slots() == Map::<u64, Slot>::empty(),
    {
        Bucket { name, delay, slots: HashMap::new() }
    }

    /// The bucket's name.
    pub fn label(&self) -> (name: &str)
        ensures
            name@ == self.name(),
    {
        self.name.as_str()
    }

    /// The bucket's delay in seconds.
    pub fn delay_seconds(&self) -> (delay: u64)
        ensures
            delay == self.delay(),
    {
        self.delay
    }

    /// What the bucket remembers of `caller`.
    pub fn slot(&self, caller: u64) -> (slot: Option<Slot>)
        ensures
            slot == slot_of(self.slots(), caller),
    {
        match self.slots.get(&caller) {
            Some(s) => Some(*s),
            None => None,
        }
    }

    /// Asks for the token of `caller` at `now`. The token is granted unless
    /// the caller took it less than the delay ago. A caller that is turned
    /// away learns how long to wait, and whether this is the first refusal
    /// since the token was taken; the bucket remembers that it has refused.
    pub fn take(&mut self, caller: u64, now: u64) -> (answer: Take)
        ensures
            answer == take_answer(slot_of(old(self).slots(), caller), old(self).delay(), now),
            final(self).slots() == after_take(old(self).slots(), old(self).delay(), caller, now),
            final(self).delay() == old(self).delay(),
            final(self).name() == old(self).name(),
    {
        let prior = self.slot(caller);
        match prior {
            Some(s) => {
                let back: u128 = s.last as u128 + self.delay as u128;
                if (now as u128) < back {
                    let left: u128 = back - now as u128;
                    let remaining: u64 = if left > u64::MAX as u128 {
                        u64::MAX
                    } else {
                        left as u64
                    };
                    self.slots.insert(caller, Slot { last: s.last, first_try: false });
                    Take::Limited { remaining, first_try: s.first_try }
                } else {
                    self.slots.insert(caller, Slot { last: now, first_try: true });
                    Take::Granted { prior }
                }
            },
            None => {
                self.slots.insert(caller, Slot { last: now, first_try: true });
                Take::Granted { prior }
            },
        }
    }

    /// Gives a token back: the bucket remembers of `caller` what it did
    /// before the token was taken.
    pub fn restore(&mut self, caller: u64, prior: Option<Slot>)
        ensures
            final(self).slots() == after_restore(old(self).slots(), caller, prior),
            final(self).delay() == old(self).delay(),
            final(self).name() == old(self).name(),
    {
        match prior {
            Some(s) => {
                self.slots.insert(caller, s);
            },
            None => {
                self.slots.remove(&caller);
            },
        }
    }
}

/// Of two requests by one caller less than the delay apart, the second is
/// turned away.
pub proof fn law_second_take_is_limited(
    slots: Map<u64, Slot>,
    delay: u64,
    caller: u64,
    first: u64,
    second: u64,
)
    requires
        take_answer(slot_of(slots, caller), delay, first) is Granted,
        first <= second < first + delay,
    ensures
        take_answer(slot_of(after_take(slots, delay, caller, first), caller), delay, second) is Limited,
{
}

/// A caller that is turned away twice in a row is told so at most once: the
/// second refusal is never a first try.
pub proof fn law_one_notice_per_window(
    slots: Map<u64, Slot>,
    delay: u64,
    caller: u64,
    earlier: u64,
    later: u64,
)
    requires
        take_answer(slot_of(slots, caller), delay, earlier) is Limited,
        take_answer(slot_of(after_take(slots, delay, caller, earlier), caller), delay, later) is Limited,
    ensures
        take_answer(
            slot_of(after_take(slots, delay, caller, earlier), caller),
            delay,
            later,
        )->first_try == false,
{
}

/// The first refusal after a token was taken is a first try.
pub proof fn law_first_refusal_is_noticed(
    slots: Map<u64, Slot>,
    delay: u64,
    caller: u64,
    first: u64,
    second: u64,
)
    requires
        take_answer(slot_of(slots, caller), delay, first) is Granted,
        take_answer(slot_of(after_take(slots, delay, caller, first), caller), delay, second) is Limited,
    ensures
        take_answer(
            slot_of(after_take(slots, delay, caller, first), caller),
            delay,
            second,
        )->first_try == true,
{
}

/// A token that was granted and given back leaves the bucket as it was.
pub proof fn law_refund_restores(slots: Map<u64, Slot>, delay: u64, caller: u64, now: u64)
    requires
        take_answer(slot_of(slots, caller), delay, now) is Granted,
    ensures
        after_restore(
            after_take(slots, delay, caller, now),
            caller,
            take_answer(slot_of(slots, caller), delay, now)->prior,
        ) == slots,
{
    let prior = take_answer(slot_of(slots, caller), delay, now)->prior;
    assert(after_restore(after_take(slots, delay, caller, now), caller, prior) =~= slots);
}

/// What one caller asks of a bucket changes nothing for another.
pub proof fn law_callers_are_apart(
    slots: Map<u64, Slot>,
    delay: u64,
    caller: u64,
    other: u64,
    now: u64,
)
    requires
        caller != other,
    ensures
        slot_of(after_take(slots, delay, caller, now), other) == slot_of(slots, other),
{
}

} // verus!
