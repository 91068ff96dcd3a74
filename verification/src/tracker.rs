//! Session gauges: bounded counters tracked across interactive commands.
//!
//! A gauge never rejects a mutation; after every operation it clamps itself
//! back into `0 <= current <= max` with `max >= 0`.

use vstd::prelude::*;

verus! {

/// The maximum after clamping: never negative.
pub open spec fn clamp_max(max: int) -> int {
    if max >= 0 {
        max
    } else {
        0
    }
}

/// The current value after clamping: floored at zero, then capped at the
/// clamped maximum.
pub open spec fn clamp_current(current: int, max: int) -> int {
    let floored = if current >= 0 {
        current
    } else {
        0
    };
    if floored <= clamp_max(max) {
        floored
    } else {
        clamp_max(max)
    }
}

/// A named gauge for one property of a session, e.g. health or stamina.
#[derive(Debug)]
pub struct Tracker {
    name: String,
    current: isize,
    max: isize,
}

impl Tracker {
    /// The gauge's name.
    pub closed spec fn spec_name(self) -> Seq<char> {
        self.name@
    }

    /// The current value.
    pub closed spec fn spec_current(self) -> int {
        self.current as int
    }

    /// The maximum value.
    pub closed spec fn spec_max(self) -> int {
        self.max as int
    }

    /// The gauge honours its bounds: `0 <= current <= max`.
    pub open spec fn clamped(self) -> bool {
        0 <= self.spec_current() <= self.spec_max()
    }

    /// A new gauge.  The bounds are enforced by the first operation, not at
    /// construction.
    pub fn new(name: String, current: isize, max: isize) -> (t: Tracker)
        ensures
            t.spec_name() == name@,
            t.spec_current() == current as int,
            t.spec_max() == max as int,
    {
        Tracker { name, current, max }
    }

    /// Reads the gauge's name.
    pub fn name(&self) -> (r: &String)
        ensures
            r@ == self.spec_name(),
    {
        &self.name
    }

    /// Clamps the gauge back into its bounds: the maximum is floored at
    /// zero, then the current value is clamped between zero and the maximum.
    pub fn clamp(&mut self)
        ensures
            final(self).spec_name() == old(self).spec_name(),
            final(self).spec_max() == clamp_max(old(self).spec_max()),
            final(self).spec_current() == clamp_current(
                old(self).spec_current(),
                old(self).spec_max(),
            ),
            final(self).clamped(),
    {
        self.max = if self.max >= 0 {
            self.max
        } else {
            0
        };
        let floored = if self.current >= 0 {
            self.current
        } else {
            0
        };
        self.current = if floored <= self.max {
            floored
        } else {
            self.max
        };
    }

    /// Reads the current and maximum value, clamping first as every
    /// operation does.
    pub fn get(&mut self) -> (r: (isize, isize))
        ensures
            final(self).spec_name() == old(self).spec_name(),
            final(self).spec_max() == clamp_max(old(self).spec_max()),
            final(self).spec_current() == clamp_current(
                old(self).spec_current(),
                old(self).spec_max(),
            ),
            r.0 as int == final(self).spec_current(),
            r.1 as int == final(self).spec_max(),
    {
        self.clamp();
        (self.current, self.max)
    }

    /// Sets the current value, or the maximum when `on_max` holds, then
    /// clamps.  Exceeding the bounds is not an error: the value is silently
    /// truncated.
    pub fn set(&mut self, value: isize, on_max: bool)
        ensures
            final(self).spec_name() == old(self).spec_name(),
            on_max ==> final(self).spec_max() == clamp_max(value as int)
                && final(self).spec_current() == clamp_current(
                old(self).spec_current(),
                value as int,
            ),
            !on_max ==> final(self).spec_max() == clamp_max(old(self).spec_max())
                && final(self).spec_current() == clamp_current(
                value as int,
                old(self).spec_max(),
            ),
            final(self).clamped(),
    {
        if on_max {
            self.max = value;
        } else {
            self.current = value;
        }
        self.clamp();
    }

    /// Adds a delta to the current value, or to the maximum when `on_max`
    /// holds, then clamps.
    pub fn add(&mut self, delta: isize, on_max: bool)
        requires
            on_max ==> isize::MIN <= old(self).spec_max() + delta as int <= isize::MAX,
            !on_max ==> isize::MIN <= old(self).spec_current() + delta as int <= isize::MAX,
        ensures
            final(self).spec_name() == old(self).spec_name(),
            on_max ==> final(self).spec_max() == clamp_max(old(self).spec_max() + delta as int)
                && final(self).spec_current() == clamp_current(
                old(self).spec_current(),
                old(self).spec_max() + delta as int,
            ),
            !on_max ==> final(self).spec_max() == clamp_max(old(self).spec_max())
                && final(self).spec_current() == clamp_current(
                old(self).spec_current() + delta as int,
                old(self).spec_max(),
            ),
            final(self).clamped(),
    {
        if on_max {
            self.max = self.max + delta;
        } else {
            self.current = self.current + delta;
        }
        self.clamp();
    }

    /// Subtracts a delta from the current value, or from the maximum when
    /// `on_max` holds, then clamps.
    pub fn sub(&mut self, delta: isize, on_max: bool)
        requires
            on_max ==> isize::MIN <= old(self).spec_max() - delta as int <= isize::MAX,
            !on_max ==> isize::MIN <= old(self).spec_current() - delta as int <= isize::MAX,
        ensures
            final(self).spec_name() == old(self).spec_name(),
            on_max ==> final(self).spec_max() == clamp_max(old(self).spec_max() - delta as int)
                && final(self).spec_current() == clamp_current(
                old(self).spec_current(),
                old(self).spec_max() - delta as int,
            ),
            !on_max ==> final(self).spec_max() == clamp_max(old(self).spec_max())
                && final(self).spec_current() == clamp_current(
                old(self).spec_current() - delta as int,
                old(self).spec_max(),
            ),
            final(self).clamped(),
    {
        if on_max {
            self.max = self.max - delta;
        } else {
            self.current = self.current - delta;
        }
        self.clamp();
    }
}

/// A gauge for the hero's health alone, tracked from a starting value that
/// is both the current and the maximum.
#[derive(Debug)]
pub struct Health {
    gauge: Tracker,
}

impl Health {
    /// The current value.
    pub closed spec fn spec_current(self) -> int {
        self.gauge.spec_current()
    }

    /// The maximum value.
    pub closed spec fn spec_max(self) -> int {
        self.gauge.spec_max()
    }

    /// A new health gauge, full at the given value.
    pub fn new_action(health: isize) -> (h: Health)
        ensures
            h.spec_current() == health as int,
            h.spec_max() == health as int,
    {
        Health { gauge: Tracker::new(String::new(), health, health) }
    }

    /// Reads the current and maximum health, clamping first.
    pub fn get(&mut self) -> (r: (isize, isize))
        ensures
            final(self).spec_max() == clamp_max(old(self).spec_max()),
            final(self).spec_current() == clamp_current(
                old(self).spec_current(),
                old(self).spec_max(),
            ),
            r.0 as int == final(self).spec_current(),
            r.1 as int == final(self).spec_max(),
    {
        self.gauge.get()
    }

    /// Sets the current health, or the maximum when `on_max` holds, then
    /// clamps.
    pub fn set(&mut self, value: isize, on_max: bool)
        ensures
            on_max ==> final(self).spec_max() == clamp_max(value as int)
                && final(self).spec_current() == clamp_current(
                old(self).spec_current(),
                value as int,
            ),
            !on_max ==> final(self).spec_max() == clamp_max(old(self).spec_max())
                && final(self).spec_current() == clamp_current(
                value as int,
                old(self).spec_max(),
            ),
    {
        self.gauge.set(value, on_max);
    }

    /// Adds a delta to the current health, or to the maximum when `on_max`
    /// holds, then clamps.
    pub fn add(&mut self, delta: isize, on_max: bool)
        requires
            on_max ==> isize::MIN <= old(self).spec_max() + delta as int <= isize::MAX,
            !on_max ==> isize::MIN <= old(self).spec_current() + delta as int <= isize::MAX,
        ensures
            on_max ==> final(self).spec_max() == clamp_max(old(self).spec_max() + delta as int)
                && final(self).spec_current() == clamp_current(
                old(self).spec_current(),
                old(self).spec_max() + delta as int,
            ),
            !on_max ==> final(self).spec_max() == clamp_max(old(self).spec_max())
                && final(self).spec_current() == clamp_current(
                old(self).spec_current() + delta as int,
                old(self).spec_max(),
            ),
    {
        self.gauge.add(delta, on_max);
    }

    /// Subtracts a delta from the current health, or from the maximum when
    /// `on_max` holds, then clamps.
    pub fn sub(&mut self, delta: isize, on_max: bool)
        requires
            on_max ==> isize::MIN <= old(self).spec_max() - delta as int <= isize::MAX,
            !on_max ==> isize::MIN <= old(self).spec_current() - delta as int <= isize::MAX,
        ensures
            on_max ==> final(self).spec_max() == clamp_max(old(self).spec_max() - delta as int)
                && final(self).spec_current() == clamp_current(
                old(self).spec_current(),
                old(self).spec_max() - delta as int,
            ),
            !on_max ==> final(self).spec_max() == clamp_max(old(self).spec_max())
                && final(self).spec_current() == clamp_current(
                old(self).spec_current() - delta as int,
                old(self).spec_max(),
            ),
    {
        self.gauge.sub(delta, on_max);
    }
}

} // verus!
