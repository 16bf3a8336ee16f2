//! The state cycle controller: owns the current state index, applies one
//! button-input transition per tick, and hands back the outputs to render
//! whenever the state changed.

use vstd::prelude::*;

use crate::output::{color_label, label_spec, led_levels, led_levels_spec, LedLevels};

verus! {

/// The transition rule, evaluated once per tick. Ambiguous input (both
/// buttons pressed, or neither) leaves the state alone; "next" increments,
/// wrapping past 6 back to 0; "previous" decrements, wrapping below 0 to 6.
pub open spec fn step_spec(s: int, next: bool, previous: bool) -> int {
    if next == previous {
        s
    } else if next {
        if s == 6 {
            0
        } else {
            s + 1
        }
    } else {
        if s == 0 {
            6
        } else {
            s - 1
        }
    }
}

/// Owns the current state index, always within 0..=6.
pub struct CycleController {
    state: u8,
}

impl CycleController {
    /// The current state index as a mathematical integer.
    pub closed spec fn state_spec(&self) -> int {
        self.state as int
    }

    #[verifier::type_invariant]
    spec fn wf(self) -> bool {
        self.state <= 6
    }

    /// A fresh controller starts in the rest state.
    pub fn new() -> (c: CycleController)
        ensures
            c.state_spec() == 0,
    {
        CycleController { state: 0 }
    }

    /// The current state index.
    pub fn state(&self) -> (s: u8)
        ensures
            s as int == self.state_spec(),
            s <= 6,
    {
        proof {
            use_type_invariant(self);
        }
        self.state
    }

    /// Applies one tick's transition and reports whether the state changed.
    /// On ambiguous input (both buttons pressed, or neither) the tick is a
    /// no-op; on a qualifying input the state always changes.
    pub fn tick(&mut self, next: bool, previous: bool) -> (changed: bool)
        ensures
            final(self).state_spec() == step_spec(old(self).state_spec(), next, previous),
            changed == (next != previous),
            !changed ==> final(self).state_spec() == old(self).state_spec(),
            changed ==> final(self).state_spec() != old(self).state_spec(),
    {
        proof {
            use_type_invariant(&*self);
        }
        if next == previous {
            return false;
        }
        let s = self.state;
        let stepped: u8 = if next {
            if s == 6 {
                0
            } else {
                s + 1
            }
        } else {
            if s == 0 {
                6
            } else {
                s - 1
            }
        };
        self.state = stepped;
        true
    }

    /// The outputs for the current state: the LED channel triple and the
    /// color name to show on the display.
    pub fn render(&self) -> (out: (LedLevels, &'static str))
        ensures
            out.0 == led_levels_spec(self.state_spec()),
            out.1@ == label_spec(self.state_spec()),
    {
        proof {
            use_type_invariant(self);
        }
        (led_levels(self.state), color_label(self.state))
    }

    /// Applies one tick's transition; when the state changed, returns the
    /// outputs for the new state, and on ambiguous input returns nothing, so
    /// that neither output mapper is invoked for a no-op tick.
    pub fn tick_and_render(&mut self, next: bool, previous: bool) -> (out: Option<
        (LedLevels, &'static str),
    >)
        ensures
            final(self).state_spec() == step_spec(old(self).state_spec(), next, previous),
            (next == previous) <==> out is None,
            next == previous ==> final(self).state_spec() == old(self).state_spec(),
            out matches Some(o) ==> o.0 == led_levels_spec(final(self).state_spec()),
            out matches Some(o) ==> o.1@ == label_spec(final(self).state_spec()),
    {
        let changed = self.tick(next, previous);
        if changed {
            Some(self.render())
        } else {
            None
        }
    }
}

} // verus!
