//! The fan state machine: a power flag and one of three discrete speed
//! tiers. The tier is remembered while the power is off.

use vstd::prelude::*;

verus! {

/// One of the three discrete speed tiers, ordered `Low < Medium < High`.
#[derive(Debug, PartialEq, Eq, Structural, Clone, Copy)]
pub enum Speed {
    Low,
    Medium,
    High,
}

impl Speed {
    /// The stable external string key of a tier, used both in outbound
    /// status JSON and in inbound speed-set commands.
    pub open spec fn spec_key(self) -> Seq<char> {
        match self {
            Speed::Low => "low_key"@,
            Speed::Medium => "med_key"@,
            Speed::High => "high_key"@,
        }
    }

    /// Renders the tier as its stable external string key.
    pub fn to_string(&self) -> (r: String)
        ensures
            r@ == self.spec_key(),
    {
        match self {
            Speed::Low => "low_key".to_owned(),
            Speed::Medium => "med_key".to_owned(),
            Speed::High => "high_key".to_owned(),
        }
    }
}

/// The authoritative fan state: power flag plus the remembered speed tier.
#[derive(Debug, PartialEq, Eq, Structural, Clone, Copy)]
pub struct Fan {
    pub speed: Speed,
    pub on: bool,
}

/// The unique successor of a fan state under the physical-button action:
/// any off state goes to on at `Low` — a press while off must visibly
/// turn the fan on, whatever tier a speed-set command left remembered —
/// while on, the tier climbs one step, and from `High` the fan turns off
/// with the tier reset to `Low`.
pub open spec fn next_state(f: Fan) -> Fan {
    if !f.on {
        Fan { speed: Speed::Low, on: true }
    } else {
        match f.speed {
            Speed::Low => Fan { speed: Speed::Medium, on: true },
            Speed::Medium => Fan { speed: Speed::High, on: true },
            Speed::High => Fan { speed: Speed::Low, on: false },
        }
    }
}

/// The four states the button cycle ranges over: whenever the fan is
/// off, the remembered tier is `Low`. One press from anywhere lands on a
/// cycle state, and the closure below is stated over these four.
pub open spec fn cycle_state(f: Fan) -> bool {
    f.on || f.speed == Speed::Low
}

impl Fan {
    /// A fresh fan: powered off, tier `Low`.
    pub fn new() -> (r: Fan)
        ensures
            r == (Fan { speed: Speed::Low, on: false }),
    {
        Fan { speed: Speed::Low, on: false }
    }

    /// Unconditionally assigns the tier; never touches the power flag.
    pub fn set_speed(&mut self, speed: Speed)
        ensures
            *final(self) == (Fan { speed: speed, on: old(self).on }),
    {
        self.speed = speed;
    }

    /// Unconditionally assigns the power flag; never touches the tier.
    pub fn set_on(&mut self, on: bool)
        ensures
            *final(self) == (Fan { speed: old(self).speed, on: on }),
    {
        self.on = on;
    }

    /// Flips the power flag; never touches the tier.
    pub fn toggle(&mut self)
        ensures
            *final(self) == (Fan { speed: old(self).speed, on: !old(self).on }),
    {
        self.on = !self.on;
    }

    pub fn get_speed(&self) -> (r: Speed)
        ensures
            r == self.speed,
    {
        self.speed
    }

    /// The physical-button single-action transition: advances the state
    /// exactly one step along the cycle. Total over the state space.
    pub fn next_speed(&mut self)
        ensures
            *final(self) == next_state(*old(self)),
    {
        if !self.is_on() {
            self.set_speed(Speed::Low);
            self.on = true;
        } else {
            match self.speed {
                Speed::Low => self.set_speed(Speed::Medium),
                Speed::Medium => self.set_speed(Speed::High),
                Speed::High => {
                    self.set_speed(Speed::Low);
                    self.on = false;
                },
            }
        }
    }

    pub fn is_on(&self) -> (r: bool)
        ensures
            r == self.on,
    {
        self.on
    }
}

/// Cycle closure: a single press from any state whatever lands on a
/// cycle state, and from any of the four cycle states, four button
/// presses return the fan to exactly the state it started in.
pub proof fn lemma_advance_cycle(f: Fan)
    ensures
        cycle_state(next_state(f)),
        cycle_state(f) ==> next_state(next_state(next_state(next_state(f)))) == f,
{
}

} // verus!
