//! The shared state coordinator: one mutual-exclusion cell owns the fan
//! state for the process lifetime, shared by the network handlers and the
//! button-poll loop. Every access takes the lock for the few field reads
//! or writes it needs, so every snapshot is one complete stored state —
//! a torn read, mixing fields of two different states, is not
//! representable. Each mutation returns the state it found together with
//! the state it stored, and the contract ties the two together: under
//! the lock order, every mutation is one atomic step.

use vstd::prelude::*;
use vstd::rwlock::RwLock;
use crate::fan::{Fan, Speed, next_state};
use crate::protocol::{apply_command, Command};

verus! {

/// The one fan state of the process, behind a lock.
pub struct SharedFan {
    lock: RwLock<Fan, spec_fn(Fan) -> bool>,
}

impl SharedFan {
    /// Every fan state is a legal value of the cell.
    #[verifier::type_invariant]
    spec fn wf(self) -> bool {
        forall|x: Fan| self.lock.inv(x)
    }

    /// Wraps a starting state. Created once at startup.
    pub fn new(f: Fan) -> SharedFan {
        SharedFan { lock: RwLock::new(f, Ghost(|x: Fan| true)) }
    }

    /// Reads the current state under the lock: one complete snapshot.
    /// No guarantee is made about which concurrent mutation it observes.
    pub fn snapshot(&self) -> Fan {
        let handle = self.lock.acquire_read();
        let f = *handle.borrow();
        handle.release_read();
        f
    }

    /// Advances the fan one step along the button cycle. Returns the
    /// state it found and the state it stored: exactly one step apart.
    pub fn advance(&self) -> (r: (Fan, Fan))
        ensures
            r.1 == next_state(r.0),
    {
        proof {
            use_type_invariant(self);
        }
        let (mut f, handle) = self.lock.acquire_write();
        let prev = f;
        f.next_speed();
        handle.release_write(f);
        (prev, f)
    }

    /// Assigns the power flag under the lock. Returns the state it found
    /// and the state it stored: only the power flag differs.
    pub fn set_on(&self, on: bool) -> (r: (Fan, Fan))
        ensures
            r.1 == (Fan { speed: r.0.speed, on: on }),
    {
        proof {
            use_type_invariant(self);
        }
        let (mut f, handle) = self.lock.acquire_write();
        let prev = f;
        f.set_on(on);
        handle.release_write(f);
        (prev, f)
    }

    /// Assigns the tier under the lock. Returns the state it found and
    /// the state it stored: only the tier differs.
    pub fn set_speed(&self, speed: Speed) -> (r: (Fan, Fan))
        ensures
            r.1 == (Fan { speed: speed, on: r.0.on }),
    {
        proof {
            use_type_invariant(self);
        }
        let (mut f, handle) = self.lock.acquire_write();
        let prev = f;
        f.set_speed(speed);
        handle.release_write(f);
        (prev, f)
    }

    /// Performs one decoded command under the lock. Returns the state it
    /// found and the state it stored: one command application apart.
    pub fn execute(&self, c: &Command) -> (r: (Fan, Fan))
        ensures
            r.1 == apply_command(r.0, *c),
    {
        proof {
            use_type_invariant(self);
        }
        let (mut f, handle) = self.lock.acquire_write();
        let prev = f;
        crate::protocol::execute(&mut f, c);
        handle.release_write(f);
        (prev, f)
    }
}

} // verus!
