//! A busy-wait (spin) mutual-exclusion primitive.
//!
//! [`SpinMutex`] wraps one value and grants scoped, exclusive access to it
//! through a guard.  It offers two acquisition strategies over one shared
//! state machine: a conventional blocking acquisition, and a spinning one
//! that never invokes a blocking wait — for execution contexts in which
//! suspending the calling thread is fatal.  Both strategies surface the
//! standard poisoning contract: when a holder's critical section is ended
//! by a panic, every later acquisition reports the poisoning while still
//! granting access to the value.

pub mod mutex;
pub mod protocol;
mod raw;

pub use mutex::Acquisition;
pub use mutex::Attempt;
pub use mutex::Guard;
pub use mutex::Poisoned;
pub use mutex::SPIN_BUDGET;
pub use mutex::SpinMutex;
pub use mutex::SpinStep;
pub use mutex::settle_acquisition;
pub use mutex::settle_attempt;
