//! Mutual-exclusion primitives for cooperatively scheduled tasks.
//!
//! Two admission policies share the same lifecycle of mutex, acquisition
//! future and guard:
//!
//! * [`mutex::Mutex`] hands out tickets and serves them in strict issuance
//!   order (first come, first served);
//! * [`mutex_unordered::UnorderedMutex`] keeps a single locked flag and makes
//!   no fairness promise at all.
//!
//! Both are state machines driven from outside: a scheduler polls an
//! acquisition future until it resolves into a guard, and releasing the guard
//! advances the admission state and surrenders the registered wake token so
//! the scheduler can re-poll the next waiter. The payload itself moves into
//! the guard on acquisition and back into the mutex on release, so exclusive
//! access is ownership, not a convention.

pub mod mutex;
pub mod mutex_unordered;
