//! Metrics.
//!
//! Lightweight instrumentation: a wall-clock stopwatch and shared
//! counters. A counter is the one piece of genuinely shared mutable
//! state in a render — worker threads bump it concurrently — so nothing
//! exact can be promised about the value any one reader observes, and
//! the contracts promise nothing.

use vstd::prelude::*;

use std::sync::atomic::{AtomicU64, Ordering};
use std::time::{Duration, Instant};

verus! {

/// A monotonic clock reading.
///
/// Relies on `std::time::Instant`, which the verifier treats as opaque:
/// no contract speaks about what a clock returns.
#[verifier::external_type_specification]
#[verifier::external_body]
pub struct ExInstant(Instant);

/// Relies on `std::time::Instant::now`: returns the current reading of a
/// monotonic clock. Nothing can be promised of a value that depends on
/// the time.
pub assume_specification[ Instant::now ]() -> Instant;

/// Relies on `std::time::Instant::elapsed`: returns the time since the
/// earlier reading. Nothing can be promised of a value that depends on
/// the time.
pub assume_specification[ Instant::elapsed ](earlier: &Instant) -> Duration;

/// A stopwatch for measuring elapsed time.
pub struct Timer(Instant);

impl Timer {
    /// Creates and starts a new timer.
    pub fn tick() -> (r: Timer) {
        Timer(Instant::now())
    }

    /// Fetches the duration that has elapsed since the timer started.
    pub fn tock(&self) -> (r: Duration) {
        self.0.elapsed()
    }
}

/// An unsigned integer metric which only increments.
///
/// Shared freely across worker threads; updates are single lock-free
/// fetch-and-add operations on one machine word.
pub struct Counter(AtomicU64);

impl Counter {
    /// Create a new counter.
    pub fn new() -> (r: Counter) {
        Counter(AtomicU64::new(0))
    }

    /// Increment the metric value by one, returning the value the
    /// counter held just before this increment.
    pub fn inc(&self) -> (r: u64) {
        self.0.fetch_add(1, Ordering::Relaxed)
    }

    /// Retrieve the metric value.
    pub fn get(&self) -> (r: u64) {
        self.0.load(Ordering::Relaxed)
    }
}

/// A metric that accumulates arbitrary increments, stored as raw bits of
/// one machine word so that updates stay lock-free.
///
/// The interpretation of the bits belongs to the caller; the verified
/// core only creates the storage.
pub struct Quantity(AtomicU64);

impl Quantity {
    /// Creates a new quantity.
    pub fn new() -> (r: Quantity) {
        Quantity(AtomicU64::new(0))
    }

    /// The raw bits currently held.
    pub fn bits(&self) -> (r: u64) {
        self.0.load(Ordering::Relaxed)
    }

    /// Replace the raw bits when they still hold `current`, returning
    /// the bits observed. Retried by callers implementing read-modify-
    /// write updates.
    pub fn compare_exchange_bits(&self, current: u64, new: u64) -> (r: Result<u64, u64>) {
        self.0.compare_exchange_weak(current, new, Ordering::Relaxed, Ordering::Relaxed)
    }
}

} // verus!
