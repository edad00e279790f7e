use std::sync::atomic::AtomicUsize;
use std::sync::atomic::Ordering;
use vstd::prelude::*;

verus! {

/// Hands out the numbers that tell the marks of events apart. It can be
/// shared between threads: a number is taken in one indivisible step.
pub struct EventCounter {
    next: AtomicUsize,
}

impl EventCounter {
    /// A counter that starts at zero.
    pub fn new() -> EventCounter {
        EventCounter { next: AtomicUsize::new(0) }
    }

    /// Takes the next number. Which one that is depends on what other
    /// threads took in the meantime.
    pub fn take(&self) -> usize {
        self.next.fetch_add(1, Ordering::Relaxed)
    }
}

} // verus!
