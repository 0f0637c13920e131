//! Peak-level meter shared between an audio callback (which reports peaks)
//! and a UI thread (which reads and resets them).
//!
//! Peaks are held as the IEEE 754 bit patterns of non-negative `f32` values,
//! whose order as unsigned integers is their numeric order, so a running
//! maximum over bit patterns is a running maximum over levels. Turning
//! samples into a peak bit pattern is done by the caller.

use std::sync::Arc;
use std::sync::atomic::{AtomicU32, Ordering};
use vstd::prelude::*;

verus! {

/// A shared peak register; clones share the same register.
#[derive(Clone)]
pub struct Meter {
    peak_bits: Arc<AtomicU32>,
}

impl Meter {
    /// A meter whose peak is zero.
    pub fn new() -> (m: Meter) {
        Meter { peak_bits: Arc::new(AtomicU32::new(0)) }
    }

    /// Raises the stored peak to `bits` if that is larger; a zero peak is
    /// not recorded at all. Lock-free, so safe from a real-time callback.
    pub fn observe_peak_bits(&self, bits: u32) {
        if bits == 0 {
            return;
        }
        let _ = self.peak_bits.fetch_max(bits, Ordering::Relaxed);
    }

    /// Reads the stored peak and resets it to zero in one atomic step.
    pub fn take_peak_bits(&self) -> (bits: u32) {
        self.peak_bits.swap(0, Ordering::Relaxed)
    }
}

impl Default for Meter {
    fn default() -> (m: Meter) {
        Meter::new()
    }
}

} // verus!
