//! Live playback metrics of one cue, shared lock-free between the audio
//! callback that writes them and the UI that reads them.
//!
//! Each metric is held as the bit pattern of its floating-point value (the
//! times as binary64, the peaks as binary32) in a relaxed atomic cell; the
//! conversion to and from floating point is done by the program around the
//! library. What a read returns depends on what other threads last wrote,
//! so nothing is stated of the values.

use std::sync::atomic::{AtomicU32, AtomicU64, Ordering};

use vstd::prelude::*;

verus! {

/// Lock-free metrics of one cue's playback.
#[derive(Debug)]
pub struct AtomicCueMetrics {
    current_time_bits: AtomicU64,
    total_duration_bits: AtomicU64,
    left_peak_bits: AtomicU32,
    right_peak_bits: AtomicU32,
}

impl AtomicCueMetrics {
    /// Metrics with every cell holding the all-zero pattern (0.0).
    pub fn new() -> Self {
        AtomicCueMetrics {
            current_time_bits: AtomicU64::new(0),
            total_duration_bits: AtomicU64::new(0),
            left_peak_bits: AtomicU32::new(0),
            right_peak_bits: AtomicU32::new(0),
        }
    }

    /// Stores a new set of metrics: the playback position and the total
    /// duration in seconds (binary64 patterns), and the left and right peak
    /// levels (binary32 patterns).
    pub fn store_bits(
        &self,
        current_time_bits: u64,
        total_duration_bits: u64,
        left_peak_bits: u32,
        right_peak_bits: u32,
    ) {
        self.current_time_bits.store(current_time_bits, Ordering::Relaxed);
        self.total_duration_bits.store(total_duration_bits, Ordering::Relaxed);
        self.left_peak_bits.store(left_peak_bits, Ordering::Relaxed);
        self.right_peak_bits.store(right_peak_bits, Ordering::Relaxed);
    }

    /// The last stored playback position (binary64 pattern of seconds).
    pub fn current_time_bits(&self) -> u64 {
        self.current_time_bits.load(Ordering::Relaxed)
    }

    /// The last stored total duration (binary64 pattern of seconds).
    pub fn total_duration_bits(&self) -> u64 {
        self.total_duration_bits.load(Ordering::Relaxed)
    }

    /// The last stored left peak level (binary32 pattern).
    pub fn left_peak_bits(&self) -> u32 {
        self.left_peak_bits.load(Ordering::Relaxed)
    }

    /// The last stored right peak level (binary32 pattern).
    pub fn right_peak_bits(&self) -> u32 {
        self.right_peak_bits.load(Ordering::Relaxed)
    }
}

} // verus!
