//! Figures that the broadcasting software gives about a running stream.
use vstd::prelude::*;

verus! {

/// Figures about a stream. The frame counters only ever grow while the
/// broadcasting software runs.
///
/// Measured quantities are kept as the bit patterns of 64-bit floating-point
/// numbers (`f64::to_bits`): they are handed on and never computed with.
#[derive(Debug, Clone, Copy, PartialEq, Eq, Structural)]
pub struct StreamStatus {
    pub bitrate: u64,
    pub fps_bits: u64,
    pub num_total_frames: u64,
    pub num_dropped_frames: u64,
    pub render_total_frames: u64,
    pub render_missed_frames: u64,
    pub output_total_frames: u64,
    pub output_skipped_frames: u64,
    pub cpu_usage_bits: u64,
    pub memory_usage_bits: u64,
    pub available_disk_space_bits: u64,
}

impl StreamStatus {
    /// Whether no frame counter is behind that of `old`.
    pub open spec fn counts_from(self, old: Self) -> bool {
        &&& old.num_total_frames <= self.num_total_frames
        &&& old.num_dropped_frames <= self.num_dropped_frames
        &&& old.render_total_frames <= self.render_total_frames
        &&& old.render_missed_frames <= self.render_missed_frames
        &&& old.output_total_frames <= self.output_total_frames
        &&& old.output_skipped_frames <= self.output_skipped_frames
    }

    /// The frames since `old`, and everything else as it is now.
    pub open spec fn since(self, old: Self) -> Self {
        StreamStatus {
            num_total_frames: (self.num_total_frames - old.num_total_frames) as u64,
            num_dropped_frames: (self.num_dropped_frames - old.num_dropped_frames) as u64,
            render_total_frames: (self.render_total_frames - old.render_total_frames) as u64,
            render_missed_frames: (self.render_missed_frames - old.render_missed_frames) as u64,
            output_total_frames: (self.output_total_frames - old.output_total_frames) as u64,
            output_skipped_frames: (self.output_skipped_frames - old.output_skipped_frames) as u64,
            ..self
        }
    }

    /// The figures of the current stream, given those from when it started:
    /// the counters count from there, the other figures are kept.
    pub fn calculate_current(&self, old: &Self) -> (r: Self)
        requires
            self.counts_from(*old),
        ensures
            r == self.since(*old),
    {
        StreamStatus {
            bitrate: self.bitrate,
            fps_bits: self.fps_bits,
            num_total_frames: self.num_total_frames - old.num_total_frames,
            num_dropped_frames: self.num_dropped_frames - old.num_dropped_frames,
            render_total_frames: self.render_total_frames - old.render_total_frames,
            render_missed_frames: self.render_missed_frames - old.render_missed_frames,
            output_total_frames: self.output_total_frames - old.output_total_frames,
            output_skipped_frames: self.output_skipped_frames - old.output_skipped_frames,
            cpu_usage_bits: self.cpu_usage_bits,
            memory_usage_bits: self.memory_usage_bits,
            available_disk_space_bits: self.available_disk_space_bits,
        }
    }
}

impl Default for StreamStatus {
    /// All zeros. Zero is also the bit pattern of the number 0.0.
    fn default() -> (r: Self)
        ensures
            r == (StreamStatus {
                bitrate: 0,
                fps_bits: 0,
                num_total_frames: 0,
                num_dropped_frames: 0,
                render_total_frames: 0,
                render_missed_frames: 0,
                output_total_frames: 0,
                output_skipped_frames: 0,
                cpu_usage_bits: 0,
                memory_usage_bits: 0,
                available_disk_space_bits: 0,
            }),
    {
        StreamStatus {
            bitrate: 0,
            fps_bits: 0,
            num_total_frames: 0,
            num_dropped_frames: 0,
            render_total_frames: 0,
            render_missed_frames: 0,
            output_total_frames: 0,
            output_skipped_frames: 0,
            cpu_usage_bits: 0,
            memory_usage_bits: 0,
            available_disk_space_bits: 0,
        }
    }
}

} // verus!
