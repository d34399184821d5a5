//! When to flush a memtable, and the bookkeeping of the flush that is under
//! way.

use vstd::prelude::*;
use crate::storage::memtable::SequenceNumber;

verus! {

/// The threshold of the size-based strategy where none is configured.
pub const DEFAULT_WRITE_BUFFER_SIZE: usize = 32 * 1024 * 1024;

/// Decides when the memtable of a region is to be flushed.
pub trait FlushStrategy {
    /// Whether a memtable that holds `bytes_mutable` bytes is to be flushed.
    spec fn wants_flush(&self, bytes_mutable: usize) -> bool;

    /// Whether a memtable that holds `bytes_mutable` bytes is to be flushed.
    fn should_flush(&self, bytes_mutable: usize) -> (b: bool)
        ensures
            b == self.wants_flush(bytes_mutable),
    ;
}

/// Flushes once the memtable holds more bytes than a configured threshold.
#[derive(Clone, Copy, Debug, PartialEq, Eq)]
pub struct SizeBasedStrategy {
    /// The threshold in bytes.
    pub max_write_buffer_size: usize,
}

impl SizeBasedStrategy {
    /// The strategy with the threshold `max_write_buffer_size`.
    pub fn new(max_write_buffer_size: usize) -> (s: SizeBasedStrategy)
        ensures
            s.max_write_buffer_size == max_write_buffer_size,
    {
        SizeBasedStrategy { max_write_buffer_size }
    }
}

impl Default for SizeBasedStrategy {
    fn default() -> (s: SizeBasedStrategy)
        ensures
            s.max_write_buffer_size == DEFAULT_WRITE_BUFFER_SIZE,
    {
        SizeBasedStrategy { max_write_buffer_size: DEFAULT_WRITE_BUFFER_SIZE }
    }
}

impl FlushStrategy for SizeBasedStrategy {
    open spec fn wants_flush(&self, bytes_mutable: usize) -> bool {
        bytes_mutable > self.max_write_buffer_size
    }

    fn should_flush(&self, bytes_mutable: usize) -> (b: bool) {
        bytes_mutable > self.max_write_buffer_size
    }
}

/// The handle of a flush that was scheduled: its number, and the sequence
/// number up to which it flushes.
#[derive(Clone, Copy, Debug, PartialEq, Eq)]
pub struct FlushJob {
    pub id: u64,
    pub sequence: SequenceNumber,
}

/// Hands out flush jobs, at most one at a time.
#[derive(Clone, Copy, Debug, PartialEq, Eq)]
pub struct FlushSchedulerImpl {
    /// The job that is under way, if one is.
    pub in_flight: Option<FlushJob>,
    /// How many jobs were handed out.
    pub scheduled: u64,
}

impl FlushSchedulerImpl {
    /// A scheduler that has handed out nothing.
    pub fn new() -> (s: FlushSchedulerImpl)
        ensures
            s.in_flight is None,
            s.scheduled == 0,
    {
        FlushSchedulerImpl { in_flight: None, scheduled: 0 }
    }

    /// Whether a job is under way.
    pub fn is_busy(&self) -> (b: bool)
        ensures
            b == (self.in_flight is Some),
    {
        self.in_flight.is_some()
    }

    /// Hands out the job that flushes up to `sequence`, unless a job is under
    /// way or the job numbers have run out; then nothing changes.
    pub fn schedule(&mut self, sequence: SequenceNumber) -> (job: Option<FlushJob>)
        ensures
            match job {
                Some(j) => {
                    &&& old(self).in_flight is None
                    &&& old(self).scheduled < u64::MAX
                    &&& j == (FlushJob { id: old(self).scheduled, sequence })
                    &&& *final(self) == (FlushSchedulerImpl {
                        in_flight: Some(j),
                        scheduled: (old(self).scheduled + 1) as u64,
                    })
                },
                None => {
                    &&& (old(self).in_flight is Some || old(self).scheduled == u64::MAX)
                    &&& *final(self) == *old(self)
                },
            },
    {
        if self.in_flight.is_some() || self.scheduled == u64::MAX {
            return None;
        }
        let job = FlushJob { id: self.scheduled, sequence };
        self.in_flight = Some(job);
        self.scheduled = self.scheduled + 1;
        Some(job)
    }

    /// Marks the job that is under way as done.
    pub fn finish(&mut self)
        ensures
            *final(self) == (FlushSchedulerImpl { in_flight: None, scheduled: old(self).scheduled }),
    {
        self.in_flight = None;
    }
}

} // verus!
