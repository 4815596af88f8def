//! The ping-pong resource pair: two equally sized, fixed-capacity buffers
//! holding the current and the target record set of an animated transition.
//! Capacity is a materialized upper bound chosen once, at allocation, for the
//! largest record set any phase will need; the contents are replaced wholesale
//! at phase transitions and never resized.

use vstd::prelude::*;

use crate::CapacityError;
use crate::ConfigError;

verus! {

/// Two interchangeable buffers of at most `capacity` records each, with the
/// records currently staged for the device. `T` is the record type; each
/// record occupies `record_size` bytes once realized on the device.
pub struct ResourcePair<T> {
    capacity: usize,
    record_size: usize,
    current: Vec<T>,
    target: Vec<T>,
    populated: bool,
}

impl<T> ResourcePair<T> {
    /// Records each buffer can hold.
    pub closed spec fn spec_capacity(self) -> usize {
        self.capacity
    }

    /// Bytes one record occupies on the device.
    pub closed spec fn spec_record_size(self) -> usize {
        self.record_size
    }

    /// The records staged in the `current` buffer.
    pub closed spec fn current_records(self) -> Seq<T> {
        self.current@
    }

    /// The records staged in the `target` buffer.
    pub closed spec fn target_records(self) -> Seq<T> {
        self.target@
    }

    /// Both buffers have been fully written at least once; a draw referencing
    /// the pair may only be issued afterwards.
    pub closed spec fn spec_populated(self) -> bool {
        self.populated
    }

    /// Well-formedness: the capacity is positive, the realized allocation
    /// fits in addressable bytes, and neither record set exceeds it.
    pub open spec fn wf(self) -> bool {
        &&& self.spec_capacity() >= 1
        &&& self.spec_record_size() >= 1
        &&& self.spec_capacity() * self.spec_record_size() <= usize::MAX
        &&& self.current_records().len() <= self.spec_capacity()
        &&& self.target_records().len() <= self.spec_capacity()
    }

    /// Allocates an empty pair sized for the largest record set any phase of
    /// the animation will stage. Zero sizes and allocations beyond the
    /// addressable range are configuration errors; nothing is allocated.
    pub fn allocate(max_record_count: usize, record_byte_size: usize) -> (r: Result<
        ResourcePair<T>,
        ConfigError,
    >)
        ensures
            match r {
                Ok(p) => {
                    &&& max_record_count >= 1
                    &&& record_byte_size >= 1
                    &&& max_record_count * record_byte_size <= usize::MAX
                    &&& p.wf()
                    &&& p.spec_capacity() == max_record_count
                    &&& p.spec_record_size() == record_byte_size
                    &&& p.current_records().len() == 0
                    &&& p.target_records().len() == 0
                    &&& !p.spec_populated()
                },
                Err(e) => {
                    ||| (max_record_count == 0 && e == ConfigError::ZeroCapacity)
                    ||| (record_byte_size == 0 && e == ConfigError::ZeroRecordSize)
                    ||| (max_record_count * record_byte_size > usize::MAX && e
                        == ConfigError::CapacityTooLarge)
                },
            },
    {
        if max_record_count == 0 {
            return Err(ConfigError::ZeroCapacity);
        }
        if record_byte_size == 0 {
            return Err(ConfigError::ZeroRecordSize);
        }
        if max_record_count.checked_mul(record_byte_size).is_none() {
            return Err(ConfigError::CapacityTooLarge);
        }
        Ok(
            ResourcePair {
                capacity: max_record_count,
                record_size: record_byte_size,
                current: Vec::new(),
                target: Vec::new(),
                populated: false,
            },
        )
    }

    /// Replaces the contents of both buffers from offset 0. Succeeds if and
    /// only if both record sets fit the fixed capacity; an oversized set
    /// leaves the pair exactly as it was — a write is either complete or not
    /// attempted.
    pub fn populate(&mut self, current_records: Vec<T>, target_records: Vec<T>) -> (r: Result<
        (),
        CapacityError,
    >)
        requires
            old(self).wf(),
        ensures
            final(self).wf(),
            final(self).spec_capacity() == old(self).spec_capacity(),
            final(self).spec_record_size() == old(self).spec_record_size(),
            match r {
                Ok(()) => {
                    &&& current_records@.len() <= old(self).spec_capacity()
                    &&& target_records@.len() <= old(self).spec_capacity()
                    &&& final(self).current_records() == current_records@
                    &&& final(self).target_records() == target_records@
                    &&& final(self).spec_populated()
                },
                Err(e) => {
                    &&& (current_records@.len() > old(self).spec_capacity()
                        || target_records@.len() > old(self).spec_capacity())
                    &&& *final(self) == *old(self)
                    &&& e.capacity == old(self).spec_capacity()
                    &&& e.requested == if current_records@.len() > old(self).spec_capacity() {
                        current_records@.len()
                    } else {
                        target_records@.len()
                    }
                },
            },
    {
        if current_records.len() > self.capacity {
            return Err(CapacityError { capacity: self.capacity, requested: current_records.len() });
        }
        if target_records.len() > self.capacity {
            return Err(CapacityError { capacity: self.capacity, requested: target_records.len() });
        }
        self.current = current_records;
        self.target = target_records;
        self.populated = true;
        Ok(())
    }

    /// Records each buffer can hold.
    pub fn capacity(&self) -> (r: usize)
        ensures
            r == self.spec_capacity(),
    {
        self.capacity
    }

    /// Bytes one record occupies on the device.
    pub fn record_size(&self) -> (r: usize)
        ensures
            r == self.spec_record_size(),
    {
        self.record_size
    }

    /// Bytes each device buffer of the pair occupies.
    pub fn byte_capacity(&self) -> (r: usize)
        requires
            self.wf(),
        ensures
            r == self.spec_capacity() * self.spec_record_size(),
    {
        self.capacity * self.record_size
    }

    /// Records staged in the `current` buffer.
    pub fn current_count(&self) -> (r: usize)
        ensures
            r == self.current_records().len(),
    {
        self.current.len()
    }

    /// Records staged in the `target` buffer. A draw must re-read this every
    /// frame: it changes at phase transitions.
    pub fn target_count(&self) -> (r: usize)
        ensures
            r == self.target_records().len(),
    {
        self.target.len()
    }

    /// Whether both buffers have been fully written at least once.
    pub fn is_populated(&self) -> (r: bool)
        ensures
            r == self.spec_populated(),
    {
        self.populated
    }
}

} // verus!
