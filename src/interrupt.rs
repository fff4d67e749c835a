//! The static interrupt routing table, and the kernel's record of which
//! interrupt sources are enabled.
use vstd::prelude::*;
use crate::descriptor::{InterruptDescriptor, UNOWNED};

verus! {

/// Routes a contiguous range of interrupt numbers, starting at `min`, to
/// their owning tasks, and records which of them are enabled.
pub struct InterruptTable {
    min: usize,
    descriptors: Vec<InterruptDescriptor>,
    enabled: Vec<bool>,
}

impl InterruptTable {
    pub closed spec fn spec_min(&self) -> nat {
        self.min as nat
    }

    pub closed spec fn spec_descriptors(&self) -> Seq<InterruptDescriptor> {
        self.descriptors@
    }

    pub closed spec fn spec_enabled(&self) -> Seq<bool> {
        self.enabled@
    }

    pub closed spec fn wf(&self) -> bool {
        &&& self.enabled@.len() == self.descriptors@.len()
        &&& self.min + self.descriptors@.len() <= usize::MAX
    }

    /// The descriptor routing `interrupt`, when it lies in the table and has
    /// an owner.
    pub open spec fn spec_lookup(&self, interrupt: int) -> Option<InterruptDescriptor> {
        let i = interrupt - self.spec_min();
        if 0 <= i < self.spec_descriptors().len() && self.spec_descriptors()[i].spec_task_id()
            != UNOWNED {
            Some(self.spec_descriptors()[i])
        } else {
            None
        }
    }

    /// Whether `interrupt` is enabled; numbers outside the table never are.
    pub open spec fn spec_is_enabled(&self, interrupt: int) -> bool {
        let i = interrupt - self.spec_min();
        0 <= i < self.spec_enabled().len() && self.spec_enabled()[i]
    }

    /// A table for interrupts `min ..= min + descriptors.len() - 1`, all
    /// disabled. `None` when that range does not fit in a `usize`.
    pub fn new(min: usize, descriptors: Vec<InterruptDescriptor>) -> (r: Option<InterruptTable>)
        ensures
            match r {
                Some(t) => {
                    &&& t.wf()
                    &&& min + descriptors@.len() <= usize::MAX
                    &&& t.spec_min() == min
                    &&& t.spec_descriptors() == descriptors@
                    &&& forall|i: int| 0 <= i < descriptors@.len() ==> !t.spec_enabled()[i]
                },
                None => min + descriptors@.len() > usize::MAX,
            },
    {
        if descriptors.len() > usize::MAX - min {
            return None;
        }
        let mut enabled: Vec<bool> = Vec::new();
        let mut i: usize = 0;
        while i < descriptors.len()
            invariant
                i <= descriptors@.len(),
                enabled@.len() == i,
                forall|k: int| 0 <= k < i ==> !enabled@[k],
            decreases descriptors@.len() - i,
        {
            enabled.push(false);
            i = i + 1;
        }
        Some(InterruptTable { min, descriptors, enabled })
    }

    /// First interrupt number of the table.
    pub fn min(&self) -> (r: usize)
        ensures
            r == self.spec_min(),
    {
        self.min
    }

    /// Number of interrupts the table covers.
    pub fn count(&self) -> (r: usize)
        ensures
            r == self.spec_descriptors().len(),
    {
        self.descriptors.len()
    }

    /// The descriptor of an owned interrupt; `None` for a number outside the
    /// table or an unowned one.
    pub fn get_interrupt_descriptor(&self, interrupt: usize) -> (r: Option<InterruptDescriptor>)
        requires
            self.wf(),
        ensures
            r == self.spec_lookup(interrupt as int),
    {
        if interrupt < self.min {
            return None;
        }
        let table_idx = interrupt - self.min;
        if table_idx >= self.descriptors.len() {
            return None;
        }
        let descriptor = self.descriptors[table_idx];
        if descriptor.task_id() == UNOWNED {
            return None;
        }
        Some(descriptor)
    }

    /// Whether an interrupt source is enabled.
    pub fn is_enabled(&self, interrupt: usize) -> (r: bool)
        requires
            self.wf(),
        ensures
            r == self.spec_is_enabled(interrupt as int),
    {
        if interrupt < self.min {
            return false;
        }
        let table_idx = interrupt - self.min;
        if table_idx >= self.enabled.len() {
            return false;
        }
        self.enabled[table_idx]
    }

    /// Enables or disables an interrupt source of the table.
    pub fn set_enabled(&mut self, interrupt: usize, enabled: bool)
        requires
            old(self).wf(),
            old(self).spec_min() <= interrupt < old(self).spec_min() + old(self).spec_descriptors().len(),
        ensures
            final(self).wf(),
            final(self).spec_min() == old(self).spec_min(),
            final(self).spec_descriptors() == old(self).spec_descriptors(),
            final(self).spec_enabled() == old(self).spec_enabled().update(
                interrupt - old(self).spec_min(),
                enabled,
            ),
    {
        let table_idx = interrupt - self.min;
        self.enabled.set(table_idx, enabled);
    }

    /// Disables every interrupt that `task` owns; the others keep their state.
    pub fn reset_owned_by(&mut self, task: u8)
        requires
            old(self).wf(),
            task != UNOWNED,
        ensures
            final(self).wf(),
            final(self).spec_min() == old(self).spec_min(),
            final(self).spec_descriptors() == old(self).spec_descriptors(),
            final(self).spec_enabled().len() == old(self).spec_enabled().len(),
            forall|i: int|
                0 <= i < old(self).spec_enabled().len() ==> #[trigger] final(self).spec_enabled()[i] == (
                if old(self).spec_descriptors()[i].spec_task_id() == task {
                    false
                } else {
                    old(self).spec_enabled()[i]
                }),
    {
        let mut iter = interrupt_descriptor_iter();
        let mut done = false;
        while !done
            invariant
                task != UNOWNED,
                self.wf(),
                self.spec_min() == old(self).spec_min(),
                self.spec_descriptors() == old(self).spec_descriptors(),
                self.spec_enabled().len() == old(self).spec_enabled().len(),
                iter.0 <= self.spec_descriptors().len(),
                forall|i: int|
                    0 <= i < self.spec_enabled().len() ==> #[trigger] self.spec_enabled()[i] == (
                    if i < iter.0 && old(self).spec_descriptors()[i].spec_task_id() == task {
                        false
                    } else {
                        old(self).spec_enabled()[i]
                    }),
                done ==> iter.0 == self.spec_descriptors().len(),
            decreases self.spec_descriptors().len() - iter.0 + (if done { 0int } else { 1 }),
        {
            let ghost before = self.spec_enabled();
            let ghost start = iter.0;
            let next = iter.next(self);
            match next {
                Some((interrupt, descriptor)) => {
                    if descriptor.task_id() == task {
                        self.set_enabled(interrupt, false);
                    }
                    proof {
                        let p = iter.0 - 1;
                        assert forall|i: int| 0 <= i < self.spec_enabled().len() implies #[trigger] self.spec_enabled()[i]
                            == (if i < iter.0 && old(self).spec_descriptors()[i].spec_task_id() == task {
                            false
                        } else {
                            old(self).spec_enabled()[i]
                        }) by {
                            if start <= i < p {
                                assert(self.spec_descriptors()[i].spec_task_id() == UNOWNED);
                            }
                            assert(before[i] == (if i < start && old(self).spec_descriptors()[i].spec_task_id() == task {
                                false
                            } else {
                                old(self).spec_enabled()[i]
                            }));
                            if i != p {
                                assert(self.spec_enabled()[i] == before[i]);
                            }
                        }
                    }
                },
                None => {
                    done = true;
                    proof {
                        assert forall|i: int| 0 <= i < self.spec_enabled().len() implies #[trigger] self.spec_enabled()[i]
                            == (if i < iter.0 && old(self).spec_descriptors()[i].spec_task_id() == task {
                            false
                        } else {
                            old(self).spec_enabled()[i]
                        }) by {
                            if start <= i < iter.0 {
                                assert(self.spec_descriptors()[i].spec_task_id() == UNOWNED);
                            }
                            assert(before[i] == (if i < start && old(self).spec_descriptors()[i].spec_task_id() == task {
                                false
                            } else {
                                old(self).spec_enabled()[i]
                            }));
                        }
                    }
                },
            }
        }
    }
}

/// A cursor over the owned interrupts of a table, in ascending order.
pub struct InterruptDescriptorIterator(pub usize);

/// A cursor at the start of the table.
pub fn interrupt_descriptor_iter() -> (r: InterruptDescriptorIterator)
    ensures
        r.0 == 0,
{
    InterruptDescriptorIterator(0)
}

impl InterruptDescriptorIterator {
    /// The next owned interrupt and its descriptor, skipping unowned slots;
    /// `None` once the table is exhausted.
    pub fn next(&mut self, table: &InterruptTable) -> (r: Option<(usize, InterruptDescriptor)>)
        requires
            table.wf(),
            old(self).0 <= table.spec_descriptors().len(),
        ensures
            old(self).0 <= final(self).0 <= table.spec_descriptors().len(),
            forall|k: int|
                old(self).0 <= k < final(self).0 - (if r is Some { 1int } else { 0 }) ==> #[trigger] table.spec_descriptors()[k].spec_task_id() == UNOWNED,
            match r {
                Some((interrupt, descriptor)) => {
                    &&& final(self).0 >= 1
                    &&& interrupt == table.spec_min() + final(self).0 - 1
                    &&& descriptor == table.spec_descriptors()[final(self).0 - 1]
                    &&& descriptor.spec_task_id() != UNOWNED
                },
                None => final(self).0 == table.spec_descriptors().len(),
            },
            r is Some ==> final(self).0 > old(self).0,
    {
        let count = table.count();
        let min = table.min();
        while self.0 < count
            invariant
                table.wf(),
                count == table.spec_descriptors().len(),
                min == table.spec_min(),
                old(self).0 <= self.0 <= count,
                forall|k: int| old(self).0 <= k < self.0 ==> #[trigger] table.spec_descriptors()[k].spec_task_id() == UNOWNED,
            decreases count - self.0,
        {
            let interrupt_num = self.0 + min;
            let descriptor = table.descriptors[self.0];
            self.0 = self.0 + 1;
            if descriptor.task_id() != UNOWNED {
                return Some((interrupt_num, descriptor));
            }
        }
        None
    }
}

} // verus!
