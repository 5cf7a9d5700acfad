use vstd::prelude::*;
use std::collections::HashSet;
use crate::bus::{Bus, peek_spec};
use crate::registers::wrap16;

verus! {

broadcast use vstd::std_specs::hash::group_hash_axioms;

/// Number of bytes a memory view shows.
pub const MEMORY_VIEW_SIZE: usize = 256;

/// Addresses at which a debugger stops.
pub struct Breakpoints {
    pub addresses: HashSet<u16>,
}

impl Breakpoints {
    pub open spec fn view(&self) -> Set<u16> {
        self.addresses@
    }

    pub fn new() -> (r: Self)
        ensures
            r.view() == Set::<u16>::empty(),
    {
        Breakpoints { addresses: HashSet::new() }
    }

    pub fn add_breakpoint(&mut self, addr: u16)
        ensures
            final(self).view() == old(self).view().insert(addr),
    {
        self.addresses.insert(addr);
    }

    pub fn remove_breakpoint(&mut self, addr: u16)
        ensures
            final(self).view() == old(self).view().remove(addr),
    {
        self.addresses.remove(&addr);
    }

    pub fn is_breakpoint(&self, addr: u16) -> (r: bool)
        ensures
            r == self.view().contains(addr),
    {
        self.addresses.contains(&addr)
    }
}

/// A 256-byte window of the address space, read without advancing the clock.
pub struct MemoryViewer {
    pub memory_viewer_addr: u16,
    pub memory_viewer_data: Vec<u8>,
}

/// The bytes from `start` on, wrapping at the end of the address space.
pub open spec fn memory_window(b: crate::bus::BusModel, start: u16) -> Seq<u8> {
    Seq::new(MEMORY_VIEW_SIZE as nat, |i: int| peek_spec(b, wrap16(start + i)))
}

impl MemoryViewer {
    pub fn new() -> (r: Self)
        ensures
            r.memory_viewer_addr == 0,
            r.memory_viewer_data@ == Seq::new(MEMORY_VIEW_SIZE as nat, |i: int| 0u8),
    {
        let data: Vec<u8> = vec![0u8; MEMORY_VIEW_SIZE];
        let r = MemoryViewer { memory_viewer_addr: 0, memory_viewer_data: data };
        assert(r.memory_viewer_data@ =~= Seq::new(MEMORY_VIEW_SIZE as nat, |i: int| 0u8));
        r
    }

    /// Moves the window to `addr` and reads it.
    pub fn jump_to(&mut self, addr: u16, bus: &Bus)
        requires
            bus.wf(),
        ensures
            final(self).memory_viewer_addr == addr,
            final(self).memory_viewer_data@ == memory_window(bus@, addr),
    {
        self.memory_viewer_addr = addr;
        self.refresh_memory_view(bus);
    }

    /// Re-reads the window at the current address.
    pub fn refresh_memory_view(&mut self, bus: &Bus)
        requires
            bus.wf(),
        ensures
            final(self).memory_viewer_addr == old(self).memory_viewer_addr,
            final(self).memory_viewer_data@ == memory_window(bus@, old(self).memory_viewer_addr),
    {
        let mut data: Vec<u8> = Vec::new();
        let mut i: usize = 0;
        while i < MEMORY_VIEW_SIZE
            invariant
                bus.wf(),
                i <= MEMORY_VIEW_SIZE,
                data@.len() == i,
                forall|j: int| 0 <= j < i ==> data@[j] == peek_spec(bus@, wrap16(self.memory_viewer_addr + j)),
            decreases MEMORY_VIEW_SIZE - i,
        {
            let addr = self.memory_viewer_addr.wrapping_add(i as u16);
            data.push(bus.peek(addr));
            i = i + 1;
        }
        assert(data@ =~= memory_window(bus@, self.memory_viewer_addr));
        self.memory_viewer_data = data;
    }
}

} // verus!
