//! Query processor: a fixed pool of 32 slots, one separate process per user
//! query, scanned cyclically for free slots.

use vstd::prelude::*;

use crate::f3::controller::F3Core;
use crate::f3::cpu::CpuFlow;
use crate::f3::mem::MemFlow;
use crate::f3::ram::RamFlow;
use crate::gui::query_process::ProcessState;
use crate::gui::query_process::QueryProcess;
use crate::gui::query_process::QueryProcessView;
use crate::gui::query_process::spec_process_step;

verus! {

/// The abstract value of the processor: the 32 slots, the query counter and
/// the next slot to try.
#[verifier::ext_equal]
pub struct QueryProcessorView {
    pub slots: Seq<Option<QueryProcessView>>,
    pub query_counter: u64,
    pub next_index: int,
}

/// The offset (from `start`, cyclically) of the first free slot at or after
/// offset `k`; 32 when every remaining offset is occupied.
pub open spec fn spec_free_offset(
    slots: Seq<Option<QueryProcessView>>,
    start: int,
    k: int,
) -> int
    decreases 32 - k,
{
    if k < 0 || k >= 32 {
        32
    } else if slots[(start + k) % 32] is None {
        k
    } else {
        spec_free_offset(slots, start, k + 1)
    }
}

/// The first slot index at or after `k` holding a process with the given
/// query identifier; 32 when there is none.
pub open spec fn spec_find_index(
    slots: Seq<Option<QueryProcessView>>,
    query_id: u64,
    k: int,
) -> int
    decreases 32 - k,
{
    if k < 0 || k >= 32 {
        32
    } else if slots[k] matches Some(p) && p.query_id == query_id {
        k
    } else {
        spec_find_index(slots, query_id, k + 1)
    }
}

/// The slots and the F3 context after running one `process` step on every
/// occupied slot among the first `i`, in slot order.
pub open spec fn spec_process_prefix(
    slots: Seq<Option<QueryProcessView>>,
    core: F3Core,
    i: int,
) -> (Seq<Option<QueryProcessView>>, F3Core)
    decreases i,
{
    if i <= 0 {
        (slots, core)
    } else {
        let prev = spec_process_prefix(slots, core, i - 1);
        match prev.0[i - 1] {
            Some(p) => {
                let stepped = spec_process_step(p, prev.1);
                (prev.0.update(i - 1, Some(stepped.0)), stepped.1)
            },
            None => prev,
        }
    }
}

/// The query identifiers of the occupied slots among the first `i`, in slot
/// order.
pub open spec fn spec_active_ids(slots: Seq<Option<QueryProcessView>>, i: int) -> Seq<u64>
    decreases i,
{
    if i <= 0 {
        Seq::empty()
    } else {
        let prev = spec_active_ids(slots, i - 1);
        match slots[i - 1] {
            Some(p) => prev.push(p.query_id),
            None => prev,
        }
    }
}

/// What cleanup leaves of one slot: completed or failed processes are
/// removed, everything else stays.
pub open spec fn spec_cleanup_slot(s: Option<QueryProcessView>) -> Option<QueryProcessView> {
    match s {
        Some(p) => if p.state == ProcessState::Completed || p.state == ProcessState::Error {
            None
        } else {
            Some(p)
        },
        None => None,
    }
}

/// The pool of query processes.
pub struct QueryProcessor {
    query_processes: Vec<Option<QueryProcess>>,
    query_counter: u64,
    next_index: usize,
}

impl View for QueryProcessor {
    type V = QueryProcessorView;

    closed spec fn view(&self) -> QueryProcessorView {
        QueryProcessorView {
            slots: Seq::new(
                self.query_processes@.len(),
                |i: int|
                    match self.query_processes@[i] {
                        Some(p) => Some(p@),
                        None => None,
                    },
            ),
            query_counter: self.query_counter,
            next_index: self.next_index as int,
        }
    }
}

impl QueryProcessor {
    /// The pool is well formed: exactly 32 slots and the cyclic cursor inside
    /// them.
    pub open spec fn wf(self) -> bool {
        self@.slots.len() == 32 && 0 <= self@.next_index < 32
    }

    /// A fresh pool: 32 empty slots, counter at zero, cursor at the first
    /// slot.
    pub fn new() -> (r: QueryProcessor)
        ensures
            r.wf(),
            r@.query_counter == 0,
            r@.next_index == 0,
            forall|i: int| 0 <= i < 32 ==> r@.slots[i] is None,
    {
        let mut processes: Vec<Option<QueryProcess>> = Vec::new();
        let mut i: usize = 0;
        while i < 32
            invariant
                i <= 32,
                processes@.len() == i,
                forall|j: int| 0 <= j < i ==> processes@[j] is None,
            decreases 32 - i,
        {
            processes.push(None);
            i += 1;
        }
        QueryProcessor { query_processes: processes, query_counter: 0, next_index: 0 }
    }

    /// Creates a separate process for the query in the first free slot,
    /// scanning cyclically from the cursor, and returns its fresh identifier;
    /// `None` exactly when all 32 slots are occupied, in which case nothing
    /// changes.
    pub fn create_query_process(&mut self, query: String, core: &F3Core) -> (r: Option<u64>)
        requires
            old(self).wf(),
            old(self)@.query_counter < u64::MAX,
        ensures
            final(self).wf(),
            ({
                let k = spec_free_offset(old(self)@.slots, old(self)@.next_index, 0);
                let idx = (old(self)@.next_index + k) % 32;
                let id = (old(self)@.query_counter + 1) as u64;
                let fresh = QueryProcessView {
                    query_id: id,
                    query: query@,
                    state: ProcessState::Created,
                    ai_driver_active: false,
                    cpu_flow: core.cpu,
                    ram_flow: core.ram,
                    mem_flow: core.mem,
                    result: None,
                };
                if k < 32 {
                    r == Some(id) && final(self)@.query_counter == id
                        && final(self)@.next_index == (idx + 1) % 32
                        && final(self)@.slots == old(self)@.slots.update(idx, Some(fresh))
                } else {
                    r is None && final(self)@ == old(self)@
                }
            }),
    {
        let ghost s0 = self@;
        let mut i: usize = 0;
        while i < 32
            invariant
                i <= 32,
                *self == *old(self),
                self.wf(),
                self@ == s0,
                old(self)@.query_counter < u64::MAX,
                spec_free_offset(s0.slots, s0.next_index, 0) == spec_free_offset(
                    s0.slots,
                    s0.next_index,
                    i as int,
                ),
            decreases 32 - i,
        {
            let idx = (self.next_index + i) % 32;
            if self.query_processes[idx].is_none() {
                proof {
                    assert(s0.slots[idx as int] is None);
                    assert(spec_free_offset(s0.slots, s0.next_index, i as int) == i);
                }
                self.query_counter = self.query_counter + 1;
                let query_id = self.query_counter;
                let process = QueryProcess::new(query_id, query, core);
                let ghost pv = process@;
                self.query_processes[idx] = Some(process);
                self.next_index = (idx + 1) % 32;
                proof {
                    assert(self@.slots =~= s0.slots.update(idx as int, Some(pv)));
                }
                return Some(query_id);
            }
            proof {
                assert(s0.slots[idx as int] is Some);
            }
            i += 1;
        }
        None
    }

    /// A mutable borrow of the process with the given identifier: the first
    /// match in slot order, or `None` when no occupied slot matches, in which
    /// case nothing changes. When a borrow is handed out, it is exactly the
    /// first matching slot, and the pool afterwards holds whatever the caller
    /// leaves in the borrow.
    pub fn get_process(&mut self, query_id: u64) -> (r: Option<&mut QueryProcess>)
        requires
            old(self).wf(),
        ensures
            final(self).wf(),
            final(self)@.query_counter == old(self)@.query_counter,
            final(self)@.next_index == old(self)@.next_index,
            spec_find_index(old(self)@.slots, query_id, 0) == 32 ==> r.is_none() && final(self)@
                == old(self)@,
            ({
                let k = spec_find_index(old(self)@.slots, query_id, 0);
                r matches Some(p) ==> k < 32 && old(self)@.slots[k] == Some((*p)@)
                    && (*p)@.query_id == query_id
                    && final(self)@.slots =~= old(self)@.slots.update(k, Some(final(p)@))
            }),
    {
        let ghost s0 = self@;
        let mut found: usize = 32;
        let mut i: usize = 0;
        while i < 32
            invariant
                i <= 32,
                *self == *old(self),
                self.wf(),
                self@ == s0,
                found == 32 ==> spec_find_index(s0.slots, query_id, 0) == spec_find_index(
                    s0.slots,
                    query_id,
                    i as int,
                ),
                found < 32 ==> found == spec_find_index(s0.slots, query_id, 0) && (
                s0.slots[found as int] matches Some(p) && p.query_id == query_id),
            decreases 32 - i,
        {
            if found == 32 {
                let hit = match &self.query_processes[i] {
                    Some(p) => p.query_id() == query_id,
                    None => false,
                };
                if hit {
                    found = i;
                }
            }
            i += 1;
        }
        if found < 32 {
            proof {
                assert(s0.slots[found as int] is Some);
            }
            self.query_processes[found].as_mut()
        } else {
            proof {
                assert(spec_find_index(s0.slots, query_id, 32) == 32);
            }
            None
        }
    }

    /// Runs one `process` step on every occupied slot, in slot order, each
    /// step feeding the same F3 context.
    pub fn process_all(&mut self, core: &mut F3Core)
        requires
            old(self).wf(),
        ensures
            final(self).wf(),
            final(self)@.query_counter == old(self)@.query_counter,
            final(self)@.next_index == old(self)@.next_index,
            final(self)@.slots == spec_process_prefix(old(self)@.slots, *old(core), 32).0,
            *final(core) == spec_process_prefix(old(self)@.slots, *old(core), 32).1,
    {
        let ghost s0 = self@.slots;
        let ghost c0 = *core;
        let mut i: usize = 0;
        while i < 32
            invariant
                i <= 32,
                self.wf(),
                self@.query_counter == old(self)@.query_counter,
                self@.next_index == old(self)@.next_index,
                s0 == old(self)@.slots,
                c0 == *old(core),
                self@.slots == spec_process_prefix(s0, c0, i as int).0,
                *core == spec_process_prefix(s0, c0, i as int).1,
            decreases 32 - i,
        {
            let ghost pre_slots = self@.slots;
            let ghost pre_core = *core;
            match &mut self.query_processes[i] {
                Some(p) => {
                    p.process(core);
                },
                None => {},
            }
            proof {
                if pre_slots[i as int] is Some {
                    assert(self@.slots =~= pre_slots.update(
                        i as int,
                        Some(spec_process_step(pre_slots[i as int]->Some_0, pre_core).0),
                    ));
                } else {
                    assert(self@.slots =~= pre_slots);
                }
            }
            i += 1;
        }
    }

    /// Gathers the flow snapshots of every occupied slot. The funnel
    /// integration that would consume them is out of scope, so the gathered
    /// collection is dropped and the pool is left exactly as it was.
    pub fn synthesize_results(&mut self)
        requires
            old(self).wf(),
        ensures
            *final(self) == *old(self),
    {
        let mut all_flows: Vec<(CpuFlow, RamFlow, MemFlow)> = Vec::new();
        let mut i: usize = 0;
        while i < 32
            invariant
                i <= 32,
                *self == *old(self),
                self.wf(),
            decreases 32 - i,
        {
            match &self.query_processes[i] {
                Some(p) => {
                    all_flows.push(p.get_flows());
                },
                None => {},
            }
            i += 1;
        }
    }

    /// The query identifiers of the occupied slots, in slot order.
    pub fn get_active_queries(&self) -> (r: Vec<u64>)
        requires
            self.wf(),
        ensures
            r@ == spec_active_ids(self@.slots, 32),
    {
        let mut ids: Vec<u64> = Vec::new();
        let mut i: usize = 0;
        while i < 32
            invariant
                i <= 32,
                self.wf(),
                ids@ == spec_active_ids(self@.slots, i as int),
            decreases 32 - i,
        {
            match &self.query_processes[i] {
                Some(p) => {
                    ids.push(p.query_id());
                },
                None => {},
            }
            i += 1;
        }
        ids
    }

    /// Removes every process that has reached a final state; the counter and
    /// the cursor are untouched.
    pub fn cleanup_completed(&mut self)
        requires
            old(self).wf(),
        ensures
            final(self).wf(),
            final(self)@.query_counter == old(self)@.query_counter,
            final(self)@.next_index == old(self)@.next_index,
            final(self)@.slots == old(self)@.slots.map_values(|s| spec_cleanup_slot(s)),
    {
        let ghost s0 = self@.slots;
        let mut i: usize = 0;
        while i < 32
            invariant
                i <= 32,
                self.wf(),
                self@.query_counter == old(self)@.query_counter,
                self@.next_index == old(self)@.next_index,
                s0 == old(self)@.slots,
                forall|j: int| 0 <= j < i ==> self@.slots[j] == spec_cleanup_slot(#[trigger] s0[j]),
                forall|j: int| i <= j < 32 ==> self@.slots[j] == s0[j],
            decreases 32 - i,
        {
            let done = match &self.query_processes[i] {
                Some(p) => p.is_completed(),
                None => false,
            };
            if done {
                self.query_processes[i] = None;
            }
            i += 1;
        }
        proof {
            assert(self@.slots =~= old(self)@.slots.map_values(|s| spec_cleanup_slot(s)));
        }
    }
}

} // verus!
