//! Query process: one separate process per user query, stepping through a
//! small lifecycle and feeding the F3 trackers as it goes.

use vstd::prelude::*;
use vstd::string::*;

use crate::f3::controller::F3Core;
use crate::f3::cpu::CpuFlow;
use crate::f3::mem::MemFlow;
use crate::f3::mem::spec_synthesize;
use crate::f3::ram::RamFlow;

verus! {

/// The lifecycle of a query process.
#[derive(Debug, Clone, Copy, PartialEq, Eq, Structural)]
pub enum ProcessState {
    /// Created, waiting to be processed.
    Created,
    /// Being processed by the AI driver.
    Processing,
    /// Being synthesized in the F3 core.
    Synthesizing,
    /// Finished with a result ready.
    Completed,
    /// Finished with an error.
    Error,
}

/// The abstract value of a query process.
#[verifier::ext_equal]
pub struct QueryProcessView {
    pub query_id: u64,
    pub query: Seq<char>,
    pub state: ProcessState,
    pub ai_driver_active: bool,
    pub cpu_flow: CpuFlow,
    pub ram_flow: RamFlow,
    pub mem_flow: MemFlow,
    pub result: Option<Seq<char>>,
}

/// The result text a completed process carries.
pub open spec fn spec_result_text(query: Seq<char>) -> Seq<char> {
    "Respuesta sintetizada para: "@ + query
}

/// One `process` call: what it does to the process and to the F3 context,
/// depending on the current lifecycle state. Final states change nothing.
pub open spec fn spec_process_step(p: QueryProcessView, core: F3Core) -> (QueryProcessView, F3Core) {
    match p.state {
        ProcessState::Created => (
            QueryProcessView { state: ProcessState::Processing, ai_driver_active: true, ..p },
            F3Core {
                cpu: CpuFlow {
                    task_id: p.query_id,
                    cycles_used: 100,
                    last_latency: 10,
                    active: core.cpu.active,
                },
                ..core
            },
        ),
        ProcessState::Processing => (
            QueryProcessView {
                cpu_flow: core.cpu,
                ram_flow: core.ram,
                state: ProcessState::Synthesizing,
                ..p
            },
            core,
        ),
        ProcessState::Synthesizing => {
            let mem2 = spec_synthesize(
                core.mem,
                p.cpu_flow.cycles_used,
                p.ram_flow.pressure,
                p.cpu_flow.last_latency,
            );
            (
                QueryProcessView {
                    mem_flow: mem2,
                    result: Some(spec_result_text(p.query)),
                    state: ProcessState::Completed,
                    ai_driver_active: false,
                    ..p
                },
                F3Core { mem: mem2, ..core },
            )
        },
        _ => (p, core),
    }
}

/// A separate process for one user query.
pub struct QueryProcess {
    query_id: u64,
    query: String,
    state: ProcessState,
    ai_driver_active: bool,
    cpu_flow: CpuFlow,
    ram_flow: RamFlow,
    mem_flow: MemFlow,
    synthesized_result: Option<String>,
}

impl View for QueryProcess {
    type V = QueryProcessView;

    closed spec fn view(&self) -> QueryProcessView {
        QueryProcessView {
            query_id: self.query_id,
            query: self.query@,
            state: self.state,
            ai_driver_active: self.ai_driver_active,
            cpu_flow: self.cpu_flow,
            ram_flow: self.ram_flow,
            mem_flow: self.mem_flow,
            result: match self.synthesized_result {
                Some(ref s) => Some(s@),
                None => None,
            },
        }
    }
}

impl QueryProcess {
    /// A fresh process for the query: lifecycle at Created, the three flow
    /// snapshots taken from the current F3 context, no result yet.
    pub fn new(query_id: u64, query: String, core: &F3Core) -> (r: QueryProcess)
        ensures
            r@ == (QueryProcessView {
                query_id,
                query: query@,
                state: ProcessState::Created,
                ai_driver_active: false,
                cpu_flow: core.cpu,
                ram_flow: core.ram,
                mem_flow: core.mem,
                result: None,
            }),
    {
        QueryProcess {
            query_id,
            query,
            state: ProcessState::Created,
            ai_driver_active: false,
            cpu_flow: core.cpu.get_flow(),
            ram_flow: core.ram.get_flow(),
            mem_flow: core.mem.get_flow(),
            synthesized_result: None,
        }
    }

    /// Advances the process one lifecycle step, as `spec_process_step`
    /// describes: Created records estimated execution metrics, Processing
    /// snapshots the current samples, Synthesizing scores them and produces
    /// the result text; final states do nothing.
    pub fn process(&mut self, core: &mut F3Core)
        ensures
            final(self)@ == spec_process_step(old(self)@, *old(core)).0,
            *final(core) == spec_process_step(old(self)@, *old(core)).1,
    {
        match self.state {
            ProcessState::Created => {
                self.state = ProcessState::Processing;
                self.ai_driver_active = true;
                core.cpu.record_execution(self.query_id, 100, 10);
                proof {
                    assert(self@ =~= spec_process_step(old(self)@, *old(core)).0);
                }
            },
            ProcessState::Processing => {
                self.cpu_flow = core.cpu.get_flow();
                self.ram_flow = core.ram.get_flow();
                self.state = ProcessState::Synthesizing;
                proof {
                    assert(self@ =~= spec_process_step(old(self)@, *old(core)).0);
                }
            },
            ProcessState::Synthesizing => {
                let synthesized = core.mem.synthesize(
                    self.cpu_flow.cycles_used,
                    self.ram_flow.pressure,
                    self.cpu_flow.last_latency,
                );
                self.mem_flow = synthesized;
                let mut result_text = String::from_str("Respuesta sintetizada para: ");
                result_text.append(self.query.as_str());
                self.synthesized_result = Some(result_text);
                self.state = ProcessState::Completed;
                self.ai_driver_active = false;
                proof {
                    assert(self@ =~= spec_process_step(old(self)@, *old(core)).0);
                }
            },
            _ => {
                proof {
                    assert(self@ =~= spec_process_step(old(self)@, *old(core)).0);
                }
            },
        }
    }

    /// The identifier of the query.
    pub fn query_id(&self) -> (r: u64)
        ensures
            r == self@.query_id,
    {
        self.query_id
    }

    /// The original query text.
    pub fn query(&self) -> (r: &str)
        ensures
            r@ == self@.query,
    {
        self.query.as_str()
    }

    /// The current lifecycle state.
    pub fn state(&self) -> (r: ProcessState)
        ensures
            r == self@.state,
    {
        self.state
    }

    /// Whether the process has reached a final state.
    pub fn is_completed(&self) -> (r: bool)
        ensures
            r == (self@.state == ProcessState::Completed || self@.state == ProcessState::Error),
    {
        self.state == ProcessState::Completed || self.state == ProcessState::Error
    }

    /// The synthesized result, if the process has produced one.
    pub fn get_result(&self) -> (r: Option<&String>)
        ensures
            match r {
                Some(s) => self@.result == Some(s@),
                None => self@.result is None,
            },
    {
        self.synthesized_result.as_ref()
    }

    /// Copies of the three flow snapshots this process holds.
    pub fn get_flows(&self) -> (r: (CpuFlow, RamFlow, MemFlow))
        ensures
            r.0 == self@.cpu_flow,
            r.1 == self@.ram_flow,
            r.2 == self@.mem_flow,
    {
        (self.cpu_flow, self.ram_flow, self.mem_flow)
    }
}

} // verus!
