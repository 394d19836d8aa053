//! Running the calls of one transaction, one after the other.
//!
//! A transaction comes down to a list of calls to make. The run makes them
//! in turn on a state of its own: it tells its driver to run the virtual
//! machine, is told of every system call and of the end of every run, and
//! keeps the record of each call that has ended.
use crate::definitions::block_context::BlockContext;
use crate::error::TransactionError;
use crate::execution::call_stack::{
    began, finished, Begin, CallStack, Finished, VmOutcome, VmRun,
};
use crate::execution::{
    calls_view, CallInfo, ExecutionResources, CallInfoView, ExecutionEntryPoint, ExecutionEntryPointView,
    TransactionExecutionContext, TransactionExecutionContextView,
};
use crate::state::cached_state::CachedState;
use crate::state::execution_resources_manager::ExecutionResourcesManager;
use crate::state::state_api::StateReader;
use crate::syscalls::business_logic_syscall_handler::{syscalled, SyscallOutcome};
use crate::syscalls::syscall_request::{SyscallKind, SyscallRequest, SyscallResponse};
use crate::transaction::invoke_function::{stays_in_contract, verify_no_calls_to_other_contracts};
use vstd::prelude::*;

verus! {

/// A call that a transaction is going to make.
#[derive(Debug, PartialEq, Eq)]
pub struct PlannedCall {
    pub entry_point: ExecutionEntryPoint,
    /// The steps that the run of the call may take.
    pub n_steps: u64,
    /// Whether the call, as a validation, must not leave its contract.
    pub must_stay_in_contract: bool,
}

/// What a [`PlannedCall`] holds.
pub struct PlannedCallView {
    pub entry_point: ExecutionEntryPointView,
    pub n_steps: nat,
    pub must_stay_in_contract: bool,
}

impl View for PlannedCall {
    type V = PlannedCallView;

    open spec fn view(&self) -> PlannedCallView {
        PlannedCallView {
            entry_point: self.entry_point@,
            n_steps: self.n_steps as nat,
            must_stay_in_contract: self.must_stay_in_contract,
        }
    }
}

/// The calls that a list holds.
pub open spec fn plan_view(s: Seq<PlannedCall>) -> Seq<PlannedCallView> {
    s.map_values(|p: PlannedCall| p@)
}

/// What the driver of a run is to do next.
#[derive(Debug, PartialEq, Eq)]
pub enum RunStep {
    /// Run the virtual machine on this.
    Run(VmRun),
    /// Let the code that made the last system call go on with this answer.
    Resume(SyscallResponse),
    /// Ask again: a call has ended and the next one is due.
    Again,
    /// Nothing: every call of the transaction has ended.
    Done,
}

/// The calls of a transaction that are yet to be made, the stack of those
/// that are running, and the records of those that have ended.
#[derive(Debug)]
pub struct TransactionRun<'a, T: StateReader> {
    pub stack: CallStack<'a, T>,
    /// The calls that are yet to be made, the next one first.
    pub planned: Vec<PlannedCall>,
    /// The records of the calls that have ended, in the order of the plan.
    pub records: Vec<CallInfo>,
    /// Whether the call that is running from the plan must not leave its
    /// contract.
    pub constrained: bool,
}

/// What becomes of the record of a call of the plan that has ended: it
/// joins the records, unless the call had to stay in its contract and did
/// not.
pub open spec fn recorded<'a, T: StateReader>(
    pre: &TransactionRun<'a, T>,
    post: &TransactionRun<'a, T>,
    constrained: bool,
    record: CallInfoView,
    r: Result<RunStep, TransactionError>,
) -> bool {
    if constrained && !stays_in_contract(record) {
        r == Err::<RunStep, TransactionError>(TransactionError::UnauthorizedActionOnValidate)
    } else {
        &&& r == Ok::<RunStep, TransactionError>(RunStep::Again)
        &&& calls_view(post.records@) == calls_view(pre.records@).push(record)
    }
}

/// What [`TransactionRun::next`] does.
pub open spec fn advanced<'a, T: StateReader>(
    pre: &TransactionRun<'a, T>,
    post: &TransactionRun<'a, T>,
    r: Result<RunStep, TransactionError>,
) -> bool {
    if pre.stack.frames@.len() > 0 {
        &&& r == Err::<RunStep, TransactionError>(TransactionError::CallStillRunning)
        &&& post.stack == pre.stack
        &&& post.planned == pre.planned
        &&& post.records == pre.records
        &&& post.constrained == pre.constrained
    } else if pre.planned@.len() == 0 {
        &&& r == Ok::<RunStep, TransactionError>(RunStep::Done)
        &&& post.stack == pre.stack
        &&& post.planned == pre.planned
        &&& post.records == pre.records
        &&& post.constrained == pre.constrained
    } else {
        let call = pre.planned@[0];
        &&& plan_view(post.planned@) == plan_view(pre.planned@).drop_first()
        &&& post.constrained == call.must_stay_in_contract
        &&& exists|mid: CallStack<'a, T>, begun: Result<Begin, TransactionError>|
            {
                &&& mid.state == pre.stack.state
                &&& mid.block_context == pre.stack.block_context
                &&& mid.resources_manager == pre.stack.resources_manager
                &&& mid.frames == pre.stack.frames
                &&& mid.tx_context@ == (TransactionExecutionContextView {
                    n_steps: call.n_steps as nat,
                    ..pre.stack.tx_context@
                })
                &&& #[trigger] began(&mid, &post.stack, call.entry_point, false, begun)
                &&& match begun {
                    Ok(Begin::Run(run)) => {
                        &&& r == Ok::<RunStep, TransactionError>(RunStep::Run(run))
                        &&& post.records == pre.records
                    },
                    Ok(Begin::Finished(record)) => recorded(pre, post, false, record@, r),
                    Err(e) => r == Err::<RunStep, TransactionError>(e),
                }
            }
    }
}

/// What [`TransactionRun::on_return`] does.
pub open spec fn returned<'a, T: StateReader>(
    pre: &TransactionRun<'a, T>,
    post: &TransactionRun<'a, T>,
    outcome: VmOutcome,
    r: Result<RunStep, TransactionError>,
) -> bool {
    &&& post.planned == pre.planned
    &&& post.constrained == pre.constrained
    &&& exists|ended: Result<Finished, TransactionError>|
        {
            &&& #[trigger] finished(&pre.stack, &post.stack, outcome, ended)
            &&& match ended {
                Ok(Finished::Resume(answer)) => {
                    &&& r == Ok::<RunStep, TransactionError>(RunStep::Resume(answer))
                    &&& post.records == pre.records
                },
                Ok(Finished::Done(record)) => recorded(pre, post, pre.constrained, record@, r),
                Err(e) => r == Err::<RunStep, TransactionError>(e),
            }
        }
}

/// What [`TransactionRun::on_syscall`] does.
pub open spec fn asked<'a, T: StateReader>(
    pre: &TransactionRun<'a, T>,
    post: &TransactionRun<'a, T>,
    request: SyscallRequest,
    gas: u128,
    r: Result<RunStep, TransactionError>,
) -> bool {
    &&& post.planned == pre.planned
    &&& post.records == pre.records
    &&& post.constrained == pre.constrained
    &&& exists|done: Result<SyscallOutcome, TransactionError>|
        {
            &&& #[trigger] syscalled(&pre.stack, &post.stack, request@, gas, done)
            &&& match done {
                Ok(SyscallOutcome::Respond(answer)) => r == Ok::<RunStep, TransactionError>(
                    RunStep::Resume(answer),
                ),
                Ok(SyscallOutcome::Call(run)) => r == Ok::<RunStep, TransactionError>(
                    RunStep::Run(run),
                ),
                Err(e) => r == Err::<RunStep, TransactionError>(e),
            }
        }
}

impl<'a, T: StateReader> TransactionRun<'a, T> {
    /// A run of the planned calls on a state.
    pub fn new(
        state: CachedState<'a, T>,
        block_context: BlockContext,
        tx_context: TransactionExecutionContext,
        planned: Vec<PlannedCall>,
    ) -> (r: TransactionRun<'a, T>)
        ensures
            r.stack.state == state,
            r.stack.block_context == block_context,
            r.stack.tx_context == tx_context,
            r.stack.resources_manager.syscall_counter@ == Map::<SyscallKind, nat>::empty(),
            r.stack.resources_manager.cairo_usage == ExecutionResources::zero(),
            r.stack.frames@.len() == 0,
            r.planned == planned,
            r.records@.len() == 0,
            !r.constrained,
    {
        TransactionRun {
            stack: CallStack::new(state, block_context, tx_context, ExecutionResourcesManager::new()),
            planned,
            records: Vec::new(),
            constrained: false,
        }
    }

    /// Whether every call of the plan has ended.
    pub fn is_done(&self) -> (r: bool)
        ensures
            r == (self.stack.frames@.len() == 0 && self.planned@.len() == 0),
    {
        self.stack.frames.len() == 0 && self.planned.len() == 0
    }

    fn record(&mut self, record: CallInfo, constrained: bool) -> (r: Result<
        RunStep,
        TransactionError,
    >)
        ensures
            final(self).stack == old(self).stack,
            final(self).planned == old(self).planned,
            final(self).constrained == old(self).constrained,
            recorded(old(self), final(self), constrained, record@, r),
    {
        if constrained {
            if verify_no_calls_to_other_contracts(&record).is_err() {
                return Err(TransactionError::UnauthorizedActionOnValidate);
            }
        }
        let ghost before = self.records@;
        self.records.push(record);
        assert(calls_view(self.records@) =~= calls_view(before).push(record@));
        Ok(RunStep::Again)
    }

    /// Starts the next call of the plan, if no call is running.
    pub fn next(&mut self) -> (r: Result<RunStep, TransactionError>)
        ensures
            advanced(old(self), final(self), r),
    {
        if self.stack.frames.len() > 0 {
            return Err(TransactionError::CallStillRunning);
        }
        if self.planned.len() == 0 {
            return Ok(RunStep::Done);
        }
        let ghost plan_before = self.planned@;
        let call = self.planned.remove(0);
        assert(plan_view(self.planned@) =~= plan_view(plan_before).drop_first());
        self.constrained = call.must_stay_in_contract;
        self.stack.tx_context.n_steps = call.n_steps;
        let ghost mid = self.stack;
        let begun = self.stack.begin(call.entry_point, false);
        proof {
            assert(began(&mid, &self.stack, call.entry_point, false, begun));
        }
        match begun {
            Ok(Begin::Run(run)) => Ok(RunStep::Run(run)),
            Ok(Begin::Finished(record)) => self.record(record, false),
            Err(e) => Err(e),
        }
    }

    /// Takes note of a system call of the running call.
    pub fn on_syscall(&mut self, request: SyscallRequest, gas: u128) -> (r: Result<
        RunStep,
        TransactionError,
    >)
        ensures
            asked(old(self), final(self), request, gas, r),
    {
        let done = self.stack.syscall(request, gas);
        proof {
            assert(syscalled(&old(self).stack, &self.stack, request@, gas, done));
        }
        match done {
            Ok(SyscallOutcome::Respond(answer)) => Ok(RunStep::Resume(answer)),
            Ok(SyscallOutcome::Call(run)) => Ok(RunStep::Run(run)),
            Err(e) => Err(e),
        }
    }

    /// Takes note of the end of the run of the running call.
    pub fn on_return(&mut self, outcome: VmOutcome) -> (r: Result<RunStep, TransactionError>)
        ensures
            returned(old(self), final(self), outcome, r),
    {
        let ended = self.stack.finish(outcome);
        proof {
            assert(finished(&old(self).stack, &self.stack, outcome, ended));
        }
        match ended {
            Ok(Finished::Resume(answer)) => Ok(RunStep::Resume(answer)),
            Ok(Finished::Done(record)) => {
                let constrained = self.constrained;
                self.record(record, constrained)
            },
            Err(e) => Err(e),
        }
    }

    /// Takes a run that has ended apart: the state that the calls worked
    /// on, their records and what they used. A run that has not ended is
    /// turned down.
    pub fn into_parts(self) -> (r: Result<
        (CachedState<'a, T>, Vec<CallInfo>, ExecutionResourcesManager),
        TransactionError,
    >)
        ensures
            match r {
                Ok((state, records, resources_manager)) => {
                    &&& self.stack.frames@.len() == 0
                    &&& self.planned@.len() == 0
                    &&& state == self.stack.state
                    &&& records == self.records
                    &&& resources_manager == self.stack.resources_manager
                },
                Err(e) => {
                    &&& e == TransactionError::CallStillRunning
                    &&& !(self.stack.frames@.len() == 0 && self.planned@.len() == 0)
                },
            },
    {
        if !self.is_done() {
            return Err(TransactionError::CallStillRunning);
        }
        Ok((self.stack.state, self.records, self.stack.resources_manager))
    }
}

} // verus!
