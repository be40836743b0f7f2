//! The circuit execution driver's control protocol, modeled as an
//! explicit state machine: the solver either resolves the whole opcode
//! list or pauses with residual opcodes and pending host calls; resuming
//! folds every host-call result into the call it came from, matched by
//! identity and never by completion order.

use vstd::prelude::*;

use crate::errors::OpcodeResolutionError;
use crate::field::FieldElement;

verus! {

/// A descriptor of one out-of-circuit computation the circuit needs: the
/// host-side function to invoke and its resolved arguments.
#[derive(Debug, Clone, PartialEq, Eq)]
pub struct ForeignCallWaitInfo {
    pub function: String,
    pub inputs: Vec<FieldElement>,
}

/// What the host handler answered: a single field element, or one call
/// producing an ordered list of them.
#[derive(Debug, Clone, PartialEq, Eq)]
pub enum ForeignCallResult {
    Single(FieldElement),
    Multiple(Vec<FieldElement>),
}

/// One deferred host-call block of the circuit. The driver never reads
/// the block's bytecode or its input and output mappings: an identifier
/// stands for them, and only the accumulated host-call results change
/// when the block is regenerated.
#[derive(Debug, Clone, PartialEq, Eq)]
pub struct Brillig {
    pub id: u64,
    pub foreign_call_results: Vec<ForeignCallResult>,
}

/// One instruction of the circuit, as far as the driver tells them
/// apart: only the deferred host-call blocks are ever inspected; every
/// other opcode passes through the driver untouched, an identifier
/// standing for its contents.
#[derive(Debug, Clone, PartialEq, Eq)]
pub enum Opcode {
    Arithmetic { id: u64 },
    BlackBoxFuncCall { id: u64 },
    Brillig(Brillig),
}

/// A host call the solver could not resolve: the block that produced it,
/// paired with the descriptor the handler must answer.
#[derive(Debug, Clone, PartialEq, Eq)]
pub struct UnresolvedBrilligCall {
    pub brillig: Brillig,
    pub foreign_call_wait_info: ForeignCallWaitInfo,
}

/// What the external solver reports for one pass over the opcode list.
#[derive(Debug, Clone, PartialEq, Eq)]
pub enum SolverStatus {
    /// Every opcode is resolved.
    Solved,
    /// Solving paused: the residual not-yet-solved opcodes, and the host
    /// calls that must be answered before solving can resume.
    RequiresOracleData {
        unsolved_opcodes: Vec<Opcode>,
        unresolved_brillig_calls: Vec<UnresolvedBrilligCall>,
    },
}

/// Why an execution ended in failure.
#[derive(Debug, Clone, PartialEq, Eq)]
pub enum ExecutionError {
    /// The solver hit an unrecoverable error at some opcode.
    Solver(OpcodeResolutionError),
    /// A host-call handler failed; the whole execution fails with it.
    ForeignCall(String),
}

/// The driver's state over one execution.
#[derive(Debug, Clone, PartialEq, Eq)]
pub enum ExecutionState {
    /// Holding an opcode list, awaiting the solver's report.
    Running { opcodes: Vec<Opcode> },
    /// The solver paused; host-call requests are outstanding.
    AwaitingHostCalls {
        unsolved_opcodes: Vec<Opcode>,
        unresolved_brillig_calls: Vec<UnresolvedBrilligCall>,
    },
    /// Terminal success: the witness map is fully resolved.
    Solved,
    /// Terminal failure; there is no partial result.
    Failed { error: ExecutionError },
}

/// The opcode regenerated from a paused host call once its result is
/// known: the same block, with the result appended to those already
/// accumulated.
pub open spec fn regenerates(
    call: UnresolvedBrilligCall,
    result: ForeignCallResult,
    op: Opcode,
) -> bool {
    &&& op matches Opcode::Brillig(b)
    &&& op->Brillig_0.id == call.brillig.id
    &&& op->Brillig_0.foreign_call_results@ == call.brillig.foreign_call_results@.push(result)
}

/// The initial state of an execution: running, with the opcode list
/// taken directly from the deserialized circuit.
pub fn initial_state(opcodes: Vec<Opcode>) -> (r: ExecutionState)
    ensures
        r == (ExecutionState::Running { opcodes }),
{
    ExecutionState::Running { opcodes }
}

/// The transition out of `Running`, on the external solver's report:
/// full resolution ends the execution in `Solved` at once; a pause moves
/// to `AwaitingHostCalls` carrying the residual opcodes and the pending
/// calls; a solver error ends it in `Failed`.
pub fn on_solver_report(report: Result<SolverStatus, OpcodeResolutionError>) -> (r: ExecutionState)
    ensures
        match report {
            Ok(status) => match status {
                SolverStatus::Solved => r == ExecutionState::Solved,
                SolverStatus::RequiresOracleData { unsolved_opcodes, unresolved_brillig_calls } => r
                    == (ExecutionState::AwaitingHostCalls {
                    unsolved_opcodes,
                    unresolved_brillig_calls,
                }),
            },
            Err(e) => r == (ExecutionState::Failed { error: ExecutionError::Solver(e) }),
        },
{
    match report {
        Ok(status) => match status {
            SolverStatus::Solved => ExecutionState::Solved,
            SolverStatus::RequiresOracleData { unsolved_opcodes, unresolved_brillig_calls } => {
                ExecutionState::AwaitingHostCalls { unsolved_opcodes, unresolved_brillig_calls }
            },
        },
        Err(e) => ExecutionState::Failed { error: ExecutionError::Solver(e) },
    }
}

/// Folds each host-call result into the call it originated from and
/// returns the regenerated call opcodes, one per pending call, in the
/// pending calls' order: result `i` is matched to call `i` by that
/// request identity, whatever order the handler resolved them in.
pub fn process_brillig_calls(
    brillig_foreign_calls: Vec<UnresolvedBrilligCall>,
    results: Vec<ForeignCallResult>,
) -> (r: Vec<Opcode>)
    requires
        results@.len() == brillig_foreign_calls@.len(),
    ensures
        r@.len() == brillig_foreign_calls@.len(),
        forall|i: int|
            0 <= i < r@.len() ==> regenerates(brillig_foreign_calls@[i], results@[i], r@[i]),
{
    let ghost calls0 = brillig_foreign_calls@;
    let ghost results0 = results@;
    let mut calls = brillig_foreign_calls;
    let mut res = results;
    let mut updated: Vec<Opcode> = Vec::new();
    while calls.len() > 0
        invariant
            results0.len() == calls0.len(),
            updated@.len() <= calls0.len(),
            calls@ == calls0.skip(updated@.len() as int),
            res@ == results0.skip(updated@.len() as int),
            forall|i: int|
                0 <= i < updated@.len() ==> regenerates(calls0[i], results0[i], updated@[i]),
        decreases calls@.len(),
    {
        let ghost k = updated@.len() as int;
        proof {
            assert(calls@[0] == calls0[k]);
            assert(res@[0] == results0[k]);
            assert(calls@.remove(0) =~= calls0.skip(k + 1));
            assert(res@.remove(0) =~= results0.skip(k + 1));
        }
        let foreign_call = calls.remove(0);
        let result = res.remove(0);
        let mut new_brillig = foreign_call.brillig;
        new_brillig.foreign_call_results.push(result);
        updated.push(Opcode::Brillig(new_brillig));
    }
    updated
}

/// Collects one batch of host-call outcomes behind the resume barrier:
/// all of them in their requests' order if every handler succeeded, or
/// the first failure, which fails the whole batch even where other calls
/// in it succeeded.
pub fn collect_foreign_call_results(outcomes: Vec<Result<ForeignCallResult, String>>) -> (r: Result<
    Vec<ForeignCallResult>,
    String,
>)
    ensures
        r is Err <==> exists|i: int| 0 <= i < outcomes@.len() && (#[trigger] outcomes@[i]) is Err,
        r matches Ok(v) ==> v@.len() == outcomes@.len() && (forall|i: int|
            0 <= i < outcomes@.len() ==> ((#[trigger] outcomes@[i]) matches Ok(fr) && v@[i] == fr)),
        r matches Err(e) ==> exists|i: int|
            0 <= i < outcomes@.len() && (#[trigger] outcomes@[i]) == Err::<
                ForeignCallResult,
                String,
            >(e) && (forall|j: int| 0 <= j < i ==> outcomes@[j] is Ok),
{
    let ghost outcomes0 = outcomes@;
    let mut remaining = outcomes;
    let mut collected: Vec<ForeignCallResult> = Vec::new();
    while remaining.len() > 0
        invariant
            outcomes0 == outcomes@,
            collected@.len() <= outcomes0.len(),
            remaining@ == outcomes0.skip(collected@.len() as int),
            forall|j: int|
                0 <= j < collected@.len() ==> ((#[trigger] outcomes0[j]) matches Ok(fr)
                    && collected@[j] == fr),
        decreases remaining@.len(),
    {
        let ghost k = collected@.len() as int;
        proof {
            assert(remaining@[0] == outcomes0[k]);
            assert(remaining@.remove(0) =~= outcomes0.skip(k + 1));
        }
        match remaining.remove(0) {
            Ok(value) => {
                collected.push(value);
            },
            Err(message) => {
                proof {
                    assert(outcomes@[k] == Err::<ForeignCallResult, String>(message));
                }
                return Err(message);
            },
        }
    }
    Ok(collected)
}

/// The transition out of `AwaitingHostCalls`, once every outstanding
/// host-call outcome is in: if any handler failed, the whole execution
/// fails with the first failure; otherwise each result is folded into
/// its originating call, and the regenerated call opcodes, appended to
/// the residual opcodes of the pause, become the next `Running` opcode
/// list.
pub fn resume_with_host_results(
    unsolved_opcodes: Vec<Opcode>,
    unresolved_brillig_calls: Vec<UnresolvedBrilligCall>,
    results: Vec<Result<ForeignCallResult, String>>,
) -> (r: ExecutionState)
    requires
        results@.len() == unresolved_brillig_calls@.len(),
    ensures
        r is Failed <==> exists|i: int|
            0 <= i < results@.len() && (#[trigger] results@[i]) is Err,
        r matches ExecutionState::Failed { error } ==> (error matches ExecutionError::ForeignCall(m)
            && exists|i: int|
            0 <= i < results@.len() && (#[trigger] results@[i]) == Err::<ForeignCallResult, String>(
                m,
            ) && (forall|j: int| 0 <= j < i ==> results@[j] is Ok)),
        r matches ExecutionState::Running { opcodes } ==> opcodes@.len() == unsolved_opcodes@.len()
            + unresolved_brillig_calls@.len() && opcodes@.subrange(0, unsolved_opcodes@.len() as int)
            == unsolved_opcodes@ && (forall|i: int|
            0 <= i < unresolved_brillig_calls@.len() ==> regenerates(
                unresolved_brillig_calls@[i],
                (#[trigger] results@[i])->Ok_0,
                opcodes@[unsolved_opcodes@.len() + i],
            )),
        r is Failed || r is Running,
{
    match collect_foreign_call_results(results) {
        Err(message) => ExecutionState::Failed { error: ExecutionError::ForeignCall(message) },
        Ok(values) => {
            let ghost unsolved0 = unsolved_opcodes@;
            let ghost calls0 = unresolved_brillig_calls@;
            let ghost values0 = values@;
            let mut opcodes = unsolved_opcodes;
            let mut new_brillig_opcodes = process_brillig_calls(unresolved_brillig_calls, values);
            let ghost newops0 = new_brillig_opcodes@;
            opcodes.append(&mut new_brillig_opcodes);
            proof {
                assert(opcodes@.subrange(0, unsolved0.len() as int) =~= unsolved0);
                assert forall|i: int| 0 <= i < calls0.len() implies regenerates(
                    calls0[i],
                    (#[trigger] results@[i])->Ok_0,
                    opcodes@[unsolved0.len() + i],
                ) by {
                    assert(opcodes@[unsolved0.len() + i] == newops0[i]);
                    assert(values0[i] == results@[i]->Ok_0);
                }
            }
            ExecutionState::Running { opcodes }
        },
    }
}

} // verus!
