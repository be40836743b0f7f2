use acvm_simulator::errors::OpcodeResolutionError;
use acvm_simulator::execute::{
    collect_foreign_call_results, initial_state, on_solver_report, process_brillig_calls,
    resume_with_host_results, Brillig, ExecutionError, ExecutionState, ForeignCallResult,
    ForeignCallWaitInfo, Opcode, SolverStatus, UnresolvedBrilligCall,
};
use acvm_simulator::field::FieldElement;

fn fe(low: u8) -> FieldElement {
    let mut bytes = vec![0u8; 31];
    bytes.push(low);
    FieldElement::from_be_bytes(&bytes).unwrap()
}

fn pending(id: u64, prior_results: usize) -> UnresolvedBrilligCall {
    UnresolvedBrilligCall {
        brillig: Brillig {
            id,
            foreign_call_results: (0..prior_results)
                .map(|i| ForeignCallResult::Single(fe(i as u8)))
                .collect(),
        },
        foreign_call_wait_info: ForeignCallWaitInfo {
            function: format!("oracle_{id}"),
            inputs: vec![fe(id as u8)],
        },
    }
}

#[test]
fn no_host_calls_solves_in_one_report() {
    let state = initial_state(vec![Opcode::Arithmetic { id: 1 }]);
    assert!(matches!(state, ExecutionState::Running { .. }));
    let next = on_solver_report(Ok(SolverStatus::Solved));
    assert_eq!(next, ExecutionState::Solved);
}

#[test]
fn solver_pause_awaits_host_calls() {
    let next = on_solver_report(Ok(SolverStatus::RequiresOracleData {
        unsolved_opcodes: vec![Opcode::Arithmetic { id: 9 }],
        unresolved_brillig_calls: vec![pending(1, 0)],
    }));
    match next {
        ExecutionState::AwaitingHostCalls { unsolved_opcodes, unresolved_brillig_calls } => {
            assert_eq!(unsolved_opcodes, vec![Opcode::Arithmetic { id: 9 }]);
            assert_eq!(unresolved_brillig_calls.len(), 1);
        }
        other => panic!("expected AwaitingHostCalls, got {other:?}"),
    }
}

#[test]
fn solver_error_fails_the_execution() {
    let next = on_solver_report(Err(OpcodeResolutionError::UnsatisfiedConstrain));
    assert_eq!(
        next,
        ExecutionState::Failed {
            error: ExecutionError::Solver(OpcodeResolutionError::UnsatisfiedConstrain)
        }
    );
}

#[test]
fn regenerated_opcodes_match_request_identity() {
    let calls = vec![pending(10, 1), pending(20, 0), pending(30, 2)];
    let results = vec![
        ForeignCallResult::Single(fe(100)),
        ForeignCallResult::Multiple(vec![fe(101), fe(102)]),
        ForeignCallResult::Single(fe(103)),
    ];
    let regenerated = process_brillig_calls(calls.clone(), results.clone());
    assert_eq!(regenerated.len(), 3);
    for (i, op) in regenerated.iter().enumerate() {
        match op {
            Opcode::Brillig(b) => {
                assert_eq!(b.id, calls[i].brillig.id);
                let mut expected = calls[i].brillig.foreign_call_results.clone();
                expected.push(results[i].clone());
                assert_eq!(b.foreign_call_results, expected);
            }
            other => panic!("expected a Brillig opcode, got {other:?}"),
        }
    }
}

#[test]
fn resume_appends_one_opcode_per_pending_call() {
    let residual = vec![Opcode::Arithmetic { id: 1 }, Opcode::BlackBoxFuncCall { id: 2 }];
    let calls = vec![pending(5, 0), pending(6, 0)];
    let results = vec![
        Ok(ForeignCallResult::Single(fe(50))),
        Ok(ForeignCallResult::Single(fe(60))),
    ];
    match resume_with_host_results(residual.clone(), calls, results) {
        ExecutionState::Running { opcodes } => {
            assert_eq!(opcodes.len(), 4);
            assert_eq!(opcodes[0], residual[0]);
            assert_eq!(opcodes[1], residual[1]);
            assert_eq!(
                opcodes[2],
                Opcode::Brillig(Brillig {
                    id: 5,
                    foreign_call_results: vec![ForeignCallResult::Single(fe(50))],
                })
            );
            assert_eq!(
                opcodes[3],
                Opcode::Brillig(Brillig {
                    id: 6,
                    foreign_call_results: vec![ForeignCallResult::Single(fe(60))],
                })
            );
        }
        other => panic!("expected Running, got {other:?}"),
    }
}

#[test]
fn one_failed_host_call_fails_the_whole_batch() {
    let calls = vec![pending(1, 0), pending(2, 0), pending(3, 0)];
    let results = vec![
        Ok(ForeignCallResult::Single(fe(1))),
        Err(String::from("oracle unavailable")),
        Ok(ForeignCallResult::Single(fe(3))),
    ];
    let state = resume_with_host_results(vec![], calls, results);
    assert_eq!(
        state,
        ExecutionState::Failed {
            error: ExecutionError::ForeignCall(String::from("oracle unavailable"))
        }
    );
}

#[test]
fn collect_keeps_request_order_and_reports_first_failure() {
    let ok = collect_foreign_call_results(vec![
        Ok(ForeignCallResult::Single(fe(1))),
        Ok(ForeignCallResult::Single(fe(2))),
    ])
    .unwrap();
    assert_eq!(ok.len(), 2);
    assert_eq!(ok[0], ForeignCallResult::Single(fe(1)));
    assert_eq!(ok[1], ForeignCallResult::Single(fe(2)));

    let err = collect_foreign_call_results(vec![
        Ok(ForeignCallResult::Single(fe(1))),
        Err(String::from("first")),
        Err(String::from("second")),
    ])
    .unwrap_err();
    assert_eq!(err, String::from("first"));
}
