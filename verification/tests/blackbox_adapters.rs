use acvm_simulator::blackbox::{
    resolve_inputs, resolve_low_bytes, write_point, FunctionInput, OpcodeResolution,
    SimulatedBackend,
};
use wasmer::sys::NativeEngineExt;
use acvm_simulator::bridge::Barretenberg;
use acvm_simulator::errors::{BlackBoxFunc, BlackBoxReason, FeatureError, OpcodeResolutionError};
use acvm_simulator::field::FieldElement;
use acvm_simulator::witness::{insert_value, Witness, WitnessMap};

const ALLOC_ONLY: &str = r#"
(module
  (import "env" "memory" (memory 22))
  (global $next (mut i32) (i32.const 1024))
  (func (export "bbmalloc") (param $len i32) (result i32)
    (local $ptr i32)
    global.get $next
    local.set $ptr
    global.get $next
    local.get $len
    i32.add
    global.set $next
    local.get $ptr)
)
"#;

const SCHNORR_VALID: &str = r#"
(module
  (import "env" "memory" (memory 22))
  (global $next (mut i32) (i32.const 1024))
  (func (export "bbmalloc") (param $len i32) (result i32)
    (local $ptr i32)
    global.get $next
    local.set $ptr
    global.get $next
    local.get $len
    i32.add
    global.set $next
    local.get $ptr)
  (func (export "schnorr_verify_signature") (param i32 i32 i32 i32 i32) (result i32)
    i32.const 1)
)
"#;

const SCHNORR_INVALID: &str = r#"
(module
  (import "env" "memory" (memory 22))
  (global $next (mut i32) (i32.const 1024))
  (func (export "bbmalloc") (param $len i32) (result i32)
    (local $ptr i32)
    global.get $next
    local.set $ptr
    global.get $next
    local.get $len
    i32.add
    global.set $next
    local.get $ptr)
  (func (export "schnorr_verify_signature") (param i32 i32 i32 i32 i32) (result i32)
    i32.const 0)
)
"#;

const SCHNORR_GARBAGE: &str = r#"
(module
  (import "env" "memory" (memory 22))
  (global $next (mut i32) (i32.const 1024))
  (func (export "bbmalloc") (param $len i32) (result i32)
    (local $ptr i32)
    global.get $next
    local.set $ptr
    global.get $next
    local.get $len
    i32.add
    global.set $next
    local.get $ptr)
  (func (export "schnorr_verify_signature") (param i32 i32 i32 i32 i32) (result i32)
    i32.const 2)
)
"#;

const POINT_WRITERS: &str = r#"
(module
  (import "env" "memory" (memory 22))
  (global $next (mut i32) (i32.const 1024))
  (func (export "bbmalloc") (param $len i32) (result i32)
    (local $ptr i32)
    global.get $next
    local.set $ptr
    global.get $next
    local.get $len
    i32.add
    global.set $next
    local.get $ptr)
  (func (export "pedersen_encrypt") (param $in i32) (param $n i32) (param $out i32)
    (i32.store8 offset=31 (local.get $out) (i32.const 7))
    (i32.store8 offset=63 (local.get $out) (i32.const 9)))
  (func (export "fixed_base_scalar_mul") (param $in i32) (param $out i32)
    (i32.store8 offset=31 (local.get $out) (i32.const 3))
    (i32.store8 offset=63 (local.get $out) (i32.const 4)))
)
"#;

/// A store whose memories are allocated dynamically: the default
/// tunables reserve a 6 GiB address range per memory, far more than these
/// small modules need.
fn make_store() -> wasmer::Store {
    let mut engine = wasmer::Engine::default();
    engine.set_tunables(wasmer::sys::BaseTunables {
        static_memory_bound: wasmer::Pages(0),
        static_memory_offset_guard_size: 0x1_0000,
        dynamic_memory_offset_guard_size: 0x1_0000,
    });
    wasmer::Store::new(engine)
}

fn make_backend(wat: &str) -> SimulatedBackend {
    let mut store = make_store();
    let module = wasmer::Module::new(&store, wat.as_bytes()).unwrap();
    let memory =
        wasmer::Memory::new(&mut store, wasmer::MemoryType::new(22, None, false)).unwrap();
    let mut imports = wasmer::Imports::new();
    imports.define("env", "memory", memory.clone());
    let instance = wasmer::Instance::new(&mut store, &module, &imports).unwrap();
    SimulatedBackend::new(Barretenberg::from_parts(store, memory, instance))
}

fn fe(low: u8) -> FieldElement {
    let mut bytes = vec![0u8; 31];
    bytes.push(low);
    FieldElement::from_be_bytes(&bytes).unwrap()
}

fn input(index: u32) -> FunctionInput {
    FunctionInput { witness: Witness(index), num_bits: 8 }
}

/// A witness map holding the two public-key elements, `sig_elems`
/// signature byte elements and `msg_elems` message byte elements, laid
/// out from index 1 up.
fn schnorr_witness(sig_elems: u32, msg_elems: u32) -> WitnessMap {
    let mut map = WitnessMap::new();
    insert_value(Witness(1), fe(0x11), &mut map).unwrap();
    insert_value(Witness(2), fe(0x22), &mut map).unwrap();
    for i in 0..sig_elems {
        insert_value(Witness(3 + i), fe((i % 250) as u8), &mut map).unwrap();
    }
    for i in 0..msg_elems {
        insert_value(Witness(3 + sig_elems + i), fe(0x40 + (i % 100) as u8), &mut map).unwrap();
    }
    map
}

fn schnorr_args(sig_elems: u32, msg_elems: u32) -> (Vec<FunctionInput>, Vec<FunctionInput>) {
    let signature = (0..sig_elems).map(|i| input(3 + i)).collect();
    let message = (0..msg_elems).map(|i| input(3 + sig_elems + i)).collect();
    (signature, message)
}

#[test]
fn short_signature_fails_before_any_module_call() {
    // The module has no verification export at all: had the adapter
    // reached the module, the failure would name a missing export.
    let mut backend = make_backend(ALLOC_ONLY);
    let mut map = schnorr_witness(63, 4);
    let (signature, message) = schnorr_args(63, 4);
    let err = backend
        .schnorr_verify(&mut map, &input(1), &input(2), &signature, &message, &Witness(200))
        .unwrap_err();
    assert_eq!(
        err,
        OpcodeResolutionError::BlackBoxFunctionFailed {
            func: BlackBoxFunc::SchnorrVerify,
            reason: BlackBoxReason::InvalidSignatureLength { found: 63 },
        }
    );
    assert!(map.get(Witness(200)).is_none());
}

#[test]
fn invalid_signature_records_zero_without_failing() {
    let mut backend = make_backend(SCHNORR_INVALID);
    let mut map = schnorr_witness(64, 4);
    let (signature, message) = schnorr_args(64, 4);
    let res = backend
        .schnorr_verify(&mut map, &input(1), &input(2), &signature, &message, &Witness(200))
        .unwrap();
    assert_eq!(res, OpcodeResolution::Solved);
    assert!(map.get(Witness(200)).unwrap().eq_value(&FieldElement::zero()));
}

#[test]
fn valid_signature_records_one() {
    let mut backend = make_backend(SCHNORR_VALID);
    let mut map = schnorr_witness(64, 0);
    let (signature, message) = schnorr_args(64, 0);
    let res = backend
        .schnorr_verify(&mut map, &input(1), &input(2), &signature, &message, &Witness(200))
        .unwrap();
    assert_eq!(res, OpcodeResolution::Solved);
    assert!(map.get(Witness(200)).unwrap().eq_value(&FieldElement::one()));
}

#[test]
fn non_boolean_verdict_is_a_bridge_failure() {
    let mut backend = make_backend(SCHNORR_GARBAGE);
    let mut map = schnorr_witness(64, 1);
    let (signature, message) = schnorr_args(64, 1);
    let err = backend
        .schnorr_verify(&mut map, &input(1), &input(2), &signature, &message, &Witness(200))
        .unwrap_err();
    assert_eq!(
        err,
        OpcodeResolutionError::BlackBoxFunctionFailed {
            func: BlackBoxFunc::SchnorrVerify,
            reason: BlackBoxReason::Bridge(FeatureError::InvalidBool),
        }
    );
    assert!(map.get(Witness(200)).is_none());
}

#[test]
fn missing_signature_witness_is_reported() {
    let mut backend = make_backend(ALLOC_ONLY);
    let mut map = schnorr_witness(10, 0);
    let (signature, message) = schnorr_args(64, 0);
    let err = backend
        .schnorr_verify(&mut map, &input(1), &input(2), &signature, &message, &Witness(200))
        .unwrap_err();
    assert_eq!(err, OpcodeResolutionError::OpcodeNotSolvable { missing_assignment: 13 });
}

#[test]
fn pedersen_writes_exactly_two_outputs() {
    let mut backend = make_backend(POINT_WRITERS);
    let mut map = WitnessMap::new();
    insert_value(Witness(1), fe(5), &mut map).unwrap();
    insert_value(Witness(2), fe(6), &mut map).unwrap();
    let res = backend
        .pedersen(&mut map, &vec![input(1), input(2)], 0, &vec![Witness(10), Witness(11)])
        .unwrap();
    assert_eq!(res, OpcodeResolution::Solved);
    assert_eq!(map.len(), 4);
    assert!(map.get(Witness(10)).unwrap().eq_value(&fe(7)));
    assert!(map.get(Witness(11)).unwrap().eq_value(&fe(9)));
}

#[test]
fn pedersen_refuses_a_truncated_output_list() {
    let mut backend = make_backend(POINT_WRITERS);
    let mut map = WitnessMap::new();
    insert_value(Witness(1), fe(5), &mut map).unwrap();
    let err = backend.pedersen(&mut map, &vec![input(1)], 0, &vec![Witness(10)]).unwrap_err();
    assert_eq!(
        err,
        OpcodeResolutionError::BlackBoxFunctionFailed {
            func: BlackBoxFunc::Pedersen,
            reason: BlackBoxReason::NotEnoughOutputs { expected: 2, found: 1 },
        }
    );
    assert!(map.get(Witness(10)).is_none());
}

#[test]
fn pedersen_refuses_a_non_zero_domain_separator() {
    let mut backend = make_backend(POINT_WRITERS);
    let mut map = WitnessMap::new();
    insert_value(Witness(1), fe(5), &mut map).unwrap();
    let err = backend
        .pedersen(&mut map, &vec![input(1)], 3, &vec![Witness(10), Witness(11)])
        .unwrap_err();
    assert_eq!(
        err,
        OpcodeResolutionError::BlackBoxFunctionFailed {
            func: BlackBoxFunc::Pedersen,
            reason: BlackBoxReason::NonZeroDomainSeparator { separator: 3 },
        }
    );
}

#[test]
fn pedersen_conflicting_output_leaves_the_map_unchanged() {
    let mut backend = make_backend(POINT_WRITERS);
    let mut map = WitnessMap::new();
    insert_value(Witness(1), fe(5), &mut map).unwrap();
    // The second output slot already holds a value the module's point
    // cannot match, so nothing at all may be written.
    insert_value(Witness(11), fe(250), &mut map).unwrap();
    let err = backend
        .pedersen(&mut map, &vec![input(1)], 0, &vec![Witness(10), Witness(11)])
        .unwrap_err();
    assert_eq!(err, OpcodeResolutionError::UnsatisfiedConstrain);
    assert!(map.get(Witness(10)).is_none());
    assert!(map.get(Witness(11)).unwrap().eq_value(&fe(250)));
}

#[test]
fn fixed_base_writes_the_module_point() {
    let mut backend = make_backend(POINT_WRITERS);
    let mut map = WitnessMap::new();
    insert_value(Witness(1), fe(2), &mut map).unwrap();
    let res = backend
        .fixed_base_scalar_mul(&mut map, &input(1), &vec![Witness(20), Witness(21)])
        .unwrap();
    assert_eq!(res, OpcodeResolution::Solved);
    assert!(map.get(Witness(20)).unwrap().eq_value(&fe(3)));
    assert!(map.get(Witness(21)).unwrap().eq_value(&fe(4)));
}

#[test]
fn fixed_base_refuses_a_truncated_output_list() {
    let mut backend = make_backend(POINT_WRITERS);
    let mut map = WitnessMap::new();
    insert_value(Witness(1), fe(2), &mut map).unwrap();
    let err = backend.fixed_base_scalar_mul(&mut map, &input(1), &vec![Witness(20)]).unwrap_err();
    assert_eq!(
        err,
        OpcodeResolutionError::BlackBoxFunctionFailed {
            func: BlackBoxFunc::FixedBaseScalarMul,
            reason: BlackBoxReason::NotEnoughOutputs { expected: 2, found: 1 },
        }
    );
}

#[test]
fn fixed_base_missing_scalar_is_reported() {
    let mut backend = make_backend(POINT_WRITERS);
    let mut map = WitnessMap::new();
    let err = backend
        .fixed_base_scalar_mul(&mut map, &input(9), &vec![Witness(20), Witness(21)])
        .unwrap_err();
    assert_eq!(err, OpcodeResolutionError::OpcodeNotSolvable { missing_assignment: 9 });
}

#[test]
fn resolve_low_bytes_takes_each_low_byte() {
    let mut map = WitnessMap::new();
    let mut full = vec![0xffu8; 31];
    full.push(0x2a);
    insert_value(Witness(1), FieldElement::from_be_bytes(&full).unwrap(), &mut map).unwrap();
    insert_value(Witness(2), fe(0x07), &mut map).unwrap();
    let bytes = resolve_low_bytes(&map, &vec![input(1), input(2)]).unwrap();
    assert_eq!(bytes, vec![0x2a, 0x07]);
    let err = resolve_low_bytes(&map, &vec![input(1), input(9)]).unwrap_err();
    assert_eq!(err, OpcodeResolutionError::OpcodeNotSolvable { missing_assignment: 9 });
}

#[test]
fn resolve_inputs_keeps_operand_order() {
    let mut map = WitnessMap::new();
    insert_value(Witness(5), fe(50), &mut map).unwrap();
    insert_value(Witness(4), fe(40), &mut map).unwrap();
    let values = resolve_inputs(&map, &vec![input(4), input(5)]).unwrap();
    assert_eq!(values.len(), 2);
    assert!(values[0].eq_value(&fe(40)));
    assert!(values[1].eq_value(&fe(50)));
}

#[test]
fn write_point_is_atomic() {
    let mut map = WitnessMap::new();
    insert_value(Witness(2), fe(9), &mut map).unwrap();
    let err = write_point(&mut map, Witness(1), fe(7), Witness(2), fe(8)).unwrap_err();
    assert_eq!(err, OpcodeResolutionError::UnsatisfiedConstrain);
    assert!(map.get(Witness(1)).is_none());
    write_point(&mut map, Witness(1), fe(7), Witness(2), fe(9)).unwrap();
    assert!(map.get(Witness(1)).unwrap().eq_value(&fe(7)));
}
