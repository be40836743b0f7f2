//! Blackbox function adapters: the three operations the native module
//! supplies. Each resolves its input witnesses to field elements, lays
//! their bytes out as the module expects, performs the call through the
//! bridge, and writes every output only after the call succeeded.

use vstd::prelude::*;

use crate::bridge::{args_usable, mem_contents, module_op_error, ptr_to_offset, Barretenberg};
use crate::errors::{BlackBoxFunc, BlackBoxReason, Error, FeatureError, OpcodeResolutionError};
use crate::field::{bit_bytes, FieldElement, FIELD_BYTES};
use crate::wasm_value::WASMValue;
use crate::witness::{insert_value, witness_to_value, Witness, WitnessMap};

verus! {

/// One typed operand of a blackbox-function opcode: the witness index
/// holding the input and the bit width the circuit ascribes to it.
#[derive(Debug, Clone, Copy, PartialEq, Eq, Structural)]
pub struct FunctionInput {
    pub witness: Witness,
    pub num_bits: u32,
}

/// How one opcode's resolution ended when it did not fail.
#[derive(Debug, Clone, Copy, PartialEq, Eq, Structural)]
pub enum OpcodeResolution {
    Solved,
}

/// Every witness index an operand list references is present in the map.
pub open spec fn inputs_present(m: Map<Witness, Seq<u8>>, inputs: Seq<FunctionInput>) -> bool {
    forall|i: int| 0 <= i < inputs.len() ==> m.contains_key(#[trigger] inputs[i].witness)
}

/// Resolves each operand to the low byte of its field element's
/// canonical form: the byte-per-field-element encoding that signatures
/// and messages use. Fails with the first absent witness index, in
/// operand order, before anything else is done.
pub fn resolve_low_bytes(map: &WitnessMap, inputs: &Vec<FunctionInput>) -> (r: Result<
    Vec<u8>,
    OpcodeResolutionError,
>)
    requires
        map.wf(),
    ensures
        match r {
            Ok(v) => inputs_present(map@, inputs@) && v@.len() == inputs@.len() && (forall|i: int|
                0 <= i < inputs@.len() ==> (#[trigger] v@[i]) == map@[inputs@[i].witness][
                    FIELD_BYTES - 1
                ]),
            Err(e) => !inputs_present(map@, inputs@) && (e matches
                OpcodeResolutionError::OpcodeNotSolvable { .. }),
        },
{
    let mut bytes: Vec<u8> = Vec::new();
    let n = inputs.len();
    let mut i: usize = 0;
    while i < n
        invariant
            map.wf(),
            n == inputs@.len(),
            0 <= i <= n,
            bytes@.len() == i,
            forall|j: int| 0 <= j < i ==> map@.contains_key(#[trigger] inputs@[j].witness),
            forall|j: int|
                0 <= j < i ==> (#[trigger] bytes@[j]) == map@[inputs@[j].witness][FIELD_BYTES - 1],
        decreases n - i,
    {
        let value = match witness_to_value(map, inputs[i].witness) {
            Ok(fe) => fe,
            Err(e) => {
                proof {
                    assert(!map@.contains_key(inputs@[i as int].witness));
                }
                return Err(e);
            },
        };
        bytes.push(value.low_byte());
        i += 1;
    }
    Ok(bytes)
}

/// Resolves each operand to its field element, in operand order. Fails
/// with the first absent witness index before anything else is done.
pub fn resolve_inputs(map: &WitnessMap, inputs: &Vec<FunctionInput>) -> (r: Result<
    Vec<FieldElement>,
    OpcodeResolutionError,
>)
    requires
        map.wf(),
    ensures
        match r {
            Ok(v) => inputs_present(map@, inputs@) && v@.len() == inputs@.len() && (forall|i: int|
                0 <= i < inputs@.len() ==> (#[trigger] v@[i])@ == map@[inputs@[i].witness]),
            Err(e) => !inputs_present(map@, inputs@) && (e matches
                OpcodeResolutionError::OpcodeNotSolvable { .. }),
        },
{
    let mut values: Vec<FieldElement> = Vec::new();
    let n = inputs.len();
    let mut i: usize = 0;
    while i < n
        invariant
            map.wf(),
            n == inputs@.len(),
            0 <= i <= n,
            values@.len() == i,
            forall|j: int| 0 <= j < i ==> map@.contains_key(#[trigger] inputs@[j].witness),
            forall|j: int| 0 <= j < i ==> (#[trigger] values@[j])@ == map@[inputs@[j].witness],
        decreases n - i,
    {
        let value = match witness_to_value(map, inputs[i].witness) {
            Ok(fe) => fe,
            Err(e) => {
                proof {
                    assert(!map@.contains_key(inputs@[i as int].witness));
                }
                return Err(e);
            },
        };
        values.push(value.clone());
        i += 1;
    }
    Ok(values)
}

/// Maps a bridge failure into the resolution failure of the named
/// blackbox function.
pub fn blackbox_err(func: BlackBoxFunc, e: Error) -> (r: OpcodeResolutionError)
    ensures
        match e {
            Error::FromFeature(fe) => r == (OpcodeResolutionError::BlackBoxFunctionFailed {
                func,
                reason: BlackBoxReason::Bridge(fe),
            }),
        },
{
    match e {
        Error::FromFeature(fe) => OpcodeResolutionError::BlackBoxFunctionFailed {
            func,
            reason: BlackBoxReason::Bridge(fe),
        },
    }
}

/// The field elements' canonical representations laid back to back:
/// the layout the module's hashing export reads its inputs in.
pub open spec fn fields_bytes(inputs: Seq<FieldElement>) -> Seq<u8>
    decreases inputs.len(),
{
    if inputs.len() == 0 {
        Seq::empty()
    } else {
        fields_bytes(inputs.drop_last()) + inputs.last()@
    }
}

/// A vector of `len` zero bytes.
fn zeros(len: usize) -> (r: Vec<u8>)
    ensures
        r@ == Seq::new(len as nat, |i: int| 0u8),
{
    let mut v: Vec<u8> = Vec::new();
    while v.len() < len
        invariant
            v@.len() <= len,
            forall|i: int| 0 <= i < v@.len() ==> v@[i] == 0u8,
        decreases len - v@.len(),
    {
        v.push(0u8);
    }
    proof {
        assert(v@ =~= Seq::new(len as nat, |i: int| 0u8));
    }
    v
}

impl Barretenberg {
    /// Signature verification. Writes the four byte buffers to the
    /// module's heap and invokes its `schnorr_verify_signature` export
    /// with their pointers and the message length; the module answers
    /// with a boolean word: 1 for a valid signature, 0 for an invalid
    /// one. The verdict is the module's; nothing is promised of it.
    pub fn verify_signature(
        &mut self,
        pub_key: &Vec<u8>,
        sig_s: &Vec<u8>,
        sig_e: &Vec<u8>,
        message: &Vec<u8>,
    ) -> (r: Result<bool, Error>)
        requires
            pub_key@.len() == 64,
            sig_s@.len() == FIELD_BYTES,
            sig_e@.len() == FIELD_BYTES,
            message@.len() <= i32::MAX,
        ensures
            r matches Err(e) ==> (module_op_error(e, "schnorr_verify_signature"@) || e
                == Error::FromFeature(FeatureError::InvalidBool)),
    {
        let pub_key_ptr = self.allocate(pub_key)?;
        let sig_s_ptr = self.allocate(sig_s)?;
        let sig_e_ptr = self.allocate(sig_e)?;
        let message_ptr = self.allocate(message)?;
        let mut params: Vec<WASMValue> = Vec::new();
        params.push(pub_key_ptr);
        params.push(sig_s_ptr);
        params.push(sig_e_ptr);
        params.push(message_ptr);
        params.push(WASMValue::from_usize(message.len()));
        proof {
            assert(args_usable(params@));
        }
        let ret = self.call_multiple("schnorr_verify_signature", &params)?;
        match ret.try_into_bool() {
            Ok(b) => Ok(b),
            Err(e) => Err(Error::FromFeature(e)),
        }
    }

    /// The commitment/hash function. Lays the input field elements out
    /// back to back, allocates a 64-byte result buffer, and invokes the
    /// module's `pedersen_encrypt` export; the module writes the two
    /// coordinates of a curve point into the buffer, which are read back
    /// as two field elements. The point is the module's; nothing is
    /// promised of it.
    pub fn encrypt(&mut self, inputs: &Vec<FieldElement>) -> (r: Result<
        (FieldElement, FieldElement),
        Error,
    >)
        requires
            inputs@.len() * FIELD_BYTES <= i32::MAX,
        ensures
            r matches Ok(p) ==> (p.0@.len() == FIELD_BYTES && p.1@.len() == FIELD_BYTES),
            r matches Err(e) ==> module_op_error(e, "pedersen_encrypt"@),
    {
        let n = inputs.len();
        let mut input_bytes: Vec<u8> = Vec::new();
        let mut i: usize = 0;
        while i < n
            invariant
                n == inputs@.len(),
                0 <= i <= n,
                n * FIELD_BYTES <= i32::MAX,
                input_bytes@.len() == i * FIELD_BYTES,
                input_bytes@ == fields_bytes(inputs@.take(i as int)),
            decreases n - i,
        {
            let mut fe_bytes = inputs[i].to_be_bytes();
            proof {
                assert(inputs@.take((i + 1) as int).drop_last() =~= inputs@.take(i as int));
                assert(inputs@.take((i + 1) as int).last() == inputs@[i as int]);
            }
            input_bytes.append(&mut fe_bytes);
            i += 1;
        }
        proof {
            assert(inputs@.take(n as int) =~= inputs@);
            assert(input_bytes@ == fields_bytes(inputs@));
        }
        let input_ptr = self.allocate(&input_bytes)?;
        let result_buf = zeros(2 * FIELD_BYTES);
        let result_ptr = self.allocate(&result_buf)?;
        let result_offset = match result_ptr.try_into_i32() {
            Ok(p) => ptr_to_offset(p),
            Err(e) => {
                return Err(Error::FromFeature(e));
            },
        };
        let mut params: Vec<WASMValue> = Vec::new();
        params.push(input_ptr);
        params.push(WASMValue::from_usize(n));
        params.push(result_ptr);
        proof {
            assert(args_usable(params@));
        }
        self.call_multiple("pedersen_encrypt", &params)?;
        self.read_point(result_offset)
    }

    /// Fixed-base scalar multiplication. Writes the scalar's bytes to the
    /// module's heap, allocates a 64-byte result buffer, and invokes the
    /// module's `fixed_base_scalar_mul` export; the module writes the two
    /// coordinates of the resulting curve point into the buffer. The
    /// point is the module's; nothing is promised of it.
    pub fn fixed_base(&mut self, scalar: &FieldElement) -> (r: Result<
        (FieldElement, FieldElement),
        Error,
    >)
        ensures
            r matches Ok(p) ==> (p.0@.len() == FIELD_BYTES && p.1@.len() == FIELD_BYTES),
            r matches Err(e) ==> module_op_error(e, "fixed_base_scalar_mul"@),
    {
        let scalar_bytes = scalar.to_be_bytes();
        let scalar_ptr = self.allocate(&scalar_bytes)?;
        let result_buf = zeros(2 * FIELD_BYTES);
        let result_ptr = self.allocate(&result_buf)?;
        let result_offset = match result_ptr.try_into_i32() {
            Ok(p) => ptr_to_offset(p),
            Err(e) => {
                return Err(Error::FromFeature(e));
            },
        };
        let mut params: Vec<WASMValue> = Vec::new();
        params.push(scalar_ptr);
        params.push(result_ptr);
        proof {
            assert(args_usable(params@));
        }
        self.call_multiple("fixed_base_scalar_mul", &params)?;
        self.read_point(result_offset)
    }

    /// Reads a curve point the module left in its memory: two field
    /// elements of 32 bytes each, laid back to back at `offset`.
    fn read_point(&self, offset: usize) -> (r: Result<(FieldElement, FieldElement), Error>)
        ensures
            r matches Ok(p) ==> (p.0@.len() == FIELD_BYTES && p.1@.len() == FIELD_BYTES),
            r matches Err(e) ==> e == Error::FromFeature(FeatureError::OutOfBoundsMemoryAccess),
    {
        if offset > usize::MAX - 2 * FIELD_BYTES {
            return Err(Error::FromFeature(FeatureError::OutOfBoundsMemoryAccess));
        }
        let x_bytes = self.read_memory_variable_length(offset, FIELD_BYTES)?;
        let y_bytes = self.read_memory_variable_length(offset + FIELD_BYTES, FIELD_BYTES)?;
        let x = FieldElement::from_be_bytes(&x_bytes).unwrap();
        let y = FieldElement::from_be_bytes(&y_bytes).unwrap();
        Ok((x, y))
    }
}

/// The solving backend: routes the three blackbox functions to the
/// native module behind the bridge.
pub struct SimulatedBackend {
    blackbox_vendor: Barretenberg,
}

impl SimulatedBackend {
    /// What the blackbox vendor's linear memory holds; contracts use it
    /// to state that a failure reported before any module call left the
    /// module untouched.
    pub closed spec fn vendor_mem(self) -> Seq<u8> {
        mem_contents(self.blackbox_vendor)
    }

    /// Forms the backend around an instantiated module bridge.
    pub fn new(blackbox_vendor: Barretenberg) -> (r: SimulatedBackend) {
        SimulatedBackend { blackbox_vendor }
    }

    /// Resolves a signature-verification opcode. The public key is two
    /// field elements of 32 bytes each; the signature and the message
    /// carry one byte per field element, taken from each element's low
    /// byte. A signature that does not reduce to exactly 64 bytes is
    /// rejected before any module call. A cryptographically invalid
    /// signature is not an error: the boolean verdict, whatever it is,
    /// is written to the output witness.
    pub fn schnorr_verify(
        &mut self,
        initial_witness: &mut WitnessMap,
        public_key_x: &FunctionInput,
        public_key_y: &FunctionInput,
        signature: &Vec<FunctionInput>,
        message: &Vec<FunctionInput>,
        output: &Witness,
    ) -> (r: Result<OpcodeResolution, OpcodeResolutionError>)
        requires
            old(initial_witness).wf(),
            message@.len() <= i32::MAX,
        ensures
            final(initial_witness).wf(),
            r is Err ==> final(initial_witness)@ == old(initial_witness)@,
            r is Ok ==> (r == Ok::<_, OpcodeResolutionError>(OpcodeResolution::Solved)
                && old(initial_witness)@.contains_key(public_key_x.witness) && old(
                initial_witness,
            )@.contains_key(public_key_y.witness) && inputs_present(
                old(initial_witness)@,
                signature@,
            ) && inputs_present(old(initial_witness)@, message@) && signature@.len() == 64
                && (exists|valid: bool|
                final(initial_witness)@ == old(initial_witness)@.insert(
                    *output,
                    bit_bytes(valid),
                ))),
            (!old(initial_witness)@.contains_key(public_key_x.witness) || !old(
                initial_witness,
            )@.contains_key(public_key_y.witness) || !inputs_present(
                old(initial_witness)@,
                signature@,
            )) ==> (r matches Err(OpcodeResolutionError::OpcodeNotSolvable { .. })
                && final(self).vendor_mem() == old(self).vendor_mem()),
            (old(initial_witness)@.contains_key(public_key_x.witness) && old(
                initial_witness,
            )@.contains_key(public_key_y.witness) && inputs_present(
                old(initial_witness)@,
                signature@,
            ) && signature@.len() != 64) ==> (r == Err::<OpcodeResolution, _>(
                OpcodeResolutionError::BlackBoxFunctionFailed {
                    func: BlackBoxFunc::SchnorrVerify,
                    reason: BlackBoxReason::InvalidSignatureLength {
                        found: signature@.len() as usize,
                    },
                },
            ) && final(self).vendor_mem() == old(self).vendor_mem()),
            (old(initial_witness)@.contains_key(public_key_x.witness) && old(
                initial_witness,
            )@.contains_key(public_key_y.witness) && inputs_present(
                old(initial_witness)@,
                signature@,
            ) && signature@.len() == 64 && !inputs_present(old(initial_witness)@, message@)) ==> (r
                matches Err(OpcodeResolutionError::OpcodeNotSolvable { .. })
                && final(self).vendor_mem() == old(self).vendor_mem()),
    {
        let pub_key_x_value = witness_to_value(initial_witness, public_key_x.witness)?;
        let mut pub_key = pub_key_x_value.to_be_bytes();
        let pub_key_y_value = witness_to_value(initial_witness, public_key_y.witness)?;
        let mut pub_key_y_bytes = pub_key_y_value.to_be_bytes();
        pub_key.append(&mut pub_key_y_bytes);
        proof {
            assert(pub_key@ == initial_witness@[public_key_x.witness]
                + initial_witness@[public_key_y.witness]);
        }

        let signature_bytes = resolve_low_bytes(initial_witness, signature)?;
        if signature_bytes.len() != 64 {
            return Err(OpcodeResolutionError::BlackBoxFunctionFailed {
                func: BlackBoxFunc::SchnorrVerify,
                reason: BlackBoxReason::InvalidSignatureLength { found: signature_bytes.len() },
            });
        }
        let mut sig_s: Vec<u8> = Vec::new();
        let mut sig_e: Vec<u8> = Vec::new();
        let mut k: usize = 0;
        while k < 32
            invariant
                signature_bytes@.len() == 64,
                0 <= k <= 32,
                sig_s@.len() == k,
                sig_e@.len() == k,
                forall|j: int| 0 <= j < k ==> (#[trigger] sig_s@[j]) == signature_bytes@[j],
                forall|j: int| 0 <= j < k ==> (#[trigger] sig_e@[j]) == signature_bytes@[j + 32],
            decreases 32 - k,
        {
            sig_s.push(signature_bytes[k]);
            sig_e.push(signature_bytes[k + 32]);
            k += 1;
        }
        proof {
            assert(forall|j: int|
                0 <= j < 32 ==> (#[trigger] sig_s@[j]) == initial_witness@[signature@[j].witness][
                    FIELD_BYTES - 1
                ]);
            assert(forall|j: int|
                0 <= j < 32 ==> (#[trigger] sig_e@[j]) == initial_witness@[signature@[j
                    + 32].witness][FIELD_BYTES - 1]);
        }

        let message_bytes = resolve_low_bytes(initial_witness, message)?;

        let valid_signature = match self.blackbox_vendor.verify_signature(
            &pub_key,
            &sig_s,
            &sig_e,
            &message_bytes,
        ) {
            Ok(b) => b,
            Err(e) => {
                return Err(blackbox_err(BlackBoxFunc::SchnorrVerify, e));
            },
        };

        insert_value(*output, FieldElement::from_bool(valid_signature), initial_witness)?;
        proof {
            assert(initial_witness@ == old(initial_witness)@.insert(
                *output,
                bit_bytes(valid_signature),
            ));
        }
        Ok(OpcodeResolution::Solved)
    }

    /// Resolves a commitment/hash opcode: reads any number of input field
    /// elements and writes the two coordinates of the resulting curve
    /// point to the two designated output witnesses, atomically, only
    /// after the module call succeeded. Only the zero domain separator is
    /// supported; a non-zero one is rejected explicitly. Fewer than two
    /// output slots are rejected before any module call, never silently
    /// truncated.
    pub fn pedersen(
        &mut self,
        initial_witness: &mut WitnessMap,
        inputs: &Vec<FunctionInput>,
        domain_separator: u32,
        outputs: &Vec<Witness>,
    ) -> (r: Result<OpcodeResolution, OpcodeResolutionError>)
        requires
            old(initial_witness).wf(),
            inputs@.len() * FIELD_BYTES <= i32::MAX,
        ensures
            final(initial_witness).wf(),
            r is Err ==> final(initial_witness)@ == old(initial_witness)@,
            domain_separator != 0 ==> (r == Err::<OpcodeResolution, _>(
                OpcodeResolutionError::BlackBoxFunctionFailed {
                    func: BlackBoxFunc::Pedersen,
                    reason: BlackBoxReason::NonZeroDomainSeparator { separator: domain_separator },
                },
            ) && final(self).vendor_mem() == old(self).vendor_mem()),
            (domain_separator == 0 && outputs@.len() < 2) ==> (r == Err::<OpcodeResolution, _>(
                OpcodeResolutionError::BlackBoxFunctionFailed {
                    func: BlackBoxFunc::Pedersen,
                    reason: BlackBoxReason::NotEnoughOutputs {
                        expected: 2,
                        found: outputs@.len() as usize,
                    },
                },
            ) && final(self).vendor_mem() == old(self).vendor_mem()),
            (domain_separator == 0 && outputs@.len() >= 2 && !inputs_present(
                old(initial_witness)@,
                inputs@,
            )) ==> (r matches Err(OpcodeResolutionError::OpcodeNotSolvable { .. })
                && final(self).vendor_mem() == old(self).vendor_mem()),
            r is Ok ==> (r == Ok::<_, OpcodeResolutionError>(OpcodeResolution::Solved)
                && domain_separator == 0 && outputs@.len() >= 2 && inputs_present(
                old(initial_witness)@,
                inputs@,
            ) && (exists|xv: Seq<u8>, yv: Seq<u8>|
                xv.len() == FIELD_BYTES && yv.len() == FIELD_BYTES && final(initial_witness)@ == old(
                    initial_witness,
                )@.insert(outputs@[0], xv).insert(outputs@[1], yv))),
    {
        if domain_separator != 0 {
            return Err(OpcodeResolutionError::BlackBoxFunctionFailed {
                func: BlackBoxFunc::Pedersen,
                reason: BlackBoxReason::NonZeroDomainSeparator { separator: domain_separator },
            });
        }
        if outputs.len() < 2 {
            return Err(OpcodeResolutionError::BlackBoxFunctionFailed {
                func: BlackBoxFunc::Pedersen,
                reason: BlackBoxReason::NotEnoughOutputs { expected: 2, found: outputs.len() },
            });
        }

        let scalars = resolve_inputs(initial_witness, inputs)?;
        proof {
            assert(forall|j: int|
                0 <= j < inputs@.len() ==> (#[trigger] scalars@[j])@
                    == initial_witness@[inputs@[j].witness]);
        }

        let (res_x, res_y) = match self.blackbox_vendor.encrypt(&scalars) {
            Ok(point) => point,
            Err(e) => {
                return Err(blackbox_err(BlackBoxFunc::Pedersen, e));
            },
        };
        write_point(initial_witness, outputs[0], res_x, outputs[1], res_y)?;
        Ok(OpcodeResolution::Solved)
    }

    /// Resolves a fixed-base scalar-multiplication opcode: reads a single
    /// scalar field element and writes the two coordinates of the
    /// resulting curve point to the two designated output witnesses,
    /// atomically, only after the module call succeeded.
    pub fn fixed_base_scalar_mul(
        &mut self,
        initial_witness: &mut WitnessMap,
        input: &FunctionInput,
        outputs: &Vec<Witness>,
    ) -> (r: Result<OpcodeResolution, OpcodeResolutionError>)
        requires
            old(initial_witness).wf(),
        ensures
            final(initial_witness).wf(),
            r is Err ==> final(initial_witness)@ == old(initial_witness)@,
            outputs@.len() < 2 ==> (r == Err::<OpcodeResolution, _>(
                OpcodeResolutionError::BlackBoxFunctionFailed {
                    func: BlackBoxFunc::FixedBaseScalarMul,
                    reason: BlackBoxReason::NotEnoughOutputs {
                        expected: 2,
                        found: outputs@.len() as usize,
                    },
                },
            ) && final(self).vendor_mem() == old(self).vendor_mem()),
            (outputs@.len() >= 2 && !old(initial_witness)@.contains_key(input.witness)) ==> (r
                matches Err(OpcodeResolutionError::OpcodeNotSolvable { .. })
                && final(self).vendor_mem() == old(self).vendor_mem()),
            r is Ok ==> (r == Ok::<_, OpcodeResolutionError>(OpcodeResolution::Solved)
                && outputs@.len() >= 2 && old(initial_witness)@.contains_key(input.witness) && (
            exists|xv: Seq<u8>, yv: Seq<u8>|
                xv.len() == FIELD_BYTES && yv.len() == FIELD_BYTES && final(initial_witness)@ == old(
                    initial_witness,
                )@.insert(outputs@[0], xv).insert(outputs@[1], yv))),
    {
        if outputs.len() < 2 {
            return Err(OpcodeResolutionError::BlackBoxFunctionFailed {
                func: BlackBoxFunc::FixedBaseScalarMul,
                reason: BlackBoxReason::NotEnoughOutputs { expected: 2, found: outputs.len() },
            });
        }
        let scalar = witness_to_value(initial_witness, input.witness)?;
        let scalar_owned = scalar.clone();

        let (pub_x, pub_y) = match self.blackbox_vendor.fixed_base(&scalar_owned) {
            Ok(point) => point,
            Err(e) => {
                return Err(blackbox_err(BlackBoxFunc::FixedBaseScalarMul, e));
            },
        };
        write_point(initial_witness, outputs[0], pub_x, outputs[1], pub_y)?;
        Ok(OpcodeResolution::Solved)
    }
}

/// Writes the two coordinates of a curve point to their output witnesses
/// atomically: either both are recorded, exactly and nothing else, or a
/// conflicting slot fails the whole write and the map is unchanged.
pub fn write_point(
    map: &mut WitnessMap,
    x_out: Witness,
    x_value: FieldElement,
    y_out: Witness,
    y_value: FieldElement,
) -> (r: Result<(), OpcodeResolutionError>)
    requires
        old(map).wf(),
    ensures
        final(map).wf(),
        r is Err ==> final(map)@ == old(map)@ && r == Err::<(), _>(
            OpcodeResolutionError::UnsatisfiedConstrain,
        ),
        r is Ok ==> final(map)@ == old(map)@.insert(x_out, x_value@).insert(y_out, y_value@),
{
    let x_fits = map.value_fits(x_out, &x_value);
    let y_fits = if x_out == y_out {
        y_value.eq_value(&x_value)
    } else {
        map.value_fits(y_out, &y_value)
    };
    if !(x_fits && y_fits) {
        return Err(OpcodeResolutionError::UnsatisfiedConstrain);
    }
    match insert_value(x_out, x_value, map) {
        Ok(()) => (),
        Err(_) => {
            proof {
                assert(false);
            }
        },
    }
    match insert_value(y_out, y_value, map) {
        Ok(()) => (),
        Err(_) => {
            proof {
                assert(false);
            }
        },
    }
    Ok(())
}

} // verus!
