//! Field elements in their canonical fixed-width byte representation.

use vstd::prelude::*;

verus! {

/// The number of bytes necessary to store a `FieldElement`.
pub const FIELD_BYTES: usize = 32;

/// The canonical representation of the field value zero.
pub open spec fn zero_bytes() -> Seq<u8> {
    Seq::new(FIELD_BYTES as nat, |i: int| 0u8)
}

/// The canonical representation of a boolean recorded as a field element:
/// all bytes zero but for the lowest, which is 1 for true and 0 for false.
pub open spec fn bit_bytes(b: bool) -> Seq<u8> {
    Seq::new(FIELD_BYTES as nat, |i: int| if i == FIELD_BYTES - 1 && b { 1u8 } else { 0u8 })
}

/// A value of the proving system's finite field, held as its canonical
/// 32-byte big-endian representation. Immutable once created.
#[derive(Debug, PartialEq, Eq)]
pub struct FieldElement {
    bytes: Vec<u8>,
}

impl View for FieldElement {
    type V = Seq<u8>;

    closed spec fn view(&self) -> Seq<u8> {
        self.bytes@
    }
}

impl FieldElement {
    #[verifier::type_invariant]
    closed spec fn type_inv(self) -> bool {
        self.bytes@.len() == FIELD_BYTES
    }

    /// Parses a canonical 32-byte big-endian representation; any other
    /// length is rejected.
    pub fn from_be_bytes(bytes: &Vec<u8>) -> (r: Option<FieldElement>)
        ensures
            match r {
                Some(fe) => bytes@.len() == FIELD_BYTES && fe@ == bytes@,
                None => bytes@.len() != FIELD_BYTES,
            },
    {
        if bytes.len() == FIELD_BYTES {
            Some(FieldElement { bytes: bytes.clone() })
        } else {
            None
        }
    }

    /// Returns the canonical 32-byte big-endian representation.
    pub fn to_be_bytes(&self) -> (r: Vec<u8>)
        ensures
            r@ == self@,
            r@.len() == FIELD_BYTES,
    {
        proof {
            use_type_invariant(self);
        }
        self.bytes.clone()
    }

    /// The field value zero.
    pub fn zero() -> (r: FieldElement)
        ensures
            r@ == zero_bytes(),
    {
        let mut bytes: Vec<u8> = Vec::new();
        while bytes.len() < FIELD_BYTES
            invariant
                bytes@.len() <= FIELD_BYTES,
                forall|i: int| 0 <= i < bytes@.len() ==> bytes@[i] == 0u8,
            decreases FIELD_BYTES - bytes@.len(),
        {
            bytes.push(0u8);
        }
        let r = FieldElement { bytes };
        proof {
            assert(r@ =~= zero_bytes());
        }
        r
    }

    /// A boolean recorded as a field element: 1 for true, 0 for false.
    pub fn from_bool(b: bool) -> (r: FieldElement)
        ensures
            r@ == bit_bytes(b),
    {
        let mut bytes: Vec<u8> = Vec::new();
        while bytes.len() < FIELD_BYTES - 1
            invariant
                bytes@.len() <= FIELD_BYTES - 1,
                forall|i: int| 0 <= i < bytes@.len() ==> bytes@[i] == 0u8,
            decreases FIELD_BYTES - bytes@.len(),
        {
            bytes.push(0u8);
        }
        bytes.push(if b { 1u8 } else { 0u8 });
        let r = FieldElement { bytes };
        proof {
            assert(r@ =~= bit_bytes(b));
        }
        r
    }

    /// The field value one.
    pub fn one() -> (r: FieldElement)
        ensures
            r@ == bit_bytes(true),
    {
        FieldElement::from_bool(true)
    }

    /// The low byte of the canonical representation: the last byte of the
    /// big-endian form.
    pub fn low_byte(&self) -> (r: u8)
        ensures
            r == self@[FIELD_BYTES - 1],
    {
        proof {
            use_type_invariant(self);
        }
        self.bytes[FIELD_BYTES - 1]
    }

    /// Byte-for-byte equality of the canonical representations, which is
    /// equality of the field values they stand for.
    pub fn eq_value(&self, other: &FieldElement) -> (r: bool)
        ensures
            r <==> self@ == other@,
    {
        proof {
            use_type_invariant(self);
            use_type_invariant(other);
        }
        let mut i: usize = 0;
        while i < FIELD_BYTES
            invariant
                0 <= i <= FIELD_BYTES,
                self@.len() == FIELD_BYTES,
                other@.len() == FIELD_BYTES,
                forall|j: int| 0 <= j < i ==> self@[j] == other@[j],
            decreases FIELD_BYTES - i,
        {
            if self.bytes[i] != other.bytes[i] {
                return false;
            }
            i += 1;
        }
        proof {
            assert(self@ =~= other@);
        }
        true
    }
}

impl Clone for FieldElement {
    /// A clone carries the same canonical representation.
    fn clone(&self) -> (r: Self)
        ensures
            r@ == self@,
    {
        proof {
            use_type_invariant(self);
        }
        FieldElement { bytes: self.bytes.clone() }
    }
}

/// Round-trip law: converting a field element to bytes and parsing the bytes
/// back yields an element with the same value, and parsing a well-formed
/// 32-byte representation and converting back yields the same bytes. Both
/// conversions are exactly the identity on the canonical representation, as
/// the contracts of `to_be_bytes` and `from_be_bytes` state.
pub proof fn lemma_field_bytes_round_trip(x: FieldElement, encoded: Seq<u8>, reparsed: FieldElement)
    requires
        encoded == x@,
        reparsed@ == encoded,
    ensures
        reparsed@ == x@,
{
}

} // verus!
