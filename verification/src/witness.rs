//! The witness map: an assignment of field elements to witness indices,
//! with unique keys, growing monotonically while the circuit is solved.

use vstd::prelude::*;

use crate::errors::OpcodeResolutionError;
use crate::field::FieldElement;

verus! {

/// The index of one variable of the circuit.
#[derive(Debug, Clone, Copy, PartialEq, Eq, Structural)]
pub struct Witness(pub u32);

/// The partial (or, once solving ends, complete) assignment of field
/// elements to witness indices. Keys are unique; an index, once present,
/// is never overwritten with a differing value.
pub struct WitnessMap {
    entries: Vec<(Witness, FieldElement)>,
}

/// The mapping a prefix of the entry list stands for.
pub closed spec fn map_of(s: Seq<(Witness, FieldElement)>) -> Map<Witness, Seq<u8>>
    decreases s.len(),
{
    if s.len() == 0 {
        Map::empty()
    } else {
        map_of(s.drop_last()).insert(s.last().0, s.last().1@)
    }
}

proof fn lemma_map_of_contains(s: Seq<(Witness, FieldElement)>, w: Witness)
    ensures
        map_of(s).contains_key(w) <==> exists|i: int| 0 <= i < s.len() && s[i].0 == w,
    decreases s.len(),
{
    if s.len() > 0 {
        lemma_map_of_contains(s.drop_last(), w);
        if map_of(s).contains_key(w) {
            if s.last().0 == w {
                assert(s[s.len() - 1].0 == w);
            } else {
                let i = choose|i: int| 0 <= i < s.drop_last().len() && s.drop_last()[i].0 == w;
                assert(s[i].0 == w);
            }
        }
        if exists|i: int| 0 <= i < s.len() && s[i].0 == w {
            let i = choose|i: int| 0 <= i < s.len() && s[i].0 == w;
            if i < s.len() - 1 {
                assert(s.drop_last()[i].0 == w);
            }
        }
    }
}

proof fn lemma_map_of_index(s: Seq<(Witness, FieldElement)>, i: int)
    requires
        0 <= i < s.len(),
        forall|j: int, k: int| 0 <= j < k < s.len() ==> s[j].0 != s[k].0,
    ensures
        map_of(s).contains_key(s[i].0),
        map_of(s)[s[i].0] == s[i].1@,
    decreases s.len(),
{
    lemma_map_of_contains(s, s[i].0);
    if i < s.len() - 1 {
        assert(s.last().0 != s[i].0);
        assert(s.drop_last()[i] == s[i]);
        lemma_map_of_index(s.drop_last(), i);
    }
}

impl View for WitnessMap {
    type V = Map<Witness, Seq<u8>>;

    closed spec fn view(&self) -> Map<Witness, Seq<u8>> {
        map_of(self.entries@)
    }
}

impl WitnessMap {
    /// Well-formedness: no witness index occurs twice in the entry list.
    /// Every constructor establishes it and every operation preserves it.
    pub closed spec fn wf(self) -> bool {
        forall|j: int, k: int|
            0 <= j < k < self.entries@.len() ==> self.entries@[j].0 != self.entries@[k].0
    }

    /// An empty assignment.
    pub fn new() -> (r: WitnessMap)
        ensures
            r@ == Map::<Witness, Seq<u8>>::empty(),
            r.wf(),
    {
        WitnessMap { entries: Vec::new() }
    }

    /// Looks a witness index up.
    pub fn get(&self, witness: Witness) -> (r: Option<&FieldElement>)
        requires
            self.wf(),
        ensures
            match r {
                Some(fe) => self@.contains_key(witness) && fe@ == self@[witness],
                None => !self@.contains_key(witness),
            },
    {
        proof {
            lemma_map_of_contains(self.entries@, witness);
        }
        let n = self.entries.len();
        let mut i: usize = 0;
        while i < n
            invariant
                n == self.entries@.len(),
                0 <= i <= n,
                forall|j: int| 0 <= j < i ==> self.entries@[j].0 != witness,
                forall|j: int, k: int| 0 <= j < k < n ==> self.entries@[j].0 != self.entries@[k].0,
            decreases n - i,
        {
            if self.entries[i].0 == witness {
                proof {
                    lemma_map_of_index(self.entries@, i as int);
                }
                return Some(&self.entries[i].1);
            }
            i += 1;
        }
        None
    }

    /// Whether a value can be recorded for an index without violating the
    /// no-overwrite rule: the index is absent, or already holds this very
    /// value.
    pub fn value_fits(&self, witness: Witness, value: &FieldElement) -> (r: bool)
        requires
            self.wf(),
        ensures
            r <==> (!self@.contains_key(witness) || self@[witness] == value@),
    {
        match self.get(witness) {
            Some(existing) => existing.eq_value(value),
            None => true,
        }
    }

    /// The number of indices assigned so far.
    pub fn len(&self) -> (r: usize)
        requires
            self.wf(),
        ensures
            r == self@.dom().len(),
    {
        proof {
            lemma_map_of_len(self.entries@);
        }
        self.entries.len()
    }

    /// The recorded entries, each index paired with its value.
    pub fn entries(&self) -> (r: &Vec<(Witness, FieldElement)>)
        requires
            self.wf(),
        ensures
            forall|i: int|
                0 <= i < r@.len()
                    ==> self@.contains_key(#[trigger] r@[i].0) && self@[r@[i].0] == r@[i].1@,
            r@.len() == self@.dom().len(),
    {
        proof {
            lemma_map_of_len(self.entries@);
            assert forall|i: int| 0 <= i < self.entries@.len() implies self@.contains_key(
                #[trigger] self.entries@[i].0,
            ) && self@[self.entries@[i].0] == self.entries@[i].1@ by {
                lemma_map_of_index(self.entries@, i);
            }
        }
        &self.entries
    }
}

proof fn lemma_map_of_len(s: Seq<(Witness, FieldElement)>)
    requires
        forall|j: int, k: int| 0 <= j < k < s.len() ==> s[j].0 != s[k].0,
    ensures
        map_of(s).dom().finite(),
        map_of(s).dom().len() == s.len(),
    decreases s.len(),
{
    if s.len() > 0 {
        lemma_map_of_len(s.drop_last());
        lemma_map_of_contains(s.drop_last(), s.last().0);
        assert(!map_of(s.drop_last()).contains_key(s.last().0));
    }
}

/// Resolves a witness index to its value, failing with the missing index
/// if it is absent from the map.
pub fn witness_to_value(map: &WitnessMap, witness: Witness) -> (r: Result<
    &FieldElement,
    OpcodeResolutionError,
>)
    requires
        map.wf(),
    ensures
        match r {
            Ok(fe) => map@.contains_key(witness) && fe@ == map@[witness],
            Err(e) => !map@.contains_key(witness) && e
                == (OpcodeResolutionError::OpcodeNotSolvable { missing_assignment: witness.0 }),
        },
{
    match map.get(witness) {
        Some(fe) => Ok(fe),
        None => Err(OpcodeResolutionError::OpcodeNotSolvable { missing_assignment: witness.0 }),
    }
}

/// Records a value for a witness index. Re-insertion of an index already
/// present succeeds only with the value already recorded; a differing value
/// is an unsatisfied constraint and leaves the map unchanged.
pub fn insert_value(witness: Witness, value: FieldElement, map: &mut WitnessMap) -> (r: Result<
    (),
    OpcodeResolutionError,
>)
    requires
        old(map).wf(),
    ensures
        final(map).wf(),
        r is Ok <==> (!old(map)@.contains_key(witness) || old(map)@[witness] == value@),
        r is Ok ==> final(map)@ == old(map)@.insert(witness, value@),
        r is Err ==> final(map)@ == old(map)@ && r == Err::<(), _>(
            OpcodeResolutionError::UnsatisfiedConstrain,
        ),
{
    proof {
        lemma_map_of_contains(map.entries@, witness);
    }
    match map.get(witness) {
        Some(existing) => {
            if existing.eq_value(&value) {
                proof {
                    assert(old(map)@.insert(witness, value@) =~= old(map)@);
                }
                Ok(())
            } else {
                Err(OpcodeResolutionError::UnsatisfiedConstrain)
            }
        },
        None => {
            let ghost prev = map.entries@;
            map.entries.push((witness, value));
            proof {
                assert(map.entries@.drop_last() =~= prev);
                assert(final(map)@ == old(map)@.insert(witness, value@));
            }
            Ok(())
        },
    }
}

} // verus!
