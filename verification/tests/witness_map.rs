use acvm_simulator::errors::OpcodeResolutionError;
use acvm_simulator::field::FieldElement;
use acvm_simulator::witness::{insert_value, witness_to_value, Witness, WitnessMap};

fn fe(low: u8) -> FieldElement {
    let mut bytes = vec![0u8; 31];
    bytes.push(low);
    FieldElement::from_be_bytes(&bytes).unwrap()
}

#[test]
fn witness_insert_and_get() {
    let mut map = WitnessMap::new();
    assert_eq!(map.len(), 0);
    insert_value(Witness(1), fe(7), &mut map).unwrap();
    insert_value(Witness(2), fe(9), &mut map).unwrap();
    assert_eq!(map.len(), 2);
    assert!(map.get(Witness(1)).unwrap().eq_value(&fe(7)));
    assert!(map.get(Witness(2)).unwrap().eq_value(&fe(9)));
    assert!(map.get(Witness(3)).is_none());
}

#[test]
fn witness_reinsert_same_value_is_ok() {
    let mut map = WitnessMap::new();
    insert_value(Witness(4), fe(1), &mut map).unwrap();
    insert_value(Witness(4), fe(1), &mut map).unwrap();
    assert_eq!(map.len(), 1);
}

#[test]
fn witness_reinsert_differing_value_is_refused() {
    let mut map = WitnessMap::new();
    insert_value(Witness(4), fe(1), &mut map).unwrap();
    let err = insert_value(Witness(4), fe(2), &mut map).unwrap_err();
    assert_eq!(err, OpcodeResolutionError::UnsatisfiedConstrain);
    assert!(map.get(Witness(4)).unwrap().eq_value(&fe(1)));
}

#[test]
fn witness_missing_index_is_reported() {
    let map = WitnessMap::new();
    let err = witness_to_value(&map, Witness(12)).unwrap_err();
    assert_eq!(err, OpcodeResolutionError::OpcodeNotSolvable { missing_assignment: 12 });
}

#[test]
fn witness_entries_list_the_assignment() {
    let mut map = WitnessMap::new();
    insert_value(Witness(5), fe(50), &mut map).unwrap();
    insert_value(Witness(6), fe(60), &mut map).unwrap();
    let entries = map.entries();
    assert_eq!(entries.len(), 2);
    assert_eq!(entries[0].0, Witness(5));
    assert!(entries[0].1.eq_value(&fe(50)));
    assert_eq!(entries[1].0, Witness(6));
    assert!(entries[1].1.eq_value(&fe(60)));
}
