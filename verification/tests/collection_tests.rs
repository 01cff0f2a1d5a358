use std::collections::{BTreeMap, BTreeSet, HashMap, HashSet, VecDeque};

use catalyser::collection::{
    NonEmptyBTreeMap, NonEmptyBTreeSet, NonEmptyHashMap, NonEmptyHashSet, NonEmptyVec,
    NonEmptyVecDeque,
};
use catalyser::errors::SequenceContentError;

#[test]
fn test_nonempty_collection_new() {
    let data_vec = Vec::from([1, 2, 3]);

    let btree_set: BTreeSet<i32> = data_vec.clone().into_iter().collect();
    let nonempty_btree_set = <NonEmptyBTreeSet<i32>>::new(btree_set.clone());
    assert!(nonempty_btree_set.is_ok());
    let empty_btree_set: BTreeSet<i32> = BTreeSet::new();
    let nonempty_btree_set = <NonEmptyBTreeSet<i32>>::new(empty_btree_set);
    assert!(nonempty_btree_set.is_err());

    let hash_set: HashSet<i32> = data_vec.clone().into_iter().collect();
    let nonempty_hash_set = <NonEmptyHashSet<i32>>::new(hash_set.clone());
    assert!(nonempty_hash_set.is_ok());
    let empty_hash_set: HashSet<i32> = HashSet::new();
    let nonempty_hash_set = <NonEmptyHashSet<i32>>::new(empty_hash_set);
    assert!(nonempty_hash_set.is_err());

    let vec: Vec<i32> = data_vec.clone();
    let nonempty_vec = <NonEmptyVec<i32>>::new(vec.clone());
    assert!(nonempty_vec.is_ok());
    let empty_vec: Vec<i32> = Vec::new();
    let nonempty_vec = <NonEmptyVec<i32>>::new(empty_vec);
    assert!(nonempty_vec.is_err());

    let vec_deque: VecDeque<i32> = data_vec.clone().into_iter().collect();
    let nonempty_vec_deque = <NonEmptyVecDeque<i32>>::new(vec_deque.clone());
    assert!(nonempty_vec_deque.is_ok());
    let empty_vec_deque: VecDeque<i32> = VecDeque::new();
    let nonempty_vec_deque = <NonEmptyVecDeque<i32>>::new(empty_vec_deque);
    assert!(nonempty_vec_deque.is_err());

    let data_map = HashMap::from([(1, 2), (3, 4), (5, 6)]);

    let btree_map: BTreeMap<i32, i32> = data_map.clone().into_iter().collect();
    let nonempty_btree_map = <NonEmptyBTreeMap<i32, i32>>::new(btree_map.clone());
    assert!(nonempty_btree_map.is_ok());
    let empty_btree_map: BTreeMap<i32, i32> = BTreeMap::new();
    let nonempty_btree_map = <NonEmptyBTreeMap<i32, i32>>::new(empty_btree_map);
    assert!(nonempty_btree_map.is_err());

    let hash_map: HashMap<i32, i32> = data_map.clone();
    let nonempty_hash_map = <NonEmptyHashMap<i32, i32>>::new(hash_map.clone());
    assert!(nonempty_hash_map.is_ok());
    let empty_hash_map: HashMap<i32, i32> = HashMap::new();
    let nonempty_hash_map = <NonEmptyHashMap<i32, i32>>::new(empty_hash_map);
    assert!(nonempty_hash_map.is_err());
}

#[test]
fn test_nonempty_collection_new_unchecked() {
    let data_vec = Vec::from([1, 2, 3]);

    let btree_set: BTreeSet<i32> = data_vec.clone().into_iter().collect();
    let nonempty_btree_set = <NonEmptyBTreeSet<i32>>::new_unchecked(btree_set.clone());
    assert_eq!(nonempty_btree_set.into_inner(), btree_set);

    let hash_set: HashSet<i32> = data_vec.clone().into_iter().collect();
    let nonempty_hash_set = <NonEmptyHashSet<i32>>::new_unchecked(hash_set.clone());
    assert_eq!(nonempty_hash_set.into_inner(), hash_set);

    let vec: Vec<i32> = data_vec.clone();
    let nonempty_vec = <NonEmptyVec<i32>>::new_unchecked(vec.clone());
    assert_eq!(nonempty_vec.into_inner(), vec);

    let vec_deque: VecDeque<i32> = data_vec.clone().into_iter().collect();
    let nonempty_vec_deque = <NonEmptyVecDeque<i32>>::new_unchecked(vec_deque.clone());
    assert_eq!(nonempty_vec_deque.into_inner(), vec_deque);

    let data_map = HashMap::from([(1, 2), (3, 4), (5, 6)]);

    let btree_map: BTreeMap<i32, i32> = data_map.clone().into_iter().collect();
    let nonempty_btree_map = <NonEmptyBTreeMap<i32, i32>>::new_unchecked(btree_map.clone());
    assert_eq!(nonempty_btree_map.into_inner(), btree_map);

    let hash_map: HashMap<i32, i32> = data_map.clone();
    let nonempty_hash_map = <NonEmptyHashMap<i32, i32>>::new_unchecked(hash_map.clone());
    assert_eq!(nonempty_hash_map.into_inner(), hash_map);
}

#[test]
fn test_nonempty_collection_single_element() {
    assert!(<NonEmptyVec<i32>>::new(vec![7]).is_ok());
    assert!(<NonEmptyVecDeque<i32>>::new(VecDeque::from([7])).is_ok());
    assert!(<NonEmptyHashSet<i32>>::new(HashSet::from([7])).is_ok());
    assert!(<NonEmptyBTreeSet<i32>>::new(BTreeSet::from([7])).is_ok());
    assert!(<NonEmptyHashMap<i32, i32>>::new(HashMap::from([(7, 8)])).is_ok());
    assert!(<NonEmptyBTreeMap<i32, i32>>::new(BTreeMap::from([(7, 8)])).is_ok());
}

#[test]
fn test_nonempty_collection_empty_error_value() {
    let failed = <NonEmptyVec<i32>>::new(Vec::new()).unwrap_err();
    assert_eq!(failed, SequenceContentError::Empty);
    assert_eq!(failed.message(), "sequence is empty");
}

#[test]
fn test_nonempty_collection_preserves_order() {
    // The wrapper stores the container as given: same elements, same
    // order where order is meaningful.
    let input = vec![3, 1, 2, 1];
    let wrapped = <NonEmptyVec<i32>>::new(input.clone()).unwrap();
    assert_eq!(wrapped.into_inner(), input);

    let deque: VecDeque<i32> = VecDeque::from([9, 8, 7]);
    let wrapped_deque = <NonEmptyVecDeque<i32>>::new(deque.clone()).unwrap();
    assert_eq!(wrapped_deque.into_inner(), deque);
}

#[test]
fn test_nonempty_collection_unchecked_invalid_value() {
    // The escape hatch never fails, even for an empty container.
    let invalid = <NonEmptyVec<i32>>::new_unchecked(Vec::new());
    assert_eq!(invalid.into_inner(), Vec::<i32>::new());
}

#[test]
fn test_nonempty_collection_value_round_trip() {
    // The external representation of the wrapper is the container
    // itself; rebuilding from it restores an equal wrapper, and an
    // empty representation cannot re-enter.
    let original = <NonEmptyVec<i32>>::new(Vec::from([1, 2, 3])).unwrap();
    let serialized = original.clone().into_inner();
    assert_eq!(serialized, vec![1, 2, 3]);
    let restored = <NonEmptyVec<i32>>::new(serialized).unwrap();
    assert_eq!(restored, original);

    assert!(<NonEmptyVec<i32>>::new(Vec::new()).is_err());
}
