use unity::cppvector::CppVector;
use unity::Il2CppError;

#[test]
fn new_buffer_is_empty_without_storage() {
    let v: CppVector<u32> = CppVector::new();
    assert_eq!(v.len(), 0);
    assert_eq!(v.capacity(), 0);
    assert!(v.as_slice().is_empty());
}

#[test]
fn default_buffer_is_empty_without_storage() {
    let v: CppVector<u8> = CppVector::default();
    assert_eq!(v.len(), 0);
    assert_eq!(v.capacity(), 0);
}

#[test]
fn marks_never_cross() {
    let mut v: CppVector<u64> = CppVector::with_capacity(3);
    assert_eq!(v.marks(), (0, 0, 3));
    v.push(1);
    v.push(2);
    assert_eq!(v.marks(), (0, 2, 3));
    v.push(3);
    v.push(4);
    assert_eq!(v.marks(), (0, 4, 6));
}

#[test]
fn with_capacity_reserves_slots() {
    let v: CppVector<u64> = CppVector::with_capacity(7);
    assert_eq!(v.len(), 0);
    assert_eq!(v.capacity(), 7);
}

#[test]
fn pushes_keep_order_and_count() {
    let mut v: CppVector<u32> = CppVector::new();
    let mut expected: Vec<u32> = Vec::new();
    for n in 0..100u32 {
        v.push(n * 3 + 1);
        expected.push(n * 3 + 1);
        assert_eq!(v.len(), expected.len());
        assert_eq!(v.as_slice(), expected.as_slice());
    }
}

#[test]
fn push_into_empty_takes_one_slot_then_doubles() {
    let mut v: CppVector<u8> = CppVector::new();
    let mut seen: Vec<usize> = Vec::new();
    for n in 0..9u8 {
        v.push(n);
        seen.push(v.capacity());
    }
    assert_eq!(seen, vec![1, 2, 4, 4, 8, 8, 8, 8, 16]);
}

#[test]
fn growth_keeps_the_elements_already_there() {
    let mut v: CppVector<u32> = CppVector::with_capacity(4);
    for n in [10u32, 20, 30, 40] {
        v.push(n);
    }
    assert_eq!(v.capacity(), 4);
    let before: Vec<u32> = v.as_slice().to_vec();
    v.push(50);
    assert_eq!(v.capacity(), 8);
    assert_eq!(&v.as_slice()[..4], before.as_slice());
    assert_eq!(v.as_slice(), &[10, 20, 30, 40, 50]);
}

#[test]
fn capacity_two_three_pushes() {
    let mut v: CppVector<u32> = CppVector::with_capacity(2);
    v.push(0xAAAA_0001);
    v.push(0xBBBB_0002);
    assert_eq!(v.capacity(), 2);
    v.push(0xCCCC_0003);
    assert_eq!(v.capacity(), 4);
    assert_eq!(v.len(), 3);
    let mut forward: Vec<u32> = Vec::new();
    let mut it = v.iter();
    while let Some(x) = it.next() {
        forward.push(*x);
    }
    assert_eq!(forward, vec![0xAAAA_0001, 0xBBBB_0002, 0xCCCC_0003]);
    let mut backward: Vec<u32> = Vec::new();
    let mut it = v.iter();
    while let Some(x) = it.next_back() {
        backward.push(*x);
    }
    assert_eq!(backward, vec![0xCCCC_0003, 0xBBBB_0002, 0xAAAA_0001]);
}

#[test]
fn iterator_from_both_ends_hands_out_each_element_once() {
    let v: CppVector<u8> = CppVector::from_slice(&[1, 2, 3, 4, 5]);
    let mut it = v.iter();
    assert_eq!(it.next(), Some(&1));
    assert_eq!(it.next_back(), Some(&5));
    assert_eq!(it.next_back(), Some(&4));
    assert_eq!(it.next(), Some(&2));
    assert_eq!(it.next(), Some(&3));
    assert_eq!(it.next(), None);
    assert_eq!(it.next_back(), None);
}

#[test]
fn iterator_over_empty_buffer() {
    let v: CppVector<u8> = CppVector::new();
    let mut it = v.iter();
    assert_eq!(it.next(), None);
    assert_eq!(it.next_back(), None);
}

#[test]
fn reserve_grows_once() {
    let mut v: CppVector<u16> = CppVector::new();
    v.reserve(0);
    assert_eq!(v.capacity(), 0);
    v.reserve(5);
    assert_eq!(v.capacity(), 5);
    v.push(1);
    v.reserve(4);
    assert_eq!(v.capacity(), 5);
    v.reserve(5);
    assert_eq!(v.capacity(), 10);
    v.reserve(100);
    assert_eq!(v.capacity(), 20);
    assert_eq!(v.as_slice(), &[1]);
}

#[test]
fn extend_from_slice_grows_until_it_fits() {
    let mut v: CppVector<u8> = CppVector::with_capacity(2);
    v.push(9);
    v.extend_from_slice(&[1, 2, 3, 4, 5, 6]);
    assert_eq!(v.as_slice(), &[9, 1, 2, 3, 4, 5, 6]);
    assert_eq!(v.capacity(), 8);
    v.extend_from_slice(&[]);
    assert_eq!(v.capacity(), 8);
    assert_eq!(v.len(), 7);
}

#[test]
fn extend_from_slice_into_buffer_without_storage() {
    let mut v: CppVector<u32> = CppVector::new();
    v.extend_from_slice(&[7, 8, 9]);
    assert_eq!(v.as_slice(), &[7, 8, 9]);
    assert_eq!(v.capacity(), 3);
}

#[test]
fn from_slice_has_no_free_slot() {
    let v: CppVector<u32> = CppVector::from_slice(&[4, 5, 6]);
    assert_eq!(v.as_slice(), &[4, 5, 6]);
    assert_eq!(v.len(), 3);
    assert_eq!(v.capacity(), 3);
}

#[test]
fn clone_from_slice_clones_each_element() {
    let words = vec![String::from("a"), String::from("bc")];
    let v: CppVector<String> = CppVector::clone_from_slice(&words);
    assert_eq!(v.as_slice(), words.as_slice());
    assert_eq!(v.capacity(), 2);
}

#[test]
fn index_in_and_out_of_bounds() {
    let v: CppVector<u32> = CppVector::from_slice(&[4, 5, 6]);
    assert_eq!(v.index(0).unwrap(), &4);
    assert_eq!(v.index(1).unwrap(), &5);
    assert_eq!(v.index(2).unwrap(), &6);
    assert!(matches!(v.index(3), Err(Il2CppError::OutOfBounds)));
    assert!(matches!(v.index(usize::MAX), Err(Il2CppError::OutOfBounds)));
    assert_eq!(v.as_slice(), &[4, 5, 6]);
    let empty: CppVector<u32> = CppVector::new();
    assert!(matches!(empty.index(0), Err(Il2CppError::OutOfBounds)));
}

#[test]
fn index_mut_changes_one_element_in_place() {
    let mut v: CppVector<u32> = CppVector::from_slice(&[4, 5, 6]);
    *v.index_mut(1).unwrap() = 50;
    assert_eq!(v.as_slice(), &[4, 50, 6]);
    *v.index_mut(0).unwrap() += 1;
    assert_eq!(v.as_slice(), &[5, 50, 6]);
    assert!(matches!(v.index_mut(3), Err(Il2CppError::OutOfBounds)));
    assert_eq!(v.as_slice(), &[5, 50, 6]);
    assert_eq!(v.capacity(), 3);
    assert_eq!(v.len(), 3);
}

#[test]
fn iter_mut_changes_every_element_in_place() {
    let mut v: CppVector<u32> = CppVector::with_capacity(8);
    v.extend_from_slice(&[1, 2, 3, 4]);
    let mut it = v.iter_mut();
    while let Some(x) = it.next() {
        *x *= 10;
    }
    assert_eq!(v.as_slice(), &[10, 20, 30, 40]);
    assert_eq!(v.capacity(), 8);
    let mut it = v.iter_mut();
    let mut seen: Vec<u32> = Vec::new();
    while let Some(x) = it.next_back() {
        seen.push(*x);
        *x += 1;
    }
    assert_eq!(seen, vec![40, 30, 20, 10]);
    assert_eq!(v.as_slice(), &[11, 21, 31, 41]);
}

#[test]
fn iter_mut_from_both_ends_hands_out_each_element_once() {
    let mut v: CppVector<u8> = CppVector::from_slice(&[1, 2, 3, 4, 5]);
    let mut it = v.iter_mut();
    *it.next().unwrap() = 10;
    *it.next_back().unwrap() = 50;
    *it.next_back().unwrap() = 40;
    *it.next().unwrap() = 20;
    *it.next().unwrap() = 30;
    assert!(it.next().is_none());
    assert!(it.next_back().is_none());
    assert_eq!(v.as_slice(), &[10, 20, 30, 40, 50]);
    let mut empty: CppVector<u8> = CppVector::new();
    let mut it = empty.iter_mut();
    assert!(it.next().is_none());
    assert!(it.next_back().is_none());
}

#[test]
fn range_in_and_out_of_bounds() {
    let v: CppVector<u32> = CppVector::from_slice(&[4, 5, 6, 7]);
    assert_eq!(v.range(1, 3).unwrap(), &[5, 6]);
    assert_eq!(v.range(0, 4).unwrap(), &[4, 5, 6, 7]);
    assert!(v.range(2, 2).unwrap().is_empty());
    assert!(matches!(v.range(3, 5), Err(Il2CppError::OutOfBounds)));
    assert!(matches!(v.range(3, 2), Err(Il2CppError::OutOfBounds)));
}
