use generic_vec::error::FullError;
use generic_vec::traits::{Container, DefaultContainer, Length, Slot, UninitSlot};
use generic_vec::{uninit_write_slice_cloned, GenericVec, IntoIter, StaticVec};
use std::cmp::Ordering;

fn pushed<const N: usize>(k: usize) -> StaticVec<u32, N> {
    let mut v = StaticVec::<u32, N>::new();
    for i in 0..k {
        assert_eq!(v.push(10 + i as u32), Ok(()));
    }
    v
}

fn check_pushes<const N: usize>() {
    for k in 0..=N {
        let v = pushed::<N>(k);
        assert_eq!(v.capacity(), N);
        assert_eq!(v.len(), k);
        assert_eq!(v.remaining(), N - k);
        assert_eq!(v.is_full(), k == N);
        assert_eq!(v.is_empty(), k == 0);
        let items = v.as_slice();
        assert_eq!(items.len(), k);
        for i in 0..k {
            assert_eq!(*items[i], 10 + i as u32);
        }
    }
}

#[test]
fn pushes_keep_count_and_order() {
    check_pushes::<0>();
    check_pushes::<1>();
    check_pushes::<2>();
    check_pushes::<5>();
    check_pushes::<17>();
}

#[test]
fn push_into_full_returns_value() {
    let mut v = pushed::<3>(3);
    assert_eq!(v.push(99), Err(99));
    assert_eq!(v.len(), 3);
    assert_eq!(v.as_slice(), vec![&10, &11, &12]);
    let mut none = StaticVec::<u32, 0>::new();
    assert_eq!(none.push(1), Err(1));
    assert_eq!(none.len(), 0);
}

#[test]
fn pop_returns_last_pushed() {
    let mut v = StaticVec::<u32, 3>::new();
    assert_eq!(v.pop(), None);
    assert_eq!(v.len(), 0);
    assert_eq!(v.push(7), Ok(()));
    assert_eq!(v.push(8), Ok(()));
    assert_eq!(v.pop(), Some(8));
    assert_eq!(v.len(), 1);
    assert_eq!(v.as_slice(), vec![&7]);
    assert_eq!(v.pop(), Some(7));
    assert_eq!(v.pop(), None);
    assert_eq!(v.len(), 0);
}

#[test]
fn unchecked_push_and_pop() {
    let mut v = StaticVec::<u32, 2>::new();
    v.push_unchecked(1);
    v.push_unchecked(2);
    assert!(v.is_full());
    assert_eq!(v.pop_unchecked(), 2);
    assert_eq!(v.pop_unchecked(), 1);
    assert!(v.is_empty());
}

#[test]
fn remove_keeps_order() {
    let mut v = StaticVec::<u32, 5>::from_array([1, 2, 3, 4, 5]);
    assert_eq!(v.remove(1), 2);
    assert_eq!(v.as_slice(), vec![&1, &3, &4, &5]);
    assert_eq!(v.remove(3), 5);
    assert_eq!(v.as_slice(), vec![&1, &3, &4]);
    assert_eq!(v.remove(0), 1);
    assert_eq!(v.as_slice(), vec![&3, &4]);
    assert_eq!(v.len(), 2);
    assert_eq!(v.capacity(), 5);
    assert_eq!(v.push(9), Ok(()));
    assert_eq!(v.as_slice(), vec![&3, &4, &9]);
}

#[test]
fn swap_remove_moves_last() {
    let mut v = StaticVec::<u32, 5>::from_array([1, 2, 3, 4, 5]);
    assert_eq!(v.swap_remove(1), 2);
    assert_eq!(v.as_slice(), vec![&1, &5, &3, &4]);
    assert_eq!(v.swap_remove(3), 4);
    assert_eq!(v.as_slice(), vec![&1, &5, &3]);
    assert_eq!(v.swap_remove(0), 1);
    assert_eq!(v.as_slice(), vec![&3, &5]);
    assert_eq!(v.swap_remove(1), 5);
    assert_eq!(v.swap_remove(0), 3);
    assert!(v.is_empty());
}

#[test]
fn scenario_of_four() {
    let mut v = StaticVec::<i32, 4>::new();
    for i in 0..4 {
        assert_eq!(v.push(i), Ok(()));
    }
    assert!(v.is_full());
    assert_eq!(v.push(4), Err(4));
    assert_eq!(v.len(), 4);
    assert_eq!(v.as_slice(), vec![&0, &1, &2, &3]);
    assert_eq!(v.pop(), Some(3));
    assert_eq!(v.len(), 3);
    assert_eq!(v.remove(0), 0);
    assert_eq!(v.as_slice(), vec![&1, &2]);
    assert_eq!(v.len(), 2);
}

#[test]
fn from_slice_round_trip() {
    let v = StaticVec::<String, 4>::from_slice(&["a".to_string(), "b".to_string()]);
    assert_eq!(v.as_slice(), vec!["a", "b"]);
    let v = StaticVec::<u8, 3>::from_slice(&[1, 2, 3]);
    assert_eq!(v.as_slice(), vec![&1, &2, &3]);
    let v = StaticVec::<u8, 3>::from_slice(&[1, 2, 3, 4, 5]);
    assert_eq!(v.as_slice(), vec![&1, &2, &3]);
    assert!(v.is_full());
    let v = StaticVec::<u8, 3>::from_slice(&[]);
    assert!(v.is_empty());
}

#[test]
fn try_from_slice_rejects_excess() {
    let v = StaticVec::<u8, 3>::try_from_slice(&[1, 2, 3]).ok().unwrap();
    assert_eq!(v.as_slice(), vec![&1, &2, &3]);
    assert!(StaticVec::<u8, 3>::try_from_slice(&[1, 2, 3, 4]).is_err());
    assert_eq!(StaticVec::<u8, 3>::try_from_slice(&[1, 2, 3, 4]).err(), Some(FullError));
}

#[test]
fn capacity_is_limited_by_length_type() {
    let v = GenericVec::<[Option<u8>; 300], u8>::new();
    assert_eq!(v.capacity(), 255);
    assert_eq!(v.remaining(), 255);
    let v = GenericVec::<[Option<u8>; 4], u8>::new();
    assert_eq!(v.capacity(), 4);
    let v = GenericVec::<[Option<u8>; 255], u8>::new();
    assert_eq!(v.capacity(), 255);
    let v = GenericVec::<[Option<u8>; 70000], u16>::new();
    assert_eq!(v.capacity(), 65535);
    let v = GenericVec::<[Option<u8>; 300], u32>::new();
    assert_eq!(v.capacity(), 300);
    let v = GenericVec::<[Option<u8>; 300], u64>::new();
    assert_eq!(v.capacity(), 300);
}

#[test]
fn narrow_length_fills_to_its_limit() {
    let mut v = GenericVec::<[u8; 300], u8>::new();
    for i in 0..255u32 {
        assert_eq!(v.push(i as u8), Ok(()));
    }
    assert!(v.is_full());
    assert_eq!(v.len(), 255);
    assert_eq!(v.push(1), Err(1));
    assert_eq!(v.extend_from_slice(&[1, 2, 3]), 0);
    assert_eq!(v.pop(), Some(254));
    assert_eq!(v.len(), 254);
}

#[test]
fn length_types() {
    assert_eq!(<u8 as Length>::zero(), 0);
    assert_eq!(<u8 as Length>::one(), 1);
    assert_eq!(<u8 as Length>::max_value(), 255);
    assert_eq!(<u16 as Length>::max_value(), 65535);
    assert_eq!(<u32 as Length>::max_value(), u32::MAX);
    assert_eq!(<u64 as Length>::max_value(), u64::MAX);
    assert_eq!(<usize as Length>::max_value(), usize::MAX);
    assert_eq!(<u8 as Length>::from_usize(255), Some(255));
    assert_eq!(<u8 as Length>::from_usize(256), None);
    assert_eq!(<u16 as Length>::from_usize(65535), Some(65535));
    assert_eq!(<u16 as Length>::from_usize(65536), None);
    assert_eq!(<u32 as Length>::from_usize(7), Some(7));
    assert_eq!(<u64 as Length>::from_usize(usize::MAX), Some(usize::MAX as u64));
    assert_eq!(<usize as Length>::from_usize(9), Some(9));
    assert_eq!(Length::to_usize(&200u8), Some(200));
    assert_eq!(Length::to_usize(&60000u16), Some(60000));
    assert_eq!(Length::to_usize(&7u32), Some(7));
    assert_eq!(Length::to_usize(&7u64), Some(7));
    assert_eq!(Length::to_usize(&7usize), Some(7));
    assert!(Length::is_zero(&0u16));
    assert!(!Length::is_zero(&3u16));
    assert_eq!(Length::plus(3u8, 4u8), 7);
    assert_eq!(Length::minus(9u32, 4u32), 5);
    assert_eq!(Length::plus(3u16, 4u16), 7);
    assert_eq!(Length::minus(9u64, 4u64), 5);
    assert_eq!(Length::plus(3usize, 4usize), 7);
    assert!(Length::less_than(&3u8, &4u8));
    assert!(!Length::less_than(&4u64, &4u64));
    assert!(!Length::less_than(&5usize, &4usize));
}

#[test]
fn slots() {
    let mut slot = <Option<String> as Slot>::new("x".to_string());
    assert_eq!(slot, Some("x".to_string()));
    assert_eq!(Slot::assume_init_ref(&slot), "x");
    Slot::assume_init_mut(&mut slot).push('y');
    assert_eq!(Slot::assume_init_read(&mut slot), "xy");
    assert_eq!(slot, None);
    assert_eq!(Slot::assume_init(Some(3)), 3);
    assert_eq!(<Option<u32> as UninitSlot>::uninit(), None);

    let mut byte = <u8 as Slot>::new(7);
    assert_eq!(byte, 7);
    assert_eq!(*Slot::assume_init_ref(&byte), 7);
    *Slot::assume_init_mut(&mut byte) = 8;
    assert_eq!(Slot::assume_init_read(&mut byte), 8);
    assert_eq!(Slot::assume_init(9u8), 9);
    assert_eq!(<u8 as UninitSlot>::uninit(), 0);
}

#[test]
fn containers() {
    let mut array = <[Option<u32>; 3] as DefaultContainer>::default();
    assert_eq!(array, [None, None, None]);
    assert_eq!(array.as_slots().len(), 3);
    array.as_mut_slots()[1] = Some(4);
    assert_eq!(array.as_slots(), &[None, Some(4), None]);
    let bytes = <[u8; 2] as DefaultContainer>::default();
    assert_eq!(bytes, [0, 0]);

    let mut store = [None, None];
    let mut borrowed: &mut [Option<u32>] = &mut store;
    assert_eq!(borrowed.as_slots().len(), 2);
    borrowed.as_mut_slots()[0] = Some(1);
    assert_eq!(store, [Some(1), None]);
}

#[test]
fn vector_over_borrowed_slice() {
    let mut store: [Option<u32>; 3] = [None, None, None];
    {
        let mut v = GenericVec::<&mut [Option<u32>], u8>::from_empty(&mut store[..]);
        assert_eq!(v.capacity(), 3);
        assert_eq!(v.push(1), Ok(()));
        assert_eq!(v.push(2), Ok(()));
        assert_eq!(v.push(3), Ok(()));
        assert_eq!(v.push(4), Err(4));
        assert_eq!(v.remove(1), 2);
        assert_eq!(v.as_slice(), vec![&1, &3]);
    }
    assert_eq!(store, [Some(1), Some(3), None]);
}

#[test]
fn truncate_and_clear() {
    let mut v = StaticVec::<u32, 5>::from_array([1, 2, 3, 4]);
    v.truncate(7);
    assert_eq!(v.as_slice(), vec![&1, &2, &3, &4]);
    v.truncate(4);
    assert_eq!(v.len(), 4);
    v.truncate(2);
    assert_eq!(v.as_slice(), vec![&1, &2]);
    assert_eq!(v.capacity(), 5);
    v.clear();
    assert!(v.is_empty());
    assert_eq!(v.data(), &[None, None, None, None, None]);
    v.truncate(0);
    assert!(v.is_empty());
}

#[test]
fn resize_fills_and_cuts() {
    let mut v = StaticVec::<u32, 5>::from_array([1, 2]);
    v.resize(4, 9);
    assert_eq!(v.as_slice(), vec![&1, &2, &9, &9]);
    v.resize(4, 0);
    assert_eq!(v.as_slice(), vec![&1, &2, &9, &9]);
    v.resize(1, 0);
    assert_eq!(v.as_slice(), vec![&1]);
    v.resize(5, 3);
    assert_eq!(v.as_slice(), vec![&1, &3, &3, &3, &3]);
    v.resize(0, 3);
    assert!(v.is_empty());
}

#[test]
fn extend_from_slice_caps() {
    let mut v = StaticVec::<u32, 4>::new();
    assert_eq!(v.extend_from_slice(&[]), 0);
    assert_eq!(v.extend_from_slice(&[1, 2, 3]), 3);
    assert_eq!(v.extend_from_slice(&[4, 5, 6]), 1);
    assert_eq!(v.as_slice(), vec![&1, &2, &3, &4]);
    assert_eq!(v.extend_from_slice(&[7]), 0);
    assert_eq!(v.as_slice(), vec![&1, &2, &3, &4]);
}

#[test]
fn push_slice_all_or_nothing() {
    let mut v = StaticVec::<u32, 4>::new();
    assert_eq!(v.push_slice(&[1, 2, 3]), Ok(()));
    assert_eq!(v.push_slice(&[4, 5]), Err(FullError));
    assert_eq!(v.as_slice(), vec![&1, &2, &3]);
    assert_eq!(v.push_slice(&[]), Ok(()));
    assert_eq!(v.push_slice(&[4]), Ok(()));
    assert_eq!(v.as_slice(), vec![&1, &2, &3, &4]);
    assert_eq!(v.push_slice(&[5]), Err(FullError));
    assert_eq!(v.push_slice(&[]), Ok(()));
}

#[test]
fn extend_from_iter_counts() {
    let mut v = StaticVec::<u32, 4>::new();
    assert_eq!(v.extend_from_iter(1..3), 2);
    assert_eq!(v.extend_from_iter(3..10), 2);
    assert_eq!(v.as_slice(), vec![&1, &2, &3, &4]);
    assert_eq!(v.extend_from_iter(0..10), 0);
    let mut v = StaticVec::<u32, 4>::new();
    v.extend_until_full(5..7);
    v.extend_until_full(7..20);
    assert_eq!(v.as_slice(), vec![&5, &6, &7, &8]);
}

#[test]
fn extend_asks_for_no_more_than_fits() {
    let mut v = StaticVec::<u32, 4>::from_array([0]);
    let mut source = 1..10;
    assert_eq!(v.extend_by_ref(&mut source), 3);
    assert_eq!(source.next(), Some(4));
    assert_eq!(v.as_slice(), vec![&0, &1, &2, &3]);
    assert_eq!(v.extend_by_ref(&mut source), 0);
    assert_eq!(source.next(), Some(5));
    let mut v = StaticVec::<u32, 4>::new();
    let mut short = 1..3;
    assert_eq!(v.extend_by_ref(&mut short), 2);
    assert_eq!(short.next(), None);
}

#[test]
fn try_extend_returns_first_excess() {
    let mut v = StaticVec::<u32, 4>::new();
    assert_eq!(v.try_extend(1..4), Ok(()));
    assert_eq!(v.try_extend(4..5), Ok(()));
    assert_eq!(v.try_extend(5..5), Ok(()));
    assert_eq!(v.try_extend(5..9), Err(5));
    assert_eq!(v.as_slice(), vec![&1, &2, &3, &4]);
    let mut v = StaticVec::<u32, 4>::from_array([0]);
    assert_eq!(v.try_extend(1..9), Err(4));
    assert_eq!(v.as_slice(), vec![&0, &1, &2, &3]);
}

#[test]
fn constructors_from_iterators() {
    let v = StaticVec::<u32, 3>::from_iter(1..10);
    assert_eq!(v.as_slice(), vec![&1, &2, &3]);
    let v = StaticVec::<u32, 3>::from_iter_until_full(1..3);
    assert_eq!(v.as_slice(), vec![&1, &2]);
    let v = StaticVec::<u32, 3>::from_iter_until_full(1..30);
    assert_eq!(v.as_slice(), vec![&1, &2, &3]);
    let v = StaticVec::<u32, 3>::try_from_iter(1..4).ok().unwrap();
    assert_eq!(v.as_slice(), vec![&1, &2, &3]);
    assert_eq!(StaticVec::<u32, 3>::try_from_iter(1..9).err(), Some(4));
    let v = StaticVec::<u32, 3>::default();
    assert!(v.is_empty());
    assert_eq!(v.capacity(), 3);
}

#[test]
fn fills() {
    let v = StaticVec::<String, 4>::fill(3, "ab".to_string());
    assert_eq!(v.as_slice(), vec!["ab", "ab", "ab"]);
    let v = StaticVec::<u32, 4>::fill(0, 1);
    assert!(v.is_empty());
    let v = StaticVec::<u32, 4>::fill_with(4, || 6);
    assert_eq!(v.as_slice(), vec![&6, &6, &6, &6]);
    let v = StaticVec::<u32, 4>::from_array([]);
    assert!(v.is_empty());
    let v = StaticVec::<u32, 4>::from_array([3, 1]);
    assert_eq!(v.as_slice(), vec![&3, &1]);
}

#[test]
fn clone_holds_clones() {
    let v = StaticVec::<String, 3>::from_array(["a".to_string(), "b".to_string()]);
    let w = v.clone();
    assert_eq!(w.as_slice(), vec!["a", "b"]);
    assert_eq!(v.as_slice(), vec!["a", "b"]);
    assert_eq!(w.capacity(), 3);
}

#[test]
fn raw_parts() {
    let v = StaticVec::<u32, 3>::from_array([5, 6]);
    let (data, len) = v.into_raw_parts();
    assert_eq!(data, [Some(5), Some(6), None]);
    assert_eq!(len, 2);
    let mut v = GenericVec::<[Option<u32>; 3], usize>::from_raw_parts(data, len);
    assert_eq!(v.as_slice(), vec![&5, &6]);
    assert_eq!(v.data(), &[Some(5), Some(6), None]);
    v.data_mut()[1] = Some(7);
    assert_eq!(v.as_slice(), vec![&5, &7]);
    let v = GenericVec::<[u8; 3], u16>::from_raw_parts([1, 2, 3], 2);
    assert_eq!(v.as_slice(), vec![&1, &2]);
    assert_eq!(v.into_raw_parts(), ([1, 2, 3], 2));
}

#[test]
fn free_space() {
    let mut v = StaticVec::<u32, 4>::from_array([5]);
    assert_eq!(v.free_space_as_slice(), &[None, None, None]);
    assert_eq!(v.free_space_as_mut_slice().len(), 3);
    assert_eq!(v.push(6), Ok(()));
    assert_eq!(v.free_space_as_slice().len(), 2);
    let mut v = GenericVec::<[Option<u8>; 300], u8>::new();
    assert_eq!(v.free_space_as_slice().len(), 255);
    assert_eq!(v.free_space_as_mut_slice().len(), 255);
    let full = StaticVec::<u32, 2>::from_array([1, 2]);
    assert_eq!(full.free_space_as_slice().len(), 0);
}

#[test]
fn write_slice_cloned() {
    let mut slots = [None, Some(1), None];
    uninit_write_slice_cloned(&mut slots, &[7, 8, 9]);
    assert_eq!(slots, [Some(7), Some(8), Some(9)]);
    let mut bytes = [0u8; 2];
    uninit_write_slice_cloned(&mut bytes, &[3, 4]);
    assert_eq!(bytes, [3, 4]);
    let mut none: [Option<u8>; 0] = [];
    uninit_write_slice_cloned(&mut none, &[]);
}

#[test]
fn mutable_views() {
    let mut v = StaticVec::<u32, 4>::from_array([1, 2, 3]);
    for item in v.as_mut_slice() {
        *item += 10;
    }
    assert_eq!(v.as_slice(), vec![&11, &12, &13]);
    for item in v.iter_mut() {
        *item *= 2;
    }
    assert_eq!(v.as_slice(), vec![&22, &24, &26]);
    assert_eq!(v.iter().count(), 3);
    assert_eq!(v.iter().copied().sum::<u32>(), 72);
    assert_eq!(v[0], 22);
    assert_eq!(v[2], 26);
    assert_eq!(v.len(), 3);
}

#[test]
fn by_value_iterator() {
    let v = StaticVec::<String, 4>::from_array(["a".to_string(), "b".to_string(), "c".to_string()]);
    let mut it = v.into_iter();
    assert_eq!(it.len(), 3);
    assert!(!it.is_empty());
    assert_eq!(it.size_hint(), (3, Some(3)));
    assert_eq!(it.next(), Some("a".to_string()));
    assert_eq!(it.len(), 2);
    assert_eq!(it.next(), Some("b".to_string()));
    assert_eq!(it.next(), Some("c".to_string()));
    assert_eq!(it.len(), 0);
    assert!(it.is_empty());
    assert_eq!(it.size_hint(), (0, Some(0)));
    assert_eq!(it.next(), None);
    assert_eq!(it.next(), None);

    let mut it = IntoIter::<[Option<u32>; 4], u8>::new([None, Some(1), Some(2), None], 1..3);
    assert_eq!(it.len(), 2);
    assert_eq!(it.next(), Some(1));
    assert_eq!(it.next(), Some(2));
    assert_eq!(it.next(), None);

    let mut it = StaticVec::<u32, 2>::new().into_iter();
    assert!(it.is_empty());
    assert_eq!(it.next(), None);
}

#[test]
fn equality_and_order() {
    let a = StaticVec::<u32, 4>::from_array([1, 2, 3]);
    let b = StaticVec::<u32, 4>::from_array([1, 2, 3]);
    let c = StaticVec::<u32, 4>::from_array([1, 2, 4]);
    let d = StaticVec::<u32, 4>::from_array([1, 2]);
    let e = StaticVec::<u32, 4>::new();
    assert!(a.eq(&b));
    assert!(!a.eq(&c));
    assert!(!a.eq(&d));
    assert!(e.eq(&e));
    assert!(a.eq_slice(&[1, 2, 3]));
    assert!(!a.eq_slice(&[1, 2]));
    assert!(!a.eq_slice(&[1, 2, 3, 4]));
    assert!(!a.eq_slice(&[1, 5, 3]));
    assert!(e.eq_slice(&[]));
    assert_eq!(a.cmp(&b), Ordering::Equal);
    assert_eq!(a.cmp(&c), Ordering::Less);
    assert_eq!(c.cmp(&a), Ordering::Greater);
    assert_eq!(a.cmp(&d), Ordering::Greater);
    assert_eq!(d.cmp(&a), Ordering::Less);
    assert_eq!(d.cmp(&c), Ordering::Less);
    assert_eq!(e.cmp(&d), Ordering::Less);
    assert_eq!(e.cmp(&e), Ordering::Equal);
    assert_eq!(a.partial_cmp(&b), Some(Ordering::Equal));
    assert_eq!(a.partial_cmp(&c), Some(Ordering::Less));
    assert_eq!(c.partial_cmp(&d), Some(Ordering::Greater));
    assert_eq!(d.partial_cmp(&a), Some(Ordering::Less));
    let x = StaticVec::<f64, 3>::from_array([1.0, f64::NAN]);
    let y = StaticVec::<f64, 3>::from_array([1.0, 2.0]);
    let z = StaticVec::<f64, 3>::from_array([0.5, f64::NAN]);
    assert_eq!(x.partial_cmp(&y), None);
    assert_eq!(z.partial_cmp(&x), Some(Ordering::Less));
    assert!(!x.eq(&x));
}

#[test]
fn into_array_when_full() {
    let v = StaticVec::<String, 2>::from_array(["a".to_string(), "b".to_string()]);
    assert_eq!(v.try_into_array(), Ok(["a".to_string(), "b".to_string()]));
    let v = StaticVec::<u32, 2>::from_array([1]);
    assert_eq!(v.try_into_array(), Err(()));
    let v = StaticVec::<u32, 0>::new();
    assert_eq!(v.try_into_array(), Ok([]));
}
