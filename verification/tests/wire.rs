use piton::types::le::{
    i16be, i16le, i32be, i32le, i64be, i64le, reversed, u16be, u16le, u32be, u32le, u64be, u64le,
};
use piton::types::vec::Vec as BoundedVec;
use piton::{Wire, Yule, ZeroPad};

#[test]
fn u64le_round_trip() {
    let v = u64le::new(0x0102_0304_0506_0708);
    let bytes = v.as_slice();
    assert_eq!(bytes, vec![8u8, 7, 6, 5, 4, 3, 2, 1]);
    assert_eq!(u64le::from_slice(0, &bytes), Some(v));
    assert_eq!(u64le::size(), Some(8));
    assert_eq!(u64le::align(), 8);
}

#[test]
fn little_endian_bytes_of_each_width() {
    assert_eq!(u16le::new(0x1234).as_slice(), vec![0x34u8, 0x12]);
    assert_eq!(u32le::new(0x1234_5678).as_slice(), vec![0x78u8, 0x56, 0x34, 0x12]);
    assert_eq!(i16le::new(-2).as_slice(), vec![0xfeu8, 0xff]);
    assert_eq!(i32le::new(-2).as_slice(), vec![0xfeu8, 0xff, 0xff, 0xff]);
    assert_eq!(i64le::new(-1).as_slice(), vec![0xffu8; 8]);
    assert_eq!((-3i8).as_slice(), vec![0xfdu8]);
    assert_eq!(7u8.as_slice(), vec![7u8]);
    assert_eq!(true.as_slice(), vec![1u8]);
    assert_eq!(false.as_slice(), vec![0u8]);
}

#[test]
fn round_trip_of_every_primitive() {
    assert_eq!(u16le::from_slice(2, &u16le::new(65535).as_slice()), Some(u16le::new(65535)));
    assert_eq!(u32le::from_slice(4, &u32le::new(7).as_slice()), Some(u32le::new(7)));
    assert_eq!(i16le::from_slice(2, &i16le::new(-32768).as_slice()), Some(i16le::new(-32768)));
    assert_eq!(i32le::from_slice(8, &i32le::new(-5).as_slice()), Some(i32le::new(-5)));
    assert_eq!(i64le::from_slice(16, &i64le::new(i64::MIN).as_slice()), Some(i64le::new(i64::MIN)));
    assert_eq!(i8::from_slice(3, &(-128i8).as_slice()), Some(-128i8));
    assert_eq!(u8::from_slice(5, &255u8.as_slice()), Some(255u8));
    assert_eq!(bool::from_slice(1, &true.as_slice()), Some(true));
}

#[test]
fn zero_buffer_is_valid_for_every_primitive() {
    assert!(u8::validate(0, &[0]));
    assert!(i8::validate(0, &[0]));
    assert!(bool::validate(0, &[0]));
    assert!(u16le::validate(0, &[0; 2]));
    assert!(u32le::validate(0, &[0; 4]));
    assert!(u64le::validate(0, &[0; 8]));
    assert!(i16le::validate(0, &[0; 2]));
    assert!(i32le::validate(0, &[0; 4]));
    assert!(i64le::validate(0, &[0; 8]));
    assert!(ZeroPad::<5>::validate(0, &[0; 5]));
    assert_eq!(u64le::zeroed(), u64le::new(0));
    assert_eq!(bool::zeroed(), false);
    assert_eq!(i32le::zeroed().get(), 0);
}

#[test]
fn validate_wants_enough_bytes() {
    assert!(!u32le::validate(0, &[0; 3]));
    assert!(u32le::validate(0, &[0; 4]));
    assert!(u32le::validate(0, &[0; 9]));
    assert_eq!(u32le::from_slice(0, &[1, 0, 0]), None);
    assert_eq!(u32le::from_slice(0, &[1, 0, 0, 0, 9, 9]), Some(u32le::new(1)));
}

#[test]
fn validate_wants_an_aligned_address() {
    assert!(u64le::validate(16, &[0; 8]));
    assert!(!u64le::validate(20, &[0; 8]));
    assert!(!u16le::validate(1, &[0; 2]));
    assert!(u8::validate(1, &[0]));
    assert_eq!(u32le::from_slice(2, &[0; 4]), None);
}

#[test]
fn bool_rejects_other_bytes() {
    assert!(bool::validate(0, &[1]));
    assert!(!bool::validate(0, &[2]));
    assert!(!bool::validate(0, &[255]));
    assert_eq!(bool::from_slice(0, &[2]), None);
    assert_eq!(bool::from_slice(0, &[1]), Some(true));
    assert_eq!(bool::from_slice(0, &[0]), Some(false));
}

#[test]
fn unchecked_read_of_valid_bytes() {
    assert_eq!(u16le::from_slice_unchecked(0, &[2, 1]).get(), 0x0102);
}

#[test]
fn le_conversions() {
    assert_eq!(u64::from(u64le::from(9u64)), 9);
    assert_eq!(i16::from(i16le::from(-9i16)), -9);
    assert_eq!(u32le::default().get(), 0);
    assert!(u16le::new(1) < u16le::new(2));
}

#[test]
fn zero_pad_keeps_its_bytes() {
    let pad = ZeroPad::<3>::default();
    assert_eq!(pad.as_slice(), vec![0u8; 3]);
    let read = ZeroPad::<3>::from_slice(0, &[1, 2, 3]).unwrap();
    assert_eq!(read.as_slice(), vec![1u8, 2, 3]);
    assert_eq!(ZeroPad::<3>::size(), Some(3));
    assert_eq!(ZeroPad::<3>::align(), 1);
}

#[test]
fn bounded_vec_push_until_full() {
    let mut v: BoundedVec<u8, 2> = BoundedVec::new();
    assert_eq!(v.len(), 0);
    assert_eq!(v.push(1), Ok(()));
    assert_eq!(v.push(2), Ok(()));
    assert_eq!(v.push(3), Err(3));
    assert_eq!(v.as_slice(), &[1u8, 2]);
    assert_eq!(v.len(), 2);
}

#[test]
fn bounded_vec_push_unchecked() {
    let mut v: BoundedVec<u16le, 4> = BoundedVec::default();
    v.push_unchecked(u16le::new(7));
    v.push_unchecked(u16le::new(8));
    assert_eq!(v.as_slice(), &[u16le::new(7), u16le::new(8)]);
    v.set(0, u16le::new(9));
    assert_eq!(v.as_slice(), &[u16le::new(9), u16le::new(8)]);
}

#[test]
fn bounded_vec_wire_form() {
    let mut v: BoundedVec<u16le, 3> = BoundedVec::new();
    v.push(u16le::new(0x0102)).unwrap();
    let mut bytes = Vec::new();
    v.write(&mut bytes);
    assert_eq!(bytes, vec![1u8, 0, 0, 0, 0, 0, 0, 0, 2, 1, 0, 0, 0, 0]);
    assert!(BoundedVec::<u16le, 3>::check_bytes(&bytes));
    let back = BoundedVec::<u16le, 3>::read(&bytes);
    assert_eq!(back.as_slice(), v.as_slice());
}

#[test]
fn bounded_vec_zero_bytes_are_the_empty_vector() {
    let bytes = vec![0u8; 8 + 4];
    assert!(BoundedVec::<bool, 4>::check_bytes(&bytes));
    assert_eq!(BoundedVec::<bool, 4>::read(&bytes).len(), 0);
    assert_eq!(BoundedVec::<bool, 4>::zeroed().len(), 0);
    assert_eq!(BoundedVec::<bool, 4>::default().as_slice(), &[] as &[bool]);
}

#[test]
fn bounded_vec_checks_every_slot() {
    let mut bad_slot = vec![0u8; 8 + 2];
    bad_slot[9] = 7;
    assert!(!BoundedVec::<bool, 2>::check_bytes(&bad_slot));
    assert!(!BoundedVec::<bool, 2>::validate(0, &bad_slot));
    let mut fine = vec![0u8; 8 + 2];
    fine[0] = 2;
    fine[8] = 1;
    assert!(BoundedVec::<bool, 2>::check_bytes(&fine));
    assert_eq!(BoundedVec::<bool, 2>::read(&fine).as_slice(), &[true, false]);
}

#[test]
fn bounded_vec_length_above_the_bound_counts_as_the_bound() {
    let mut long = vec![0u8; 8 + 2];
    long[0] = 3;
    long[8] = 1;
    long[9] = 1;
    let v = BoundedVec::<bool, 2>::from_slice(8, &long).unwrap();
    assert_eq!(v.len(), 2);
    assert_eq!(v.as_slice(), &[true, true]);
    let mut v = v;
    assert_eq!(v.push(false), Err(false));
}

#[test]
fn bounded_vec_size_and_alignment() {
    assert_eq!(BoundedVec::<u16le, 3>::size(), Some(14));
    assert_eq!(BoundedVec::<u16le, 3>::align(), 8);
    assert_eq!(BoundedVec::<u64le, { usize::MAX }>::size(), None);
    assert!(!BoundedVec::<u64le, { usize::MAX }>::validate(0, &[0; 64]));
    assert!(BoundedVec::<u16le, 3>::validate(16, &[0; 14]));
    assert!(!BoundedVec::<u16le, 3>::validate(4, &[0; 14]));
    assert!(!BoundedVec::<u16le, 3>::validate(16, &[0; 13]));
}

#[test]
fn arrays_are_their_elements_in_order() {
    let a = [u16le::new(1), u16le::new(0x0203), u16le::new(4)];
    assert_eq!(Yule::as_slice(&a), vec![1u8, 0, 3, 2, 4, 0]);
    assert_eq!(<[u16le; 3]>::from_slice(2, &Yule::as_slice(&a)), Some(a));
    assert_eq!(<[u16le; 3]>::size(), Some(6));
    assert_eq!(<[u16le; 3]>::align(), 2);
    assert_eq!(<[u16le; 3]>::zeroed(), [u16le::new(0); 3]);
    assert_eq!(<[bool; 0]>::size(), Some(0));
    assert!(<[bool; 0]>::validate(0, &[]));
    assert_eq!(<[u64le; usize::MAX]>::size(), None);
}

#[test]
fn arrays_check_every_element() {
    assert!(<[bool; 3]>::validate(0, &[0, 1, 0]));
    assert!(!<[bool; 3]>::validate(0, &[0, 1, 2]));
    assert!(!<[bool; 3]>::validate(0, &[0, 1]));
    assert_eq!(<[bool; 2]>::from_slice(0, &[1, 0, 9]), Some([true, false]));
    let nested = [[1u8, 2], [3, 4]];
    assert_eq!(Yule::as_slice(&nested), vec![1u8, 2, 3, 4]);
    assert_eq!(<[[u8; 2]; 2]>::from_slice(0, &[1, 2, 3, 4]), Some(nested));
}

#[test]
fn vector_of_arrays_round_trip() {
    let mut v: BoundedVec<[i16le; 2], 2> = BoundedVec::new();
    v.push([i16le::new(-1), i16le::new(2)]).unwrap();
    let bytes = Yule::as_slice(&v);
    assert_eq!(bytes, vec![1u8, 0, 0, 0, 0, 0, 0, 0, 0xff, 0xff, 2, 0, 0, 0, 0, 0]);
    let back = BoundedVec::<[i16le; 2], 2>::from_slice(0, &bytes).unwrap();
    assert_eq!(back.as_slice(), v.as_slice());
}

#[test]
fn big_endian_bytes_of_each_width() {
    let mut out = Vec::new();
    u16be::new(0x1234).write(&mut out);
    u32be::new(0x1234_5678).write(&mut out);
    u64be::new(0x0102_0304_0506_0708).write(&mut out);
    i16be::new(-2).write(&mut out);
    i32be::new(-2).write(&mut out);
    i64be::new(-2).write(&mut out);
    assert_eq!(&out[..6], &[0x12, 0x34, 0x12, 0x34, 0x56, 0x78]);
    assert_eq!(&out[6..14], &[1, 2, 3, 4, 5, 6, 7, 8]);
    assert_eq!(&out[14..20], &[0xff, 0xfe, 0xff, 0xff, 0xff, 0xfe]);
    assert_eq!(&out[20..], &[0xff, 0xff, 0xff, 0xff, 0xff, 0xff, 0xff, 0xfe]);
    assert_eq!(u16be::read(&out[..2]), u16be::new(0x1234));
    assert_eq!(u32be::read(&out[2..6]), u32be::new(0x1234_5678));
    assert_eq!(u64be::read(&out[6..14]).get(), 0x0102_0304_0506_0708);
    assert_eq!(i16be::read(&out[14..16]).get(), -2);
    assert_eq!(i32be::read(&out[16..20]).get(), -2);
    assert_eq!(i64be::read(&out[20..]).get(), -2);
    assert_eq!(u32be::zeroed().get(), 0);
    assert_eq!(u16be::size(), Some(2));
    assert_eq!(i64be::align(), 8);
    assert_eq!(reversed(&[1, 2, 3]), vec![3u8, 2, 1]);
}

#[test]
fn a_value_is_replaced_in_place() {
    let mut bytes = vec![1u8, 0, 0, 0, 9, 9];
    let was = u32le::from_mut_slice(4, &mut bytes, &u32le::new(0x0a0b_0c0d));
    assert_eq!(was, Some(u32le::new(1)));
    assert_eq!(bytes, vec![0x0d, 0x0c, 0x0b, 0x0a, 9, 9]);
    assert_eq!(u32le::from_mut_slice(2, &mut bytes, &u32le::new(0)), None);
    assert_eq!(bytes, vec![0x0d, 0x0c, 0x0b, 0x0a, 9, 9]);
    let mut short = vec![1u8, 2];
    assert_eq!(u32le::from_mut_slice(0, &mut short, &u32le::new(0)), None);
    assert_eq!(short, vec![1u8, 2]);
    let mut flag = vec![2u8];
    assert_eq!(bool::from_mut_slice(0, &mut flag, &true), None);
    assert_eq!(flag, vec![2u8]);
    let mut flag = vec![0u8, 7];
    assert_eq!(bool::from_mut_slice_unchecked(0, &mut flag, &true), false);
    assert_eq!(flag, vec![1u8, 7]);
}

#[test]
fn bounded_vectors_compare_and_copy_by_their_elements() {
    let mut a: BoundedVec<u16le, 3> = BoundedVec::new();
    a.push(u16le::new(1)).unwrap();
    a.push(u16le::new(2)).unwrap();
    let b = a.clone();
    assert_eq!(b.as_slice(), a.as_slice());
    assert!(a == b);
    let mut c = a;
    c.set(1, u16le::new(3));
    assert!(a != c);
    let mut d: BoundedVec<u16le, 3> = BoundedVec::new();
    d.push(u16le::new(1)).unwrap();
    assert!(a != d);
    d.push(u16le::new(2)).unwrap();
    assert!(a == d);
    let mut wire = vec![0u8; 8 + 6];
    wire[0] = 2;
    wire[8] = 1;
    wire[10] = 2;
    wire[12] = 0x55;
    let e = BoundedVec::<u16le, 3>::from_slice(0, &wire).unwrap();
    assert!(e == a);
    assert!(BoundedVec::<u16le, 3>::new() == BoundedVec::default());
}
