use rusty_cffi::{
    get_itemsize, Binary32, Binary64, ConversionType, RustyDataContainer, DTYPE,
    MUTABILITY, OWNERSHIP,
};

fn round_trip<T: ConversionType + Clone + PartialEq + std::fmt::Debug>(values: Vec<T>) {
    let expected = values.clone();
    let c = RustyDataContainer::from_vec(values);
    assert_eq!(c.nitems(), expected.len());
    assert_eq!(c.is_owner(), OWNERSHIP::Owner);
    assert_eq!(c.is_mutable(), MUTABILITY::Mutable);
    let back = c.to_vec::<T>();
    assert_eq!(back, expected);
}

fn sizes() -> [usize; 3] {
    [0, 1, 1000]
}

#[test]
fn round_trip_integers() {
    for n in sizes() {
        round_trip::<u8>((0..n).map(|i| (i % 251) as u8).collect());
        round_trip::<u32>((0..n).map(|i| (i as u32) * 7 + 1).collect());
        round_trip::<u64>((0..n).map(|i| (i as u64) << 33).collect());
        round_trip::<i8>((0..n).map(|i| (i % 200) as i8 - 100).collect());
        round_trip::<i32>((0..n).map(|i| -(i as i32) * 3).collect());
        round_trip::<i64>((0..n).map(|i| i64::MIN + i as i64).collect());
    }
}

#[test]
fn round_trip_floats() {
    for n in sizes() {
        let f: Vec<f32> = (0..n).map(|i| i as f32 * 0.5 - 3.25).collect();
        let c = RustyDataContainer::from_vec(f.iter().map(|x| Binary32(x.to_bits())).collect());
        let back: Vec<f32> = c.to_vec::<Binary32>().iter().map(|b| f32::from_bits(b.0)).collect();
        assert_eq!(back, f);
        let d: Vec<f64> = (0..n).map(|i| i as f64 * 1.5e10 - 7.0).collect();
        let c = RustyDataContainer::from_vec(d.iter().map(|x| Binary64(x.to_bits())).collect());
        let back: Vec<f64> = c.to_vec::<Binary64>().iter().map(|b| f64::from_bits(b.0)).collect();
        assert_eq!(back, d);
    }
}

#[test]
fn readonly_wrap_leaves_region_after_destroy() {
    let v: Vec<i32> = vec![4, 5, 6];
    let c = RustyDataContainer::from_slice(v.as_slice());
    assert_eq!(c.is_owner(), OWNERSHIP::NotOwner);
    assert_eq!(c.is_mutable(), MUTABILITY::NotMutable);
    assert_eq!(c.nitems(), 3);
    assert_eq!(c.capacity(), 3);
    assert_eq!(c.data(), v.as_ptr() as usize);
    c.destroy();
    assert_eq!(v, vec![4, 5, 6]);
}

#[test]
fn mutable_wrap_leaves_region_after_destroy() {
    let mut v: Vec<u64> = vec![10, 20];
    let c = RustyDataContainer::from_slice_mut(v.as_mut_slice());
    assert_eq!(c.is_owner(), OWNERSHIP::NotOwner);
    assert_eq!(c.is_mutable(), MUTABILITY::Mutable);
    c.destroy();
    assert_eq!(v, vec![10, 20]);
}

#[test]
fn mutable_wrap_writes_reach_caller() {
    let mut v: Vec<u64> = vec![10, 20];
    let mut c = RustyDataContainer::from_slice_mut(v.as_mut_slice());
    c.as_slice_mut::<u64>()[1] = 99;
    assert_eq!(c.as_slice::<u64>(), &[10, 99]);
    c.destroy();
    assert_eq!(v, vec![10, 99]);
}

#[test]
fn readonly_wrap_is_not_mutable() {
    let v: Vec<u8> = vec![1, 2];
    let c = RustyDataContainer::from_slice(v.as_slice());
    assert_eq!(c.is_mutable(), MUTABILITY::NotMutable);
    assert_eq!(c.as_slice::<u8>(), &[1, 2]);
}

#[test]
fn adopted_grants_mutable_view() {
    let mut c = RustyDataContainer::from_vec(vec![1i8, 2, 3]);
    {
        let s = c.as_slice_mut::<i8>();
        s[0] = -5;
        s[2] = 7;
    }
    assert_eq!(c.as_slice::<i8>(), &[-5, 2, 7]);
    assert_eq!(c.to_vec::<i8>(), vec![-5, 2, 7]);
}

fn tags() -> Vec<DTYPE> {
    vec![
        Binary32::dtype(),
        Binary64::dtype(),
        u8::dtype(),
        u32::dtype(),
        u64::dtype(),
        i8::dtype(),
        i32::dtype(),
        i64::dtype(),
    ]
}

fn containers() -> Vec<RustyDataContainer<'static>> {
    vec![
        RustyDataContainer::new_zeroed::<Binary32>(2),
        RustyDataContainer::new_zeroed::<Binary64>(2),
        RustyDataContainer::new_zeroed::<u8>(2),
        RustyDataContainer::new_zeroed::<u32>(2),
        RustyDataContainer::new_zeroed::<u64>(2),
        RustyDataContainer::new_zeroed::<i8>(2),
        RustyDataContainer::new_zeroed::<i32>(2),
        RustyDataContainer::new_zeroed::<i64>(2),
    ]
}

#[test]
fn each_container_matches_one_element_type() {
    for c in containers() {
        let matching: Vec<DTYPE> = tags().into_iter().filter(|d| *d == c.dtype()).collect();
        assert_eq!(matching.len(), 1);
    }
    let c = RustyDataContainer::from_vec(vec![1i32, 2]);
    assert_ne!(c.dtype(), u32::dtype());
    assert_eq!(c.dtype(), i32::dtype());
}

#[test]
fn borrowed_region_is_not_owned() {
    let v: Vec<u32> = vec![1, 2];
    let c = RustyDataContainer::from_slice(v.as_slice());
    assert_eq!(c.is_owner(), OWNERSHIP::NotOwner);
    let mut w: Vec<u32> = vec![3];
    let c = RustyDataContainer::from_slice_mut(w.as_mut_slice());
    assert_eq!(c.is_owner(), OWNERSHIP::NotOwner);
    assert_eq!(c.is_mutable(), MUTABILITY::Mutable);
}

#[test]
fn spare_capacity_is_kept() {
    let mut v: Vec<i32> = Vec::with_capacity(8);
    v.extend_from_slice(&[1, 2, 3]);
    let cap = v.capacity();
    assert!(cap >= 8);
    let c = RustyDataContainer::from_vec(v);
    assert_eq!(c.nitems(), 3);
    assert_eq!(c.capacity(), cap);
    let back = c.to_vec::<i32>();
    assert_eq!(back.len(), 3);
    assert_eq!(back.capacity(), cap);
    assert_eq!(back, vec![1, 2, 3]);
}

#[test]
fn zero_length_container() {
    let c = RustyDataContainer::new_zeroed::<Binary64>(0);
    assert_eq!(c.nitems(), 0);
    assert_eq!(c.is_owner(), OWNERSHIP::Owner);
    assert_ne!(c.data(), 0);
    c.destroy();
}

#[test]
fn zeroed_container_holds_zeros() {
    let c = RustyDataContainer::new_zeroed::<i64>(5);
    assert_eq!(c.nitems(), 5);
    assert!(c.capacity() >= 5);
    assert_eq!(c.itemsize(), 8);
    assert_eq!(c.dtype(), DTYPE::Int64);
    assert_eq!(c.as_slice::<i64>(), &[0; 5]);
    let c = RustyDataContainer::new_zeroed::<Binary32>(2);
    let f: Vec<f32> = c.as_slice::<Binary32>().iter().map(|b| f32::from_bits(b.0)).collect();
    assert_eq!(f, vec![0.0f32, 0.0]);
}

#[test]
fn size_table_matches_containers() {
    for c in containers() {
        assert_eq!(get_itemsize(c.dtype()), c.itemsize());
    }
    assert_eq!(get_itemsize(DTYPE::Float32), std::mem::size_of::<f32>());
    assert_eq!(get_itemsize(DTYPE::Float64), std::mem::size_of::<f64>());
    assert_eq!(get_itemsize(DTYPE::Unsigned8), std::mem::size_of::<u8>());
    assert_eq!(get_itemsize(DTYPE::Unsigned32), std::mem::size_of::<u32>());
    assert_eq!(get_itemsize(DTYPE::Unsigned64), std::mem::size_of::<u64>());
    assert_eq!(get_itemsize(DTYPE::Int8), std::mem::size_of::<i8>());
    assert_eq!(get_itemsize(DTYPE::Int32), std::mem::size_of::<i32>());
    assert_eq!(get_itemsize(DTYPE::Int64), std::mem::size_of::<i64>());
}

#[test]
fn dtype_codes_round_trip() {
    for c in containers() {
        let d = c.dtype();
        assert_eq!(DTYPE::from_code(d.code()), Some(d));
    }
    assert_eq!(DTYPE::Float32.code(), 0);
    assert_eq!(DTYPE::Int64.code(), 7);
    assert_eq!(DTYPE::from_code(3), Some(DTYPE::Unsigned32));
    assert_eq!(DTYPE::from_code(8), None);
}

#[test]
fn owned_address_is_the_vector_buffer() {
    let v: Vec<u32> = vec![1, 2, 3];
    let p = v.as_ptr() as usize;
    let c = RustyDataContainer::from_vec(v);
    assert_eq!(c.data(), p);
    let w: Vec<u8> = vec![7];
    let c = RustyDataContainer::from_slice(&w[..]);
    assert_eq!(c.data(), w.as_ptr() as usize);
}
