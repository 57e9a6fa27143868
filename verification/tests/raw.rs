use typed_array::RawArray;

#[test]
fn sized_new_is_empty() {
    let garray: RawArray<u64> = RawArray::sized_new(8, 16);
    assert_eq!(garray.len(), 0);
    assert_eq!(garray.element_size(), 8);
    assert!(garray.data().is_empty());
}

#[test]
fn sized_new_takes_any_reservation() {
    let garray: RawArray<[u8; 4096]> = RawArray::sized_new(4096, u32::MAX);
    assert_eq!(garray.len(), 0);
    assert_eq!(garray.element_size(), 4096);
}

#[test]
fn append_vals_keeps_order() {
    let mut garray: RawArray<u16> = RawArray::sized_new(2, 0);
    garray.append_vals(&[5, 6, 7], 3);
    assert_eq!(garray.len(), 3);
    assert_eq!(garray.data(), &[5, 6, 7]);
    garray.append_vals(&[8], 1);
    assert_eq!(garray.data(), &[5, 6, 7, 8]);
    assert_eq!(garray.element_size(), 2);
}

#[test]
fn append_vals_takes_a_prefix() {
    let mut garray: RawArray<u8> = RawArray::sized_new(1, 4);
    garray.append_vals(&[1, 2, 3, 4], 2);
    assert_eq!(garray.data(), &[1, 2]);
    garray.append_vals(&[9, 9], 0);
    assert_eq!(garray.data(), &[1, 2]);
    assert_eq!(garray.len(), 2);
}

#[test]
fn data_mut_changes_in_place() {
    let mut garray: RawArray<i8> = RawArray::sized_new(1, 3);
    garray.append_vals(&[1, 2, 3], 3);
    garray.data_mut()[0] = -1;
    assert_eq!(garray.data(), &[-1, 2, 3]);
    assert_eq!(garray.len(), 3);
    assert_eq!(garray.element_size(), 1);
}
