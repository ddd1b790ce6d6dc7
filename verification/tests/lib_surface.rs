use datasize::DataSize;

#[test]
fn lib_test_equality() {
    assert!(DataSize::new_from_bits(8) == DataSize::new_from_bytes(1).unwrap());
}

#[test]
fn lib_test_ordering() {
    assert!(DataSize::new_from_bits(1) < DataSize::new_from_bytes(1).unwrap());
    assert!(DataSize::new_from_bits(10) > DataSize::new_from_bytes(1).unwrap());
}

#[test]
#[should_panic]
fn lib_test_megabytes_overflow() {
    DataSize::new_from_megabytes(u32::MAX).unwrap();
}

#[test]
fn lib_test_macros() {
    assert_eq!(DataSize::new_from_bits(4), DataSize::new_from_bits(4));
    assert_eq!(DataSize::new_from_bytes(4).unwrap(), DataSize::new_from_bytes(4).unwrap());
    assert_eq!(
        DataSize::new_from_kilobytes(4).unwrap(),
        DataSize::new_from_kilobytes(4).unwrap()
    );
    assert_eq!(
        DataSize::new_from_megabytes(4).unwrap(),
        DataSize::new_from_megabytes(4).unwrap()
    );
    assert_eq!(DataSize::new_from_bits(2), DataSize::new_from_bits(2));
    assert_eq!(DataSize::new_from_bytes(2).unwrap(), DataSize::new_from_bytes(2).unwrap());
    assert_eq!(
        DataSize::new_from_kilobytes(2).unwrap(),
        DataSize::new_from_kilobytes(2).unwrap()
    );
    assert_eq!(
        DataSize::new_from_megabytes(2).unwrap(),
        DataSize::new_from_megabytes(2).unwrap()
    );
}

#[test]
fn lib_test_addition() {
    assert_eq!(
        DataSize::new_from_bits(4).checked_add(DataSize::new_from_bits(4)).unwrap(),
        DataSize::new_from_bytes(1).unwrap()
    );
    assert_eq!(
        DataSize::new_from_bytes(2).unwrap().checked_add(DataSize::new_from_bits(4)).unwrap(),
        DataSize::new_from_bits(20)
    );
}

#[test]
#[should_panic]
fn lib_test_addition_overflow() {
    DataSize::new_from_bits(u32::MAX).checked_add(DataSize::new_from_bits(1)).unwrap();
}

#[test]
fn lib_test_subtraction() {
    assert_eq!(
        DataSize::new_from_bits(4).checked_sub(DataSize::new_from_bits(2)).unwrap(),
        DataSize::new_from_bits(2)
    );
    assert_eq!(
        DataSize::new_from_bits(4).checked_sub(DataSize::new_from_bits(4)).unwrap(),
        DataSize::new_from_bytes(0).unwrap()
    );
}

#[test]
#[should_panic]
fn lib_test_subtraction_overflow() {
    DataSize::new_from_bits(1).checked_sub(DataSize::new_from_bits(3)).unwrap();
}

#[test]
fn lib_test_max_value() {
    assert_eq!(DataSize::new_from_bits(2).max_value(), 3);
    assert_eq!(DataSize::new_from_bytes(2).unwrap().max_value(), 65535);
}
