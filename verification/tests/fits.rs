use datasize::DataSize;
use datasize::Fits;

#[test]
fn test_fits() {
    assert_eq!(3u32.fits_in(&DataSize::new_from_bits(3)), true);
    assert_eq!(3u32.fits_in(&DataSize::new_from_bits(1)), false);
}

#[test]
fn test_fits_boundaries() {
    // A width of 3 holds values up to 7 and nothing above.
    assert!(7u32.fits_in(&DataSize::new_from_bits(3)));
    assert!(!8u32.fits_in(&DataSize::new_from_bits(3)));
    // A width of 0 holds only the value 0.
    assert!(0u32.fits_in(&DataSize::new_from_bits(0)));
    assert!(!1u32.fits_in(&DataSize::new_from_bits(0)));
    // A width of 32 or more holds every u32.
    assert!(u32::MAX.fits_in(&DataSize::new_from_bits(32)));
    assert!(u32::MAX.fits_in(&DataSize::new_from_bits(1000)));
}
