use fft_core::settings::{FftSettings, FftSource, NORMALIZATION_ONE_BITS};
use fft_core::twiddle::{FftRoots, TwiddleEntry, TABLE_LEN};
use fft_core::{Extent2, FftError};

#[test]
fn default_source_is_256_square_forward() {
    let source = FftSource::default();
    assert_eq!(source.size, Extent2 { x: 256, y: 256 });
    assert_eq!(source.orders, 8);
    assert_eq!(source.padding, Extent2 { x: 0, y: 0 });
    assert!(!source.inverse);
    assert_eq!(source.roots.roots.len(), TABLE_LEN);
    for i in 0..TABLE_LEN {
        assert_eq!(source.roots.roots[i], TwiddleEntry::Zero);
    }
}

#[test]
fn valid_configurations_pass_validation() {
    for orders in 1..=12u32 {
        let side: u32 = 1 << orders;
        let mut source = FftSource::default();
        source.size = Extent2 { x: side, y: side };
        source.orders = orders;
        assert_eq!(source.validate(), Ok(()));
    }
}

#[test]
fn mismatched_orders_are_invalid() {
    let mut source = FftSource::default();
    source.size = Extent2 { x: 256, y: 256 };
    source.orders = 7;
    assert_eq!(source.validate(), Err(FftError::InvalidConfiguration));
}

#[test]
fn non_square_grid_is_invalid() {
    let mut source = FftSource::default();
    source.size = Extent2 { x: 256, y: 128 };
    source.orders = 8;
    assert_eq!(source.validate(), Err(FftError::InvalidConfiguration));
}

#[test]
fn non_power_of_two_grid_is_invalid() {
    let mut source = FftSource::default();
    source.size = Extent2 { x: 1000, y: 1000 };
    source.orders = 10;
    assert_eq!(source.validate(), Err(FftError::InvalidConfiguration));
}

#[test]
fn oversized_grid_is_invalid() {
    // 2^13 = 8192 exceeds the 4096 per-axis limit of the twiddle table.
    let mut source = FftSource::default();
    source.size = Extent2 { x: 8192, y: 8192 };
    source.orders = 13;
    assert_eq!(source.validate(), Err(FftError::InvalidConfiguration));
}

#[test]
fn zero_orders_is_invalid() {
    let mut source = FftSource::default();
    source.size = Extent2 { x: 1, y: 1 };
    source.orders = 0;
    assert_eq!(source.validate(), Err(FftError::InvalidConfiguration));
}

#[test]
fn extract_component_is_a_pure_copy_with_defaults() {
    let mut source = FftSource::default();
    source.size = Extent2 { x: 1024, y: 1024 };
    source.orders = 10;
    source.padding = Extent2 { x: 3, y: 5 };
    source.inverse = true;

    let settings = FftSettings::extract_component(&source).unwrap();
    assert_eq!(settings.size, Extent2 { x: 1024, y: 1024 });
    assert_eq!(settings.orders, 10);
    assert_eq!(settings.padding, Extent2 { x: 3, y: 5 });
    assert_eq!(settings.inverse, 1);
    assert_eq!(settings.window_type, 0);
    assert_eq!(settings.window_strength_bits, 0);
    assert_eq!(settings.radial_falloff_bits, 0);
    assert_eq!(settings.normalization_bits, NORMALIZATION_ONE_BITS);
}

#[test]
fn extract_component_forward_flag_is_zero() {
    let source = FftSource::default();
    let settings = FftSettings::extract_component(&source).unwrap();
    assert_eq!(settings.inverse, 0);
}

#[test]
fn normalization_one_bits_is_ieee_one() {
    assert_eq!(f32::from_bits(NORMALIZATION_ONE_BITS), 1.0f32);
}

#[test]
fn roots_extract_component_copies_the_table() {
    let mut source = FftSource::default();
    source.roots = FftRoots::build(13, false);
    let extracted = FftRoots::extract_component(&source).unwrap();
    assert_eq!(extracted.inverse, source.roots.inverse);
    assert_eq!(extracted.roots, source.roots.roots);
}
