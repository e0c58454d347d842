use stm32l4_flash::rng::{Clocks, Error, RngExt, AHB2, RNG};

fn clocks() -> Clocks {
    Clocks { hsi48: true }
}

#[test]
fn enabled_generator_hands_out_words_in_order() {
    let mut ahb2 = AHB2 { rngen: false };
    let mut rng = RNG::new(vec![11, 22, 33]).enable(&mut ahb2, clocks());
    assert!(ahb2.rngen);
    assert!(rng.is_enabled());
    assert!(!rng.is_interrupt_enabled());
    assert!(!rng.is_clock_error());
    assert!(!rng.is_seed_error());
    assert!(rng.is_data_ready());
    assert_eq!(rng.get_random_data(), 11);
    assert_eq!(rng.possibly_invalid_random_data(), 22);
    assert_eq!(rng.get_random_data(), 33);
    assert!(!rng.is_data_ready());
    // without a fresh word the data register repeats the last one
    assert_eq!(rng.possibly_invalid_random_data(), 33);
    let _peripheral = rng.free();
}

#[test]
fn read_fills_buffer_from_words_in_native_order() {
    let mut rng = RNG::new(vec![0x0403_0201, 0x0807_0605, 0xAABB_CCDD]).enable(&mut AHB2 { rngen: false }, clocks());
    let mut buf = [0u8; 6];
    assert_eq!(rng.read(&mut buf), Ok(()));
    let mut expected = Vec::new();
    expected.extend_from_slice(&0x0403_0201u32.to_ne_bytes());
    expected.extend_from_slice(&0x0807_0605u32.to_ne_bytes()[..2]);
    assert_eq!(buf.to_vec(), expected);
    assert_eq!(rng.get_random_data(), 0xAABB_CCDD);
}

#[test]
fn read_fails_when_source_runs_dry() {
    let mut rng = RNG::new(vec![1]).enable(&mut AHB2 { rngen: false }, clocks());
    let mut buf = [0u8; 5];
    assert_eq!(rng.read(&mut buf), Err(Error::NoData));
}

#[test]
fn read_of_nothing_needs_no_data() {
    let mut rng = RNG::new(vec![]).enable(&mut AHB2 { rngen: false }, clocks());
    let mut buf = [0u8; 0];
    assert_eq!(rng.read(&mut buf), Ok(()));
    assert!(!rng.is_data_ready());
}

#[test]
fn data_register_reads_zero_before_any_word() {
    let mut rng = RNG::new(vec![]).enable(&mut AHB2 { rngen: false }, clocks());
    assert_eq!(rng.possibly_invalid_random_data(), 0);
}
