use random_generator::errors::PluginError;
use random_generator::generator::Generator;

#[test]
fn zero_range_is_a_configuration_error() {
    assert!(matches!(Generator::new(0), Err(PluginError::ConfigurationError)));
}

#[test]
fn every_draw_stays_below_the_range() {
    for range in [1u64, 2, 1000, u64::MAX] {
        let mut generator = Generator::new(range).unwrap();
        for _ in 0..200 {
            assert!(generator.next() < range);
        }
    }
}

#[test]
fn range_one_always_draws_zero() {
    let mut generator = Generator::new(1).unwrap();
    for _ in 0..200 {
        assert_eq!(generator.next(), 0);
    }
}
