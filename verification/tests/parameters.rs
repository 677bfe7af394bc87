use fsrs_core::Parameters;

#[test]
fn default_retention_is_nine_tenths() {
    let parameters = Parameters::default();
    assert_eq!(parameters.request_retention, 0x3F66_6666);
    assert_eq!(f32::from_bits(parameters.request_retention), 0.9f32);
}

#[test]
fn default_maximum_interval_is_a_hundred_years() {
    assert_eq!(Parameters::default().maximum_interval, 36500);
}

#[test]
fn default_weights_are_the_published_numbers() {
    let expected: [f32; 17] = [
        0.4, 0.6, 2.4, 5.8, 4.93, 0.94, 0.86, 0.01, 1.49, 0.14, 0.94, 2.18, 0.05, 0.34, 1.26,
        0.29, 2.61,
    ];
    let parameters = Parameters::default();
    assert_eq!(parameters.w.len(), 17);
    for i in 0..17 {
        assert_eq!(f32::from_bits(parameters.w[i]), expected[i]);
        assert_eq!(parameters.w[i], expected[i].to_bits());
    }
}

#[test]
fn default_parameters_are_well_formed() {
    assert!(Parameters::default().well_formed());
}

#[test]
fn well_formed_agrees_with_the_numbers() {
    let samples = [
        0.0f32,
        -0.0,
        1.0e-45,
        f32::MIN_POSITIVE,
        0.5,
        0.9,
        0.99999994,
        1.0,
        1.0000001,
        2.0,
        -0.5,
        f32::INFINITY,
        f32::NEG_INFINITY,
        f32::NAN,
    ];
    for number in samples {
        let mut parameters = Parameters::default();
        parameters.request_retention = number.to_bits();
        assert_eq!(parameters.well_formed(), 0.0 < number && number <= 1.0);
    }
}

#[test]
fn well_formed_wants_a_day_at_least() {
    let mut parameters = Parameters::default();
    parameters.maximum_interval = 1;
    assert!(parameters.well_formed());
    parameters.maximum_interval = 0;
    assert!(!parameters.well_formed());
    parameters.maximum_interval = -36500;
    assert!(!parameters.well_formed());
}

#[test]
fn any_weight_is_accepted() {
    let mut parameters = Parameters::default();
    parameters.w[0] = f32::NAN.to_bits();
    parameters.w[16] = f32::NEG_INFINITY.to_bits();
    assert!(parameters.well_formed());
    assert!(f32::from_bits(parameters.w[0]).is_nan());
}
