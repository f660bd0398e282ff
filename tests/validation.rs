use ebcc::{ebcc_decode_request, ebcc_encode_request, EBCCConfig, ErrorKind, Grid};

fn grid_of(dim: (usize, usize, usize), values: Vec<f32>) -> Grid {
    Grid::from_shape_vec(dim, values.into_iter().map(f32::to_bits).collect()).unwrap()
}

fn ones() -> Vec<f32> {
    vec![1.0f32; 32 * 32]
}

#[test]
fn test_invalid_config() {
    let data = grid_of((1, 32, 32), ones());

    let mut config = EBCCConfig::new();
    config.base_cr = (-1.0f32).to_bits();

    let result = ebcc_encode_request(&data, &config);
    assert!(result.is_err());
}

#[test]
fn test_nan_input() {
    let mut values = ones();
    values[3 * 32 + 4] = f32::NAN;
    let data = grid_of((1, 32, 32), values);

    let config = EBCCConfig::new();

    let result = ebcc_encode_request(&data, &config);
    assert!(result.is_err());
}

#[test]
fn test_empty_compressed_data() {
    let output = Grid::zeros((1, 1, 1)).unwrap();
    let result = ebcc_decode_request(&[]);
    assert!(result.is_err());
    assert_eq!(output.values(), &[0u32][..]);
}

#[test]
fn test_invalid_inputs() {
    let config = EBCCConfig::new();

    let mut values = ones();
    values[1] = f32::NAN;
    let data_with_nan = grid_of((1, 32, 32), values);
    let result = ebcc_encode_request(&data_with_nan, &config);
    assert!(result.is_err());

    let mut values = ones();
    values[1] = f32::INFINITY;
    let data_with_inf = grid_of((1, 32, 32), values);
    let result = ebcc_encode_request(&data_with_inf, &config);
    assert!(result.is_err());

    let _output = Grid::zeros((0, 0, 0)).unwrap();
    let result = ebcc_decode_request(&[]);
    assert!(result.is_err());
}

#[test]
fn test_config_validation() {
    let valid_config = EBCCConfig::new();
    assert!(valid_config.validate().is_ok());

    let mut invalid_config = EBCCConfig::new();
    invalid_config.base_cr = (-1.0f32).to_bits();
    assert!(invalid_config.validate().is_err());

    invalid_config = EBCCConfig::max_absolute_error_bounded(10.0f32.to_bits(), (-0.1f32).to_bits());
    assert!(invalid_config.validate().is_err());

    invalid_config = EBCCConfig::new();
    let zero = Grid::zeros((0, 32, 32)).unwrap();
    assert!(ebcc_encode_request(&zero, &invalid_config).is_err());
}

#[test]
fn nan_input_names_first_index() {
    let mut values = ones();
    values[3 * 32 + 4] = f32::NAN;
    values[7 * 32] = f32::INFINITY;
    let data = grid_of((1, 32, 32), values);
    let err = ebcc_encode_request(&data, &EBCCConfig::new()).unwrap_err();
    assert_eq!(err.kind(), ErrorKind::InvalidInput);
    assert_eq!(err.message().as_str(), "Non-finite value at index 100");
}

#[test]
fn negative_infinity_is_rejected() {
    let mut values = ones();
    values[1023] = f32::NEG_INFINITY;
    let data = grid_of((1, 32, 32), values);
    let err = ebcc_encode_request(&data, &EBCCConfig::new()).unwrap_err();
    assert_eq!(err.kind(), ErrorKind::InvalidInput);
    assert_eq!(err.message().as_str(), "Non-finite value at index 1023");
}

#[test]
fn zero_dimension_is_rejected() {
    for dim in [(0, 32, 32), (1, 0, 32), (1, 32, 0)] {
        let data = Grid::zeros(dim).unwrap();
        let err = ebcc_encode_request(&data, &EBCCConfig::new()).unwrap_err();
        assert_eq!(err.kind(), ErrorKind::InvalidInput);
        assert_eq!(err.message().as_str(), "All dimensions must be > 0");
    }
}

#[test]
fn small_sides_are_rejected() {
    let data = Grid::zeros((2, 31, 40)).unwrap();
    let err = ebcc_encode_request(&data, &EBCCConfig::new()).unwrap_err();
    assert_eq!(err.kind(), ErrorKind::InvalidInput);
    assert_eq!(
        err.message().as_str(),
        "EBCC requires last two dimensions to be at least 32x32, got 31x40"
    );

    let data = Grid::zeros((1, 32, 31)).unwrap();
    let err = ebcc_encode_request(&data, &EBCCConfig::new()).unwrap_err();
    assert_eq!(
        err.message().as_str(),
        "EBCC requires last two dimensions to be at least 32x32, got 32x31"
    );
}

#[test]
fn shape_is_checked_before_policy() {
    let data = Grid::zeros((0, 32, 32)).unwrap();
    let config = EBCCConfig::jpeg2000_only((-1.0f32).to_bits());
    let err = ebcc_encode_request(&data, &config).unwrap_err();
    assert_eq!(err.kind(), ErrorKind::InvalidInput);
}

#[test]
fn policy_is_checked_before_elements() {
    let mut values = ones();
    values[0] = f32::NAN;
    let data = grid_of((1, 32, 32), values);
    let config = EBCCConfig::relative_error_bounded(10.0f32.to_bits(), 0.0f32.to_bits());
    let err = ebcc_encode_request(&data, &config).unwrap_err();
    assert_eq!(err.kind(), ErrorKind::InvalidConfig);
    assert_eq!(err.message().as_str(), "Error bound must be positive");
}

#[test]
fn invalid_policies_are_refused_before_encoding() {
    let data = grid_of((1, 32, 32), ones());
    let bad = [
        EBCCConfig::jpeg2000_only(0.0f32.to_bits()),
        EBCCConfig::jpeg2000_only((-0.0f32).to_bits()),
        EBCCConfig::max_absolute_error_bounded(10.0f32.to_bits(), 0.0f32.to_bits()),
        EBCCConfig::relative_error_bounded(10.0f32.to_bits(), (-2.5f32).to_bits()),
        EBCCConfig::relative_error_bounded((-3.0f32).to_bits(), 0.5f32.to_bits()),
    ];
    for config in bad {
        assert_eq!(config.validate().unwrap_err().kind(), ErrorKind::InvalidConfig);
        let err = ebcc_encode_request(&data, &config).unwrap_err();
        assert_eq!(err.kind(), ErrorKind::InvalidConfig);
    }
}
