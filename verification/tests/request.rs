use raytracing_iow::request::{validate_request, RequestError, MAX_DEPTH, MAX_DIM, MAX_SAMPLES};

#[test]
fn a_reasonable_request_is_accepted() {
    assert_eq!(validate_request(300, 500, 100, 50), Ok(()));
}

#[test]
fn the_caps_themselves_are_accepted() {
    assert_eq!(validate_request(MAX_DIM, MAX_DIM, MAX_SAMPLES, MAX_DEPTH), Ok(()));
    assert_eq!(validate_request(1, 1, 0, 0), Ok(()));
}

#[test]
fn zero_width_is_rejected() {
    assert_eq!(
        validate_request(0, 500, 100, 50),
        Err(RequestError::DimensionsOutOfRange { width: 0, height: 500 })
    );
}

#[test]
fn oversized_height_is_rejected() {
    assert_eq!(
        validate_request(300, 3001, 100, 50),
        Err(RequestError::DimensionsOutOfRange { width: 300, height: 3001 })
    );
}

#[test]
fn too_many_samples_are_rejected() {
    assert_eq!(
        validate_request(300, 500, 501, 50),
        Err(RequestError::TooManySamples { samples_per_pixel: 501 })
    );
}

#[test]
fn too_deep_a_bounce_cap_is_rejected() {
    assert_eq!(
        validate_request(300, 500, 100, 51),
        Err(RequestError::DepthTooBig { max_depth: 51 })
    );
}

#[test]
fn dimension_check_comes_first() {
    assert_eq!(
        validate_request(0, 0, 501, 51),
        Err(RequestError::DimensionsOutOfRange { width: 0, height: 0 })
    );
}

#[test]
fn dimension_message_names_both_values_and_the_cap() {
    let e = RequestError::DimensionsOutOfRange { width: 0, height: 3001 };
    assert_eq!(
        e.message(),
        "Width or Height: (0, 3001) can't be greater than 3000 pixels and less than 1"
    );
}

#[test]
fn samples_message_names_the_value_and_the_cap() {
    let e = RequestError::TooManySamples { samples_per_pixel: 501 };
    assert_eq!(e.message(), "Too many Samples per Pixel: 501 out of 500");
}

#[test]
fn depth_message_names_the_value_and_the_cap() {
    let e = RequestError::DepthTooBig { max_depth: 51 };
    assert_eq!(e.message(), "Max Depth too big: 51 out of 50");
}
