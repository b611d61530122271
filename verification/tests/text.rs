use raytracing_iow::text::{
    decimal_string, download_url, hms_millis_string, hms_string, padded2_string, padded3_string,
    ppm_header, redirect_path, status_url,
};

#[test]
fn decimal_writes_plain_numbers() {
    assert_eq!(decimal_string(0), "0");
    assert_eq!(decimal_string(7), "7");
    assert_eq!(decimal_string(10), "10");
    assert_eq!(decimal_string(2043), "2043");
    assert_eq!(decimal_string(u64::MAX), "18446744073709551615");
}

#[test]
fn padding_widens_to_two_digits() {
    assert_eq!(padded2_string(0), "00");
    assert_eq!(padded2_string(5), "05");
    assert_eq!(padded2_string(42), "42");
    assert_eq!(padded2_string(123), "123");
}

#[test]
fn padding_widens_to_three_digits() {
    assert_eq!(padded3_string(0), "000");
    assert_eq!(padded3_string(5), "005");
    assert_eq!(padded3_string(42), "042");
    assert_eq!(padded3_string(123), "123");
    assert_eq!(padded3_string(1234), "1234");
}

#[test]
fn durations_are_split_into_hours_minutes_seconds() {
    assert_eq!(hms_string(0), "00:00:00");
    assert_eq!(hms_string(59), "00:00:59");
    assert_eq!(hms_string(3725), "01:02:05");
    assert_eq!(hms_string(90061), "25:01:01");
}

#[test]
fn millisecond_durations_wrap_at_a_day() {
    assert_eq!(hms_millis_string(0), "00:00:00.000");
    assert_eq!(hms_millis_string(3_725_042), "01:02:05.042");
    assert_eq!(hms_millis_string(90_061_001), "01:01:01.001");
}

#[test]
fn the_urls_name_the_job() {
    assert_eq!(status_url("http://localhost:8000", "42"), "http://localhost:8000/42");
    assert_eq!(
        download_url("https://raytracing-iow.shuttleapp.rs", "42"),
        "https://raytracing-iow.shuttleapp.rs/42/download"
    );
    assert_eq!(redirect_path("42"), "/42");
}

#[test]
fn the_ppm_header_names_the_dimensions() {
    assert_eq!(ppm_header(1200, 675), "P3\n1200 675\n255\n\n");
}
