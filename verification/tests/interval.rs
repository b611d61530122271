use raytracing_iow::config::AppConfig;
use raytracing_iow::interval::Interval;
use raytracing_iow::utils::map_poison_error;

#[test]
fn surrounds_is_strict_at_both_ends() {
    let r: std::ops::Range<u64> = 1..5;
    assert!(!r.surrounds(&1));
    assert!(r.surrounds(&2));
    assert!(r.surrounds(&4));
    assert!(!r.surrounds(&5));
    assert!(!r.surrounds(&0));
    assert!(!r.surrounds(&9));
}

#[test]
fn clamp_pulls_a_value_back_to_the_bounds() {
    let r: std::ops::Range<u64> = 2..10;
    assert_eq!(r.clamp(0), 2);
    assert_eq!(r.clamp(2), 2);
    assert_eq!(r.clamp(7), 7);
    assert_eq!(r.clamp(10), 10);
    assert_eq!(r.clamp(15), 10);
}

#[test]
fn signed_ranges_behave_the_same_way() {
    let r: std::ops::Range<i64> = -3..3;
    assert!(!r.surrounds(&-3));
    assert!(r.surrounds(&0));
    assert!(!r.surrounds(&3));
    assert_eq!(r.clamp(-8), -3);
    assert_eq!(r.clamp(8), 3);
    assert_eq!(r.clamp(1), 1);
}

#[test]
fn the_root_url_follows_the_deployment() {
    let local = AppConfig { shuttle: false };
    assert_eq!(local.root_url(), "http://localhost:8000");
    let deployed = AppConfig { shuttle: true };
    assert_eq!(deployed.root_url(), "https://raytracing-iow.shuttleapp.rs");
}

#[test]
fn a_poisoned_lock_becomes_a_labelled_error() {
    let e = std::sync::PoisonError::new(7u32);
    let err = map_poison_error(e);
    assert!(format!("{}", err).starts_with("Poison Error: "));
}
