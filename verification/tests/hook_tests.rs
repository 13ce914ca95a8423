use trail_stats::hook::{
    should_process, stats_collection, stats_description, stats_key, stats_or_default,
    STATS_DOC_VERSION,
};
use trail_stats::stats::TrailStats;

#[test]
fn only_trails_writes_qualify() {
    assert!(should_process(&"trails".to_string()));
    assert!(!should_process(&"stats".to_string()));
    assert!(!should_process(&"users".to_string()));
    assert!(!should_process(&"Trails".to_string()));
    assert!(!should_process(&"".to_string()));
}

#[test]
fn aggregate_location_is_fixed() {
    assert_eq!(stats_collection(), "stats");
    assert_eq!(stats_key(), "trail-stats");
    assert_eq!(stats_description(), "Trail statistics");
    assert_eq!(STATS_DOC_VERSION, 1);
}

#[test]
fn missing_aggregate_starts_from_zero() {
    let s = stats_or_default(None);
    assert_eq!(s.total_trails, 0);
    assert_eq!(f64::from_bits(s.total_distance), 0.0);
    assert_eq!(s.last_updated, "");
}

#[test]
fn existing_aggregate_is_kept() {
    let mut prior = TrailStats::new();
    prior.total_trails = 7;
    prior.difficulty_breakdown.expert = 3;
    prior.total_distance = 42.5f64.to_bits();
    let s = stats_or_default(Some(prior.clone()));
    assert_eq!(s.total_trails, 7);
    assert_eq!(s.difficulty_breakdown.expert, 3);
    assert_eq!(f64::from_bits(s.total_distance), 42.5);
}
