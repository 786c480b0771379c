use turbo_cdn::config::sections::Region;
use turbo_cdn::config::Region as ConfiguredRegion;
use turbo_cdn::geo_detection::{cdn_to_region, country_to_region, detection_is_fresh};
use turbo_cdn::load_balancer::{least_connections_index, round_robin_index, LoadBalancingStrategy};
use turbo_cdn::router::{primary_url_count, RegionOptimizer};

#[test]
fn region_preferences_boost_sources() {
    let mut o = RegionOptimizer::new(Region::NorthAmerica);
    assert_eq!(o.region_boost("github"), 20);
    assert_eq!(o.region_boost("jsdelivr"), 5);
    assert_eq!(o.region_boost("unknown"), 0);
    o.set_region(Region::China);
    assert_eq!(o.region_boost("fastly"), 20);
    o.set_region(Region::Global);
    assert_eq!(o.region_boost("fastly"), 0);
    assert_eq!(primary_url_count(2), 2);
    assert_eq!(primary_url_count(7), 3);
}

#[test]
fn countries_and_cdns_map_to_regions() {
    assert_eq!(country_to_region("CN"), ConfiguredRegion::China);
    assert_eq!(country_to_region("CA"), ConfiguredRegion::NorthAmerica);
    assert_eq!(country_to_region("DE"), ConfiguredRegion::Europe);
    assert_eq!(country_to_region("JP"), ConfiguredRegion::AsiaPacific);
    assert_eq!(country_to_region("BR"), ConfiguredRegion::Global);
    assert_eq!(cdn_to_region("github"), ConfiguredRegion::NorthAmerica);
    assert_eq!(cdn_to_region("jsdelivr"), ConfiguredRegion::Europe);
    assert_eq!(cdn_to_region("fastly"), ConfiguredRegion::China);
    assert_eq!(cdn_to_region("cloudflare"), ConfiguredRegion::Global);
}

#[test]
fn cached_detections_expire() {
    assert!(detection_is_fresh(1_000, 2_000, 2));
    assert!(!detection_is_fresh(1_000, 3_000, 2));
    assert!(!detection_is_fresh(5_000, 1_000, 100));
}

#[test]
fn selections_without_scores() {
    assert_eq!(round_robin_index(7, 3), 1);
    assert_eq!(least_connections_index(&vec![3, 1, 2, 1]), Some(1));
    assert_eq!(least_connections_index(&vec![]), None);
    assert_eq!(LoadBalancingStrategy::LeastConnections.name(), "LeastConnections");
}
