use fraudswarm::{
    AgentDetails, GeographicAgent, GeographicHistory, Location, RecentLocation, Timestamp,
    Transaction,
};

const HOUR: i64 = 3_600_000_000;

fn place(city: &str, country: &str, lat: f64, lon: f64) -> Location {
    Location {
        city: city.to_string(),
        country: country.to_string(),
        lat: (lat * 1e6).round() as i64,
        lon: (lon * 1e6).round() as i64,
    }
}

fn geo_txn(location: Location) -> Transaction {
    Transaction {
        transaction_id: "t-1".to_string(),
        user_id: "user_traveler_321".to_string(),
        amount: 45_000,
        merchant: "Hilton Hotel".to_string(),
        merchant_category: "hotels".to_string(),
        location,
        timestamp: Timestamp { secs: 1_700_000_000, nanos: 0 },
        payment_method: "credit_card".to_string(),
        device_fingerprint: "fp_1".to_string(),
    }
}

fn seen(location: &Location, age_micros: i64) -> RecentLocation {
    RecentLocation {
        city: location.city.clone(),
        country: location.country.clone(),
        lat: location.lat,
        lon: location.lon,
        age_micros,
    }
}

/// Great-circle distance in metres between two places, by the haversine
/// formula on a sphere of radius 6371 km.
fn haversine_metres(a: &Location, b: &Location) -> u64 {
    let lat1 = (a.lat as f64 / 1e6).to_radians();
    let lat2 = (b.lat as f64 / 1e6).to_radians();
    let delta_lat = ((b.lat - a.lat) as f64 / 1e6).to_radians();
    let delta_lon = ((b.lon - a.lon) as f64 / 1e6).to_radians();
    let h = (delta_lat / 2.0).sin().powi(2)
        + lat1.cos() * lat2.cos() * (delta_lon / 2.0).sin().powi(2);
    let c = 2.0 * h.sqrt().atan2((1.0 - h).sqrt());
    (6371.0 * c * 1000.0).round() as u64
}

#[test]
fn the_same_place_at_the_same_time_is_no_travel() {
    let new_york = place("New York", "US", 40.7128, -74.0060);
    let distance = haversine_metres(&new_york, &new_york);
    assert_eq!(distance, 0);
    let history = GeographicHistory {
        recent: vec![seen(&new_york, 0)],
        distance_from_last: distance,
    };
    let score = GeographicAgent::new().analyze(&geo_txn(new_york), &history);
    assert_eq!(score.risk_score, 0);
    assert_eq!(score.reason, "Normal location: New York, US");
}

#[test]
fn new_york_to_london_in_half_an_hour_is_impossible() {
    let new_york = place("New York", "US", 40.7128, -74.0060);
    let london = place("London", "GB", 51.5074, -0.1278);
    let distance = haversine_metres(&london, &new_york);
    assert!(distance > 5_500_000 && distance < 5_650_000);
    let history = GeographicHistory {
        recent: vec![seen(&new_york, HOUR / 2), seen(&london, 30 * HOUR)],
        distance_from_last: distance,
    };
    let score = GeographicAgent::new().analyze(&geo_txn(london), &history);
    assert_eq!(score.risk_score, 500_000_000);
    assert_eq!(score.reason, "Impossible travel: 5570km in 0.5 hours");
}

#[test]
fn the_impossible_band_needs_more_than_500_km_in_less_than_an_hour() {
    let agent = GeographicAgent::new();
    let home = place("Austin", "US", 30.2672, -97.7431);
    let at_distance = GeographicHistory {
        recent: vec![seen(&home, HOUR / 2)],
        distance_from_last: 500_000,
    };
    assert_eq!(agent.analyze(&geo_txn(home.clone()), &at_distance).risk_score, 0);
    let above_distance = GeographicHistory {
        recent: vec![seen(&home, HOUR - 1)],
        distance_from_last: 500_001,
    };
    assert_eq!(agent.analyze(&geo_txn(home.clone()), &above_distance).risk_score, 500_000_000);
    let at_hour = GeographicHistory {
        recent: vec![seen(&home, HOUR)],
        distance_from_last: 500_001,
    };
    assert_eq!(agent.analyze(&geo_txn(home), &at_hour).risk_score, 0);
}

#[test]
fn the_unlikely_band_needs_more_than_1000_km_in_less_than_three_hours() {
    let agent = GeographicAgent::new();
    let home = place("Austin", "US", 30.2672, -97.7431);
    let unlikely = GeographicHistory {
        recent: vec![seen(&home, 2 * HOUR)],
        distance_from_last: 1_500_400,
    };
    let score = agent.analyze(&geo_txn(home.clone()), &unlikely);
    assert_eq!(score.risk_score, 300_000_000);
    assert_eq!(score.reason, "Unlikely travel pattern: 1500km");
    let at_distance = GeographicHistory {
        recent: vec![seen(&home, 2 * HOUR)],
        distance_from_last: 1_000_000,
    };
    assert_eq!(agent.analyze(&geo_txn(home.clone()), &at_distance).risk_score, 0);
    let at_three_hours = GeographicHistory {
        recent: vec![seen(&home, 3 * HOUR)],
        distance_from_last: 1_500_000,
    };
    assert_eq!(agent.analyze(&geo_txn(home.clone()), &at_three_hours).risk_score, 0);
    let stricter_first = GeographicHistory {
        recent: vec![seen(&home, HOUR / 4)],
        distance_from_last: 1_500_000,
    };
    let both = agent.analyze(&geo_txn(home), &stricter_first);
    assert_eq!(both.risk_score, 500_000_000);
    assert_eq!(both.reason, "Impossible travel: 1500km in 0.2 hours");
}

#[test]
fn the_distance_is_not_read_without_a_recent_location() {
    let home = place("Austin", "US", 30.2672, -97.7431);
    let history = GeographicHistory { recent: Vec::new(), distance_from_last: 9_000_000 };
    let score = GeographicAgent::new().analyze(&geo_txn(home), &history);
    assert_eq!(score.risk_score, 200_000_000);
    assert_eq!(score.reason, "First transaction in US");
}

#[test]
fn an_unknown_location_is_suspicious() {
    let agent = GeographicAgent::new();
    let home = place("Austin", "US", 30.2672, -97.7431);
    let known = |location: &Location| GeographicHistory {
        recent: vec![RecentLocation {
            city: "Austin".to_string(),
            country: location.country.clone(),
            lat: home.lat,
            lon: home.lon,
            age_micros: 48 * HOUR,
        }],
        distance_from_last: 0,
    };
    for unknown in [
        place("Austin", "XX", 30.2672, -97.7431),
        place("Unknown", "US", 30.2672, -97.7431),
        place("Austin", "US", 0.0, 0.0),
    ] {
        let score = agent.analyze(&geo_txn(unknown.clone()), &known(&unknown));
        assert_eq!(score.risk_score, 400_000_000);
        assert_eq!(score.reason, "Unknown or suspicious location");
    }
    for fine in [
        place("Austin", "US", 0.0, 10.0),
        place("Austin", "US", 10.0, 0.0),
        place("unknown", "xx", 1.0, 1.0),
    ] {
        let score = agent.analyze(&geo_txn(fine.clone()), &known(&fine));
        assert_eq!(score.risk_score, 0);
    }
}

#[test]
fn a_country_not_seen_before_is_new() {
    let paris = place("Paris", "FR", 48.8566, 2.3522);
    let austin = place("Austin", "US", 30.2672, -97.7431);
    let berlin = place("Berlin", "DE", 52.52, 13.405);
    let history = GeographicHistory {
        recent: vec![seen(&austin, 30 * HOUR), seen(&berlin, 60 * HOUR)],
        distance_from_last: 8_200_000,
    };
    let score = GeographicAgent::new().analyze(&geo_txn(paris), &history);
    assert_eq!(score.risk_score, 200_000_000);
    assert_eq!(score.reason, "First transaction in FR");
    match score.details {
        AgentDetails::Geographic { city, country, recent_countries } => {
            assert_eq!(city, "Paris");
            assert_eq!(country, "FR");
            assert_eq!(recent_countries, vec!["US".to_string(), "DE".to_string()]);
        }
        _ => panic!("details of another agent"),
    }
    let back = GeographicHistory {
        recent: vec![seen(&austin, 30 * HOUR), seen(&berlin, 60 * HOUR)],
        distance_from_last: 8_500_000,
    };
    assert_eq!(GeographicAgent::new().analyze(&geo_txn(berlin), &back).risk_score, 0);
}

#[test]
fn geographic_risk_is_cut_at_one() {
    let nowhere = place("Unknown", "XX", 0.0, 0.0);
    let austin = place("Austin", "US", 30.2672, -97.7431);
    let history = GeographicHistory {
        recent: vec![seen(&austin, HOUR / 10)],
        distance_from_last: 10_451_000,
    };
    let score = GeographicAgent::new().analyze(&geo_txn(nowhere), &history);
    assert_eq!(score.risk_score, 1_000_000_000);
    assert_eq!(
        score.reason,
        "Unknown or suspicious location; Impossible travel: 10451km in 0.1 hours; \
         First transaction in XX"
    );
}
