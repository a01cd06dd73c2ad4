//! Geographic agent: unknown places, travel faster than a person can move,
//! and countries new to the user.

use vstd::prelude::*;
use vstd::string::*;
use crate::agents::{clamp, clamp_score, lemma_views_push, reason_from, reason_text};
use crate::models::transaction::{
    AgentDetails, AgentDetailsView, AgentScore, AgentScoreView, LocationView, Transaction,
    TransactionView,
};
use crate::text::{format_fixed, list_contains, rounded_text, same_text, string_views};

verus! {

/// Where and how long ago the user transacted before. Coordinates are in
/// microdegrees, the age in microseconds.
#[derive(Debug)]
pub struct RecentLocation {
    pub city: String,
    pub country: String,
    pub lat: i64,
    pub lon: i64,
    pub age_micros: i64,
}

/// The mathematical view of `RecentLocation`.
pub struct RecentLocationView {
    pub city: Seq<char>,
    pub country: Seq<char>,
    pub lat: int,
    pub lon: int,
    pub age_micros: int,
}

impl View for RecentLocation {
    type V = RecentLocationView;

    open spec fn view(&self) -> RecentLocationView {
        RecentLocationView {
            city: self.city@,
            country: self.country@,
            lat: self.lat as int,
            lon: self.lon as int,
            age_micros: self.age_micros as int,
        }
    }
}

impl Clone for RecentLocation {
    fn clone(&self) -> (copy: Self)
        ensures
            copy == *self,
    {
        RecentLocation {
            city: self.city.clone(),
            country: self.country.clone(),
            lat: self.lat,
            lon: self.lon,
            age_micros: self.age_micros,
        }
    }
}

/// What the data store holds for the geographic agent: the user's recent
/// locations, most recent first, and the great-circle distance in metres from
/// the most recent of them to the transaction's location. The distance is not
/// read when there is no recent location.
#[derive(Debug)]
pub struct GeographicHistory {
    pub recent: Vec<RecentLocation>,
    pub distance_from_last: u64,
}

/// The mathematical view of `GeographicHistory`.
pub struct GeographicHistoryView {
    pub recent: Seq<RecentLocationView>,
    pub distance_from_last: int,
}

impl View for GeographicHistory {
    type V = GeographicHistoryView;

    open spec fn view(&self) -> GeographicHistoryView {
        GeographicHistoryView {
            recent: Seq::new(self.recent@.len(), |i: int| self.recent@[i]@),
            distance_from_last: self.distance_from_last as int,
        }
    }
}

impl Clone for GeographicHistory {
    fn clone(&self) -> (copy: Self)
        ensures
            copy@ == self@,
    {
        let mut recent: Vec<RecentLocation> = Vec::new();
        let mut i: usize = 0;
        while i < self.recent.len()
            invariant
                i <= self.recent@.len(),
                recent@ == self.recent@.take(i as int),
            decreases self.recent@.len() - i,
        {
            recent.push(self.recent[i].clone());
            assert(recent@ =~= self.recent@.take(i + 1));
            i += 1;
        }
        assert(self.recent@.take(i as int) =~= self.recent@);
        let copy = GeographicHistory { recent, distance_from_last: self.distance_from_last };
        assert(copy@.recent =~= self@.recent);
        copy
    }
}

pub const UNKNOWN_LOCATION_RISK: u32 = 400_000_000;

pub const IMPOSSIBLE_TRAVEL_RISK: u32 = 500_000_000;

pub const UNLIKELY_TRAVEL_RISK: u32 = 300_000_000;

pub const NEW_COUNTRY_RISK: u32 = 200_000_000;

/// Travel beyond this many metres within `IMPOSSIBLE_TRAVEL_MICROS` is
/// impossible.
pub const IMPOSSIBLE_TRAVEL_METRES: u64 = 500_000;

/// One hour.
pub const IMPOSSIBLE_TRAVEL_MICROS: i64 = 3_600_000_000;

/// Travel beyond this many metres within `UNLIKELY_TRAVEL_MICROS` is unlikely.
pub const UNLIKELY_TRAVEL_METRES: u64 = 1_000_000;

/// Three hours.
pub const UNLIKELY_TRAVEL_MICROS: i64 = 10_800_000_000;

/// The place is one of the stand-ins for an unknown location.
pub open spec fn is_unknown_location(place: LocationView) -> bool {
    ||| place.country == "XX"@
    ||| place.city == "Unknown"@
    ||| (place.lat == 0 && place.lon == 0)
}

/// The countries of the recent locations, in order.
pub open spec fn countries(recent: Seq<RecentLocationView>) -> Seq<Seq<char>> {
    Seq::new(recent.len(), |i: int| recent[i].country)
}

/// Scores a transaction by where it takes place.
#[derive(Debug, Clone, Copy)]
pub struct GeographicAgent;

impl GeographicAgent {
    /// More than 500 km from the last location, less than an hour after it.
    pub open spec fn impossible_travel(history: GeographicHistoryView) -> bool {
        &&& history.recent.len() > 0
        &&& history.distance_from_last > IMPOSSIBLE_TRAVEL_METRES
        &&& history.recent[0].age_micros < IMPOSSIBLE_TRAVEL_MICROS
    }

    /// Not that, yet more than 1000 km, less than three hours after it.
    pub open spec fn unlikely_travel(history: GeographicHistoryView) -> bool {
        &&& history.recent.len() > 0
        &&& !Self::impossible_travel(history)
        &&& history.distance_from_last > UNLIKELY_TRAVEL_METRES
        &&& history.recent[0].age_micros < UNLIKELY_TRAVEL_MICROS
    }

    /// No recent location lies in the transaction's country.
    pub open spec fn new_country(
        transaction: TransactionView,
        history: GeographicHistoryView,
    ) -> bool {
        !countries(history.recent).contains(transaction.location.country)
    }

    /// The sum of the contributions, before it is cut to the range.
    pub open spec fn raw_risk(
        transaction: TransactionView,
        history: GeographicHistoryView,
    ) -> int {
        let unknown = if is_unknown_location(transaction.location) {
            UNKNOWN_LOCATION_RISK as int
        } else {
            0
        };
        let travel = if Self::impossible_travel(history) {
            IMPOSSIBLE_TRAVEL_RISK as int
        } else if Self::unlikely_travel(history) {
            UNLIKELY_TRAVEL_RISK as int
        } else {
            0
        };
        let country = if Self::new_country(transaction, history) {
            NEW_COUNTRY_RISK as int
        } else {
            0
        };
        unknown + travel + country
    }

    /// The distance in whole kilometres.
    pub open spec fn km_text(metres: int) -> Seq<char> {
        rounded_text(metres, 1_000, 0)
    }

    /// The age in hours, to one decimal.
    pub open spec fn hours_text(age_micros: int) -> Seq<char> {
        rounded_text(age_micros, 360_000_000, 1)
    }

    /// The triggered factors, in the order in which they are reported.
    pub open spec fn factors(
        transaction: TransactionView,
        history: GeographicHistoryView,
    ) -> Seq<Seq<char>> {
        let unknown = if is_unknown_location(transaction.location) {
            seq!["Unknown or suspicious location"@]
        } else {
            Seq::<Seq<char>>::empty()
        };
        let travel = if Self::impossible_travel(history) {
            seq![
                "Impossible travel: "@ + Self::km_text(history.distance_from_last) + "km in "@
                    + Self::hours_text(history.recent[0].age_micros) + " hours"@,
            ]
        } else if Self::unlikely_travel(history) {
            seq!["Unlikely travel pattern: "@ + Self::km_text(history.distance_from_last) + "km"@]
        } else {
            Seq::<Seq<char>>::empty()
        };
        let country = if Self::new_country(transaction, history) {
            seq!["First transaction in "@ + transaction.location.country]
        } else {
            Seq::<Seq<char>>::empty()
        };
        unknown + travel + country
    }

    /// What the agent reports for a transaction against a history.
    pub open spec fn spec_analyze(
        transaction: TransactionView,
        history: GeographicHistoryView,
    ) -> AgentScoreView {
        AgentScoreView {
            risk_score: clamp_score(Self::raw_risk(transaction, history)),
            reason: reason_text(
                Self::factors(transaction, history),
                "Normal location: "@ + transaction.location.city + ", "@
                    + transaction.location.country,
            ),
            details: AgentDetailsView::Geographic {
                city: transaction.location.city,
                country: transaction.location.country,
                recent_countries: countries(history.recent),
            },
        }
    }

    pub fn new() -> (agent: Self) {
        GeographicAgent
    }

    /// Scores the transaction by where it takes place. The same transaction
    /// and history always give the same score, reason and details, and the
    /// score lies between zero and one.
    pub fn analyze(
        &self,
        transaction: &Transaction,
        history: &GeographicHistory,
    ) -> (score: AgentScore)
        ensures
            score@ == Self::spec_analyze(transaction@, history@),
            score@.in_range(),
    {
        let place = &transaction.location;
        let mut risk: u32 = 0;
        let mut factors: Vec<String> = Vec::new();
        let unknown = same_text(place.country.as_str(), "XX") || same_text(
            place.city.as_str(),
            "Unknown",
        ) || (place.lat == 0 && place.lon == 0);
        if unknown {
            risk = risk + UNKNOWN_LOCATION_RISK;
            let factor = String::from_str("Unknown or suspicious location");
            proof {
                lemma_views_push(factors@, factor);
            }
            factors.push(factor);
        }
        if history.recent.len() > 0 {
            let age: i64 = history.recent[0].age_micros;
            let distance: u64 = history.distance_from_last;
            assert(history@.recent[0].age_micros == age);
            if distance > IMPOSSIBLE_TRAVEL_METRES && age < IMPOSSIBLE_TRAVEL_MICROS {
                risk = risk + IMPOSSIBLE_TRAVEL_RISK;
                let mut factor = String::from_str("Impossible travel: ");
                factor.append(format_fixed(distance as i128, 1_000, 0).as_str());
                factor.append("km in ");
                factor.append(format_fixed(age as i128, 360_000_000, 1).as_str());
                factor.append(" hours");
                proof {
                    lemma_views_push(factors@, factor);
                }
                factors.push(factor);
            } else if distance > UNLIKELY_TRAVEL_METRES && age < UNLIKELY_TRAVEL_MICROS {
                risk = risk + UNLIKELY_TRAVEL_RISK;
                let mut factor = String::from_str("Unlikely travel pattern: ");
                factor.append(format_fixed(distance as i128, 1_000, 0).as_str());
                factor.append("km");
                proof {
                    lemma_views_push(factors@, factor);
                }
                factors.push(factor);
            }
        }
        let known = recent_countries(&history.recent);
        if !list_contains(&known, &place.country) {
            risk = risk + NEW_COUNTRY_RISK;
            let mut factor = String::from_str("First transaction in ");
            factor.append(place.country.as_str());
            proof {
                lemma_views_push(factors@, factor);
            }
            factors.push(factor);
        }
        proof {
            assert(string_views(factors@) =~= Self::factors(transaction@, history@));
        }
        let mut normal = String::from_str("Normal location: ");
        normal.append(place.city.as_str());
        normal.append(", ");
        normal.append(place.country.as_str());
        AgentScore {
            risk_score: clamp(risk),
            reason: reason_from(&factors, normal),
            details: AgentDetails::Geographic {
                city: place.city.clone(),
                country: place.country.clone(),
                recent_countries: known,
            },
        }
    }
}

/// The countries of the recent locations, in order.
fn recent_countries(recent: &Vec<RecentLocation>) -> (known: Vec<String>)
    ensures
        string_views(known@) == countries(Seq::new(recent@.len(), |i: int| recent@[i]@)),
{
    let mut known: Vec<String> = Vec::new();
    let mut i: usize = 0;
    while i < recent.len()
        invariant
            i <= recent@.len(),
            known@.len() == i,
            forall|k: int| 0 <= k < i ==> known@[k]@ == recent@[k].country@,
        decreases recent@.len() - i,
    {
        known.push(recent[i].country.clone());
        i += 1;
    }
    assert(string_views(known@) =~= countries(Seq::new(recent@.len(), |i: int| recent@[i]@)));
    known
}


/// The reason names something whenever something added to the score: the
/// list of factors is empty exactly when no contribution was made.
pub proof fn lemma_geographic_factor_for_every_contribution(
    transaction: TransactionView,
    history: GeographicHistoryView,
)
    ensures
        GeographicAgent::factors(transaction, history).len() == 0 <==> GeographicAgent::raw_risk(
            transaction,
            history,
        ) == 0,
        GeographicAgent::factors(transaction, history).len() == 0
            ==> GeographicAgent::spec_analyze(transaction, history).risk_score == 0,
{
}

} // verus!
