//! Transactions, per-agent scores and the final verdict.
//!
//! Every type with text in it has a view in which each string is the sequence
//! of its characters and each number a mathematical integer; the contracts of
//! the library speak of these views.

use vstd::prelude::*;
use vstd::string::*;
use crate::clock;
use crate::ident::{fresh_id, is_hyphenated_uuid};
use crate::text::{copy_strings, string_views};

verus! {

/// One whole risk score or confidence, in billionths.
pub const SCORE_ONE: u32 = 1_000_000_000;

/// A place on Earth. Coordinates are in microdegrees. No range is enforced:
/// callers may pass the unknown place (country "XX", city "Unknown", or both
/// coordinates zero), which the geographic agent treats specially.
#[derive(Debug)]
pub struct Location {
    pub city: String,
    pub country: String,
    pub lat: i64,
    pub lon: i64,
}

/// The mathematical view of `Location`.
pub struct LocationView {
    pub city: Seq<char>,
    pub country: Seq<char>,
    pub lat: int,
    pub lon: int,
}

impl View for Location {
    type V = LocationView;

    open spec fn view(&self) -> LocationView {
        LocationView {
            city: self.city@,
            country: self.country@,
            lat: self.lat as int,
            lon: self.lon as int,
        }
    }
}

impl Clone for Location {
    fn clone(&self) -> (copy: Self)
        ensures
            copy == *self,
    {
        Location {
            city: self.city.clone(),
            country: self.country.clone(),
            lat: self.lat,
            lon: self.lon,
        }
    }
}

/// An instant in UTC: whole seconds since the Unix epoch and the nanoseconds
/// past that second.
#[derive(Debug, Clone, Copy, PartialEq, Eq, Structural)]
pub struct Timestamp {
    pub secs: i64,
    pub nanos: u32,
}

/// The hour of the UTC day, 0 to 23, in which second `secs` of Unix time falls.
pub open spec fn hour_of_day(secs: int) -> int {
    (secs % 86_400) / 3_600
}

impl Timestamp {
    /// The hour of the UTC day in which this instant falls.
    pub fn hour(&self) -> (h: u32)
        ensures
            h == hour_of_day(self.secs as int),
            h < 24,
    {
        let in_day: i64 = match self.secs.checked_rem_euclid(86_400) {
            Some(r) => r,
            None => 0,
        };
        (in_day / 3_600) as u32
    }
}

/// A transaction under analysis. `amount` is in cents; it is expected to be
/// positive, which is not enforced.
#[derive(Debug)]
pub struct Transaction {
    pub transaction_id: String,
    pub user_id: String,
    pub amount: i64,
    pub merchant: String,
    pub merchant_category: String,
    pub location: Location,
    pub timestamp: Timestamp,
    pub payment_method: String,
    pub device_fingerprint: String,
}

/// The mathematical view of `Transaction`.
pub struct TransactionView {
    pub transaction_id: Seq<char>,
    pub user_id: Seq<char>,
    pub amount: int,
    pub merchant: Seq<char>,
    pub merchant_category: Seq<char>,
    pub location: LocationView,
    pub timestamp: Timestamp,
    pub payment_method: Seq<char>,
    pub device_fingerprint: Seq<char>,
}

impl View for Transaction {
    type V = TransactionView;

    open spec fn view(&self) -> TransactionView {
        TransactionView {
            transaction_id: self.transaction_id@,
            user_id: self.user_id@,
            amount: self.amount as int,
            merchant: self.merchant@,
            merchant_category: self.merchant_category@,
            location: self.location@,
            timestamp: self.timestamp,
            payment_method: self.payment_method@,
            device_fingerprint: self.device_fingerprint@,
        }
    }
}

impl Clone for Transaction {
    fn clone(&self) -> (copy: Self)
        ensures
            copy == *self,
    {
        Transaction {
            transaction_id: self.transaction_id.clone(),
            user_id: self.user_id.clone(),
            amount: self.amount,
            merchant: self.merchant.clone(),
            merchant_category: self.merchant_category.clone(),
            location: self.location.clone(),
            timestamp: self.timestamp,
            payment_method: self.payment_method.clone(),
            device_fingerprint: self.device_fingerprint.clone(),
        }
    }
}

/// What a caller submits: a transaction without its identifier and timestamp.
#[derive(Debug)]
pub struct TransactionRequest {
    pub user_id: String,
    pub amount: i64,
    pub merchant: String,
    pub merchant_category: String,
    pub location: Location,
    pub payment_method: String,
    pub device_fingerprint: String,
}

/// The mathematical view of `TransactionRequest`.
pub struct TransactionRequestView {
    pub user_id: Seq<char>,
    pub amount: int,
    pub merchant: Seq<char>,
    pub merchant_category: Seq<char>,
    pub location: LocationView,
    pub payment_method: Seq<char>,
    pub device_fingerprint: Seq<char>,
}

impl View for TransactionRequest {
    type V = TransactionRequestView;

    open spec fn view(&self) -> TransactionRequestView {
        TransactionRequestView {
            user_id: self.user_id@,
            amount: self.amount as int,
            merchant: self.merchant@,
            merchant_category: self.merchant_category@,
            location: self.location@,
            payment_method: self.payment_method@,
            device_fingerprint: self.device_fingerprint@,
        }
    }
}

impl Clone for TransactionRequest {
    fn clone(&self) -> (copy: Self)
        ensures
            copy == *self,
    {
        TransactionRequest {
            user_id: self.user_id.clone(),
            amount: self.amount,
            merchant: self.merchant.clone(),
            merchant_category: self.merchant_category.clone(),
            location: self.location.clone(),
            payment_method: self.payment_method.clone(),
            device_fingerprint: self.device_fingerprint.clone(),
        }
    }
}

/// The transaction that a request becomes once it has an identifier and a
/// timestamp: every field of the request, unchanged, beside the two.
pub open spec fn stamped(
    request: TransactionRequestView,
    transaction_id: Seq<char>,
    timestamp: Timestamp,
) -> TransactionView {
    TransactionView {
        transaction_id,
        user_id: request.user_id,
        amount: request.amount,
        merchant: request.merchant,
        merchant_category: request.merchant_category,
        location: request.location,
        timestamp,
        payment_method: request.payment_method,
        device_fingerprint: request.device_fingerprint,
    }
}

/// The verdict on a transaction.
#[derive(Debug, Clone, Copy, PartialEq, Eq, Structural)]
pub enum Decision {
    Approve,
    Challenge,
    Block,
}

impl Decision {
    /// The verdict's label.
    pub open spec fn label(self) -> Seq<char> {
        match self {
            Decision::Approve => "APPROVE"@,
            Decision::Challenge => "CHALLENGE"@,
            Decision::Block => "BLOCK"@,
        }
    }

    /// The verdict's label: "APPROVE", "CHALLENGE" or "BLOCK".
    pub fn as_str(&self) -> (s: &'static str)
        ensures
            s@ == self.label(),
    {
        match self {
            Decision::Approve => "APPROVE",
            Decision::Challenge => "CHALLENGE",
            Decision::Block => "BLOCK",
        }
    }
}

/// What an agent found, for diagnosis: one variant for each agent.
#[derive(Debug)]
pub enum AgentDetails {
    Anomaly { transactions_last_hour: usize, hour_of_day: u32, recent_transaction_count: usize },
    Geographic { city: String, country: String, recent_countries: Vec<String> },
    Merchant { merchant: String, category: String, fraud_patterns_found: i64 },
    Network { fraud_ring_detected: bool, users_sharing_device: i64, coordinated_transactions: i64 },
    /// `amount_deviation` and `fraud_in_similar` are in billionths, rounded down.
    Pattern {
        amount_deviation: u128,
        category_familiar: bool,
        fraud_in_similar: u32,
        similar_count: usize,
    },
}

/// The mathematical view of `AgentDetails`.
pub enum AgentDetailsView {
    Anomaly { transactions_last_hour: int, hour_of_day: int, recent_transaction_count: int },
    Geographic { city: Seq<char>, country: Seq<char>, recent_countries: Seq<Seq<char>> },
    Merchant { merchant: Seq<char>, category: Seq<char>, fraud_patterns_found: int },
    Network { fraud_ring_detected: bool, users_sharing_device: int, coordinated_transactions: int },
    Pattern {
        amount_deviation: int,
        category_familiar: bool,
        fraud_in_similar: int,
        similar_count: int,
    },
}

impl View for AgentDetails {
    type V = AgentDetailsView;

    open spec fn view(&self) -> AgentDetailsView {
        match *self {
            AgentDetails::Anomaly {
                transactions_last_hour,
                hour_of_day,
                recent_transaction_count,
            } => AgentDetailsView::Anomaly {
                transactions_last_hour: transactions_last_hour as int,
                hour_of_day: hour_of_day as int,
                recent_transaction_count: recent_transaction_count as int,
            },
            AgentDetails::Geographic { city, country, recent_countries } => AgentDetailsView::Geographic {
                city: city@,
                country: country@,
                recent_countries: string_views(recent_countries@),
            },
            AgentDetails::Merchant { merchant, category, fraud_patterns_found } => AgentDetailsView::Merchant {
                merchant: merchant@,
                category: category@,
                fraud_patterns_found: fraud_patterns_found as int,
            },
            AgentDetails::Network {
                fraud_ring_detected,
                users_sharing_device,
                coordinated_transactions,
            } => AgentDetailsView::Network {
                fraud_ring_detected,
                users_sharing_device: users_sharing_device as int,
                coordinated_transactions: coordinated_transactions as int,
            },
            AgentDetails::Pattern {
                amount_deviation,
                category_familiar,
                fraud_in_similar,
                similar_count,
            } => AgentDetailsView::Pattern {
                amount_deviation: amount_deviation as int,
                category_familiar,
                fraud_in_similar: fraud_in_similar as int,
                similar_count: similar_count as int,
            },
        }
    }
}

impl Clone for AgentDetails {
    fn clone(&self) -> (copy: Self)
        ensures
            copy@ == self@,
    {
        match self {
            AgentDetails::Anomaly {
                transactions_last_hour,
                hour_of_day,
                recent_transaction_count,
            } => AgentDetails::Anomaly {
                transactions_last_hour: *transactions_last_hour,
                hour_of_day: *hour_of_day,
                recent_transaction_count: *recent_transaction_count,
            },
            AgentDetails::Geographic { city, country, recent_countries } => AgentDetails::Geographic {
                city: city.clone(),
                country: country.clone(),
                recent_countries: copy_strings(recent_countries),
            },
            AgentDetails::Merchant { merchant, category, fraud_patterns_found } => AgentDetails::Merchant {
                merchant: merchant.clone(),
                category: category.clone(),
                fraud_patterns_found: *fraud_patterns_found,
            },
            AgentDetails::Network {
                fraud_ring_detected,
                users_sharing_device,
                coordinated_transactions,
            } => AgentDetails::Network {
                fraud_ring_detected: *fraud_ring_detected,
                users_sharing_device: *users_sharing_device,
                coordinated_transactions: *coordinated_transactions,
            },
            AgentDetails::Pattern {
                amount_deviation,
                category_familiar,
                fraud_in_similar,
                similar_count,
            } => AgentDetails::Pattern {
                amount_deviation: *amount_deviation,
                category_familiar: *category_familiar,
                fraud_in_similar: *fraud_in_similar,
                similar_count: *similar_count,
            },
        }
    }
}

/// One agent's finding: a risk score in billionths, the reasons for it in
/// words, and the agent's own diagnostic details.
#[derive(Debug)]
pub struct AgentScore {
    pub risk_score: u32,
    pub reason: String,
    pub details: AgentDetails,
}

/// The mathematical view of `AgentScore`.
pub struct AgentScoreView {
    pub risk_score: int,
    pub reason: Seq<char>,
    pub details: AgentDetailsView,
}

impl View for AgentScore {
    type V = AgentScoreView;

    open spec fn view(&self) -> AgentScoreView {
        AgentScoreView {
            risk_score: self.risk_score as int,
            reason: self.reason@,
            details: self.details@,
        }
    }
}

impl Clone for AgentScore {
    fn clone(&self) -> (copy: Self)
        ensures
            copy@ == self@,
    {
        AgentScore {
            risk_score: self.risk_score,
            reason: self.reason.clone(),
            details: self.details.clone(),
        }
    }
}

impl AgentScoreView {
    /// The score lies between zero and one.
    pub open spec fn in_range(self) -> bool {
        0 <= self.risk_score <= SCORE_ONE
    }
}

/// The four per-agent scores that the final result shows. The network agent's
/// score enters the weighted score and the ring flag, and is not shown here.
#[derive(Debug, Clone, Copy, PartialEq, Eq, Structural)]
pub struct AgentScores {
    pub pattern: u32,
    pub anomaly: u32,
    pub geographic: u32,
    pub merchant: u32,
}

/// The outcome of one analysis. `confidence` is in billionths.
#[derive(Debug)]
pub struct AnalysisResult {
    pub decision: Decision,
    pub confidence: u32,
    pub latency_ms: u64,
    pub agent_scores: AgentScores,
    pub fraud_ring_detected: bool,
    pub reasoning: String,
}

/// The mathematical view of `AnalysisResult`.
pub struct AnalysisResultView {
    pub decision: Decision,
    pub confidence: int,
    pub latency_ms: int,
    pub agent_scores: AgentScores,
    pub fraud_ring_detected: bool,
    pub reasoning: Seq<char>,
}

impl View for AnalysisResult {
    type V = AnalysisResultView;

    open spec fn view(&self) -> AnalysisResultView {
        AnalysisResultView {
            decision: self.decision,
            confidence: self.confidence as int,
            latency_ms: self.latency_ms as int,
            agent_scores: self.agent_scores,
            fraud_ring_detected: self.fraud_ring_detected,
            reasoning: self.reasoning@,
        }
    }
}

impl Clone for AnalysisResult {
    fn clone(&self) -> (copy: Self)
        ensures
            copy == *self,
    {
        AnalysisResult {
            decision: self.decision,
            confidence: self.confidence,
            latency_ms: self.latency_ms,
            agent_scores: self.agent_scores,
            fraud_ring_detected: self.fraud_ring_detected,
            reasoning: self.reasoning.clone(),
        }
    }
}

/// Why an agent could not score: the data store failed, or the embedding
/// service did. Each carries the collaborator's message.
#[derive(Debug)]
pub enum AgentError {
    Store(String),
    Embedding(String),
}

/// The mathematical view of `AgentError`.
pub enum AgentErrorView {
    Store(Seq<char>),
    Embedding(Seq<char>),
}

impl View for AgentError {
    type V = AgentErrorView;

    open spec fn view(&self) -> AgentErrorView {
        match *self {
            AgentError::Store(message) => AgentErrorView::Store(message@),
            AgentError::Embedding(message) => AgentErrorView::Embedding(message@),
        }
    }
}

impl Clone for AgentError {
    fn clone(&self) -> (copy: Self)
        ensures
            copy == *self,
    {
        match self {
            AgentError::Store(message) => AgentError::Store(message.clone()),
            AgentError::Embedding(message) => AgentError::Embedding(message.clone()),
        }
    }
}

impl AgentErrorView {
    /// The failure in words: a store failure speaks for itself, an embedding
    /// failure is tagged as such.
    pub open spec fn message(self) -> Seq<char> {
        match self {
            AgentErrorView::Store(message) => message,
            AgentErrorView::Embedding(message) => "Embedding failed: "@ + message,
        }
    }
}

impl AgentError {
    /// The failure in words.
    pub fn message(&self) -> (text: String)
        ensures
            text@ == self@.message(),
    {
        match self {
            AgentError::Store(message) => message.clone(),
            AgentError::Embedding(message) => {
                let mut text = String::from_str("Embedding failed: ");
                text.append(message.as_str());
                text
            },
        }
    }
}

impl TransactionRequest {
    /// The transaction that this request becomes under the given identifier
    /// and timestamp.
    pub fn with_identity(&self, transaction_id: String, timestamp: Timestamp) -> (t: Transaction)
        ensures
            t@ == stamped(self@, transaction_id@, timestamp),
    {
        Transaction {
            transaction_id,
            user_id: self.user_id.clone(),
            amount: self.amount,
            merchant: self.merchant.clone(),
            merchant_category: self.merchant_category.clone(),
            location: self.location.clone(),
            timestamp,
            payment_method: self.payment_method.clone(),
            device_fingerprint: self.device_fingerprint.clone(),
        }
    }

    /// Derives the transaction to analyse: the request's fields under a fresh
    /// random identifier, stamped with the current time. Which identifier and
    /// which instant is not determined by the request; whatever they are, the
    /// identifier is a hyphenated UUID and the nanoseconds stay below a second.
    pub fn to_transaction(&self) -> (t: Transaction)
        ensures
            t@ == stamped(self@, t.transaction_id@, t.timestamp),
            is_hyphenated_uuid(t.transaction_id@),
            t.timestamp.nanos < 1_000_000_000,
    {
        let id = fresh_id();
        let at = clock::now();
        self.with_identity(id, at)
    }
}

} // verus!
