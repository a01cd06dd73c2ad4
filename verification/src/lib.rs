//! Multi-agent fraud scoring: five independent heuristic agents, a weighted
//! aggregation of their scores and an approve / challenge / block policy.
//!
//! All quantities are fixed-point integers. Risk scores and confidences are
//! counted in billionths, fraud rates in millionths, money in cents, ages in
//! microseconds, distances in metres and coordinates in microdegrees.

pub mod agents;
pub mod analysis;
pub mod clock;
pub mod db;
pub mod embedding;
pub mod ident;
pub mod models;
pub mod text;

pub use agents::anomaly::{AnomalyAgent, AnomalyHistory, RecentTransaction};
pub use agents::geographic::{GeographicAgent, GeographicHistory, RecentLocation};
pub use agents::merchant::{MerchantAgent, MerchantHistory, MerchantInfo};
pub use agents::network::{NetworkAgent, NetworkHistory};
pub use agents::pattern::{PatternAgent, PatternHistory, SimilarTxn, UserBaseline};
pub use analysis::FraudAnalyzer;
pub use db::fork::generate_fork_name;
pub use embedding::embedding_to_pgvector;
pub use models::transaction::{
    AgentDetails, AgentError, AgentScore, AgentScores, AnalysisResult, Decision, Location,
    Timestamp, Transaction, TransactionRequest, SCORE_ONE,
};
