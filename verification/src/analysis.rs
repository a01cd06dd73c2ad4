//! The orchestrator: collects the five agents' findings, weighs their scores
//! and decides.

use vstd::prelude::*;
use vstd::string::*;
use crate::agents::anomaly::{AnomalyAgent, AnomalyHistory, RecentTransaction};
use crate::agents::geographic::{GeographicAgent, GeographicHistory, GeographicHistoryView};
use crate::agents::merchant::{MerchantAgent, MerchantHistory, MerchantHistoryView};
use crate::agents::network::{ring_prefix, NetworkAgent, NetworkHistory};
use crate::agents::pattern::{PatternAgent, PatternHistory, PatternHistoryView};
use crate::clock;
use crate::models::transaction::{
    AgentError, AgentErrorView, AgentScore, AgentScoreView, AgentScores, AnalysisResult,
    AnalysisResultView, Decision, Transaction, TransactionView, SCORE_ONE,
};
use crate::text::{
    contains, decimal_digits, digit_char, integer_text, join, occurs_at, str_contains,
};

verus! {

/// The agents' weights, in hundredths. They add up to one.
pub const PATTERN_WEIGHT: u64 = 25;

pub const ANOMALY_WEIGHT: u64 = 20;

pub const GEOGRAPHIC_WEIGHT: u64 = 15;

pub const MERCHANT_WEIGHT: u64 = 25;

pub const NETWORK_WEIGHT: u64 = 15;

/// One whole weighted score. A weighted score is a sum of scores in
/// billionths times weights in hundredths, so it counts hundred-billionths.
pub const WEIGHTED_ONE: u64 = 100_000_000_000;

/// A weighted score above this blocks: 0.70.
pub const BLOCK_THRESHOLD: u64 = 70_000_000_000;

/// A weighted score above this, up to the block threshold, challenges: 0.40.
pub const CHALLENGE_THRESHOLD: u64 = 40_000_000_000;

/// Confidence of a block for a fraud ring, in billionths.
pub const RING_CONFIDENCE: u32 = 950_000_000;

pub const BLOCK_CONFIDENCE: u32 = 900_000_000;

pub const CHALLENGE_CONFIDENCE: u32 = 750_000_000;

pub const APPROVE_CONFIDENCE: u32 = 850_000_000;

/// The weighted sum of the five scores.
pub open spec fn weighted(
    pattern: int,
    anomaly: int,
    geographic: int,
    merchant: int,
    network: int,
) -> int {
    PATTERN_WEIGHT * pattern + ANOMALY_WEIGHT * anomaly + GEOGRAPHIC_WEIGHT * geographic
        + MERCHANT_WEIGHT * merchant + NETWORK_WEIGHT * network
}

/// The policy, first match first: a fraud ring blocks, whatever the score; a
/// score above 0.70 blocks; one above 0.40 challenges; anything else is
/// approved. Both comparisons are strict.
pub open spec fn verdict(weighted_score: int, fraud_ring: bool) -> (Decision, int) {
    if fraud_ring {
        (Decision::Block, RING_CONFIDENCE as int)
    } else if weighted_score > BLOCK_THRESHOLD {
        (Decision::Block, BLOCK_CONFIDENCE as int)
    } else if weighted_score > CHALLENGE_THRESHOLD {
        (Decision::Challenge, CHALLENGE_CONFIDENCE as int)
    } else {
        (Decision::Approve, APPROVE_CONFIDENCE as int)
    }
}

/// The words by which the network agent's reason tells of a fraud ring.
pub open spec fn ring_marker() -> Seq<char> {
    "FRAUD RING DETECTED"@
}

/// The network agent's reason tells of a fraud ring.
pub open spec fn ring_reported(network_reason: Seq<char>) -> bool {
    contains(network_reason, ring_marker())
}

/// The five reasons in fixed order, each under its agent's name.
pub open spec fn reasoning(
    pattern: Seq<char>,
    anomaly: Seq<char>,
    geographic: Seq<char>,
    merchant: Seq<char>,
    network: Seq<char>,
) -> Seq<char> {
    "Pattern: "@ + pattern + " | Anomaly: "@ + anomaly + " | Geographic: "@ + geographic
        + " | Merchant: "@ + merchant + " | Network: "@ + network
}

/// The result that five findings and a latency make.
pub open spec fn aggregated(
    pattern: AgentScoreView,
    anomaly: AgentScoreView,
    geographic: AgentScoreView,
    merchant: AgentScoreView,
    network: AgentScoreView,
    latency_ms: int,
) -> AnalysisResultView {
    let fraud_ring = ring_reported(network.reason);
    let outcome = verdict(
        weighted(
            pattern.risk_score,
            anomaly.risk_score,
            geographic.risk_score,
            merchant.risk_score,
            network.risk_score,
        ),
        fraud_ring,
    );
    AnalysisResultView {
        decision: outcome.0,
        confidence: outcome.1,
        latency_ms,
        agent_scores: AgentScores {
            pattern: pattern.risk_score as u32,
            anomaly: anomaly.risk_score as u32,
            geographic: geographic.risk_score as u32,
            merchant: merchant.risk_score as u32,
        },
        fraud_ring_detected: fraud_ring,
        reasoning: reasoning(
            pattern.reason,
            anomaly.reason,
            geographic.reason,
            merchant.reason,
            network.reason,
        ),
    }
}

/// The failure that an analysis ends with: that of the first agent, in the
/// order pattern, anomaly, geographic, merchant, network, whose history could
/// not be had. There is none when all five histories are there.
pub open spec fn first_failure(
    pattern: Result<PatternHistory, AgentError>,
    anomaly: Result<AnomalyHistory, AgentError>,
    geographic: Result<GeographicHistory, AgentError>,
    merchant: Result<MerchantHistory, AgentError>,
    network: Result<NetworkHistory, AgentError>,
) -> Option<AgentErrorView> {
    if let Err(e) = pattern {
        Some(e@)
    } else if let Err(e) = anomaly {
        Some(e@)
    } else if let Err(e) = geographic {
        Some(e@)
    } else if let Err(e) = merchant {
        Some(e@)
    } else if let Err(e) = network {
        Some(e@)
    } else {
        None
    }
}

/// The result of analysing a transaction against five histories, in hour
/// `hour` of the UTC day, when the analysis took `latency_ms`.
pub open spec fn analysis(
    transaction: TransactionView,
    pattern: PatternHistoryView,
    anomaly: Seq<RecentTransaction>,
    geographic: GeographicHistoryView,
    merchant: MerchantHistoryView,
    network: NetworkHistory,
    hour: int,
    latency_ms: int,
) -> AnalysisResultView {
    aggregated(
        PatternAgent::spec_analyze(transaction, pattern),
        AnomalyAgent::spec_analyze(transaction, anomaly, hour),
        GeographicAgent::spec_analyze(transaction, geographic),
        MerchantAgent::spec_analyze(transaction, merchant),
        NetworkAgent::spec_analyze(network),
        latency_ms,
    )
}

/// Runs the five agents on one transaction and turns their findings into a
/// verdict.
#[derive(Debug, Clone, Copy)]
pub struct FraudAnalyzer {
    pattern_agent: PatternAgent,
    anomaly_agent: AnomalyAgent,
    geographic_agent: GeographicAgent,
    merchant_agent: MerchantAgent,
    network_agent: NetworkAgent,
}

impl FraudAnalyzer {
    pub fn new() -> (analyzer: Self) {
        FraudAnalyzer {
            pattern_agent: PatternAgent::new(),
            anomaly_agent: AnomalyAgent::new(),
            geographic_agent: GeographicAgent::new(),
            merchant_agent: MerchantAgent::new(),
            network_agent: NetworkAgent::new(),
        }
    }

    /// The weighted sum of the five scores, in hundred-billionths. It is
    /// exact: no rounding takes place.
    pub fn weighted_score(
        pattern: u32,
        anomaly: u32,
        geographic: u32,
        merchant: u32,
        network: u32,
    ) -> (score: u64)
        ensures
            score == weighted(
                pattern as int,
                anomaly as int,
                geographic as int,
                merchant as int,
                network as int,
            ),
    {
        PATTERN_WEIGHT * (pattern as u64) + ANOMALY_WEIGHT * (anomaly as u64)
            + GEOGRAPHIC_WEIGHT * (geographic as u64) + MERCHANT_WEIGHT * (merchant as u64)
            + NETWORK_WEIGHT * (network as u64)
    }

    /// Applies the policy to a weighted score and the ring flag.
    pub fn decide(weighted_score: u64, fraud_ring: bool) -> (outcome: (Decision, u32))
        ensures
            outcome.0 == verdict(weighted_score as int, fraud_ring).0,
            outcome.1 == verdict(weighted_score as int, fraud_ring).1,
    {
        if fraud_ring {
            (Decision::Block, RING_CONFIDENCE)
        } else if weighted_score > BLOCK_THRESHOLD {
            (Decision::Block, BLOCK_CONFIDENCE)
        } else if weighted_score > CHALLENGE_THRESHOLD {
            (Decision::Challenge, CHALLENGE_CONFIDENCE)
        } else {
            (Decision::Approve, APPROVE_CONFIDENCE)
        }
    }

    /// Whether the network agent's reason tells of a fraud ring.
    pub fn ring_reported(network_reason: &str) -> (reported: bool)
        ensures
            reported == ring_reported(network_reason@),
    {
        str_contains(network_reason, "FRAUD RING DETECTED")
    }

    /// Turns five findings into the result: the weighted score decides,
    /// unless the network agent reports a fraud ring, which blocks.
    pub fn aggregate(
        &self,
        pattern: &AgentScore,
        anomaly: &AgentScore,
        geographic: &AgentScore,
        merchant: &AgentScore,
        network: &AgentScore,
        latency_ms: u64,
    ) -> (result: AnalysisResult)
        ensures
            result@ == aggregated(
                pattern@,
                anomaly@,
                geographic@,
                merchant@,
                network@,
                latency_ms as int,
            ),
    {
        let score = Self::weighted_score(
            pattern.risk_score,
            anomaly.risk_score,
            geographic.risk_score,
            merchant.risk_score,
            network.risk_score,
        );
        let fraud_ring = Self::ring_reported(network.reason.as_str());
        let outcome = Self::decide(score, fraud_ring);
        let mut text = String::from_str("Pattern: ");
        text.append(pattern.reason.as_str());
        text.append(" | Anomaly: ");
        text.append(anomaly.reason.as_str());
        text.append(" | Geographic: ");
        text.append(geographic.reason.as_str());
        text.append(" | Merchant: ");
        text.append(merchant.reason.as_str());
        text.append(" | Network: ");
        text.append(network.reason.as_str());
        AnalysisResult {
            decision: outcome.0,
            confidence: outcome.1,
            latency_ms,
            agent_scores: AgentScores {
                pattern: pattern.risk_score,
                anomaly: anomaly.risk_score,
                geographic: geographic.risk_score,
                merchant: merchant.risk_score,
            },
            fraud_ring_detected: fraud_ring,
            reasoning: text,
        }
    }

    /// Analyses the transaction against the five histories as if in hour
    /// `hour` of the UTC day, and records `latency_ms` as the time taken.
    ///
    /// All or nothing: when any history could not be had, the analysis fails
    /// with the failure of the first such agent and yields no result;
    /// otherwise it succeeds with the result that the five agents' findings
    /// make.
    pub fn analyze_transaction_at(
        &self,
        transaction: &Transaction,
        pattern: Result<PatternHistory, AgentError>,
        anomaly: Result<AnomalyHistory, AgentError>,
        geographic: Result<GeographicHistory, AgentError>,
        merchant: Result<MerchantHistory, AgentError>,
        network: Result<NetworkHistory, AgentError>,
        hour: u32,
        latency_ms: u64,
    ) -> (result: Result<AnalysisResult, AgentError>)
        ensures
            match first_failure(pattern, anomaly, geographic, merchant, network) {
                Some(failure) => result is Err && result->Err_0@ == failure,
                None => result is Ok && result->Ok_0@ == analysis(
                    transaction@,
                    pattern->Ok_0@,
                    anomaly->Ok_0@,
                    geographic->Ok_0@,
                    merchant->Ok_0@,
                    network->Ok_0,
                    hour as int,
                    latency_ms as int,
                ),
            },
    {
        match self.findings(transaction, pattern, anomaly, geographic, merchant, network, hour) {
            Ok(found) => Ok(
                self.aggregate(&found.0, &found.1, &found.2, &found.3, &found.4, latency_ms),
            ),
            Err(failure) => Err(failure),
        }
    }

    /// The five agents' findings, or the first failure.
    fn findings(
        &self,
        transaction: &Transaction,
        pattern: Result<PatternHistory, AgentError>,
        anomaly: Result<AnomalyHistory, AgentError>,
        geographic: Result<GeographicHistory, AgentError>,
        merchant: Result<MerchantHistory, AgentError>,
        network: Result<NetworkHistory, AgentError>,
        hour: u32,
    ) -> (result: Result<(AgentScore, AgentScore, AgentScore, AgentScore, AgentScore), AgentError>)
        ensures
            match first_failure(pattern, anomaly, geographic, merchant, network) {
                Some(failure) => result is Err && result->Err_0@ == failure,
                None => {
                    &&& result is Ok
                    &&& result->Ok_0.0@ == PatternAgent::spec_analyze(
                        transaction@,
                        pattern->Ok_0@,
                    )
                    &&& result->Ok_0.1@ == AnomalyAgent::spec_analyze(
                        transaction@,
                        anomaly->Ok_0@,
                        hour as int,
                    )
                    &&& result->Ok_0.2@ == GeographicAgent::spec_analyze(
                        transaction@,
                        geographic->Ok_0@,
                    )
                    &&& result->Ok_0.3@ == MerchantAgent::spec_analyze(
                        transaction@,
                        merchant->Ok_0@,
                    )
                    &&& result->Ok_0.4@ == NetworkAgent::spec_analyze(network->Ok_0)
                },
            },
    {
        let pattern_history = match pattern {
            Ok(history) => history,
            Err(failure) => {
                return Err(failure);
            },
        };
        let anomaly_history = match anomaly {
            Ok(history) => history,
            Err(failure) => {
                return Err(failure);
            },
        };
        let geographic_history = match geographic {
            Ok(history) => history,
            Err(failure) => {
                return Err(failure);
            },
        };
        let merchant_history = match merchant {
            Ok(history) => history,
            Err(failure) => {
                return Err(failure);
            },
        };
        let network_history = match network {
            Ok(history) => history,
            Err(failure) => {
                return Err(failure);
            },
        };
        Ok(
            (
                self.pattern_agent.analyze(transaction, &pattern_history),
                self.anomaly_agent.analyze_at(transaction, &anomaly_history, hour),
                self.geographic_agent.analyze(transaction, &geographic_history),
                self.merchant_agent.analyze(transaction, &merchant_history),
                self.network_agent.analyze(&network_history),
            ),
        )
    }

    /// Analyses the transaction against the five histories, at the current
    /// hour of the UTC day, and records the time since `started` as the
    /// latency. The hour and the latency come from the system clock; whatever
    /// they are, the outcome is the one that `analyze_transaction_at` gives
    /// for them. In particular the analysis fails exactly when a history
    /// could not be had, and yields no result in that case.
    pub fn analyze_transaction(
        &self,
        started: &std::time::Instant,
        transaction: &Transaction,
        pattern: Result<PatternHistory, AgentError>,
        anomaly: Result<AnomalyHistory, AgentError>,
        geographic: Result<GeographicHistory, AgentError>,
        merchant: Result<MerchantHistory, AgentError>,
        network: Result<NetworkHistory, AgentError>,
    ) -> (result: Result<AnalysisResult, AgentError>)
        ensures
            match first_failure(pattern, anomaly, geographic, merchant, network) {
                Some(failure) => result is Err && result->Err_0@ == failure,
                None => result is Ok && exists|hour: int, latency_ms: int|
                    0 <= hour < 24 && 0 <= latency_ms && result->Ok_0@ == #[trigger] analysis(
                        transaction@,
                        pattern->Ok_0@,
                        anomaly->Ok_0@,
                        geographic->Ok_0@,
                        merchant->Ok_0@,
                        network->Ok_0,
                        hour,
                        latency_ms,
                    ),
            },
    {
        let hour: u32 = clock::now().hour();
        match self.findings(transaction, pattern, anomaly, geographic, merchant, network, hour) {
            Ok(found) => {
                let latency_ms: u64 = clock::elapsed_millis(started);
                let outcome = self.aggregate(
                    &found.0,
                    &found.1,
                    &found.2,
                    &found.3,
                    &found.4,
                    latency_ms,
                );
                assert(outcome@ == analysis(
                    transaction@,
                    pattern->Ok_0@,
                    anomaly->Ok_0@,
                    geographic->Ok_0@,
                    merchant->Ok_0@,
                    network->Ok_0,
                    hour as int,
                    latency_ms as int,
                ));
                Ok(outcome)
            },
            Err(failure) => Err(failure),
        }
    }
}

/// A reason that opens with the ring prefix tells of a fraud ring.
pub proof fn lemma_prefix_is_reported(rest: Seq<char>)
    ensures
        ring_reported(ring_prefix() + rest),
{
    reveal_strlit("\u{26a0}\u{fe0f} FRAUD RING DETECTED: ");
    reveal_strlit("FRAUD RING DETECTED");
    let reason = ring_prefix() + rest;
    assert(reason.subrange(3, 3 + ring_marker().len() as int) =~= ring_marker());
    assert(occurs_at(reason, ring_marker(), 3));
}

/// A text without a capital F does not tell of a fraud ring.
proof fn lemma_marker_needs_capital(text: Seq<char>)
    requires
        forall|i: int| 0 <= i < text.len() ==> text[i] != 'F',
    ensures
        !ring_reported(text),
{
    reveal_strlit("FRAUD RING DETECTED");
    if ring_reported(text) {
        let at = choose|at: int| occurs_at(text, ring_marker(), at);
        assert(text.subrange(at, at + ring_marker().len())[0] == ring_marker()[0]);
    }
}

/// The orchestrator reads the ring from the network agent's reason, and
/// reads it rightly: the reason tells of a fraud ring exactly when the agent
/// found one.
pub proof fn lemma_ring_reported_iff_detected(network: NetworkHistory)
    ensures
        ring_reported(NetworkAgent::spec_analyze(network).reason) == NetworkAgent::ring_detected(
            network,
        ),
{
    let plain = crate::agents::reason_text(
        NetworkAgent::factors(network),
        "No fraud ring indicators"@,
    );
    if NetworkAgent::ring_detected(network) {
        lemma_prefix_is_reported(plain);
    } else {
        reveal_strlit("No fraud ring indicators");
        reveal_strlit("Device used by ");
        reveal_strlit(" users");
        let users = network.users_sharing_device as int;
        if users > 1 {
            assert(users == 2 || users == 3);
            assert(integer_text(users) =~= seq![digit_char(users)]) by {
                reveal_with_fuel(decimal_digits, 2);
            }
            let factor = "Device used by "@ + integer_text(users) + " users"@;
            assert(NetworkAgent::factors(network) =~= seq![factor]);
            assert(plain == factor) by {
                reveal_with_fuel(join, 2);
            }
            assert forall|i: int| 0 <= i < plain.len() implies plain[i] != 'F' by {}
        } else {
            assert(NetworkAgent::factors(network) =~= Seq::<Seq<char>>::empty());
            assert forall|i: int| 0 <= i < plain.len() implies plain[i] != 'F' by {}
        }
        lemma_marker_needs_capital(plain);
    }
}

/// A fraud ring overrides the scores: whenever the network agent finds a
/// ring, the result is a block with the ring confidence and the ring flag
/// set, whatever the other four agents found and whatever the weighted score.
pub proof fn lemma_ring_blocks(
    pattern: AgentScoreView,
    anomaly: AgentScoreView,
    geographic: AgentScoreView,
    merchant: AgentScoreView,
    network: NetworkHistory,
    latency_ms: int,
)
    requires
        NetworkAgent::ring_detected(network),
    ensures
        ({
            let result = aggregated(
                pattern,
                anomaly,
                geographic,
                merchant,
                NetworkAgent::spec_analyze(network),
                latency_ms,
            );
            &&& result.decision == Decision::Block
            &&& result.confidence == RING_CONFIDENCE
            &&& result.fraud_ring_detected
        }),
{
    lemma_prefix_is_reported(
        crate::agents::reason_text(NetworkAgent::factors(network), "No fraud ring indicators"@),
    );
}

/// The weights add up to one, so the weighted sum of five scores between zero
/// and one lies between zero and one as well.
pub proof fn lemma_weighted_in_range(
    pattern: int,
    anomaly: int,
    geographic: int,
    merchant: int,
    network: int,
)
    requires
        0 <= pattern <= SCORE_ONE,
        0 <= anomaly <= SCORE_ONE,
        0 <= geographic <= SCORE_ONE,
        0 <= merchant <= SCORE_ONE,
        0 <= network <= SCORE_ONE,
    ensures
        PATTERN_WEIGHT + ANOMALY_WEIGHT + GEOGRAPHIC_WEIGHT + MERCHANT_WEIGHT + NETWORK_WEIGHT
            == 100,
        0 <= weighted(pattern, anomaly, geographic, merchant, network) <= WEIGHTED_ONE,
{
}

/// Every agent's score lies between zero and one, whatever the transaction,
/// the history and the hour; and so does their weighted sum.
pub proof fn lemma_scores_in_range(
    transaction: TransactionView,
    pattern: PatternHistoryView,
    anomaly: Seq<RecentTransaction>,
    geographic: GeographicHistoryView,
    merchant: MerchantHistoryView,
    network: NetworkHistory,
    hour: int,
)
    ensures
        PatternAgent::spec_analyze(transaction, pattern).in_range(),
        AnomalyAgent::spec_analyze(transaction, anomaly, hour).in_range(),
        GeographicAgent::spec_analyze(transaction, geographic).in_range(),
        MerchantAgent::spec_analyze(transaction, merchant).in_range(),
        NetworkAgent::spec_analyze(network).in_range(),
        0 <= weighted(
            PatternAgent::spec_analyze(transaction, pattern).risk_score,
            AnomalyAgent::spec_analyze(transaction, anomaly, hour).risk_score,
            GeographicAgent::spec_analyze(transaction, geographic).risk_score,
            MerchantAgent::spec_analyze(transaction, merchant).risk_score,
            NetworkAgent::spec_analyze(network).risk_score,
        ) <= WEIGHTED_ONE,
{
}

/// The two transactions differ at most in identifier and timestamp.
pub open spec fn same_request(a: TransactionView, b: TransactionView) -> bool {
    &&& a.user_id == b.user_id
    &&& a.amount == b.amount
    &&& a.merchant == b.merchant
    &&& a.merchant_category == b.merchant_category
    &&& a.location == b.location
    &&& a.payment_method == b.payment_method
    &&& a.device_fingerprint == b.device_fingerprint
}

/// No agent reads the identifier or the timestamp of a transaction: two
/// transactions made from the same request get, against the same histories
/// and in the same hour, the same score, reason and details from every agent,
/// and so the same result.
pub proof fn lemma_identity_is_ignored(
    a: TransactionView,
    b: TransactionView,
    pattern: PatternHistoryView,
    anomaly: Seq<RecentTransaction>,
    geographic: GeographicHistoryView,
    merchant: MerchantHistoryView,
    network: NetworkHistory,
    hour: int,
    latency_ms: int,
)
    requires
        same_request(a, b),
    ensures
        PatternAgent::spec_analyze(a, pattern) == PatternAgent::spec_analyze(b, pattern),
        AnomalyAgent::spec_analyze(a, anomaly, hour) == AnomalyAgent::spec_analyze(
            b,
            anomaly,
            hour,
        ),
        GeographicAgent::spec_analyze(a, geographic) == GeographicAgent::spec_analyze(
            b,
            geographic,
        ),
        MerchantAgent::spec_analyze(a, merchant) == MerchantAgent::spec_analyze(b, merchant),
        analysis(a, pattern, anomaly, geographic, merchant, network, hour, latency_ms) == analysis(
            b,
            pattern,
            anomaly,
            geographic,
            merchant,
            network,
            hour,
            latency_ms,
        ),
{
}

} // verus!
