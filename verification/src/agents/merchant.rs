//! Merchant agent: the merchant's own fraud record, fraud narratives that
//! name it, and high-risk merchants that resemble it.

use vstd::prelude::*;
use vstd::string::*;
use crate::agents::{clamp, clamp_score, lemma_views_push, reason_from, reason_text};
use crate::models::transaction::{
    AgentDetails, AgentDetailsView, AgentScore, AgentScoreView, Transaction, TransactionView,
};
use crate::text::{format_fixed, format_integer, integer_text, rounded_text, string_views};

verus! {

/// The store's record of a merchant. `fraud_rate` is in millionths.
#[derive(Debug)]
pub struct MerchantInfo {
    pub merchant_name: String,
    pub fraud_rate: u32,
    pub total_transactions: i32,
}

/// What the data store holds for the merchant agent: the merchant's record,
/// if there is one; the number of fraud-labelled narratives that match the
/// merchant; and the number of high-risk merchants that resemble it. The last
/// is looked up, and read, only for a merchant with a record.
#[derive(Debug)]
pub struct MerchantHistory {
    pub info: Option<MerchantInfo>,
    pub fraud_patterns: i64,
    pub similar_risky_merchants: i64,
}

impl Clone for MerchantInfo {
    fn clone(&self) -> (copy: Self)
        ensures
            copy == *self,
    {
        MerchantInfo {
            merchant_name: self.merchant_name.clone(),
            fraud_rate: self.fraud_rate,
            total_transactions: self.total_transactions,
        }
    }
}

impl Clone for MerchantHistory {
    fn clone(&self) -> (copy: Self)
        ensures
            copy == *self,
    {
        MerchantHistory {
            info: match &self.info {
                Some(info) => Some(info.clone()),
                None => None,
            },
            fraud_patterns: self.fraud_patterns,
            similar_risky_merchants: self.similar_risky_merchants,
        }
    }
}

/// A merchant's record, as mathematics.
pub struct MerchantRecord {
    pub merchant_name: Seq<char>,
    pub fraud_rate: int,
    pub total_transactions: int,
}

/// The mathematical view of `MerchantHistory`.
pub struct MerchantHistoryView {
    pub record: Option<MerchantRecord>,
    pub fraud_patterns: int,
    pub similar_risky_merchants: int,
}

impl View for MerchantHistory {
    type V = MerchantHistoryView;

    open spec fn view(&self) -> MerchantHistoryView {
        MerchantHistoryView {
            record: match self.info {
                Some(info) => Some(
                    MerchantRecord {
                        merchant_name: info.merchant_name@,
                        fraud_rate: info.fraud_rate as int,
                        total_transactions: info.total_transactions as int,
                    },
                ),
                None => None,
            },
            fraud_patterns: self.fraud_patterns as int,
            similar_risky_merchants: self.similar_risky_merchants as int,
        }
    }
}

/// Risk added for a merchant without a record.
pub const UNRECOGNIZED_RISK: u32 = 300_000_000;

/// Risk added for a fraud rate above `HIGH_FRAUD_RATE`.
pub const HIGH_RATE_RISK: u32 = 500_000_000;

/// Risk added for a fraud rate above `ELEVATED_FRAUD_RATE`, up to
/// `HIGH_FRAUD_RATE`.
pub const ELEVATED_RATE_RISK: u32 = 250_000_000;

/// Risk added for a merchant with fewer than `ESTABLISHED_TRANSACTIONS`
/// transactions.
pub const NEW_MERCHANT_RISK: u32 = 200_000_000;

/// Risk added when fraud narratives match the merchant.
pub const FRAUD_PATTERN_RISK: u32 = 250_000_000;

/// Risk added when high-risk merchants resemble the merchant.
pub const SIMILAR_MERCHANT_RISK: u32 = 200_000_000;

pub const HIGH_FRAUD_RATE: u32 = 300_000;

pub const ELEVATED_FRAUD_RATE: u32 = 100_000;

pub const ESTABLISHED_TRANSACTIONS: i32 = 10;

/// Scores a transaction by its merchant's reputation.
#[derive(Debug, Clone, Copy)]
pub struct MerchantAgent;

impl MerchantAgent {
    /// The risk that the merchant's record adds, or the lack of one.
    pub open spec fn record_risk(record: Option<MerchantRecord>) -> int {
        match record {
            Some(r) => {
                let rate = if r.fraud_rate > HIGH_FRAUD_RATE {
                    HIGH_RATE_RISK as int
                } else if r.fraud_rate > ELEVATED_FRAUD_RATE {
                    ELEVATED_RATE_RISK as int
                } else {
                    0
                };
                let newness = if r.total_transactions < ESTABLISHED_TRANSACTIONS {
                    NEW_MERCHANT_RISK as int
                } else {
                    0
                };
                rate + newness
            },
            None => UNRECOGNIZED_RISK as int,
        }
    }

    /// The sum of the contributions, before it is cut to the range.
    pub open spec fn raw_risk(history: MerchantHistoryView) -> int {
        Self::record_risk(history.record) + if history.fraud_patterns > 0 {
            FRAUD_PATTERN_RISK as int
        } else {
            0
        } + if history.record is Some && history.similar_risky_merchants > 0 {
            SIMILAR_MERCHANT_RISK as int
        } else {
            0
        }
    }

    /// The fraud rate in percent, rounded to a whole number.
    pub open spec fn percent_text(fraud_rate: int) -> Seq<char> {
        rounded_text(fraud_rate, 10_000, 0)
    }

    /// The factors that the merchant's record triggers, or the lack of one.
    pub open spec fn record_factors(record: Option<MerchantRecord>) -> Seq<Seq<char>> {
        match record {
            Some(r) => {
                let rate = if r.fraud_rate > HIGH_FRAUD_RATE {
                    seq!["High-risk merchant: "@ + Self::percent_text(r.fraud_rate) + "% fraud rate"@]
                } else if r.fraud_rate > ELEVATED_FRAUD_RATE {
                    seq![
                        "Elevated risk merchant: "@ + Self::percent_text(r.fraud_rate)
                            + "% fraud rate"@,
                    ]
                } else {
                    Seq::<Seq<char>>::empty()
                };
                let newness = if r.total_transactions < ESTABLISHED_TRANSACTIONS {
                    seq!["New/unknown merchant"@]
                } else {
                    Seq::<Seq<char>>::empty()
                };
                rate + newness
            },
            None => seq!["Unrecognized merchant"@],
        }
    }

    /// The triggered factors, in the order in which they are reported.
    pub open spec fn factors(history: MerchantHistoryView) -> Seq<Seq<char>> {
        let patterns = if history.fraud_patterns > 0 {
            seq![
                "Found "@ + integer_text(history.fraud_patterns)
                    + " similar fraud cases via pg_text search"@,
            ]
        } else {
            Seq::<Seq<char>>::empty()
        };
        let similar = if history.record is Some && history.similar_risky_merchants > 0 {
            seq![
                integer_text(history.similar_risky_merchants)
                    + " similar high-risk merchants found"@,
            ]
        } else {
            Seq::<Seq<char>>::empty()
        };
        Self::record_factors(history.record) + patterns + similar
    }

    /// The words by which fraud narratives about a merchant are searched: the
    /// merchant's name, its category, and three words that tell of fraud.
    pub open spec fn search_words(merchant: Seq<char>, category: Seq<char>) -> Seq<char> {
        merchant + " "@ + category + " fraud scam suspicious"@
    }

    /// What the agent reports for a transaction against a history.
    pub open spec fn spec_analyze(
        transaction: TransactionView,
        history: MerchantHistoryView,
    ) -> AgentScoreView {
        AgentScoreView {
            risk_score: clamp_score(Self::raw_risk(history)),
            reason: reason_text(
                Self::factors(history),
                "Trusted merchant: "@ + transaction.merchant,
            ),
            details: AgentDetailsView::Merchant {
                merchant: transaction.merchant,
                category: transaction.merchant_category,
                fraud_patterns_found: history.fraud_patterns,
            },
        }
    }

    pub fn new() -> (agent: Self) {
        MerchantAgent
    }

    /// The text to search the fraud narratives for, for the merchant and
    /// category of a transaction.
    pub fn search_text(merchant: &str, category: &str) -> (text: String)
        ensures
            text@ == Self::search_words(merchant@, category@),
    {
        let mut text = String::from_str(merchant);
        text.append(" ");
        text.append(category);
        text.append(" fraud scam suspicious");
        text
    }

    /// Whether the resemblance to high-risk merchants is to be looked up: only
    /// a merchant with a record has an embedding to compare.
    pub fn wants_similarity_lookup(info: &Option<MerchantInfo>) -> (wanted: bool)
        ensures
            wanted == (info is Some),
    {
        info.is_some()
    }

    /// Scores the transaction by its merchant's reputation. The same
    /// transaction and history always give the same score, reason and details,
    /// and the score lies between zero and one.
    pub fn analyze(
        &self,
        transaction: &Transaction,
        history: &MerchantHistory,
    ) -> (score: AgentScore)
        ensures
            score@ == Self::spec_analyze(transaction@, history@),
            score@.in_range(),
    {
        let mut risk: u32 = 0;
        let mut factors: Vec<String> = Vec::new();
        match &history.info {
            Some(info) => {
                if info.fraud_rate > HIGH_FRAUD_RATE {
                    risk = risk + HIGH_RATE_RISK;
                    let mut factor = String::from_str("High-risk merchant: ");
                    factor.append(format_fixed(info.fraud_rate as i128, 10_000, 0).as_str());
                    factor.append("% fraud rate");
                    proof {
                        lemma_views_push(factors@, factor);
                    }
                    factors.push(factor);
                } else if info.fraud_rate > ELEVATED_FRAUD_RATE {
                    risk = risk + ELEVATED_RATE_RISK;
                    let mut factor = String::from_str("Elevated risk merchant: ");
                    factor.append(format_fixed(info.fraud_rate as i128, 10_000, 0).as_str());
                    factor.append("% fraud rate");
                    proof {
                        lemma_views_push(factors@, factor);
                    }
                    factors.push(factor);
                }
                if info.total_transactions < ESTABLISHED_TRANSACTIONS {
                    risk = risk + NEW_MERCHANT_RISK;
                    let factor = String::from_str("New/unknown merchant");
                    proof {
                        lemma_views_push(factors@, factor);
                    }
                    factors.push(factor);
                }
            },
            None => {
                risk = risk + UNRECOGNIZED_RISK;
                let factor = String::from_str("Unrecognized merchant");
                proof {
                    lemma_views_push(factors@, factor);
                }
                factors.push(factor);
            },
        }
        proof {
            assert(string_views(factors@) =~= Self::record_factors(history@.record));
        }
        if history.fraud_patterns > 0 {
            risk = risk + FRAUD_PATTERN_RISK;
            let mut factor = String::from_str("Found ");
            factor.append(format_integer(history.fraud_patterns as i128).as_str());
            factor.append(" similar fraud cases via pg_text search");
            proof {
                lemma_views_push(factors@, factor);
            }
            factors.push(factor);
        }
        if history.info.is_some() && history.similar_risky_merchants > 0 {
            risk = risk + SIMILAR_MERCHANT_RISK;
            let mut factor = format_integer(history.similar_risky_merchants as i128);
            factor.append(" similar high-risk merchants found");
            proof {
                lemma_views_push(factors@, factor);
            }
            factors.push(factor);
        }
        proof {
            assert(string_views(factors@) =~= Self::factors(history@));
        }
        let mut normal = String::from_str("Trusted merchant: ");
        normal.append(transaction.merchant.as_str());
        AgentScore {
            risk_score: clamp(risk),
            reason: reason_from(&factors, normal),
            details: AgentDetails::Merchant {
                merchant: transaction.merchant.clone(),
                category: transaction.merchant_category.clone(),
                fraud_patterns_found: history.fraud_patterns,
            },
        }
    }
}

/// The reason names something whenever something added to the score: the
/// list of factors is empty exactly when no contribution was made.
pub proof fn lemma_merchant_factor_for_every_contribution(
    transaction: TransactionView,
    history: MerchantHistoryView,
)
    ensures
        MerchantAgent::factors(history).len() == 0 <==> MerchantAgent::raw_risk(history) == 0,
        MerchantAgent::factors(history).len() == 0 ==> MerchantAgent::spec_analyze(
            transaction,
            history,
        ).risk_score == 0,
{
}

} // verus!
