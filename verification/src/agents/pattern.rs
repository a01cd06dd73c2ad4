//! Spending-pattern agent: deviation from the user's baseline amount,
//! unfamiliar merchant categories, and fraud among the most similar earlier
//! transactions.

use vstd::prelude::*;
use vstd::string::*;
use crate::agents::{clamp, clamp_score, lemma_views_push, reason_from, reason_text};
use crate::models::transaction::{
    AgentDetails, AgentDetailsView, AgentError, AgentScore, AgentScoreView, Transaction,
    TransactionView, SCORE_ONE,
};
use crate::text::{
    copy_strings, format_fixed, format_money_plain, list_contains, magnitude, magnitude_of, plain_money_text,
    rounded_text, string_views,
};

verus! {

/// An earlier transaction of the user that resembles the current one.
#[derive(Debug, Clone, Copy, PartialEq, Eq, Structural)]
pub struct SimilarTxn {
    pub fraud_label: Option<bool>,
}

/// The user's habits: the mean amount, in cents, and the merchant categories
/// of the user's earlier transactions.
#[derive(Debug)]
pub struct UserBaseline {
    pub average_amount: i64,
    pub common_categories: Vec<String>,
}

/// What the data store holds for the pattern agent: the user's baseline and
/// the nearest earlier transactions, nearest first.
#[derive(Debug)]
pub struct PatternHistory {
    pub baseline: UserBaseline,
    pub similar: Vec<SimilarTxn>,
}

impl Clone for UserBaseline {
    fn clone(&self) -> (copy: Self)
        ensures
            copy.average_amount == self.average_amount,
            copy.common_categories@ == self.common_categories@,
    {
        UserBaseline {
            average_amount: self.average_amount,
            common_categories: copy_strings(&self.common_categories),
        }
    }
}

impl Clone for PatternHistory {
    fn clone(&self) -> (copy: Self)
        ensures
            copy@ == self@,
    {
        let mut similar: Vec<SimilarTxn> = Vec::new();
        let mut i: usize = 0;
        while i < self.similar.len()
            invariant
                i <= self.similar@.len(),
                similar@ == self.similar@.take(i as int),
            decreases self.similar@.len() - i,
        {
            similar.push(self.similar[i]);
            assert(similar@ =~= self.similar@.take(i + 1));
            i += 1;
        }
        assert(self.similar@.take(i as int) =~= self.similar@);
        PatternHistory { baseline: self.baseline.clone(), similar }
    }
}

/// The mathematical view of `PatternHistory`.
pub struct PatternHistoryView {
    pub average_amount: int,
    pub common_categories: Seq<Seq<char>>,
    pub similar: Seq<SimilarTxn>,
}

impl View for PatternHistory {
    type V = PatternHistoryView;

    open spec fn view(&self) -> PatternHistoryView {
        PatternHistoryView {
            average_amount: self.baseline.average_amount as int,
            common_categories: string_views(self.baseline.common_categories@),
            similar: self.similar@,
        }
    }
}

/// Risk added when the amount deviates from the baseline by more than three
/// times the baseline.
pub const LARGE_DEVIATION_RISK: u32 = 300_000_000;

/// Risk added when it deviates by more than one and a half times.
pub const MODERATE_DEVIATION_RISK: u32 = 150_000_000;

/// Risk added for a merchant category that the user has not used.
pub const NEW_CATEGORY_RISK: u32 = 200_000_000;

/// Risk added when every similar transaction was fraud; a smaller share adds
/// in proportion.
pub const SIMILAR_FRAUD_RISK: u32 = 500_000_000;

/// How many of the similar transactions are labelled as fraud.
pub open spec fn fraud_count(similar: Seq<SimilarTxn>) -> nat
    decreases similar.len(),
{
    if similar.len() == 0 {
        0
    } else {
        fraud_count(similar.drop_last()) + if similar.last().fraud_label == Some(true) {
            1nat
        } else {
            0nat
        }
    }
}

/// The distance of the amount from the baseline, relative to the baseline,
/// exceeds 3. A baseline of zero or less gives no deviation.
pub open spec fn large_deviation(amount: int, average: int) -> bool {
    average > 0 && magnitude(amount - average) > 3 * average
}

/// The relative distance exceeds 1.5 and does not exceed 3.
pub open spec fn moderate_deviation(amount: int, average: int) -> bool {
    average > 0 && !large_deviation(amount, average) && 2 * magnitude(amount - average) > 3
        * average
}

/// The relative distance in billionths, rounded down.
pub open spec fn relative_deviation(amount: int, average: int) -> int {
    if average > 0 {
        (magnitude(amount - average) * SCORE_ONE) / average
    } else {
        0
    }
}

/// The risk that the deviation of the amount adds, by its tier.
pub open spec fn deviation_risk(amount: int, average: int) -> int {
    if large_deviation(amount, average) {
        LARGE_DEVIATION_RISK as int
    } else if moderate_deviation(amount, average) {
        MODERATE_DEVIATION_RISK as int
    } else {
        0
    }
}

/// The risk that the merchant category adds: nothing for one that the user
/// has used.
pub open spec fn category_risk(categories: Seq<Seq<char>>, category: Seq<char>) -> int {
    if categories.contains(category) {
        0
    } else {
        NEW_CATEGORY_RISK as int
    }
}

/// `share` times the part that `count` is of `total`, rounded down;
/// nothing of an empty total.
pub open spec fn proportion(count: nat, total: nat, share: nat) -> int {
    if total > 0 {
        ((count * share) / total) as int
    } else {
        0
    }
}

/// More than three in ten of the similar transactions were fraud.
pub open spec fn fraud_share_notable(count: nat, total: nat) -> bool {
    total > 0 && 10 * count > 3 * total
}

impl PatternAgent {
    /// The sum of the contributions, before it is cut to the range: the tier
    /// of the deviation, the category, and half the share of fraud among the
    /// similar transactions, the last in whole billionths.
    pub open spec fn raw_risk(transaction: TransactionView, history: PatternHistoryView) -> int {
        deviation_risk(transaction.amount, history.average_amount) + category_risk(
            history.common_categories,
            transaction.merchant_category,
        ) + proportion(
            fraud_count(history.similar),
            history.similar.len(),
            SIMILAR_FRAUD_RISK as nat,
        )
    }

    /// The factor reported for a large deviation.
    pub open spec fn deviation_factor(amount: int, average: int) -> Seq<char> {
        "Amount $"@ + rounded_text(amount, 1, 2) + " is "@ + rounded_text(10 * amount, average, 1)
            + "x user's average $"@ + rounded_text(average, 1, 2)
    }

    /// The factor reported for a moderate deviation.
    pub open spec fn moderate_factor(amount: int, average: int) -> Seq<char> {
        Self::deviation_factor(amount, average) + " (moderate deviation)"@
    }

    /// The factor reported for an unfamiliar category.
    pub open spec fn category_factor(category: Seq<char>) -> Seq<char> {
        "New category '"@ + category + "'"@
    }

    /// The factor reported for a notable share of fraud among similar
    /// transactions.
    pub open spec fn similar_factor(count: nat, total: nat) -> Seq<char> {
        rounded_text((100 * count) as int, total as int, 0) + "% of similar transactions were fraud"@
    }

    /// The triggered factors, in the order in which they are reported.
    pub open spec fn factors(
        transaction: TransactionView,
        history: PatternHistoryView,
    ) -> Seq<Seq<char>> {
        let count = fraud_count(history.similar);
        let total = history.similar.len();
        let first = if large_deviation(transaction.amount, history.average_amount) {
            seq![Self::deviation_factor(transaction.amount, history.average_amount)]
        } else if moderate_deviation(transaction.amount, history.average_amount) {
            seq![Self::moderate_factor(transaction.amount, history.average_amount)]
        } else {
            Seq::<Seq<char>>::empty()
        };
        let second = if history.common_categories.contains(transaction.merchant_category) {
            Seq::<Seq<char>>::empty()
        } else {
            seq![Self::category_factor(transaction.merchant_category)]
        };
        let third = if fraud_share_notable(count, total) {
            seq![Self::similar_factor(count, total)]
        } else {
            Seq::<Seq<char>>::empty()
        };
        first + second + third
    }

    /// The sentence that stands for the transaction when similar ones are
    /// searched: who spends how much, where, and in which category.
    pub open spec fn description(transaction: TransactionView) -> Seq<char> {
        "User "@ + transaction.user_id + " spending $"@ + plain_money_text(transaction.amount)
            + " at "@ + transaction.merchant + " in category "@ + transaction.merchant_category
    }

    /// What the agent reports for a transaction against a history.
    pub open spec fn spec_analyze(
        transaction: TransactionView,
        history: PatternHistoryView,
    ) -> AgentScoreView {
        AgentScoreView {
            risk_score: clamp_score(Self::raw_risk(transaction, history)),
            reason: reason_text(Self::factors(transaction, history), "Normal spending pattern"@),
            details: AgentDetailsView::Pattern {
                amount_deviation: relative_deviation(transaction.amount, history.average_amount),
                category_familiar: history.common_categories.contains(
                    transaction.merchant_category,
                ),
                fraud_in_similar: proportion(
                    fraud_count(history.similar),
                    history.similar.len(),
                    SCORE_ONE as nat,
                ),
                similar_count: history.similar.len() as int,
            },
        }
    }
}

/// Scores a transaction against the user's spending pattern.
#[derive(Debug, Clone, Copy)]
pub struct PatternAgent;

/// Counts the similar transactions labelled as fraud.
fn count_fraud(similar: &Vec<SimilarTxn>) -> (count: usize)
    ensures
        count == fraud_count(similar@),
        count <= similar@.len(),
{
    let mut count: usize = 0;
    let mut i: usize = 0;
    while i < similar.len()
        invariant
            i <= similar@.len(),
            count <= i,
            count == fraud_count(similar@.take(i as int)),
        decreases similar@.len() - i,
    {
        proof {
            assert(similar@.take(i + 1).drop_last() =~= similar@.take(i as int));
        }
        match similar[i].fraud_label {
            Some(true) => {
                count += 1;
            },
            _ => {},
        }
        i += 1;
    }
    assert(similar@.take(i as int) =~= similar@);
    count
}

/// `count * share / total`, rounded down, for a count within the total.
fn share_of(count: usize, total: usize, share: u32) -> (part: u32)
    requires
        count <= total,
    ensures
        part == proportion(count as nat, total as nat, share as nat),
        part <= share,
{
    if total == 0 {
        0
    } else {
        assert(count * share <= 0x1_0000_0000_0000_0000 * 0x1_0000_0000) by (nonlinear_arith)
            requires
                0 <= count <= 0x1_0000_0000_0000_0000,
                0 <= share <= 0x1_0000_0000,
        ;
        let scaled: u128 = (count as u128) * (share as u128);
        let part: u128 = scaled / (total as u128);
        assert(part <= share) by (nonlinear_arith)
            requires
                part == (count * share) / (total as int),
                0 <= count <= total,
                total > 0,
                share >= 0,
        {
            assert(count * share <= total * share);
            assert((total * share) / (total as int) == share);
            assert((count * share) / (total as int) <= (total * share) / (total as int));
        }
        part as u32
    }
}

/// Writes out how the amount stands to a positive baseline.
fn deviation_text(amount: i64, average: i64) -> (text: String)
    requires
        average > 0,
    ensures
        text@ == PatternAgent::deviation_factor(amount as int, average as int),
{
    let mut text = String::from_str("Amount $");
    text.append(format_fixed(amount as i128, 1, 2).as_str());
    text.append(" is ");
    text.append(format_fixed(10 * (amount as i128), average as u64, 1).as_str());
    text.append("x user's average $");
    text.append(format_fixed(average as i128, 1, 2).as_str());
    text
}

impl PatternAgent {
    pub fn new() -> (agent: Self) {
        PatternAgent
    }

    /// Whether the baseline drawn from the user's unflagged transactions is to
    /// be replaced by the one drawn from all of the user's transactions: when
    /// it could not be had, or when its mean amount is zero, which is what an
    /// empty history gives.
    pub fn needs_fallback(primary: &Result<UserBaseline, AgentError>) -> (needed: bool)
        ensures
            needed == match *primary {
                Ok(baseline) => baseline.average_amount == 0,
                Err(_) => true,
            },
    {
        match primary {
            Ok(baseline) => baseline.average_amount == 0,
            Err(_) => true,
        }
    }

    /// The baseline to score against once the second read is back: the one it
    /// found, or, for a user without any transaction, the baseline of no
    /// history, which has a mean of zero and no categories. Against that
    /// baseline no amount deviates and every category is new.
    pub fn baseline_or_no_history(fallback: Option<UserBaseline>) -> (baseline: UserBaseline)
        ensures
            match fallback {
                Some(found) => baseline.average_amount == found.average_amount
                    && baseline.common_categories@ == found.common_categories@,
                None => baseline.average_amount == 0 && baseline.common_categories@.len() == 0,
            },
    {
        match fallback {
            Some(found) => found,
            None => UserBaseline { average_amount: 0, common_categories: Vec::new() },
        }
    }

    /// Describes the transaction in one sentence, for the embedding service.
    pub fn describe(transaction: &Transaction) -> (description: String)
        ensures
            description@ == Self::description(transaction@),
    {
        let mut text = String::from_str("User ");
        text.append(transaction.user_id.as_str());
        text.append(" spending $");
        text.append(format_money_plain(transaction.amount).as_str());
        text.append(" at ");
        text.append(transaction.merchant.as_str());
        text.append(" in category ");
        text.append(transaction.merchant_category.as_str());
        text
    }

    /// Scores the transaction against the user's baseline and the nearest
    /// earlier transactions. The same transaction and history always give the
    /// same score, reason and details, and the score lies between zero and one.
    pub fn analyze(
        &self,
        transaction: &Transaction,
        history: &PatternHistory,
    ) -> (score: AgentScore)
        ensures
            score@ == Self::spec_analyze(transaction@, history@),
            score@.in_range(),
    {
        let amount: i64 = transaction.amount;
        let average: i64 = history.baseline.average_amount;
        let distance: u128 = magnitude_of(amount as i128 - average as i128);
        let total: usize = history.similar.len();
        let count: usize = count_fraud(&history.similar);
        let familiar = list_contains(
            &history.baseline.common_categories,
            &transaction.merchant_category,
        );

        let large = average > 0 && distance > 3 * (average as u128);
        let moderate = average > 0 && !large && 2 * distance > 3 * (average as u128);
        let deviation: u128 = if average > 0 {
            distance * (SCORE_ONE as u128) / (average as u128)
        } else {
            0
        };

        let mut risk: u32 = 0;
        let mut factors: Vec<String> = Vec::new();
        if large {
            risk = risk + LARGE_DEVIATION_RISK;
            let factor = deviation_text(amount, average);
            proof {
                lemma_views_push(factors@, factor);
            }
            factors.push(factor);
        } else if moderate {
            risk = risk + MODERATE_DEVIATION_RISK;
            let mut factor = deviation_text(amount, average);
            factor.append(" (moderate deviation)");
            proof {
                lemma_views_push(factors@, factor);
            }
            factors.push(factor);
        }
        if !familiar {
            risk = risk + NEW_CATEGORY_RISK;
            let mut factor = String::from_str("New category '");
            factor.append(transaction.merchant_category.as_str());
            factor.append("'");
            proof {
                lemma_views_push(factors@, factor);
            }
            factors.push(factor);
        }
        risk = risk + share_of(count, total, SIMILAR_FRAUD_RISK);
        if total > 0 && 10 * (count as u128) > 3 * (total as u128) {
            let mut factor = format_fixed(100 * (count as i128), total as u64, 0);
            factor.append("% of similar transactions were fraud");
            proof {
                lemma_views_push(factors@, factor);
            }
            factors.push(factor);
        }
        proof {
            assert(string_views(factors@) =~= Self::factors(transaction@, history@));
        }
        AgentScore {
            risk_score: clamp(risk),
            reason: reason_from(&factors, String::from_str("Normal spending pattern")),
            details: AgentDetails::Pattern {
                amount_deviation: deviation,
                category_familiar: familiar,
                fraud_in_similar: share_of(count, total, SCORE_ONE),
                similar_count: total,
            },
        }
    }
}

/// The reason names every tier that added to the score. What can add to it
/// without a word is the share of fraud among similar transactions alone,
/// which counts in proportion from the first case on and is remarked on only
/// above three in ten: with no factor reported, the score is that share's
/// part, at most 0.15.
pub proof fn lemma_pattern_factor_for_every_tier(
    transaction: TransactionView,
    history: PatternHistoryView,
)
    ensures
        PatternAgent::raw_risk(transaction, history) == 0 ==> PatternAgent::factors(
            transaction,
            history,
        ).len() == 0,
        PatternAgent::factors(transaction, history).len() == 0 ==> {
            &&& !fraud_share_notable(fraud_count(history.similar), history.similar.len())
            &&& PatternAgent::raw_risk(transaction, history) == proportion(
                fraud_count(history.similar),
                history.similar.len(),
                SIMILAR_FRAUD_RISK as nat,
            )
            &&& 0 <= PatternAgent::raw_risk(transaction, history) <= 150_000_000
        },
{
    let count = fraud_count(history.similar);
    let total = history.similar.len();
    if total > 0 {
        assert(0 <= (count * 500_000_000) / total) by (nonlinear_arith)
            requires
                count >= 0,
                total > 0,
        ;
        if 10 * count <= 3 * total {
            assert((count * 500_000_000) / total <= 150_000_000) by (nonlinear_arith)
                requires
                    10 * count <= 3 * total,
                    total > 0,
                    count >= 0,
            ;
        } else {
            assert((count * 500_000_000) / total >= 150_000_000) by (nonlinear_arith)
                requires
                    10 * count > 3 * total,
                    total > 0,
                    count >= 0,
            ;
        }
    }
}

/// Rounding a share down to a whole unit loses less than one unit: the
/// exact product `count * share` exceeds `total` times the rounded share by
/// less than `total`.
pub proof fn lemma_proportion_error(count: nat, total: nat, share: nat)
    requires
        total > 0,
    ensures
        0 <= count * share - total * proportion(count, total, share) < total,
{
    let product = (count * share) as int;
    vstd::arithmetic::div_mod::lemma_fundamental_div_mod(product, total as int);
    vstd::arithmetic::div_mod::lemma_mod_bound(product, total as int);
}

/// The relative deviation is rounded down by less than one billionth: the
/// exact product of the distance and one whole exceeds the baseline times the
/// rounded deviation by less than the baseline.
pub proof fn lemma_deviation_error(amount: int, average: int)
    requires
        average > 0,
    ensures
        0 <= magnitude(amount - average) * SCORE_ONE - average * relative_deviation(
            amount,
            average,
        ) < average,
{
    let product = (magnitude(amount - average) * SCORE_ONE) as int;
    vstd::arithmetic::div_mod::lemma_fundamental_div_mod(product, average);
    vstd::arithmetic::div_mod::lemma_mod_bound(product, average);
}

/// The score before the cut differs from the exact sum of the tier of the
/// deviation, the category and half the share of fraud by less than one
/// billionth, and never exceeds it. Stated without a division: `total` times
/// the exact sum is `total` times the two tiers plus 500 000 000 times the
/// frauds.
pub proof fn lemma_pattern_score_error(transaction: TransactionView, history: PatternHistoryView)
    requires
        history.similar.len() > 0,
    ensures
        ({
            let total = history.similar.len();
            let tiers = deviation_risk(transaction.amount, history.average_amount)
                + category_risk(history.common_categories, transaction.merchant_category);
            let exact = total * tiers + 500_000_000 * fraud_count(history.similar);
            0 <= exact - total * PatternAgent::raw_risk(transaction, history) < total
        }),
{
    let total = history.similar.len();
    let count = fraud_count(history.similar);
    let tiers = deviation_risk(transaction.amount, history.average_amount) + category_risk(
        history.common_categories,
        transaction.merchant_category,
    );
    let part = proportion(count, total, SIMILAR_FRAUD_RISK as nat);
    lemma_proportion_error(count, total, SIMILAR_FRAUD_RISK as nat);
    assert(total * (tiers + part) == total * tiers + total * part) by (nonlinear_arith);
    assert(count * 500_000_000 == 500_000_000 * count) by (nonlinear_arith);
}

} // verus!
