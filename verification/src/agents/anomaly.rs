//! Anomaly agent: bursts of transactions, odd hours, rapid succession and
//! sudden jumps in amount, judged against the user's last day.

use vstd::prelude::*;
use vstd::string::*;
use crate::agents::{clamp, clamp_score, lemma_views_push, reason_from, reason_text};
use crate::clock;
use crate::models::transaction::{
    AgentDetails, AgentDetailsView, AgentScore, AgentScoreView, Transaction, TransactionView,
};
use crate::text::{format_fixed, format_integer, integer_text, rounded_text, string_views};

verus! {

/// An earlier transaction of the user: its amount in cents and how long ago
/// it took place, in microseconds.
#[derive(Debug, Clone, Copy, PartialEq, Eq, Structural)]
pub struct RecentTransaction {
    pub amount: i64,
    pub age_micros: i64,
}

/// What the data store holds for the anomaly agent: the user's transactions
/// of the last day, most recent first.
#[derive(Debug)]
pub struct AnomalyHistory {
    pub recent: Vec<RecentTransaction>,
}

impl View for AnomalyHistory {
    type V = Seq<RecentTransaction>;

    open spec fn view(&self) -> Seq<RecentTransaction> {
        self.recent@
    }
}

impl Clone for AnomalyHistory {
    fn clone(&self) -> (copy: Self)
        ensures
            copy@ == self@,
    {
        let mut recent: Vec<RecentTransaction> = Vec::new();
        let mut i: usize = 0;
        while i < self.recent.len()
            invariant
                i <= self.recent@.len(),
                recent@ == self.recent@.take(i as int),
            decreases self.recent@.len() - i,
        {
            recent.push(self.recent[i]);
            assert(recent@ =~= self.recent@.take(i + 1));
            i += 1;
        }
        assert(self.recent@.take(i as int) =~= self.recent@);
        AnomalyHistory { recent }
    }
}

/// One hour, the window of the velocity check.
pub const VELOCITY_WINDOW_MICROS: i64 = 3_600_000_000;

/// Five minutes: a transaction sooner than this after the previous one is in
/// rapid succession.
pub const RAPID_SUCCESSION_MICROS: i64 = 300_000_000;

/// This many transactions within the window are a high velocity.
pub const HIGH_VELOCITY_COUNT: usize = 5;

/// This many are a raised one.
pub const RAISED_VELOCITY_COUNT: usize = 3;

pub const HIGH_VELOCITY_RISK: u32 = 300_000_000;

pub const RAISED_VELOCITY_RISK: u32 = 150_000_000;

pub const ODD_HOUR_RISK: u32 = 200_000_000;

pub const RAPID_SUCCESSION_RISK: u32 = 250_000_000;

pub const AMOUNT_SPIKE_RISK: u32 = 250_000_000;

/// How many of the transactions took place within the last hour.
pub open spec fn count_within_hour(recent: Seq<RecentTransaction>) -> nat
    decreases recent.len(),
{
    if recent.len() == 0 {
        0
    } else {
        count_within_hour(recent.drop_last()) + if recent.last().age_micros
            <= VELOCITY_WINDOW_MICROS {
            1nat
        } else {
            0nat
        }
    }
}

/// The sum of the amounts.
pub open spec fn total_amount(recent: Seq<RecentTransaction>) -> int
    decreases recent.len(),
{
    if recent.len() == 0 {
        0
    } else {
        total_amount(recent.drop_last()) + recent.last().amount
    }
}

/// The hour lies in the night, from two to five o'clock.
pub open spec fn odd_hour(hour: int) -> bool {
    2 <= hour <= 5
}

/// The previous transaction took place less than five minutes ago.
pub open spec fn rapid_succession(recent: Seq<RecentTransaction>) -> bool {
    recent.len() > 0 && recent[0].age_micros < RAPID_SUCCESSION_MICROS
}

/// The amount is more than three times the mean of the recent amounts.
pub open spec fn amount_spike(amount: int, recent: Seq<RecentTransaction>) -> bool {
    recent.len() > 0 && amount * recent.len() > 3 * total_amount(recent)
}

/// Scores a transaction by its timing and frequency.
#[derive(Debug, Clone, Copy)]
pub struct AnomalyAgent;

impl AnomalyAgent {
    /// The sum of the contributions, before it is cut to the range.
    pub open spec fn raw_risk(
        transaction: TransactionView,
        recent: Seq<RecentTransaction>,
        hour: int,
    ) -> int {
        let count = count_within_hour(recent);
        let velocity = if count >= HIGH_VELOCITY_COUNT {
            HIGH_VELOCITY_RISK as int
        } else if count >= RAISED_VELOCITY_COUNT {
            RAISED_VELOCITY_RISK as int
        } else {
            0
        };
        let night = if odd_hour(hour) {
            ODD_HOUR_RISK as int
        } else {
            0
        };
        let rapid = if rapid_succession(recent) {
            RAPID_SUCCESSION_RISK as int
        } else {
            0
        };
        let spike = if amount_spike(transaction.amount, recent) {
            AMOUNT_SPIKE_RISK as int
        } else {
            0
        };
        velocity + night + rapid + spike
    }

    /// The triggered factors, in the order in which they are reported.
    pub open spec fn factors(
        transaction: TransactionView,
        recent: Seq<RecentTransaction>,
        hour: int,
    ) -> Seq<Seq<char>> {
        let count = count_within_hour(recent);
        let velocity = if count >= HIGH_VELOCITY_COUNT {
            seq![integer_text(count as int) + " transactions in last hour (high velocity)"@]
        } else if count >= RAISED_VELOCITY_COUNT {
            seq![integer_text(count as int) + " transactions in last hour (raised velocity)"@]
        } else {
            Seq::<Seq<char>>::empty()
        };
        let night = if odd_hour(hour) {
            seq!["Transaction at unusual hour: "@ + integer_text(hour) + ":00"@]
        } else {
            Seq::<Seq<char>>::empty()
        };
        let rapid = if rapid_succession(recent) {
            seq![
                "Transaction only "@ + rounded_text(recent[0].age_micros as int, 60_000_000, 0)
                    + " minutes after previous"@,
            ]
        } else {
            Seq::<Seq<char>>::empty()
        };
        let spike = if amount_spike(transaction.amount, recent) {
            seq![
                "Amount $"@ + rounded_text(transaction.amount, 1, 2) + " is 3x recent average $"@
                    + rounded_text(total_amount(recent), recent.len() as int, 2),
            ]
        } else {
            Seq::<Seq<char>>::empty()
        };
        velocity + night + rapid + spike
    }

    /// What the agent reports for a transaction against a history, at a given
    /// hour of the day.
    pub open spec fn spec_analyze(
        transaction: TransactionView,
        recent: Seq<RecentTransaction>,
        hour: int,
    ) -> AgentScoreView {
        AgentScoreView {
            risk_score: clamp_score(Self::raw_risk(transaction, recent, hour)),
            reason: reason_text(
                Self::factors(transaction, recent, hour),
                "Normal transaction timing and frequency"@,
            ),
            details: AgentDetailsView::Anomaly {
                transactions_last_hour: count_within_hour(recent) as int,
                hour_of_day: hour,
                recent_transaction_count: recent.len() as int,
            },
        }
    }

    pub fn new() -> (agent: Self) {
        AnomalyAgent
    }

    /// Scores the transaction as if it were analysed in hour `hour` of the UTC
    /// day. The same transaction, history and hour always give the same score,
    /// reason and details, and the score lies between zero and one.
    pub fn analyze_at(
        &self,
        transaction: &Transaction,
        history: &AnomalyHistory,
        hour: u32,
    ) -> (score: AgentScore)
        ensures
            score@ == Self::spec_analyze(transaction@, history@, hour as int),
            score@.in_range(),
    {
        let recent = &history.recent;
        let count: usize = count_recent(recent);
        let mut risk: u32 = 0;
        let mut factors: Vec<String> = Vec::new();
        if count >= HIGH_VELOCITY_COUNT {
            risk = risk + HIGH_VELOCITY_RISK;
            let mut factor = format_integer(count as i128);
            factor.append(" transactions in last hour (high velocity)");
            proof {
                lemma_views_push(factors@, factor);
            }
            factors.push(factor);
        } else if count >= RAISED_VELOCITY_COUNT {
            risk = risk + RAISED_VELOCITY_RISK;
            let mut factor = format_integer(count as i128);
            factor.append(" transactions in last hour (raised velocity)");
            proof {
                lemma_views_push(factors@, factor);
            }
            factors.push(factor);
        }
        if 2 <= hour && hour <= 5 {
            risk = risk + ODD_HOUR_RISK;
            let mut factor = String::from_str("Transaction at unusual hour: ");
            factor.append(format_integer(hour as i128).as_str());
            factor.append(":00");
            proof {
                lemma_views_push(factors@, factor);
            }
            factors.push(factor);
        }
        if recent.len() > 0 && recent[0].age_micros < RAPID_SUCCESSION_MICROS {
            risk = risk + RAPID_SUCCESSION_RISK;
            let mut factor = String::from_str("Transaction only ");
            factor.append(format_fixed(recent[0].age_micros as i128, 60_000_000, 0).as_str());
            factor.append(" minutes after previous");
            proof {
                lemma_views_push(factors@, factor);
            }
            factors.push(factor);
        }
        if recent.len() > 0 {
            let total: i128 = sum_amounts(recent);
            if exceeds_triple(transaction.amount, recent.len(), total) {
                risk = risk + AMOUNT_SPIKE_RISK;
                let mut factor = String::from_str("Amount $");
                factor.append(format_fixed(transaction.amount as i128, 1, 2).as_str());
                factor.append(" is 3x recent average $");
                factor.append(format_fixed(total, recent.len() as u64, 2).as_str());
                proof {
                    lemma_views_push(factors@, factor);
                }
                factors.push(factor);
            }
        }
        proof {
            assert(string_views(factors@) =~= Self::factors(
                transaction@,
                history@,
                hour as int,
            ));
        }
        AgentScore {
            risk_score: clamp(risk),
            reason: reason_from(
                &factors,
                String::from_str("Normal transaction timing and frequency"),
            ),
            details: AgentDetails::Anomaly {
                transactions_last_hour: count,
                hour_of_day: hour,
                recent_transaction_count: recent.len(),
            },
        }
    }

    /// Scores the transaction at the current hour of the UTC day, read from
    /// the system clock. Which hour that is, the arguments do not determine;
    /// whatever it is, the result is the one that `analyze_at` gives for it.
    pub fn analyze(
        &self,
        transaction: &Transaction,
        history: &AnomalyHistory,
    ) -> (score: AgentScore)
        ensures
            exists|hour: int|
                0 <= hour < 24 && score@ == #[trigger] Self::spec_analyze(
                    transaction@,
                    history@,
                    hour,
                ),
            score@.in_range(),
    {
        let hour: u32 = clock::now().hour();
        self.analyze_at(transaction, history, hour)
    }
}

/// Counts the transactions within the last hour.
fn count_recent(recent: &Vec<RecentTransaction>) -> (count: usize)
    ensures
        count == count_within_hour(recent@),
{
    let mut count: usize = 0;
    let mut i: usize = 0;
    while i < recent.len()
        invariant
            i <= recent@.len(),
            count <= i,
            count == count_within_hour(recent@.take(i as int)),
        decreases recent@.len() - i,
    {
        proof {
            assert(recent@.take(i + 1).drop_last() =~= recent@.take(i as int));
        }
        if recent[i].age_micros <= VELOCITY_WINDOW_MICROS {
            count += 1;
        }
        i += 1;
    }
    assert(recent@.take(i as int) =~= recent@);
    count
}

/// Adds up the amounts. The sum of any vector of 64-bit amounts fits 128 bits.
fn sum_amounts(recent: &Vec<RecentTransaction>) -> (total: i128)
    ensures
        total == total_amount(recent@),
        -(recent@.len() * 0x8000_0000_0000_0000) <= total <= recent@.len()
            * 0x8000_0000_0000_0000,
{
    let len: usize = recent.len();
    let mut total: i128 = 0;
    let mut i: usize = 0;
    while i < len
        invariant
            len == recent@.len(),
            i <= len,
            total == total_amount(recent@.take(i as int)),
            -(i * 0x8000_0000_0000_0000) <= total <= i * 0x8000_0000_0000_0000,
        decreases recent@.len() - i,
    {
        proof {
            assert(recent@.take(i + 1).drop_last() =~= recent@.take(i as int));
        }
        total = total + recent[i].amount as i128;
        i += 1;
    }
    assert(recent@.take(i as int) =~= recent@);
    total
}

/// Whether `amount` exceeds three times the mean of `len` amounts that add up
/// to `total`, decided without a division.
fn exceeds_triple(amount: i64, len: usize, total: i128) -> (exceeds: bool)
    requires
        -(len * 0x8000_0000_0000_0000) <= total <= len * 0x8000_0000_0000_0000,
    ensures
        exceeds == (amount * len > 3 * total),
{
    assert(-0x8000_0000_0000_0000 * 0xffff_ffff_ffff_ffff <= amount * len
        <= 0x8000_0000_0000_0000 * 0xffff_ffff_ffff_ffff) by (nonlinear_arith)
        requires
            -0x8000_0000_0000_0000 <= amount <= 0x8000_0000_0000_0000,
            0 <= len <= 0xffff_ffff_ffff_ffff,
    ;
    let scaled: i128 = (amount as i128) * (len as i128);
    match total.checked_mul(3) {
        Some(triple) => scaled > triple,
        None => total < 0,
    }
}

/// The reason names something whenever something added to the score: the
/// list of factors is empty exactly when no contribution was made, so the
/// message for a normal transaction stands only beside a score of zero.
pub proof fn lemma_anomaly_factor_for_every_contribution(
    transaction: TransactionView,
    recent: Seq<RecentTransaction>,
    hour: int,
)
    ensures
        AnomalyAgent::factors(transaction, recent, hour).len() == 0 <==> AnomalyAgent::raw_risk(
            transaction,
            recent,
            hour,
        ) == 0,
        AnomalyAgent::factors(transaction, recent, hour).len() == 0
            ==> AnomalyAgent::spec_analyze(transaction, recent, hour).risk_score == 0,
{
}

} // verus!
