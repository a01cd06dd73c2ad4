//! Network agent: devices shared between users, coordinated activity at one
//! merchant, and bursts from one device. Any of the three strong signals
//! marks a fraud ring.

use vstd::prelude::*;
use vstd::string::*;
use crate::agents::{clamp, clamp_score, lemma_views_push, reason_from, reason_text};
use crate::models::transaction::{AgentDetails, AgentDetailsView, AgentScore, AgentScoreView};
use crate::text::{format_integer, integer_text, string_views};

verus! {

/// What the data store holds for the network agent: how many other users
/// shared the device in the last 30 days, how many users transacted at the
/// merchant within an hour of the transaction, and how often the device was
/// used in the last hour.
#[derive(Debug, Clone, Copy, PartialEq, Eq, Structural)]
pub struct NetworkHistory {
    pub users_sharing_device: i64,
    pub coordinated_transactions: i64,
    pub velocity_ring: i64,
}

/// More sharing users than this mark a ring.
pub const RING_SHARING_USERS: i64 = 3;

/// More sharing users than this add risk without marking a ring.
pub const NOTABLE_SHARING_USERS: i64 = 1;

/// More coordinated users than this mark a ring.
pub const RING_COORDINATED_USERS: i64 = 5;

/// More uses of the device within the hour than this mark a ring.
pub const RING_DEVICE_USES: i64 = 10;

pub const RING_SHARING_RISK: u32 = 400_000_000;

pub const NOTABLE_SHARING_RISK: u32 = 200_000_000;

pub const COORDINATED_RISK: u32 = 300_000_000;

pub const DEVICE_BURST_RISK: u32 = 300_000_000;

/// The words that open the reason whenever a ring was found.
pub open spec fn ring_prefix() -> Seq<char> {
    "\u{26a0}\u{fe0f} FRAUD RING DETECTED: "@
}

/// Detects coordinated fraud across users.
#[derive(Debug, Clone, Copy)]
pub struct NetworkAgent;

impl NetworkAgent {
    /// A fraud ring shows in the history.
    pub open spec fn ring_detected(history: NetworkHistory) -> bool {
        ||| history.users_sharing_device > RING_SHARING_USERS
        ||| history.coordinated_transactions > RING_COORDINATED_USERS
        ||| history.velocity_ring > RING_DEVICE_USES
    }

    /// The sum of the contributions, before it is cut to the range.
    pub open spec fn raw_risk(history: NetworkHistory) -> int {
        let sharing = if history.users_sharing_device > RING_SHARING_USERS {
            RING_SHARING_RISK as int
        } else if history.users_sharing_device > NOTABLE_SHARING_USERS {
            NOTABLE_SHARING_RISK as int
        } else {
            0
        };
        let coordinated = if history.coordinated_transactions > RING_COORDINATED_USERS {
            COORDINATED_RISK as int
        } else {
            0
        };
        let burst = if history.velocity_ring > RING_DEVICE_USES {
            DEVICE_BURST_RISK as int
        } else {
            0
        };
        sharing + coordinated + burst
    }

    /// The triggered factors, in the order in which they are reported.
    pub open spec fn factors(history: NetworkHistory) -> Seq<Seq<char>> {
        let sharing = if history.users_sharing_device > RING_SHARING_USERS {
            seq![
                "Device shared by "@ + integer_text(history.users_sharing_device as int)
                    + " users (fraud ring)"@,
            ]
        } else if history.users_sharing_device > NOTABLE_SHARING_USERS {
            seq!["Device used by "@ + integer_text(history.users_sharing_device as int) + " users"@]
        } else {
            Seq::<Seq<char>>::empty()
        };
        let coordinated = if history.coordinated_transactions > RING_COORDINATED_USERS {
            seq![
                integer_text(history.coordinated_transactions as int)
                    + " coordinated transactions at same merchant"@,
            ]
        } else {
            Seq::<Seq<char>>::empty()
        };
        let burst = if history.velocity_ring > RING_DEVICE_USES {
            seq![
                integer_text(history.velocity_ring as int) + " rapid transactions from this device"@,
            ]
        } else {
            Seq::<Seq<char>>::empty()
        };
        sharing + coordinated + burst
    }

    /// The reported reason: the factors, behind the ring prefix when a ring
    /// was found.
    pub open spec fn reason(history: NetworkHistory) -> Seq<char> {
        let plain = reason_text(Self::factors(history), "No fraud ring indicators"@);
        if Self::ring_detected(history) {
            ring_prefix() + plain
        } else {
            plain
        }
    }

    /// What the agent reports for a history.
    pub open spec fn spec_analyze(history: NetworkHistory) -> AgentScoreView {
        AgentScoreView {
            risk_score: clamp_score(Self::raw_risk(history)),
            reason: Self::reason(history),
            details: AgentDetailsView::Network {
                fraud_ring_detected: Self::ring_detected(history),
                users_sharing_device: history.users_sharing_device as int,
                coordinated_transactions: history.coordinated_transactions as int,
            },
        }
    }

    pub fn new() -> (agent: Self) {
        NetworkAgent
    }

    /// Scores the signs of a fraud ring around the transaction. The same
    /// history always gives the same score, reason and details; the score lies
    /// between zero and one; and the reason opens with the ring prefix exactly
    /// when a ring was found.
    pub fn analyze(&self, history: &NetworkHistory) -> (score: AgentScore)
        ensures
            score@ == Self::spec_analyze(*history),
            score@.in_range(),
    {
        let mut risk: u32 = 0;
        let mut factors: Vec<String> = Vec::new();
        let mut ring = false;
        if history.users_sharing_device > RING_SHARING_USERS {
            risk = risk + RING_SHARING_RISK;
            ring = true;
            let mut factor = String::from_str("Device shared by ");
            factor.append(format_integer(history.users_sharing_device as i128).as_str());
            factor.append(" users (fraud ring)");
            proof {
                lemma_views_push(factors@, factor);
            }
            factors.push(factor);
        } else if history.users_sharing_device > NOTABLE_SHARING_USERS {
            risk = risk + NOTABLE_SHARING_RISK;
            let mut factor = String::from_str("Device used by ");
            factor.append(format_integer(history.users_sharing_device as i128).as_str());
            factor.append(" users");
            proof {
                lemma_views_push(factors@, factor);
            }
            factors.push(factor);
        }
        if history.coordinated_transactions > RING_COORDINATED_USERS {
            risk = risk + COORDINATED_RISK;
            ring = true;
            let mut factor = format_integer(history.coordinated_transactions as i128);
            factor.append(" coordinated transactions at same merchant");
            proof {
                lemma_views_push(factors@, factor);
            }
            factors.push(factor);
        }
        if history.velocity_ring > RING_DEVICE_USES {
            risk = risk + DEVICE_BURST_RISK;
            ring = true;
            let mut factor = format_integer(history.velocity_ring as i128);
            factor.append(" rapid transactions from this device");
            proof {
                lemma_views_push(factors@, factor);
            }
            factors.push(factor);
        }
        proof {
            assert(string_views(factors@) =~= Self::factors(*history));
        }
        let plain = reason_from(&factors, String::from_str("No fraud ring indicators"));
        let reason = if ring {
            let mut marked = String::from_str("\u{26a0}\u{fe0f} FRAUD RING DETECTED: ");
            marked.append(plain.as_str());
            marked
        } else {
            plain
        };
        AgentScore {
            risk_score: clamp(risk),
            reason,
            details: AgentDetails::Network {
                fraud_ring_detected: ring,
                users_sharing_device: history.users_sharing_device,
                coordinated_transactions: history.coordinated_transactions,
            },
        }
    }
}

/// The reason names something whenever something added to the score: the
/// list of factors is empty exactly when no contribution was made.
pub proof fn lemma_network_factor_for_every_contribution(history: NetworkHistory)
    ensures
        NetworkAgent::factors(history).len() == 0 <==> NetworkAgent::raw_risk(history) == 0,
        NetworkAgent::factors(history).len() == 0 ==> NetworkAgent::spec_analyze(
            history,
        ).risk_score == 0,
{
}

} // verus!
