//! The five signal agents. Each scores one transaction against the history
//! that the data store holds for it, independently of the other four.

pub mod anomaly;
pub mod geographic;
pub mod merchant;
pub mod network;
pub mod pattern;

use vstd::prelude::*;
use vstd::string::*;
use crate::models::transaction::SCORE_ONE;
use crate::text::{join, join_strings, string_views};

verus! {

/// A sum of risk contributions, cut to the range from zero to one.
pub open spec fn clamp_score(raw: int) -> int {
    if raw < 0 {
        0
    } else if raw > SCORE_ONE {
        SCORE_ONE as int
    } else {
        raw
    }
}

/// Cuts a sum of risk contributions to at most one.
pub fn clamp(raw: u32) -> (score: u32)
    ensures
        score == clamp_score(raw as int),
        score <= SCORE_ONE,
{
    if raw > SCORE_ONE {
        SCORE_ONE
    } else {
        raw
    }
}

/// The reason an agent reports: its triggered factors joined by "; ", or the
/// agent's message for an unremarkable transaction when none was triggered.
pub open spec fn reason_text(factors: Seq<Seq<char>>, normal: Seq<char>) -> Seq<char> {
    if factors.len() == 0 {
        normal
    } else {
        join(factors, "; "@)
    }
}

/// Builds the reported reason from the triggered factors.
pub fn reason_from(factors: &Vec<String>, normal: String) -> (reason: String)
    ensures
        reason@ == reason_text(string_views(factors@), normal@),
{
    if factors.len() == 0 {
        normal
    } else {
        join_strings(factors, "; ")
    }
}

/// Pushing a string onto a vector pushes its characters onto the views.
pub proof fn lemma_views_push(parts: Seq<String>, part: String)
    ensures
        string_views(parts.push(part)) == string_views(parts).push(part@),
{
    assert(string_views(parts.push(part)) =~= string_views(parts).push(part@));
}

} // verus!
