//! What contract talks exchange: offers, decisions, the feedback shown to the
//! manager, and the contract arithmetic shared by players and staff.

use vstd::prelude::*;
use crate::dates::{Date, DateView, parsed_ymd};
use crate::params::NoteParams;
use crate::staff::RenewalSessionStatus;

verus! {

#[derive(Clone, Copy, Debug, PartialEq, Eq, Structural)]
pub enum RenewalDecision {
    Accepted,
    Rejected,
    CounterOffer,
}

/// Terms the manager puts on the table.
#[derive(Clone, Copy, Debug, PartialEq, Eq)]
pub struct RenewalOffer {
    pub weekly_wage: u32,
    pub contract_years: u32,
}

#[derive(Clone, Copy, Debug, PartialEq, Eq, Structural)]
pub enum NegotiationMood {
    Calm,
    Firm,
    Tense,
    Guarded,
    Positive,
}

/// How the other side comes across; the keys name texts to translate.
#[derive(Debug)]
pub struct NegotiationFeedback {
    pub mood: NegotiationMood,
    pub headline_key: String,
    pub detail_key: Option<String>,
    pub tension: u8,
    pub patience: u8,
    pub round: u8,
    pub params: NoteParams,
}

pub struct FeedbackView {
    pub mood: NegotiationMood,
    pub headline_key: Seq<char>,
    pub detail_key: Option<Seq<char>>,
    pub tension: int,
    pub patience: int,
    pub round: int,
    pub params: Map<Seq<char>, Seq<char>>,
}

impl View for NegotiationFeedback {
    type V = FeedbackView;

    open spec fn view(&self) -> FeedbackView {
        FeedbackView {
            mood: self.mood,
            headline_key: self.headline_key@,
            detail_key: match self.detail_key {
                Some(k) => Some(k@),
                None => None,
            },
            tension: self.tension as int,
            patience: self.patience as int,
            round: self.round as int,
            params: self.params@,
        }
    }
}

/// The answer to an offer.
#[derive(Debug)]
pub struct RenewalOutcome {
    pub decision: RenewalDecision,
    pub suggested_wage: Option<u32>,
    pub suggested_years: Option<u32>,
    pub session_status: RenewalSessionStatus,
    pub is_terminal: bool,
    pub cooled_off: bool,
    pub feedback: Option<NegotiationFeedback>,
}

pub struct OutcomeView {
    pub decision: RenewalDecision,
    pub suggested_wage: Option<u32>,
    pub suggested_years: Option<u32>,
    pub session_status: RenewalSessionStatus,
    pub is_terminal: bool,
    pub cooled_off: bool,
    pub feedback: Option<FeedbackView>,
}

impl View for RenewalOutcome {
    type V = OutcomeView;

    open spec fn view(&self) -> OutcomeView {
        OutcomeView {
            decision: self.decision,
            suggested_wage: self.suggested_wage,
            suggested_years: self.suggested_years,
            session_status: self.session_status,
            is_terminal: self.is_terminal,
            cooled_off: self.cooled_off,
            feedback: match self.feedback {
                Some(f) => Some(f@),
                None => None,
            },
        }
    }
}

/// How close a contract is to running out, as the rest of the game grades it.
#[derive(Clone, Copy, Debug, PartialEq, Eq, Structural)]
pub enum ContractWarningStage {
    FinalWeeks,
    ThreeMonths,
    SixMonths,
    TwelveMonths,
}

/// `value` rounded up to a multiple of 1000; values above the last multiple
/// of 1000 that a `u32` holds give `u32::MAX`.
pub open spec fn rounded_up_to_thousand(value: int) -> int {
    if value % 1000 == 0 {
        value
    } else if (value / 1000 + 1) * 1000 > u32::MAX {
        u32::MAX as int
    } else {
        (value / 1000 + 1) * 1000
    }
}

/// Rounds a wage up to a multiple of 1000.
pub fn round_up_to_nearest_thousand(value: u32) -> (r: u32)
    ensures
        r == rounded_up_to_thousand(value as int),
        r >= value,
{
    if value % 1000 == 0 {
        value
    } else {
        let next = (value / 1000 + 1) as u64 * 1000;
        if next > u32::MAX as u64 {
            u32::MAX
        } else {
            next as u32
        }
    }
}

/// Days from `today` to the end of a contract written `%Y-%m-%d`: `None`
/// where there is no end date or it does not read as a date.
pub open spec fn days_until_contract_end(contract_end: Option<Seq<char>>, today: DateView) -> Option<int> {
    match contract_end {
        None => None,
        Some(text) => match parsed_ymd(text) {
            None => None,
            Some(end) => Some(end.day_number - today.day_number),
        },
    }
}

/// The text of an optional string.
pub open spec fn opt_view(s: Option<String>) -> Option<Seq<char>> {
    match s {
        Some(t) => Some(t@),
        None => None,
    }
}

/// Days from `current_date` to the end of a contract, if it has a readable end date.
pub fn contract_days_remaining(contract_end: &Option<String>, current_date: &Date) -> (r: Option<i64>)
    ensures
        r matches Some(d) ==> days_until_contract_end(opt_view(*contract_end), current_date@) == Some(d as int),
        r is None ==> days_until_contract_end(opt_view(*contract_end), current_date@) is None,
{
    match contract_end {
        None => None,
        Some(text) => match Date::parse_ymd(text.as_str()) {
            None => None,
            Some(end) => {
                let a = end.day_number();
                let b = current_date.day_number();
                Some(a as i64 - b as i64)
            },
        },
    }
}

} // verus!
