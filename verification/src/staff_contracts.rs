//! Renewal talks between the manager and a member of staff: what the member
//! expects, how the conversation moves from round to round, and how an offer
//! is answered.

use vstd::prelude::*;
use crate::contracts::{opt_view, rounded_up_to_thousand, round_up_to_nearest_thousand, NegotiationFeedback, NegotiationMood, RenewalDecision, RenewalOffer, RenewalOutcome, FeedbackView, OutcomeView};
use crate::dates::{Date, DateView, months_later, parsed_ymd, ymd_text};
use crate::params::NoteParams;
use crate::staff::{StaffRole, Team, ContractRenewalState, MoraleCore, RenewalSessionOutcome, RenewalSessionStatus, Staff, StaffAttributes};
use crate::staff_ops::{remaining_contract_days, staff_contract_days_remaining};
use crate::game::{find_staff, find_team, first_staff_with_id, first_team_with_id, Game};

verus! {

/// Days after the last attempt from which an unfinished conversation goes cold.
pub const RENEWAL_SESSION_STALE_DAYS: i64 = 14;

/// Age in whole years on `today` of someone born on the date written in
/// `date_of_birth` (`%Y-%m-%d`); 40 where it does not read as a date.
pub open spec fn age_on(today: DateView, date_of_birth: Seq<char>) -> int {
    match parsed_ymd(date_of_birth) {
        None => 40,
        Some(born) => today.year - born.year - if today.ordinal < born.ordinal { 1int } else { 0int },
    }
}

/// Age in whole years on `current_date` of someone born on `date_of_birth`.
pub fn staff_age_on(current_date: &Date, date_of_birth: &String) -> (r: i32)
    ensures
        r == age_on(current_date@, date_of_birth@),
{
    match Date::parse_ymd(date_of_birth.as_str()) {
        None => 40,
        Some(born) => {
            let mut age = current_date.year() - born.year();
            if current_date.ordinal() < born.ordinal() {
                age -= 1;
            }
            age
        },
    }
}

/// How a member of staff rates on the average of their four attributes.
#[derive(Clone, Copy, Debug, PartialEq, Eq, Structural)]
pub enum QualityTier {
    /// Average of 75 or more.
    Elite,
    /// Average of 60 or more, below 75.
    Strong,
    /// Average above 40, below 60.
    Standard,
    /// Average of 40 or less.
    Modest,
}

/// The sum of the four attributes.
pub open spec fn attribute_sum(a: StaffAttributes) -> int {
    a.coaching + a.judging_ability + a.judging_potential + a.physiotherapy
}

/// The tier of an average of `attribute_sum(a) / 4`, compared exactly.
pub open spec fn quality_tier(a: StaffAttributes) -> QualityTier {
    let sum = attribute_sum(a);
    if sum >= 300 {
        QualityTier::Elite
    } else if sum >= 240 {
        QualityTier::Strong
    } else if sum <= 160 {
        QualityTier::Modest
    } else {
        QualityTier::Standard
    }
}

/// The quality tier of a member with these attributes.
pub fn staff_quality_tier(attributes: &StaffAttributes) -> (r: QualityTier)
    ensures
        r == quality_tier(*attributes),
{
    let sum = attributes.coaching as u32 + attributes.judging_ability as u32
        + attributes.judging_potential as u32 + attributes.physiotherapy as u32;
    if sum >= 300 {
        QualityTier::Elite
    } else if sum >= 240 {
        QualityTier::Strong
    } else if sum <= 160 {
        QualityTier::Modest
    } else {
        QualityTier::Standard
    }
}

/// Contract length, in years, that someone of `age` asks for.
pub open spec fn contract_years_for_age(age: int) -> int {
    if age <= 45 {
        3
    } else if age <= 52 {
        2
    } else {
        1
    }
}

/// The contract length, in years, that `staff` asks for.
pub fn expected_staff_contract_years(staff: &Staff, current_date: &Date) -> (r: u32)
    ensures
        r == contract_years_for_age(age_on(current_date@, staff.date_of_birth@)),
{
    let age = staff_age_on(current_date, &staff.date_of_birth);
    if age <= 45 {
        3
    } else if age <= 52 {
        2
    } else {
        1
    }
}

/// The round the next attempt opens: 1 without a conversation, or when
/// `today` is given and the last attempt was not on that day; otherwise the
/// round after the recorded one (at most 255).
pub open spec fn next_round(state: Option<ContractRenewalState>, today: Option<Seq<char>>) -> int {
    match state {
        None => 1,
        Some(st) => if today is Some && opt_view(st.last_attempt_date) != today {
            1
        } else if st.conversation_round + 1 > 255 {
            255
        } else {
            st.conversation_round + 1
        },
    }
}

/// The round of talks that the next attempt opens.
pub fn next_renewal_round_staff(staff: &Staff, today: Option<&String>) -> (r: u8)
    ensures
        r == next_round(
            staff.morale_core.renewal_state,
            match today {
                Some(t) => Some(t@),
                None => None,
            },
        ),
        r >= 1,
{
    match &staff.morale_core.renewal_state {
        None => 1,
        Some(state) => {
            if let Some(t) = today {
                let same_day = match &state.last_attempt_date {
                    Some(last) => *last == *t,
                    None => false,
                };
                if !same_day {
                    return 1;
                }
            }
            if state.conversation_round == 255 {
                255
            } else {
                state.conversation_round + 1
            }
        },
    }
}

/// An unfinished conversation (neither idle, agreed nor blocked) whose last
/// attempt, read as a date, lies `RENEWAL_SESSION_STALE_DAYS` days or more
/// before `today`.
pub open spec fn is_stale_session(state: ContractRenewalState, today: DateView) -> bool {
    &&& state.status != RenewalSessionStatus::Blocked
    &&& state.status != RenewalSessionStatus::Agreed
    &&& state.status != RenewalSessionStatus::Idle
    &&& match state.last_attempt_date {
        None => false,
        Some(text) => match parsed_ymd(text@) {
            None => false,
            Some(last) => today.day_number - last.day_number >= 14,
        },
    }
}

/// The conversation started over: idle, round 0, no recorded outcome.
pub open spec fn cooled_state(state: ContractRenewalState) -> ContractRenewalState {
    ContractRenewalState {
        status: RenewalSessionStatus::Idle,
        last_outcome: None,
        conversation_round: 0,
        ..state
    }
}

/// `staff` with the conversation `state`.
pub open spec fn with_renewal_state(staff: Staff, state: Option<ContractRenewalState>) -> Staff {
    Staff { morale_core: MoraleCore { renewal_state: state, ..staff.morale_core }, ..staff }
}

/// The conversation with `staff` has gone stale by `today`.
pub open spec fn session_goes_cold(staff: Staff, today: DateView) -> bool {
    match staff.morale_core.renewal_state {
        Some(st) => is_stale_session(st, today),
        None => false,
    }
}

/// `staff` after a stale conversation has been started over.
pub open spec fn after_cooling(staff: Staff, today: DateView) -> Staff {
    if session_goes_cold(staff, today) {
        with_renewal_state(staff, Some(cooled_state(staff.morale_core.renewal_state.unwrap())))
    } else {
        staff
    }
}

/// Starts a stale conversation over; says whether it did.
pub fn cool_stale_renewal_session_staff(staff: &mut Staff, current_date: &Date) -> (r: bool)
    ensures
        r == session_goes_cold(*old(staff), current_date@),
        *final(staff) == after_cooling(*old(staff), current_date@),
{
    let cold = match &staff.morale_core.renewal_state {
        None => false,
        Some(state) => {
            if state.status == RenewalSessionStatus::Blocked
                || state.status == RenewalSessionStatus::Agreed
                || state.status == RenewalSessionStatus::Idle {
                false
            } else {
                match &state.last_attempt_date {
                    None => false,
                    Some(text) => match Date::parse_ymd(text.as_str()) {
                        None => false,
                        Some(last) => {
                            let a = current_date.day_number();
                            let b = last.day_number();
                            a as i64 - b as i64 >= RENEWAL_SESSION_STALE_DAYS
                        },
                    },
                }
            }
        },
    };
    if cold {
        match staff.morale_core.renewal_state.take() {
            Some(mut state) => {
                state.status = RenewalSessionStatus::Idle;
                state.last_outcome = None;
                state.conversation_round = 0;
                staff.morale_core.renewal_state = Some(state);
            },
            None => {},
        }
    }
    cold
}

/// A blocked conversation whose block has no end, an end that does not read
/// as a date, or an end on or after `today`.
pub open spec fn manager_block_active(state: Option<ContractRenewalState>, today: DateView) -> bool {
    match state {
        None => false,
        Some(st) => st.status == RenewalSessionStatus::Blocked && match st.manager_blocked_until {
            None => true,
            Some(text) => match parsed_ymd(text@) {
                None => true,
                Some(until) => until.day_number >= today.day_number,
            },
        },
    }
}

/// The manager has blocked renewal talks with `staff`, and the block still lasts.
pub fn has_active_manager_block_staff(staff: &Staff, current_date: &Date) -> (r: bool)
    ensures
        r == manager_block_active(staff.morale_core.renewal_state, current_date@),
{
    match &staff.morale_core.renewal_state {
        None => false,
        Some(state) => {
            if state.status != RenewalSessionStatus::Blocked {
                return false;
            }
            match &state.manager_blocked_until {
                None => true,
                Some(text) => match Date::parse_ymd(text.as_str()) {
                    None => true,
                    Some(until) => until.day_number() >= current_date.day_number(),
                },
            }
        },
    }
}

/// Extra wage that a distrustful member wants before signing with the
/// manager: 2000 at trust 20 or less, 1000 at trust 30 or less, else none.
pub open spec fn relationship_margin(trust: int) -> int {
    if trust <= 20 {
        2000
    } else if trust <= 30 {
        1000
    } else {
        0
    }
}

/// A distrustful member refuses an offer below the expected wage plus the
/// margin (the sum capped at `u32::MAX`).
pub open spec fn relationship_refuses(trust: int, expected_wage: int, offered_wage: int) -> bool {
    let margin = relationship_margin(trust);
    let wanted = if expected_wage + margin > u32::MAX { u32::MAX as int } else { expected_wage + margin };
    margin > 0 && offered_wage < wanted
}

/// A distrustful member refuses the offered wage.
pub fn should_manual_renewal_fail_on_relationship_staff(
    staff: &Staff,
    expected_wage: u32,
    offered_wage: u32,
) -> (r: bool)
    ensures
        r == relationship_refuses(staff.morale_core.manager_trust as int, expected_wage as int, offered_wage as int),
{
    let trust = staff.morale_core.manager_trust;
    let relationship_margin: u32 = if trust <= 20 {
        2_000
    } else if trust <= 30 {
        1_000
    } else {
        0
    };
    relationship_margin > 0 && offered_wage < expected_wage.saturating_add(relationship_margin)
}

/// Pressure from a contract running out: 24 within 90 days, 16 within 180,
/// 8 within a year, 2 beyond.
pub open spec fn urgency_pressure(remaining_days: int) -> int {
    if remaining_days <= 90 {
        24
    } else if remaining_days <= 180 {
        16
    } else if remaining_days <= 365 {
        8
    } else {
        2
    }
}

/// Pressure from low morale: 24 at 40 or less, 12 at 60 or less.
pub open spec fn morale_pressure(morale: int) -> int {
    if morale <= 40 {
        24
    } else if morale <= 60 {
        12
    } else {
        0
    }
}

/// Pressure from low trust in the manager: 26 at 25 or less, 12 at 40 or less.
pub open spec fn trust_pressure(trust: int) -> int {
    if trust <= 25 {
        26
    } else if trust <= 40 {
        12
    } else {
        0
    }
}

/// Pressure from the member's standing: 10 for elite, 5 for strong.
pub open spec fn value_pressure(tier: QualityTier) -> int {
    match tier {
        QualityTier::Elite => 10,
        QualityTier::Strong => 5,
        _ => 0,
    }
}

/// `v` brought within `lo` to `hi`.
pub open spec fn clamp(v: int, lo: int, hi: int) -> int {
    if v < lo {
        lo
    } else if v > hi {
        hi
    } else {
        v
    }
}

/// Tension of the talks, from 10 to 92.
pub open spec fn talks_tension(staff: Staff, today: DateView) -> int {
    clamp(
        22 + urgency_pressure(remaining_contract_days(opt_view(staff.contract_end), today))
            + morale_pressure(staff.morale as int) + trust_pressure(
            staff.morale_core.manager_trust as int,
        ) + value_pressure(quality_tier(staff.attributes)),
        10,
        92,
    )
}

/// Patience left, from 18 to 92: 18 less for each round after the first, and
/// a third of the tension less.
pub open spec fn talks_patience(round: int, tension: int) -> int {
    let later_rounds = if round >= 1 { round - 1 } else { 0 };
    clamp(100 - later_rounds * 18 - tension / 3, 18, 92)
}

/// How the feedback reads.
#[derive(Clone, Copy, Debug, PartialEq, Eq, Structural)]
pub enum FeedbackTone {
    Blocked,
    AcceptedLate,
    Accepted,
    Tense,
    Firm,
    Calm,
}

/// How the feedback on a round reads.
pub open spec fn feedback_tone(
    decision: RenewalDecision,
    status: RenewalSessionStatus,
    round: int,
    tension: int,
    expected_wage: int,
    current_wage: int,
    relationship_blocked: bool,
) -> FeedbackTone {
    if status == RenewalSessionStatus::Blocked {
        FeedbackTone::Blocked
    } else if decision == RenewalDecision::Accepted && round >= 2 {
        FeedbackTone::AcceptedLate
    } else if decision == RenewalDecision::Accepted {
        FeedbackTone::Accepted
    } else if relationship_blocked || tension >= 70 {
        FeedbackTone::Tense
    } else if expected_wage > current_wage || round >= 2 {
        FeedbackTone::Firm
    } else {
        FeedbackTone::Calm
    }
}

/// The mood shown for a tone.
pub open spec fn tone_mood(tone: FeedbackTone) -> NegotiationMood {
    match tone {
        FeedbackTone::Blocked => NegotiationMood::Guarded,
        FeedbackTone::AcceptedLate => NegotiationMood::Positive,
        FeedbackTone::Accepted => NegotiationMood::Positive,
        FeedbackTone::Tense => NegotiationMood::Tense,
        FeedbackTone::Firm => NegotiationMood::Firm,
        FeedbackTone::Calm => NegotiationMood::Calm,
    }
}

/// The key of the headline shown for a tone.
pub open spec fn tone_headline_key(tone: FeedbackTone) -> Seq<char> {
    match tone {
        FeedbackTone::Blocked => "staffProfile.renewalFeedbackBlockedHeadline"@,
        FeedbackTone::AcceptedLate => "staffProfile.renewalFeedbackAcceptedLateHeadline"@,
        FeedbackTone::Accepted => "staffProfile.renewalFeedbackAcceptedHeadline"@,
        FeedbackTone::Tense => "staffProfile.renewalFeedbackTenseHeadline"@,
        FeedbackTone::Firm => "staffProfile.renewalFeedbackFirmHeadline"@,
        FeedbackTone::Calm => "staffProfile.renewalFeedbackCalmHeadline"@,
    }
}

/// The key of the detail shown for a tone.
pub open spec fn tone_detail_key(tone: FeedbackTone) -> Seq<char> {
    match tone {
        FeedbackTone::Blocked => "staffProfile.renewalFeedbackBlockedDetail"@,
        FeedbackTone::AcceptedLate => "staffProfile.renewalFeedbackAcceptedLateDetail"@,
        FeedbackTone::Accepted => "staffProfile.renewalFeedbackAcceptedDetail"@,
        FeedbackTone::Tense => "staffProfile.renewalFeedbackTenseDetail"@,
        FeedbackTone::Firm => "staffProfile.renewalFeedbackFirmDetail"@,
        FeedbackTone::Calm => "staffProfile.renewalFeedbackCalmDetail"@,
    }
}

/// The feedback on a round of talks with `staff`.
pub open spec fn staff_feedback(
    staff: Staff,
    today: DateView,
    decision: RenewalDecision,
    status: RenewalSessionStatus,
    round: int,
    expected_wage: int,
    relationship_blocked: bool,
) -> FeedbackView {
    let tension = talks_tension(staff, today);
    let tone = feedback_tone(decision, status, round, tension, expected_wage, staff.wage as int, relationship_blocked);
    FeedbackView {
        mood: tone_mood(tone),
        headline_key: tone_headline_key(tone),
        detail_key: Some(tone_detail_key(tone)),
        tension,
        patience: talks_patience(round, tension),
        round,
        params: Map::empty(),
    }
}

fn tone_keys(tone: FeedbackTone) -> (r: (String, String))
    ensures
        r.0@ == tone_headline_key(tone),
        r.1@ == tone_detail_key(tone),
{
    match tone {
        FeedbackTone::Blocked => (
            String::from_str("staffProfile.renewalFeedbackBlockedHeadline"),
            String::from_str("staffProfile.renewalFeedbackBlockedDetail"),
        ),
        FeedbackTone::AcceptedLate => (
            String::from_str("staffProfile.renewalFeedbackAcceptedLateHeadline"),
            String::from_str("staffProfile.renewalFeedbackAcceptedLateDetail"),
        ),
        FeedbackTone::Accepted => (
            String::from_str("staffProfile.renewalFeedbackAcceptedHeadline"),
            String::from_str("staffProfile.renewalFeedbackAcceptedDetail"),
        ),
        FeedbackTone::Tense => (
            String::from_str("staffProfile.renewalFeedbackTenseHeadline"),
            String::from_str("staffProfile.renewalFeedbackTenseDetail"),
        ),
        FeedbackTone::Firm => (
            String::from_str("staffProfile.renewalFeedbackFirmHeadline"),
            String::from_str("staffProfile.renewalFeedbackFirmDetail"),
        ),
        FeedbackTone::Calm => (
            String::from_str("staffProfile.renewalFeedbackCalmHeadline"),
            String::from_str("staffProfile.renewalFeedbackCalmDetail"),
        ),
    }
}

/// The feedback on a round of talks with `staff`.
pub fn build_staff_renewal_feedback(
    staff: &Staff,
    current_date: &Date,
    decision: RenewalDecision,
    session_status: RenewalSessionStatus,
    round: u8,
    expected_wage: u32,
    relationship_blocked: bool,
) -> (r: NegotiationFeedback)
    ensures
        r@ == staff_feedback(
            *staff,
            current_date@,
            decision,
            session_status,
            round as int,
            expected_wage as int,
            relationship_blocked,
        ),
{
    let trust = staff.morale_core.manager_trust;
    let remaining_days = staff_contract_days_remaining(&staff.contract_end, current_date);
    let urgency_pressure: i32 = if remaining_days <= 90 {
        24
    } else if remaining_days <= 180 {
        16
    } else if remaining_days <= 365 {
        8
    } else {
        2
    };
    let morale_pressure: i32 = if staff.morale <= 40 {
        24
    } else if staff.morale <= 60 {
        12
    } else {
        0
    };
    let trust_pressure: i32 = if trust <= 25 {
        26
    } else if trust <= 40 {
        12
    } else {
        0
    };
    let value_pressure: i32 = match staff_quality_tier(&staff.attributes) {
        QualityTier::Elite => 10,
        QualityTier::Strong => 5,
        _ => 0,
    };
    let raw_tension = 22 + urgency_pressure + morale_pressure + trust_pressure + value_pressure;
    let tension: u8 = if raw_tension < 10 {
        10
    } else if raw_tension > 92 {
        92
    } else {
        raw_tension as u8
    };
    let later_rounds: i32 = if round >= 1 { (round - 1) as i32 } else { 0 };
    let raw_patience = 100 - later_rounds * 18 - (tension as i32) / 3;
    let patience: u8 = if raw_patience < 18 {
        18
    } else if raw_patience > 92 {
        92
    } else {
        raw_patience as u8
    };
    let tone = if session_status == RenewalSessionStatus::Blocked {
        FeedbackTone::Blocked
    } else if decision == RenewalDecision::Accepted && round >= 2 {
        FeedbackTone::AcceptedLate
    } else if decision == RenewalDecision::Accepted {
        FeedbackTone::Accepted
    } else if relationship_blocked || tension >= 70 {
        FeedbackTone::Tense
    } else if expected_wage > staff.wage || round >= 2 {
        FeedbackTone::Firm
    } else {
        FeedbackTone::Calm
    };
    let mood = match tone {
        FeedbackTone::Blocked => NegotiationMood::Guarded,
        FeedbackTone::AcceptedLate => NegotiationMood::Positive,
        FeedbackTone::Accepted => NegotiationMood::Positive,
        FeedbackTone::Tense => NegotiationMood::Tense,
        FeedbackTone::Firm => NegotiationMood::Firm,
        FeedbackTone::Calm => NegotiationMood::Calm,
    };
    let (headline_key, detail_key) = tone_keys(tone);
    NegotiationFeedback {
        mood,
        headline_key,
        detail_key: Some(detail_key),
        tension,
        patience,
        round,
        params: NoteParams::new(),
    }
}

/// What a member of staff asks for in a renewal: the wage they expect and the
/// lowest wage they will discuss at all. Both come from floating-point scaling
/// of the current wage, which the caller does.
#[derive(Clone, Copy, Debug, PartialEq, Eq)]
pub struct StaffWageDemand {
    pub expected_wage: u32,
    pub minimum_wage: u32,
}

impl StaffWageDemand {
    /// A demand as the wage scale makes it: the lowest wage discussed (85% of
    /// the current wage, rounded down) never exceeds the expected wage (which
    /// is never below the current wage).
    pub open spec fn is_consistent(self) -> bool {
        self.minimum_wage <= self.expected_wage
    }
}

/// An answer to an offer, built from its parts.
pub open spec fn outcome_view(
    decision: RenewalDecision,
    suggested_wage: Option<u32>,
    suggested_years: Option<u32>,
    session_status: RenewalSessionStatus,
    is_terminal: bool,
    cooled_off: bool,
    feedback: Option<FeedbackView>,
) -> OutcomeView {
    OutcomeView {
        decision,
        suggested_wage,
        suggested_years,
        session_status,
        is_terminal,
        cooled_off,
        feedback,
    }
}

/// An answer to an offer, built from its parts.
pub fn renewal_outcome_staff(
    decision: RenewalDecision,
    suggested_wage: Option<u32>,
    suggested_years: Option<u32>,
    session_status: RenewalSessionStatus,
    is_terminal: bool,
    cooled_off: bool,
    feedback: Option<NegotiationFeedback>,
) -> (r: RenewalOutcome)
    ensures
        r@ == outcome_view(
            decision,
            suggested_wage,
            suggested_years,
            session_status,
            is_terminal,
            cooled_off,
            match feedback {
                Some(f) => Some(f@),
                None => None,
            },
        ),
{
    RenewalOutcome {
        decision,
        suggested_wage,
        suggested_years,
        session_status,
        is_terminal,
        cooled_off,
        feedback,
    }
}

/// The answer of `staff` to `offer`, in the first round after a gap of days:
/// rejected when the wage is below the minimum or the term is zero years;
/// accepted when wage and term both meet what the member expects; otherwise
/// a counter-offer at the expected wage and term.
pub open spec fn evaluated_outcome(
    staff: Staff,
    today: DateView,
    offer: RenewalOffer,
    demand: StaffWageDemand,
) -> OutcomeView {
    let round = next_round(staff.morale_core.renewal_state, None);
    let expected_years = contract_years_for_age(age_on(today, staff.date_of_birth@));
    let expected_wage = demand.expected_wage as int;
    if offer.weekly_wage < demand.minimum_wage || offer.contract_years == 0 {
        outcome_view(
            RenewalDecision::Rejected,
            None,
            None,
            RenewalSessionStatus::Stalled,
            false,
            false,
            Some(staff_feedback(staff, today, RenewalDecision::Rejected, RenewalSessionStatus::Stalled, round, expected_wage, false)),
        )
    } else if offer.weekly_wage >= demand.expected_wage && offer.contract_years >= expected_years {
        outcome_view(
            RenewalDecision::Accepted,
            None,
            None,
            RenewalSessionStatus::Agreed,
            true,
            false,
            Some(staff_feedback(staff, today, RenewalDecision::Accepted, RenewalSessionStatus::Agreed, round, expected_wage, false)),
        )
    } else {
        outcome_view(
            RenewalDecision::CounterOffer,
            Some(demand.expected_wage),
            Some(expected_years as u32),
            RenewalSessionStatus::Open,
            false,
            false,
            Some(staff_feedback(staff, today, RenewalDecision::CounterOffer, RenewalSessionStatus::Open, round, expected_wage, false)),
        )
    }
}

/// The answer of `staff` to `offer`; `demand` is what the member asks for.
pub fn evaluate_staff_renewal_offer(
    staff: &Staff,
    current_date: &Date,
    offer: &RenewalOffer,
    demand: &StaffWageDemand,
) -> (r: RenewalOutcome)
    requires
        demand.is_consistent(),
    ensures
        r@ == evaluated_outcome(*staff, current_date@, *offer, *demand),
{
    let round = next_renewal_round_staff(staff, None);
    let expected_wage = demand.expected_wage;
    let expected_years = expected_staff_contract_years(staff, current_date);
    let minimum_wage = demand.minimum_wage;

    if offer.weekly_wage < minimum_wage || offer.contract_years == 0 {
        let feedback = build_staff_renewal_feedback(
            staff,
            current_date,
            RenewalDecision::Rejected,
            RenewalSessionStatus::Stalled,
            round,
            expected_wage,
            false,
        );
        return renewal_outcome_staff(
            RenewalDecision::Rejected,
            None,
            None,
            RenewalSessionStatus::Stalled,
            false,
            false,
            Some(feedback),
        );
    }
    if offer.weekly_wage >= expected_wage && offer.contract_years >= expected_years {
        let feedback = build_staff_renewal_feedback(
            staff,
            current_date,
            RenewalDecision::Accepted,
            RenewalSessionStatus::Agreed,
            round,
            expected_wage,
            false,
        );
        return renewal_outcome_staff(
            RenewalDecision::Accepted,
            None,
            None,
            RenewalSessionStatus::Agreed,
            true,
            false,
            Some(feedback),
        );
    }
    let feedback = build_staff_renewal_feedback(
        staff,
        current_date,
        RenewalDecision::CounterOffer,
        RenewalSessionStatus::Open,
        round,
        expected_wage,
        false,
    );
    renewal_outcome_staff(
        RenewalDecision::CounterOffer,
        Some(expected_wage),
        Some(expected_years),
        RenewalSessionStatus::Open,
        false,
        false,
        Some(feedback),
    )
}

/// The board's answer to raising this member's wage to the offered one,
/// under the club's wage policy, with the message it gives when it refuses.
pub struct WagePolicyVerdict {
    pub allows: bool,
    pub refusal: String,
}

/// A conversation that has not started.
pub open spec fn fresh_renewal_state() -> ContractRenewalState {
    ContractRenewalState {
        status: RenewalSessionStatus::Idle,
        manager_blocked_until: None,
        last_attempt_date: None,
        last_assistant_attempt_date: None,
        last_outcome: None,
        conversation_round: 0,
    }
}

/// The conversation to record an attempt in: the existing one, or a fresh one.
pub open spec fn renewal_base(state: Option<ContractRenewalState>) -> ContractRenewalState {
    match state {
        Some(st) => st,
        None => fresh_renewal_state(),
    }
}

/// `after` is `base` with a manager's attempt on the day written `today`
/// recorded: its status, outcome and round, with the manager's block lifted
/// where `lifts_block`.
pub open spec fn records_manager_attempt(
    after: ContractRenewalState,
    base: ContractRenewalState,
    today: Seq<char>,
    round: int,
    status: RenewalSessionStatus,
    outcome: RenewalSessionOutcome,
    lifts_block: bool,
) -> bool {
    &&& after.status == status
    &&& after.manager_blocked_until == if lifts_block { None } else { base.manager_blocked_until }
    &&& opt_view(after.last_attempt_date) == Some(today)
    &&& after.last_assistant_attempt_date == base.last_assistant_attempt_date
    &&& after.last_outcome == Some(outcome)
    &&& after.conversation_round == round
}

/// Everything of `a` and `b` but wage, contract end and renewal state agrees.
pub open spec fn same_member(a: Staff, b: Staff) -> bool {
    &&& a.id == b.id
    &&& a.first_name == b.first_name
    &&& a.last_name == b.last_name
    &&& a.date_of_birth == b.date_of_birth
    &&& a.role == b.role
    &&& a.attributes == b.attributes
    &&& a.team_id == b.team_id
    &&& a.morale == b.morale
    &&& a.morale_core.manager_trust == b.morale_core.manager_trust
    &&& a.morale_core.unresolved_issue == b.morale_core.unresolved_issue
}

/// The answer to the manager's offer once neither a block nor an agreement
/// of the same day stands in the way: a distrustful member refuses below
/// the expected wage plus the relationship margin, otherwise the offer is
/// evaluated as usual.
pub open spec fn manual_answer(
    member: Staff,
    today: DateView,
    offer: RenewalOffer,
    demand: StaffWageDemand,
    cooled_off: bool,
    round: int,
) -> OutcomeView {
    if relationship_refuses(
        member.morale_core.manager_trust as int,
        demand.expected_wage as int,
        offer.weekly_wage as int,
    ) {
        outcome_view(
            RenewalDecision::Rejected,
            None,
            None,
            RenewalSessionStatus::Stalled,
            false,
            cooled_off,
            Some(staff_feedback(member, today, RenewalDecision::Rejected, RenewalSessionStatus::Stalled, round, demand.expected_wage as int, true)),
        )
    } else {
        OutcomeView { cooled_off, ..evaluated_outcome(member, today, offer, demand) }
    }
}

/// A manual renewal proposal to `before`, leaving it as `after` and
/// answering `r`. A stale conversation is first started over; then the
/// member refuses while the manager's block lasts; an agreement already made
/// today is answered again as final; otherwise the offer gets its answer. An
/// accepted offer needs the board's consent and a representable end date
/// (`contract_years` later), and then sets wage and end date; other answers
/// record the attempt only.
pub open spec fn manual_renewal_done(
    before: Staff,
    after: Staff,
    today: DateView,
    offer: RenewalOffer,
    demand: StaffWageDemand,
    board: WagePolicyVerdict,
    r: Result<RenewalOutcome, String>,
) -> bool {
    let cooled = session_goes_cold(before, today);
    let s1 = after_cooling(before, today);
    let text = ymd_text(today);
    let round = next_round(s1.morale_core.renewal_state, Some(text));
    let state = s1.morale_core.renewal_state;
    if manager_block_active(state, today) {
        &&& after == s1
        &&& r matches Ok(o) && o@ == outcome_view(
            RenewalDecision::Rejected,
            None,
            None,
            RenewalSessionStatus::Blocked,
            true,
            cooled,
            Some(staff_feedback(s1, today, RenewalDecision::Rejected, RenewalSessionStatus::Blocked, round, 0, false)),
        )
    } else if state matches Some(st) && st.status == RenewalSessionStatus::Agreed
        && opt_view(st.last_attempt_date) == Some(text) {
        &&& after == s1
        &&& r matches Ok(o) && o@ == outcome_view(
            RenewalDecision::Rejected,
            None,
            None,
            RenewalSessionStatus::Agreed,
            true,
            cooled,
            Some(staff_feedback(s1, today, RenewalDecision::Accepted, RenewalSessionStatus::Agreed, round, s1.wage as int, false)),
        )
    } else {
        let answer = manual_answer(s1, today, offer, demand, cooled, round);
        if answer.decision == RenewalDecision::Accepted {
            if !board.allows {
                &&& after == s1
                &&& r matches Err(e) && e@ == board.refusal@
            } else {
                match months_later(today, offer.contract_years * 12) {
                    None => {
                        &&& after == s1
                        &&& r matches Err(e) && e@ == "Unable to calculate new contract end date"@
                    },
                    Some(end) => {
                        &&& same_member(after, s1)
                        &&& after.wage == offer.weekly_wage
                        &&& opt_view(after.contract_end) == Some(ymd_text(end))
                        &&& after.morale_core.renewal_state matches Some(st2) && records_manager_attempt(
                            st2,
                            renewal_base(state),
                            text,
                            round,
                            RenewalSessionStatus::Agreed,
                            RenewalSessionOutcome::AcceptedByManager,
                            true,
                        )
                        &&& r matches Ok(o) && o@ == outcome_view(
                            RenewalDecision::Accepted,
                            None,
                            None,
                            RenewalSessionStatus::Agreed,
                            true,
                            cooled,
                            Some(staff_feedback(after, today, RenewalDecision::Accepted, RenewalSessionStatus::Agreed, round, demand.expected_wage as int, false)),
                        )
                    },
                }
            }
        } else {
            &&& same_member(after, s1)
            &&& after.wage == s1.wage
            &&& after.contract_end == s1.contract_end
            &&& after.morale_core.renewal_state matches Some(st2) && records_manager_attempt(
                st2,
                renewal_base(state),
                text,
                round,
                if answer.decision == RenewalDecision::Rejected { answer.session_status } else { RenewalSessionStatus::Open },
                if answer.decision == RenewalDecision::Rejected { RenewalSessionOutcome::RejectedByPlayer } else { RenewalSessionOutcome::Stalled },
                false,
            )
            &&& r matches Ok(o) && o@ == answer
        }
    }
}

/// The member would accept `offer` from the manager on `today`: talks are
/// not blocked, no agreement was made today, and the answer (after a stale
/// conversation has been started over) is an acceptance, for which the
/// board's consent is then asked.
pub open spec fn member_accepts(before: Staff, today: DateView, offer: RenewalOffer, demand: StaffWageDemand) -> bool {
    let s1 = after_cooling(before, today);
    let text = ymd_text(today);
    let state = s1.morale_core.renewal_state;
    &&& !manager_block_active(state, today)
    &&& !(state matches Some(st) && st.status == RenewalSessionStatus::Agreed
        && opt_view(st.last_attempt_date) == Some(text))
    &&& manual_answer(s1, today, offer, demand, session_goes_cold(before, today),
        next_round(state, Some(text))).decision == RenewalDecision::Accepted
}

/// The manager's renewal proposal to one member of staff.
pub fn propose_to_staff_member(
    member: &mut Staff,
    current_date: &Date,
    offer: RenewalOffer,
    demand: &StaffWageDemand,
    board: &WagePolicyVerdict,
) -> (r: Result<RenewalOutcome, String>)
    requires
        demand.is_consistent(),
    ensures
        manual_renewal_done(*old(member), *final(member), current_date@, offer, *demand, *board, r),
{
    let cooled_off = cool_stale_renewal_session_staff(member, current_date);
    let today = current_date.format_ymd();
    let round = next_renewal_round_staff(member, Some(&today));

    if has_active_manager_block_staff(member, current_date) {
        let feedback = build_staff_renewal_feedback(
            member,
            current_date,
            RenewalDecision::Rejected,
            RenewalSessionStatus::Blocked,
            round,
            0,
            false,
        );
        return Ok(renewal_outcome_staff(
            RenewalDecision::Rejected,
            None,
            None,
            RenewalSessionStatus::Blocked,
            true,
            cooled_off,
            Some(feedback),
        ));
    }

    let agreed_today = match &member.morale_core.renewal_state {
        Some(state) => state.status == RenewalSessionStatus::Agreed && match &state.last_attempt_date {
            Some(last) => *last == today,
            None => false,
        },
        None => false,
    };
    if agreed_today {
        let feedback = build_staff_renewal_feedback(
            member,
            current_date,
            RenewalDecision::Accepted,
            RenewalSessionStatus::Agreed,
            round,
            member.wage,
            false,
        );
        return Ok(renewal_outcome_staff(
            RenewalDecision::Rejected,
            None,
            None,
            RenewalSessionStatus::Agreed,
            true,
            cooled_off,
            Some(feedback),
        ));
    }

    let expected_wage = demand.expected_wage;
    let mut outcome = evaluate_staff_renewal_offer(member, current_date, &offer, demand);
    outcome.cooled_off = cooled_off;
    let relationship_blocked = should_manual_renewal_fail_on_relationship_staff(
        member,
        expected_wage,
        offer.weekly_wage,
    );
    if relationship_blocked {
        let feedback = build_staff_renewal_feedback(
            member,
            current_date,
            RenewalDecision::Rejected,
            RenewalSessionStatus::Stalled,
            round,
            expected_wage,
            true,
        );
        outcome = renewal_outcome_staff(
            RenewalDecision::Rejected,
            None,
            None,
            RenewalSessionStatus::Stalled,
            false,
            cooled_off,
            Some(feedback),
        );
    }

    if outcome.decision == RenewalDecision::Accepted {
        if !board.allows {
            return Err(board.refusal.clone());
        }
        let months = match offer.contract_years.checked_mul(12) {
            Some(m) => m,
            None => return Err(String::from_str("Unable to calculate new contract end date")),
        };
        let new_contract_end = match current_date.add_months(months) {
            Some(end) => end,
            None => return Err(String::from_str("Unable to calculate new contract end date")),
        };
        let mut state = match member.morale_core.renewal_state.take() {
            Some(st) => st,
            None => ContractRenewalState::fresh(),
        };
        member.wage = offer.weekly_wage;
        member.contract_end = Some(new_contract_end.format_ymd());
        state.status = RenewalSessionStatus::Agreed;
        state.manager_blocked_until = None;
        state.last_attempt_date = Some(today);
        state.last_outcome = Some(RenewalSessionOutcome::AcceptedByManager);
        state.conversation_round = round;
        member.morale_core.renewal_state = Some(state);
        let feedback = build_staff_renewal_feedback(
            member,
            current_date,
            RenewalDecision::Accepted,
            RenewalSessionStatus::Agreed,
            round,
            expected_wage,
            false,
        );
        return Ok(renewal_outcome_staff(
            RenewalDecision::Accepted,
            None,
            None,
            RenewalSessionStatus::Agreed,
            true,
            cooled_off,
            Some(feedback),
        ));
    }
    let mut state = match member.morale_core.renewal_state.take() {
        Some(st) => st,
        None => ContractRenewalState::fresh(),
    };
    state.last_attempt_date = Some(today);
    state.conversation_round = round;
    if outcome.decision == RenewalDecision::Rejected {
        state.status = outcome.session_status;
        state.last_outcome = Some(RenewalSessionOutcome::RejectedByPlayer);
    } else {
        state.status = RenewalSessionStatus::Open;
        state.last_outcome = Some(RenewalSessionOutcome::Stalled);
    }
    member.morale_core.renewal_state = Some(state);
    Ok(outcome)
}

/// Which member of staff a manual proposal addresses, or why there is none:
/// the manager needs a club that exists in the game, and the member must be
/// found by id and belong to that club.
pub open spec fn proposal_target(game: Game, staff_id: Seq<char>) -> Result<int, Seq<char>> {
    match game.manager_team_id {
        None => Err("No team assigned"@),
        Some(team_id) => match first_team_with_id(game.teams@, team_id@) {
            None => Err("Manager team not found"@),
            Some(t) => match first_staff_with_id(game.staff@, staff_id) {
                None => Err("Staff member not found"@),
                Some(k) => if opt_view(game.staff@[k].team_id) != Some(game.teams@[t].id@) {
                    Err("Staff member does not belong to your club"@)
                } else {
                    Ok(k)
                },
            },
        },
    }
}

/// The manager proposes `offer` to the member of staff `staff_id`.
/// `demand` is what that member asks for and `board` the board's answer to
/// paying them the offered wage.
pub fn propose_staff_renewal(
    game: &mut Game,
    staff_id: &String,
    offer: RenewalOffer,
    demand: &StaffWageDemand,
    board: &WagePolicyVerdict,
) -> (r: Result<RenewalOutcome, String>)
    requires
        demand.is_consistent(),
    ensures
        final(game).manager_team_id == old(game).manager_team_id,
        final(game).current_date == old(game).current_date,
        final(game).teams == old(game).teams,
        final(game).players == old(game).players,
        final(game).scouting_assignments == old(game).scouting_assignments,
        final(game).messages == old(game).messages,
        match proposal_target(*old(game), staff_id@) {
            Err(e) => r matches Err(x) && x@ == e && final(game).staff == old(game).staff,
            Ok(k) => {
                &&& final(game).staff@ == old(game).staff@.update(k, final(game).staff@[k])
                &&& manual_renewal_done(
                    old(game).staff@[k],
                    final(game).staff@[k],
                    old(game).current_date@,
                    offer,
                    *demand,
                    *board,
                    r,
                )
            },
        },
{
    let manager_team_id = match &game.manager_team_id {
        Some(id) => id,
        None => return Err(String::from_str("No team assigned")),
    };
    let team_index = match find_team(&game.teams, manager_team_id) {
        Some(t) => t,
        None => return Err(String::from_str("Manager team not found")),
    };
    let staff_index = match find_staff(&game.staff, staff_id) {
        Some(k) => k,
        None => return Err(String::from_str("Staff member not found")),
    };
    let belongs = match &game.staff[staff_index].team_id {
        Some(t) => *t == game.teams[team_index].id,
        None => false,
    };
    if !belongs {
        return Err(String::from_str("Staff member does not belong to your club"));
    }
    let current_date = game.current_date;
    propose_to_staff_member(&mut game.staff[staff_index], &current_date, offer, demand, board)
}

/// The club's wage bill before and after a renewal, as the club's wage
/// policy computes them.
#[derive(Clone, Copy, Debug, PartialEq, Eq)]
pub struct WageBillFigures {
    pub current_annual_wage_bill: i64,
    pub projected_annual_wage_bill: i64,
}

/// What a renewal at a given wage would do to the club's finances.
#[derive(Clone, Copy, Debug, PartialEq, Eq)]
pub struct RenewalFinancialProjection<R> {
    pub current_annual_wage_bill: i64,
    pub projected_annual_wage_bill: i64,
    pub annual_wage_budget: i64,
    pub annual_soft_cap: i64,
    pub current_weekly_wage_spend: i64,
    pub projected_weekly_wage_spend: i64,
    pub current_cash_runway_weeks: R,
    pub projected_cash_runway_weeks: R,
    pub currently_over_budget: bool,
    pub policy_allows: bool,
}

/// The member of staff and the club a projection is about, or why there
/// is none.
pub open spec fn projection_target(game: Game, staff_id: Seq<char>) -> Result<(int, int), Seq<char>> {
    match first_staff_with_id(game.staff@, staff_id) {
        None => Err("Staff member not found"@),
        Some(k) => match game.staff@[k].team_id {
            None => Err("Staff member has no team"@),
            Some(team_id) => match first_team_with_id(game.teams@, team_id@) {
                None => Err("Team not found"@),
                Some(t) => Ok((k, t)),
            },
        },
    }
}

/// Rust's division of integers, rounding toward zero.
pub open spec fn div_toward_zero(a: int, b: int) -> int {
    if a >= 0 { a / b } else { -((-a) / b) }
}

/// Projects the financial effect of renewing the member of staff `staff_id`
/// at `offered_wage`. `figures` holds the club's wage bills, `board` the
/// board's answer to paying this member the offered wage (the same answer a
/// proposal at that wage gets); `cash_runway_weeks` tells how many weeks the
/// club's cash lasts at a given weekly change of balance.
pub fn project_staff_renewal_financial_impact<R, F: Fn(i64, i64) -> R>(
    game: &Game,
    staff_id: &String,
    offered_wage: u32,
    figures: &WageBillFigures,
    board: &WagePolicyVerdict,
    cash_runway_weeks: F,
) -> (r: Result<RenewalFinancialProjection<R>, String>)
    requires
        projection_target(*game, staff_id@) matches Ok((k, t)) ==> {
            let budget = game.teams@[t].wage_budget;
            i64::MIN <= budget * 110 <= i64::MAX
        },
        forall|finance: i64, weekly: i64| cash_runway_weeks.requires((finance, weekly)),
    ensures
        match projection_target(*game, staff_id@) {
            Err(e) => r matches Err(x) && x@ == e,
            Ok((k, t)) => r matches Ok(p) && {
                let team = game.teams@[t];
                let current_weekly = div_toward_zero(figures.current_annual_wage_bill as int, 52);
                let projected_weekly = div_toward_zero(figures.projected_annual_wage_bill as int, 52);
                &&& p.current_annual_wage_bill == figures.current_annual_wage_bill
                &&& p.projected_annual_wage_bill == figures.projected_annual_wage_bill
                &&& p.annual_wage_budget == team.wage_budget
                &&& p.annual_soft_cap == div_toward_zero(team.wage_budget * 110, 100)
                &&& p.current_weekly_wage_spend == current_weekly
                &&& p.projected_weekly_wage_spend == projected_weekly
                &&& cash_runway_weeks.ensures((team.finance, (-current_weekly) as i64), p.current_cash_runway_weeks)
                &&& cash_runway_weeks.ensures((team.finance, (-projected_weekly) as i64), p.projected_cash_runway_weeks)
                &&& p.currently_over_budget == (figures.current_annual_wage_bill > team.wage_budget)
                &&& p.policy_allows == board.allows
            },
        },
{
    let staff_index = match find_staff(&game.staff, staff_id) {
        Some(k) => k,
        None => return Err(String::from_str("Staff member not found")),
    };
    let team_id = match &game.staff[staff_index].team_id {
        Some(id) => id,
        None => return Err(String::from_str("Staff member has no team")),
    };
    let team_index = match find_team(&game.teams, team_id) {
        Some(t) => t,
        None => return Err(String::from_str("Team not found")),
    };
    let team = &game.teams[team_index];
    let current_bill = figures.current_annual_wage_bill;
    let projected_bill = figures.projected_annual_wage_bill;
    let annual_wage_budget = team.wage_budget;
    let annual_soft_cap = (annual_wage_budget * 110) / 100;
    let current_weekly_wage_spend = current_bill / 52;
    let projected_weekly_wage_spend = projected_bill / 52;
    let current_cash_runway_weeks = cash_runway_weeks(team.finance, -current_weekly_wage_spend);
    let projected_cash_runway_weeks = cash_runway_weeks(team.finance, -projected_weekly_wage_spend);
    Ok(RenewalFinancialProjection {
        current_annual_wage_bill: current_bill,
        projected_annual_wage_bill: projected_bill,
        annual_wage_budget,
        annual_soft_cap,
        current_weekly_wage_spend,
        projected_weekly_wage_spend,
        current_cash_runway_weeks,
        projected_cash_runway_weeks,
        currently_over_budget: current_bill > annual_wage_budget,
        policy_allows: board.allows,
    })
}

/// Where an age falls in the scale of a wage demand.
#[derive(Clone, Copy, Debug, PartialEq, Eq, Structural)]
pub enum AgeBand {
    /// 40 or younger: asks 4% more.
    Younger,
    /// Between 41 and 54.
    Middle,
    /// 55 or older: asks 6% less.
    Senior,
}

/// How much of a contract is left, in the scale of a wage demand.
#[derive(Clone, Copy, Debug, PartialEq, Eq, Structural)]
pub enum TermBand {
    /// 180 days or less: asks 10% more.
    Expiring,
    /// 181 to 365 days: asks 5% more.
    Closing,
    /// More than a year.
    Secure,
}

/// Which adjustments apply to the wage that a member of staff expects; the
/// percentages themselves are applied in floating point by the caller.
#[derive(Clone, Copy, Debug, PartialEq, Eq)]
pub struct ExpectedWageFactors {
    pub age_band: AgeBand,
    /// Morale of 50 or less: asks 8% more.
    pub low_morale: bool,
    pub tier: QualityTier,
    pub role: StaffRole,
    /// A club with reputation below 40 pays 5% more.
    pub low_reputation: bool,
    pub term_band: TermBand,
}

/// The age band of `age`.
pub open spec fn age_band(age: int) -> AgeBand {
    if age <= 40 {
        AgeBand::Younger
    } else if age >= 55 {
        AgeBand::Senior
    } else {
        AgeBand::Middle
    }
}

/// The term band of a contract with `remaining_days` days left.
pub open spec fn term_band(remaining_days: int) -> TermBand {
    if remaining_days <= 180 {
        TermBand::Expiring
    } else if remaining_days <= 365 {
        TermBand::Closing
    } else {
        TermBand::Secure
    }
}

/// The adjustments to the wage that `staff` expects from a club of `team_reputation`.
pub open spec fn expected_wage_factors(staff: Staff, team_reputation: int, today: DateView) -> ExpectedWageFactors {
    ExpectedWageFactors {
        age_band: age_band(age_on(today, staff.date_of_birth@)),
        low_morale: staff.morale <= 50,
        tier: quality_tier(staff.attributes),
        role: staff.role,
        low_reputation: team_reputation < 40,
        term_band: term_band(remaining_contract_days(opt_view(staff.contract_end), today)),
    }
}

/// The adjustments to the wage that `staff` expects from `team`.
pub fn staff_expected_wage_factors(staff: &Staff, team: &Team, current_date: &Date) -> (r: ExpectedWageFactors)
    ensures
        r == expected_wage_factors(*staff, team.reputation as int, current_date@),
{
    let age = staff_age_on(current_date, &staff.date_of_birth);
    let remaining_days = staff_contract_days_remaining(&staff.contract_end, current_date);
    ExpectedWageFactors {
        age_band: if age <= 40 {
            AgeBand::Younger
        } else if age >= 55 {
            AgeBand::Senior
        } else {
            AgeBand::Middle
        },
        low_morale: staff.morale <= 50,
        tier: staff_quality_tier(&staff.attributes),
        role: staff.role,
        low_reputation: team.reputation < 40,
        term_band: if remaining_days <= 180 {
            TermBand::Expiring
        } else if remaining_days <= 365 {
            TermBand::Closing
        } else {
            TermBand::Secure
        },
    }
}

/// The expected wage from the adjusted wage (rounded up to whole units):
/// rounded up to a thousand, and never below the current wage.
pub open spec fn expected_wage_from_scaled(scaled: int, current_wage: int) -> int {
    let rounded = rounded_up_to_thousand(scaled);
    if rounded >= current_wage { rounded } else { current_wage }
}

/// The expected wage from the adjusted wage.
pub fn finish_expected_staff_wage(scaled: u32, current_wage: u32) -> (r: u32)
    ensures
        r == expected_wage_from_scaled(scaled as int, current_wage as int),
        r >= current_wage,
{
    let rounded = round_up_to_nearest_thousand(scaled);
    if rounded >= current_wage { rounded } else { current_wage }
}

} // verus!
