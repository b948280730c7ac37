//! Renewals that the assistant manager handles on the manager's behalf:
//! whom the assistant can persuade, within which limits, what is recorded,
//! and the report that lands in the manager's inbox.

use vstd::prelude::*;
use crate::contracts::{opt_view, round_up_to_nearest_thousand, rounded_up_to_thousand, ContractWarningStage};
use crate::dates::{months_later, ymd_text, Date, DateView};
use crate::game::{find_team, first_team_with_id, Game};
use crate::messages::{
    DelegatedRenewalCaseData, DelegatedRenewalReportData, InboxMessage, MessageCategory, MessageContext,
    MessagePriority,
};
use crate::params::NoteParams;
use crate::staff::{
    ContractRenewalState, MoraleCore, Player, RenewalSessionOutcome, RenewalSessionStatus, Staff, StaffRole, Team,
};
use crate::staff_contracts::{
    age_on, attribute_sum, contract_years_for_age, expected_staff_contract_years, has_active_manager_block_staff,
    manager_block_active, renewal_base, same_member,
};
use crate::staff_ops::saturating_u32;
use crate::text::{decimal, decimal_text, signed_decimal, signed_decimal_text};

verus! {

/// Points for how close the contract is to its end.
pub open spec fn urgency_bonus(stage: Option<ContractWarningStage>) -> int {
    match stage {
        Some(ContractWarningStage::FinalWeeks) => 18,
        Some(ContractWarningStage::ThreeMonths) => 14,
        Some(ContractWarningStage::SixMonths) => 10,
        Some(ContractWarningStage::TwelveMonths) => 6,
        None => 2,
    }
}

/// How good a negotiator the assistant is: 40% coaching, 30% each of the
/// two judging attributes.
pub open spec fn assistant_quality(assistant: Staff) -> int {
    (assistant.attributes.coaching * 4 + assistant.attributes.judging_ability * 3
        + assistant.attributes.judging_potential * 3) / 10
}

/// Points lost to a grievance: half its severity.
pub open spec fn issue_penalty(core: MoraleCore) -> int {
    match core.unresolved_issue {
        Some(issue) => issue.severity as int / 2,
        None => 0,
    }
}

/// How likely a player is to sign through the assistant rather than the
/// manager; `stage` is how close the player's contract is to its end.
pub open spec fn player_delegation_score(assistant: Staff, player: Player, stage: Option<ContractWarningStage>) -> int {
    let importance: int = if player.market_value >= 2_000_000 {
        22
    } else if player.market_value >= 750_000 {
        10
    } else {
        0
    };
    assistant_quality(assistant) + player.morale_core.manager_trust / 3 + player.morale / 2
        + urgency_bonus(stage) - importance - issue_penalty(player.morale_core)
}

/// As for a player, with a colleague's standing measured by the average of
/// their attributes in place of market value.
pub open spec fn staff_delegation_score(assistant: Staff, colleague: Staff, stage: Option<ContractWarningStage>) -> int {
    let ovr = attribute_sum(colleague.attributes) / 4;
    let importance: int = if ovr >= 75 {
        20
    } else if ovr >= 60 {
        12
    } else {
        0
    };
    assistant_quality(assistant) + colleague.morale_core.manager_trust / 3 + colleague.morale / 2
        + urgency_bonus(stage) - importance - issue_penalty(colleague.morale_core)
}

fn urgency_bonus_of(stage: Option<ContractWarningStage>) -> (r: i32)
    ensures
        r == urgency_bonus(stage),
{
    match stage {
        Some(ContractWarningStage::FinalWeeks) => 18,
        Some(ContractWarningStage::ThreeMonths) => 14,
        Some(ContractWarningStage::SixMonths) => 10,
        Some(ContractWarningStage::TwelveMonths) => 6,
        None => 2,
    }
}

fn assistant_quality_of(assistant: &Staff) -> (r: i32)
    ensures
        r == assistant_quality(*assistant),
        0 <= r <= 255,
{
    (assistant.attributes.coaching as i32 * 4 + assistant.attributes.judging_ability as i32 * 3
        + assistant.attributes.judging_potential as i32 * 3) / 10
}

fn issue_penalty_of(core: &MoraleCore) -> (r: i32)
    ensures
        r == issue_penalty(*core),
        0 <= r <= 127,
{
    match &core.unresolved_issue {
        Some(issue) => issue.severity as i32 / 2,
        None => 0,
    }
}

/// The player's score for a renewal through the assistant.
pub fn assistant_delegation_score(
    assistant: &Staff,
    player: &Player,
    stage: Option<ContractWarningStage>,
) -> (r: i32)
    ensures
        r == player_delegation_score(*assistant, *player, stage),
{
    let importance_penalty: i32 = if player.market_value >= 2_000_000 {
        22
    } else if player.market_value >= 750_000 {
        10
    } else {
        0
    };
    assistant_quality_of(assistant) + player.morale_core.manager_trust as i32 / 3
        + player.morale as i32 / 2 + urgency_bonus_of(stage) - importance_penalty
        - issue_penalty_of(&player.morale_core)
}

/// A colleague's score for a renewal through the assistant.
pub fn assistant_delegation_score_staff(
    assistant: &Staff,
    colleague: &Staff,
    stage: Option<ContractWarningStage>,
) -> (r: i32)
    ensures
        r == staff_delegation_score(*assistant, *colleague, stage),
{
    let ovr = (colleague.attributes.coaching as i32 + colleague.attributes.judging_ability as i32
        + colleague.attributes.judging_potential as i32 + colleague.attributes.physiotherapy as i32) / 4;
    let importance_penalty: i32 = if ovr >= 75 {
        20
    } else if ovr >= 60 {
        12
    } else {
        0
    };
    assistant_quality_of(assistant) + colleague.morale_core.manager_trust as i32 / 3
        + colleague.morale as i32 / 2 + urgency_bonus_of(stage) - importance_penalty
        - issue_penalty_of(&colleague.morale_core)
}

/// The map that a list of named values describes, a later entry for the
/// same name overriding an earlier one.
pub open spec fn entries_map(entries: Seq<(&str, String)>) -> Map<Seq<char>, Seq<char>>
    decreases entries.len(),
{
    if entries.len() == 0 {
        Map::empty()
    } else {
        entries_map(entries.drop_last()).insert(entries.last().0@, entries.last().1@)
    }
}

/// Collects named values into note parameters.
pub fn delegated_note_params(entries: &[(&str, String)]) -> (r: NoteParams)
    ensures
        r@ == entries_map(entries@),
{
    let mut params = NoteParams::new();
    let mut i: usize = 0;
    while i < entries.len()
        invariant
            i <= entries.len(),
            params@ == entries_map(entries@.take(i as int)),
        decreases entries.len() - i,
    {
        assert(entries@.take(i + 1).drop_last() =~= entries@.take(i as int));
        let key = String::from_str(entries[i].0);
        let value = entries[i].1.clone();
        params.insert(key, value);
        i += 1;
    }
    assert(entries@.take(entries.len() as int) =~= entries@);
    params
}

/// What the manager lets the assistant do: whom to approach (all
/// renewals due when no list is given), how much of a raise in percent and
/// how many years at most.
#[derive(Clone, Debug, PartialEq, Eq)]
pub struct DelegatedRenewalOptions {
    pub player_ids: Option<Vec<String>>,
    pub staff_ids: Option<Vec<String>>,
    pub max_wage_increase_pct: u32,
    pub max_contract_years: u32,
}

#[derive(Clone, Copy, Debug, PartialEq, Eq, Structural)]
pub enum DelegatedRenewalResultStatus {
    Successful,
    Failed,
    Stalled,
}

/// How the assistant's attempt at one renewal went.
#[derive(Clone, Copy, Debug, PartialEq, Eq, Structural)]
pub enum DelegatedDecision {
    /// The manager has blocked talks with this person.
    ManagerBlocked,
    /// The wage or term asked for lies beyond the manager's limits.
    BeyondLimits,
    /// Agreed within the limits, waiting for the board's consent.
    ReadyToClose,
    /// Agreed, but the board's wage policy does not allow it.
    BoardRefused,
    /// Renewed.
    Completed,
    /// Willing to talk, but only to the manager.
    PrefersManager,
    /// Not willing to sign through the assistant.
    RelationshipBlocked,
}

/// The most years the assistant may offer: the manager's limit, at least 1.
pub open spec fn delegation_max_years(limit: int) -> int {
    if limit >= 1 { limit } else { 1 }
}

/// The highest wage the assistant may offer: the current wage raised by
/// `pct` percent (the product saturating at `u32::MAX`), rounded up to a
/// thousand.
pub open spec fn delegation_max_wage(current_wage: int, pct: int) -> int {
    rounded_up_to_thousand(saturating_u32(current_wage * (100 + pct)) / 100)
}

/// The assistant's decision before the board is asked: blocked talks stay
/// closed; demands beyond the limits stall; a score of 95 or more closes the
/// deal (subject to the board), 72 or more leaves the person preferring the
/// manager, and less makes them refuse.
pub open spec fn delegated_decision(
    blocked: bool,
    expected_wage: int,
    expected_years: int,
    current_wage: int,
    options: DelegatedRenewalOptions,
    score: int,
) -> DelegatedDecision {
    if blocked {
        DelegatedDecision::ManagerBlocked
    } else if delegation_max_wage(current_wage, options.max_wage_increase_pct as int) < expected_wage
        || delegation_max_years(options.max_contract_years as int) < expected_years {
        DelegatedDecision::BeyondLimits
    } else if score >= 95 {
        DelegatedDecision::ReadyToClose
    } else if score >= 72 {
        DelegatedDecision::PrefersManager
    } else {
        DelegatedDecision::RelationshipBlocked
    }
}

/// The wage agreed: what is asked, up to the limit.
pub open spec fn delegated_agreed_wage(expected_wage: int, current_wage: int, options: DelegatedRenewalOptions) -> int {
    let limit = delegation_max_wage(current_wage, options.max_wage_increase_pct as int);
    if expected_wage <= limit { expected_wage } else { limit }
}

/// The term agreed: what is asked, up to the limit.
pub open spec fn delegated_agreed_years(expected_years: int, options: DelegatedRenewalOptions) -> int {
    let limit = delegation_max_years(options.max_contract_years as int);
    if expected_years <= limit { expected_years } else { limit }
}

/// The assistant's limits for someone on `current_wage`: the highest wage and
/// the most years.
pub fn delegation_limits(current_wage: u32, options: &DelegatedRenewalOptions) -> (r: (u32, u32))
    ensures
        r.0 == delegation_max_wage(current_wage as int, options.max_wage_increase_pct as int),
        r.1 == delegation_max_years(options.max_contract_years as int),
{
    let max_years = if options.max_contract_years >= 1 { options.max_contract_years } else { 1 };
    let factor = options.max_wage_increase_pct.saturating_add(100);
    assert(current_wage * factor <= u64::MAX) by (nonlinear_arith)
        requires
            current_wage <= u32::MAX,
            factor <= u32::MAX,
    ;
    let raised = current_wage as u64 * factor as u64;
    let raised: u32 = if raised > u32::MAX as u64 { u32::MAX } else { raised as u32 };
    proof {
        let pct = options.max_wage_increase_pct as int;
        if 100 + pct <= u32::MAX {
            assert(factor == 100 + pct);
        } else if current_wage == 0 {
            assert(current_wage * factor == 0);
            assert(current_wage * (100 + pct) == 0);
        } else {
            assert(factor == u32::MAX);
            assert(current_wage * factor >= factor) by (nonlinear_arith)
                requires
                    current_wage >= 1,
                    factor >= 0,
            ;
            assert(current_wage * (100 + pct) >= 100 + pct) by (nonlinear_arith)
                requires
                    current_wage >= 1,
                    pct >= 0,
            ;
        }
        assert(raised == saturating_u32(current_wage * (100 + pct)));
    }
    (round_up_to_nearest_thousand(raised / 100), max_years)
}

/// The assistant's decision before the board is asked.
pub fn decide_delegated_renewal(
    blocked: bool,
    expected_wage: u32,
    expected_years: u32,
    current_wage: u32,
    options: &DelegatedRenewalOptions,
    score: i32,
) -> (r: DelegatedDecision)
    ensures
        r == delegated_decision(blocked, expected_wage as int, expected_years as int, current_wage as int, *options, score as int),
{
    if blocked {
        return DelegatedDecision::ManagerBlocked;
    }
    let (max_wage, max_years) = delegation_limits(current_wage, options);
    if max_wage < expected_wage || max_years < expected_years {
        DelegatedDecision::BeyondLimits
    } else if score >= 95 {
        DelegatedDecision::ReadyToClose
    } else if score >= 72 {
        DelegatedDecision::PrefersManager
    } else {
        DelegatedDecision::RelationshipBlocked
    }
}

/// The outcome reported for a decision.
pub open spec fn decision_status(d: DelegatedDecision) -> DelegatedRenewalResultStatus {
    match d {
        DelegatedDecision::Completed => DelegatedRenewalResultStatus::Successful,
        DelegatedDecision::ManagerBlocked => DelegatedRenewalResultStatus::Failed,
        DelegatedDecision::RelationshipBlocked => DelegatedRenewalResultStatus::Failed,
        _ => DelegatedRenewalResultStatus::Stalled,
    }
}

/// The note the assistant writes for a decision.
pub open spec fn decision_note(d: DelegatedDecision, expected_wage: int, expected_years: int) -> Seq<char> {
    match d {
        DelegatedDecision::ManagerBlocked => "You told me not to reopen contract talks yet."@,
        DelegatedDecision::BeyondLimits => "Their camp want around \u{20ac}"@ + decimal(expected_wage as nat) + "/wk for "@
            + decimal(expected_years as nat) + " years, which is beyond the delegation limits."@,
        DelegatedDecision::BoardRefused => "I could progress the talks, but board wage limits prevented this renewal from being completed."@,
        DelegatedDecision::Completed => "I was able to close this one without needing you to step in."@,
        DelegatedDecision::PrefersManager => "They would listen, but they still want about \u{20ac}"@ + decimal(expected_wage as nat)
            + "/wk for "@ + decimal(expected_years as nat) + " years and prefer to hear from you directly."@,
        DelegatedDecision::RelationshipBlocked => "They are not willing to commit through me under the current relationship and contract situation."@,
        DelegatedDecision::ReadyToClose => Seq::empty(),
    }
}

/// The key of the translated note for a decision.
pub open spec fn decision_note_key(d: DelegatedDecision) -> Seq<char> {
    match d {
        DelegatedDecision::ManagerBlocked => "be.msg.delegatedRenewals.notes.managerBlocked"@,
        DelegatedDecision::BeyondLimits => "be.msg.delegatedRenewals.notes.beyondLimits"@,
        DelegatedDecision::BoardRefused => "be.msg.delegatedRenewals.notes.boardWagePolicy"@,
        DelegatedDecision::Completed => "be.msg.delegatedRenewals.notes.completed"@,
        DelegatedDecision::PrefersManager => "be.msg.delegatedRenewals.notes.prefersManager"@,
        DelegatedDecision::RelationshipBlocked => "be.msg.delegatedRenewals.notes.relationshipBlocked"@,
        DelegatedDecision::ReadyToClose => Seq::empty(),
    }
}

/// The values that fill in the translated note for a decision.
pub open spec fn decision_note_params(d: DelegatedDecision, expected_wage: int, expected_years: int, wage_budget: int) -> Map<Seq<char>, Seq<char>> {
    match d {
        DelegatedDecision::BeyondLimits => Map::empty().insert("wage"@, decimal(expected_wage as nat)).insert("years"@, decimal(expected_years as nat)),
        DelegatedDecision::PrefersManager => Map::empty().insert("wage"@, decimal(expected_wage as nat)).insert("years"@, decimal(expected_years as nat)),
        DelegatedDecision::BoardRefused => Map::empty().insert("budget"@, signed_decimal(wage_budget)),
        _ => Map::empty(),
    }
}

/// One renewal in the assistant's report: `player_id` and `player_name`
/// name a player, or `staff_id` and `player_name` a member of staff.
#[derive(Debug)]
pub struct DelegatedRenewalCase {
    pub player_id: String,
    pub player_name: String,
    pub staff_id: Option<String>,
    pub status: DelegatedRenewalResultStatus,
    pub agreed_wage: Option<u32>,
    pub agreed_years: Option<u32>,
    pub note: String,
    pub note_key: Option<String>,
    pub note_params: NoteParams,
}

pub struct CaseView {
    pub player_id: Seq<char>,
    pub player_name: Seq<char>,
    pub staff_id: Option<Seq<char>>,
    pub status: DelegatedRenewalResultStatus,
    pub agreed_wage: Option<u32>,
    pub agreed_years: Option<u32>,
    pub note: Seq<char>,
    pub note_key: Option<Seq<char>>,
    pub note_params: Map<Seq<char>, Seq<char>>,
}

impl View for DelegatedRenewalCase {
    type V = CaseView;

    open spec fn view(&self) -> CaseView {
        CaseView {
            player_id: self.player_id@,
            player_name: self.player_name@,
            staff_id: opt_view(self.staff_id),
            status: self.status,
            agreed_wage: self.agreed_wage,
            agreed_years: self.agreed_years,
            note: self.note@,
            note_key: opt_view(self.note_key),
            note_params: self.note_params@,
        }
    }
}

/// The report line for a final decision (`ReadyToClose` excluded) about
/// the person named by `player_id`, `player_name` and `staff_id`.
pub open spec fn delegated_case_view(
    decision: DelegatedDecision,
    player_id: Seq<char>,
    player_name: Seq<char>,
    staff_id: Option<Seq<char>>,
    expected_wage: int,
    expected_years: int,
    agreed_wage: int,
    agreed_years: int,
    wage_budget: int,
) -> CaseView {
    CaseView {
        player_id,
        player_name,
        staff_id,
        status: decision_status(decision),
        agreed_wage: if decision == DelegatedDecision::Completed { Some(agreed_wage as u32) } else { None },
        agreed_years: if decision == DelegatedDecision::Completed { Some(agreed_years as u32) } else { None },
        note: decision_note(decision, expected_wage, expected_years),
        note_key: Some(decision_note_key(decision)),
        note_params: decision_note_params(decision, expected_wage, expected_years, wage_budget),
    }
}

fn wage_and_years_params(expected_wage: u32, expected_years: u32) -> (r: NoteParams)
    ensures
        r@ == Map::<Seq<char>, Seq<char>>::empty().insert("wage"@, decimal(expected_wage as nat)).insert("years"@, decimal(expected_years as nat)),
{
    let mut params = NoteParams::new();
    params.insert(String::from_str("wage"), decimal_text(expected_wage as u64));
    params.insert(String::from_str("years"), decimal_text(expected_years as u64));
    params
}

fn demand_note(lead: &str, expected_wage: u32, expected_years: u32, tail: &str) -> (r: String)
    ensures
        r@ == lead@ + decimal(expected_wage as nat) + "/wk for "@ + decimal(expected_years as nat) + tail@,
{
    let mut note = String::from_str(lead);
    let wage = decimal_text(expected_wage as u64);
    note.append(wage.as_str());
    note.append("/wk for ");
    let years = decimal_text(expected_years as u64);
    note.append(years.as_str());
    note.append(tail);
    note
}

/// Writes the report line for a final decision.
pub fn delegated_case(
    decision: DelegatedDecision,
    player_id: String,
    player_name: String,
    staff_id: Option<String>,
    expected_wage: u32,
    expected_years: u32,
    agreed_wage: u32,
    agreed_years: u32,
    wage_budget: i64,
) -> (r: DelegatedRenewalCase)
    requires
        decision != DelegatedDecision::ReadyToClose,
    ensures
        r@ == delegated_case_view(
            decision,
            player_id@,
            player_name@,
            opt_view(staff_id),
            expected_wage as int,
            expected_years as int,
            agreed_wage as int,
            agreed_years as int,
            wage_budget as int,
        ),
{
    let (status, note, note_key, note_params) = match decision {
        DelegatedDecision::ManagerBlocked => (
            DelegatedRenewalResultStatus::Failed,
            String::from_str("You told me not to reopen contract talks yet."),
            String::from_str("be.msg.delegatedRenewals.notes.managerBlocked"),
            NoteParams::new(),
        ),
        DelegatedDecision::BeyondLimits => (
            DelegatedRenewalResultStatus::Stalled,
            demand_note(
                "Their camp want around \u{20ac}",
                expected_wage,
                expected_years,
                " years, which is beyond the delegation limits.",
            ),
            String::from_str("be.msg.delegatedRenewals.notes.beyondLimits"),
            wage_and_years_params(expected_wage, expected_years),
        ),
        DelegatedDecision::BoardRefused => {
            let mut params = NoteParams::new();
            params.insert(String::from_str("budget"), signed_decimal_text(wage_budget));
            (
                DelegatedRenewalResultStatus::Stalled,
                String::from_str(
                    "I could progress the talks, but board wage limits prevented this renewal from being completed.",
                ),
                String::from_str("be.msg.delegatedRenewals.notes.boardWagePolicy"),
                params,
            )
        },
        DelegatedDecision::Completed => (
            DelegatedRenewalResultStatus::Successful,
            String::from_str("I was able to close this one without needing you to step in."),
            String::from_str("be.msg.delegatedRenewals.notes.completed"),
            NoteParams::new(),
        ),
        DelegatedDecision::PrefersManager => (
            DelegatedRenewalResultStatus::Stalled,
            demand_note(
                "They would listen, but they still want about \u{20ac}",
                expected_wage,
                expected_years,
                " years and prefer to hear from you directly.",
            ),
            String::from_str("be.msg.delegatedRenewals.notes.prefersManager"),
            wage_and_years_params(expected_wage, expected_years),
        ),
        _ => (
            DelegatedRenewalResultStatus::Failed,
            String::from_str(
                "They are not willing to commit through me under the current relationship and contract situation.",
            ),
            String::from_str("be.msg.delegatedRenewals.notes.relationshipBlocked"),
            NoteParams::new(),
        ),
    };
    let completed = match decision {
        DelegatedDecision::Completed => true,
        _ => false,
    };
    DelegatedRenewalCase {
        player_id,
        player_name,
        staff_id,
        status,
        agreed_wage: if completed { Some(agreed_wage) } else { None },
        agreed_years: if completed { Some(agreed_years) } else { None },
        note,
        note_key: Some(note_key),
        note_params,
    }
}

/// The conversation status a decision leaves behind.
pub open spec fn decision_session_status(d: DelegatedDecision) -> RenewalSessionStatus {
    match d {
        DelegatedDecision::Completed => RenewalSessionStatus::Agreed,
        DelegatedDecision::PrefersManager => RenewalSessionStatus::Open,
        _ => RenewalSessionStatus::Stalled,
    }
}

/// The outcome a decision records.
pub open spec fn decision_session_outcome(d: DelegatedDecision) -> RenewalSessionOutcome {
    match d {
        DelegatedDecision::Completed => RenewalSessionOutcome::AcceptedByAssistant,
        DelegatedDecision::RelationshipBlocked => RenewalSessionOutcome::RejectedByPlayer,
        _ => RenewalSessionOutcome::Stalled,
    }
}

/// `after` is `base` with the assistant's attempt on the day written `today`
/// recorded for the decision `d`: status, outcome, round 0, and the
/// manager's block lifted on a renewal.
pub open spec fn records_assistant_attempt(
    after: ContractRenewalState,
    base: ContractRenewalState,
    today: Seq<char>,
    d: DelegatedDecision,
) -> bool {
    &&& after.status == decision_session_status(d)
    &&& after.manager_blocked_until == if d == DelegatedDecision::Completed { None } else { base.manager_blocked_until }
    &&& after.last_attempt_date == base.last_attempt_date
    &&& opt_view(after.last_assistant_attempt_date) == Some(today)
    &&& after.last_outcome == Some(decision_session_outcome(d))
    &&& after.conversation_round == 0
}

/// What a final decision does to a contract: nothing while the manager's
/// block lasts; a renewal sets the agreed wage and an end date
/// `agreed_years` from today (failing, with nothing changed, where that date
/// is out of range); every other decision, and a renewal, is recorded in the
/// conversation.
pub open spec fn delegated_decision_applied(
    decision: DelegatedDecision,
    agreed_wage: int,
    agreed_years: int,
    today: DateView,
    wage: u32,
    contract_end: Option<String>,
    state: Option<ContractRenewalState>,
    wage2: u32,
    contract_end2: Option<String>,
    state2: Option<ContractRenewalState>,
    r: Result<(), String>,
) -> bool {
    let text = ymd_text(today);
    if decision == DelegatedDecision::ManagerBlocked {
        &&& r is Ok
        &&& wage2 == wage && contract_end2 == contract_end && state2 == state
    } else if decision == DelegatedDecision::Completed {
        match months_later(today, agreed_years * 12) {
            None => {
                &&& r matches Err(e) && e@ == "Unable to calculate delegated contract end date"@
                &&& wage2 == wage && contract_end2 == contract_end && state2 == state
            },
            Some(end) => {
                &&& r is Ok
                &&& wage2 == agreed_wage
                &&& opt_view(contract_end2) == Some(ymd_text(end))
                &&& state2 matches Some(st) && records_assistant_attempt(st, renewal_base(state), text, decision)
            },
        }
    } else {
        &&& r is Ok
        &&& wage2 == wage && contract_end2 == contract_end
        &&& state2 matches Some(st) && records_assistant_attempt(st, renewal_base(state), text, decision)
    }
}

/// Carries out a final decision on a contract (wage, end date and
/// conversation of a player or a member of staff).
pub fn apply_delegated_decision(
    wage: &mut u32,
    contract_end: &mut Option<String>,
    state: &mut Option<ContractRenewalState>,
    decision: DelegatedDecision,
    agreed_wage: u32,
    agreed_years: u32,
    today: &Date,
) -> (r: Result<(), String>)
    requires
        decision != DelegatedDecision::ReadyToClose,
    ensures
        delegated_decision_applied(
            decision,
            agreed_wage as int,
            agreed_years as int,
            today@,
            *old(wage),
            *old(contract_end),
            *old(state),
            *final(wage),
            *final(contract_end),
            *final(state),
            r,
        ),
{
    if decision == DelegatedDecision::ManagerBlocked {
        return Ok(());
    }
    if decision == DelegatedDecision::Completed {
        let months = match agreed_years.checked_mul(12) {
            Some(m) => m,
            None => return Err(String::from_str("Unable to calculate delegated contract end date")),
        };
        let end = match today.add_months(months) {
            Some(end) => end,
            None => return Err(String::from_str("Unable to calculate delegated contract end date")),
        };
        *wage = agreed_wage;
        *contract_end = Some(end.format_ymd());
    }
    let mut st = match state.take() {
        Some(st) => st,
        None => ContractRenewalState::fresh(),
    };
    st.status = match decision {
        DelegatedDecision::Completed => RenewalSessionStatus::Agreed,
        DelegatedDecision::PrefersManager => RenewalSessionStatus::Open,
        _ => RenewalSessionStatus::Stalled,
    };
    if decision == DelegatedDecision::Completed {
        st.manager_blocked_until = None;
    }
    st.last_assistant_attempt_date = Some(today.format_ymd());
    st.last_outcome = Some(
        match decision {
            DelegatedDecision::Completed => RenewalSessionOutcome::AcceptedByAssistant,
            DelegatedDecision::RelationshipBlocked => RenewalSessionOutcome::RejectedByPlayer,
            _ => RenewalSessionOutcome::Stalled,
        },
    );
    st.conversation_round = 0;
    *state = Some(st);
    Ok(())
}

/// How many of `cases` have the result `status`.
pub open spec fn status_count(cases: Seq<DelegatedRenewalCase>, status: DelegatedRenewalResultStatus) -> nat {
    cases.filter(|c: DelegatedRenewalCase| c.status == status).len()
}

/// The assistant's account of a round of delegated renewals.
#[derive(Debug)]
pub struct DelegatedRenewalReport {
    pub success_count: usize,
    pub failure_count: usize,
    pub stalled_count: usize,
    pub cases: Vec<DelegatedRenewalCase>,
}

impl DelegatedRenewalReport {
    /// Each count is the number of cases with that result.
    pub open spec fn counts_match(&self) -> bool {
        &&& self.success_count == status_count(self.cases@, DelegatedRenewalResultStatus::Successful)
        &&& self.failure_count == status_count(self.cases@, DelegatedRenewalResultStatus::Failed)
        &&& self.stalled_count == status_count(self.cases@, DelegatedRenewalResultStatus::Stalled)
    }

    /// A report with no cases.
    pub fn new() -> (r: DelegatedRenewalReport)
        ensures
            r.cases@.len() == 0,
            r.counts_match(),
            r.success_count == 0 && r.failure_count == 0 && r.stalled_count == 0,
    {
        let r = DelegatedRenewalReport { success_count: 0, failure_count: 0, stalled_count: 0, cases: Vec::new() };
        proof {
            reveal(Seq::filter);
        }
        r
    }

    /// Adds a case and counts its result.
    pub fn record(&mut self, case: DelegatedRenewalCase)
        requires
            old(self).counts_match(),
            old(self).cases@.len() < usize::MAX,
        ensures
            final(self).counts_match(),
            final(self).cases@ == old(self).cases@.push(case),
    {
        proof {
            self.cases@.lemma_filter_len(|c: DelegatedRenewalCase| c.status == DelegatedRenewalResultStatus::Successful);
            self.cases@.lemma_filter_len(|c: DelegatedRenewalCase| c.status == DelegatedRenewalResultStatus::Failed);
            self.cases@.lemma_filter_len(|c: DelegatedRenewalCase| c.status == DelegatedRenewalResultStatus::Stalled);
        }
        let ghost before = self.cases@;
        match case.status {
            DelegatedRenewalResultStatus::Successful => self.success_count += 1,
            DelegatedRenewalResultStatus::Failed => self.failure_count += 1,
            DelegatedRenewalResultStatus::Stalled => self.stalled_count += 1,
        }
        self.cases.push(case);
        proof {
            assert(self.cases@.drop_last() =~= before);
            reveal(Seq::filter);
        }
    }
}

/// The word a report gives for a result.
pub open spec fn status_word(status: DelegatedRenewalResultStatus) -> Seq<char> {
    match status {
        DelegatedRenewalResultStatus::Successful => "successful"@,
        DelegatedRenewalResultStatus::Failed => "failed"@,
        DelegatedRenewalResultStatus::Stalled => "stalled"@,
    }
}

/// `data` lists `case` as the inbox report does.
pub open spec fn case_data_lists(data: DelegatedRenewalCaseData, case: DelegatedRenewalCase) -> bool {
    &&& data.player_id@ == case.player_id@
    &&& data.player_name@ == case.player_name@
    &&& opt_view(data.staff_id) == opt_view(case.staff_id)
    &&& data.status@ == status_word(case.status)
    &&& data.agreed_wage == case.agreed_wage
    &&& data.agreed_years == case.agreed_years
    &&& opt_view(data.note_key) == opt_view(case.note_key)
    &&& data.note_params@ == case.note_params@
}

fn copy_text(s: &Option<String>) -> (r: Option<String>)
    ensures
        opt_view(r) == opt_view(*s),
{
    match s {
        Some(t) => Some(t.clone()),
        None => None,
    }
}

fn case_data(case: &DelegatedRenewalCase) -> (r: DelegatedRenewalCaseData)
    ensures
        case_data_lists(r, *case),
{
    let status = match case.status {
        DelegatedRenewalResultStatus::Successful => String::from_str("successful"),
        DelegatedRenewalResultStatus::Failed => String::from_str("failed"),
        DelegatedRenewalResultStatus::Stalled => String::from_str("stalled"),
    };
    DelegatedRenewalCaseData {
        player_id: case.player_id.clone(),
        player_name: case.player_name.clone(),
        staff_id: copy_text(&case.staff_id),
        status,
        agreed_wage: case.agreed_wage,
        agreed_years: case.agreed_years,
        note_key: copy_text(&case.note_key),
        note_params: case.note_params.duplicate(),
    }
}

/// The body of the report: counts of completed, pending and failed renewals.
pub open spec fn report_body(team_name: Seq<char>, successes: nat, stalled: nat, failures: nat) -> Seq<char> {
    "Boss, I went through our renewal list at "@ + team_name + ". "@ + decimal(successes) + " completed, "@
        + decimal(stalled) + " still pending, "@ + decimal(failures) + " failed."@
}

/// `message` is the assistant's inbox report of `report` for the club
/// `team_id` named `team_name`, dated by the text `date`, with the id suffix
/// `suffix`.
pub open spec fn is_report_message(
    message: InboxMessage,
    team_id: Seq<char>,
    team_name: Seq<char>,
    date: Seq<char>,
    report: DelegatedRenewalReport,
    suffix: nat,
) -> bool {
    &&& message.id@ == "delegated_renewals_"@ + date + "_"@ + decimal(suffix)
    &&& message.subject@ == "Assistant Report \u{2014} Contract Renewals"@
    &&& message.body@ == report_body(team_name, report.success_count as nat, report.stalled_count as nat, report.failure_count as nat)
    &&& message.sender@ == "Assistant Manager"@
    &&& message.date@ == date
    &&& message.category == MessageCategory::Contract
    &&& message.priority == MessagePriority::High
    &&& opt_view(message.sender_role) == Some("Assistant Manager"@)
    &&& opt_view(message.subject_key) == Some("be.msg.delegatedRenewals.subject"@)
    &&& opt_view(message.body_key) == Some("be.msg.delegatedRenewals.body"@)
    &&& message.i18n_params@ == Map::<Seq<char>, Seq<char>>::empty().insert("team"@, team_name)
        .insert("successes"@, decimal(report.success_count as nat))
        .insert("stalled"@, decimal(report.stalled_count as nat))
        .insert("failures"@, decimal(report.failure_count as nat))
    &&& opt_view(message.sender_key) == Some("be.sender.assistantManager"@)
    &&& opt_view(message.sender_role_key) == Some("be.role.assistantManager"@)
    &&& opt_view(message.context.team_id) == Some(team_id)
    &&& message.context.delegated_renewal_report matches Some(data) && {
        &&& data.success_count == report.success_count
        &&& data.failure_count == report.failure_count
        &&& data.stalled_count == report.stalled_count
        &&& data.cases@.len() == report.cases@.len()
        &&& forall|i: int| 0 <= i < report.cases@.len() ==> case_data_lists(#[trigger] data.cases@[i], report.cases@[i])
    }
}

/// The inbox message in which the assistant reports a round of delegated
/// renewals for the club `team_id`, dated `date`; `id_suffix` tells the
/// message apart from others of the same day.
pub fn delegated_renewal_report_message(
    team_id: &String,
    team_name: &String,
    date: &String,
    report: &DelegatedRenewalReport,
    id_suffix: usize,
) -> (r: InboxMessage)
    ensures
        is_report_message(r, team_id@, team_name@, date@, *report, id_suffix as nat),
{
    let mut id = String::from_str("delegated_renewals_");
    id.append(date.as_str());
    id.append("_");
    let suffix = decimal_text(id_suffix as u64);
    id.append(suffix.as_str());

    let successes = decimal_text(report.success_count as u64);
    let stalled = decimal_text(report.stalled_count as u64);
    let failures = decimal_text(report.failure_count as u64);

    let mut body = String::from_str("Boss, I went through our renewal list at ");
    body.append(team_name.as_str());
    body.append(". ");
    body.append(successes.as_str());
    body.append(" completed, ");
    body.append(stalled.as_str());
    body.append(" still pending, ");
    body.append(failures.as_str());
    body.append(" failed.");

    let mut params = NoteParams::new();
    params.insert(String::from_str("team"), team_name.clone());
    params.insert(String::from_str("successes"), successes);
    params.insert(String::from_str("stalled"), stalled);
    params.insert(String::from_str("failures"), failures);

    let mut cases: Vec<DelegatedRenewalCaseData> = Vec::new();
    let mut i: usize = 0;
    while i < report.cases.len()
        invariant
            i <= report.cases.len(),
            cases@.len() == i,
            forall|j: int| 0 <= j < i ==> case_data_lists(#[trigger] cases@[j], report.cases@[j]),
        decreases report.cases.len() - i,
    {
        cases.push(case_data(&report.cases[i]));
        i += 1;
    }

    InboxMessage {
        id,
        subject: String::from_str("Assistant Report \u{2014} Contract Renewals"),
        body,
        sender: String::from_str("Assistant Manager"),
        date: date.clone(),
        category: MessageCategory::Contract,
        priority: MessagePriority::High,
        sender_role: Some(String::from_str("Assistant Manager")),
        subject_key: Some(String::from_str("be.msg.delegatedRenewals.subject")),
        body_key: Some(String::from_str("be.msg.delegatedRenewals.body")),
        i18n_params: params,
        sender_key: Some(String::from_str("be.sender.assistantManager")),
        sender_role_key: Some(String::from_str("be.role.assistantManager")),
        context: MessageContext {
            team_id: Some(team_id.clone()),
            delegated_renewal_report: Some(DelegatedRenewalReportData {
                success_count: report.success_count,
                failure_count: report.failure_count,
                stalled_count: report.stalled_count,
                cases,
            }),
        },
    }
}

/// What the player contract rules say of a player at renewal time: the wage
/// and term they expect, whether the manager has blocked talks, and how
/// close the contract is to its end.
#[derive(Clone, Copy, Debug, PartialEq, Eq)]
pub struct PlayerRenewalFacts {
    pub expected_wage: u32,
    pub expected_years: u32,
    pub manager_blocked: bool,
    pub warning_stage: Option<ContractWarningStage>,
}

/// Whether `r` succeeded, and its error if not.
pub open spec fn unit_result<T>(r: Result<T, String>) -> Result<(), String> {
    match r {
        Ok(_) => Ok(()),
        Err(e) => Err(e),
    }
}

/// The decision once the board has answered `board` where it was asked.
pub open spec fn settled_decision(d: DelegatedDecision, board: bool) -> DelegatedDecision {
    if d == DelegatedDecision::ReadyToClose {
        if board { DelegatedDecision::Completed } else { DelegatedDecision::BoardRefused }
    } else {
        d
    }
}

/// The assistant's attempt to renew `before`, leaving `after` and reporting
/// `r`; `board` is the board's answer where the deal needed it.
pub open spec fn player_renewal_done(
    before: Player,
    after: Player,
    r: Result<DelegatedRenewalCase, String>,
    facts: PlayerRenewalFacts,
    assistant: Staff,
    options: DelegatedRenewalOptions,
    today: DateView,
    team: Team,
    board: bool,
) -> bool {
    let score = player_delegation_score(assistant, before, facts.warning_stage);
    let first = delegated_decision(facts.manager_blocked, facts.expected_wage as int, facts.expected_years as int, before.wage as int, options, score);
    let d = settled_decision(first, board);
    let aw = delegated_agreed_wage(facts.expected_wage as int, before.wage as int, options);
    let ay = delegated_agreed_years(facts.expected_years as int, options);
    &&& delegated_decision_applied(d, aw, ay, today, before.wage, before.contract_end, before.morale_core.renewal_state,
        after.wage, after.contract_end, after.morale_core.renewal_state, unit_result(r))
    &&& after.id == before.id && after.match_name == before.match_name && after.team_id == before.team_id
    &&& after.morale == before.morale && after.market_value == before.market_value
    &&& after.morale_core.manager_trust == before.morale_core.manager_trust
    &&& after.morale_core.unresolved_issue == before.morale_core.unresolved_issue
    &&& r matches Ok(c) ==> c@ == delegated_case_view(d, before.id@, before.match_name@, None,
        facts.expected_wage as int, facts.expected_years as int, aw, ay, team.wage_budget as int)
}

/// The assistant would close a deal with `player`, but the end date it would
/// set lies beyond the dates that `chrono` holds.
pub open spec fn player_end_out_of_range(
    player: Player,
    facts: PlayerRenewalFacts,
    assistant: Staff,
    options: DelegatedRenewalOptions,
    today: DateView,
) -> bool {
    &&& delegated_decision(facts.manager_blocked, facts.expected_wage as int, facts.expected_years as int,
        player.wage as int, options, player_delegation_score(assistant, player, facts.warning_stage))
        == DelegatedDecision::ReadyToClose
    &&& months_later(today, delegated_agreed_years(facts.expected_years as int, options) * 12) is None
}

/// The game as it stood when the board was asked about a renewal: `start`
/// with the players `players` and the staff `staff`.
pub open spec fn game_as_asked(asked: Game, start: Game, players: Seq<Player>, staff: Seq<Staff>) -> bool {
    &&& asked.manager_team_id == start.manager_team_id
    &&& asked.current_date == start.current_date
    &&& asked.teams == start.teams
    &&& asked.players@ == players
    &&& asked.staff@ == staff
    &&& asked.scouting_assignments == start.scouting_assignments
    &&& asked.messages == start.messages
}

/// The assistant's attempt on a player went as `player_renewal_done`
/// says, for an answer that `wage_policy_allows` gave, asked with the game
/// `asked`, the club, the current and the agreed wage, where the deal
/// needed the board.
pub open spec fn player_attempt_ok<F: Fn(&Game, &Team, u32, u32) -> bool>(
    asked: Game,
    before: Player,
    after: Player,
    r: Result<DelegatedRenewalCase, String>,
    facts: PlayerRenewalFacts,
    assistant: Staff,
    options: DelegatedRenewalOptions,
    today: DateView,
    team: Team,
    wage_policy_allows: F,
) -> bool {
    exists|board: bool| {
        &&& player_renewal_done(before, after, r, facts, assistant, options, today, team, board)
        &&& wage_policy_allows.ensures((&asked, &team, before.wage,
            delegated_agreed_wage(facts.expected_wage as int, before.wage as int, options) as u32), board)
            || delegated_decision(facts.manager_blocked, facts.expected_wage as int, facts.expected_years as int,
                before.wage as int, options, player_delegation_score(assistant, before, facts.warning_stage))
                != DelegatedDecision::ReadyToClose
    }
}

/// The assistant renews the player `game.players[index]` if it can.
/// `wage_policy_allows` is the board's wage policy, asked with the game as it
/// stands, the club, the current and the agreed wage.
pub fn delegate_player_renewal<F: Fn(&Game, &Team, u32, u32) -> bool>(
    game: &mut Game,
    index: usize,
    assistant_index: usize,
    team: &Team,
    options: &DelegatedRenewalOptions,
    facts: &PlayerRenewalFacts,
    wage_policy_allows: &F,
) -> (r: Result<DelegatedRenewalCase, String>)
    requires
        index < old(game).players.len(),
        assistant_index < old(game).staff.len(),
        forall|g: &Game, t: &Team, current: u32, agreed: u32| wage_policy_allows.requires((g, t, current, agreed)),
    ensures
        final(game).players@ == old(game).players@.update(index as int, final(game).players@[index as int]),
        final(game).manager_team_id == old(game).manager_team_id,
        final(game).current_date == old(game).current_date,
        final(game).teams == old(game).teams,
        final(game).staff == old(game).staff,
        final(game).scouting_assignments == old(game).scouting_assignments,
        final(game).messages == old(game).messages,
        player_attempt_ok(*old(game), old(game).players@[index as int], final(game).players@[index as int], r, *facts,
            old(game).staff@[assistant_index as int], *options, old(game).current_date@, *team, *wage_policy_allows),
        r matches Err(e) ==> e@ == "Unable to calculate delegated contract end date"@,
        r is Err ==> final(game).players@ == old(game).players@,
        r is Err ==> player_end_out_of_range(old(game).players@[index as int], *facts,
            old(game).staff@[assistant_index as int], *options, old(game).current_date@),
{
    let today = game.current_date;
    let player = &game.players[index];
    let score = assistant_delegation_score(&game.staff[assistant_index], player, facts.warning_stage);
    let current_wage = player.wage;
    let first = decide_delegated_renewal(
        facts.manager_blocked,
        facts.expected_wage,
        facts.expected_years,
        current_wage,
        options,
        score,
    );
    let (max_wage, max_years) = delegation_limits(current_wage, options);
    let agreed_wage = if facts.expected_wage <= max_wage { facts.expected_wage } else { max_wage };
    let agreed_years = if facts.expected_years <= max_years { facts.expected_years } else { max_years };
    let mut board = true;
    let ghost asked = *game;
    let decision = if first == DelegatedDecision::ReadyToClose {
        board = wage_policy_allows(&*game, team, current_wage, agreed_wage);
        if board { DelegatedDecision::Completed } else { DelegatedDecision::BoardRefused }
    } else {
        first
    };
    let player_id = game.players[index].id.clone();
    let player_name = game.players[index].match_name.clone();
    let ghost before = game.players@[index as int];
    let p = &mut game.players[index];
    let applied = apply_delegated_decision(
        &mut p.wage,
        &mut p.contract_end,
        &mut p.morale_core.renewal_state,
        decision,
        agreed_wage,
        agreed_years,
        &today,
    );
    let r = match applied {
        Err(e) => Err(e),
        Ok(()) => Ok(delegated_case(
            decision,
            player_id,
            player_name,
            None,
            facts.expected_wage,
            facts.expected_years,
            agreed_wage,
            agreed_years,
            team.wage_budget,
        )),
    };
    proof {
        assert(player_renewal_done(before, game.players@[index as int], r, *facts,
            game.staff@[assistant_index as int], *options, today@, *team, board));
        if first == DelegatedDecision::ReadyToClose {
            assert(wage_policy_allows.ensures((&asked, team, current_wage, agreed_wage), board));
        }
        assert(player_attempt_ok(asked, before, game.players@[index as int], r, *facts,
            game.staff@[assistant_index as int], *options, today@, *team, *wage_policy_allows));
    }
    r
}

/// What is known of a member of staff at renewal time beyond their record:
/// the wage they expect (a floating-point scaling of their wage) and how
/// close their contract is to its end.
#[derive(Clone, Copy, Debug, PartialEq, Eq)]
pub struct StaffRenewalFacts {
    pub expected_wage: u32,
    pub warning_stage: Option<ContractWarningStage>,
}

/// The name under which a member of staff appears in the report.
pub open spec fn display_name(member: Staff) -> Seq<char> {
    member.first_name@ + " "@ + member.last_name@
}

/// As `player_renewal_done`, for a member of staff, whose expected term and
/// manager's block follow from their own record.
pub open spec fn staff_renewal_done(
    before: Staff,
    after: Staff,
    r: Result<DelegatedRenewalCase, String>,
    facts: StaffRenewalFacts,
    assistant: Staff,
    options: DelegatedRenewalOptions,
    today: DateView,
    team: Team,
    board: bool,
) -> bool {
    let expected_years = contract_years_for_age(age_on(today, before.date_of_birth@));
    let blocked = manager_block_active(before.morale_core.renewal_state, today);
    let score = staff_delegation_score(assistant, before, facts.warning_stage);
    let first = delegated_decision(blocked, facts.expected_wage as int, expected_years, before.wage as int, options, score);
    let d = settled_decision(first, board);
    let aw = delegated_agreed_wage(facts.expected_wage as int, before.wage as int, options);
    let ay = delegated_agreed_years(expected_years, options);
    &&& delegated_decision_applied(d, aw, ay, today, before.wage, before.contract_end, before.morale_core.renewal_state,
        after.wage, after.contract_end, after.morale_core.renewal_state, unit_result(r))
    &&& same_member(after, before)
    &&& r matches Ok(c) ==> c@ == delegated_case_view(d, Seq::empty(), display_name(before), Some(before.id@),
        facts.expected_wage as int, expected_years, aw, ay, team.wage_budget as int)
}

/// The first decision about a member of staff, before the board is asked.
pub open spec fn staff_first_decision(
    member: Staff,
    facts: StaffRenewalFacts,
    assistant: Staff,
    options: DelegatedRenewalOptions,
    today: DateView,
) -> DelegatedDecision {
    delegated_decision(
        manager_block_active(member.morale_core.renewal_state, today),
        facts.expected_wage as int,
        contract_years_for_age(age_on(today, member.date_of_birth@)),
        member.wage as int,
        options,
        staff_delegation_score(assistant, member, facts.warning_stage),
    )
}

/// As `player_end_out_of_range`, for a member of staff.
pub open spec fn staff_end_out_of_range(
    member: Staff,
    facts: StaffRenewalFacts,
    assistant: Staff,
    options: DelegatedRenewalOptions,
    today: DateView,
) -> bool {
    &&& staff_first_decision(member, facts, assistant, options, today) == DelegatedDecision::ReadyToClose
    &&& months_later(today, delegated_agreed_years(contract_years_for_age(age_on(today, member.date_of_birth@)), options) * 12) is None
}

/// As `player_attempt_ok`, for a member of staff.
pub open spec fn staff_attempt_ok<F: Fn(&Game, &Team, u32, u32) -> bool>(
    asked: Game,
    before: Staff,
    after: Staff,
    r: Result<DelegatedRenewalCase, String>,
    facts: StaffRenewalFacts,
    assistant: Staff,
    options: DelegatedRenewalOptions,
    today: DateView,
    team: Team,
    wage_policy_allows: F,
) -> bool {
    exists|board: bool| {
        &&& staff_renewal_done(before, after, r, facts, assistant, options, today, team, board)
        &&& wage_policy_allows.ensures((&asked, &team, before.wage,
            delegated_agreed_wage(facts.expected_wage as int, before.wage as int, options) as u32), board)
            || staff_first_decision(before, facts, assistant, options, today) != DelegatedDecision::ReadyToClose
    }
}

/// The assistant renews the member of staff `game.staff[index]` if it can.
pub fn delegate_staff_renewal<F: Fn(&Game, &Team, u32, u32) -> bool>(
    game: &mut Game,
    index: usize,
    assistant_index: usize,
    team: &Team,
    options: &DelegatedRenewalOptions,
    facts: &StaffRenewalFacts,
    wage_policy_allows: &F,
) -> (r: Result<DelegatedRenewalCase, String>)
    requires
        index < old(game).staff.len(),
        assistant_index < old(game).staff.len(),
        index != assistant_index,
        forall|g: &Game, t: &Team, current: u32, agreed: u32| wage_policy_allows.requires((g, t, current, agreed)),
    ensures
        final(game).staff@ == old(game).staff@.update(index as int, final(game).staff@[index as int]),
        final(game).manager_team_id == old(game).manager_team_id,
        final(game).current_date == old(game).current_date,
        final(game).teams == old(game).teams,
        final(game).players == old(game).players,
        final(game).scouting_assignments == old(game).scouting_assignments,
        final(game).messages == old(game).messages,
        staff_attempt_ok(*old(game), old(game).staff@[index as int], final(game).staff@[index as int], r, *facts,
            old(game).staff@[assistant_index as int], *options, old(game).current_date@, *team, *wage_policy_allows),
        r matches Err(e) ==> e@ == "Unable to calculate delegated contract end date"@,
        r is Err ==> final(game).staff@ == old(game).staff@,
        r is Err ==> staff_end_out_of_range(old(game).staff@[index as int], *facts,
            old(game).staff@[assistant_index as int], *options, old(game).current_date@),
{
    let today = game.current_date;
    let member = &game.staff[index];
    let expected_years = expected_staff_contract_years(member, &today);
    let blocked = has_active_manager_block_staff(member, &today);
    let score = assistant_delegation_score_staff(&game.staff[assistant_index], member, facts.warning_stage);
    let current_wage = member.wage;
    let first = decide_delegated_renewal(blocked, facts.expected_wage, expected_years, current_wage, options, score);
    let (max_wage, max_years) = delegation_limits(current_wage, options);
    let agreed_wage = if facts.expected_wage <= max_wage { facts.expected_wage } else { max_wage };
    let agreed_years = if expected_years <= max_years { expected_years } else { max_years };
    let mut board = true;
    let ghost asked = *game;
    let decision = if first == DelegatedDecision::ReadyToClose {
        board = wage_policy_allows(&*game, team, current_wage, agreed_wage);
        if board { DelegatedDecision::Completed } else { DelegatedDecision::BoardRefused }
    } else {
        first
    };
    let staff_id = game.staff[index].id.clone();
    let mut name = game.staff[index].first_name.clone();
    name.append(" ");
    name.append(game.staff[index].last_name.as_str());
    let ghost before = game.staff@[index as int];
    let m = &mut game.staff[index];
    let applied = apply_delegated_decision(
        &mut m.wage,
        &mut m.contract_end,
        &mut m.morale_core.renewal_state,
        decision,
        agreed_wage,
        agreed_years,
        &today,
    );
    let r = match applied {
        Err(e) => Err(e),
        Ok(()) => Ok(delegated_case(
            decision,
            String::new(),
            name,
            Some(staff_id),
            facts.expected_wage,
            expected_years,
            agreed_wage,
            agreed_years,
            team.wage_budget,
        )),
    };
    proof {
        assert(game.staff@[assistant_index as int] == old(game).staff@[assistant_index as int]);
        assert(first == staff_first_decision(before, *facts, old(game).staff@[assistant_index as int], *options, today@));
        assert(same_member(game.staff@[index as int], before));
        assert(staff_renewal_done(before, game.staff@[index as int], r, *facts,
            game.staff@[assistant_index as int], *options, today@, *team, board));
        if first == DelegatedDecision::ReadyToClose {
            assert(agreed_wage == delegated_agreed_wage(facts.expected_wage as int, before.wage as int, *options) as u32);
            assert(wage_policy_allows.ensures((&asked, team, before.wage, agreed_wage), board));
        }
        assert(staff_attempt_ok(asked, before, game.staff@[index as int], r, *facts,
            old(game).staff@[assistant_index as int], *options, today@, *team, *wage_policy_allows));
    }
    r
}

/// The assistant's attempt on the player at `index` of `start.players` went
/// as `player_attempt_ok` says, reported as `case`, the player now being as
/// `players` has them; the board was asked, where the deal needed it, with
/// the game as it stood then: `start` with the players before `index` as
/// `players` has them and those from `index` on as they were.
pub open spec fn player_case_ok<F: Fn(&Game, &Team, u32, u32) -> bool>(
    start: Game,
    players: Seq<Player>,
    index: int,
    case: DelegatedRenewalCase,
    facts: PlayerRenewalFacts,
    assistant: Staff,
    options: DelegatedRenewalOptions,
    team: Team,
    wage_policy_allows: F,
) -> bool {
    exists|asked: Game| #[trigger] game_as_asked(asked, start, players.take(index) + start.players@.skip(index), start.staff@)
        && player_attempt_ok(asked, start.players@[index], players[index], Ok(case), facts, assistant, options,
            start.current_date@, team, wage_policy_allows)
}

/// As `player_case_ok`, for the member of staff at `index` of `start.staff`,
/// all players being as `players` has them when the board was asked.
pub open spec fn staff_case_ok<F: Fn(&Game, &Team, u32, u32) -> bool>(
    start: Game,
    players: Seq<Player>,
    staff: Seq<Staff>,
    index: int,
    case: DelegatedRenewalCase,
    facts: StaffRenewalFacts,
    assistant: Staff,
    options: DelegatedRenewalOptions,
    team: Team,
    wage_policy_allows: F,
) -> bool {
    exists|asked: Game| #[trigger] game_as_asked(asked, start, players, staff.take(index) + start.staff@.skip(index))
        && staff_attempt_ok(asked, start.staff@[index], staff[index], Ok(case), facts, assistant, options,
            start.current_date@, team, wage_policy_allows)
}

/// Some case reports the assistant's attempt on the player at `index` as
/// `player_case_ok` says.
pub open spec fn player_settled_at<F: Fn(&Game, &Team, u32, u32) -> bool>(
    start: Game,
    players: Seq<Player>,
    index: int,
    facts: PlayerRenewalFacts,
    assistant: Staff,
    options: DelegatedRenewalOptions,
    team: Team,
    wage_policy_allows: F,
) -> bool {
    exists|c: DelegatedRenewalCase| #[trigger] player_case_ok(
        start, players, index, c, facts, assistant, options, team, wage_policy_allows)
}

/// The attempts on the first `m` players approached, `pc[0]` to `pc[m - 1]`,
/// went as `player_case_ok` says.
pub open spec fn players_settled<F: Fn(&Game, &Team, u32, u32) -> bool>(
    start: Game,
    players: Seq<Player>,
    pc: Seq<int>,
    m: int,
    facts: Seq<PlayerRenewalFacts>,
    assistant: Staff,
    options: DelegatedRenewalOptions,
    team: Team,
    wage_policy_allows: F,
) -> bool {
    forall|k: int| 0 <= k < m ==> #[trigger] player_settled_at(
        start, players, pc[k], facts[pc[k]], assistant, options, team, wage_policy_allows)
}

/// As `player_settled_at`, for the member of staff at `index`.
pub open spec fn staff_settled_at<F: Fn(&Game, &Team, u32, u32) -> bool>(
    start: Game,
    players: Seq<Player>,
    staff: Seq<Staff>,
    index: int,
    facts: StaffRenewalFacts,
    assistant: Staff,
    options: DelegatedRenewalOptions,
    team: Team,
    wage_policy_allows: F,
) -> bool {
    exists|c: DelegatedRenewalCase| #[trigger] staff_case_ok(
        start, players, staff, index, c, facts, assistant, options, team, wage_policy_allows)
}

/// As `players_settled`, for the first `m` members of staff approached.
pub open spec fn staff_settled<F: Fn(&Game, &Team, u32, u32) -> bool>(
    start: Game,
    players: Seq<Player>,
    staff: Seq<Staff>,
    sc: Seq<int>,
    m: int,
    facts: Seq<StaffRenewalFacts>,
    assistant: Staff,
    options: DelegatedRenewalOptions,
    team: Team,
    wage_policy_allows: F,
) -> bool {
    forall|k: int| 0 <= k < m ==> #[trigger] staff_settled_at(
        start, players, staff, sc[k], facts[sc[k]], assistant, options, team, wage_policy_allows)
}

/// A round of delegated renewals for the club `start.teams[t]`, with the
/// assistant `start.staff[a]`, stopped at a deal whose end date lies beyond
/// the dates that `chrono` holds, leaving the players and the staff as
/// `players` and `staff`: the attempts before that deal went through as
/// usual, that person and everyone approached after are as they were.
pub open spec fn delegation_stopped<F: Fn(&Game, &Team, u32, u32) -> bool>(
    start: Game,
    players: Seq<Player>,
    staff: Seq<Staff>,
    t: int,
    a: int,
    player_facts: Seq<PlayerRenewalFacts>,
    staff_facts: Seq<StaffRenewalFacts>,
    options: DelegatedRenewalOptions,
    wage_policy_allows: F,
) -> bool {
    let team = start.teams@[t];
    let assistant = start.staff@[a];
    let today = start.current_date@;
    let pc = indices_where(start.players@.len() as int, player_candidate_pred(start.players@, team.id@, options, player_facts));
    let sc = indices_where(start.staff@.len() as int,
        staff_candidate_pred(start.staff@, team.id@, assistant.id@, options, staff_facts));
    ||| exists|m: int| {
        &&& 0 <= m < pc.len()
        &&& #[trigger] player_end_out_of_range(start.players@[pc[m]], player_facts[pc[m]], assistant, options, today)
        &&& players_settled(start, players, pc, m, player_facts, assistant, options, team, wage_policy_allows)
        &&& forall|k: int| m <= k < pc.len() ==> players[#[trigger] pc[k]] == start.players@[pc[k]]
        &&& staff == start.staff@
    }
    ||| exists|m: int| {
        &&& 0 <= m < sc.len()
        &&& #[trigger] staff_end_out_of_range(start.staff@[sc[m]], staff_facts[sc[m]], assistant, options, today)
        &&& players_settled(start, players, pc, pc.len() as int, player_facts, assistant, options, team, wage_policy_allows)
        &&& staff_settled(start, players, staff, sc, m, staff_facts, assistant, options, team, wage_policy_allows)
        &&& forall|k: int| m <= k < sc.len() ==> staff[#[trigger] sc[k]] == start.staff@[sc[k]]
    }
}

/// `id` is on the list `ids`.
pub open spec fn id_listed(ids: Seq<String>, id: Seq<char>) -> bool {
    exists|k: int| 0 <= k < ids.len() && ids[k]@ == id
}

fn contains_id(ids: &Vec<String>, id: &String) -> (r: bool)
    ensures
        r == id_listed(ids@, id@),
{
    let mut k: usize = 0;
    while k < ids.len()
        invariant
            k <= ids.len(),
            forall|j: int| 0 <= j < k ==> ids@[j]@ != id@,
        decreases ids.len() - k,
    {
        if ids[k] == *id {
            return true;
        }
        k += 1;
    }
    false
}

/// A player of the club `team_id` on a contract with an end date whom the
/// assistant approaches: one on the manager's list, or without a list one
/// whose contract is due for renewal.
pub open spec fn is_player_candidate(
    player: Player,
    team_id: Seq<char>,
    options: DelegatedRenewalOptions,
    facts: PlayerRenewalFacts,
) -> bool {
    &&& opt_view(player.team_id) == Some(team_id)
    &&& player.contract_end is Some
    &&& match options.player_ids {
        Some(ids) => id_listed(ids@, player.id@),
        None => facts.warning_stage is Some,
    }
}

/// A member of the club's staff other than the assistant, on a contract
/// with an end date, whom the assistant approaches: one on the manager's
/// staff list, or, when the manager gave no list at all, one whose contract
/// is due for renewal.
pub open spec fn is_staff_candidate(
    member: Staff,
    team_id: Seq<char>,
    assistant_id: Seq<char>,
    options: DelegatedRenewalOptions,
    facts: StaffRenewalFacts,
) -> bool {
    &&& opt_view(member.team_id) == Some(team_id)
    &&& member.contract_end is Some
    &&& member.id@ != assistant_id
    &&& match options.staff_ids {
        Some(ids) => id_listed(ids@, member.id@),
        None => options.player_ids is None && facts.warning_stage is Some,
    }
}

/// Which indices of `players` the assistant approaches.
pub open spec fn player_candidate_pred(
    players: Seq<Player>,
    team_id: Seq<char>,
    options: DelegatedRenewalOptions,
    facts: Seq<PlayerRenewalFacts>,
) -> spec_fn(int) -> bool {
    |i: int| is_player_candidate(players[i], team_id, options, facts[i])
}

/// Which indices of `staff` the assistant approaches.
pub open spec fn staff_candidate_pred(
    staff: Seq<Staff>,
    team_id: Seq<char>,
    assistant_id: Seq<char>,
    options: DelegatedRenewalOptions,
    facts: Seq<StaffRenewalFacts>,
) -> spec_fn(int) -> bool {
    |i: int| is_staff_candidate(staff[i], team_id, assistant_id, options, facts[i])
}

/// The indices `0..n` for which `pred` holds, in order.
pub open spec fn indices_where(n: int, pred: spec_fn(int) -> bool) -> Seq<int> {
    Seq::new(n as nat, |i: int| i).filter(pred)
}

proof fn lemma_indices_where_step(n: int, pred: spec_fn(int) -> bool)
    requires
        n >= 0,
    ensures
        indices_where(n + 1, pred) == if pred(n) { indices_where(n, pred).push(n) } else { indices_where(n, pred) },
{
    reveal(Seq::filter);
    assert(Seq::new((n + 1) as nat, |i: int| i).drop_last() =~= Seq::new(n as nat, |i: int| i));
}

pub(crate) proof fn lemma_indices_where_bounds(n: int, pred: spec_fn(int) -> bool)
    requires
        n >= 0,
    ensures
        indices_where(n, pred).len() <= n,
        forall|k: int| 0 <= k < indices_where(n, pred).len() ==> 0 <= #[trigger] indices_where(n, pred)[k] < n,
        forall|k: int, l: int| 0 <= k < l < indices_where(n, pred).len() ==> indices_where(n, pred)[k] < indices_where(n, pred)[l],
        forall|j: int| 0 <= j < n && #[trigger] pred(j) ==> exists|k: int| 0 <= k < indices_where(n, pred).len() && indices_where(n, pred)[k] == j,
        forall|k: int| 0 <= k < indices_where(n, pred).len() ==> pred(#[trigger] indices_where(n, pred)[k]),
    decreases n,
{
    if n > 0 {
        lemma_indices_where_bounds(n - 1, pred);
        lemma_indices_where_step(n - 1, pred);
        let prev = indices_where(n - 1, pred);
        assert forall|j: int| 0 <= j < n && #[trigger] pred(j) implies exists|k: int| 0 <= k < indices_where(n, pred).len() && indices_where(n, pred)[k] == j by {
            if j == n - 1 {
                assert(indices_where(n, pred)[prev.len() as int] == j);
            } else {
                let k = choose|k: int| 0 <= k < prev.len() && prev[k] == j;
                assert(indices_where(n, pred)[k] == j);
            }
        }
    } else {
        reveal(Seq::filter);
        assert(indices_where(0, pred) =~= Seq::<int>::empty());
    }
}

proof fn lemma_indices_where_prefix(i: int, n: int, pred: spec_fn(int) -> bool)
    requires
        0 <= i <= n,
    ensures
        indices_where(i, pred).len() <= indices_where(n, pred).len(),
        forall|k: int| 0 <= k < indices_where(i, pred).len()
            ==> #[trigger] indices_where(n, pred)[k] == indices_where(i, pred)[k],
        forall|k: int| indices_where(i, pred).len() <= k < indices_where(n, pred).len()
            ==> #[trigger] indices_where(n, pred)[k] >= i,
    decreases n - i,
{
    if i < n {
        lemma_indices_where_prefix(i, n - 1, pred);
        lemma_indices_where_step(n - 1, pred);
        lemma_indices_where_bounds(n - 1, pred);
    }
}

/// A member of staff of the club `team_id` who is its assistant manager.
pub open spec fn is_assistant_of(member: Staff, team_id: Seq<char>) -> bool {
    opt_view(member.team_id) == Some(team_id) && member.role == StaffRole::AssistantManager
}

/// The first assistant manager of the club `team_id` in `staff`.
pub open spec fn first_assistant(staff: Seq<Staff>, team_id: Seq<char>) -> Option<int> {
    if exists|i: int| 0 <= i < staff.len() && is_assistant_of(staff[i], team_id) {
        Some(choose|i: int| 0 <= i < staff.len() && is_assistant_of(staff[i], team_id)
            && forall|j: int| 0 <= j < i ==> !is_assistant_of(staff[j], team_id))
    } else {
        None
    }
}

fn find_assistant(staff: &Vec<Staff>, team_id: &String) -> (r: Option<usize>)
    ensures
        match r {
            Some(i) => i < staff.len() && first_assistant(staff@, team_id@) == Some(i as int),
            None => first_assistant(staff@, team_id@) is None,
        },
{
    let mut i: usize = 0;
    while i < staff.len()
        invariant
            i <= staff.len(),
            forall|j: int| 0 <= j < i ==> !is_assistant_of(staff@[j], team_id@),
        decreases staff.len() - i,
    {
        let on_team = match &staff[i].team_id {
            Some(t) => *t == *team_id,
            None => false,
        };
        if on_team && staff[i].role == StaffRole::AssistantManager {
            let ghost k = i as int;
            assert(is_assistant_of(staff@[k], team_id@));
            let ghost c = first_assistant(staff@, team_id@)->0;
            assert(c == k) by {
                if c < k {
                    assert(!is_assistant_of(staff@[c], team_id@));
                } else if c > k {
                    assert(!is_assistant_of(staff@[k], team_id@));
                }
            }
            return Some(i);
        }
        i += 1;
    }
    None
}

fn duplicate_team(team: &Team) -> (r: Team)
    ensures
        r == *team,
{
    Team {
        id: team.id.clone(),
        name: team.name.clone(),
        reputation: team.reputation,
        wage_budget: team.wage_budget,
        finance: team.finance,
    }
}

/// The club and its assistant manager that a round of delegated renewals
/// needs, or why there are none.
pub open spec fn delegation_setup(game: Game) -> Result<(int, int), Seq<char>> {
    match game.manager_team_id {
        None => Err("No team assigned"@),
        Some(team_id) => match first_team_with_id(game.teams@, team_id@) {
            None => Err("Manager team not found"@),
            Some(t) => match first_assistant(game.staff@, game.teams@[t].id@) {
                None => Err("No assistant manager assigned to your team"@),
                Some(a) => Ok((t, a)),
            },
        },
    }
}

/// The assistant manager renews contracts on the manager's behalf: first
/// the players, then the members of staff that the options select, each as
/// `delegate_player_renewal` and `delegate_staff_renewal` do, and reports
/// to the manager's inbox when there was anyone to approach.
/// `player_facts` and `staff_facts` hold, index for index, what the player
/// contract rules and the staff wage scale say of `game.players` and
/// `game.staff`; `wage_policy_allows` is the board's wage policy.
#[verifier::rlimit(60)]
pub fn delegate_renewals<F: Fn(&Game, &Team, u32, u32) -> bool>(
    game: &mut Game,
    options: DelegatedRenewalOptions,
    player_facts: &Vec<PlayerRenewalFacts>,
    staff_facts: &Vec<StaffRenewalFacts>,
    wage_policy_allows: F,
) -> (r: Result<DelegatedRenewalReport, String>)
    requires
        player_facts.len() == old(game).players.len(),
        staff_facts.len() == old(game).staff.len(),
        old(game).players.len() + old(game).staff.len() < usize::MAX,
        forall|g: &Game, t: &Team, current: u32, agreed: u32| wage_policy_allows.requires((g, t, current, agreed)),
    ensures
        final(game).manager_team_id == old(game).manager_team_id,
        final(game).current_date == old(game).current_date,
        final(game).teams == old(game).teams,
        final(game).scouting_assignments == old(game).scouting_assignments,
        match delegation_setup(*old(game)) {
            Err(e) => {
                &&& r matches Err(x) && x@ == e
                &&& final(game).players == old(game).players
                &&& final(game).staff == old(game).staff
                &&& final(game).messages == old(game).messages
            },
            Ok((t, a)) => {
                let team = old(game).teams@[t];
                let today = old(game).current_date@;
                let pp = player_candidate_pred(old(game).players@, team.id@, options, player_facts@);
                let sp = staff_candidate_pred(old(game).staff@, team.id@, old(game).staff@[a].id@, options, staff_facts@);
                let pc = indices_where(old(game).players@.len() as int, pp);
                let sc = indices_where(old(game).staff@.len() as int, sp);
                &&& final(game).players@.len() == old(game).players@.len()
                &&& final(game).staff@.len() == old(game).staff@.len()
                &&& forall|j: int| 0 <= j < old(game).players@.len() && !#[trigger] pp(j)
                    ==> final(game).players@[j] == old(game).players@[j]
                &&& forall|j: int| 0 <= j < old(game).staff@.len() && !#[trigger] sp(j)
                    ==> final(game).staff@[j] == old(game).staff@[j]
                &&& match r {
                    Err(e) => {
                        &&& e@ == "Unable to calculate delegated contract end date"@
                        &&& final(game).messages == old(game).messages
                        &&& delegation_stopped(*old(game), final(game).players@, final(game).staff@, t, a,
                            player_facts@, staff_facts@, options, wage_policy_allows)
                    },
                    Ok(report) => {
                        &&& report.counts_match()
                        &&& report.cases@.len() == pc.len() + sc.len()
                        &&& forall|k: int| 0 <= k < pc.len() ==> player_case_ok(
                            *old(game),
                            final(game).players@,
                            #[trigger] pc[k],
                            report.cases@[k],
                            player_facts@[pc[k]],
                            old(game).staff@[a],
                            options,
                            team,
                            wage_policy_allows,
                        )
                        &&& forall|k: int| 0 <= k < sc.len() ==> staff_case_ok(
                            *old(game),
                            final(game).players@,
                            final(game).staff@,
                            #[trigger] sc[k],
                            report.cases@[pc.len() + k],
                            staff_facts@[sc[k]],
                            old(game).staff@[a],
                            options,
                            team,
                            wage_policy_allows,
                        )
                        &&& if report.cases@.len() == 0 {
                            final(game).messages == old(game).messages
                        } else {
                            &&& final(game).messages@.len() == old(game).messages@.len() + 1
                            &&& final(game).messages@.drop_last() == old(game).messages@
                            &&& is_report_message(final(game).messages@.last(), team.id@, team.name@, ymd_text(today),
                                report, old(game).messages@.len())
                        }
                    },
                }
            },
        },
{
    let manager_team_id = match &game.manager_team_id {
        Some(id) => id,
        None => return Err(String::from_str("No team assigned")),
    };
    let team_index = match find_team(&game.teams, manager_team_id) {
        Some(t) => t,
        None => return Err(String::from_str("Manager team not found")),
    };
    let team = duplicate_team(&game.teams[team_index]);
    let assistant_index = match find_assistant(&game.staff, &team.id) {
        Some(a) => a,
        None => return Err(String::from_str("No assistant manager assigned to your team")),
    };
    let assistant_id = game.staff[assistant_index].id.clone();
    assert(delegation_setup(*old(game)) == Ok::<(int, int), Seq<char>>((team_index as int, assistant_index as int)));
    let today = game.current_date.format_ymd();
    let allow_auto_staff_candidates = options.staff_ids.is_none() && options.player_ids.is_none();

    let ghost g0 = *game;
    let ghost pp = player_candidate_pred(g0.players@, team.id@, options, player_facts@);
    let ghost sp = staff_candidate_pred(g0.staff@, team.id@, assistant_id@, options, staff_facts@);
    let mut report = DelegatedRenewalReport::new();

    let np = game.players.len();
    let mut i: usize = 0;
    while i < np
        invariant
            np == game.players.len(),
            np == g0.players@.len(),
            player_facts.len() == np,
            staff_facts.len() == g0.staff@.len(),
            i <= np,
            *old(game) == g0,
            delegation_setup(g0) == Ok::<(int, int), Seq<char>>((team_index as int, assistant_index as int)),
            np + g0.staff@.len() < usize::MAX,
            team == g0.teams@[team_index as int],
            team_index < g0.teams@.len(),
            assistant_index < g0.staff@.len(),
            assistant_id@ == g0.staff@[assistant_index as int].id@,
            pp == player_candidate_pred(g0.players@, team.id@, options, player_facts@),
            forall|g: &Game, t: &Team, current: u32, agreed: u32| wage_policy_allows.requires((g, t, current, agreed)),
            game.manager_team_id == g0.manager_team_id,
            game.current_date == g0.current_date,
            game.teams == g0.teams,
            game.staff == g0.staff,
            game.scouting_assignments == g0.scouting_assignments,
            game.messages == g0.messages,
            forall|j: int| i <= j < np ==> game.players@[j] == g0.players@[j],
            forall|j: int| 0 <= j < i && !#[trigger] pp(j) ==> game.players@[j] == g0.players@[j],
            report.counts_match(),
            report.cases@.len() == indices_where(i as int, pp).len(),
            forall|k: int| 0 <= k < indices_where(i as int, pp).len() ==> player_case_ok(
                g0,
                game.players@,
                #[trigger] indices_where(i as int, pp)[k],
                report.cases@[k],
                player_facts@[indices_where(i as int, pp)[k]],
                g0.staff@[assistant_index as int],
                options,
                team,
                wage_policy_allows,
            ),
        decreases np - i,
    {
        proof {
            lemma_indices_where_step(i as int, pp);
            lemma_indices_where_bounds(i as int, pp);
        }
        let selected = {
            let p = &game.players[i];
            let on_team = match &p.team_id {
                Some(t) => *t == team.id,
                None => false,
            };
            on_team && p.contract_end.is_some() && match &options.player_ids {
                Some(ids) => contains_id(ids, &p.id),
                None => player_facts[i].warning_stage.is_some(),
            }
        };
        assert(selected == pp(i as int));
        if selected {
            let ghost before = *game;
            let case = match delegate_player_renewal(
                game,
                i,
                assistant_index,
                &team,
                &options,
                &player_facts[i],
                &wage_policy_allows,
            ) {
                Ok(case) => case,
                Err(e) => {
                    proof {
                        let prev = indices_where(i as int, pp);
                        let full = indices_where(np as int, pp);
                        let m = prev.len() as int;
                        lemma_indices_where_prefix(i + 1, np as int, pp);
                        lemma_indices_where_prefix(i as int, np as int, pp);
                        lemma_indices_where_bounds(np as int, pp);
                        assert(indices_where(i + 1, pp) == prev.push(i as int));
                        assert(full[m] == i);
                        assert(game.players@ == before.players@);
                        assert(before.players@[i as int] == g0.players@[i as int]);
                        assert(player_end_out_of_range(g0.players@[full[m]], player_facts@[full[m]],
                            g0.staff@[assistant_index as int], options, g0.current_date@));
                        assert forall|k: int| 0 <= k < m implies #[trigger] player_settled_at(
                            g0, game.players@, full[k], player_facts@[full[k]], g0.staff@[assistant_index as int],
                            options, team, wage_policy_allows) by {
                            assert(full[k] == prev[k]);
                            assert(player_case_ok(g0, game.players@, prev[k], report.cases@[k], player_facts@[prev[k]],
                                g0.staff@[assistant_index as int], options, team, wage_policy_allows));
                        }
                        assert(players_settled(g0, game.players@, full, m, player_facts@,
                            g0.staff@[assistant_index as int], options, team, wage_policy_allows));
                        assert forall|k: int| m <= k < full.len() implies game.players@[#[trigger] full[k]]
                            == g0.players@[full[k]] by {
                            assert(full[k] >= i);
                        }
                        assert(0 <= m < full.len());
                        assert(game.staff == g0.staff);
                        assert(delegation_stopped(g0, game.players@, game.staff@, team_index as int,
                            assistant_index as int, player_facts@, staff_facts@, options, wage_policy_allows));
                    }
                    return Err(e);
                },
            };
            let ghost case_view = case;
            report.record(case);
            proof {
                let prev = indices_where(i as int, pp);
                let next = indices_where(i + 1, pp);
                assert(next == prev.push(i as int));
                assert forall|k: int| 0 <= k < next.len() implies player_case_ok(
                    g0,
                    game.players@,
                    #[trigger] next[k],
                    report.cases@[k],
                    player_facts@[next[k]],
                    g0.staff@[assistant_index as int],
                    options,
                    team,
                    wage_policy_allows,
                ) by {
                    if k < prev.len() {
                        let j = prev[k];
                        assert(next[k] == j);
                        assert(j < i);
                        assert(game.players@.take(j) =~= before.players@.take(j));
                        assert(game.players@[j] == before.players@[j]);
                        assert(player_case_ok(g0, before.players@, j, report.cases@[k], player_facts@[j],
                            g0.staff@[assistant_index as int], options, team, wage_policy_allows));
                    } else {
                        assert(next[k] == i);
                        assert(report.cases@[k] == case_view);
                        assert(before.players@ =~= game.players@.take(i as int) + g0.players@.skip(i as int));
                        assert(game_as_asked(before, g0, game.players@.take(i as int) + g0.players@.skip(i as int), g0.staff@));
                    }
                }
            }
        }
        i += 1;
    }
    proof {
        lemma_indices_where_bounds(np as int, pp);
    }

    let ghost g1 = *game;
    let ghost pc = indices_where(np as int, pp);
    let ghost cases1 = report.cases@;
    assert(report.cases@.subrange(0, pc.len() as int) =~= cases1);
    let ns = game.staff.len();
    let mut i: usize = 0;
    while i < ns
        invariant
            ns == game.staff.len(),
            ns == g0.staff@.len(),
            staff_facts.len() == ns,
            i <= ns,
            *old(game) == g0,
            delegation_setup(g0) == Ok::<(int, int), Seq<char>>((team_index as int, assistant_index as int)),
            g0.players@.len() + ns < usize::MAX,
            allow_auto_staff_candidates == (options.staff_ids is None && options.player_ids is None),
            team == g0.teams@[team_index as int],
            assistant_index < ns,
            assistant_id@ == g0.staff@[assistant_index as int].id@,
            sp == staff_candidate_pred(g0.staff@, team.id@, assistant_id@, options, staff_facts@),
            pc == indices_where(g0.players@.len() as int, pp),
            forall|g: &Game, t: &Team, current: u32, agreed: u32| wage_policy_allows.requires((g, t, current, agreed)),
            game.manager_team_id == g0.manager_team_id,
            game.current_date == g0.current_date,
            game.teams == g0.teams,
            game.players == g1.players,
            g1.players@.len() == g0.players@.len(),
            pp == player_candidate_pred(g0.players@, team.id@, options, player_facts@),
            forall|j: int| 0 <= j < g0.players@.len() && !#[trigger] pp(j) ==> g1.players@[j] == g0.players@[j],
            game.scouting_assignments == g0.scouting_assignments,
            game.messages == g0.messages,
            forall|j: int| i <= j < ns ==> game.staff@[j] == g0.staff@[j],
            forall|j: int| 0 <= j < i && !#[trigger] sp(j) ==> game.staff@[j] == g0.staff@[j],
            report.counts_match(),
            report.cases@.len() == pc.len() + indices_where(i as int, sp).len(),
            pc.len() <= g0.players@.len(),
            report.cases@.subrange(0, pc.len() as int) == cases1,
            forall|k: int| 0 <= k < pc.len() ==> player_case_ok(
                g0,
                g1.players@,
                #[trigger] pc[k],
                cases1[k],
                player_facts@[pc[k]],
                g0.staff@[assistant_index as int],
                options,
                team,
                wage_policy_allows,
            ),
            forall|k: int| 0 <= k < indices_where(i as int, sp).len() ==> staff_case_ok(
                g0,
                g1.players@,
                game.staff@,
                #[trigger] indices_where(i as int, sp)[k],
                report.cases@[pc.len() + k],
                staff_facts@[indices_where(i as int, sp)[k]],
                g0.staff@[assistant_index as int],
                options,
                team,
                wage_policy_allows,
            ),
        decreases ns - i,
    {
        proof {
            lemma_indices_where_step(i as int, sp);
            lemma_indices_where_bounds(i as int, sp);
        }
        let selected = {
            let m = &game.staff[i];
            let on_team = match &m.team_id {
                Some(t) => *t == team.id,
                None => false,
            };
            on_team && m.contract_end.is_some() && !(m.id == assistant_id) && match &options.staff_ids {
                Some(ids) => contains_id(ids, &m.id),
                None => allow_auto_staff_candidates && staff_facts[i].warning_stage.is_some(),
            }
        };
        assert(selected == sp(i as int));
        if selected {
            assert(!sp(assistant_index as int));
            assert(game.staff@[assistant_index as int] == g0.staff@[assistant_index as int]);
            assert(game.staff@[i as int] == g0.staff@[i as int]);
            let ghost before = *game;
            let case = match delegate_staff_renewal(
                game,
                i,
                assistant_index,
                &team,
                &options,
                &staff_facts[i],
                &wage_policy_allows,
            ) {
                Ok(case) => case,
                Err(e) => {
                    proof {
                        let prev = indices_where(i as int, sp);
                        let full = indices_where(ns as int, sp);
                        let m = prev.len() as int;
                        lemma_indices_where_prefix(i + 1, ns as int, sp);
                        lemma_indices_where_prefix(i as int, ns as int, sp);
                        lemma_indices_where_bounds(ns as int, sp);
                        assert(indices_where(i + 1, sp) == prev.push(i as int));
                        assert(full[m] == i);
                        assert(game.staff@ == before.staff@);
                        assert(staff_end_out_of_range(g0.staff@[full[m]], staff_facts@[full[m]],
                            g0.staff@[assistant_index as int], options, g0.current_date@));
                        assert forall|k: int| 0 <= k < pc.len() implies #[trigger] player_settled_at(
                            g0, g1.players@, pc[k], player_facts@[pc[k]], g0.staff@[assistant_index as int],
                            options, team, wage_policy_allows) by {
                            assert(player_case_ok(g0, g1.players@, pc[k], cases1[k], player_facts@[pc[k]],
                                g0.staff@[assistant_index as int], options, team, wage_policy_allows));
                        }
                        assert(players_settled(g0, g1.players@, pc, pc.len() as int, player_facts@,
                            g0.staff@[assistant_index as int], options, team, wage_policy_allows));
                        assert forall|k: int| 0 <= k < m implies #[trigger] staff_settled_at(
                            g0, g1.players@, game.staff@, full[k], staff_facts@[full[k]],
                            g0.staff@[assistant_index as int], options, team, wage_policy_allows) by {
                            assert(full[k] == prev[k]);
                            assert(staff_case_ok(g0, g1.players@, game.staff@, prev[k], report.cases@[pc.len() + k],
                                staff_facts@[prev[k]], g0.staff@[assistant_index as int], options, team,
                                wage_policy_allows));
                        }
                        assert(staff_settled(g0, g1.players@, game.staff@, full, m, staff_facts@,
                            g0.staff@[assistant_index as int], options, team, wage_policy_allows));
                        assert forall|k: int| m <= k < full.len() implies game.staff@[#[trigger] full[k]]
                            == g0.staff@[full[k]] by {
                            assert(full[k] >= i);
                        }
                        assert(0 <= m < full.len());
                        assert(delegation_stopped(g0, game.players@, game.staff@, team_index as int,
                            assistant_index as int, player_facts@, staff_facts@, options, wage_policy_allows));
                    }
                    return Err(e);
                },
            };
            let ghost case_view = case;
            let ghost cases_before = report.cases@;
            report.record(case);
            assert(report.cases@.subrange(0, pc.len() as int) =~= cases_before.subrange(0, pc.len() as int));
            proof {
                let prev = indices_where(i as int, sp);
                let next = indices_where(i + 1, sp);
                assert(next == prev.push(i as int));
                assert forall|k: int| 0 <= k < next.len() implies staff_case_ok(
                    g0,
                    g1.players@,
                    game.staff@,
                    #[trigger] next[k],
                    report.cases@[pc.len() + k],
                    staff_facts@[next[k]],
                    g0.staff@[assistant_index as int],
                    options,
                    team,
                    wage_policy_allows,
                ) by {
                    if k < prev.len() {
                        let j = prev[k];
                        assert(next[k] == j);
                        assert(j < i);
                        assert(game.staff@.take(j) =~= before.staff@.take(j));
                        assert(game.staff@[j] == before.staff@[j]);
                        assert(report.cases@[pc.len() + k] == cases_before[pc.len() + k]);
                        assert(staff_case_ok(g0, g1.players@, before.staff@, j, cases_before[pc.len() + k],
                            staff_facts@[j], g0.staff@[assistant_index as int], options, team, wage_policy_allows));
                    } else {
                        assert(next[k] == i);
                        assert(report.cases@[pc.len() + k] == case_view);
                        assert(before.staff@ =~= game.staff@.take(i as int) + g0.staff@.skip(i as int));
                        assert(game_as_asked(before, g0, g1.players@, game.staff@.take(i as int) + g0.staff@.skip(i as int)));
                    }
                }
            }
        }
        i += 1;
    }

    if report.cases.len() > 0 {
        let suffix = game.messages.len();
        let message = delegated_renewal_report_message(&team.id, &team.name, &today, &report, suffix);
        game.messages.push(message);
    }
    Ok(report)
}

} // verus!
