//! Properties that hold across the library's operations.

use vstd::prelude::*;
use crate::contracts::{opt_view, rounded_up_to_thousand, RenewalDecision, RenewalOffer, RenewalOutcome};
use crate::dates::{DateView, months_later, parsed_ymd, ymd_text};
use crate::delegated_renewals::{
    delegated_agreed_wage, delegated_agreed_years, delegation_max_wage, delegation_max_years,
    indices_where, is_staff_candidate, lemma_indices_where_bounds, staff_candidate_pred,
    player_renewal_done, staff_renewal_done, DelegatedRenewalCase, DelegatedRenewalOptions,
    DelegatedRenewalResultStatus, PlayerRenewalFacts, StaffRenewalFacts,
};
use crate::staff::{Player, StaffAttributes, Team};
use crate::staff::{ContractRenewalState, RenewalSessionStatus, Staff};
use crate::game::ScoutingAssignment;
use crate::staff_contracts::{
    after_cooling, evaluated_outcome, manager_block_active, manual_renewal_done, member_accepts, next_round,
    RenewalFinancialProjection,
    session_goes_cold, talks_patience, talks_tension, StaffWageDemand, WagePolicyVerdict,
    relationship_refuses, contract_years_for_age, age_on,
};
use crate::staff_ops::{
    as_free_agent, hire_terms_set, initial_wage_base, initial_wage_from_scaled, not_on_trip_of, remaining_contract_days,
    saturating_u32, severance,
};

verus! {

/// Rounding up to a thousand never lowers a value and lands on the next
/// multiple of 1000, or on `u32::MAX` where that multiple does not fit.
pub proof fn law_round_up_to_thousand(value: int)
    requires
        0 <= value <= u32::MAX,
    ensures
        value <= rounded_up_to_thousand(value) <= u32::MAX,
        rounded_up_to_thousand(value) == u32::MAX || (rounded_up_to_thousand(value) % 1000 == 0
            && rounded_up_to_thousand(value) < value + 1000),
{
}

/// A new hire is never offered less than 6000 a year.
pub proof fn law_initial_wage_floor(scaled: int)
    requires
        0 <= scaled <= u32::MAX,
    ensures
        initial_wage_from_scaled(scaled) >= 6_000,
{
}

/// Severance is proportional to the contract left: up to 26 whole weeks
/// (182 days), it is the weekly wage times the days left, divided by 7.
pub proof fn law_severance_proportional(remaining_days: int, wage: int)
    requires
        0 < remaining_days <= 182,
        wage > 0,
    ensures
        severance(remaining_days, wage) == remaining_days * (if wage / 52 >= 1 { wage / 52 } else { 1 }) / 7,
{
    let weekly = if wage / 52 >= 1 { wage / 52 } else { 1 };
    if remaining_days / 7 < 26 {
        law_severance_proportional_any(remaining_days, weekly);
    } else {
        assert(remaining_days == 182);
        assert(182 * weekly / 7 == 26 * weekly) by (nonlinear_arith);
    }
}

/// Severance is capped at half a season: never more than 26 weeks of pay,
/// and nothing when no contract is left or there is no wage.
pub proof fn law_severance_capped(remaining_days: int, wage: int)
    requires
        wage >= 0,
    ensures
        0 <= severance(remaining_days, wage),
        severance(remaining_days, wage) <= 26 * (if wage / 52 >= 1 { wage / 52 } else { 1 }),
        remaining_days <= 0 || wage == 0 ==> severance(remaining_days, wage) == 0,
{
    if remaining_days > 0 && wage != 0 && remaining_days / 7 < 26 {
        let weekly = if wage / 52 >= 1 { wage / 52 } else { 1 };
        let weeks = remaining_days / 7;
        let tail = remaining_days % 7;
        assert(weeks * weekly <= 25 * weekly) by (nonlinear_arith)
            requires
                0 <= weeks <= 25,
                weekly >= 1,
        ;
        assert(0 <= tail * weekly / 7 <= weekly) by (nonlinear_arith)
            requires
                0 <= tail <= 6,
                weekly >= 1,
        ;
        assert(0 <= weeks * weekly) by (nonlinear_arith)
            requires
                0 <= weeks,
                weekly >= 1,
        ;
    }
}

/// More days left on a contract never pay less severance.
pub proof fn law_severance_monotone(fewer_days: int, more_days: int, wage: int)
    requires
        fewer_days <= more_days,
        wage >= 0,
    ensures
        severance(fewer_days, wage) <= severance(more_days, wage),
{
    law_severance_capped(fewer_days, wage);
    law_severance_capped(more_days, wage);
    if fewer_days > 0 && wage != 0 && more_days / 7 < 26 {
        let weekly = if wage / 52 >= 1 { wage / 52 } else { 1 };
        let (a, b) = (fewer_days, more_days);
        assert(a * weekly / 7 <= b * weekly / 7) by (nonlinear_arith)
            requires
                0 < a <= b,
                weekly >= 1,
        ;
        law_severance_proportional_any(a, weekly);
        law_severance_proportional_any(b, weekly);
    }
}

/// Below the cap, the weeks-and-sevenths sum is the days times the weekly
/// wage, divided by 7.
proof fn law_severance_proportional_any(days: int, weekly: int)
    requires
        days > 0,
        weekly >= 1,
    ensures
        (days / 7) * weekly + (days % 7) * weekly / 7 == days * weekly / 7,
{
    let weeks = days / 7;
    let tail = days % 7;
    assert(days * weekly == 7 * (weeks * weekly) + tail * weekly) by (nonlinear_arith)
        requires
            days == 7 * weeks + tail,
    ;
    assert((7 * (weeks * weekly) + tail * weekly) / 7 == weeks * weekly + tail * weekly / 7) by (nonlinear_arith)
        requires
            tail >= 0,
            weekly >= 1,
    ;
}

/// A member released as a free agent is owed no severance, is under no
/// block and would start any renewal talks from the first round.
pub proof fn law_free_agent_owes_nothing(staff: Staff, today: DateView, when: Option<Seq<char>>)
    ensures
        severance(remaining_contract_days(opt_view(as_free_agent(staff).contract_end), today), as_free_agent(staff).wage as int) == 0,
        !manager_block_active(as_free_agent(staff).morale_core.renewal_state, today),
        next_round(as_free_agent(staff).morale_core.renewal_state, when) == 1,
{
}

/// Setting the terms of a hire twice changes nothing the second time.
pub proof fn law_hire_terms_settle(a: Staff, b: Staff, c: Staff, today: DateView, offered_wage: u32)
    requires
        hire_terms_set(a, b, today, offered_wage),
        hire_terms_set(b, c, today, offered_wage),
    ensures
        c.wage == b.wage,
        opt_view(c.contract_end) == opt_view(b.contract_end),
        c.morale == b.morale,
        c.morale_core == b.morale_core,
        c.team_id == b.team_id,
{
}

/// Talks that have gone cold start over at round 1, whatever day it is.
pub proof fn law_cold_talks_restart(staff: Staff, today: DateView, when: Option<Seq<char>>)
    requires
        session_goes_cold(staff, today),
    ensures
        next_round(after_cooling(staff, today).morale_core.renewal_state, when) == 1,
{
}

/// Starting cold talks over is done once: doing it again changes nothing.
pub proof fn law_cooling_settles(staff: Staff, today: DateView)
    ensures
        after_cooling(after_cooling(staff, today), today) == after_cooling(staff, today),
        !session_goes_cold(after_cooling(staff, today), today),
{
}

/// Another attempt on the same day as the last one opens the next round.
pub proof fn law_same_day_round_advances(state: ContractRenewalState, today: Seq<char>)
    requires
        opt_view(state.last_attempt_date) == Some(today),
        state.conversation_round < 255,
    ensures
        next_round(Some(state), Some(today)) == state.conversation_round + 1,
{
}

/// A manager's block lasts to the day it names and is over after it.
pub proof fn law_block_expires(state: ContractRenewalState, today: DateView, until: DateView)
    requires
        state.status == RenewalSessionStatus::Blocked,
        state.manager_blocked_until matches Some(text) && parsed_ymd(text@) == Some(until),
    ensures
        manager_block_active(Some(state), today) <==> until.day_number >= today.day_number,
{
}

/// While the manager's block lasts, a proposal changes nothing and is
/// refused, finally.
pub proof fn law_blocked_proposal_changes_nothing(
    before: Staff,
    after: Staff,
    today: DateView,
    offer: RenewalOffer,
    demand: StaffWageDemand,
    board: WagePolicyVerdict,
    r: Result<RenewalOutcome, String>,
)
    requires
        manager_block_active(before.morale_core.renewal_state, today),
        manual_renewal_done(before, after, today, offer, demand, board, r),
    ensures
        after == before,
        r matches Ok(o) && o.decision == RenewalDecision::Rejected
            && o.session_status == RenewalSessionStatus::Blocked && o.is_terminal,
{
    assert(!session_goes_cold(before, today));
}

/// A proposal that is not accepted leaves the wage and the contract's end
/// as they were.
pub proof fn law_unaccepted_proposal_keeps_contract(
    before: Staff,
    after: Staff,
    today: DateView,
    offer: RenewalOffer,
    demand: StaffWageDemand,
    board: WagePolicyVerdict,
    r: Result<RenewalOutcome, String>,
)
    requires
        manual_renewal_done(before, after, today, offer, demand, board, r),
        !(r matches Ok(o) && o.decision == RenewalDecision::Accepted),
    ensures
        after.wage == before.wage,
        after.contract_end == before.contract_end,
{
}

/// An accepted proposal sets the offered wage and ends the contract the
/// offered number of years from today.
pub proof fn law_accepted_proposal_sets_terms(
    before: Staff,
    after: Staff,
    today: DateView,
    offer: RenewalOffer,
    demand: StaffWageDemand,
    board: WagePolicyVerdict,
    r: Result<RenewalOutcome, String>,
)
    requires
        manual_renewal_done(before, after, today, offer, demand, board, r),
        r matches Ok(o) && o.decision == RenewalDecision::Accepted,
    ensures
        board.allows,
        after.wage == offer.weekly_wage,
        offer.weekly_wage >= demand.expected_wage,
        offer.contract_years >= contract_years_for_age(age_on(today, before.date_of_birth@)),
        months_later(today, offer.contract_years * 12) matches Some(end)
            && opt_view(after.contract_end) == Some(ymd_text(end)),
        after.morale_core.renewal_state matches Some(st) && st.status == RenewalSessionStatus::Agreed,
{
}

/// A distrustful member (trust 20 or less) refuses an offer below the
/// expected wage plus 2000, however fair, unless talks are blocked or were
/// agreed today.
pub proof fn law_distrust_refuses_fair_offer(
    before: Staff,
    after: Staff,
    today: DateView,
    offer: RenewalOffer,
    demand: StaffWageDemand,
    board: WagePolicyVerdict,
    r: Result<RenewalOutcome, String>,
)
    requires
        manual_renewal_done(before, after, today, offer, demand, board, r),
        before.morale_core.manager_trust <= 20,
        offer.weekly_wage < demand.expected_wage + 2000,
        demand.expected_wage + 2000 <= u32::MAX,
    ensures
        r matches Ok(o) && o.decision == RenewalDecision::Rejected,
{
    assert(relationship_refuses(before.morale_core.manager_trust as int, demand.expected_wage as int, offer.weekly_wage as int));
}

/// An offer that meets the expected wage and term is accepted.
pub proof fn law_fair_offer_accepted(staff: Staff, today: DateView, offer: RenewalOffer, demand: StaffWageDemand)
    requires
        demand.is_consistent(),
        offer.weekly_wage >= demand.expected_wage,
        offer.contract_years >= contract_years_for_age(age_on(today, staff.date_of_birth@)),
    ensures
        evaluated_outcome(staff, today, offer, demand).decision == RenewalDecision::Accepted,
{
}

/// Raising the wage or the term of an accepted offer keeps it accepted.
pub proof fn law_acceptance_monotone(
    staff: Staff,
    today: DateView,
    offer: RenewalOffer,
    better: RenewalOffer,
    demand: StaffWageDemand,
)
    requires
        evaluated_outcome(staff, today, offer, demand).decision == RenewalDecision::Accepted,
        better.weekly_wage >= offer.weekly_wage,
        better.contract_years >= offer.contract_years,
    ensures
        evaluated_outcome(staff, today, better, demand).decision == RenewalDecision::Accepted,
{
}

/// A counter-offer names terms that are accepted when offered back.
pub proof fn law_counter_offer_accepted_back(staff: Staff, today: DateView, offer: RenewalOffer, demand: StaffWageDemand)
    requires
        evaluated_outcome(staff, today, offer, demand).decision == RenewalDecision::CounterOffer,
        demand.is_consistent(),
    ensures
        evaluated_outcome(staff, today, offer, demand).suggested_wage == Some(demand.expected_wage),
        evaluated_outcome(
            staff,
            today,
            RenewalOffer {
                weekly_wage: demand.expected_wage,
                contract_years: contract_years_for_age(age_on(today, staff.date_of_birth@)) as u32,
            },
            demand,
        ).decision == RenewalDecision::Accepted,
{
}

/// Lower morale, lower trust or a shorter contract never ease the tension
/// of talks.
pub proof fn law_pressure_raises_tension(a: Staff, b: Staff, today: DateView)
    requires
        b.morale <= a.morale,
        b.morale_core.manager_trust <= a.morale_core.manager_trust,
        remaining_contract_days(opt_view(b.contract_end), today) <= remaining_contract_days(opt_view(a.contract_end), today),
        b.attributes == a.attributes,
    ensures
        talks_tension(b, today) >= talks_tension(a, today),
{
}

/// Patience only wears thinner as rounds go by, and higher tension never
/// adds to it.
pub proof fn law_patience_wears_thin(round: int, later: int, tension: int, higher: int)
    requires
        0 <= round <= later,
        0 <= tension <= higher,
    ensures
        talks_patience(later, tension) <= talks_patience(round, tension),
        talks_patience(round, higher) <= talks_patience(round, tension),
{
}

/// The assistant never agrees to more than it is asked for nor more than
/// the manager's limits.
pub proof fn law_delegated_terms_within_limits(
    expected_wage: int,
    expected_years: int,
    current_wage: int,
    options: DelegatedRenewalOptions,
)
    ensures
        delegated_agreed_wage(expected_wage, current_wage, options) <= expected_wage,
        delegated_agreed_wage(expected_wage, current_wage, options)
            <= delegation_max_wage(current_wage, options.max_wage_increase_pct as int),
        delegated_agreed_years(expected_years, options) <= expected_years,
        delegated_agreed_years(expected_years, options) <= delegation_max_years(options.max_contract_years as int),
{
}

/// A renewal the assistant completes for a player pays no more than the
/// player asks nor more than the manager's limit, and runs for no more years
/// from today than the player asks nor than the manager allows.
pub proof fn law_delegated_player_renewal_within_limits(
    before: Player,
    after: Player,
    r: Result<DelegatedRenewalCase, String>,
    facts: PlayerRenewalFacts,
    assistant: Staff,
    options: DelegatedRenewalOptions,
    today: DateView,
    team: Team,
    board: bool,
)
    requires
        player_renewal_done(before, after, r, facts, assistant, options, today, team, board),
        r matches Ok(c) && c.status == DelegatedRenewalResultStatus::Successful,
    ensures
        after.wage <= facts.expected_wage,
        after.wage <= delegation_max_wage(before.wage as int, options.max_wage_increase_pct as int),
        exists|years: int| 0 <= years <= delegation_max_years(options.max_contract_years as int)
            && years <= facts.expected_years
            && (#[trigger] months_later(today, years * 12) matches Some(end)
            && opt_view(after.contract_end) == Some(ymd_text(end))),
{
    let ay = delegated_agreed_years(facts.expected_years as int, options);
    assert(months_later(today, ay * 12) is Some);
}

/// As for a player, a renewal the assistant completes for a member of staff
/// stays within what they ask and the manager's limits.
pub proof fn law_delegated_staff_renewal_within_limits(
    before: Staff,
    after: Staff,
    r: Result<DelegatedRenewalCase, String>,
    facts: StaffRenewalFacts,
    assistant: Staff,
    options: DelegatedRenewalOptions,
    today: DateView,
    team: Team,
    board: bool,
)
    requires
        staff_renewal_done(before, after, r, facts, assistant, options, today, team, board),
        r matches Ok(c) && c.status == DelegatedRenewalResultStatus::Successful,
    ensures
        after.wage <= facts.expected_wage,
        after.wage <= delegation_max_wage(before.wage as int, options.max_wage_increase_pct as int),
        exists|years: int| 1 <= years <= delegation_max_years(options.max_contract_years as int)
            && (#[trigger] months_later(today, years * 12) matches Some(end)
            && opt_view(after.contract_end) == Some(ymd_text(end))),
{
    let ay = delegated_agreed_years(contract_years_for_age(age_on(today, before.date_of_birth@)), options);
    assert(months_later(today, ay * 12) is Some);
}

/// The assistant does not reopen talks that the manager has blocked: the
/// member's contract and conversation stay as they were and the case fails.
pub proof fn law_delegation_respects_block(
    before: Staff,
    after: Staff,
    r: Result<DelegatedRenewalCase, String>,
    facts: StaffRenewalFacts,
    assistant: Staff,
    options: DelegatedRenewalOptions,
    today: DateView,
    team: Team,
    board: bool,
)
    requires
        staff_renewal_done(before, after, r, facts, assistant, options, today, team, board),
        manager_block_active(before.morale_core.renewal_state, today),
    ensures
        after == before,
        r matches Ok(c) && c.status == DelegatedRenewalResultStatus::Failed,
{
}

/// A financial projection that reports the board refusing a wage predicts
/// the answer to a proposal at that wage, the board answering the same: an
/// offer the member would accept is refused with the board's message, and no
/// proposal then accepts or changes the wage or the contract's end.
pub proof fn law_projection_predicts_veto<R>(
    p: RenewalFinancialProjection<R>,
    before: Staff,
    after: Staff,
    today: DateView,
    offer: RenewalOffer,
    demand: StaffWageDemand,
    board: WagePolicyVerdict,
    r: Result<RenewalOutcome, String>,
)
    requires
        p.policy_allows == board.allows,
        !p.policy_allows,
        manual_renewal_done(before, after, today, offer, demand, board, r),
    ensures
        after.wage == before.wage,
        after.contract_end == before.contract_end,
        !(r matches Ok(o) && o.decision == RenewalDecision::Accepted),
        member_accepts(before, today, offer, demand) ==> (r matches Err(e) && e@ == board.refusal@),
{
}

/// `s` filtered by `p`, then by `q`, is `s` filtered by both at once.
proof fn lemma_filter_twice<A>(s: Seq<A>, p: spec_fn(A) -> bool, q: spec_fn(A) -> bool)
    ensures
        s.filter(p).filter(q) =~= s.filter(|a: A| p(a) && q(a)),
    decreases s.len(),
{
    reveal(Seq::filter);
    if s.len() > 0 {
        lemma_filter_twice(s.drop_last(), p, q);
        let sub = s.drop_last().filter(p);
        if p(s.last()) {
            assert(sub.push(s.last()).drop_last() =~= sub);
        }
    }
}

/// Ending a scout's trips a second time changes nothing, and ending the
/// trips of two scouts gives the same trips in either order.
pub proof fn law_scout_removal_settles(trips: Seq<ScoutingAssignment>, x: Seq<char>, y: Seq<char>)
    ensures
        trips.filter(not_on_trip_of(x)).filter(not_on_trip_of(x)) == trips.filter(not_on_trip_of(x)),
        trips.filter(not_on_trip_of(x)).filter(not_on_trip_of(y))
            == trips.filter(not_on_trip_of(y)).filter(not_on_trip_of(x)),
{
    let px = not_on_trip_of(x);
    let py = not_on_trip_of(y);
    lemma_filter_twice(trips, px, px);
    lemma_filter_twice(trips, px, py);
    lemma_filter_twice(trips, py, px);
    assert((|a: ScoutingAssignment| px(a) && px(a)) =~= px);
    assert((|a: ScoutingAssignment| px(a) && py(a)) =~= (|a: ScoutingAssignment| py(a) && px(a)));
}

/// A member of staff accepts an offer only at their expected wage or more,
/// and for at least the term they ask; an offer between the lowest wage
/// they discuss and the expected wage, for a term of at least a year, is
/// answered with a counter-offer of the expected wage and term, leaving the
/// talks open.
pub proof fn law_acceptance_needs_the_expected_wage(
    staff: Staff,
    today: DateView,
    offer: RenewalOffer,
    demand: StaffWageDemand,
)
    ensures
        evaluated_outcome(staff, today, offer, demand).decision == RenewalDecision::Accepted
            ==> offer.weekly_wage >= demand.expected_wage
            && offer.contract_years >= contract_years_for_age(age_on(today, staff.date_of_birth@)),
        demand.minimum_wage <= offer.weekly_wage < demand.expected_wage && offer.contract_years > 0 ==> {
            let o = evaluated_outcome(staff, today, offer, demand);
            &&& o.decision == RenewalDecision::CounterOffer
            &&& o.suggested_wage == Some(demand.expected_wage)
            &&& o.suggested_years == Some(contract_years_for_age(age_on(today, staff.date_of_birth@)) as u32)
            &&& o.session_status == RenewalSessionStatus::Open
            &&& !o.is_terminal
        },
{
}

/// Only an agreement made today answers a new proposal as final: after a
/// renewal agreed on an earlier day, an offer that meets the expected wage
/// and term, from a manager the member trusts (above 30), with the board's
/// consent and an end date in range, is accepted and sets the offered wage.
pub proof fn law_earlier_agreement_does_not_close_talks(
    before: Staff,
    after: Staff,
    today: DateView,
    offer: RenewalOffer,
    demand: StaffWageDemand,
    board: WagePolicyVerdict,
    r: Result<RenewalOutcome, String>,
)
    requires
        manual_renewal_done(before, after, today, offer, demand, board, r),
        demand.is_consistent(),
        before.morale_core.renewal_state matches Some(st) && st.status == RenewalSessionStatus::Agreed
            && opt_view(st.last_attempt_date) != Some(ymd_text(today)),
        before.morale_core.manager_trust > 30,
        offer.weekly_wage >= demand.expected_wage,
        offer.contract_years >= contract_years_for_age(age_on(today, before.date_of_birth@)),
        board.allows,
        months_later(today, offer.contract_years * 12) is Some,
    ensures
        r matches Ok(o) && o.decision == RenewalDecision::Accepted,
        after.wage == offer.weekly_wage,
{
}

/// When the manager lists players and no staff, no member of staff is
/// approached: none is a candidate, so the round has no staff case and
/// leaves every staff record as it was.
pub proof fn law_player_list_approaches_no_staff(
    staff: Seq<Staff>,
    team_id: Seq<char>,
    assistant_id: Seq<char>,
    options: DelegatedRenewalOptions,
    facts: Seq<StaffRenewalFacts>,
)
    requires
        options.player_ids is Some,
        options.staff_ids is None,
    ensures
        forall|member: Staff, f: StaffRenewalFacts| !#[trigger] is_staff_candidate(member, team_id, assistant_id, options, f),
        indices_where(staff.len() as int, staff_candidate_pred(staff, team_id, assistant_id, options, facts)).len() == 0,
{
    let pred = staff_candidate_pred(staff, team_id, assistant_id, options, facts);
    lemma_indices_where_bounds(staff.len() as int, pred);
    if indices_where(staff.len() as int, pred).len() > 0 {
        let j = indices_where(staff.len() as int, pred)[0];
        assert(pred(j));
    }
}

/// The scale wage of a new hire depends on the four attributes only through
/// their sum: two members whose coaching, judging and physiotherapy add up
/// to the same total get the same base, which is 12000 plus 350 for each
/// point of the four attributes' average, scaled by the club's reputation.
pub proof fn law_initial_wage_uses_all_four_attributes(a: StaffAttributes, b: StaffAttributes, reputation: int)
    requires
        a.coaching + a.judging_ability + a.judging_potential + a.physiotherapy
            == b.coaching + b.judging_ability + b.judging_potential + b.physiotherapy,
        reputation >= 0,
    ensures
        initial_wage_base(a, reputation) == initial_wage_base(b, reputation),
        initial_wage_base(a, reputation) == saturating_u32(
            saturating_u32(12_000 + saturating_u32(
                ((a.coaching + a.judging_ability + a.judging_potential + a.physiotherapy) / 4) * 350))
            * saturating_u32(50 + reputation / 2)) / 100,
{
}

/// Hiring keeps a morale between 60 and 100, raises a lower one to 60 and
/// lowers a higher one to 100.
pub proof fn law_hire_keeps_reasonable_morale(before: Staff, after: Staff, today: DateView, offered_wage: u32)
    requires
        hire_terms_set(before, after, today, offered_wage),
    ensures
        60 <= before.morale <= 100 ==> after.morale == before.morale,
        before.morale < 60 ==> after.morale == 60,
        before.morale > 100 ==> after.morale == 100,
        60 <= after.morale <= 100,
{
}

/// Adding no months keeps the date.
pub proof fn law_zero_months_keep_date(d: DateView)
    ensures
        months_later(d, 0) == Some(d),
{
}

} // verus!
