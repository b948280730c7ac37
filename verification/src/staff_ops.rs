//! Hiring and releasing staff: contract days left, the terms of a new hire,
//! severance, and clearing a departing member's records.

use vstd::prelude::*;
use crate::contracts::{contract_days_remaining, days_until_contract_end, opt_view};
use crate::contracts::{rounded_up_to_thousand, round_up_to_nearest_thousand};
use crate::dates::{Date, DateView, months_later, ymd_text};
use crate::game::{Game, ScoutingAssignment};
use crate::staff::{Staff, StaffAttributes, MoraleCore};
use crate::staff_contracts::attribute_sum;

verus! {

/// Days left on a contract written `%Y-%m-%d`; 0 where the contract has run
/// out, has no end date or the end date does not read as a date.
pub open spec fn remaining_contract_days(contract_end: Option<Seq<char>>, today: DateView) -> int {
    match days_until_contract_end(contract_end, today) {
        Some(d) => if d > 0 { d } else { 0 },
        None => 0,
    }
}

/// Days left on a contract, never negative.
pub fn staff_contract_days_remaining(contract_end: &Option<String>, current_date: &Date) -> (r: i64)
    ensures
        r == remaining_contract_days(opt_view(*contract_end), current_date@),
        r >= 0,
{
    match contract_days_remaining(contract_end, current_date) {
        Some(d) => if d > 0 { d } else { 0 },
        None => 0,
    }
}

/// Most weeks of pay that severance makes good (half a season).
pub const SEVERANCE_MAX_WEEKS: i64 = 26;

/// `v`, or `u32::MAX` where it is larger.
pub open spec fn saturating_u32(v: int) -> int {
    if v > u32::MAX { u32::MAX as int } else { v }
}

/// The annual wage on the club's scale before the role's adjustment: 12000
/// plus 350 per point of average attribute, scaled by (50 + reputation / 2)
/// percent, each step saturating at `u32::MAX`.
pub open spec fn initial_wage_base(attributes: StaffAttributes, team_reputation: int) -> int {
    let ovr = attribute_sum(attributes) / 4;
    let rep_term = saturating_u32(50 + team_reputation / 2);
    let base = saturating_u32(12_000 + saturating_u32(ovr * 350));
    saturating_u32(base * rep_term) / 100
}

/// The scale wage of a new hire before the role's adjustment.
pub fn initial_wage_base_from_rep(attributes: &StaffAttributes, team_reputation: u32) -> (r: u32)
    ensures
        r == initial_wage_base(*attributes, team_reputation as int),
{
    let ovr = (attributes.coaching as u32 + attributes.judging_ability as u32
        + attributes.judging_potential as u32 + attributes.physiotherapy as u32) / 4;
    let rep_term = 50u32.saturating_add(team_reputation / 2);
    let points = ovr as u64 * 350;
    let points: u32 = if points > u32::MAX as u64 { u32::MAX } else { points as u32 };
    let base = 12_000u32.saturating_add(points);
    assert(base * rep_term <= u64::MAX) by (nonlinear_arith)
        requires
            base <= u32::MAX,
            rep_term <= u32::MAX,
    ;
    let scaled = base as u64 * rep_term as u64;
    let scaled: u32 = if scaled > u32::MAX as u64 { u32::MAX } else { scaled as u32 };
    scaled / 100
}

/// The annual wage offered to a new hire, from the role-adjusted wage
/// (rounded up to whole units): rounded up to a thousand, and never below 6000.
pub open spec fn initial_wage_from_scaled(scaled: int) -> int {
    let rounded = rounded_up_to_thousand(scaled);
    if rounded >= 6_000 { rounded } else { 6_000 }
}

/// The annual wage offered to a new hire, from the role-adjusted wage.
pub fn initial_annual_wage_from_scaled(scaled: u32) -> (r: u32)
    ensures
        r == initial_wage_from_scaled(scaled as int),
{
    let rounded = round_up_to_nearest_thousand(scaled);
    if rounded >= 6_000 { rounded } else { 6_000 }
}

/// `after` is `before` with the terms of a hire from the market set: the
/// `offered_wage` where there was no wage, a contract to the date two years
/// from `today` where there was no end date (none where that date is out of
/// range), and a morale of at least 60 and at most 100.
pub open spec fn hire_terms_set(before: Staff, after: Staff, today: DateView, offered_wage: u32) -> bool {
    &&& after.wage == if before.wage == 0 { offered_wage } else { before.wage }
    &&& before.contract_end is Some ==> after.contract_end == before.contract_end
    &&& before.contract_end is None ==> match months_later(today, 24) {
        Some(end) => opt_view(after.contract_end) == Some(ymd_text(end)),
        None => after.contract_end is None,
    }
    &&& after.morale == if before.morale < 60 { 60 } else if before.morale > 100 { 100 } else { before.morale }
    &&& after.id == before.id
    &&& after.first_name == before.first_name
    &&& after.last_name == before.last_name
    &&& after.date_of_birth == before.date_of_birth
    &&& after.role == before.role
    &&& after.attributes == before.attributes
    &&& after.team_id == before.team_id
    &&& after.morale_core == before.morale_core
}

/// Sets the terms of a member hired from the market; `offered_wage` is the
/// club's scale wage for them.
pub fn ensure_staff_contract_on_hire(current_date: &Date, staff: &mut Staff, offered_wage: u32)
    ensures
        hire_terms_set(*old(staff), *final(staff), current_date@, offered_wage),
{
    if staff.wage == 0 {
        staff.wage = offered_wage;
    }
    if staff.contract_end.is_none() {
        if let Some(end) = current_date.add_months(24) {
            staff.contract_end = Some(end.format_ymd());
        }
    }
    let floor = if staff.morale < 60 { 60 } else { staff.morale };
    staff.morale = if floor > 100 { 100 } else { floor };
}

/// Severance for `remaining_days` days of contract left at an annual `wage`:
/// a weekly wage of `wage / 52` (at least 1) for each whole week left, plus
/// sevenths of a week for the odd days, the whole capped at 26 weeks of pay
/// (half a season); nothing when no day is left or there is no wage.
pub open spec fn severance(remaining_days: int, wage: int) -> int {
    if remaining_days <= 0 || wage == 0 {
        0
    } else {
        let weekly = if wage / 52 >= 1 { wage / 52 } else { 1 };
        if remaining_days / 7 >= 26 {
            26 * weekly
        } else {
            (remaining_days / 7) * weekly + (remaining_days % 7) * weekly / 7
        }
    }
}

/// Cash owed when releasing `staff` on `current_date`.
pub fn severance_for_staff_release(staff: &Staff, current_date: &Date) -> (r: i64)
    ensures
        r == severance(remaining_contract_days(opt_view(staff.contract_end), current_date@), staff.wage as int),
{
    let remaining_days = staff_contract_days_remaining(&staff.contract_end, current_date);
    if remaining_days <= 0 || staff.wage == 0 {
        return 0;
    }
    let weekly_raw = staff.wage as i64 / 52;
    let weekly = if weekly_raw >= 1 { weekly_raw } else { 1 };
    assert(weekly <= 82_595_525);
    let owed_weeks = remaining_days / 7;
    if owed_weeks >= SEVERANCE_MAX_WEEKS {
        return SEVERANCE_MAX_WEEKS * weekly;
    }
    assert(owed_weeks * weekly <= 26 * 82_595_525) by (nonlinear_arith)
        requires
            0 <= owed_weeks <= 26,
            1 <= weekly <= 82_595_525,
    ;
    let full = owed_weeks * weekly;
    let tail_days = remaining_days % 7;
    assert(tail_days * weekly <= 6 * 82_595_525) by (nonlinear_arith)
        requires
            0 <= tail_days <= 6,
            1 <= weekly <= 82_595_525,
    ;
    let partial = (tail_days * weekly) / 7;
    full + partial
}

/// `staff` as a free agent: no club, contract, wage or renewal talks.
pub open spec fn as_free_agent(staff: Staff) -> Staff {
    Staff {
        team_id: None,
        contract_end: None,
        wage: 0,
        morale_core: MoraleCore { renewal_state: None, ..staff.morale_core },
        ..staff
    }
}

/// Clears a member's employment when they become a free agent.
pub fn reset_staff_to_free_agent(staff: &mut Staff)
    ensures
        *final(staff) == as_free_agent(*old(staff)),
{
    staff.team_id = None;
    staff.contract_end = None;
    staff.wage = 0;
    staff.morale_core.renewal_state = None;
}

/// A scouting trip of someone other than the scout `scout_id`.
pub open spec fn not_on_trip_of(scout_id: Seq<char>) -> spec_fn(ScoutingAssignment) -> bool {
    |a: ScoutingAssignment| a.scout_id@ != scout_id
}

fn duplicate_assignment(a: &ScoutingAssignment) -> (r: ScoutingAssignment)
    ensures
        r == *a,
{
    ScoutingAssignment { id: a.id.clone(), scout_id: a.scout_id.clone(), player_id: a.player_id.clone() }
}

/// Ends every scouting trip of the scout `scout_id`, keeping the others in order.
pub fn remove_scouting_assignments_for_scout(game: &mut Game, scout_id: &String)
    ensures
        final(game).scouting_assignments@ == old(game).scouting_assignments@.filter(not_on_trip_of(scout_id@)),
        final(game).manager_team_id == old(game).manager_team_id,
        final(game).current_date == old(game).current_date,
        final(game).teams == old(game).teams,
        final(game).staff == old(game).staff,
        final(game).players == old(game).players,
        final(game).messages == old(game).messages,
{
    let ghost pred = not_on_trip_of(scout_id@);
    let ghost original = game.scouting_assignments@;
    let mut kept: Vec<ScoutingAssignment> = Vec::new();
    let n = game.scouting_assignments.len();
    let mut i: usize = 0;
    while i < n
        invariant
            n == game.scouting_assignments.len(),
            game.scouting_assignments@ == original,
            i <= n,
            pred == not_on_trip_of(scout_id@),
            kept@ == original.take(i as int).filter(pred),
        decreases n - i,
    {
        proof {
            assert(original.take(i + 1).drop_last() =~= original.take(i as int));
            reveal(Seq::filter);
        }
        if game.scouting_assignments[i].scout_id != *scout_id {
            let a = duplicate_assignment(&game.scouting_assignments[i]);
            kept.push(a);
        }
        i += 1;
    }
    assert(original.take(n as int) =~= original);
    game.scouting_assignments = kept;
}

} // verus!
