use ofm_core::contracts::{NegotiationMood, RenewalDecision, RenewalOffer};
use ofm_core::dates::Date;
use ofm_core::game::Game;
use ofm_core::staff::{
    ContractRenewalState, MoraleCore, RenewalSessionOutcome, RenewalSessionStatus, Staff,
    StaffAttributes, StaffRole, Team,
};
use ofm_core::staff_contracts::{
    build_staff_renewal_feedback, cool_stale_renewal_session_staff, evaluate_staff_renewal_offer,
    expected_staff_contract_years, finish_expected_staff_wage, has_active_manager_block_staff,
    next_renewal_round_staff, project_staff_renewal_financial_impact, propose_staff_renewal,
    should_manual_renewal_fail_on_relationship_staff, staff_age_on, staff_expected_wage_factors,
    staff_quality_tier, AgeBand, QualityTier, StaffWageDemand, TermBand, WageBillFigures,
    WagePolicyVerdict,
};

fn attrs(v: u8) -> StaffAttributes {
    StaffAttributes { coaching: v, judging_ability: v, judging_potential: v, physiotherapy: v }
}

fn make_staff() -> Staff {
    Staff {
        id: "staff-2".to_string(),
        first_name: "Sam".to_string(),
        last_name: "Coach".to_string(),
        date_of_birth: "1985-01-01".to_string(),
        role: StaffRole::Coach,
        attributes: attrs(60),
        team_id: Some("team-1".to_string()),
        contract_end: Some("2026-10-15".to_string()),
        wage: 12_000,
        morale: 75,
        morale_core: MoraleCore { manager_trust: 50, renewal_state: None, unresolved_issue: None },
    }
}

fn make_team() -> Team {
    Team {
        id: "team-1".to_string(),
        name: "Alpha FC".to_string(),
        reputation: 50,
        wage_budget: 50_000,
        finance: 1_000_000,
    }
}

fn today() -> Date {
    Date::from_ymd(2026, 8, 1).unwrap()
}

fn make_game(staff: Vec<Staff>) -> Game {
    Game {
        manager_team_id: Some("team-1".to_string()),
        current_date: today(),
        teams: vec![make_team()],
        staff,
        players: vec![],
        scouting_assignments: vec![],
        messages: vec![],
    }
}

fn session(status: RenewalSessionStatus, last_attempt: Option<&str>, round: u8) -> ContractRenewalState {
    ContractRenewalState {
        status,
        manager_blocked_until: None,
        last_attempt_date: last_attempt.map(|s| s.to_string()),
        last_assistant_attempt_date: None,
        last_outcome: None,
        conversation_round: round,
    }
}

fn demand() -> StaffWageDemand {
    StaffWageDemand { expected_wage: 14_000, minimum_wage: 10_200 }
}

fn board_yes() -> WagePolicyVerdict {
    WagePolicyVerdict { allows: true, refusal: String::new() }
}

#[test]
fn age_counts_whole_years() {
    let d = today();
    assert_eq!(staff_age_on(&d, &"1985-01-01".to_string()), 41);
    assert_eq!(staff_age_on(&d, &"1985-12-31".to_string()), 40);
    assert_eq!(staff_age_on(&d, &"not a date".to_string()), 40);
    // Compared by day of the year: in a leap year of birth, 1 August is day 214.
    assert_eq!(staff_age_on(&d, &"2000-08-01".to_string()), 25);
}

#[test]
fn expected_years_fall_with_age() {
    let d = today();
    let mut s = make_staff();
    assert_eq!(expected_staff_contract_years(&s, &d), 3);
    s.date_of_birth = "1975-01-01".to_string();
    assert_eq!(expected_staff_contract_years(&s, &d), 2);
    s.date_of_birth = "1960-01-01".to_string();
    assert_eq!(expected_staff_contract_years(&s, &d), 1);
}

#[test]
fn quality_tier_uses_the_average_attribute() {
    assert_eq!(staff_quality_tier(&attrs(75)), QualityTier::Elite);
    let just_below = StaffAttributes { coaching: 75, judging_ability: 75, judging_potential: 75, physiotherapy: 74 };
    assert_eq!(staff_quality_tier(&just_below), QualityTier::Strong);
    assert_eq!(staff_quality_tier(&attrs(60)), QualityTier::Strong);
    let below_sixty = StaffAttributes { coaching: 60, judging_ability: 60, judging_potential: 60, physiotherapy: 59 };
    assert_eq!(staff_quality_tier(&below_sixty), QualityTier::Standard);
    assert_eq!(staff_quality_tier(&attrs(40)), QualityTier::Modest);
    let above_forty = StaffAttributes { coaching: 41, judging_ability: 40, judging_potential: 40, physiotherapy: 40 };
    assert_eq!(staff_quality_tier(&above_forty), QualityTier::Standard);
}

#[test]
fn next_round_counts_attempts_of_the_same_day() {
    let mut s = make_staff();
    let day = "2026-08-01".to_string();
    assert_eq!(next_renewal_round_staff(&s, Some(&day)), 1);
    s.morale_core.renewal_state = Some(session(RenewalSessionStatus::Open, Some("2026-08-01"), 2));
    assert_eq!(next_renewal_round_staff(&s, Some(&day)), 3);
    assert_eq!(next_renewal_round_staff(&s, None), 3);
    assert_eq!(next_renewal_round_staff(&s, Some(&"2026-08-02".to_string())), 1);
    s.morale_core.renewal_state = Some(session(RenewalSessionStatus::Open, Some("2026-08-01"), 255));
    assert_eq!(next_renewal_round_staff(&s, Some(&day)), 255);
    s.morale_core.renewal_state = Some(session(RenewalSessionStatus::Open, None, 4));
    assert_eq!(next_renewal_round_staff(&s, Some(&day)), 1);
}

#[test]
fn stale_talks_cool_off_after_fourteen_days() {
    let d = today();
    let mut s = make_staff();
    s.morale_core.renewal_state = Some(session(RenewalSessionStatus::Open, Some("2026-07-10"), 3));
    assert!(cool_stale_renewal_session_staff(&mut s, &d));
    let st = s.morale_core.renewal_state.clone().unwrap();
    assert_eq!(st.status, RenewalSessionStatus::Idle);
    assert_eq!(st.conversation_round, 0);
    assert_eq!(st.last_outcome, None);
    assert_eq!(st.last_attempt_date.as_deref(), Some("2026-07-10"));

    let mut fresh = make_staff();
    fresh.morale_core.renewal_state = Some(session(RenewalSessionStatus::Open, Some("2026-07-20"), 3));
    assert!(!cool_stale_renewal_session_staff(&mut fresh, &d));
    assert_eq!(fresh.morale_core.renewal_state.unwrap().conversation_round, 3);

    let mut blocked = make_staff();
    blocked.morale_core.renewal_state = Some(session(RenewalSessionStatus::Blocked, Some("2026-01-01"), 3));
    assert!(!cool_stale_renewal_session_staff(&mut blocked, &d));

    let mut exactly = make_staff();
    exactly.morale_core.renewal_state = Some(session(RenewalSessionStatus::Stalled, Some("2026-07-18"), 1));
    assert!(cool_stale_renewal_session_staff(&mut exactly, &d));
}

#[test]
fn manager_block_lasts_until_its_date() {
    let mut s = make_staff();
    let mut st = session(RenewalSessionStatus::Blocked, None, 0);
    st.manager_blocked_until = Some("2026-09-01".to_string());
    s.morale_core.renewal_state = Some(st.clone());
    assert!(has_active_manager_block_staff(&s, &today()));
    assert!(has_active_manager_block_staff(&s, &Date::from_ymd(2026, 9, 1).unwrap()));
    assert!(!has_active_manager_block_staff(&s, &Date::from_ymd(2026, 9, 2).unwrap()));
    st.manager_blocked_until = None;
    s.morale_core.renewal_state = Some(st.clone());
    assert!(has_active_manager_block_staff(&s, &today()));
    st.manager_blocked_until = Some("someday".to_string());
    s.morale_core.renewal_state = Some(st.clone());
    assert!(has_active_manager_block_staff(&s, &today()));
    st.status = RenewalSessionStatus::Open;
    s.morale_core.renewal_state = Some(st);
    assert!(!has_active_manager_block_staff(&s, &today()));
}

#[test]
fn distrust_adds_a_margin_to_the_expected_wage() {
    let mut s = make_staff();
    s.morale_core.manager_trust = 18;
    assert!(should_manual_renewal_fail_on_relationship_staff(&s, 14_000, 15_000));
    assert!(!should_manual_renewal_fail_on_relationship_staff(&s, 14_000, 16_000));
    s.morale_core.manager_trust = 25;
    assert!(should_manual_renewal_fail_on_relationship_staff(&s, 14_000, 14_999));
    assert!(!should_manual_renewal_fail_on_relationship_staff(&s, 14_000, 15_000));
    s.morale_core.manager_trust = 31;
    assert!(!should_manual_renewal_fail_on_relationship_staff(&s, 14_000, 0));
    s.morale_core.manager_trust = 0;
    assert!(should_manual_renewal_fail_on_relationship_staff(&s, u32::MAX, u32::MAX - 1));
}

#[test]
fn feedback_reads_the_pressure_of_the_talks() {
    let s = make_staff();
    let fb = build_staff_renewal_feedback(&s, &today(), RenewalDecision::CounterOffer, RenewalSessionStatus::Open, 1, 14_000, false);
    assert_eq!(fb.tension, 51);
    assert_eq!(fb.patience, 83);
    assert_eq!(fb.round, 1);
    assert_eq!(fb.mood, NegotiationMood::Firm);
    assert_eq!(fb.headline_key, "staffProfile.renewalFeedbackFirmHeadline");
    assert_eq!(fb.detail_key.as_deref(), Some("staffProfile.renewalFeedbackFirmDetail"));
    assert_eq!(fb.params.len(), 0);

    let late = build_staff_renewal_feedback(&s, &today(), RenewalDecision::Accepted, RenewalSessionStatus::Agreed, 2, 14_000, false);
    assert_eq!(late.mood, NegotiationMood::Positive);
    assert_eq!(late.headline_key, "staffProfile.renewalFeedbackAcceptedLateHeadline");
    assert_eq!(late.patience, 65);

    let blocked = build_staff_renewal_feedback(&s, &today(), RenewalDecision::Rejected, RenewalSessionStatus::Blocked, 1, 0, false);
    assert_eq!(blocked.mood, NegotiationMood::Guarded);

    let calm = build_staff_renewal_feedback(&s, &today(), RenewalDecision::Rejected, RenewalSessionStatus::Stalled, 1, 12_000, false);
    assert_eq!(calm.mood, NegotiationMood::Calm);

    let mut hard = make_staff();
    hard.contract_end = None;
    hard.morale = 30;
    hard.morale_core.manager_trust = 10;
    hard.attributes = attrs(80);
    let tense = build_staff_renewal_feedback(&hard, &today(), RenewalDecision::Rejected, RenewalSessionStatus::Stalled, 10, 12_000, false);
    assert_eq!(tense.tension, 92);
    assert_eq!(tense.patience, 18);
    assert_eq!(tense.mood, NegotiationMood::Tense);
}

#[test]
fn evaluation_accepts_counters_or_rejects() {
    let s = make_staff();
    let d = today();
    let accepted = evaluate_staff_renewal_offer(&s, &d, &RenewalOffer { weekly_wage: 15_000, contract_years: 3 }, &demand());
    assert_eq!(accepted.decision, RenewalDecision::Accepted);
    assert_eq!(accepted.session_status, RenewalSessionStatus::Agreed);
    assert!(accepted.is_terminal);

    let counter = evaluate_staff_renewal_offer(&s, &d, &RenewalOffer { weekly_wage: 13_000, contract_years: 2 }, &demand());
    assert_eq!(counter.decision, RenewalDecision::CounterOffer);
    assert_eq!(counter.suggested_wage, Some(14_000));
    assert_eq!(counter.suggested_years, Some(3));
    let feedback = counter.feedback.expect("feedback should be present");
    assert_eq!(feedback.round, 1);
    assert!(feedback.tension > 0);

    let low = evaluate_staff_renewal_offer(&s, &d, &RenewalOffer { weekly_wage: 7_000, contract_years: 1 }, &demand());
    assert_eq!(low.decision, RenewalDecision::Rejected);
    assert_eq!(low.session_status, RenewalSessionStatus::Stalled);

    let no_term = evaluate_staff_renewal_offer(&s, &d, &RenewalOffer { weekly_wage: 15_000, contract_years: 0 }, &demand());
    assert_eq!(no_term.decision, RenewalDecision::Rejected);
}

#[test]
fn accepted_staff_offer_updates_wage_and_term() {
    let mut game = make_game(vec![make_staff()]);
    let outcome = propose_staff_renewal(
        &mut game,
        &"staff-2".to_string(),
        RenewalOffer { weekly_wage: 15_000, contract_years: 3 },
        &demand(),
        &board_yes(),
    )
    .expect("renewal should succeed");
    assert_eq!(outcome.decision, RenewalDecision::Accepted);
    assert!(outcome.feedback.is_some());
    let s = &game.staff[0];
    assert_eq!(s.wage, 15_000);
    assert_eq!(s.contract_end.as_deref(), Some("2029-08-01"));
    let st = s.morale_core.renewal_state.clone().unwrap();
    assert_eq!(st.status, RenewalSessionStatus::Agreed);
    assert_eq!(st.last_outcome, Some(RenewalSessionOutcome::AcceptedByManager));
    assert_eq!(st.last_attempt_date.as_deref(), Some("2026-08-01"));
    assert_eq!(st.conversation_round, 1);

    let again = propose_staff_renewal(
        &mut game,
        &"staff-2".to_string(),
        RenewalOffer { weekly_wage: 20_000, contract_years: 3 },
        &demand(),
        &board_yes(),
    )
    .unwrap();
    assert_eq!(again.decision, RenewalDecision::Rejected);
    assert_eq!(again.session_status, RenewalSessionStatus::Agreed);
    assert!(again.is_terminal);
    assert_eq!(game.staff[0].wage, 15_000);
}

#[test]
fn rejected_staff_offer_leaves_contract_unchanged() {
    let mut game = make_game(vec![make_staff()]);
    let outcome = propose_staff_renewal(
        &mut game,
        &"staff-2".to_string(),
        RenewalOffer { weekly_wage: 7_000, contract_years: 1 },
        &demand(),
        &board_yes(),
    )
    .expect("renewal should return a decision");
    assert_eq!(outcome.decision, RenewalDecision::Rejected);
    assert_eq!(game.staff[0].wage, 12_000);
    assert_eq!(game.staff[0].contract_end.as_deref(), Some("2026-10-15"));
    let st = game.staff[0].morale_core.renewal_state.clone().unwrap();
    assert_eq!(st.status, RenewalSessionStatus::Stalled);
    assert_eq!(st.last_outcome, Some(RenewalSessionOutcome::RejectedByPlayer));
}

#[test]
fn staff_counter_offer_opens_the_talks() {
    let mut game = make_game(vec![make_staff()]);
    let outcome = propose_staff_renewal(
        &mut game,
        &"staff-2".to_string(),
        RenewalOffer { weekly_wage: 13_000, contract_years: 2 },
        &demand(),
        &board_yes(),
    )
    .unwrap();
    assert_eq!(outcome.decision, RenewalDecision::CounterOffer);
    assert_eq!(outcome.suggested_wage, Some(14_000));
    assert_eq!(outcome.suggested_years, Some(3));
    let st = game.staff[0].morale_core.renewal_state.clone().unwrap();
    assert_eq!(st.status, RenewalSessionStatus::Open);
    assert_eq!(st.last_outcome, Some(RenewalSessionOutcome::Stalled));
}

#[test]
fn distrustful_staff_refuses_fair_terms() {
    let mut s = make_staff();
    s.morale_core.manager_trust = 18;
    let mut game = make_game(vec![s]);
    let outcome = propose_staff_renewal(
        &mut game,
        &"staff-2".to_string(),
        RenewalOffer { weekly_wage: 15_000, contract_years: 3 },
        &demand(),
        &board_yes(),
    )
    .unwrap();
    assert_eq!(outcome.decision, RenewalDecision::Rejected);
    assert_eq!(outcome.feedback.unwrap().mood, NegotiationMood::Tense);
    assert_eq!(game.staff[0].wage, 12_000);
}

#[test]
fn manager_block_refuses_staff_proposal() {
    let mut s = make_staff();
    let mut st = session(RenewalSessionStatus::Blocked, None, 0);
    st.manager_blocked_until = Some("2026-09-01".to_string());
    s.morale_core.renewal_state = Some(st);
    let mut game = make_game(vec![s]);
    let outcome = propose_staff_renewal(
        &mut game,
        &"staff-2".to_string(),
        RenewalOffer { weekly_wage: 16_000, contract_years: 3 },
        &demand(),
        &board_yes(),
    )
    .unwrap();
    assert_eq!(outcome.decision, RenewalDecision::Rejected);
    assert_eq!(outcome.session_status, RenewalSessionStatus::Blocked);
    assert!(outcome.is_terminal);
    assert_eq!(game.staff[0].wage, 12_000);
}

#[test]
fn stale_staff_talks_restart_from_round_one() {
    let mut s = make_staff();
    s.morale_core.renewal_state = Some(session(RenewalSessionStatus::Open, Some("2026-07-10"), 3));
    let mut game = make_game(vec![s]);
    let outcome = propose_staff_renewal(
        &mut game,
        &"staff-2".to_string(),
        RenewalOffer { weekly_wage: 13_000, contract_years: 2 },
        &demand(),
        &board_yes(),
    )
    .unwrap();
    assert!(outcome.cooled_off);
    assert_eq!(outcome.feedback.unwrap().round, 1);
    let st = game.staff[0].morale_core.renewal_state.clone().unwrap();
    assert_eq!(st.conversation_round, 1);
    assert_eq!(st.last_attempt_date.as_deref(), Some("2026-08-01"));
}

#[test]
fn board_refusal_stops_an_agreed_staff_renewal() {
    let mut game = make_game(vec![make_staff()]);
    let refusal = "The board wage policy does not allow this contract.".to_string();
    let err = propose_staff_renewal(
        &mut game,
        &"staff-2".to_string(),
        RenewalOffer { weekly_wage: 250_000, contract_years: 3 },
        &demand(),
        &WagePolicyVerdict { allows: false, refusal: refusal.clone() },
    )
    .expect_err("renewal should be blocked by wage policy");
    assert_eq!(err, refusal);
    assert!(err.contains("board wage policy"));
    assert_eq!(game.staff[0].wage, 12_000);
    assert_eq!(game.staff[0].morale_core.renewal_state, None);
}

#[test]
fn staff_proposal_needs_a_club_and_a_member_of_it() {
    let offer = RenewalOffer { weekly_wage: 15_000, contract_years: 3 };
    let mut no_team = make_game(vec![make_staff()]);
    no_team.manager_team_id = None;
    assert_eq!(propose_staff_renewal(&mut no_team, &"staff-2".to_string(), offer, &demand(), &board_yes()).unwrap_err(), "No team assigned");

    let mut lost_team = make_game(vec![make_staff()]);
    lost_team.manager_team_id = Some("team-9".to_string());
    assert_eq!(propose_staff_renewal(&mut lost_team, &"staff-2".to_string(), offer, &demand(), &board_yes()).unwrap_err(), "Manager team not found");

    let mut game = make_game(vec![make_staff()]);
    assert_eq!(propose_staff_renewal(&mut game, &"staff-9".to_string(), offer, &demand(), &board_yes()).unwrap_err(), "Staff member not found");

    let mut other = make_staff();
    other.team_id = Some("team-2".to_string());
    let mut game = make_game(vec![other]);
    assert_eq!(
        propose_staff_renewal(&mut game, &"staff-2".to_string(), offer, &demand(), &board_yes()).unwrap_err(),
        "Staff member does not belong to your club"
    );
}

#[test]
fn financial_projection_reports_bills_caps_and_runway() {
    let mut team = make_team();
    team.wage_budget = 500_000;
    let mut game = make_game(vec![make_staff()]);
    game.teams = vec![team];
    let figures = WageBillFigures {
        current_annual_wage_bill: 600_000,
        projected_annual_wage_bill: 650_000,
    };
    let runway = |finance: i64, weekly: i64| -> Option<i64> {
        if weekly < 0 { Some(finance / -weekly) } else { None }
    };
    let p = project_staff_renewal_financial_impact(&game, &"staff-2".to_string(), 15_000, &figures, &board_yes(), runway).unwrap();
    assert_eq!(p.current_annual_wage_bill, 600_000);
    assert_eq!(p.projected_annual_wage_bill, 650_000);
    assert_eq!(p.annual_wage_budget, 500_000);
    assert_eq!(p.annual_soft_cap, 550_000);
    assert_eq!(p.current_weekly_wage_spend, 11_538);
    assert_eq!(p.projected_weekly_wage_spend, 12_500);
    assert_eq!(p.current_cash_runway_weeks, Some(86));
    assert_eq!(p.projected_cash_runway_weeks, Some(80));
    assert!(p.currently_over_budget);
    assert!(p.policy_allows);

    let mut lonely = make_staff();
    lonely.team_id = None;
    let game = make_game(vec![lonely]);
    assert_eq!(
        project_staff_renewal_financial_impact(&game, &"staff-2".to_string(), 1, &figures, &board_yes(), runway).unwrap_err(),
        "Staff member has no team"
    );
    assert_eq!(
        project_staff_renewal_financial_impact(&game, &"nobody".to_string(), 1, &figures, &board_yes(), runway).unwrap_err(),
        "Staff member not found"
    );
    let mut elsewhere = make_staff();
    elsewhere.team_id = Some("team-7".to_string());
    let game = make_game(vec![elsewhere]);
    assert_eq!(
        project_staff_renewal_financial_impact(&game, &"staff-2".to_string(), 1, &figures, &board_yes(), runway).unwrap_err(),
        "Team not found"
    );
}

#[test]
fn expected_wage_factors_follow_age_morale_club_and_term() {
    let mut s = make_staff();
    s.date_of_birth = "1990-01-01".to_string();
    s.morale = 45;
    let mut team = make_team();
    team.reputation = 30;
    let f = staff_expected_wage_factors(&s, &team, &today());
    assert_eq!(f.age_band, AgeBand::Younger);
    assert!(f.low_morale);
    assert_eq!(f.tier, QualityTier::Strong);
    assert_eq!(f.role, StaffRole::Coach);
    assert!(f.low_reputation);
    assert_eq!(f.term_band, TermBand::Expiring);

    s.date_of_birth = "1960-01-01".to_string();
    s.morale = 51;
    s.contract_end = Some("2027-06-01".to_string());
    let f = staff_expected_wage_factors(&s, &make_team(), &today());
    assert_eq!(f.age_band, AgeBand::Senior);
    assert!(!f.low_morale);
    assert!(!f.low_reputation);
    assert_eq!(f.term_band, TermBand::Closing);

    s.date_of_birth = "1980-01-01".to_string();
    s.contract_end = Some("2028-08-01".to_string());
    let f = staff_expected_wage_factors(&s, &make_team(), &today());
    assert_eq!(f.age_band, AgeBand::Middle);
    assert_eq!(f.term_band, TermBand::Secure);
}

#[test]
fn expected_wage_is_rounded_up_and_never_below_the_current_wage() {
    assert_eq!(finish_expected_staff_wage(13_861, 12_000), 14_000);
    assert_eq!(finish_expected_staff_wage(14_000, 12_000), 14_000);
    assert_eq!(finish_expected_staff_wage(5_000, 12_000), 12_000);
    assert_eq!(finish_expected_staff_wage(u32::MAX, 0), u32::MAX);
}

#[test]
fn staff_renewal_past_the_last_date_fails() {
    let mut game = make_game(vec![make_staff()]);
    game.current_date = Date::from_ymd(262142, 6, 1).unwrap();
    let err = propose_staff_renewal(
        &mut game,
        &"staff-2".to_string(),
        RenewalOffer { weekly_wage: 15_000, contract_years: 3 },
        &demand(),
        &board_yes(),
    )
    .unwrap_err();
    assert_eq!(err, "Unable to calculate new contract end date");
    assert_eq!(game.staff[0].wage, 12_000);
    assert_eq!(game.staff[0].contract_end.as_deref(), Some("2026-10-15"));
    assert!(game.staff[0].morale_core.renewal_state.is_none());
}

#[test]
fn refused_offers_of_any_length_are_answered() {
    let mut game = make_game(vec![make_staff()]);
    let low = propose_staff_renewal(
        &mut game,
        &"staff-2".to_string(),
        RenewalOffer { weekly_wage: 5_000, contract_years: u32::MAX },
        &demand(),
        &board_yes(),
    )
    .unwrap();
    assert_eq!(low.decision, RenewalDecision::Rejected);
    let err = propose_staff_renewal(
        &mut game,
        &"staff-2".to_string(),
        RenewalOffer { weekly_wage: 15_000, contract_years: u32::MAX },
        &demand(),
        &board_yes(),
    )
    .unwrap_err();
    assert_eq!(err, "Unable to calculate new contract end date");
    assert_eq!(game.staff[0].wage, 12_000);
}

#[test]
fn projection_refusal_predicts_the_board_veto() {
    let mut game = make_game(vec![make_staff()]);
    let board = WagePolicyVerdict { allows: false, refusal: "The board wage policy does not allow this contract.".to_string() };
    let figures = WageBillFigures { current_annual_wage_bill: 40_000, projected_annual_wage_bill: 43_000 };
    let runway = |_finance: i64, _weekly: i64| -> Option<i64> { None };
    let p = project_staff_renewal_financial_impact(&game, &"staff-2".to_string(), 15_000, &figures, &board, runway).unwrap();
    assert!(!p.policy_allows);
    let err = propose_staff_renewal(
        &mut game,
        &"staff-2".to_string(),
        RenewalOffer { weekly_wage: 15_000, contract_years: 3 },
        &demand(),
        &board,
    )
    .unwrap_err();
    assert_eq!(err, board.refusal);
    assert_eq!(game.staff[0].wage, 12_000);
    assert_eq!(game.staff[0].contract_end.as_deref(), Some("2026-10-15"));
}
