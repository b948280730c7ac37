use ofm_core::contracts::ContractWarningStage;
use ofm_core::dates::Date;
use ofm_core::delegated_renewals::{
    assistant_delegation_score, assistant_delegation_score_staff, decide_delegated_renewal,
    delegate_renewals, delegated_case, delegated_note_params, delegated_renewal_report_message,
    delegation_limits, DelegatedDecision, DelegatedRenewalOptions, DelegatedRenewalReport,
    DelegatedRenewalResultStatus, PlayerRenewalFacts, StaffRenewalFacts,
};
use ofm_core::game::Game;
use ofm_core::messages::{MessageCategory, MessagePriority};
use ofm_core::staff::{
    ContractRenewalState, MoraleCore, Player, RenewalSessionOutcome, RenewalSessionStatus, Staff,
    StaffAttributes, StaffRole, Team, UnresolvedIssue,
};

fn make_player() -> Player {
    Player {
        id: "player-1".to_string(),
        match_name: "J. Smith".to_string(),
        team_id: Some("team-1".to_string()),
        contract_end: Some("2026-10-15".to_string()),
        wage: 12_000,
        morale: 75,
        market_value: 350_000,
        morale_core: MoraleCore { manager_trust: 50, renewal_state: None, unresolved_issue: None },
    }
}

fn make_team() -> Team {
    Team {
        id: "team-1".to_string(),
        name: "Alpha FC".to_string(),
        reputation: 50,
        wage_budget: 50_000,
        finance: 1_000_000,
    }
}

fn make_assistant_manager() -> Staff {
    Staff {
        id: "staff-1".to_string(),
        first_name: "Alex".to_string(),
        last_name: "Assistant".to_string(),
        date_of_birth: "1985-01-01".to_string(),
        role: StaffRole::AssistantManager,
        attributes: StaffAttributes { coaching: 82, judging_ability: 76, judging_potential: 74, physiotherapy: 30 },
        team_id: Some("team-1".to_string()),
        contract_end: None,
        wage: 0,
        morale: 70,
        morale_core: MoraleCore { manager_trust: 50, renewal_state: None, unresolved_issue: None },
    }
}

fn make_coach() -> Staff {
    Staff {
        id: "staff-2".to_string(),
        first_name: "Sam".to_string(),
        last_name: "Coach".to_string(),
        date_of_birth: "1985-01-01".to_string(),
        role: StaffRole::Coach,
        attributes: StaffAttributes { coaching: 50, judging_ability: 50, judging_potential: 50, physiotherapy: 50 },
        team_id: Some("team-1".to_string()),
        contract_end: Some("2026-10-15".to_string()),
        wage: 12_000,
        morale: 80,
        morale_core: MoraleCore { manager_trust: 60, renewal_state: None, unresolved_issue: None },
    }
}

fn make_game() -> Game {
    Game {
        manager_team_id: Some("team-1".to_string()),
        current_date: Date::from_ymd(2026, 8, 1).unwrap(),
        teams: vec![make_team()],
        staff: vec![],
        players: vec![make_player()],
        scouting_assignments: vec![],
        messages: vec![],
    }
}

fn player_facts() -> PlayerRenewalFacts {
    PlayerRenewalFacts {
        expected_wage: 14_000,
        expected_years: 3,
        manager_blocked: false,
        warning_stage: Some(ContractWarningStage::ThreeMonths),
    }
}

fn no_staff_facts() -> StaffRenewalFacts {
    StaffRenewalFacts { expected_wage: 0, warning_stage: None }
}

fn options(player_ids: Option<Vec<&str>>, staff_ids: Option<Vec<&str>>) -> DelegatedRenewalOptions {
    DelegatedRenewalOptions {
        player_ids: player_ids.map(|ids| ids.iter().map(|s| s.to_string()).collect()),
        staff_ids: staff_ids.map(|ids| ids.iter().map(|s| s.to_string()).collect()),
        max_wage_increase_pct: 35,
        max_contract_years: 3,
    }
}

#[test]
fn assistant_can_complete_routine_delegate_renewal_even_when_manager_trust_is_low() {
    let mut game = make_game();
    game.staff.push(make_assistant_manager());
    game.players[0].morale_core.manager_trust = 24;
    game.players[0].morale = 74;

    let report = delegate_renewals(
        &mut game,
        options(Some(vec!["player-1"]), None),
        &vec![player_facts()],
        &vec![no_staff_facts()],
        |_game: &Game, _team: &Team, _current: u32, _agreed: u32| true,
    )
    .expect("assistant delegation should return a report");

    assert_eq!(report.success_count, 1);
    assert_eq!(report.failure_count, 0);
    assert_eq!(report.stalled_count, 0);
    assert_eq!(report.cases.len(), 1);
    assert_eq!(report.cases[0].player_id, "player-1");
    assert_eq!(report.cases[0].status, DelegatedRenewalResultStatus::Successful);

    let player = game.players.iter().find(|player| player.id == "player-1").unwrap();
    assert_eq!(player.contract_end.as_deref(), Some("2029-08-01"));
    assert!(player.wage >= 14_000);

    let report_message = game
        .messages
        .iter()
        .find(|message| message.id.starts_with("delegated_renewals_"))
        .expect("assistant delegation should create an inbox report");
    assert_eq!(report_message.subject_key.as_deref(), Some("be.msg.delegatedRenewals.subject"));
    assert_eq!(report_message.body_key.as_deref(), Some("be.msg.delegatedRenewals.body"));
    assert_eq!(report_message.sender_key.as_deref(), Some("be.sender.assistantManager"));
    let structured_report = report_message
        .context
        .delegated_renewal_report
        .as_ref()
        .expect("assistant report should carry structured i18n-safe case data");
    assert_eq!(structured_report.success_count, 1);
    assert_eq!(structured_report.cases.len(), 1);
    assert_eq!(structured_report.cases[0].status, "successful");
}

#[test]
fn delegated_player_renewal_records_the_agreement() {
    let mut game = make_game();
    game.staff.push(make_assistant_manager());
    game.players[0].morale_core.manager_trust = 24;
    game.players[0].morale = 74;
    let report = delegate_renewals(
        &mut game,
        options(Some(vec!["player-1"]), None),
        &vec![player_facts()],
        &vec![no_staff_facts()],
        |_game: &Game, _team: &Team, _current: u32, _agreed: u32| true,
    )
    .unwrap();
    assert_eq!(report.cases[0].agreed_wage, Some(14_000));
    assert_eq!(report.cases[0].agreed_years, Some(3));
    assert_eq!(report.cases[0].note, "I was able to close this one without needing you to step in.");
    assert_eq!(report.cases[0].note_key.as_deref(), Some("be.msg.delegatedRenewals.notes.completed"));
    let st = game.players[0].morale_core.renewal_state.clone().unwrap();
    assert_eq!(st.status, RenewalSessionStatus::Agreed);
    assert_eq!(st.last_outcome, Some(RenewalSessionOutcome::AcceptedByAssistant));
    assert_eq!(st.last_assistant_attempt_date.as_deref(), Some("2026-08-01"));
    assert_eq!(st.conversation_round, 0);
    let message = &game.messages[0];
    assert_eq!(message.id, "delegated_renewals_2026-08-01_0");
    assert_eq!(message.body, "Boss, I went through our renewal list at Alpha FC. 1 completed, 0 still pending, 0 failed.");
    assert_eq!(message.subject, "Assistant Report \u{2014} Contract Renewals");
    assert_eq!(message.category, MessageCategory::Contract);
    assert_eq!(message.priority, MessagePriority::High);
    assert_eq!(message.i18n_params.get("successes"), Some("1".to_string()));
    assert_eq!(message.i18n_params.get("team"), Some("Alpha FC".to_string()));
    assert_eq!(message.context.team_id.as_deref(), Some("team-1"));
}

#[test]
fn board_refusal_stalls_a_delegated_renewal() {
    let mut game = make_game();
    game.staff.push(make_assistant_manager());
    game.players[0].morale = 74;
    let report = delegate_renewals(
        &mut game,
        options(Some(vec!["player-1"]), None),
        &vec![player_facts()],
        &vec![no_staff_facts()],
        |_game: &Game, _team: &Team, _current: u32, _agreed: u32| false,
    )
    .unwrap();
    assert_eq!(report.stalled_count, 1);
    assert_eq!(report.cases[0].status, DelegatedRenewalResultStatus::Stalled);
    assert_eq!(report.cases[0].note_key.as_deref(), Some("be.msg.delegatedRenewals.notes.boardWagePolicy"));
    assert_eq!(report.cases[0].note_params.get("budget"), Some("50000".to_string()));
    assert_eq!(game.players[0].wage, 12_000);
    assert_eq!(game.players[0].contract_end.as_deref(), Some("2026-10-15"));
    assert_eq!(game.players[0].morale_core.renewal_state.clone().unwrap().status, RenewalSessionStatus::Stalled);
}

#[test]
fn delegation_needs_an_assistant_manager() {
    let mut game = make_game();
    let err = delegate_renewals(
        &mut game,
        options(None, None),
        &vec![player_facts()],
        &vec![],
        |_game: &Game, _team: &Team, _current: u32, _agreed: u32| true,
    )
    .unwrap_err();
    assert_eq!(err, "No assistant manager assigned to your team");
    assert!(game.messages.is_empty());

    let mut game = make_game();
    game.manager_team_id = None;
    let err = delegate_renewals(&mut game, options(None, None), &vec![player_facts()], &vec![], |_g: &Game, _t: &Team, _c: u32, _a: u32| true).unwrap_err();
    assert_eq!(err, "No team assigned");

    let mut game = make_game();
    game.manager_team_id = Some("team-9".to_string());
    let err = delegate_renewals(&mut game, options(None, None), &vec![player_facts()], &vec![], |_g: &Game, _t: &Team, _c: u32, _a: u32| true).unwrap_err();
    assert_eq!(err, "Manager team not found");
}

#[test]
fn delegated_renewal_past_the_last_date_fails() {
    let mut game = make_game();
    game.current_date = Date::from_ymd(262142, 6, 1).unwrap();
    game.staff.push(make_assistant_manager());
    let err = delegate_renewals(
        &mut game,
        options(Some(vec!["player-1"]), None),
        &vec![player_facts()],
        &vec![no_staff_facts()],
        |_game: &Game, _team: &Team, _current: u32, _agreed: u32| true,
    )
    .unwrap_err();
    assert_eq!(err, "Unable to calculate delegated contract end date");
    assert!(game.messages.is_empty());
    assert_eq!(game.players[0].wage, 12_000);
    assert_eq!(game.players[0].contract_end.as_deref(), Some("2026-10-15"));
    assert!(game.players[0].morale_core.renewal_state.is_none());
}

#[test]
fn without_lists_the_assistant_handles_contracts_that_are_due() {
    let mut game = make_game();
    game.staff.push(make_assistant_manager());
    game.staff.push(make_coach());
    let mut later = make_player();
    later.id = "player-2".to_string();
    later.contract_end = Some("2029-06-30".to_string());
    game.players.push(later);
    let report = delegate_renewals(
        &mut game,
        options(None, None),
        &vec![player_facts(), PlayerRenewalFacts { warning_stage: None, ..player_facts() }],
        &vec![no_staff_facts(), StaffRenewalFacts { expected_wage: 13_000, warning_stage: Some(ContractWarningStage::ThreeMonths) }],
        |_game: &Game, _team: &Team, _current: u32, _agreed: u32| true,
    )
    .unwrap();
    assert_eq!(report.cases.len(), 2);
    assert_eq!(report.cases[0].player_id, "player-1");
    assert_eq!(report.cases[1].staff_id.as_deref(), Some("staff-2"));
    assert_eq!(report.cases[1].player_name, "Sam Coach");
    assert_eq!(report.cases[1].player_id, "");
    assert_eq!(game.players[1].wage, 12_000);
    assert_eq!(report.success_count + report.failure_count + report.stalled_count, 2);
    assert_eq!(game.messages.len(), 1);
}

#[test]
fn nobody_to_approach_means_no_report_message() {
    let mut game = make_game();
    game.staff.push(make_assistant_manager());
    let report = delegate_renewals(
        &mut game,
        options(Some(vec!["player-9"]), None),
        &vec![player_facts()],
        &vec![no_staff_facts()],
        |_game: &Game, _team: &Team, _current: u32, _agreed: u32| true,
    )
    .unwrap();
    assert!(report.cases.is_empty());
    assert!(game.messages.is_empty());
}

#[test]
fn delegation_scores_weigh_assistant_and_person() {
    let assistant = make_assistant_manager();
    let mut player = make_player();
    player.morale_core.manager_trust = 24;
    player.morale = 74;
    assert_eq!(assistant_delegation_score(&assistant, &player, Some(ContractWarningStage::ThreeMonths)), 136);
    player.market_value = 2_500_000;
    player.morale_core.unresolved_issue = Some(UnresolvedIssue { severity: 41 });
    assert_eq!(assistant_delegation_score(&assistant, &player, None), 77 + 8 + 37 + 2 - 22 - 20);
    let coach = make_coach();
    assert_eq!(assistant_delegation_score_staff(&assistant, &coach, Some(ContractWarningStage::FinalWeeks)), 77 + 20 + 40 + 18);
    let mut star = make_coach();
    star.attributes = StaffAttributes { coaching: 80, judging_ability: 80, judging_potential: 80, physiotherapy: 80 };
    assert_eq!(assistant_delegation_score_staff(&assistant, &star, Some(ContractWarningStage::TwelveMonths)), 77 + 20 + 40 + 6 - 20);
}

#[test]
fn delegation_decisions_follow_limits_and_score() {
    let o = options(None, None);
    assert_eq!(delegation_limits(12_000, &o), (17_000, 3));
    assert_eq!(decide_delegated_renewal(true, 14_000, 3, 12_000, &o, 200), DelegatedDecision::ManagerBlocked);
    assert_eq!(decide_delegated_renewal(false, 18_000, 3, 12_000, &o, 200), DelegatedDecision::BeyondLimits);
    assert_eq!(decide_delegated_renewal(false, 14_000, 4, 12_000, &o, 200), DelegatedDecision::BeyondLimits);
    assert_eq!(decide_delegated_renewal(false, 14_000, 3, 12_000, &o, 95), DelegatedDecision::ReadyToClose);
    assert_eq!(decide_delegated_renewal(false, 14_000, 3, 12_000, &o, 94), DelegatedDecision::PrefersManager);
    assert_eq!(decide_delegated_renewal(false, 14_000, 3, 12_000, &o, 72), DelegatedDecision::PrefersManager);
    assert_eq!(decide_delegated_renewal(false, 14_000, 3, 12_000, &o, 71), DelegatedDecision::RelationshipBlocked);
    let zero_years = DelegatedRenewalOptions { max_contract_years: 0, ..o.clone() };
    assert_eq!(delegation_limits(12_000, &zero_years).1, 1);
}

#[test]
fn delegated_notes_name_the_demands() {
    let beyond = delegated_case(DelegatedDecision::BeyondLimits, "player-1".to_string(), "J. Smith".to_string(), None, 14_000, 3, 14_000, 3, 50_000);
    assert_eq!(beyond.status, DelegatedRenewalResultStatus::Stalled);
    assert_eq!(beyond.note, "Their camp want around \u{20ac}14000/wk for 3 years, which is beyond the delegation limits.");
    assert_eq!(beyond.note_params.get("wage"), Some("14000".to_string()));
    assert_eq!(beyond.note_params.get("years"), Some("3".to_string()));
    assert_eq!(beyond.agreed_wage, None);

    let prefers = delegated_case(DelegatedDecision::PrefersManager, "player-1".to_string(), "J. Smith".to_string(), None, 14_000, 3, 14_000, 3, 50_000);
    assert_eq!(prefers.note, "They would listen, but they still want about \u{20ac}14000/wk for 3 years and prefer to hear from you directly.");
    assert_eq!(prefers.note_key.as_deref(), Some("be.msg.delegatedRenewals.notes.prefersManager"));

    let blocked = delegated_case(DelegatedDecision::ManagerBlocked, String::new(), "Sam Coach".to_string(), Some("staff-2".to_string()), 0, 0, 0, 0, 50_000);
    assert_eq!(blocked.status, DelegatedRenewalResultStatus::Failed);
    assert_eq!(blocked.note, "You told me not to reopen contract talks yet.");
    assert_eq!(blocked.note_params.len(), 0);

    let refused = delegated_case(DelegatedDecision::RelationshipBlocked, String::new(), "Sam Coach".to_string(), None, 0, 0, 0, 0, -5);
    assert_eq!(refused.status, DelegatedRenewalResultStatus::Failed);
    assert_eq!(refused.note_key.as_deref(), Some("be.msg.delegatedRenewals.notes.relationshipBlocked"));

    let board = delegated_case(DelegatedDecision::BoardRefused, String::new(), String::new(), None, 0, 0, 0, 0, -5);
    assert_eq!(board.note_params.get("budget"), Some("-5".to_string()));
}

#[test]
fn note_params_keep_the_last_value_of_a_name() {
    let params = delegated_note_params(&[("wage", "1".to_string()), ("years", "2".to_string()), ("wage", "3".to_string())]);
    assert_eq!(params.len(), 2);
    assert_eq!(params.get("wage"), Some("3".to_string()));
    assert_eq!(params.get("years"), Some("2".to_string()));
}

#[test]
fn report_message_counts_each_result() {
    let mut report = DelegatedRenewalReport::new();
    report.record(delegated_case(DelegatedDecision::Completed, "p1".to_string(), "A".to_string(), None, 1, 1, 1, 1, 0));
    report.record(delegated_case(DelegatedDecision::BeyondLimits, "p2".to_string(), "B".to_string(), None, 2, 2, 2, 2, 0));
    report.record(delegated_case(DelegatedDecision::PrefersManager, "p3".to_string(), "C".to_string(), None, 3, 3, 3, 3, 0));
    report.record(delegated_case(DelegatedDecision::ManagerBlocked, "p4".to_string(), "D".to_string(), None, 4, 4, 4, 4, 0));
    assert_eq!((report.success_count, report.stalled_count, report.failure_count), (1, 2, 1));
    let message = delegated_renewal_report_message(&"team-1".to_string(), &"Alpha FC".to_string(), &"2026-08-01".to_string(), &report, 7);
    assert_eq!(message.id, "delegated_renewals_2026-08-01_7");
    assert_eq!(message.body, "Boss, I went through our renewal list at Alpha FC. 1 completed, 2 still pending, 1 failed.");
    assert_eq!(message.sender, "Assistant Manager");
    assert_eq!(message.sender_role.as_deref(), Some("Assistant Manager"));
    assert_eq!(message.sender_role_key.as_deref(), Some("be.role.assistantManager"));
    assert_eq!(message.date, "2026-08-01");
    let data = message.context.delegated_renewal_report.unwrap();
    let statuses: Vec<&str> = data.cases.iter().map(|c| c.status.as_str()).collect();
    assert_eq!(statuses, vec!["successful", "stalled", "stalled", "failed"]);
    assert_eq!(data.cases[1].note_params.get("wage"), Some("2".to_string()));
    assert_eq!(message.i18n_params.get("stalled"), Some("2".to_string()));
    assert_eq!(message.i18n_params.get("failures"), Some("1".to_string()));
}

#[test]
fn delegated_staff_renewal_with_a_block_stays_closed() {
    let mut game = make_game();
    game.staff.push(make_assistant_manager());
    let mut coach = make_coach();
    coach.morale_core.renewal_state = Some(ContractRenewalState {
        status: RenewalSessionStatus::Blocked,
        manager_blocked_until: Some("2026-12-01".to_string()),
        last_attempt_date: None,
        last_assistant_attempt_date: None,
        last_outcome: None,
        conversation_round: 0,
    });
    game.staff.push(coach);
    let report = delegate_renewals(
        &mut game,
        options(Some(vec![]), Some(vec!["staff-2"])),
        &vec![player_facts()],
        &vec![no_staff_facts(), StaffRenewalFacts { expected_wage: 13_000, warning_stage: None }],
        |_game: &Game, _team: &Team, _current: u32, _agreed: u32| true,
    )
    .unwrap();
    assert_eq!(report.cases.len(), 1);
    assert_eq!(report.failure_count, 1);
    assert_eq!(report.cases[0].note_key.as_deref(), Some("be.msg.delegatedRenewals.notes.managerBlocked"));
    assert_eq!(game.staff[1].morale_core.renewal_state.clone().unwrap().status, RenewalSessionStatus::Blocked);
}

#[test]
fn any_raise_limit_is_accepted() {
    let mut game = make_game();
    game.staff.push(make_assistant_manager());
    let mut o = options(Some(vec![]), Some(vec![]));
    o.max_wage_increase_pct = u32::MAX;
    let report = delegate_renewals(
        &mut game,
        o,
        &vec![player_facts()],
        &vec![no_staff_facts()],
        |_game: &Game, _team: &Team, _current: u32, _agreed: u32| true,
    )
    .unwrap();
    assert!(report.cases.is_empty());
    assert!(game.messages.is_empty());
    let mut o = options(None, None);
    o.max_wage_increase_pct = u32::MAX;
    assert_eq!(delegation_limits(12_000, &o), (42_950_000, 3));
    assert_eq!(delegation_limits(0, &o), (0, 3));
}
