//! The people whose contracts the library handles: staff members, players and
//! clubs, with the state of an open renewal conversation.

use vstd::prelude::*;

verus! {

#[derive(Clone, Copy, Debug, PartialEq, Eq, Structural)]
pub enum StaffRole {
    AssistantManager,
    Coach,
    Scout,
    Physio,
}

#[derive(Clone, Copy, Debug, PartialEq, Eq)]
pub struct StaffAttributes {
    pub coaching: u8,
    pub judging_ability: u8,
    pub judging_potential: u8,
    pub physiotherapy: u8,
}

/// Where a renewal conversation stands.
#[derive(Clone, Copy, Debug, PartialEq, Eq, Structural)]
pub enum RenewalSessionStatus {
    Idle,
    Open,
    Stalled,
    Blocked,
    Agreed,
}

/// How the last renewal attempt ended.
#[derive(Clone, Copy, Debug, PartialEq, Eq, Structural)]
pub enum RenewalSessionOutcome {
    AcceptedByManager,
    AcceptedByAssistant,
    RejectedByPlayer,
    Stalled,
}

/// The memory of a renewal conversation; dates are written `%Y-%m-%d`.
#[derive(Clone, Debug, PartialEq, Eq)]
pub struct ContractRenewalState {
    pub status: RenewalSessionStatus,
    pub manager_blocked_until: Option<String>,
    pub last_attempt_date: Option<String>,
    pub last_assistant_attempt_date: Option<String>,
    pub last_outcome: Option<RenewalSessionOutcome>,
    pub conversation_round: u8,
}

impl ContractRenewalState {
    /// A conversation that has not started: idle, round 0, nothing recorded.
    pub open spec fn is_fresh(self) -> bool {
        &&& self.status == RenewalSessionStatus::Idle
        &&& self.manager_blocked_until is None
        &&& self.last_attempt_date is None
        &&& self.last_assistant_attempt_date is None
        &&& self.last_outcome is None
        &&& self.conversation_round == 0
    }

    /// A conversation that has not started.
    pub fn fresh() -> (r: ContractRenewalState)
        ensures
            r.is_fresh(),
    {
        ContractRenewalState {
            status: RenewalSessionStatus::Idle,
            manager_blocked_until: None,
            last_attempt_date: None,
            last_assistant_attempt_date: None,
            last_outcome: None,
            conversation_round: 0,
        }
    }
}

impl Default for ContractRenewalState {
    fn default() -> (r: ContractRenewalState)
        ensures
            r.is_fresh(),
    {
        ContractRenewalState::fresh()
    }
}

/// A grievance that weighs on a person's willingness to sign.
#[derive(Clone, Copy, Debug, PartialEq, Eq)]
pub struct UnresolvedIssue {
    pub severity: u8,
}

#[derive(Clone, Debug, PartialEq, Eq)]
pub struct MoraleCore {
    pub manager_trust: u8,
    pub renewal_state: Option<ContractRenewalState>,
    pub unresolved_issue: Option<UnresolvedIssue>,
}

/// A member of a club's staff; the wage is annual, dates are written `%Y-%m-%d`.
#[derive(Clone, Debug, PartialEq, Eq)]
pub struct Staff {
    pub id: String,
    pub first_name: String,
    pub last_name: String,
    pub date_of_birth: String,
    pub role: StaffRole,
    pub attributes: StaffAttributes,
    pub team_id: Option<String>,
    pub contract_end: Option<String>,
    pub wage: u32,
    pub morale: u8,
    pub morale_core: MoraleCore,
}

/// What the assistant manager reads of a player when renewing on the
/// manager's behalf.
#[derive(Clone, Debug, PartialEq, Eq)]
pub struct Player {
    pub id: String,
    pub match_name: String,
    pub team_id: Option<String>,
    pub contract_end: Option<String>,
    pub wage: u32,
    pub morale: u8,
    pub market_value: u64,
    pub morale_core: MoraleCore,
}

/// A club.
#[derive(Clone, Debug, PartialEq, Eq)]
pub struct Team {
    pub id: String,
    pub name: String,
    pub reputation: u32,
    pub wage_budget: i64,
    pub finance: i64,
}

} // verus!
