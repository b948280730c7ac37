//! Messages for the manager's inbox.

use vstd::prelude::*;
use crate::params::NoteParams;

verus! {

#[derive(Clone, Copy, Debug, PartialEq, Eq, Structural)]
pub enum MessageCategory {
    General,
    Contract,
}

#[derive(Clone, Copy, Debug, PartialEq, Eq, Structural)]
pub enum MessagePriority {
    Normal,
    High,
}

/// One renewal as the inbox report lists it; `status` is `successful`,
/// `failed` or `stalled`.
#[derive(Debug)]
pub struct DelegatedRenewalCaseData {
    pub player_id: String,
    pub player_name: String,
    pub staff_id: Option<String>,
    pub status: String,
    pub agreed_wage: Option<u32>,
    pub agreed_years: Option<u32>,
    pub note_key: Option<String>,
    pub note_params: NoteParams,
}

/// The structured content of an assistant's renewal report.
#[derive(Debug)]
pub struct DelegatedRenewalReportData {
    pub success_count: usize,
    pub failure_count: usize,
    pub stalled_count: usize,
    pub cases: Vec<DelegatedRenewalCaseData>,
}

/// What a message is about.
#[derive(Debug)]
pub struct MessageContext {
    pub team_id: Option<String>,
    pub delegated_renewal_report: Option<DelegatedRenewalReportData>,
}

/// A message in the manager's inbox; the `_key` fields name texts to
/// translate, filled in with `i18n_params`.
#[derive(Debug)]
pub struct InboxMessage {
    pub id: String,
    pub subject: String,
    pub body: String,
    pub sender: String,
    pub date: String,
    pub category: MessageCategory,
    pub priority: MessagePriority,
    pub sender_role: Option<String>,
    pub subject_key: Option<String>,
    pub body_key: Option<String>,
    pub i18n_params: NoteParams,
    pub sender_key: Option<String>,
    pub sender_role_key: Option<String>,
    pub context: MessageContext,
}

} // verus!
