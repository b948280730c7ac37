//! The part of a saved game that contract handling reads and changes.

use vstd::prelude::*;
use crate::dates::Date;
use crate::messages::InboxMessage;
use crate::staff::{Player, Staff, Team};

verus! {

/// A scouting trip that a scout (a member of staff) is on.
#[derive(Clone, Debug, PartialEq, Eq)]
pub struct ScoutingAssignment {
    pub id: String,
    pub scout_id: String,
    pub player_id: String,
}

pub struct Game {
    /// The club that the manager runs, if any.
    pub manager_team_id: Option<String>,
    /// Today's date in the game.
    pub current_date: Date,
    pub teams: Vec<Team>,
    pub staff: Vec<Staff>,
    pub players: Vec<Player>,
    pub scouting_assignments: Vec<ScoutingAssignment>,
    pub messages: Vec<InboxMessage>,
}

/// The first club in `teams` with the id `id`.
pub open spec fn first_team_with_id(teams: Seq<Team>, id: Seq<char>) -> Option<int> {
    if exists|i: int| 0 <= i < teams.len() && teams[i].id@ == id {
        Some(choose|i: int| 0 <= i < teams.len() && teams[i].id@ == id
            && forall|j: int| 0 <= j < i ==> teams[j].id@ != id)
    } else {
        None
    }
}

/// The first member in `staff` with the id `id`.
pub open spec fn first_staff_with_id(staff: Seq<Staff>, id: Seq<char>) -> Option<int> {
    if exists|i: int| 0 <= i < staff.len() && staff[i].id@ == id {
        Some(choose|i: int| 0 <= i < staff.len() && staff[i].id@ == id
            && forall|j: int| 0 <= j < i ==> staff[j].id@ != id)
    } else {
        None
    }
}

/// The index of the first club with the id `id`.
pub fn find_team(teams: &Vec<Team>, id: &String) -> (r: Option<usize>)
    ensures
        match r {
            Some(i) => i < teams.len() && first_team_with_id(teams@, id@) == Some(i as int),
            None => first_team_with_id(teams@, id@) is None,
        },
{
    let mut i: usize = 0;
    while i < teams.len()
        invariant
            i <= teams.len(),
            forall|j: int| 0 <= j < i ==> teams@[j].id@ != id@,
        decreases teams.len() - i,
    {
        if teams[i].id == *id {
            let ghost k = i as int;
            assert(0 <= k < teams@.len() && teams@[k].id@ == id@ && forall|j: int| 0 <= j < k ==> teams@[j].id@ != id@);
            let ghost c = first_team_with_id(teams@, id@)->0;
            assert(c == k) by {
                if c < k {
                    assert(teams@[c].id@ != id@);
                } else if c > k {
                    assert(teams@[k].id@ != id@);
                }
            }
            return Some(i);
        }
        i += 1;
    }
    None
}

/// The index of the first member of staff with the id `id`.
pub fn find_staff(staff: &Vec<Staff>, id: &String) -> (r: Option<usize>)
    ensures
        match r {
            Some(i) => i < staff.len() && first_staff_with_id(staff@, id@) == Some(i as int),
            None => first_staff_with_id(staff@, id@) is None,
        },
{
    let mut i: usize = 0;
    while i < staff.len()
        invariant
            i <= staff.len(),
            forall|j: int| 0 <= j < i ==> staff@[j].id@ != id@,
        decreases staff.len() - i,
    {
        if staff[i].id == *id {
            let ghost k = i as int;
            assert(0 <= k < staff@.len() && staff@[k].id@ == id@ && forall|j: int| 0 <= j < k ==> staff@[j].id@ != id@);
            let ghost c = first_staff_with_id(staff@, id@)->0;
            assert(c == k) by {
                if c < k {
                    assert(staff@[c].id@ != id@);
                } else if c > k {
                    assert(staff@[k].id@ != id@);
                }
            }
            return Some(i);
        }
        i += 1;
    }
    None
}

} // verus!
