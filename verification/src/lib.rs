//! Staff contract logic of a football-management game: renewal talks with
//! staff members, severance and hiring terms, and the assistant manager's
//! delegated renewals.

pub mod text;
pub mod dates;
pub mod params;
pub mod staff;
pub mod contracts;
pub mod staff_ops;
pub mod staff_contracts;
pub mod game;
pub mod delegated_renewals;
pub mod messages;
pub mod laws;
