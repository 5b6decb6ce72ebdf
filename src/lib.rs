//! Verified core of a Monte Carlo retirement planner: seeded random streams,
//! withdrawal orders and spending rules, age schedules, sweep selection and
//! the goal solver's decisions.

pub mod rng;
pub mod schedule;
pub mod selection;
pub mod solver;
pub mod spending;
pub mod types;

pub use rng::{derive_seed, splitmix64};
pub use solver::GoalType;
pub use types::{PensionTaxMode, WithdrawalOrder, WithdrawalStrategy};
