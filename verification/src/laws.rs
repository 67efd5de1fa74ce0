//! What holds of the library as a whole.
pub mod access;
pub mod ballots;
pub mod book;
pub mod changes;
pub mod custody;
pub mod faults;
pub mod haircut;
pub mod instructions;
pub mod layout;
pub mod milestones;
pub mod places;
pub mod records;
pub mod shows;
pub mod sums;
pub mod supply;
pub mod terms;
pub mod weight;
