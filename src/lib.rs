//! Fee routing for a vault: a claimed quote-asset amount is split between investors, weighted
//! by what they still have locked, and a creator, page by page within rolling 24-hour windows.
//! Shares are floor-rounded fixed-point amounts; shares below a minimum payout are carried as
//! dust; a progress ledger gates the windows and makes repeated calls safe.

pub mod constants;
pub mod creator_distribution;
pub mod distribute_fees;
pub mod error;
pub mod events;
pub mod fee_claiming;
pub mod initialize_honorary_position;
pub mod investor_distribution;
pub mod key;
pub mod math;
pub mod pda;
pub mod policy;
pub mod progress;
pub mod streamflow;
pub mod validation;
