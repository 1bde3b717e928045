// Reservation-and-settlement engine for a peer-to-peer escrow marketplace.
//
// An order commits one party's trade intent; tickets reserve independent
// slices of its capacity, each resolved by a two-party signature protocol that
// releases custody through a fee split, or unwound by role-gated cancellation
// or an operator override. The engine is pure: the platform hands it plain
// record values and facts about token accounts, and it hands back the new
// record values and the custody transfers and record destructions to perform,
// all checks already made.

pub mod accept_offer_and_lock;
pub mod accept_ticket;
pub mod actions;
pub mod admin_resolve_order;
pub mod admin_resolve_ticket;
pub mod auto_close;
pub mod cancel_order;
pub mod cancel_ticket;
pub mod close_order;
pub mod constants;
pub mod create_order;
pub mod errors;
pub mod fees;
pub mod laws;
pub mod ledger;
pub mod sign_ticket;
pub mod state;
pub mod types;
