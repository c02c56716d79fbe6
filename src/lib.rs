//! Escrow for a two-party data exchange: a buyer pays, a provider delivers, and a
//! platform collects a fee and arbitrates disputes.
//!
//! The library decides every transition of an escrow record: which state may
//! follow which, who may ask for it, and which payments leave the custody
//! account. Moving tokens and reading the clock are left to the caller, who
//! reports back whether the payments went through.

pub mod types;
pub mod split;
pub mod lifecycle;
pub mod laws;

pub use types::{Pubkey, EscrowStatus, EscrowError, Escrow, Operation, Party, Payment};
pub use split::{platform_fee_of, split_amount};
pub use lifecycle::{
    escrow_seeds, same_key, payouts, apply, open_escrow, fund, create_escrow, mark_delivered,
    confirm_and_release, refund, cancel, raise_dispute, resolve_dispute,
};
