//! A minimal state-transition module: one bounded counter plus a per-actor
//! interaction ledger, gated by an access policy that distinguishes the
//! privileged root origin from ordinary signed actors. Every accepted
//! mutation appends exactly one event to an append-only log; a rejected
//! call leaves the whole state untouched.

pub mod origin;
pub mod pallet;
