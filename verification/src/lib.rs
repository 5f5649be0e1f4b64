//! Retained, per-call-site state for immediate-mode user interfaces.
//!
//! An immediate-mode host re-runs its render function every pass, so the
//! render code itself holds no state.  This crate supplies the engine that
//! gives each stateful call site ("hook") a stable identity across passes,
//! stores its private backend under that identity, detects dependency
//! changes, and reclaims state once a call site stops being invoked:
//!
//! * [`two_frame_map`]: a map that retains entries for the current and the
//!   immediately preceding pass and runs deferred cleanup callbacks for
//!   entries that fall out of retention;
//! * [`ephemeral_map`]: a map cleared wholesale on every pass change;
//! * [`deps`]: type-erased, equality-comparable dependency tokens;
//! * [`indexer`]: sequential call-site indices, reset on every pass;
//! * [`dispatcher`]: the slot store driving the hook protocol;
//! * [`hook`]: the hook contract and the standard hooks (state, memo,
//!   effect, cleanup, and keyed collections).
//!
//! The engine is a plain value: the host owns it, passes it down the call
//! chain, and tells it the current pass number on every dispatch.  Sharing
//! it between widget subtrees, locking, and durable storage are the host's
//! business and stay outside this crate.

pub mod cleanup;
pub mod deps;
pub mod dispatcher;
pub mod ephemeral_map;
pub mod hook;
pub mod indexer;
pub mod two_frame_map;
