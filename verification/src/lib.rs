//! Progression core of an incremental evolution game.
//!
//! The engine is built from a bounded resource ledger ([`resource`]), a
//! progression-state record ([`evolution`]), a live catalog of purchasable
//! actions ([`action`]), the species record ([`race`]), a cooperative tick
//! scheduler ([`clockwork`]), and the top-level game state with the
//! purchase protocol and the periodic ticks ([`game`]).
//!
//! Resource quantities are fixed-point integers in thousandths of a whole
//! unit ([`resource::UNIT`]), so the quarter-second production tick —
//! a per-second rate applied over 250 ms — is exact integer arithmetic.
//!
//! Every public operation carries a contract over a mathematical view of
//! the state; the well-formedness invariant [`game::GameV::wf`] ties the
//! catalog to the tree (no duplicated entries, exclusive kingdom forks,
//! every reachable node's ancestors taken) and is preserved by every
//! transition. The only trusted boundary is the seeded random generator
//! ([`rng`]), consulted once, at the sentience transition.

pub mod action;
pub mod clockwork;
pub mod evolution;
pub mod game;
pub mod race;
pub mod resource;
pub mod rng;
