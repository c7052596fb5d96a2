//! Governance and treasury primitives for a share-weighted organization:
//! threshold voting, share ownership profiles, proportional fund
//! distribution, and the spend-proposal and dispute lifecycles built on top
//! of the vote state machine.

pub mod bank;
pub mod cast;
pub mod command;
pub mod court;
pub mod dto;
pub mod donate;
pub mod org;
pub mod share;
pub mod vote;
