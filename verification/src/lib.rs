//! An escrow-backed crowdfunding campaign as a verified state machine.
//!
//! Contributors deposit an asset toward a goal until a deadline. The funds
//! go to the creator only if the goal is met; if it is missed, each
//! contributor takes their stake back.
//!
//! [`CrowdfundContract`] holds the state and offers the calls. A call is
//! given its surroundings as an [`Env`] and answers with the [`Action`]s that
//! its host has to carry out, or with the reason for which it refuses.
//! [`model`] says for every call what it does, over mathematical values, and
//! [`laws`] holds what follows for every state and every order of calls.

pub mod action;
pub mod address;
pub mod campaign;
pub mod contract;
pub mod env;
pub mod error;
pub mod laws;
pub mod ledger;
pub mod math;
pub mod model;
pub mod types;

pub use action::{Action, Event};
pub use address::Address;
pub use campaign::Campaign;
pub use contract::{CrowdfundContract, CONTRACT_VERSION};
pub use env::Env;
pub use error::{Abort, ContractError, Error};
pub use ledger::Ledger;
pub use types::{CampaignInfo, CampaignStats, PlatformConfig, RoadmapItem, Status};
