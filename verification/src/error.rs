//! Why a call is refused.
//!
//! A refusal is either a typed error, which a caller racing the clock is
//! expected to meet and to branch on, or an abort, which marks misuse or a
//! guard that a sound configuration never trips. Either way the call leaves
//! the campaign exactly as it found it.

use vstd::prelude::*;

verus! {

/// The typed, recoverable errors of a campaign.
#[derive(Clone, Copy, Debug, PartialEq, Eq, Structural, PartialOrd, Ord, Hash)]
pub enum ContractError {
    /// The campaign record exists already.
    AlreadyInitialized,
    /// The deadline has passed: no contribution is taken any more.
    CampaignEnded,
    /// The deadline has not passed yet: nothing is paid out or given back.
    CampaignStillActive,
    /// The deadline has passed and the goal was missed: there is no payout.
    GoalNotReached,
    /// The deadline has passed and the goal was met: there is no refund.
    GoalReached,
}

impl ContractError {
    /// The number under which the host reports this error.
    pub open spec fn spec_code(self) -> u32 {
        match self {
            ContractError::AlreadyInitialized => 1,
            ContractError::CampaignEnded => 2,
            ContractError::CampaignStillActive => 3,
            ContractError::GoalNotReached => 4,
            ContractError::GoalReached => 5,
        }
    }

    /// The number under which the host reports this error.
    #[verifier::when_used_as_spec(spec_code)]
    pub fn code(self) -> (code: u32)
        ensures
            code == self.spec_code(),
    {
        match self {
            ContractError::AlreadyInitialized => 1,
            ContractError::CampaignEnded => 2,
            ContractError::CampaignStillActive => 3,
            ContractError::GoalNotReached => 4,
            ContractError::GoalReached => 5,
        }
    }
}

impl ContractError {
    /// A short description for the one who made the call.
    pub fn message(self) -> (text: &'static str)
        ensures
            text@ == self.spec_message(),
    {
        match self {
            ContractError::AlreadyInitialized => "already initialized",
            ContractError::CampaignEnded => "campaign has ended",
            ContractError::CampaignStillActive => "campaign is still active",
            ContractError::GoalNotReached => "goal not reached",
            ContractError::GoalReached => "goal was reached; use withdraw instead",
        }
    }

    /// The text of [`ContractError::message`].
    pub open spec fn spec_message(self) -> Seq<char> {
        match self {
            ContractError::AlreadyInitialized => "already initialized"@,
            ContractError::CampaignEnded => "campaign has ended"@,
            ContractError::CampaignStillActive => "campaign is still active"@,
            ContractError::GoalNotReached => "goal not reached"@,
            ContractError::GoalReached => "goal was reached; use withdraw instead"@,
        }
    }
}

/// The fatal refusals: the whole call is void and nothing is recorded.
#[derive(Clone, Copy, Debug, PartialEq, Eq, Structural, Hash)]
pub enum Abort {
    /// No campaign has been set up yet.
    NotInitialized,
    /// The party named in the call is not the campaign's creator.
    NotCreator,
    /// The party whose consent the call needs has not given it.
    Unauthorized,
    /// The campaign has left the active state.
    NotActive,
    /// The amount is below the campaign's minimum contribution.
    BelowMinimum,
    /// The amount is negative, which no transfer can move.
    NegativeAmount,
    /// The platform fee is above 10000 basis points.
    FeeTooHigh,
    /// A sum, a product or a count does not fit its machine type.
    Overflow,
    /// The date of a roadmap entry is not after the current time.
    DateNotInFuture,
    /// The text of a roadmap entry is empty.
    EmptyDescription,
}

impl Abort {
    /// A short description for the one who made the call.
    pub fn message(self) -> (text: &'static str)
        ensures
            text@ == self.spec_message(),
    {
        match self {
            Abort::NotInitialized => "campaign is not initialized",
            Abort::NotCreator => "not authorized",
            Abort::Unauthorized => "authorization missing",
            Abort::NotActive => "campaign is not active",
            Abort::BelowMinimum => "amount below minimum",
            Abort::NegativeAmount => "negative amount is not allowed",
            Abort::FeeTooHigh => "platform fee cannot exceed 100%",
            Abort::Overflow => "arithmetic overflow",
            Abort::DateNotInFuture => "date must be in the future",
            Abort::EmptyDescription => "description cannot be empty",
        }
    }

    /// The text of [`Abort::message`].
    pub open spec fn spec_message(self) -> Seq<char> {
        match self {
            Abort::NotInitialized => "campaign is not initialized"@,
            Abort::NotCreator => "not authorized"@,
            Abort::Unauthorized => "authorization missing"@,
            Abort::NotActive => "campaign is not active"@,
            Abort::BelowMinimum => "amount below minimum"@,
            Abort::NegativeAmount => "negative amount is not allowed"@,
            Abort::FeeTooHigh => "platform fee cannot exceed 100%"@,
            Abort::Overflow => "arithmetic overflow"@,
            Abort::DateNotInFuture => "date must be in the future"@,
            Abort::EmptyDescription => "description cannot be empty"@,
        }
    }
}

/// Any refusal of a call.
#[derive(Clone, Copy, Debug, PartialEq, Eq, Structural, Hash)]
pub enum Error {
    /// A typed error: the caller may branch on it.
    Contract(ContractError),
    /// A fatal refusal.
    Abort(Abort),
}

impl Error {
    /// A short description for the one who made the call.
    pub fn message(self) -> (text: &'static str)
        ensures
            text@ == match self {
                Error::Contract(error) => error.spec_message(),
                Error::Abort(abort) => abort.spec_message(),
            },
    {
        match self {
            Error::Contract(error) => error.message(),
            Error::Abort(abort) => abort.message(),
        }
    }
}

} // verus!
