//! The plain records of a campaign.

use crate::address::Address;
use vstd::prelude::*;

verus! {

/// Where a campaign stands in its life.
///
/// A campaign starts `Active`. The other three states are final: once one of
/// them is reached, no call moves funds any more.
#[derive(Clone, Copy, Debug, PartialEq, Eq, Structural, Hash)]
pub enum Status {
    /// Contributions, then a payout or refunds, are still possible.
    Active,
    /// The goal was met and the funds were paid out.
    Successful,
    /// The goal was missed and every stake was given back.
    Refunded,
    /// The campaign was called off.
    Cancelled,
}

/// One entry of the roadmap that the creator publishes.
#[derive(Debug, PartialEq, Eq)]
pub struct RoadmapItem {
    /// When the step is due, as a ledger timestamp.
    pub date: u64,
    /// What the step is.
    pub description: String,
}

/// The mathematical content of a [`RoadmapItem`].
pub struct RoadmapItemView {
    pub date: u64,
    pub description: Seq<char>,
}

impl View for RoadmapItem {
    type V = RoadmapItemView;

    open spec fn view(&self) -> RoadmapItemView {
        RoadmapItemView { date: self.date, description: self.description@ }
    }
}

impl Clone for RoadmapItem {
    fn clone(&self) -> (copy: RoadmapItem)
        ensures
            copy == *self,
    {
        RoadmapItem { date: self.date, description: self.description.clone() }
    }
}

/// Who takes a share of a successful payout, and how large a share.
#[derive(Debug, PartialEq, Eq)]
pub struct PlatformConfig {
    /// The party that receives the fee.
    pub address: Address,
    /// The fee rate in basis points, that is in 1/10000 of the amount raised.
    pub fee_bps: u32,
}

/// The mathematical content of a [`PlatformConfig`].
pub struct PlatformConfigView {
    pub address: Seq<char>,
    pub fee_bps: u32,
}

impl View for PlatformConfig {
    type V = PlatformConfigView;

    open spec fn view(&self) -> PlatformConfigView {
        PlatformConfigView { address: self.address@, fee_bps: self.fee_bps }
    }
}

impl Clone for PlatformConfig {
    fn clone(&self) -> (copy: PlatformConfig)
        ensures
            copy == *self,
    {
        PlatformConfig { address: self.address.clone(), fee_bps: self.fee_bps }
    }
}

/// Figures that sum up how a campaign is doing.
#[derive(Clone, Copy, Debug, PartialEq, Eq, Structural)]
pub struct CampaignStats {
    /// The amount held for the campaign.
    pub total_raised: i128,
    /// The amount the campaign aims for.
    pub goal: i128,
    /// How much of the goal is reached, in basis points, at most 10000.
    pub progress_bps: u32,
    /// How many parties have contributed.
    pub contributor_count: u32,
    /// The amount held divided by the number of contributors, rounded down.
    pub average_contribution: i128,
    /// The largest amount recorded for one contributor.
    pub largest_contribution: i128,
}

/// The terms of a campaign and what it holds.
#[derive(Debug, PartialEq, Eq)]
pub struct CampaignInfo {
    /// The party that set the campaign up and receives the payout.
    pub creator: Address,
    /// The asset in which contributions are made.
    pub token: Address,
    /// The amount the campaign aims for.
    pub goal: i128,
    /// The last moment at which a contribution is taken.
    pub deadline: u64,
    /// The amount held for the campaign.
    pub total_raised: i128,
}

impl Clone for CampaignInfo {
    fn clone(&self) -> (copy: CampaignInfo)
        ensures
            copy == *self,
    {
        CampaignInfo {
            creator: self.creator.clone(),
            token: self.token.clone(),
            goal: self.goal,
            deadline: self.deadline,
            total_raised: self.total_raised,
        }
    }
}

/// The mathematical content of a [`CampaignInfo`].
pub struct CampaignInfoView {
    pub creator: Seq<char>,
    pub token: Seq<char>,
    pub goal: int,
    pub deadline: u64,
    pub total_raised: int,
}

impl View for CampaignInfo {
    type V = CampaignInfoView;

    open spec fn view(&self) -> CampaignInfoView {
        CampaignInfoView {
            creator: self.creator@,
            token: self.token@,
            goal: self.goal as int,
            deadline: self.deadline,
            total_raised: self.total_raised as int,
        }
    }
}

} // verus!
