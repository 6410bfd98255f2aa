//! The record of one campaign.

use crate::address::Address;
use crate::ledger::LedgerView;
use crate::types::{PlatformConfig, PlatformConfigView, RoadmapItem, RoadmapItemView, Status};
use vstd::prelude::*;

verus! {

/// The record of one campaign: its terms, what it holds, and where it stands.
#[derive(Debug, PartialEq, Eq)]
pub struct Campaign {
    /// The party that set the campaign up and receives the payout.
    pub creator: Address,
    /// The asset in which contributions are made.
    pub token: Address,
    /// The amount the campaign aims for.
    pub goal: i128,
    /// The last moment at which a contribution is taken.
    pub deadline: u64,
    /// The least amount that one contribution may bring.
    pub min_contribution: i128,
    /// The amount held for the campaign.
    pub total_raised: i128,
    /// Where the campaign stands in its life.
    pub status: Status,
    /// Who takes a fee on the payout, if anyone.
    pub platform_config: Option<PlatformConfig>,
    /// The contract that mints a receipt for each contributor, if any.
    pub nft_contract: Option<Address>,
    /// The roadmap, in the order in which its entries were added.
    pub roadmap: Vec<RoadmapItem>,
    /// The campaign's title.
    pub title: String,
    /// What the campaign is about.
    pub description: String,
    /// Where the campaign is found elsewhere.
    pub socials: String,
}

/// The mathematical content of a [`Campaign`].
pub struct CampaignView {
    pub creator: Seq<char>,
    pub token: Seq<char>,
    pub goal: int,
    pub deadline: u64,
    pub min_contribution: int,
    pub total_raised: int,
    pub status: Status,
    pub platform_config: Option<PlatformConfigView>,
    pub nft_contract: Option<Seq<char>>,
    pub roadmap: Seq<RoadmapItemView>,
    pub title: Seq<char>,
    pub description: Seq<char>,
    pub socials: Seq<char>,
}

/// The content of an optional platform configuration.
pub open spec fn config_view(config: Option<PlatformConfig>) -> Option<PlatformConfigView> {
    match config {
        Some(config) => Some(config@),
        None => None,
    }
}

/// The text of an optional address.
pub open spec fn address_view(address: Option<Address>) -> Option<Seq<char>> {
    match address {
        Some(address) => Some(address@),
        None => None,
    }
}

/// The content of an optional campaign record.
pub open spec fn campaign_view(campaign: Option<Campaign>) -> Option<CampaignView> {
    match campaign {
        Some(campaign) => Some(campaign@),
        None => None,
    }
}

/// The contents of a roadmap.
pub open spec fn roadmap_view(roadmap: Seq<RoadmapItem>) -> Seq<RoadmapItemView> {
    roadmap.map_values(|item: RoadmapItem| item@)
}

impl View for Campaign {
    type V = CampaignView;

    open spec fn view(&self) -> CampaignView {
        CampaignView {
            creator: self.creator@,
            token: self.token@,
            goal: self.goal as int,
            deadline: self.deadline,
            min_contribution: self.min_contribution as int,
            total_raised: self.total_raised as int,
            status: self.status,
            platform_config: config_view(self.platform_config),
            nft_contract: address_view(self.nft_contract),
            roadmap: roadmap_view(self.roadmap@),
            title: self.title@,
            description: self.description@,
            socials: self.socials@,
        }
    }
}

impl Clone for Campaign {
    fn clone(&self) -> (copy: Campaign)
        ensures
            copy@ == self@,
    {
        let roadmap = self.roadmap.clone();
        assert(roadmap@ =~= self.roadmap@);
        Campaign {
            creator: self.creator.clone(),
            token: self.token.clone(),
            goal: self.goal,
            deadline: self.deadline,
            min_contribution: self.min_contribution,
            total_raised: self.total_raised,
            status: self.status,
            platform_config: match &self.platform_config {
                Some(config) => Some(config.clone()),
                None => None,
            },
            nft_contract: match &self.nft_contract {
                Some(address) => Some(address.clone()),
                None => None,
            },
            roadmap,
            title: self.title.clone(),
            description: self.description.clone(),
            socials: self.socials.clone(),
        }
    }
}

impl CampaignView {
    /// What holds of every campaign next to its ledger `ledger`.
    ///
    /// The amount held is never negative and fits the machine type. While the
    /// campaign is active it is the sum of the ledger. Once the campaign is
    /// paid out or refunded nothing is held, and after the refunds every line
    /// of the ledger is at zero. A fee rate is at most 10000 basis points.
    pub open spec fn agrees_with(self, ledger: LedgerView) -> bool {
        &&& 0 <= self.total_raised <= i128::MAX
        &&& self.platform_config matches Some(config) ==> config.fee_bps <= 10_000
        &&& self.status == Status::Active ==> self.total_raised == ledger.total()
        &&& self.status == Status::Successful ==> self.total_raised == 0
        &&& self.status == Status::Refunded ==> self.total_raised == 0 && ledger.total() == 0
    }
}

} // verus!
