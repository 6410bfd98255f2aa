//! The campaign itself: its state, and the calls that move it.

use crate::action::{views, Action, ActionView, Event};
use crate::address::Address;
use crate::campaign::{address_view, campaign_view, config_view, roadmap_view, Campaign};
use crate::env::Env;
use crate::error::{Abort, ContractError, Error};
use crate::ledger::{lemma_cleared, lemma_credited, lines_view, texts, Ledger};
use crate::math::{average, checked_fee, mean, progress, progress_bps};
use crate::model::{mints, Call, ContractView};
use crate::types::{
    CampaignInfo, CampaignInfoView, CampaignStats, PlatformConfig, RoadmapItem, RoadmapItemView,
    Status,
};
use vstd::prelude::*;

verus! {

/// The version of the campaign's rules.
pub const CONTRACT_VERSION: u32 = 3;

/// One crowdfunding campaign with its escrow.
///
/// Contributors deposit an asset toward a goal until a deadline. After the
/// deadline the creator takes the funds if the goal was met; if it was
/// missed, each contributor takes their stake back.
///
/// The value holds the whole state. A call checks its inputs against the
/// state and the surroundings it is given, and either refuses, leaving the
/// state as it was, or moves the state and returns the steps that its host
/// has to carry out.
#[derive(Debug, PartialEq, Eq)]
pub struct CrowdfundContract {
    campaign: Option<Campaign>,
    ledger: Ledger,
}

impl View for CrowdfundContract {
    type V = ContractView;

    closed spec fn view(&self) -> ContractView {
        ContractView { campaign: campaign_view(self.campaign), ledger: self.ledger@ }
    }
}

impl Clone for CrowdfundContract {
    /// A copy of the state, such as a host keeps to fall back on when a step
    /// of a call fails.
    fn clone(&self) -> (copy: CrowdfundContract)
        ensures
            copy@ == self@,
    {
        CrowdfundContract {
            campaign: match &self.campaign {
                Some(campaign) => Some(campaign.clone()),
                None => None,
            },
            ledger: self.ledger.clone(),
        }
    }
}

impl CrowdfundContract {
    /// The state before a campaign is set up.
    pub fn new() -> (contract: CrowdfundContract)
        ensures
            contract@ == ContractView::blank(),
            contract@.wf(),
    {
        CrowdfundContract { campaign: None, ledger: Ledger::new() }
    }

    /// The state with the record `campaign` and the ledger lines `lines`, as
    /// a host keeps them between calls, if they make a state that calls can
    /// have left.
    pub fn restore(
        campaign: Option<Campaign>,
        lines: &Vec<(Address, i128)>,
    ) -> (contract: Option<CrowdfundContract>)
        ensures
            match contract {
                Some(contract) => {
                    &&& contract@ == (ContractView {
                        campaign: campaign_view(campaign),
                        ledger: lines_view(lines@),
                    })
                    &&& contract@.wf()
                },
                None => !(ContractView {
                    campaign: campaign_view(campaign),
                    ledger: lines_view(lines@),
                }).wf(),
            },
    {
        let ledger = match Ledger::from_lines(lines) {
            Some(ledger) => ledger,
            None => {
                return None;
            },
        };
        match &campaign {
            None => {
                if ledger.len() != 0 {
                    return None;
                }
            },
            Some(campaign) => {
                if campaign.total_raised < 0 {
                    return None;
                }
                match &campaign.platform_config {
                    Some(config) => {
                        if config.fee_bps > 10_000 {
                            return None;
                        }
                    },
                    None => {},
                }
                let total = ledger.total();
                match campaign.status {
                    Status::Active => {
                        if total != Some(campaign.total_raised) {
                            return None;
                        }
                    },
                    Status::Successful => {
                        if campaign.total_raised != 0 {
                            return None;
                        }
                    },
                    Status::Refunded => {
                        if campaign.total_raised != 0 || total != Some(0) {
                            return None;
                        }
                    },
                    Status::Cancelled => {},
                }
            },
        }
        Some(CrowdfundContract { campaign, ledger })
    }

    /// Sets the campaign up. This happens once: where a campaign exists the
    /// call fails with `AlreadyInitialized`, whatever else it brings.
    pub fn initialize(
        &mut self,
        env: &Env,
        creator: Address,
        token: Address,
        goal: i128,
        deadline: u64,
        min_contribution: i128,
        platform_config: Option<PlatformConfig>,
    ) -> (result: Result<(), Error>)
        requires
            old(self)@.wf(),
        ensures
            final(self)@.wf(),
            final(self)@ == old(self)@.step(
                Call::Initialize {
                    env: env@,
                    creator: creator@,
                    token: token@,
                    goal: goal as int,
                    deadline,
                    min_contribution: min_contribution as int,
                    platform_config: config_view(platform_config),
                },
            ),
            match result {
                Ok(()) => {
                    &&& old(self)@.initialize_refusal(env@, creator@, config_view(platform_config))
                        is None
                    &&& final(self)@ == old(self)@.initialized(
                        creator@,
                        token@,
                        goal as int,
                        deadline,
                        min_contribution as int,
                        config_view(platform_config),
                    )
                },
                Err(error) => {
                    &&& old(self)@.initialize_refusal(env@, creator@, config_view(platform_config))
                        == Some(error)
                    &&& *final(self) == *old(self)
                },
            },
    {
        if self.campaign.is_some() {
            return Err(Error::Contract(ContractError::AlreadyInitialized));
        }
        if !env.authorized(&creator) {
            return Err(Error::Abort(Abort::Unauthorized));
        }
        match &platform_config {
            Some(config) => {
                if config.fee_bps > 10_000 {
                    return Err(Error::Abort(Abort::FeeTooHigh));
                }
            },
            None => {},
        }
        let campaign = Campaign {
            creator,
            token,
            goal,
            deadline,
            min_contribution,
            total_raised: 0,
            status: Status::Active,
            platform_config,
            nft_contract: None,
            roadmap: Vec::new(),
            title: String::new(),
            description: String::new(),
            socials: String::new(),
        };
        assert(campaign@.roadmap =~= Seq::empty());
        self.campaign = Some(campaign);
        Ok(())
    }

    /// Pays the funds out to the creator, after the deadline and if the goal
    /// was met. A platform takes its fee first. Where a reward contract is
    /// set, a receipt is minted for each contributor whose amount is
    /// positive, in the order of first contribution.
    pub fn withdraw(&mut self, env: &Env) -> (result: Result<Vec<Action>, Error>)
        requires
            old(self)@.wf(),
        ensures
            final(self)@.wf(),
            final(self)@ == old(self)@.step(Call::Withdraw { env: env@ }),
            match result {
                Ok(actions) => {
                    &&& old(self)@.withdraw_refusal(env@) is None
                    &&& final(self)@ == old(self)@.withdrawn()
                    &&& views(actions@) == old(self)@.withdraw_actions()
                },
                Err(error) => {
                    &&& old(self)@.withdraw_refusal(env@) == Some(error)
                    &&& *final(self) == *old(self)
                },
            },
    {
        let campaign = match &self.campaign {
            Some(campaign) => campaign,
            None => {
                return Err(Error::Abort(Abort::NotInitialized));
            },
        };
        if campaign.status != Status::Active {
            return Err(Error::Abort(Abort::NotActive));
        }
        if !env.authorized(&campaign.creator) {
            return Err(Error::Abort(Abort::Unauthorized));
        }
        if env.timestamp() <= campaign.deadline {
            return Err(Error::Contract(ContractError::CampaignStillActive));
        }
        if campaign.total_raised < campaign.goal {
            return Err(Error::Contract(ContractError::GoalNotReached));
        }
        let total = campaign.total_raised;
        let mut actions: Vec<Action> = Vec::new();
        match &campaign.platform_config {
            Some(config) => {
                let fee = match checked_fee(total, config.fee_bps) {
                    Some(fee) => fee,
                    None => {
                        return Err(Error::Abort(Abort::Overflow));
                    },
                };
                proof {
                    crate::math::lemma_fee_bounds(total as int, config.fee_bps as int);
                }
                actions.push(
                    Action::Payment {
                        token: campaign.token.clone(),
                        to: config.address.clone(),
                        amount: fee,
                    },
                );
                actions.push(
                    Action::Publish {
                        event: Event::FeeTransferred {
                            recipient: config.address.clone(),
                            amount: fee,
                        },
                    },
                );
                actions.push(
                    Action::Payment {
                        token: campaign.token.clone(),
                        to: campaign.creator.clone(),
                        amount: total - fee,
                    },
                );
            },
            None => {
                actions.push(
                    Action::Payment {
                        token: campaign.token.clone(),
                        to: campaign.creator.clone(),
                        amount: total,
                    },
                );
            },
        }
        assert(views(actions@) =~= old(self)@.payout_actions());
        match &campaign.nft_contract {
            Some(nft_contract) => {
                let recipients = self.ledger.funded();
                push_mints(&mut actions, nft_contract, &recipients);
            },
            None => {},
        }
        assert(views(actions@) =~= old(self)@.payout_actions() + old(self)@.mint_actions());
        actions.push(
            Action::Publish { event: Event::Withdrawn { creator: campaign.creator.clone(), total } },
        );
        assert(views(actions@) =~= old(self)@.withdraw_actions());
        match &mut self.campaign {
            Some(campaign) => {
                campaign.total_raised = 0;
                campaign.status = Status::Successful;
            },
            None => {},
        }
        Ok(actions)
    }

    /// Names the contract that mints a receipt for each contributor when the
    /// campaign is paid out. Only the creator may do so, at any time; the
    /// last name given counts.
    pub fn set_nft_contract(
        &mut self,
        env: &Env,
        creator: &Address,
        nft_contract: Address,
    ) -> (result: Result<(), Abort>)
        requires
            old(self)@.wf(),
        ensures
            final(self)@.wf(),
            final(self)@ == old(self)@.step(
                Call::SetNftContract { env: env@, creator: creator@, nft_contract: nft_contract@ },
            ),
            match result {
                Ok(()) => {
                    &&& old(self)@.set_nft_contract_refusal(env@, creator@) is None
                    &&& final(self)@ == old(self)@.with_nft_contract(nft_contract@)
                },
                Err(abort) => {
                    &&& old(self)@.set_nft_contract_refusal(env@, creator@) == Some(abort)
                    &&& *final(self) == *old(self)
                },
            },
    {
        match &mut self.campaign {
            None => Err(Abort::NotInitialized),
            Some(campaign) => {
                if *creator != campaign.creator {
                    return Err(Abort::NotCreator);
                }
                if !env.authorized(creator) {
                    return Err(Abort::Unauthorized);
                }
                campaign.nft_contract = Some(nft_contract);
                Ok(())
            },
        }
    }

    /// Takes a contribution of `amount` from `contributor`, up to and
    /// including the deadline. The amount may take the total beyond the goal.
    pub fn contribute(
        &mut self,
        env: &Env,
        contributor: &Address,
        amount: i128,
    ) -> (result: Result<Vec<Action>, Error>)
        requires
            old(self)@.wf(),
        ensures
            final(self)@.wf(),
            final(self)@ == old(self)@.step(
                Call::Contribute { env: env@, contributor: contributor@, amount: amount as int },
            ),
            match result {
                Ok(actions) => {
                    &&& old(self)@.contribute_refusal(env@, contributor@, amount as int) is None
                    &&& final(self)@ == old(self)@.contributed(contributor@, amount as int)
                    &&& views(actions@) == old(self)@.contribute_actions(
                        contributor@,
                        amount as int,
                    )
                },
                Err(error) => {
                    &&& old(self)@.contribute_refusal(env@, contributor@, amount as int) == Some(
                        error,
                    )
                    &&& *final(self) == *old(self)
                },
            },
    {
        if !env.authorized(contributor) {
            return Err(Error::Abort(Abort::Unauthorized));
        }
        let campaign = match &self.campaign {
            Some(campaign) => campaign,
            None => {
                return Err(Error::Abort(Abort::NotInitialized));
            },
        };
        if campaign.status != Status::Active {
            return Err(Error::Abort(Abort::NotActive));
        }
        if amount < campaign.min_contribution {
            return Err(Error::Abort(Abort::BelowMinimum));
        }
        if env.timestamp() > campaign.deadline {
            return Err(Error::Contract(ContractError::CampaignEnded));
        }
        if amount < 0 {
            return Err(Error::Abort(Abort::NegativeAmount));
        }
        let total = match campaign.total_raised.checked_add(amount) {
            Some(total) => total,
            None => {
                return Err(Error::Abort(Abort::Overflow));
            },
        };
        if amount > 0 && !self.ledger.contains(contributor) && self.ledger.len() >= 0xffff_ffff {
            return Err(Error::Abort(Abort::Overflow));
        }
        let deposit = Action::Deposit {
            token: campaign.token.clone(),
            from: contributor.clone(),
            amount,
        };
        proof {
            lemma_credited(self.ledger@, contributor@, amount as int);
        }
        self.ledger.credit(contributor, amount);
        match &mut self.campaign {
            Some(campaign) => {
                campaign.total_raised = total;
            },
            None => {},
        }
        let mut actions: Vec<Action> = Vec::new();
        actions.push(deposit);
        assert(views(actions@) =~= old(self)@.contribute_actions(contributor@, amount as int));
        Ok(actions)
    }

    /// Gives `contributor` their stake back, after the deadline and if the
    /// goal was missed. A party with nothing recorded gets nothing, and the
    /// call succeeds all the same. The campaign is refunded once the last
    /// stake has gone back.
    pub fn refund_single(
        &mut self,
        env: &Env,
        contributor: &Address,
    ) -> (result: Result<Vec<Action>, Error>)
        requires
            old(self)@.wf(),
        ensures
            final(self)@.wf(),
            final(self)@ == old(self)@.step(
                Call::RefundSingle { env: env@, contributor: contributor@ },
            ),
            match result {
                Ok(actions) => {
                    &&& old(self)@.refund_refusal(env@, contributor@) is None
                    &&& final(self)@ == old(self)@.refunded(contributor@)
                    &&& views(actions@) == old(self)@.refund_actions(contributor@)
                },
                Err(error) => {
                    &&& old(self)@.refund_refusal(env@, contributor@) == Some(error)
                    &&& *final(self) == *old(self)
                },
            },
    {
        if !env.authorized(contributor) {
            return Err(Error::Abort(Abort::Unauthorized));
        }
        let campaign = match &self.campaign {
            Some(campaign) => campaign,
            None => {
                return Err(Error::Abort(Abort::NotInitialized));
            },
        };
        if campaign.status != Status::Active {
            return Err(Error::Abort(Abort::NotActive));
        }
        if env.timestamp() <= campaign.deadline {
            return Err(Error::Contract(ContractError::CampaignStillActive));
        }
        if campaign.total_raised >= campaign.goal {
            return Err(Error::Contract(ContractError::GoalReached));
        }
        let mut actions: Vec<Action> = Vec::new();
        let amount = self.ledger.amount_of(contributor);
        if amount == 0 {
            assert(views(actions@) =~= old(self)@.refund_actions(contributor@));
            return Ok(actions);
        }
        actions.push(
            Action::Payment { token: campaign.token.clone(), to: contributor.clone(), amount },
        );
        assert(views(actions@) =~= old(self)@.refund_actions(contributor@));
        proof {
            lemma_cleared(self.ledger@, contributor@);
        }
        self.ledger.clear(contributor);
        match &mut self.campaign {
            Some(campaign) => {
                campaign.total_raised = campaign.total_raised - amount;
                if campaign.total_raised == 0 {
                    campaign.status = Status::Refunded;
                }
            },
            None => {},
        }
        Ok(actions)
    }

    /// Adds an entry to the roadmap. Only the creator may do so. The date
    /// must lie in the future and the text must not be empty.
    pub fn add_roadmap_item(
        &mut self,
        env: &Env,
        date: u64,
        description: String,
    ) -> (result: Result<Vec<Action>, Abort>)
        requires
            old(self)@.wf(),
        ensures
            final(self)@.wf(),
            final(self)@ == old(self)@.step(
                Call::AddRoadmapItem { env: env@, date, description: description@ },
            ),
            match result {
                Ok(actions) => {
                    &&& old(self)@.roadmap_refusal(env@, date, description@) is None
                    &&& final(self)@ == old(self)@.with_roadmap_item(date, description@)
                    &&& views(actions@) == ContractView::roadmap_actions(date, description@)
                },
                Err(abort) => {
                    &&& old(self)@.roadmap_refusal(env@, date, description@) == Some(abort)
                    &&& *final(self) == *old(self)
                },
            },
    {
        match &mut self.campaign {
            None => Err(Abort::NotInitialized),
            Some(campaign) => {
                if !env.authorized(&campaign.creator) {
                    return Err(Abort::Unauthorized);
                }
                if date <= env.timestamp() {
                    return Err(Abort::DateNotInFuture);
                }
                if description.as_str().is_empty() {
                    return Err(Abort::EmptyDescription);
                }
                let ghost before = campaign.roadmap@;
                let item = RoadmapItem { date, description: description.clone() };
                campaign.roadmap.push(item);
                assert(roadmap_view(campaign.roadmap@) =~= roadmap_view(before).push(
                    RoadmapItemView { date, description: description@ },
                ));
                let mut actions: Vec<Action> = Vec::new();
                actions.push(Action::Publish { event: Event::RoadmapItemAdded { date, description } });
                assert(views(actions@) =~= ContractView::roadmap_actions(date, description@));
                Ok(actions)
            },
        }
    }

    /// Whether a campaign has been set up.
    pub fn is_initialized(&self) -> (yes: bool)
        ensures
            yes == (self@.campaign is Some),
    {
        self.campaign.is_some()
    }

    /// The campaign record, once a campaign has been set up.
    pub fn campaign(&self) -> (campaign: Option<&Campaign>)
        ensures
            match campaign {
                Some(campaign) => self@.campaign == Some(campaign@),
                None => self@.campaign is None,
            },
    {
        self.campaign.as_ref()
    }

    /// The roadmap, in the order in which its entries were added. Without a
    /// campaign it is empty.
    pub fn roadmap(&self) -> (roadmap: Vec<RoadmapItem>)
        ensures
            roadmap_view(roadmap@) == match self@.campaign {
                Some(campaign) => campaign.roadmap,
                None => Seq::empty(),
            },
    {
        let mut roadmap: Vec<RoadmapItem> = Vec::new();
        match &self.campaign {
            Some(campaign) => {
                let mut i: usize = 0;
                while i < campaign.roadmap.len()
                    invariant
                        i <= campaign.roadmap.len(),
                        roadmap@.len() == i,
                        forall|k: int| 0 <= k < i ==> (#[trigger] roadmap@[k]) == campaign.roadmap@[k],
                    decreases campaign.roadmap.len() - i,
                {
                    roadmap.push(campaign.roadmap[i].clone());
                    i += 1;
                }
                assert(roadmap_view(roadmap@) =~= campaign@.roadmap);
            },
            None => {
                assert(roadmap_view(roadmap@) =~= Seq::empty());
            },
        }
        roadmap
    }

    /// The amount held for the campaign: 0 without a campaign.
    pub fn total_raised(&self) -> (total: i128)
        ensures
            total == match self@.campaign {
                Some(campaign) => campaign.total_raised,
                None => 0,
            },
    {
        match &self.campaign {
            Some(campaign) => campaign.total_raised,
            None => 0,
        }
    }

    /// The amount the campaign aims for.
    pub fn goal(&self) -> (goal: i128)
        requires
            self@.campaign is Some,
        ensures
            goal == self@.campaign.unwrap().goal,
    {
        self.campaign.as_ref().unwrap().goal
    }

    /// The last moment at which a contribution is taken.
    pub fn deadline(&self) -> (deadline: u64)
        requires
            self@.campaign is Some,
        ensures
            deadline == self@.campaign.unwrap().deadline,
    {
        self.campaign.as_ref().unwrap().deadline
    }

    /// The amount recorded for `contributor`: 0 for a party that has not
    /// contributed.
    pub fn contribution(&self, contributor: &Address) -> (amount: i128)
        requires
            self@.wf(),
        ensures
            amount == self@.ledger.amount_of(contributor@),
    {
        self.ledger.amount_of(contributor)
    }

    /// The contributors, in the order in which they first contributed.
    pub fn contributors(&self) -> (list: Vec<Address>)
        ensures
            texts(list@) == self@.ledger.contributors(),
    {
        self.ledger.contributors()
    }

    /// The least amount that one contribution may bring.
    pub fn min_contribution(&self) -> (minimum: i128)
        requires
            self@.campaign is Some,
        ensures
            minimum == self@.campaign.unwrap().min_contribution,
    {
        self.campaign.as_ref().unwrap().min_contribution
    }

    /// The party that set the campaign up.
    pub fn creator(&self) -> (creator: Address)
        requires
            self@.campaign is Some,
        ensures
            creator@ == self@.campaign.unwrap().creator,
    {
        self.campaign.as_ref().unwrap().creator.clone()
    }

    /// The asset in which contributions are made.
    pub fn token(&self) -> (token: Address)
        requires
            self@.campaign is Some,
        ensures
            token@ == self@.campaign.unwrap().token,
    {
        self.campaign.as_ref().unwrap().token.clone()
    }

    /// The contract that mints the receipts, if one is named.
    pub fn nft_contract(&self) -> (nft_contract: Option<Address>)
        ensures
            address_view(nft_contract) == match self@.campaign {
                Some(campaign) => campaign.nft_contract,
                None => None,
            },
    {
        match &self.campaign {
            Some(campaign) => match &campaign.nft_contract {
                Some(address) => Some(address.clone()),
                None => None,
            },
            None => None,
        }
    }

    /// The terms of the campaign and what it holds.
    pub fn get_campaign_info(&self) -> (info: CampaignInfo)
        requires
            self@.campaign is Some,
        ensures
            info@ == (CampaignInfoView {
                creator: self@.campaign.unwrap().creator,
                token: self@.campaign.unwrap().token,
                goal: self@.campaign.unwrap().goal,
                deadline: self@.campaign.unwrap().deadline,
                total_raised: self@.campaign.unwrap().total_raised,
            }),
    {
        let campaign = self.campaign.as_ref().unwrap();
        CampaignInfo {
            creator: campaign.creator.clone(),
            token: campaign.token.clone(),
            goal: campaign.goal,
            deadline: campaign.deadline,
            total_raised: campaign.total_raised,
        }
    }

    /// Figures that sum up how the campaign is doing: what is held and aimed
    /// for, the progress toward the goal in basis points, the number of
    /// contributors, their average and their largest recorded amount.
    pub fn get_stats(&self) -> (stats: CampaignStats)
        requires
            self@.wf(),
            self@.campaign is Some,
        ensures
            stats.total_raised == self@.campaign.unwrap().total_raised,
            stats.goal == self@.campaign.unwrap().goal,
            stats.progress_bps == progress_bps(
                self@.campaign.unwrap().total_raised,
                self@.campaign.unwrap().goal,
            ),
            stats.contributor_count == self@.ledger.entries.len(),
            stats.average_contribution == average(
                self@.campaign.unwrap().total_raised,
                self@.ledger.entries.len() as int,
            ),
            self@.ledger.largest_is(stats.largest_contribution as int),
    {
        let campaign = self.campaign.as_ref().unwrap();
        let total_raised = campaign.total_raised;
        let goal = campaign.goal;
        let contributor_count = self.ledger.len() as u32;
        CampaignStats {
            total_raised,
            goal,
            progress_bps: progress(total_raised, goal),
            contributor_count,
            average_contribution: mean(total_raised, contributor_count),
            largest_contribution: self.ledger.largest(),
        }
    }

    /// The campaign's title: empty unless one is on record.
    pub fn title(&self) -> (title: String)
        ensures
            title@ == match self@.campaign {
                Some(campaign) => campaign.title,
                None => Seq::empty(),
            },
    {
        match &self.campaign {
            Some(campaign) => campaign.title.clone(),
            None => String::new(),
        }
    }

    /// What the campaign is about: empty unless a text is on record.
    pub fn description(&self) -> (description: String)
        ensures
            description@ == match self@.campaign {
                Some(campaign) => campaign.description,
                None => Seq::empty(),
            },
    {
        match &self.campaign {
            Some(campaign) => campaign.description.clone(),
            None => String::new(),
        }
    }

    /// Where the campaign is found elsewhere: empty unless links are on
    /// record.
    pub fn socials(&self) -> (socials: String)
        ensures
            socials@ == match self@.campaign {
                Some(campaign) => campaign.socials,
                None => Seq::empty(),
            },
    {
        match &self.campaign {
            Some(campaign) => campaign.socials.clone(),
            None => String::new(),
        }
    }

    /// The version of the campaign's rules.
    pub fn version(&self) -> (version: u32)
        ensures
            version == CONTRACT_VERSION,
    {
        CONTRACT_VERSION
    }
}

/// Appends one receipt from `nft_contract` for each of `recipients`, in
/// order.
fn push_mints(actions: &mut Vec<Action>, nft_contract: &Address, recipients: &Vec<Address>)
    ensures
        views(final(actions)@) == views(old(actions)@) + mints(nft_contract@, texts(recipients@)),
{
    let mut i: usize = 0;
    assert(views(actions@) =~= views(old(actions)@) + mints(
        nft_contract@,
        texts(recipients@).take(0),
    ));
    while i < recipients.len()
        invariant
            i <= recipients.len(),
            views(actions@) == views(old(actions)@) + mints(
                nft_contract@,
                texts(recipients@).take(i as int),
            ),
        decreases recipients.len() - i,
    {
        let ghost before = actions@;
        let action = Action::Mint { nft_contract: nft_contract.clone(), to: recipients[i].clone() };
        assert(action@ == ActionView::Mint { nft_contract: nft_contract@, to: recipients@[i as int]@ });
        actions.push(action);
        assert(views(actions@) =~= views(before).push(action@));
        assert(mints(nft_contract@, texts(recipients@).take(i + 1)) =~= mints(
            nft_contract@,
            texts(recipients@).take(i as int),
        ).push(action@));
        i += 1;
    }
    assert(texts(recipients@).take(i as int) =~= texts(recipients@));
}

} // verus!
