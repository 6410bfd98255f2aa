//! The campaign as a state machine over mathematical values: for each call,
//! on which inputs it is refused and why, and otherwise the state it leaves
//! and the steps it asks of its host.

use crate::action::{ActionView, EventView};
use crate::campaign::CampaignView;
use crate::env::EnvView;
use crate::error::{Abort, ContractError, Error};
use crate::ledger::LedgerView;
use crate::math::fee;
use crate::types::{PlatformConfigView, RoadmapItemView, Status};
use vstd::prelude::*;

verus! {

/// One receipt from `nft_contract` for each of `recipients`, in order.
pub open spec fn mints(nft_contract: Seq<char>, recipients: Seq<Seq<char>>) -> Seq<ActionView> {
    recipients.map_values(|to: Seq<char>| ActionView::Mint { nft_contract, to })
}

/// The whole state: the campaign record, absent until the campaign is set
/// up, and the contribution ledger.
pub struct ContractView {
    pub campaign: Option<CampaignView>,
    pub ledger: LedgerView,
}

impl ContractView {
    /// The state before anything has happened.
    pub open spec fn blank() -> ContractView {
        ContractView { campaign: None, ledger: LedgerView::empty() }
    }

    /// What holds of every state.
    pub open spec fn wf(self) -> bool {
        &&& self.ledger.wf()
        &&& match self.campaign {
            Some(campaign) => campaign.agrees_with(self.ledger),
            None => self.ledger.entries.len() == 0,
        }
    }

    /// The state with `campaign` as its record and the ledger as it is.
    pub open spec fn with(self, campaign: CampaignView) -> ContractView {
        ContractView { campaign: Some(campaign), ledger: self.ledger }
    }

    /// Why `initialize` is refused, if it is. The checks come in this order:
    /// the record must not exist, the creator must have consented, and a fee
    /// rate must not exceed 10000 basis points.
    pub open spec fn initialize_refusal(
        self,
        env: EnvView,
        creator: Seq<char>,
        platform_config: Option<PlatformConfigView>,
    ) -> Option<Error> {
        if self.campaign is Some {
            Some(Error::Contract(ContractError::AlreadyInitialized))
        } else if !env.signers.contains(creator) {
            Some(Error::Abort(Abort::Unauthorized))
        } else if platform_config matches Some(config) && config.fee_bps > 10_000 {
            Some(Error::Abort(Abort::FeeTooHigh))
        } else {
            None
        }
    }

    /// The state that `initialize` leaves: an active campaign on the given
    /// terms that holds nothing, has no reward contract and an empty roadmap.
    pub open spec fn initialized(
        self,
        creator: Seq<char>,
        token: Seq<char>,
        goal: int,
        deadline: u64,
        min_contribution: int,
        platform_config: Option<PlatformConfigView>,
    ) -> ContractView {
        self.with(
            CampaignView {
                creator,
                token,
                goal,
                deadline,
                min_contribution,
                total_raised: 0,
                status: Status::Active,
                platform_config,
                nft_contract: None,
                roadmap: Seq::empty(),
                title: Seq::empty(),
                description: Seq::empty(),
                socials: Seq::empty(),
            },
        )
    }

    /// Why `set_nft_contract` is refused, if it is: there must be a campaign,
    /// `creator` must be its creator, and must have consented.
    pub open spec fn set_nft_contract_refusal(self, env: EnvView, creator: Seq<char>) -> Option<
        Abort,
    > {
        match self.campaign {
            None => Some(Abort::NotInitialized),
            Some(campaign) => if creator != campaign.creator {
                Some(Abort::NotCreator)
            } else if !env.signers.contains(creator) {
                Some(Abort::Unauthorized)
            } else {
                None
            },
        }
    }

    /// The state that `set_nft_contract` leaves: the reward contract is
    /// `nft_contract`, whatever it was.
    pub open spec fn with_nft_contract(self, nft_contract: Seq<char>) -> ContractView
        recommends
            self.campaign is Some,
    {
        self.with(CampaignView { nft_contract: Some(nft_contract), ..self.campaign.unwrap() })
    }

    /// Why `contribute` is refused, if it is. The checks come in this order:
    /// the contributor must have consented; there must be a campaign, and it
    /// must be active; the amount must reach the minimum; the deadline must
    /// not have passed; the amount must not be negative; and the new total
    /// and the new number of contributors must fit their machine types.
    pub open spec fn contribute_refusal(
        self,
        env: EnvView,
        contributor: Seq<char>,
        amount: int,
    ) -> Option<Error> {
        if !env.signers.contains(contributor) {
            Some(Error::Abort(Abort::Unauthorized))
        } else {
            match self.campaign {
                None => Some(Error::Abort(Abort::NotInitialized)),
                Some(campaign) => if campaign.status != Status::Active {
                    Some(Error::Abort(Abort::NotActive))
                } else if amount < campaign.min_contribution {
                    Some(Error::Abort(Abort::BelowMinimum))
                } else if env.timestamp > campaign.deadline {
                    Some(Error::Contract(ContractError::CampaignEnded))
                } else if amount < 0 {
                    Some(Error::Abort(Abort::NegativeAmount))
                } else if campaign.total_raised + amount > i128::MAX {
                    Some(Error::Abort(Abort::Overflow))
                } else if amount > 0 && !self.ledger.has(contributor) && self.ledger.entries.len()
                    >= u32::MAX {
                    Some(Error::Abort(Abort::Overflow))
                } else {
                    None
                },
            }
        }
    }

    /// The state that `contribute` leaves: `amount` more is held, and
    /// recorded for the contributor.
    pub open spec fn contributed(self, contributor: Seq<char>, amount: int) -> ContractView
        recommends
            self.campaign is Some,
    {
        let campaign = self.campaign.unwrap();
        ContractView {
            campaign: Some(
                CampaignView { total_raised: campaign.total_raised + amount, ..campaign },
            ),
            ledger: self.ledger.credited(contributor, amount),
        }
    }

    /// The steps of `contribute`: the deposit of the amount.
    pub open spec fn contribute_actions(self, contributor: Seq<char>, amount: int) -> Seq<
        ActionView,
    >
        recommends
            self.campaign is Some,
    {
        seq![ActionView::Deposit { token: self.campaign.unwrap().token, from: contributor, amount }]
    }

    /// Why `withdraw` is refused, if it is. The checks come in this order:
    /// there must be a campaign, and it must be active; the creator must have
    /// consented; the deadline must have passed; the goal must be reached;
    /// and the product of the amount held and the fee rate must fit the
    /// machine type.
    pub open spec fn withdraw_refusal(self, env: EnvView) -> Option<Error> {
        match self.campaign {
            None => Some(Error::Abort(Abort::NotInitialized)),
            Some(campaign) => if campaign.status != Status::Active {
                Some(Error::Abort(Abort::NotActive))
            } else if !env.signers.contains(campaign.creator) {
                Some(Error::Abort(Abort::Unauthorized))
            } else if env.timestamp <= campaign.deadline {
                Some(Error::Contract(ContractError::CampaignStillActive))
            } else if campaign.total_raised < campaign.goal {
                Some(Error::Contract(ContractError::GoalNotReached))
            } else if campaign.platform_config matches Some(config) && campaign.total_raised
                * config.fee_bps > i128::MAX {
                Some(Error::Abort(Abort::Overflow))
            } else {
                None
            },
        }
    }

    /// The state that `withdraw` leaves: nothing is held any more and the
    /// campaign is successful. The ledger stays as the record of who gave
    /// what.
    pub open spec fn withdrawn(self) -> ContractView
        recommends
            self.campaign is Some,
    {
        self.with(
            CampaignView {
                total_raised: 0,
                status: Status::Successful,
                ..self.campaign.unwrap()
            },
        )
    }

    /// The payments of `withdraw` and the event that goes with the fee. With
    /// a platform, its fee goes out first and the creator gets the rest;
    /// without one, the creator gets all that is held.
    pub open spec fn payout_actions(self) -> Seq<ActionView>
        recommends
            self.campaign is Some,
    {
        let campaign = self.campaign.unwrap();
        let total = campaign.total_raised;
        match campaign.platform_config {
            Some(config) => seq![
                ActionView::Payment {
                    token: campaign.token,
                    to: config.address,
                    amount: fee(total, config.fee_bps as int),
                },
                ActionView::Publish {
                    event: EventView::FeeTransferred {
                        recipient: config.address,
                        amount: fee(total, config.fee_bps as int),
                    },
                },
                ActionView::Payment {
                    token: campaign.token,
                    to: campaign.creator,
                    amount: total - fee(total, config.fee_bps as int),
                },
            ],
            None => seq![
                ActionView::Payment { token: campaign.token, to: campaign.creator, amount: total },
            ],
        }
    }

    /// The rewards of `withdraw`: where a reward contract is set, one receipt
    /// for each contributor with a positive amount, in ledger order.
    pub open spec fn mint_actions(self) -> Seq<ActionView>
        recommends
            self.campaign is Some,
    {
        match self.campaign.unwrap().nft_contract {
            Some(nft_contract) => mints(nft_contract, self.ledger.funded()),
            None => Seq::empty(),
        }
    }

    /// The steps of `withdraw`, in order: the payments, the rewards, and the
    /// event that reports the payout.
    pub open spec fn withdraw_actions(self) -> Seq<ActionView>
        recommends
            self.campaign is Some,
    {
        let campaign = self.campaign.unwrap();
        self.payout_actions() + self.mint_actions() + seq![
            ActionView::Publish {
                event: EventView::Withdrawn {
                    creator: campaign.creator,
                    total: campaign.total_raised,
                },
            },
        ]
    }

    /// Why `refund_single` is refused, if it is. The checks come in this
    /// order: the contributor must have consented; there must be a campaign,
    /// and it must be active; the deadline must have passed; and the goal
    /// must have been missed.
    pub open spec fn refund_refusal(self, env: EnvView, contributor: Seq<char>) -> Option<Error> {
        if !env.signers.contains(contributor) {
            Some(Error::Abort(Abort::Unauthorized))
        } else {
            match self.campaign {
                None => Some(Error::Abort(Abort::NotInitialized)),
                Some(campaign) => if campaign.status != Status::Active {
                    Some(Error::Abort(Abort::NotActive))
                } else if env.timestamp <= campaign.deadline {
                    Some(Error::Contract(ContractError::CampaignStillActive))
                } else if campaign.total_raised >= campaign.goal {
                    Some(Error::Contract(ContractError::GoalReached))
                } else {
                    None
                },
            }
        }
    }

    /// The state that `refund_single` leaves. Where nothing is recorded for
    /// the contributor, it is the state as it was. Otherwise the recorded
    /// amount leaves the ledger and the amount held, and the campaign is
    /// refunded once nothing is held any more.
    pub open spec fn refunded(self, contributor: Seq<char>) -> ContractView
        recommends
            self.campaign is Some,
    {
        let campaign = self.campaign.unwrap();
        let amount = self.ledger.amount_of(contributor);
        if amount == 0 {
            self
        } else {
            ContractView {
                campaign: Some(
                    CampaignView {
                        total_raised: campaign.total_raised - amount,
                        status: if campaign.total_raised - amount == 0 {
                            Status::Refunded
                        } else {
                            Status::Active
                        },
                        ..campaign
                    },
                ),
                ledger: self.ledger.cleared(contributor),
            }
        }
    }

    /// The steps of `refund_single`: the payment of the recorded amount, or
    /// nothing where nothing is recorded.
    pub open spec fn refund_actions(self, contributor: Seq<char>) -> Seq<ActionView>
        recommends
            self.campaign is Some,
    {
        let amount = self.ledger.amount_of(contributor);
        if amount == 0 {
            Seq::empty()
        } else {
            seq![
                ActionView::Payment {
                    token: self.campaign.unwrap().token,
                    to: contributor,
                    amount,
                },
            ]
        }
    }

    /// Why `add_roadmap_item` is refused, if it is. The checks come in this
    /// order: there must be a campaign; its creator must have consented; the
    /// date must lie after the current time; and the text must not be empty.
    pub open spec fn roadmap_refusal(
        self,
        env: EnvView,
        date: u64,
        description: Seq<char>,
    ) -> Option<Abort> {
        match self.campaign {
            None => Some(Abort::NotInitialized),
            Some(campaign) => if !env.signers.contains(campaign.creator) {
                Some(Abort::Unauthorized)
            } else if date <= env.timestamp {
                Some(Abort::DateNotInFuture)
            } else if description.len() == 0 {
                Some(Abort::EmptyDescription)
            } else {
                None
            },
        }
    }

    /// The state that `add_roadmap_item` leaves: the entry stands at the end
    /// of the roadmap.
    pub open spec fn with_roadmap_item(self, date: u64, description: Seq<char>) -> ContractView
        recommends
            self.campaign is Some,
    {
        let campaign = self.campaign.unwrap();
        self.with(
            CampaignView {
                roadmap: campaign.roadmap.push(RoadmapItemView { date, description }),
                ..campaign
            },
        )
    }

    /// The steps of `add_roadmap_item`: the event that reports the entry.
    pub open spec fn roadmap_actions(date: u64, description: Seq<char>) -> Seq<ActionView> {
        seq![ActionView::Publish { event: EventView::RoadmapItemAdded { date, description } }]
    }
}

/// One call, as the mathematical values that it brings.
pub enum Call {
    Initialize {
        env: EnvView,
        creator: Seq<char>,
        token: Seq<char>,
        goal: int,
        deadline: u64,
        min_contribution: int,
        platform_config: Option<PlatformConfigView>,
    },
    SetNftContract { env: EnvView, creator: Seq<char>, nft_contract: Seq<char> },
    Contribute { env: EnvView, contributor: Seq<char>, amount: int },
    Withdraw { env: EnvView },
    RefundSingle { env: EnvView, contributor: Seq<char> },
    AddRoadmapItem { env: EnvView, date: u64, description: Seq<char> },
}

impl ContractView {
    /// Why `call` is refused in this state, if it is.
    pub open spec fn refusal(self, call: Call) -> Option<Error> {
        match call {
            Call::Initialize { env, creator, platform_config, .. } => self.initialize_refusal(
                env,
                creator,
                platform_config,
            ),
            Call::SetNftContract { env, creator, .. } => match self.set_nft_contract_refusal(
                env,
                creator,
            ) {
                Some(abort) => Some(Error::Abort(abort)),
                None => None,
            },
            Call::Contribute { env, contributor, amount } => self.contribute_refusal(
                env,
                contributor,
                amount,
            ),
            Call::Withdraw { env } => self.withdraw_refusal(env),
            Call::RefundSingle { env, contributor } => self.refund_refusal(env, contributor),
            Call::AddRoadmapItem { env, date, description } => match self.roadmap_refusal(
                env,
                date,
                description,
            ) {
                Some(abort) => Some(Error::Abort(abort)),
                None => None,
            },
        }
    }

    /// The steps that `call` asks of the host, in order: none where the call
    /// is refused.
    pub open spec fn actions(self, call: Call) -> Seq<ActionView> {
        if self.refusal(call) is Some {
            Seq::empty()
        } else {
            match call {
                Call::Initialize { .. } => Seq::empty(),
                Call::SetNftContract { .. } => Seq::empty(),
                Call::Contribute { contributor, amount, .. } => self.contribute_actions(
                    contributor,
                    amount,
                ),
                Call::Withdraw { .. } => self.withdraw_actions(),
                Call::RefundSingle { contributor, .. } => self.refund_actions(contributor),
                Call::AddRoadmapItem { date, description, .. } => Self::roadmap_actions(
                    date,
                    description,
                ),
            }
        }
    }

    /// All the steps that the calls `calls` ask of the host, made one after
    /// the other.
    pub open spec fn log(self, calls: Seq<Call>) -> Seq<ActionView>
        decreases calls.len(),
    {
        if calls.len() == 0 {
            Seq::empty()
        } else {
            self.log(calls.drop_last()) + self.after(calls.drop_last()).actions(calls.last())
        }
    }

    /// The amount held for the campaign: nothing before it is set up.
    pub open spec fn held(self) -> int {
        match self.campaign {
            Some(campaign) => campaign.total_raised,
            None => 0,
        }
    }

    /// The state that `call` leaves: this state where the call is refused.
    pub open spec fn step(self, call: Call) -> ContractView {
        if self.refusal(call) is Some {
            self
        } else {
            match call {
                Call::Initialize {
                    creator,
                    token,
                    goal,
                    deadline,
                    min_contribution,
                    platform_config,
                    ..
                } => self.initialized(
                    creator,
                    token,
                    goal,
                    deadline,
                    min_contribution,
                    platform_config,
                ),
                Call::SetNftContract { nft_contract, .. } => self.with_nft_contract(nft_contract),
                Call::Contribute { contributor, amount, .. } => self.contributed(
                    contributor,
                    amount,
                ),
                Call::Withdraw { .. } => self.withdrawn(),
                Call::RefundSingle { contributor, .. } => self.refunded(contributor),
                Call::AddRoadmapItem { date, description, .. } => self.with_roadmap_item(
                    date,
                    description,
                ),
            }
        }
    }

    /// The state that the calls `calls` leave, made one after the other.
    pub open spec fn after(self, calls: Seq<Call>) -> ContractView
        decreases calls.len(),
    {
        if calls.len() == 0 {
            self
        } else {
            self.after(calls.drop_last()).step(calls.last())
        }
    }
}

} // verus!
