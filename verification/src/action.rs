//! What a call asks its host to do.
//!
//! The campaign moves no asset and publishes nothing itself. A call that is
//! accepted returns the steps that its host has to carry out, in order. Should
//! one of them fail, the whole call is void: the host drops the state that the
//! call produced.

use crate::address::Address;
use vstd::prelude::*;

verus! {

/// A record that the host publishes for observers.
#[derive(Debug, PartialEq, Eq)]
pub enum Event {
    /// The platform fee went to `recipient`.
    FeeTransferred { recipient: Address, amount: i128 },
    /// The reward contract minted the receipt `token_id` for `contributor`.
    NftMinted { contributor: Address, token_id: u128 },
    /// The campaign, having raised `total`, was paid out to `creator`.
    Withdrawn { creator: Address, total: i128 },
    /// The creator added an entry to the roadmap.
    RoadmapItemAdded { date: u64, description: String },
}

/// The mathematical content of an [`Event`].
pub enum EventView {
    FeeTransferred { recipient: Seq<char>, amount: int },
    NftMinted { contributor: Seq<char>, token_id: u128 },
    Withdrawn { creator: Seq<char>, total: int },
    RoadmapItemAdded { date: u64, description: Seq<char> },
}

impl View for Event {
    type V = EventView;

    open spec fn view(&self) -> EventView {
        match *self {
            Event::FeeTransferred { recipient, amount } => EventView::FeeTransferred {
                recipient: recipient@,
                amount: amount as int,
            },
            Event::NftMinted { contributor, token_id } => EventView::NftMinted {
                contributor: contributor@,
                token_id,
            },
            Event::Withdrawn { creator, total } => EventView::Withdrawn {
                creator: creator@,
                total: total as int,
            },
            Event::RoadmapItemAdded { date, description } => EventView::RoadmapItemAdded {
                date,
                description: description@,
            },
        }
    }
}

impl Clone for Event {
    fn clone(&self) -> (copy: Event)
        ensures
            copy == *self,
    {
        match self {
            Event::FeeTransferred { recipient, amount } => Event::FeeTransferred {
                recipient: recipient.clone(),
                amount: *amount,
            },
            Event::NftMinted { contributor, token_id } => Event::NftMinted {
                contributor: contributor.clone(),
                token_id: *token_id,
            },
            Event::Withdrawn { creator, total } => Event::Withdrawn {
                creator: creator.clone(),
                total: *total,
            },
            Event::RoadmapItemAdded { date, description } => Event::RoadmapItemAdded {
                date: *date,
                description: description.clone(),
            },
        }
    }
}

impl Event {
    /// The name under which the event is published.
    pub fn name(&self) -> (name: &'static str)
        ensures
            name@ == self@.name(),
    {
        match self {
            Event::FeeTransferred { .. } => "fee_transferred",
            Event::NftMinted { .. } => "nft_minted",
            Event::Withdrawn { .. } => "withdrawn",
            Event::RoadmapItemAdded { .. } => "roadmap_item_added",
        }
    }
}

impl EventView {
    /// The name under which the event is published.
    pub open spec fn name(self) -> Seq<char> {
        match self {
            EventView::FeeTransferred { .. } => "fee_transferred"@,
            EventView::NftMinted { .. } => "nft_minted"@,
            EventView::Withdrawn { .. } => "withdrawn"@,
            EventView::RoadmapItemAdded { .. } => "roadmap_item_added"@,
        }
    }
}

/// One step that the host carries out for a call.
#[derive(Debug, PartialEq, Eq)]
pub enum Action {
    /// Move `amount` of the asset `token` from `from` into the campaign's
    /// custody.
    Deposit { token: Address, from: Address, amount: i128 },
    /// Move `amount` of the asset `token` out of the campaign's custody to
    /// `to`.
    Payment { token: Address, to: Address, amount: i128 },
    /// Have the reward contract `nft_contract` mint one receipt for `to`, then
    /// publish the event that [`Action::minted`] gives for the receipt.
    Mint { nft_contract: Address, to: Address },
    /// Publish `event`.
    Publish { event: Event },
}

/// The mathematical content of an [`Action`].
pub enum ActionView {
    Deposit { token: Seq<char>, from: Seq<char>, amount: int },
    Payment { token: Seq<char>, to: Seq<char>, amount: int },
    Mint { nft_contract: Seq<char>, to: Seq<char> },
    Publish { event: EventView },
}

impl View for Action {
    type V = ActionView;

    open spec fn view(&self) -> ActionView {
        match *self {
            Action::Deposit { token, from, amount } => ActionView::Deposit {
                token: token@,
                from: from@,
                amount: amount as int,
            },
            Action::Payment { token, to, amount } => ActionView::Payment {
                token: token@,
                to: to@,
                amount: amount as int,
            },
            Action::Mint { nft_contract, to } => ActionView::Mint {
                nft_contract: nft_contract@,
                to: to@,
            },
            Action::Publish { event } => ActionView::Publish { event: event@ },
        }
    }
}

impl Clone for Action {
    fn clone(&self) -> (copy: Action)
        ensures
            copy == *self,
    {
        match self {
            Action::Deposit { token, from, amount } => Action::Deposit {
                token: token.clone(),
                from: from.clone(),
                amount: *amount,
            },
            Action::Payment { token, to, amount } => Action::Payment {
                token: token.clone(),
                to: to.clone(),
                amount: *amount,
            },
            Action::Mint { nft_contract, to } => Action::Mint {
                nft_contract: nft_contract.clone(),
                to: to.clone(),
            },
            Action::Publish { event } => Action::Publish { event: event.clone() },
        }
    }
}

impl Action {
    /// The event to publish once the reward contract has answered a
    /// [`Action::Mint`] with the receipt `token_id`. No other step has one.
    pub fn minted(&self, token_id: u128) -> (event: Option<Event>)
        ensures
            match self@ {
                ActionView::Mint { nft_contract, to } => event matches Some(e) && e@ == (
                EventView::NftMinted { contributor: to, token_id }),
                _ => event is None,
            },
    {
        match self {
            Action::Mint { nft_contract: _, to } => Some(
                Event::NftMinted { contributor: to.clone(), token_id },
            ),
            _ => None,
        }
    }
}

/// The contents of a list of steps.
pub open spec fn views(actions: Seq<Action>) -> Seq<ActionView> {
    actions.map_values(|a: Action| a@)
}

} // verus!
