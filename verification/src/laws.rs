//! What holds of the campaign whatever the calls and their order.
//!
//! Each law is stated over the mathematical state and proved from the
//! definitions in [`crate::model`]. The calls of
//! [`crate::contract::CrowdfundContract`] are proved to follow those
//! definitions, so the laws hold of them.

use crate::action::{ActionView, EventView};
use crate::env::EnvView;
use crate::error::{Abort, ContractError, Error};
use crate::ledger::{
    lemma_cleared, lemma_credited, lemma_index_of, lemma_sum_step, lemma_sum_zero, sum, LedgerView,
};
use crate::math::{fee, lemma_fee_bounds, lemma_progress_bounds, progress_bps};
use crate::model::{mints, Call, ContractView};
use crate::types::{PlatformConfigView, Status};
use vstd::prelude::*;

verus! {

/// Every call leaves a well-formed state well formed.
pub proof fn law_step_keeps_well_formed(state: ContractView, call: Call)
    requires
        state.wf(),
    ensures
        state.step(call).wf(),
{
    if state.refusal(call) is None {
        match call {
            Call::Initialize { .. } => {},
            Call::SetNftContract { .. } => {},
            Call::Contribute { contributor, amount, .. } => {
                lemma_credited(state.ledger, contributor, amount);
            },
            Call::Withdraw { .. } => {},
            Call::RefundSingle { contributor, .. } => {
                lemma_cleared(state.ledger, contributor);
            },
            Call::AddRoadmapItem { .. } => {},
        }
    }
}

/// Calls, however many and in whatever order, leave a well-formed state
/// well formed.
pub proof fn law_states_well_formed(state: ContractView, calls: Seq<Call>)
    requires
        state.wf(),
    ensures
        state.after(calls).wf(),
    decreases calls.len(),
{
    if calls.len() > 0 {
        law_states_well_formed(state, calls.drop_last());
        law_step_keeps_well_formed(state.after(calls.drop_last()), calls.last());
    }
}

/// Every state is well formed: whatever calls are made, in whatever order,
/// from the blank state on.
///
/// In particular, while the campaign is active the amount held is the sum of
/// the ledger, after the payout and after the last refund nothing is held,
/// and no contributor ever has two lines.
pub proof fn law_every_state_well_formed(calls: Seq<Call>)
    ensures
        ContractView::blank().after(calls).wf(),
{
    law_states_well_formed(ContractView::blank(), calls);
}

/// The amount held equals the sum of what the ledger records for the
/// contributors, after every sequence of contributions to an active
/// campaign, accepted or refused; and the campaign is still active then.
pub proof fn law_total_is_ledger_sum(state: ContractView, calls: Seq<Call>)
    requires
        state.wf(),
        state.campaign matches Some(campaign) && campaign.status == Status::Active,
        forall|i: int| 0 <= i < calls.len() ==> #[trigger] calls[i] is Contribute,
    ensures
        state.after(calls).wf(),
        state.after(calls).campaign is Some,
        state.after(calls).campaign.unwrap().status == Status::Active,
        state.after(calls).campaign.unwrap().total_raised == state.after(calls).ledger.total(),
    decreases calls.len(),
{
    if calls.len() > 0 {
        let earlier = calls.drop_last();
        assert forall|i: int| 0 <= i < earlier.len() implies #[trigger] earlier[i] is Contribute by {
            assert(calls[i] is Contribute);
        }
        law_total_is_ledger_sum(state, earlier);
        assert(calls.last() == calls[calls.len() - 1]);
        law_step_keeps_well_formed(state.after(earlier), calls.last());
    }
}

/// What the ledger records for the first `n` parties on the list of
/// contributors, added up.
pub open spec fn recorded(ledger: LedgerView, n: int) -> int
    decreases n,
{
    if n <= 0 {
        0
    } else {
        recorded(ledger, n - 1) + ledger.amount_of(ledger.contributors()[n - 1])
    }
}

/// The sum of the ledger is what it records for each party on the list of
/// contributors, added up over the list.
pub proof fn law_total_by_contributor(ledger: LedgerView)
    requires
        ledger.distinct(),
    ensures
        ledger.total() == recorded(ledger, ledger.entries.len() as int),
{
    lemma_recorded_prefix(ledger, ledger.entries.len() as int);
    assert(ledger.entries.take(ledger.entries.len() as int) =~= ledger.entries);
}

/// The same for the first `n` lines.
proof fn lemma_recorded_prefix(ledger: LedgerView, n: int)
    requires
        ledger.distinct(),
        0 <= n <= ledger.entries.len(),
    ensures
        recorded(ledger, n) == sum(ledger.entries.take(n)),
    decreases n,
{
    if n > 0 {
        lemma_recorded_prefix(ledger, n - 1);
        lemma_index_of(ledger, n - 1);
        lemma_sum_step(ledger.entries, n - 1);
    } else {
        assert(ledger.entries.take(0) =~= Seq::empty());
    }
}

/// No call takes the campaign record away.
pub proof fn law_record_stays(state: ContractView, calls: Seq<Call>)
    requires
        state.campaign is Some,
    ensures
        state.after(calls).campaign is Some,
    decreases calls.len(),
{
    if calls.len() > 0 {
        law_record_stays(state, calls.drop_last());
    }
}

/// A campaign is set up exactly once: after an `initialize` that was
/// accepted, and whatever calls have followed it, every `initialize` is
/// refused with `AlreadyInitialized`, whoever makes it and on whatever terms.
pub proof fn law_initialize_once(
    state: ContractView,
    first: Call,
    calls: Seq<Call>,
    second: Call,
)
    requires
        first is Initialize,
        second is Initialize,
        state.refusal(first) is None,
    ensures
        state.step(first).after(calls).refusal(second) == Some(
            Error::Contract(ContractError::AlreadyInitialized),
        ),
        state.step(first).after(calls).step(second) == state.step(first).after(calls),
{
    law_record_stays(state.step(first), calls);
}

/// A contribution below the minimum is refused and changes nothing; made
/// with the contributor's consent to an active campaign, it is refused for
/// that very reason.
pub proof fn law_contribution_below_minimum(
    state: ContractView,
    env: EnvView,
    contributor: Seq<char>,
    amount: int,
)
    requires
        state.campaign matches Some(campaign) && amount < campaign.min_contribution,
    ensures
        state.contribute_refusal(env, contributor, amount) is Some,
        state.step(Call::Contribute { env, contributor, amount }) == state,
        env.signers.contains(contributor) && state.campaign.unwrap().status == Status::Active
            ==> state.contribute_refusal(env, contributor, amount) == Some(
            Error::Abort(Abort::BelowMinimum),
        ),
{
}

/// A contribution after the deadline is refused and changes nothing; made
/// with the contributor's consent to an active campaign and not below the
/// minimum, it is refused with `CampaignEnded`.
pub proof fn law_contribution_after_deadline(
    state: ContractView,
    env: EnvView,
    contributor: Seq<char>,
    amount: int,
)
    requires
        state.campaign matches Some(campaign) && env.timestamp > campaign.deadline,
    ensures
        state.contribute_refusal(env, contributor, amount) is Some,
        state.step(Call::Contribute { env, contributor, amount }) == state,
        env.signers.contains(contributor) && state.campaign.unwrap().status == Status::Active
            && amount >= state.campaign.unwrap().min_contribution ==> state.contribute_refusal(
            env,
            contributor,
            amount,
        ) == Some(Error::Contract(ContractError::CampaignEnded)),
{
}

/// Whoever has contributed a positive amount stands on the list of
/// contributors at exactly one place, and a further contribution of theirs
/// leaves the list as it is.
pub proof fn law_contributor_listed_once(
    state: ContractView,
    env: EnvView,
    contributor: Seq<char>,
    amount: int,
)
    requires
        state.wf(),
        state.contribute_refusal(env, contributor, amount) is None,
        amount > 0,
    ensures
        ({
            let list = state.contributed(contributor, amount).ledger.contributors();
            exists|i: int|
                0 <= i < list.len() && #[trigger] list[i] == contributor && forall|j: int|
                    0 <= j < list.len() && #[trigger] list[j] == contributor ==> j == i
        }),
        state.ledger.has(contributor) ==> state.contributed(
            contributor,
            amount,
        ).ledger.contributors() == state.ledger.contributors(),
        !state.ledger.has(contributor) ==> state.contributed(
            contributor,
            amount,
        ).ledger.contributors() == state.ledger.contributors().push(contributor),
        state.contributed(contributor, amount).ledger.amount_of(contributor)
            == state.ledger.amount_of(contributor) + amount,
{
    lemma_credited(state.ledger, contributor, amount);
    let ledger = state.contributed(contributor, amount).ledger;
    let list = ledger.contributors();
    let i = if state.ledger.has(contributor) {
        state.ledger.index_of(contributor)
    } else {
        state.ledger.entries.len() as int
    };
    assert(ledger.entries[i].contributor == contributor);
    assert(list[i] == contributor);
    assert forall|j: int| 0 <= j < list.len() && #[trigger] list[j] == contributor implies j
        == i by {
        lemma_index_of(ledger, j);
        lemma_index_of(ledger, i);
    }
}

/// The list of contributors never names a party twice, whatever calls are
/// made.
pub proof fn law_contributors_distinct(calls: Seq<Call>)
    ensures
        ContractView::blank().after(calls).ledger.contributors().no_duplicates(),
{
    law_every_state_well_formed(calls);
    let ledger = ContractView::blank().after(calls).ledger;
    assert forall|i: int, j: int|
        0 <= i < ledger.contributors().len() && 0 <= j < ledger.contributors().len() && i
            != j implies ledger.contributors()[i] != ledger.contributors()[j] by {
        if i < j {
            assert(ledger.entries[i].contributor != ledger.entries[j].contributor);
        } else {
            assert(ledger.entries[j].contributor != ledger.entries[i].contributor);
        }
    }
}

/// The list of contributors only grows, and only at its end: no call takes
/// a party off the list or moves it, not even a refund.
pub proof fn law_contributors_stay(state: ContractView, calls: Seq<Call>)
    requires
        state.wf(),
    ensures
        state.ledger.contributors().is_prefix_of(state.after(calls).ledger.contributors()),
    decreases calls.len(),
{
    if calls.len() > 0 {
        let earlier = state.after(calls.drop_last());
        law_contributors_stay(state, calls.drop_last());
        law_states_well_formed(state, calls.drop_last());
        match calls.last() {
            Call::Contribute { contributor, amount, .. } => {
                if earlier.refusal(calls.last()) is None {
                    lemma_credited(earlier.ledger, contributor, amount);
                }
            },
            Call::RefundSingle { contributor, .. } => {
                lemma_cleared(earlier.ledger, contributor);
            },
            _ => {},
        }
        assert(earlier.ledger.contributors().is_prefix_of(
            earlier.step(calls.last()).ledger.contributors(),
        ));
    }
}

/// Whether the fee on what `state` holds can be computed: the product of
/// the amount held and the fee rate fits the machine type.
pub open spec fn fee_fits(state: ContractView) -> bool
    recommends
        state.campaign is Some,
{
    state.campaign.unwrap().platform_config matches Some(config) ==> state.campaign.unwrap().total_raised
        * config.fee_bps <= i128::MAX
}

/// The payout of an active campaign, asked for with the creator's consent.
/// Up to the deadline it is refused with `CampaignStillActive`. After the
/// deadline it is refused with `GoalNotReached` while less than the goal is
/// held. Otherwise, where the fee can be computed, it is made: nothing is
/// held any more, the campaign is successful, and from then on, whatever
/// calls come in between, every payout is refused because the campaign is
/// not active.
pub proof fn law_withdraw(state: ContractView, env: EnvView, calls: Seq<Call>, later: EnvView)
    requires
        state.wf(),
        state.campaign matches Some(campaign) && campaign.status == Status::Active
            && env.signers.contains(campaign.creator),
    ensures
        env.timestamp <= state.campaign.unwrap().deadline ==> state.withdraw_refusal(env) == Some(
            Error::Contract(ContractError::CampaignStillActive),
        ),
        env.timestamp > state.campaign.unwrap().deadline && state.campaign.unwrap().total_raised
            < state.campaign.unwrap().goal ==> state.withdraw_refusal(env) == Some(
            Error::Contract(ContractError::GoalNotReached),
        ),
        env.timestamp > state.campaign.unwrap().deadline && state.campaign.unwrap().total_raised
            >= state.campaign.unwrap().goal && fee_fits(state) ==> {
            &&& state.withdraw_refusal(env) is None
            &&& state.withdrawn().campaign.unwrap().total_raised == 0
            &&& state.withdrawn().campaign.unwrap().status == Status::Successful
            &&& state.withdrawn().after(calls).withdraw_refusal(later) == Some(
                Error::Abort(Abort::NotActive),
            )
        },
{
    if state.withdraw_refusal(env) is None {
        law_final_state_stays(state.withdrawn(), calls);
    }
}

/// What the single step `action` pays, to anyone.
pub open spec fn payment(action: ActionView) -> int {
    match action {
        ActionView::Payment { amount, .. } => amount,
        _ => 0,
    }
}

/// What the single step `action` pays to `to`.
pub open spec fn payment_to(action: ActionView, to: Seq<char>) -> int {
    match action {
        ActionView::Payment { to: payee, amount, .. } => if payee == to {
            amount
        } else {
            0
        },
        _ => 0,
    }
}

/// What `actions` pay to `to`.
pub open spec fn paid_to(actions: Seq<ActionView>, to: Seq<char>) -> int
    decreases actions.len(),
{
    if actions.len() == 0 {
        0
    } else {
        paid_to(actions.drop_last(), to) + payment_to(actions.last(), to)
    }
}

/// What `actions` pay out of the campaign's custody altogether.
pub open spec fn paid(actions: Seq<ActionView>) -> int
    decreases actions.len(),
{
    if actions.len() == 0 {
        0
    } else {
        paid(actions.drop_last()) + payment(actions.last())
    }
}

/// Payments add up over steps made one after the other.
proof fn lemma_paid_concat(first: Seq<ActionView>, second: Seq<ActionView>, to: Seq<char>)
    ensures
        paid(first + second) == paid(first) + paid(second),
        paid_to(first + second, to) == paid_to(first, to) + paid_to(second, to),
    decreases second.len(),
{
    if second.len() == 0 {
        assert(first + second =~= first);
    } else {
        assert((first + second).drop_last() =~= first + second.drop_last());
        lemma_paid_concat(first, second.drop_last(), to);
    }
}

/// Minting pays nothing.
proof fn lemma_mints_pay_nothing(nft_contract: Seq<char>, recipients: Seq<Seq<char>>, to: Seq<char>)
    ensures
        paid(mints(nft_contract, recipients)) == 0,
        paid_to(mints(nft_contract, recipients), to) == 0,
    decreases recipients.len(),
{
    if recipients.len() > 0 {
        assert(mints(nft_contract, recipients).drop_last() =~= mints(
            nft_contract,
            recipients.drop_last(),
        ));
        lemma_mints_pay_nothing(nft_contract, recipients.drop_last(), to);
    }
}

/// A payout pays out exactly what is held. With a platform at `f` basis
/// points and `T` held, the platform receives `T * f / 10000` rounded down,
/// which is at least nothing and at most `T`, and the creator receives `T`
/// less that fee; without a platform the creator receives `T`.
pub proof fn law_payout_split(state: ContractView, env: EnvView)
    requires
        state.wf(),
        state.withdraw_refusal(env) is None,
    ensures
        paid(state.withdraw_actions()) == state.campaign.unwrap().total_raised,
        match state.campaign.unwrap().platform_config {
            Some(config) => {
                let total = state.campaign.unwrap().total_raised;
                let creator = state.campaign.unwrap().creator;
                &&& 0 <= fee(total, config.fee_bps as int) <= total
                &&& config.address != creator ==> {
                    &&& paid_to(state.withdraw_actions(), config.address) == fee(
                        total,
                        config.fee_bps as int,
                    )
                    &&& paid_to(state.withdraw_actions(), creator) == total - fee(
                        total,
                        config.fee_bps as int,
                    )
                }
                &&& config.address == creator ==> paid_to(state.withdraw_actions(), creator)
                    == total
            },
            None => paid_to(state.withdraw_actions(), state.campaign.unwrap().creator)
                == state.campaign.unwrap().total_raised,
        },
{
    let campaign = state.campaign.unwrap();
    let total = campaign.total_raised;
    let creator = campaign.creator;
    let payout = state.payout_actions();
    let rewards = state.mint_actions();
    let report = seq![
        ActionView::Publish { event: EventView::Withdrawn { creator, total } },
    ];
    assert(state.withdraw_actions() == (payout + rewards) + report);
    lemma_paid_push(Seq::<ActionView>::empty(), report[0], creator);
    assert(report =~= Seq::<ActionView>::empty().push(report[0]));
    match campaign.nft_contract {
        Some(nft_contract) => {
            lemma_mints_pay_nothing(nft_contract, state.ledger.funded(), creator);
        },
        None => {},
    }
    lemma_paid_concat(payout, rewards, creator);
    lemma_paid_concat(payout + rewards, report, creator);
    match campaign.platform_config {
        Some(config) => {
            let platform = config.address;
            lemma_fee_bounds(total, config.fee_bps as int);
            lemma_paid_push(Seq::<ActionView>::empty(), report[0], platform);
            match campaign.nft_contract {
                Some(nft_contract) => {
                    lemma_mints_pay_nothing(nft_contract, state.ledger.funded(), platform);
                },
                None => {},
            }
            lemma_paid_concat(payout, rewards, platform);
            lemma_paid_concat(payout + rewards, report, platform);
            let share = fee(total, config.fee_bps as int);
            let to_platform = ActionView::Payment {
                token: campaign.token,
                to: platform,
                amount: share,
            };
            let notice = ActionView::Publish {
                event: EventView::FeeTransferred { recipient: platform, amount: share },
            };
            let to_creator = ActionView::Payment {
                token: campaign.token,
                to: creator,
                amount: total - share,
            };
            let none = Seq::<ActionView>::empty();
            assert(payout =~= none.push(to_platform).push(notice).push(to_creator));
            lemma_paid_push(none, to_platform, creator);
            lemma_paid_push(none, to_platform, platform);
            lemma_paid_push(none.push(to_platform), notice, creator);
            lemma_paid_push(none.push(to_platform), notice, platform);
            lemma_paid_push(none.push(to_platform).push(notice), to_creator, creator);
            lemma_paid_push(none.push(to_platform).push(notice), to_creator, platform);
        },
        None => {
            let to_creator = ActionView::Payment {
                token: campaign.token,
                to: creator,
                amount: total,
            };
            lemma_paid_push(Seq::<ActionView>::empty(), to_creator, creator);
            assert(payout =~= Seq::<ActionView>::empty().push(to_creator));
        },
    }
}

/// What a list of steps pays once one more step is appended.
proof fn lemma_paid_push(actions: Seq<ActionView>, action: ActionView, to: Seq<char>)
    ensures
        paid(actions.push(action)) == paid(actions) + payment(action),
        paid_to(actions.push(action), to) == paid_to(actions, to) + payment_to(action, to),
{
    let longer = actions.push(action);
    assert(longer.drop_last() =~= actions);
    assert(longer.last() == action);
    assert(paid(longer) == paid(longer.drop_last()) + payment(longer.last()));
    assert(paid_to(longer, to) == paid_to(longer.drop_last(), to) + payment_to(longer.last(), to));
}

/// What the single step `action` adds to the campaign's custody: the amount
/// of a deposit, less the amount of a payment.
pub open spec fn inflow(action: ActionView) -> int {
    match action {
        ActionView::Deposit { amount, .. } => amount,
        ActionView::Payment { amount, .. } => -amount,
        _ => 0,
    }
}

/// What `actions` add to the campaign's custody altogether.
pub open spec fn net_inflow(actions: Seq<ActionView>) -> int
    decreases actions.len(),
{
    if actions.len() == 0 {
        0
    } else {
        net_inflow(actions.drop_last()) + inflow(actions.last())
    }
}

/// The inflow of steps made one after the other adds up.
proof fn lemma_net_inflow_concat(first: Seq<ActionView>, second: Seq<ActionView>)
    ensures
        net_inflow(first + second) == net_inflow(first) + net_inflow(second),
    decreases second.len(),
{
    if second.len() == 0 {
        assert(first + second =~= first);
    } else {
        assert((first + second).drop_last() =~= first + second.drop_last());
        lemma_net_inflow_concat(first, second.drop_last());
    }
}

/// One step more changes the inflow by what it moves.
proof fn lemma_net_inflow_push(actions: Seq<ActionView>, action: ActionView)
    ensures
        net_inflow(actions.push(action)) == net_inflow(actions) + inflow(action),
{
    let longer = actions.push(action);
    assert(longer.drop_last() =~= actions);
    assert(longer.last() == action);
    assert(net_inflow(longer) == net_inflow(longer.drop_last()) + inflow(longer.last()));
}

/// Where no step deposits, the custody loses what the steps pay.
proof fn lemma_payments_only(actions: Seq<ActionView>)
    requires
        forall|i: int| 0 <= i < actions.len() ==> !(#[trigger] actions[i] is Deposit),
    ensures
        net_inflow(actions) == -paid(actions),
    decreases actions.len(),
{
    if actions.len() > 0 {
        assert forall|i: int| 0 <= i < actions.drop_last().len() implies !(
        #[trigger] actions.drop_last()[i] is Deposit) by {
            assert(!(actions[i] is Deposit));
        }
        lemma_payments_only(actions.drop_last());
        assert(!(actions[actions.len() - 1] is Deposit));
    }
}

/// Each call changes the amount held by exactly what its steps move: a
/// contribution adds its deposit, a refund and a payout take off what they
/// pay, and no other call moves anything.
pub proof fn law_custody_step(state: ContractView, call: Call)
    requires
        state.wf(),
    ensures
        state.step(call).held() == state.held() + net_inflow(state.actions(call)),
{
    let none = Seq::<ActionView>::empty();
    if state.refusal(call) is None {
        match call {
            Call::Initialize { .. } => {},
            Call::SetNftContract { .. } => {},
            Call::Contribute { contributor, amount, .. } => {
                let deposit = ActionView::Deposit {
                    token: state.campaign.unwrap().token,
                    from: contributor,
                    amount,
                };
                assert(state.actions(call) =~= none.push(deposit));
                lemma_net_inflow_push(none, deposit);
            },
            Call::Withdraw { env } => {
                law_payout_split(state, env);
                let actions = state.withdraw_actions();
                assert forall|i: int| 0 <= i < actions.len() implies !(
                #[trigger] actions[i] is Deposit) by {
                    let payout = state.payout_actions();
                    let rewards = state.mint_actions();
                    if i < payout.len() {
                        assert(actions[i] == payout[i]);
                    } else if i < payout.len() + rewards.len() {
                        assert(actions[i] == rewards[i - payout.len()]);
                    }
                }
                lemma_payments_only(actions);
            },
            Call::RefundSingle { contributor, .. } => {
                let amount = state.ledger.amount_of(contributor);
                if amount != 0 {
                    let payment = ActionView::Payment {
                        token: state.campaign.unwrap().token,
                        to: contributor,
                        amount,
                    };
                    assert(state.actions(call) =~= none.push(payment));
                    lemma_net_inflow_push(none, payment);
                }
            },
            Call::AddRoadmapItem { date, description, .. } => {
                let notice = ActionView::Publish {
                    event: EventView::RoadmapItemAdded { date, description },
                };
                assert(state.actions(call) =~= none.push(notice));
                lemma_net_inflow_push(none, notice);
            },
        }
    }
}

/// The campaign holds exactly what it has been given and has not given out:
/// after any calls, the amount held is the sum of all deposits that the
/// calls asked for, less the sum of all payments. As the amount held is never
/// negative, the campaign never asks for more to be paid out than was
/// deposited.
pub proof fn law_custody(calls: Seq<Call>)
    ensures
        ContractView::blank().after(calls).held() == net_inflow(ContractView::blank().log(calls)),
        net_inflow(ContractView::blank().log(calls)) >= 0,
    decreases calls.len(),
{
    let blank = ContractView::blank();
    law_every_state_well_formed(calls);
    if calls.len() > 0 {
        let earlier = calls.drop_last();
        law_custody(earlier);
        law_every_state_well_formed(earlier);
        law_custody_step(blank.after(earlier), calls.last());
        lemma_net_inflow_concat(blank.log(earlier), blank.after(earlier).actions(calls.last()));
    }
}

/// The refund of a contributor's stake, asked for with their consent from an
/// active campaign after the deadline. Where the goal is met it is refused
/// with `GoalReached`. Otherwise it is accepted. For a party with nothing
/// recorded it changes nothing and moves nothing. For any other, the recorded
/// amount is paid back to them and leaves the ledger and the amount held; the
/// campaign is then refunded if every line of the ledger is at zero, and
/// stays active if not.
pub proof fn law_refund(state: ContractView, env: EnvView, contributor: Seq<char>)
    requires
        state.wf(),
        state.campaign matches Some(campaign) && campaign.status == Status::Active
            && env.signers.contains(contributor) && env.timestamp > campaign.deadline,
    ensures
        state.campaign.unwrap().total_raised >= state.campaign.unwrap().goal
            ==> state.refund_refusal(env, contributor) == Some(
            Error::Contract(ContractError::GoalReached),
        ),
        state.campaign.unwrap().total_raised < state.campaign.unwrap().goal
            ==> state.refund_refusal(env, contributor) is None,
        !state.ledger.has(contributor) ==> state.ledger.amount_of(contributor) == 0,
        state.ledger.amount_of(contributor) == 0 ==> state.refunded(contributor) == state
            && state.refund_actions(contributor) == Seq::<ActionView>::empty(),
        state.ledger.amount_of(contributor) != 0 ==> {
            let after = state.refunded(contributor);
            &&& state.refund_actions(contributor) == seq![
                ActionView::Payment {
                    token: state.campaign.unwrap().token,
                    to: contributor,
                    amount: state.ledger.amount_of(contributor),
                },
            ]
            &&& state.ledger.amount_of(contributor) > 0
            &&& after.ledger.amount_of(contributor) == 0
            &&& after.campaign.unwrap().total_raised == state.campaign.unwrap().total_raised
                - state.ledger.amount_of(contributor)
            &&& after.campaign.unwrap().status == if after.ledger.settled() {
                Status::Refunded
            } else {
                Status::Active
            }
        },
{
    lemma_cleared(state.ledger, contributor);
    lemma_sum_zero(state.ledger.cleared(contributor).entries);
}

/// The terms of a campaign are fixed when it is set up: whatever calls are
/// made afterwards, its creator, its asset, its goal, its deadline, its
/// minimum contribution and its platform configuration stay as they are.
pub proof fn law_terms_fixed(state: ContractView, calls: Seq<Call>)
    requires
        state.campaign is Some,
    ensures
        state.after(calls).campaign is Some,
        state.after(calls).campaign.unwrap().creator == state.campaign.unwrap().creator,
        state.after(calls).campaign.unwrap().token == state.campaign.unwrap().token,
        state.after(calls).campaign.unwrap().goal == state.campaign.unwrap().goal,
        state.after(calls).campaign.unwrap().deadline == state.campaign.unwrap().deadline,
        state.after(calls).campaign.unwrap().min_contribution
            == state.campaign.unwrap().min_contribution,
        state.after(calls).campaign.unwrap().platform_config
            == state.campaign.unwrap().platform_config,
    decreases calls.len(),
{
    if calls.len() > 0 {
        law_terms_fixed(state, calls.drop_last());
    }
}

/// The roadmap only grows, and only at its end: whatever calls are made, the
/// entries that were there stay where they were.
pub proof fn law_roadmap_grows(state: ContractView, calls: Seq<Call>)
    requires
        state.campaign is Some,
    ensures
        state.after(calls).campaign is Some,
        state.campaign.unwrap().roadmap.is_prefix_of(state.after(calls).campaign.unwrap().roadmap),
    decreases calls.len(),
{
    if calls.len() > 0 {
        law_roadmap_grows(state, calls.drop_last());
        let earlier = state.after(calls.drop_last());
        let start = state.campaign.unwrap().roadmap;
        let end = earlier.step(calls.last()).campaign.unwrap().roadmap;
        assert(earlier.campaign.unwrap().roadmap.is_prefix_of(end));
        assert(start.is_prefix_of(end));
    }
}

/// The life of a campaign: its status changes only from active, to
/// successful by a payout or to refunded by a refund. No call cancels a
/// campaign, and none brings one back to active.
pub proof fn law_lifecycle(state: ContractView, call: Call)
    requires
        state.campaign is Some,
    ensures
        state.step(call).campaign is Some,
        ({
            let before = state.campaign.unwrap().status;
            let after = state.step(call).campaign.unwrap().status;
            ||| after == before
            ||| before == Status::Active && call is Withdraw && after == Status::Successful
            ||| before == Status::Active && call is RefundSingle && after == Status::Refunded
        }),
{
}

/// The states other than active are final: whatever call is made to a
/// campaign that is not active, its status, the amount it holds and its
/// ledger stay as they are, and a contribution, a payout and a refund are
/// refused.
pub proof fn law_final_states(state: ContractView, call: Call)
    requires
        state.campaign matches Some(campaign) && campaign.status != Status::Active,
    ensures
        state.step(call).campaign is Some,
        state.step(call).campaign.unwrap().status == state.campaign.unwrap().status,
        state.step(call).campaign.unwrap().total_raised == state.campaign.unwrap().total_raised,
        state.step(call).ledger == state.ledger,
        call is Contribute || call is Withdraw || call is RefundSingle ==> state.refusal(call)
            is Some,
{
}

/// A campaign that is not active stays as it is for good: whatever calls
/// are made, its status, the amount it holds and its ledger do not change.
pub proof fn law_final_state_stays(state: ContractView, calls: Seq<Call>)
    requires
        state.campaign matches Some(campaign) && campaign.status != Status::Active,
    ensures
        state.after(calls).campaign is Some,
        state.after(calls).campaign.unwrap().status == state.campaign.unwrap().status,
        state.after(calls).campaign.unwrap().total_raised == state.campaign.unwrap().total_raised,
        state.after(calls).ledger == state.ledger,
    decreases calls.len(),
{
    if calls.len() > 0 {
        law_final_state_stays(state, calls.drop_last());
        law_final_states(state.after(calls.drop_last()), calls.last());
    }
}

/// Progress toward the goal is at most 10000 basis points, however far the
/// amount held exceeds the goal, is 10000 from the goal on, and is 0 for a
/// campaign whose goal is 0.
pub proof fn law_progress_clamped(total: int, goal: int)
    requires
        0 <= total,
    ensures
        0 <= progress_bps(total, goal) <= 10_000,
        0 < goal <= total ==> progress_bps(total, goal) == 10_000,
        goal == 0 ==> progress_bps(total, goal) == 0,
{
    lemma_progress_bounds(total, goal);
}

} // verus!
