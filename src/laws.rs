use vstd::prelude::*;
use crate::model::{LaunchView, Operation};
use crate::records::{LaunchError, closed, fits_i128, shares_fit};

verus! {

/// Every campaign's claimed amount lies between zero and its airdrop amount.
pub open spec fn within_budget(s: LaunchView) -> bool {
    forall|i: int|
        0 <= i < s.campaigns.len() ==> 0 <= #[trigger] s.campaigns[i].claimed
            <= s.campaigns[i].airdrop_amount
}

/// Every campaign created by `ops` has a non-negative supply and airdrop percent.
pub open spec fn creates_non_negative(ops: Seq<Operation>) -> bool {
    forall|i: int|
        0 <= i < ops.len() ==> match #[trigger] ops[i] {
            Operation::Create { total_supply, airdrop_percent, .. } => 0 <= total_supply && 0
                <= airdrop_percent,
            _ => true,
        }
}

/// A campaign created with a non-negative supply and non-negative percents,
/// whose shares fit and for which an id is left, gets the next id (so the
/// first one gets 0), and the next creation gets the id after it. Its
/// airdrop and liquidity amounts are the rounded-down percents of the supply.
pub proof fn create_assigns_sequential_ids(
    s: LaunchView,
    creator: Seq<u8>,
    token_id: Seq<u8>,
    total_supply: int,
    airdrop_percent: int,
    liquidity_percent: int,
    next: Operation,
)
    requires
        0 <= total_supply,
        0 <= airdrop_percent,
        0 <= liquidity_percent,
        shares_fit(total_supply, airdrop_percent, liquidity_percent),
        s.campaigns.len() + 1 < u64::MAX,
        next matches Operation::Create { total_supply, airdrop_percent, liquidity_percent, .. }
            && 0 <= total_supply && 0 <= airdrop_percent && 0 <= liquidity_percent
            && shares_fit(total_supply, airdrop_percent, liquidity_percent),
    ensures
        s.create_outcome(total_supply, airdrop_percent, liquidity_percent) == Ok::<u64, LaunchError>(
            s.campaigns.len() as u64,
        ),
        s == LaunchView::empty() ==> s.create_outcome(total_supply, airdrop_percent, liquidity_percent)
            == Ok::<u64, LaunchError>(0),
        ({
            let t = s.after_create(creator, token_id, total_supply, airdrop_percent, liquidity_percent);
            &&& t.campaigns.len() == s.campaigns.len() + 1
            &&& t.campaigns.last().airdrop_amount == total_supply * airdrop_percent / 100
            &&& t.campaigns.last().liquidity_amount == total_supply * liquidity_percent / 100
            &&& t.campaigns.last().claimed == 0
            &&& t.campaigns.last().is_active
            &&& match next {
                Operation::Create { total_supply, airdrop_percent, liquidity_percent, .. } => t.create_outcome(
                    total_supply,
                    airdrop_percent,
                    liquidity_percent,
                ) == Ok::<u64, LaunchError>((s.campaigns.len() + 1) as u64),
                _ => true,
            }
        }),
{
}

proof fn apply_keeps_budget(s: LaunchView, op: Operation)
    requires
        within_budget(s),
        match op {
            Operation::Create { total_supply, airdrop_percent, .. } => 0 <= total_supply && 0
                <= airdrop_percent,
            _ => true,
        },
    ensures
        within_budget(s.apply(op)),
{
    match op {
        Operation::Create { creator, token_id, total_supply, airdrop_percent, liquidity_percent } => {
            assert(0 <= total_supply * airdrop_percent) by (nonlinear_arith)
                requires
                    0 <= total_supply,
                    0 <= airdrop_percent,
            ;
            assert(0 <= total_supply * airdrop_percent / 100) by (nonlinear_arith)
                requires
                    0 <= total_supply * airdrop_percent,
            ;
            let t = s.apply(op);
            assert forall|i: int| 0 <= i < t.campaigns.len() implies 0
                <= #[trigger] t.campaigns[i].claimed <= t.campaigns[i].airdrop_amount by {
                if i < s.campaigns.len() {
                    assert(t.campaigns[i] == s.campaigns[i]);
                }
            }
        },
        Operation::Claim { campaign_id, user, amount } => {
            let t = s.apply(op);
            assert forall|i: int| 0 <= i < t.campaigns.len() implies 0
                <= #[trigger] t.campaigns[i].claimed <= t.campaigns[i].airdrop_amount by {
                assert(0 <= s.campaigns[i].claimed <= s.campaigns[i].airdrop_amount);
            }
        },
        Operation::AddPoints { .. } => {},
        Operation::Close { campaign_id, creator } => {
            let t = s.apply(op);
            assert forall|i: int| 0 <= i < t.campaigns.len() implies 0
                <= #[trigger] t.campaigns[i].claimed <= t.campaigns[i].airdrop_amount by {
                assert(0 <= s.campaigns[i].claimed <= s.campaigns[i].airdrop_amount);
            }
        },
    }
}

/// Whatever operations follow, in any order, no campaign's claimed amount
/// leaves the range from zero to its airdrop amount, as long as campaigns
/// are created with a non-negative supply and airdrop percent.
pub proof fn claims_stay_within_budget(s: LaunchView, ops: Seq<Operation>)
    requires
        within_budget(s),
        creates_non_negative(ops),
    ensures
        within_budget(s.run(ops)),
    decreases ops.len(),
{
    if ops.len() > 0 {
        assert(match ops[0] {
            Operation::Create { total_supply, airdrop_percent, .. } => 0 <= total_supply && 0
                <= airdrop_percent,
            _ => true,
        });
        apply_keeps_budget(s, ops[0]);
        assert forall|i: int| 0 <= i < ops.drop_first().len() implies match #[trigger] ops.drop_first()[i] {
            Operation::Create { total_supply, airdrop_percent, .. } => 0 <= total_supply && 0
                <= airdrop_percent,
            _ => true,
        } by {
            assert(ops.drop_first()[i] == ops[i + 1]);
        }
        claims_stay_within_budget(s.apply(ops[0]), ops.drop_first());
    }
}

/// No operation ever removes a claim marker.
pub proof fn claims_are_kept(s: LaunchView, ops: Seq<Operation>)
    ensures
        s.claims.subset_of(s.run(ops).claims),
    decreases ops.len(),
{
    if ops.len() > 0 {
        claims_are_kept(s.apply(ops[0]), ops.drop_first());
    }
}

/// A closed campaign stays as it is, whatever operations follow.
pub proof fn closing_is_terminal(s: LaunchView, campaign_id: u64, ops: Seq<Operation>)
    requires
        campaign_id < s.campaigns.len(),
        !s.campaigns[campaign_id as int].is_active,
    ensures
        s.run(ops).campaigns[campaign_id as int] == s.campaigns[campaign_id as int],
    decreases ops.len(),
{
    if ops.len() > 0 {
        let t = s.apply(ops[0]);
        assert(t.campaigns[campaign_id as int] == s.campaigns[campaign_id as int]);
        closing_is_terminal(t, campaign_id, ops.drop_first());
    }
}

/// Once a principal's claim on a campaign succeeds, whatever operations
/// follow, a later claim by the same principal on the same campaign is
/// refused and changes nothing.
pub proof fn claim_succeeds_at_most_once(
    s: LaunchView,
    campaign_id: u64,
    user: Seq<u8>,
    amount: int,
    ops: Seq<Operation>,
    later_amount: int,
)
    requires
        s.claim_accepted(campaign_id, user, amount),
    ensures
        ({
            let t = s.after_claim(campaign_id, user, amount).run(ops);
            &&& !t.claim_accepted(campaign_id, user, later_amount)
            &&& t.after_claim(campaign_id, user, later_amount) == t
        }),
{
    let first = s.after_claim(campaign_id, user, amount);
    assert(first.claims.contains((user, campaign_id)));
    claims_are_kept(first, ops);
}

/// Closing a campaign twice on behalf of the same principal: the second
/// call succeeds exactly when the first did, and then the campaign is
/// closed after both and the second call changes nothing.
pub proof fn close_is_idempotent(s: LaunchView, campaign_id: u64, caller: Seq<u8>)
    ensures
        ({
            let t = s.after_close(campaign_id, caller);
            &&& t.close_accepted(campaign_id, caller) == s.close_accepted(campaign_id, caller)
            &&& s.close_accepted(campaign_id, caller) ==> {
                &&& !t.campaigns[campaign_id as int].is_active
                &&& t.after_close(campaign_id, caller) == t
            }
        }),
{
    let t = s.after_close(campaign_id, caller);
    if s.close_accepted(campaign_id, caller) {
        let i = campaign_id as int;
        assert(closed(t.campaigns[i]) == t.campaigns[i]);
        assert(t.campaigns.update(i, closed(t.campaigns[i])) =~= t.campaigns);
    }
}

/// Crediting `(p1, r1)` and then `(p2, r2)` leaves the same store as
/// crediting `(p1 + p2, r1 + r2)` once, and both ways succeed, when all
/// amounts are non-negative and the totals fit in an `i128`.
pub proof fn points_accumulate(
    s: LaunchView,
    user: Seq<u8>,
    p1: int,
    r1: int,
    p2: int,
    r2: int,
)
    requires
        fits_i128(s.points_of(user).0),
        fits_i128(s.points_of(user).1),
        0 <= p1,
        0 <= r1,
        0 <= p2,
        0 <= r2,
        fits_i128(p1 + p2),
        fits_i128(r1 + r2),
        fits_i128(s.points_of(user).0 + p1 + p2),
        fits_i128(s.points_of(user).1 + r1 + r2),
    ensures
        s.add_points_outcome(user, p1, r1) is Ok,
        s.after_add_points(user, p1, r1).add_points_outcome(user, p2, r2) is Ok,
        s.add_points_outcome(user, p1 + p2, r1 + r2) is Ok,
        s.after_add_points(user, p1, r1).after_add_points(user, p2, r2) == s.after_add_points(
            user,
            p1 + p2,
            r1 + r2,
        ),
{
    let once = s.after_add_points(user, p1 + p2, r1 + r2);
    let twice = s.after_add_points(user, p1, r1).after_add_points(user, p2, r2);
    assert(twice.ledger =~= once.ledger);
}

} // verus!
