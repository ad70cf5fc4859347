use vstd::prelude::*;
use crate::principal::Principal;

verus! {

/// Why an operation was refused as a whole, leaving the store unchanged.
#[derive(Debug, Clone, Copy, PartialEq, Eq, Structural)]
pub enum LaunchError {
    /// A campaign share or a points total does not fit in an `i128`.
    ArithmeticOverflow,
    /// A credited points or referrals amount was below zero.
    NegativeAmount,
    /// Every `u64` campaign id has been handed out.
    CampaignIdsExhausted,
}

/// One fundraising and airdrop campaign.
pub struct Campaign {
    pub creator: Principal,
    pub token_id: Principal,
    pub total_supply: i128,
    pub airdrop_amount: i128,
    pub liquidity_amount: i128,
    pub claimed: i128,
    pub is_active: bool,
}

pub struct CampaignView {
    pub creator: Seq<u8>,
    pub token_id: Seq<u8>,
    pub total_supply: int,
    pub airdrop_amount: int,
    pub liquidity_amount: int,
    pub claimed: int,
    pub is_active: bool,
}

impl View for Campaign {
    type V = CampaignView;

    open spec fn view(&self) -> CampaignView {
        CampaignView {
            creator: self.creator@,
            token_id: self.token_id@,
            total_supply: self.total_supply as int,
            airdrop_amount: self.airdrop_amount as int,
            liquidity_amount: self.liquidity_amount as int,
            claimed: self.claimed as int,
            is_active: self.is_active,
        }
    }
}

/// The loyalty counters of one principal.
pub struct UserPoints {
    pub user: Principal,
    pub points: i128,
    pub referrals: i128,
}

/// The four disjoint kinds of key under which the records are persisted.
pub enum DataKey {
    Campaign(u64),
    CampaignCount,
    UserPoints(Principal),
    UserClaimed(Principal, u64),
}

pub open spec fn fits_i128(x: int) -> bool {
    i128::MIN <= x <= i128::MAX
}

/// `percent` percent of `total`, rounded down.
pub open spec fn share_of(total: int, percent: int) -> int {
    total * percent / 100
}

/// Both shares of a new campaign can be computed in `i128`.
pub open spec fn shares_fit(total: int, airdrop_percent: int, liquidity_percent: int) -> bool {
    fits_i128(total * airdrop_percent) && fits_i128(total * liquidity_percent)
}

/// The campaign as it stands right after its creation.
pub open spec fn opened(
    creator: Seq<u8>,
    token_id: Seq<u8>,
    total: int,
    airdrop_percent: int,
    liquidity_percent: int,
) -> CampaignView {
    CampaignView {
        creator,
        token_id,
        total_supply: total,
        airdrop_amount: share_of(total, airdrop_percent),
        liquidity_amount: share_of(total, liquidity_percent),
        claimed: 0,
        is_active: true,
    }
}

/// A claim of `amount` fits the campaign: it is open, the amount is not
/// negative and the budget is not exceeded.
pub open spec fn claim_fits(c: CampaignView, amount: int) -> bool {
    c.is_active && 0 <= amount && c.claimed + amount <= c.airdrop_amount
}

pub open spec fn with_claim(c: CampaignView, amount: int) -> CampaignView {
    CampaignView { claimed: c.claimed + amount, ..c }
}

pub open spec fn closed(c: CampaignView) -> CampaignView {
    CampaignView { is_active: false, ..c }
}

/// `percent` percent of `total` rounded down, or `None` when the product
/// does not fit in an `i128`.
pub fn percent_of(total: i128, percent: i128) -> (r: Option<i128>)
    ensures
        r is Some <==> fits_i128(total * percent),
        r matches Some(v) ==> v == share_of(total as int, percent as int),
{
    match total.checked_mul(percent) {
        None => None,
        Some(product) => product.checked_div_euclid(100),
    }
}

impl Campaign {
    /// A new, open campaign whose shares are taken from `total_supply`.
    pub fn open(
        creator: Principal,
        token_id: Principal,
        total_supply: i128,
        airdrop_percent: i128,
        liquidity_percent: i128,
    ) -> (r: Result<Campaign, LaunchError>)
        ensures
            r is Ok <==> shares_fit(total_supply as int, airdrop_percent as int, liquidity_percent as int),
            r matches Ok(c) ==> c@ == opened(creator@, token_id@, total_supply as int, airdrop_percent as int, liquidity_percent as int),
            r matches Err(e) ==> e == LaunchError::ArithmeticOverflow,
    {
        let airdrop_amount = match percent_of(total_supply, airdrop_percent) {
            Some(v) => v,
            None => return Err(LaunchError::ArithmeticOverflow),
        };
        let liquidity_amount = match percent_of(total_supply, liquidity_percent) {
            Some(v) => v,
            None => return Err(LaunchError::ArithmeticOverflow),
        };
        Ok(Campaign {
            creator,
            token_id,
            total_supply,
            airdrop_amount,
            liquidity_amount,
            claimed: 0,
            is_active: true,
        })
    }

    /// A second record with the same contents.
    pub fn duplicate(&self) -> (r: Campaign)
        ensures
            r@ == self@,
    {
        Campaign {
            creator: self.creator.duplicate(),
            token_id: self.token_id.duplicate(),
            total_supply: self.total_supply,
            airdrop_amount: self.airdrop_amount,
            liquidity_amount: self.liquidity_amount,
            claimed: self.claimed,
            is_active: self.is_active,
        }
    }

    /// The campaign after a claim of `amount`, or `None` when the claim is
    /// refused: the campaign is closed, the amount is negative or it would
    /// take `claimed` past `airdrop_amount`.
    pub fn claim(&self, amount: i128) -> (r: Option<Campaign>)
        ensures
            r is Some <==> claim_fits(self@, amount as int),
            r matches Some(c) ==> c@ == with_claim(self@, amount as int),
    {
        if !self.is_active || amount < 0 {
            return None;
        }
        match self.claimed.checked_add(amount) {
            Some(total) if total <= self.airdrop_amount => {
                let mut c = self.duplicate();
                c.claimed = total;
                Some(c)
            },
            _ => None,
        }
    }

    /// The campaign closed by `caller`, or `None` when `caller` is not its creator.
    pub fn close_by(&self, caller: &Principal) -> (r: Option<Campaign>)
        ensures
            r is Some <==> self@.creator == caller@,
            r matches Some(c) ==> c@ == closed(self@),
    {
        if self.creator.same(caller) {
            let mut c = self.duplicate();
            c.is_active = false;
            Some(c)
        } else {
            None
        }
    }
}

impl UserPoints {
    /// The record of a principal that has never been credited.
    pub fn zero(user: Principal) -> (r: UserPoints)
        ensures
            r.user@ == user@,
            r.points == 0,
            r.referrals == 0,
    {
        UserPoints { user, points: 0, referrals: 0 }
    }

    /// The record after crediting `points` and `referrals`. Negative
    /// amounts are refused, and so are totals that do not fit in an `i128`.
    pub fn credit(&self, points: i128, referrals: i128) -> (r: Result<UserPoints, LaunchError>)
        ensures
            (points < 0 || referrals < 0) ==> r == Err::<UserPoints, LaunchError>(LaunchError::NegativeAmount),
            (0 <= points && 0 <= referrals) ==> (r is Ok <==> (fits_i128(self.points + points)
                && fits_i128(self.referrals + referrals))),
            (0 <= points && 0 <= referrals && r is Err) ==> r == Err::<UserPoints, LaunchError>(LaunchError::ArithmeticOverflow),
            r matches Ok(u) ==> u.user@ == self.user@ && u.points == self.points + points
                && u.referrals == self.referrals + referrals,
    {
        if points < 0 || referrals < 0 {
            return Err(LaunchError::NegativeAmount);
        }
        let new_points = match self.points.checked_add(points) {
            Some(v) => v,
            None => return Err(LaunchError::ArithmeticOverflow),
        };
        let new_referrals = match self.referrals.checked_add(referrals) {
            Some(v) => v,
            None => return Err(LaunchError::ArithmeticOverflow),
        };
        Ok(UserPoints { user: self.user.duplicate(), points: new_points, referrals: new_referrals })
    }
}

} // verus!
