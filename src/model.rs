use vstd::prelude::*;
use crate::records::{
    CampaignView, DataKey, LaunchError, closed, claim_fits, fits_i128, opened, shares_fit, with_claim,
};

verus! {

/// The logical contents of the store: campaigns indexed by id (so the
/// counter is their number), the `(principal, campaign id)` pairs that
/// have claimed, and the points ledger.
pub struct LaunchView {
    pub campaigns: Seq<CampaignView>,
    pub claims: Set<(Seq<u8>, u64)>,
    pub ledger: Map<Seq<u8>, (int, int)>,
}

/// One operation on the store, with its arguments.
pub enum Operation {
    Create {
        creator: Seq<u8>,
        token_id: Seq<u8>,
        total_supply: int,
        airdrop_percent: int,
        liquidity_percent: int,
    },
    Claim { campaign_id: u64, user: Seq<u8>, amount: int },
    AddPoints { user: Seq<u8>, points: int, referrals: int },
    Close { campaign_id: u64, creator: Seq<u8> },
}

impl LaunchView {
    pub open spec fn empty() -> LaunchView {
        LaunchView { campaigns: Seq::empty(), claims: Set::empty(), ledger: Map::empty() }
    }

    /// The `(points, referrals)` of `user`; zero for one never credited.
    pub open spec fn points_of(self, user: Seq<u8>) -> (int, int) {
        if self.ledger.contains_key(user) {
            self.ledger[user]
        } else {
            (0, 0)
        }
    }

    /// Whether a record is stored under `key`. The counter is written with
    /// the first campaign.
    pub open spec fn has_key(self, key: DataKey) -> bool {
        match key {
            DataKey::Campaign(id) => id < self.campaigns.len(),
            DataKey::CampaignCount => self.campaigns.len() > 0,
            DataKey::UserPoints(user) => self.ledger.contains_key(user@),
            DataKey::UserClaimed(user, id) => self.claims.contains((user@, id)),
        }
    }

    pub open spec fn create_outcome(
        self,
        total_supply: int,
        airdrop_percent: int,
        liquidity_percent: int,
    ) -> Result<u64, LaunchError> {
        if self.campaigns.len() >= u64::MAX {
            Err(LaunchError::CampaignIdsExhausted)
        } else if !shares_fit(total_supply, airdrop_percent, liquidity_percent) {
            Err(LaunchError::ArithmeticOverflow)
        } else {
            Ok(self.campaigns.len() as u64)
        }
    }

    pub open spec fn after_create(
        self,
        creator: Seq<u8>,
        token_id: Seq<u8>,
        total_supply: int,
        airdrop_percent: int,
        liquidity_percent: int,
    ) -> LaunchView {
        if self.create_outcome(total_supply, airdrop_percent, liquidity_percent) is Ok {
            LaunchView {
                campaigns: self.campaigns.push(
                    opened(creator, token_id, total_supply, airdrop_percent, liquidity_percent),
                ),
                ..self
            }
        } else {
            self
        }
    }

    pub open spec fn claim_accepted(self, campaign_id: u64, user: Seq<u8>, amount: int) -> bool {
        &&& !self.claims.contains((user, campaign_id))
        &&& campaign_id < self.campaigns.len()
        &&& claim_fits(self.campaigns[campaign_id as int], amount)
    }

    pub open spec fn after_claim(self, campaign_id: u64, user: Seq<u8>, amount: int) -> LaunchView {
        if self.claim_accepted(campaign_id, user, amount) {
            LaunchView {
                campaigns: self.campaigns.update(
                    campaign_id as int,
                    with_claim(self.campaigns[campaign_id as int], amount),
                ),
                claims: self.claims.insert((user, campaign_id)),
                ..self
            }
        } else {
            self
        }
    }

    pub open spec fn add_points_outcome(self, user: Seq<u8>, points: int, referrals: int) -> Result<
        (),
        LaunchError,
    > {
        if points < 0 || referrals < 0 {
            Err(LaunchError::NegativeAmount)
        } else if !fits_i128(self.points_of(user).0 + points) || !fits_i128(
            self.points_of(user).1 + referrals,
        ) {
            Err(LaunchError::ArithmeticOverflow)
        } else {
            Ok(())
        }
    }

    pub open spec fn after_add_points(self, user: Seq<u8>, points: int, referrals: int) -> LaunchView {
        if self.add_points_outcome(user, points, referrals) is Ok {
            LaunchView {
                ledger: self.ledger.insert(
                    user,
                    (self.points_of(user).0 + points, self.points_of(user).1 + referrals),
                ),
                ..self
            }
        } else {
            self
        }
    }

    pub open spec fn close_accepted(self, campaign_id: u64, caller: Seq<u8>) -> bool {
        campaign_id < self.campaigns.len() && self.campaigns[campaign_id as int].creator == caller
    }

    pub open spec fn after_close(self, campaign_id: u64, caller: Seq<u8>) -> LaunchView {
        if self.close_accepted(campaign_id, caller) {
            LaunchView {
                campaigns: self.campaigns.update(
                    campaign_id as int,
                    closed(self.campaigns[campaign_id as int]),
                ),
                ..self
            }
        } else {
            self
        }
    }

    pub open spec fn apply(self, op: Operation) -> LaunchView {
        match op {
            Operation::Create {
                creator,
                token_id,
                total_supply,
                airdrop_percent,
                liquidity_percent,
            } => self.after_create(
                creator,
                token_id,
                total_supply,
                airdrop_percent,
                liquidity_percent,
            ),
            Operation::Claim { campaign_id, user, amount } => self.after_claim(
                campaign_id,
                user,
                amount,
            ),
            Operation::AddPoints { user, points, referrals } => self.after_add_points(
                user,
                points,
                referrals,
            ),
            Operation::Close { campaign_id, creator } => self.after_close(campaign_id, creator),
        }
    }

    /// The store after the operations of `ops`, in order.
    pub open spec fn run(self, ops: Seq<Operation>) -> LaunchView
        decreases ops.len(),
    {
        if ops.len() == 0 {
            self
        } else {
            self.apply(ops[0]).run(ops.drop_first())
        }
    }
}

} // verus!
