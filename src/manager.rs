use vstd::prelude::*;
use crate::model::LaunchView;
use crate::principal::Principal;
use crate::records::{Campaign, DataKey, LaunchError, UserPoints};

verus! {

/// The campaign registry, its claim guard and the points ledger, over one
/// in-memory store. Campaign ids are indexes into `campaigns`.
pub struct LaunchManager {
    campaigns: Vec<Campaign>,
    next_id: u64,
    claims: Vec<(Principal, u64)>,
    ledger: Vec<UserPoints>,
    claimed_pairs: Ghost<Set<(Seq<u8>, u64)>>,
    balances: Ghost<Map<Seq<u8>, (int, int)>>,
}

impl View for LaunchManager {
    type V = LaunchView;

    closed spec fn view(&self) -> LaunchView {
        LaunchView {
            campaigns: self.campaigns@.map_values(|c: Campaign| c@),
            claims: self.claimed_pairs@,
            ledger: self.balances@,
        }
    }
}

/// Each stored claim marker is in `pairs`, and each pair has a marker.
pub closed spec fn claims_match(claims: Seq<(Principal, u64)>, pairs: Set<(Seq<u8>, u64)>) -> bool {
    &&& forall|i: int|
        0 <= i < claims.len() ==> #[trigger] pairs.contains((claims[i].0@, claims[i].1))
    &&& forall|k: (Seq<u8>, u64)| #[trigger]
        pairs.contains(k) ==> exists|i: int| 0 <= i < claims.len() && k == (claims[i].0@, claims[i].1)
}

/// The ledger entries have distinct users, and `balances` holds exactly
/// their counters.
pub closed spec fn ledger_matches(ledger: Seq<UserPoints>, balances: Map<Seq<u8>, (int, int)>) -> bool {
    &&& forall|i: int, j: int| 0 <= i < j < ledger.len() ==> ledger[i].user@ != ledger[j].user@
    &&& forall|i: int|
        0 <= i < ledger.len() ==> {
            &&& #[trigger] balances.contains_key(ledger[i].user@)
            &&& balances[ledger[i].user@] == (ledger[i].points as int, ledger[i].referrals as int)
        }
    &&& forall|u: Seq<u8>| #[trigger]
        balances.contains_key(u) ==> exists|i: int| 0 <= i < ledger.len() && ledger[i].user@ == u
}

impl LaunchManager {
    pub closed spec fn wf(&self) -> bool {
        &&& self.next_id as int == self.campaigns@.len()
        &&& claims_match(self.claims@, self.claimed_pairs@)
        &&& ledger_matches(self.ledger@, self.balances@)
    }

    /// An empty store: no campaign, no claim, no points.
    pub fn new() -> (r: LaunchManager)
        ensures
            r.wf(),
            r@ == LaunchView::empty(),
    {
        let r = LaunchManager {
            campaigns: Vec::new(),
            next_id: 0,
            claims: Vec::new(),
            ledger: Vec::new(),
            claimed_pairs: Ghost(Set::empty()),
            balances: Ghost(Map::empty()),
        };
        assert(r@.campaigns =~= Seq::empty());
        r
    }

    /// The id that the next campaign will get.
    fn next_campaign_id(&self) -> (r: u64)
        requires
            self.wf(),
        ensures
            r == self@.campaigns.len(),
    {
        self.next_id
    }

    /// Records a new open campaign and returns its id. The airdrop and
    /// liquidity amounts are `total_supply` times the percent, divided by
    /// 100 and rounded down.
    pub fn create_campaign(
        &mut self,
        creator: Principal,
        token_id: Principal,
        total_supply: i128,
        airdrop_percent: i128,
        liquidity_percent: i128,
    ) -> (r: Result<u64, LaunchError>)
        requires
            old(self).wf(),
        ensures
            final(self).wf(),
            r == old(self)@.create_outcome(
                total_supply as int,
                airdrop_percent as int,
                liquidity_percent as int,
            ),
            final(self)@ == old(self)@.after_create(
                creator@,
                token_id@,
                total_supply as int,
                airdrop_percent as int,
                liquidity_percent as int,
            ),
    {
        let campaign_id = self.next_campaign_id();
        if campaign_id == u64::MAX {
            return Err(LaunchError::CampaignIdsExhausted);
        }
        let campaign = match Campaign::open(
            creator,
            token_id,
            total_supply,
            airdrop_percent,
            liquidity_percent,
        ) {
            Ok(c) => c,
            Err(e) => return Err(e),
        };
        let ghost before = self@;
        self.campaigns.push(campaign);
        self.next_id = campaign_id + 1;
        assert(self@.campaigns =~= before.campaigns.push(campaign@));
        Ok(campaign_id)
    }

    fn has_claimed(&self, user: &Principal, campaign_id: u64) -> (r: bool)
        requires
            self.wf(),
        ensures
            r == self@.claims.contains((user@, campaign_id)),
    {
        let mut i: usize = 0;
        while i < self.claims.len()
            invariant
                self.wf(),
                0 <= i <= self.claims@.len(),
                forall|j: int| 0 <= j < i ==> (self.claims@[j].0@, self.claims@[j].1) != (user@, campaign_id),
            decreases self.claims@.len() - i,
        {
            let entry = &self.claims[i];
            if entry.1 == campaign_id && entry.0.same(user) {
                assert(self.claimed_pairs@.contains((self.claims@[i as int].0@, self.claims@[i as int].1)));
                return true;
            }
            i = i + 1;
        }
        false
    }

    /// Claims `amount` of campaign `campaign_id`'s airdrop for `user`.
    /// Returns `true` when the claim is recorded; `false`, with nothing
    /// changed, when `user` already claimed from this campaign, the campaign
    /// does not exist or is closed, `amount` is negative, or the claim would
    /// take `claimed` past `airdrop_amount`.
    pub fn claim_airdrop(&mut self, campaign_id: u64, user: Principal, amount: i128) -> (r: bool)
        requires
            old(self).wf(),
        ensures
            final(self).wf(),
            r == old(self)@.claim_accepted(campaign_id, user@, amount as int),
            final(self)@ == old(self)@.after_claim(campaign_id, user@, amount as int),
    {
        if self.has_claimed(&user, campaign_id) {
            return false;
        }
        if campaign_id >= self.next_id {
            return false;
        }
        let n: usize = self.campaigns.len();
        assert(campaign_id < n);
        let index = campaign_id as usize;
        let updated = match self.campaigns[index].claim(amount) {
            Some(c) => c,
            None => return false,
        };
        let ghost before = self@;
        let ghost pair = (user@, campaign_id);
        let ghost old_claims = self.claims@;
        let ghost old_pairs = self.claimed_pairs@;
        self.campaigns.set(index, updated);
        self.claims.push((user, campaign_id));
        self.claimed_pairs = Ghost(self.claimed_pairs@.insert(pair));
        assert(self.campaigns@.len() == n);
        assert(self@.campaigns =~= before.campaigns.update(index as int, updated@));
        assert forall|i: int| 0 <= i < self.claims@.len() implies #[trigger] self.claimed_pairs@.contains(
            (self.claims@[i].0@, self.claims@[i].1),
        ) by {
            if i < old_claims.len() {
                assert(self.claims@[i] == old_claims[i]);
                assert(old_pairs.contains((old_claims[i].0@, old_claims[i].1)));
            }
        }
        assert forall|k: (Seq<u8>, u64)| #[trigger]
            self.claimed_pairs@.contains(k) implies exists|i: int|
                0 <= i < self.claims@.len() && k == (self.claims@[i].0@, self.claims@[i].1) by {
            if k == pair {
                assert(k == (self.claims@[old_claims.len() as int].0@, self.claims@[old_claims.len() as int].1));
            } else {
                assert(old_pairs.contains(k));
                let i = choose|i: int|
                    0 <= i < old_claims.len() && k == (old_claims[i].0@, old_claims[i].1);
                assert(self.claims@[i] == old_claims[i]);
            }
        }
        true
    }

    fn find_points(&self, user: &Principal) -> (r: Option<usize>)
        requires
            self.wf(),
        ensures
            r matches Some(i) ==> i < self.ledger@.len() && self.ledger@[i as int].user@ == user@,
            r is None ==> !self@.ledger.contains_key(user@),
    {
        let mut i: usize = 0;
        while i < self.ledger.len()
            invariant
                self.wf(),
                0 <= i <= self.ledger@.len(),
                forall|j: int| 0 <= j < i ==> self.ledger@[j].user@ != user@,
            decreases self.ledger@.len() - i,
        {
            if self.ledger[i].user.same(user) {
                return Some(i);
            }
            i = i + 1;
        }
        None
    }

    /// The points and referrals credited to `user`; zero for one never credited.
    pub fn get_user_points(&self, user: &Principal) -> (r: UserPoints)
        requires
            self.wf(),
        ensures
            r.user@ == user@,
            (r.points as int, r.referrals as int) == self@.points_of(user@),
    {
        match self.find_points(user) {
            Some(i) => {
                let e = &self.ledger[i];
                UserPoints { user: user.duplicate(), points: e.points, referrals: e.referrals }
            },
            None => UserPoints::zero(user.duplicate()),
        }
    }

    /// Adds `points` and `referrals` to `user`'s counters. Negative amounts
    /// and totals that do not fit in an `i128` are refused with nothing changed.
    pub fn add_points(&mut self, user: Principal, points: i128, referrals: i128) -> (r: Result<
        (),
        LaunchError,
    >)
        requires
            old(self).wf(),
        ensures
            final(self).wf(),
            r == old(self)@.add_points_outcome(user@, points as int, referrals as int),
            final(self)@ == old(self)@.after_add_points(user@, points as int, referrals as int),
    {
        let found = self.find_points(&user);
        let current = self.get_user_points(&user);
        let updated = match current.credit(points, referrals) {
            Ok(u) => u,
            Err(e) => return Err(e),
        };
        let ghost u = user@;
        let ghost entry = (updated.points as int, updated.referrals as int);
        let ghost before = self.ledger@;
        match found {
            Some(i) => {
                self.ledger.set(i, updated);
                assert forall|a: int, b: int|
                    0 <= a < b < self.ledger@.len() implies self.ledger@[a].user@
                        != self.ledger@[b].user@ by {
                    assert(before[a].user@ != before[b].user@);
                }
            },
            None => {
                self.ledger.push(updated);
                assert forall|a: int, b: int|
                    0 <= a < b < self.ledger@.len() implies self.ledger@[a].user@
                        != self.ledger@[b].user@ by {
                    if b == before.len() {
                        assert(self.balances@.contains_key(before[a].user@));
                    }
                }
            },
        }
        self.balances = Ghost(self.balances@.insert(u, entry));
        assert forall|i: int| 0 <= i < self.ledger@.len() implies {
            &&& #[trigger] self.balances@.contains_key(self.ledger@[i].user@)
            &&& self.balances@[self.ledger@[i].user@] == (
                self.ledger@[i].points as int,
                self.ledger@[i].referrals as int,
            )
        } by {
            if self.ledger@[i].user@ != u {
                assert(self.ledger@[i] == before[i]);
            } else if found is Some {
                let k = found->Some_0 as int;
                if i != k {
                    assert(before[i].user@ == before[k].user@);
                    assert(false);
                }
            }
        }
        assert forall|v: Seq<u8>| #[trigger]
            self.balances@.contains_key(v) implies exists|i: int|
                0 <= i < self.ledger@.len() && self.ledger@[i].user@ == v by {
            if v == u {
                match found {
                    Some(k) => assert(self.ledger@[k as int].user@ == v),
                    None => assert(self.ledger@[before.len() as int].user@ == v),
                }
            } else {
                let i = choose|i: int| 0 <= i < before.len() && before[i].user@ == v;
                assert(self.ledger@[i].user@ == v);
            }
        }
        Ok(())
    }

    /// Whether a record is stored under `key`.
    pub fn has(&self, key: &DataKey) -> (r: bool)
        requires
            self.wf(),
        ensures
            r == self@.has_key(*key),
    {
        match key {
            DataKey::Campaign(id) => *id < self.next_id,
            DataKey::CampaignCount => self.next_id > 0,
            DataKey::UserPoints(user) => self.find_points(user).is_some(),
            DataKey::UserClaimed(user, id) => self.has_claimed(user, *id),
        }
    }

    /// The campaign with id `campaign_id`, if one was created.
    pub fn get_campaign(&self, campaign_id: u64) -> (r: Option<Campaign>)
        requires
            self.wf(),
        ensures
            r is Some <==> campaign_id < self@.campaigns.len(),
            r matches Some(c) ==> c@ == self@.campaigns[campaign_id as int],
    {
        let n: usize = self.campaigns.len();
        if campaign_id < self.next_id {
            assert(campaign_id < n);
            Some(self.campaigns[campaign_id as usize].duplicate())
        } else {
            None
        }
    }

    /// Closes campaign `campaign_id` on behalf of `creator`. Returns `true`
    /// when the campaign exists and `creator` created it; `false`, with
    /// nothing changed, otherwise. Closing a closed campaign again succeeds.
    pub fn close_campaign(&mut self, campaign_id: u64, creator: &Principal) -> (r: bool)
        requires
            old(self).wf(),
        ensures
            final(self).wf(),
            r == old(self)@.close_accepted(campaign_id, creator@),
            final(self)@ == old(self)@.after_close(campaign_id, creator@),
    {
        if campaign_id >= self.next_id {
            return false;
        }
        let n: usize = self.campaigns.len();
        assert(campaign_id < n);
        let index = campaign_id as usize;
        let updated = match self.campaigns[index].close_by(creator) {
            Some(c) => c,
            None => return false,
        };
        let ghost before = self@;
        self.campaigns.set(index, updated);
        assert(self.campaigns@.len() == n);
        assert(self@.campaigns =~= before.campaigns.update(index as int, updated@));
        true
    }
}

} // verus!
