use stellforge_launch::records::percent_of;
use stellforge_launch::{Campaign, DataKey, LaunchError, LaunchManager, Principal};

fn principal(tag: &str) -> Principal {
    Principal::new(tag.as_bytes().to_vec())
}

#[test]
fn test_create_campaign() {
    let mut manager = LaunchManager::new();
    let creator = principal("creator");
    let token = principal("token");

    let campaign_id = manager.create_campaign(creator, token, 1_000_000, 50, 30);

    assert_eq!(campaign_id, Ok(0));
}

#[test]
fn campaign_scenario_claims_once_and_within_budget() {
    let mut manager = LaunchManager::new();
    let id = manager
        .create_campaign(principal("A"), principal("T"), 1_000_000, 50, 30)
        .unwrap();
    assert_eq!(id, 0);
    let c = manager.get_campaign(0).unwrap();
    assert_eq!(c.total_supply, 1_000_000);
    assert_eq!(c.airdrop_amount, 500_000);
    assert_eq!(c.liquidity_amount, 300_000);
    assert_eq!(c.claimed, 0);
    assert!(c.is_active);
    assert!(c.creator.same(&principal("A")));
    assert!(c.token_id.same(&principal("T")));

    assert!(manager.claim_airdrop(0, principal("B"), 500_000));
    assert_eq!(manager.get_campaign(0).unwrap().claimed, 500_000);
    assert!(!manager.claim_airdrop(0, principal("B"), 1));
    assert!(!manager.claim_airdrop(0, principal("C"), 1));
    assert_eq!(manager.get_campaign(0).unwrap().claimed, 500_000);
}

#[test]
fn ids_start_at_zero_and_increase_by_one() {
    let mut manager = LaunchManager::new();
    assert_eq!(manager.create_campaign(principal("A"), principal("T"), 10, 10, 10), Ok(0));
    assert_eq!(manager.create_campaign(principal("A"), principal("T"), 10, 10, 10), Ok(1));
    assert_eq!(manager.create_campaign(principal("B"), principal("U"), 0, 0, 0), Ok(2));
    assert!(manager.get_campaign(2).is_some());
    assert!(manager.get_campaign(3).is_none());
}

#[test]
fn shares_round_down() {
    let mut manager = LaunchManager::new();
    manager.create_campaign(principal("A"), principal("T"), 999, 33, 67).unwrap();
    let c = manager.get_campaign(0).unwrap();
    assert_eq!(c.airdrop_amount, 329);
    assert_eq!(c.liquidity_amount, 669);
}

#[test]
fn shares_of_negative_products_round_toward_negative_infinity() {
    assert_eq!(percent_of(-1, 50), Some(-1));
    assert_eq!(percent_of(-200, 50), Some(-100));
    assert_eq!(percent_of(150, 1), Some(1));
}

#[test]
fn overflowing_share_is_refused() {
    let mut manager = LaunchManager::new();
    assert_eq!(
        manager.create_campaign(principal("A"), principal("T"), i128::MAX, 2, 0),
        Err(LaunchError::ArithmeticOverflow)
    );
    assert_eq!(
        manager.create_campaign(principal("A"), principal("T"), i128::MAX, 1, i128::MIN),
        Err(LaunchError::ArithmeticOverflow)
    );
    assert!(manager.get_campaign(0).is_none());
    assert_eq!(manager.create_campaign(principal("A"), principal("T"), 100, 1, 1), Ok(0));
}

#[test]
fn claim_on_missing_campaign_is_refused() {
    let mut manager = LaunchManager::new();
    assert!(!manager.claim_airdrop(0, principal("B"), 0));
    manager.create_campaign(principal("A"), principal("T"), 100, 50, 0).unwrap();
    assert!(!manager.claim_airdrop(1, principal("B"), 1));
    assert!(manager.claim_airdrop(0, principal("B"), 1));
}

#[test]
fn negative_claim_is_refused() {
    let mut manager = LaunchManager::new();
    manager.create_campaign(principal("A"), principal("T"), 100, 50, 0).unwrap();
    assert!(!manager.claim_airdrop(0, principal("B"), -1));
    assert_eq!(manager.get_campaign(0).unwrap().claimed, 0);
    assert!(manager.claim_airdrop(0, principal("B"), 50));
}

#[test]
fn claim_past_budget_is_refused_and_exact_budget_accepted() {
    let mut manager = LaunchManager::new();
    manager.create_campaign(principal("A"), principal("T"), 100, 50, 0).unwrap();
    assert!(manager.claim_airdrop(0, principal("B"), 30));
    assert!(!manager.claim_airdrop(0, principal("C"), 21));
    assert!(manager.claim_airdrop(0, principal("C"), 20));
    assert_eq!(manager.get_campaign(0).unwrap().claimed, 50);
    assert!(!manager.claim_airdrop(0, principal("D"), i128::MAX));
}

#[test]
fn claims_are_per_campaign() {
    let mut manager = LaunchManager::new();
    manager.create_campaign(principal("A"), principal("T"), 100, 50, 0).unwrap();
    manager.create_campaign(principal("A"), principal("T"), 100, 50, 0).unwrap();
    assert!(manager.claim_airdrop(0, principal("B"), 5));
    assert!(manager.claim_airdrop(1, principal("B"), 5));
    assert!(!manager.claim_airdrop(1, principal("B"), 5));
}

#[test]
fn close_by_creator_twice_and_by_stranger() {
    let mut manager = LaunchManager::new();
    manager.create_campaign(principal("A"), principal("T"), 100, 50, 0).unwrap();
    assert!(!manager.close_campaign(0, &principal("B")));
    assert!(manager.get_campaign(0).unwrap().is_active);
    assert!(manager.close_campaign(0, &principal("A")));
    assert!(!manager.get_campaign(0).unwrap().is_active);
    assert!(manager.close_campaign(0, &principal("A")));
    assert!(!manager.get_campaign(0).unwrap().is_active);
    assert!(!manager.close_campaign(1, &principal("A")));
}

#[test]
fn closed_campaign_refuses_claims() {
    let mut manager = LaunchManager::new();
    manager.create_campaign(principal("A"), principal("T"), 100, 50, 0).unwrap();
    assert!(manager.close_campaign(0, &principal("A")));
    assert!(!manager.claim_airdrop(0, principal("B"), 1));
    assert_eq!(manager.get_campaign(0).unwrap().claimed, 0);
}

#[test]
fn points_start_at_zero() {
    let manager = LaunchManager::new();
    let p = manager.get_user_points(&principal("U"));
    assert!(p.user.same(&principal("U")));
    assert_eq!(p.points, 0);
    assert_eq!(p.referrals, 0);
}

#[test]
fn points_accumulate_like_one_credit() {
    let mut twice = LaunchManager::new();
    assert_eq!(twice.add_points(principal("U"), 10, 1), Ok(()));
    assert_eq!(twice.add_points(principal("U"), 5, 2), Ok(()));
    let mut once = LaunchManager::new();
    assert_eq!(once.add_points(principal("U"), 15, 3), Ok(()));
    let a = twice.get_user_points(&principal("U"));
    let b = once.get_user_points(&principal("U"));
    assert_eq!((a.points, a.referrals), (15, 3));
    assert_eq!((b.points, b.referrals), (15, 3));
    assert_eq!(twice.get_user_points(&principal("V")).points, 0);
}

#[test]
fn points_are_kept_per_user() {
    let mut manager = LaunchManager::new();
    manager.add_points(principal("U"), 1, 0).unwrap();
    manager.add_points(principal("V"), 2, 7).unwrap();
    manager.add_points(principal("U"), 3, 1).unwrap();
    let u = manager.get_user_points(&principal("U"));
    let v = manager.get_user_points(&principal("V"));
    assert_eq!((u.points, u.referrals), (4, 1));
    assert_eq!((v.points, v.referrals), (2, 7));
}

#[test]
fn negative_points_are_refused() {
    let mut manager = LaunchManager::new();
    assert_eq!(manager.add_points(principal("U"), -1, 0), Err(LaunchError::NegativeAmount));
    assert_eq!(manager.add_points(principal("U"), 0, -1), Err(LaunchError::NegativeAmount));
    assert_eq!(manager.get_user_points(&principal("U")).points, 0);
}

#[test]
fn overflowing_points_are_refused() {
    let mut manager = LaunchManager::new();
    assert_eq!(manager.add_points(principal("U"), i128::MAX, 0), Ok(()));
    assert_eq!(manager.add_points(principal("U"), 1, 1), Err(LaunchError::ArithmeticOverflow));
    let p = manager.get_user_points(&principal("U"));
    assert_eq!((p.points, p.referrals), (i128::MAX, 0));
}

#[test]
fn principal_comparison_and_copy() {
    let a = principal("GABC");
    assert!(a.same(&principal("GABC")));
    assert!(!a.same(&principal("GABD")));
    assert!(!a.same(&principal("GAB")));
    assert_eq!(a.duplicate().bytes, b"GABC".to_vec());
}

#[test]
fn campaign_steps_directly() {
    let c = Campaign::open(principal("A"), principal("T"), 200, 10, 5).unwrap();
    assert_eq!((c.airdrop_amount, c.liquidity_amount), (20, 10));
    let after = c.claim(20).unwrap();
    assert_eq!(after.claimed, 20);
    assert!(after.claim(1).is_none());
    let shut = after.close_by(&principal("A")).unwrap();
    assert!(!shut.is_active);
    assert!(after.close_by(&principal("B")).is_none());
}

#[test]
fn has_reports_stored_records() {
    let mut manager = LaunchManager::new();
    assert!(!manager.has(&DataKey::CampaignCount));
    assert!(!manager.has(&DataKey::Campaign(0)));
    manager.create_campaign(principal("A"), principal("T"), 100, 50, 0).unwrap();
    assert!(manager.has(&DataKey::CampaignCount));
    assert!(manager.has(&DataKey::Campaign(0)));
    assert!(!manager.has(&DataKey::Campaign(1)));
    assert!(!manager.has(&DataKey::UserClaimed(principal("B"), 0)));
    assert!(manager.claim_airdrop(0, principal("B"), 1));
    assert!(manager.has(&DataKey::UserClaimed(principal("B"), 0)));
    assert!(!manager.has(&DataKey::UserClaimed(principal("B"), 1)));
    assert!(!manager.has(&DataKey::UserPoints(principal("U"))));
    manager.add_points(principal("U"), 0, 0).unwrap();
    assert!(manager.has(&DataKey::UserPoints(principal("U"))));
}
