use swarm_network::errors::ErrorCode;
use swarm_network::ids::Identity;
use swarm_network::ids::TokenAccountRef;
use swarm_network::network::Network;

const ADMIN: Identity = Identity { id: 1 };
const ALICE: Identity = Identity { id: 2 };
const REFERRER: Identity = Identity { id: 3 };
const MINT: Identity = Identity { id: 10 };
const REWARD_POOL: Identity = Identity { id: 11 };
const STAKE_POOL: Identity = Identity { id: 12 };

fn bootstrapped(referrer: Option<Identity>) -> Network {
    let mut net = Network::new();
    net.initialize(ADMIN, MINT, REWARD_POOL, STAKE_POOL, 7).unwrap();
    net.register_device(ALICE, b"RTX4090".to_vec(), 24, 1000, referrer, 100)
        .unwrap();
    net
}

fn reward_pool_account() -> TokenAccountRef {
    TokenAccountRef { key: REWARD_POOL, owner: ADMIN }
}

fn alice_account() -> TokenAccountRef {
    TokenAccountRef { key: Identity { id: 21 }, owner: ALICE }
}

fn referrer_account() -> TokenAccountRef {
    TokenAccountRef { key: Identity { id: 22 }, owner: REFERRER }
}

#[test]
fn initialize_twice_fails_already_initialized() {
    let mut net = Network::new();
    net.initialize(ADMIN, MINT, REWARD_POOL, STAKE_POOL, 7).unwrap();
    let r = net.initialize(ADMIN, MINT, REWARD_POOL, STAKE_POOL, 7);
    assert_eq!(r, Err(ErrorCode::AlreadyInitialized));
    let st = net.registry.as_ref().unwrap();
    assert_eq!(st.authority, ADMIN);
    assert_eq!(st.total_staked, 0);
    assert_eq!(st.total_rewards_distributed, 0);
}

#[test]
fn distribute_100_with_referrer_pays_5_bonus() {
    let mut net = bootstrapped(Some(REFERRER));
    let payout = net
        .distribute_reward(
            ADMIN,
            ALICE,
            reward_pool_account(),
            alice_account(),
            Some(referrer_account()),
            100,
        )
        .unwrap();

    assert_eq!(payout.reward.source, REWARD_POOL);
    assert_eq!(payout.reward.destination, Identity { id: 21 });
    assert_eq!(payout.reward.amount, 100);
    assert_eq!(payout.reward.authority, ADMIN);

    let bonus = payout.referral.unwrap();
    assert_eq!(bonus.source, REWARD_POOL);
    assert_eq!(bonus.destination, Identity { id: 22 });
    assert_eq!(bonus.amount, 5);

    let d = net.device_of(ALICE).unwrap();
    assert_eq!(d.total_rewards, 100);
    assert_eq!(d.referral_rewards, 5);
    // The registry total counts the reward alone, never the bonus.
    assert_eq!(net.registry.as_ref().unwrap().total_rewards_distributed, 100);
}

#[test]
fn distribute_19_pays_no_bonus_at_all() {
    let mut net = bootstrapped(Some(REFERRER));
    let payout = net
        .distribute_reward(
            ADMIN,
            ALICE,
            reward_pool_account(),
            alice_account(),
            Some(referrer_account()),
            19,
        )
        .unwrap();
    assert_eq!(payout.reward.amount, 19);
    assert!(payout.referral.is_none());
    let d = net.device_of(ALICE).unwrap();
    assert_eq!(d.total_rewards, 19);
    assert_eq!(d.referral_rewards, 0);
}

#[test]
fn distribute_without_destination_skips_bonus_silently() {
    let mut net = bootstrapped(Some(REFERRER));
    let payout = net
        .distribute_reward(ADMIN, ALICE, reward_pool_account(), alice_account(), None, 100)
        .unwrap();
    assert!(payout.referral.is_none());
    let d = net.device_of(ALICE).unwrap();
    assert_eq!(d.total_rewards, 100);
    // The skipped bonus is not queued anywhere.
    assert_eq!(d.referral_rewards, 0);
}

#[test]
fn distribute_without_referrer_ignores_bonus_arithmetic() {
    // With no referrer the five-percent scaling is never computed, so
    // even the largest amount distributes cleanly.
    let mut net = bootstrapped(None);
    let payout = net
        .distribute_reward(
            ADMIN,
            ALICE,
            reward_pool_account(),
            alice_account(),
            Some(referrer_account()),
            u64::MAX,
        )
        .unwrap();
    assert!(payout.referral.is_none());
    assert_eq!(net.device_of(ALICE).unwrap().total_rewards, u64::MAX);
}

#[test]
fn distribute_scaling_overflow_fails_and_changes_nothing() {
    let mut net = bootstrapped(Some(REFERRER));
    let too_big = u64::MAX / 5 + 1;
    let r = net.distribute_reward(
        ADMIN,
        ALICE,
        reward_pool_account(),
        alice_account(),
        Some(referrer_account()),
        too_big,
    );
    assert_eq!(r, Err(ErrorCode::ArithmeticOverflow));
    let d = net.device_of(ALICE).unwrap();
    assert_eq!(d.total_rewards, 0);
    assert_eq!(d.referral_rewards, 0);
    assert_eq!(net.registry.as_ref().unwrap().total_rewards_distributed, 0);
}

#[test]
fn distribute_by_non_admin_fails_unauthorized() {
    let mut net = bootstrapped(Some(REFERRER));
    let mallory = Identity { id: 66 };
    let r = net.distribute_reward(
        mallory,
        ALICE,
        reward_pool_account(),
        alice_account(),
        None,
        100,
    );
    assert_eq!(r, Err(ErrorCode::Unauthorized));
    assert_eq!(net.device_of(ALICE).unwrap().total_rewards, 0);
}

#[test]
fn distribute_from_wrong_pool_fails() {
    let mut net = bootstrapped(Some(REFERRER));
    let bad_pool = TokenAccountRef { key: Identity { id: 99 }, owner: ADMIN };
    let r = net.distribute_reward(ADMIN, ALICE, bad_pool, alice_account(), None, 100);
    assert_eq!(r, Err(ErrorCode::InvalidStakePool));
}

#[test]
fn distribute_to_account_of_another_owner_fails() {
    let mut net = bootstrapped(Some(REFERRER));
    let not_alices = TokenAccountRef { key: Identity { id: 21 }, owner: REFERRER };
    let r = net.distribute_reward(ADMIN, ALICE, reward_pool_account(), not_alices, None, 100);
    assert_eq!(r, Err(ErrorCode::Unauthorized));
}

#[test]
fn distribute_to_unregistered_owner_fails_not_found() {
    let mut net = bootstrapped(None);
    let nobody = Identity { id: 77 };
    let dest = TokenAccountRef { key: Identity { id: 30 }, owner: nobody };
    let r = net.distribute_reward(ADMIN, nobody, reward_pool_account(), dest, None, 100);
    assert_eq!(r, Err(ErrorCode::NotFound));
}

#[test]
fn claim_pays_balance_then_resets_to_zero() {
    let mut net = bootstrapped(Some(REFERRER));
    net.distribute_reward(
        ADMIN,
        ALICE,
        reward_pool_account(),
        alice_account(),
        Some(referrer_account()),
        100,
    )
    .unwrap();
    assert_eq!(net.device_of(ALICE).unwrap().referral_rewards, 5);

    let t = net
        .claim_referral_rewards(ALICE, alice_account(), reward_pool_account())
        .unwrap();
    assert_eq!(t.source, REWARD_POOL);
    assert_eq!(t.destination, Identity { id: 21 });
    assert_eq!(t.amount, 5);
    assert_eq!(t.authority, ADMIN);
    assert_eq!(net.device_of(ALICE).unwrap().referral_rewards, 0);

    // An immediate second claim fails cleanly instead of paying twice.
    let r = net.claim_referral_rewards(ALICE, alice_account(), reward_pool_account());
    assert_eq!(r, Err(ErrorCode::NoRewardsToClaim));
}

#[test]
fn claim_with_zero_balance_fails_no_rewards_to_claim() {
    let mut net = bootstrapped(Some(REFERRER));
    let r = net.claim_referral_rewards(ALICE, alice_account(), reward_pool_account());
    assert_eq!(r, Err(ErrorCode::NoRewardsToClaim));
}

#[test]
fn claim_keeps_registry_totals_untouched() {
    let mut net = bootstrapped(Some(REFERRER));
    net.distribute_reward(
        ADMIN,
        ALICE,
        reward_pool_account(),
        alice_account(),
        Some(referrer_account()),
        100,
    )
    .unwrap();
    net.claim_referral_rewards(ALICE, alice_account(), reward_pool_account())
        .unwrap();
    let st = net.registry.as_ref().unwrap();
    assert_eq!(st.total_rewards_distributed, 100);
    assert_eq!(st.total_staked, 0);
}
