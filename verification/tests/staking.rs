use swarm_network::errors::ErrorCode;
use swarm_network::ids::Identity;
use swarm_network::ids::TokenAccountRef;
use swarm_network::network::Network;

const ADMIN: Identity = Identity { id: 1 };
const MINT: Identity = Identity { id: 10 };
const REWARD_POOL: Identity = Identity { id: 11 };
const STAKE_POOL: Identity = Identity { id: 12 };

fn bootstrapped() -> Network {
    let mut net = Network::new();
    net.initialize(ADMIN, MINT, REWARD_POOL, STAKE_POOL, 7).unwrap();
    net
}

fn register(net: &mut Network, owner: Identity) {
    net.register_device(owner, b"RTX4090".to_vec(), 24, 1000, None, 100)
        .unwrap();
}

fn funding(owner: Identity, key: u64) -> TokenAccountRef {
    TokenAccountRef { key: Identity { id: key }, owner }
}

fn stake_pool_account() -> TokenAccountRef {
    TokenAccountRef { key: STAKE_POOL, owner: ADMIN }
}

#[test]
fn stake_increases_counters_by_exact_amount() {
    let mut net = bootstrapped();
    let alice = Identity { id: 2 };
    let bob = Identity { id: 3 };
    register(&mut net, alice);
    register(&mut net, bob);

    net.stake_tokens(alice, funding(alice, 20), stake_pool_account(), 100)
        .unwrap();
    net.stake_tokens(bob, funding(bob, 21), stake_pool_account(), 250)
        .unwrap();
    net.stake_tokens(alice, funding(alice, 20), stake_pool_account(), 1)
        .unwrap();

    assert_eq!(net.device_of(alice).unwrap().staked_amount, 101);
    assert_eq!(net.device_of(bob).unwrap().staked_amount, 250);
    let total = net.registry.as_ref().unwrap().total_staked;
    assert_eq!(total, 351);
    assert_eq!(
        net.device_of(alice).unwrap().staked_amount + net.device_of(bob).unwrap().staked_amount,
        total
    );
}

#[test]
fn stake_returns_transfer_into_recorded_pool() {
    let mut net = bootstrapped();
    let alice = Identity { id: 2 };
    register(&mut net, alice);

    let t = net
        .stake_tokens(alice, funding(alice, 20), stake_pool_account(), 42)
        .unwrap();
    assert_eq!(t.source, Identity { id: 20 });
    assert_eq!(t.destination, STAKE_POOL);
    assert_eq!(t.amount, 42);
    assert_eq!(t.authority, alice);
}

#[test]
fn stake_wrong_pool_fails_and_changes_nothing() {
    let mut net = bootstrapped();
    let alice = Identity { id: 2 };
    register(&mut net, alice);

    let bad_pool = TokenAccountRef { key: Identity { id: 99 }, owner: ADMIN };
    let r = net.stake_tokens(alice, funding(alice, 20), bad_pool, 50);
    assert_eq!(r, Err(ErrorCode::InvalidStakePool));
    assert_eq!(net.device_of(alice).unwrap().staked_amount, 0);
    assert_eq!(net.registry.as_ref().unwrap().total_staked, 0);
}

#[test]
fn stake_overflow_fails_and_changes_nothing() {
    let mut net = bootstrapped();
    let alice = Identity { id: 2 };
    let bob = Identity { id: 3 };
    register(&mut net, alice);
    register(&mut net, bob);

    net.stake_tokens(alice, funding(alice, 20), stake_pool_account(), u64::MAX)
        .unwrap();
    // Bob's own stake would fit, but the registry total would overflow.
    let r = net.stake_tokens(bob, funding(bob, 21), stake_pool_account(), 1);
    assert_eq!(r, Err(ErrorCode::ArithmeticOverflow));
    assert_eq!(net.device_of(alice).unwrap().staked_amount, u64::MAX);
    assert_eq!(net.device_of(bob).unwrap().staked_amount, 0);
    assert_eq!(net.registry.as_ref().unwrap().total_staked, u64::MAX);
}

#[test]
fn stake_without_device_fails_not_found() {
    let mut net = bootstrapped();
    let nobody = Identity { id: 77 };
    let r = net.stake_tokens(nobody, funding(nobody, 20), stake_pool_account(), 5);
    assert_eq!(r, Err(ErrorCode::NotFound));
}

#[test]
fn stake_from_unowned_account_fails_unauthorized() {
    let mut net = bootstrapped();
    let alice = Identity { id: 2 };
    let mallory = Identity { id: 66 };
    register(&mut net, alice);
    let r = net.stake_tokens(alice, funding(mallory, 20), stake_pool_account(), 5);
    assert_eq!(r, Err(ErrorCode::Unauthorized));
    assert_eq!(net.device_of(alice).unwrap().staked_amount, 0);
}

#[test]
fn stake_before_bootstrap_fails_not_found() {
    let mut net = Network::new();
    let alice = Identity { id: 2 };
    net.register_device(alice, b"GTX1080".to_vec(), 8, 500, None, 1)
        .unwrap();
    let r = net.stake_tokens(alice, funding(alice, 20), stake_pool_account(), 5);
    assert_eq!(r, Err(ErrorCode::NotFound));
}
