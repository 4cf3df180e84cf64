use swarm_network::ids::Identity;
use swarm_network::ids::TokenAccountRef;
use swarm_network::network::Network;
use swarm_network::records::TaskRequirements;
use swarm_network::records::TaskResult;
use swarm_network::records::TaskStatus;

#[test]
fn bootstrap_register_task_reward_round_trip() {
    let admin = Identity { id: 1 };
    let owner = Identity { id: 2 };
    let referrer = Identity { id: 3 };
    let device_key = Identity { id: 2 };
    let mint = Identity { id: 10 };
    let reward_pool = Identity { id: 11 };
    let stake_pool = Identity { id: 12 };

    let mut net = Network::new();
    net.initialize(admin, mint, reward_pool, stake_pool, 7).unwrap();

    net.register_device(owner, b"RTX4090".to_vec(), 24, 1000, Some(referrer), 50)
        .unwrap();

    let id = b"render-job".to_vec();
    let reqs = TaskRequirements { min_vram: 8, min_hash_rate: 100, priority: 1 };
    net.create_task(owner, id.clone(), reqs, 60).unwrap();

    net.assign_task(owner, &id, device_key).unwrap();
    assert_eq!(net.task_of(owner, &id).unwrap().status, TaskStatus::Processing);

    let result = TaskResult { compute_time: 30, hash_rate: 990, success: true };
    net.complete_task(owner, &id, result, 95).unwrap();
    let t = net.task_of(owner, &id).unwrap();
    assert_eq!(t.status, TaskStatus::Completed);
    assert_eq!(t.result, Some(result));
    assert_eq!(t.end_time, Some(95));

    let pool_account = TokenAccountRef { key: reward_pool, owner: admin };
    let owner_account = TokenAccountRef { key: Identity { id: 21 }, owner };
    let referrer_account = TokenAccountRef { key: Identity { id: 22 }, owner: referrer };
    let payout = net
        .distribute_reward(
            admin,
            owner,
            pool_account,
            owner_account,
            Some(referrer_account),
            1000,
        )
        .unwrap();

    assert_eq!(payout.reward.amount, 1000);
    assert_eq!(payout.referral.unwrap().amount, 50);

    let d = net.device_of(owner).unwrap();
    assert_eq!(d.total_rewards, 1000);
    assert_eq!(d.referral_rewards, 50);
    // The referral bonus of 50 leaves the distributed total untouched.
    assert_eq!(net.registry.as_ref().unwrap().total_rewards_distributed, 1000);
}
