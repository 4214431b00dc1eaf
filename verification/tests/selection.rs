use load_balancer::backend::{BackendSet, ConfigurationError};
use load_balancer::selector::{LoadBalancer, SharedLoadBalancer};

fn names(list: &[&str]) -> Vec<String> {
    list.iter().map(|name| name.to_string()).collect()
}

fn take(balancer: &mut LoadBalancer, count: usize) -> Vec<String> {
    (0..count).map(|_| balancer.get_server()).collect()
}

#[test]
fn weights_two_one_three_give_the_cycle() {
    let mut balancer = LoadBalancer::new(names(&["A", "B", "C"]), vec![2, 1, 3]).unwrap();
    assert_eq!(take(&mut balancer, 6), names(&["A", "A", "B", "C", "C", "C"]));
}

#[test]
fn twelve_selections_repeat_the_cycle() {
    let mut balancer = LoadBalancer::new(names(&["A", "B", "C"]), vec![2, 1, 3]).unwrap();
    let cycle = ["A", "A", "B", "C", "C", "C"];
    let mut twice = cycle.to_vec();
    twice.extend_from_slice(&cycle);
    assert_eq!(take(&mut balancer, 12), names(&twice));
}

#[test]
fn equal_weights_alternate() {
    let mut balancer = LoadBalancer::new(names(&["A", "B"]), vec![1, 1]).unwrap();
    for round in 0..50 {
        assert_eq!(balancer.get_server(), "A", "round {}", round);
        assert_eq!(balancer.get_server(), "B", "round {}", round);
    }
}

#[test]
fn single_backend_serves_every_call() {
    let mut balancer = LoadBalancer::new(names(&["only"]), vec![1]).unwrap();
    for _ in 0..10 {
        assert_eq!(balancer.get_server(), "only");
    }
}

#[test]
fn single_backend_with_a_larger_weight_serves_every_call() {
    let mut balancer = LoadBalancer::new(names(&["only"]), vec![4]).unwrap();
    for _ in 0..9 {
        assert_eq!(balancer.get_server(), "only");
    }
}

#[test]
fn addresses_need_not_differ() {
    let mut balancer = LoadBalancer::new(names(&["A", "B", "A"]), vec![1, 2, 1]).unwrap();
    assert_eq!(take(&mut balancer, 8), names(&["A", "B", "B", "A", "A", "B", "B", "A"]));
}

#[test]
fn three_to_one_routes_three_then_one() {
    let servers = names(&["http://10.0.0.1:9000", "http://10.0.0.2:9000"]);
    let mut balancer = LoadBalancer::new(servers, vec![3, 1]).unwrap();
    assert_eq!(
        take(&mut balancer, 4),
        names(&[
            "http://10.0.0.1:9000",
            "http://10.0.0.1:9000",
            "http://10.0.0.1:9000",
            "http://10.0.0.2:9000",
        ])
    );
}

#[test]
fn fewer_weights_than_addresses_are_rejected() {
    let result = LoadBalancer::new(names(&["A", "B"]), vec![1]);
    assert_eq!(result.err(), Some(ConfigurationError::LengthMismatch));
}

#[test]
fn more_weights_than_addresses_are_rejected() {
    let result = LoadBalancer::new(names(&["A"]), vec![1, 2]);
    assert_eq!(result.err(), Some(ConfigurationError::LengthMismatch));
}

#[test]
fn a_zero_weight_is_rejected() {
    let result = LoadBalancer::new(names(&["A", "B"]), vec![0, 1]);
    assert_eq!(result.err(), Some(ConfigurationError::ZeroWeight { index: 0 }));
}

#[test]
fn the_first_zero_weight_is_reported() {
    let result = LoadBalancer::new(names(&["A", "B", "C", "D"]), vec![5, 0, 7, 0]);
    assert_eq!(result.err(), Some(ConfigurationError::ZeroWeight { index: 1 }));
}

#[test]
fn no_backend_is_rejected() {
    let result = LoadBalancer::new(Vec::new(), Vec::new());
    assert_eq!(result.err(), Some(ConfigurationError::Empty));
}

#[test]
fn lengths_are_compared_before_anything_else() {
    let result = LoadBalancer::new(Vec::new(), vec![0]);
    assert_eq!(result.err(), Some(ConfigurationError::LengthMismatch));
    let result = LoadBalancer::new(names(&["A", "B"]), vec![0]);
    assert_eq!(result.err(), Some(ConfigurationError::LengthMismatch));
}

#[test]
fn backend_set_keeps_what_it_was_given() {
    let set = BackendSet::new(names(&["A", "B", "C"]), vec![2, 1, 3]).unwrap();
    assert_eq!(set.len(), 3);
    assert_eq!(set.address(0), "A");
    assert_eq!(set.address(2), "C");
    assert_eq!(set.weight(0), 2);
    assert_eq!(set.weight(1), 1);
    assert_eq!(set.weight(2), 3);
}

#[test]
fn backend_set_rejects_what_the_selector_rejects() {
    assert_eq!(
        BackendSet::new(names(&["A", "B"]), vec![1]).err(),
        Some(ConfigurationError::LengthMismatch)
    );
    assert_eq!(
        BackendSet::new(names(&["A", "B"]), vec![1, 0]).err(),
        Some(ConfigurationError::ZeroWeight { index: 1 })
    );
    assert_eq!(BackendSet::new(Vec::new(), Vec::new()).err(), Some(ConfigurationError::Empty));
}

#[test]
fn a_selector_over_a_backend_set_starts_at_the_first_backend() {
    let set = BackendSet::new(names(&["A", "B"]), vec![2, 2]).unwrap();
    let mut balancer = LoadBalancer::with_backends(set);
    assert_eq!(balancer.backends().len(), 2);
    assert_eq!(take(&mut balancer, 5), names(&["A", "A", "B", "B", "A"]));
}

#[test]
fn large_weights_do_not_overflow() {
    let mut balancer = LoadBalancer::new(names(&["A", "B"]), vec![usize::MAX, usize::MAX]).unwrap();
    for _ in 0..1000 {
        assert_eq!(balancer.get_server(), "A");
    }
}

#[test]
fn the_window_of_one_cycle_holds_each_backend_as_often_as_its_weight() {
    let weights = vec![4usize, 1, 2, 5];
    let servers = names(&["a", "b", "c", "d"]);
    let mut balancer = LoadBalancer::new(servers.clone(), weights.clone()).unwrap();
    let total: usize = weights.iter().sum();
    for _ in 0..3 {
        let window = take(&mut balancer, total);
        for (server, weight) in servers.iter().zip(weights.iter()) {
            assert_eq!(window.iter().filter(|got| *got == server).count(), *weight);
        }
    }
}

#[test]
fn a_shared_selector_follows_the_same_schedule() {
    let shared = SharedLoadBalancer::new(names(&["A", "B", "C"]), vec![2, 1, 3]).unwrap();
    let got: Vec<String> = (0..12).map(|_| shared.get_server()).collect();
    let mut owned = LoadBalancer::new(names(&["A", "B", "C"]), vec![2, 1, 3]).unwrap();
    assert_eq!(got, take(&mut owned, 12));
}

#[test]
fn sharing_goes_on_from_where_the_selector_stands() {
    let mut owned = LoadBalancer::new(names(&["A", "B", "C"]), vec![2, 1, 3]).unwrap();
    assert_eq!(take(&mut owned, 3), names(&["A", "A", "B"]));
    let shared = SharedLoadBalancer::share(owned);
    let rest: Vec<String> = (0..4).map(|_| shared.get_server()).collect();
    assert_eq!(rest, names(&["C", "C", "C", "A"]));
}

#[test]
fn a_shared_selector_rejects_bad_lists() {
    assert_eq!(
        SharedLoadBalancer::new(names(&["A", "B"]), vec![1]).err(),
        Some(ConfigurationError::LengthMismatch)
    );
    assert_eq!(
        SharedLoadBalancer::new(names(&["A", "B"]), vec![0, 1]).err(),
        Some(ConfigurationError::ZeroWeight { index: 0 })
    );
}

#[test]
fn selections_from_many_workers_are_those_of_one_sequence() {
    let servers = names(&["A", "B", "C"]);
    let weights = vec![2usize, 1, 3];
    let callers = 4;
    let each = 150;
    let shared = SharedLoadBalancer::new(servers.clone(), weights.clone()).unwrap();
    let shared = std::sync::Arc::new(shared);
    let runtime = tokio::runtime::Builder::new_multi_thread()
        .worker_threads(callers)
        .build()
        .unwrap();
    let mut got: Vec<String> = runtime.block_on(async {
        let mut tasks = Vec::new();
        for _ in 0..callers {
            let shared = shared.clone();
            tasks.push(tokio::spawn(async move {
                let mut mine = Vec::new();
                for _ in 0..each {
                    mine.push(shared.get_server());
                    tokio::task::yield_now().await;
                }
                mine
            }));
        }
        let mut all = Vec::new();
        for task in tasks {
            all.extend(task.await.unwrap());
        }
        all
    });
    let mut reference = LoadBalancer::new(servers, weights).unwrap();
    let mut expected = take(&mut reference, callers * each);
    got.sort();
    expected.sort();
    assert_eq!(got, expected);
}

#[test]
fn a_begun_cycle_counts_as_far_as_it_has_come() {
    let mut balancer = LoadBalancer::new(names(&["A", "B", "C"]), vec![2, 1, 3]).unwrap();
    let first_eight = take(&mut balancer, 8);
    assert_eq!(first_eight, names(&["A", "A", "B", "C", "C", "C", "A", "A"]));
    let count = |name: &str| first_eight.iter().filter(|got| got.as_str() == name).count();
    assert_eq!(count("A"), 4);
    assert_eq!(count("B"), 1);
    assert_eq!(count("C"), 3);
}
