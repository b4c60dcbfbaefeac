use oracle_canister::error::Error;
use oracle_canister::state::pair_price::{PairKey, PairPrice, DEFAULT_CAPACITY};

fn key(name: &str) -> PairKey {
    PairKey(name.to_string())
}

#[test]
fn latest_and_recent_follow_insertion_order() {
    let mut store = PairPrice::new(10);
    assert_eq!(store.add_pair(key("ETH/USD")), Ok(()));
    assert_eq!(store.insert(&key("ETH/USD"), 100, 2000), Ok(()));
    assert_eq!(store.insert(&key("ETH/USD"), 200, 2100), Ok(()));
    assert_eq!(store.get_latest_price(&key("ETH/USD")), Some((200, 2100)));
    assert_eq!(store.get_prices(&key("ETH/USD"), 1), vec![(200, 2100)]);
    assert_eq!(store.get_prices(&key("ETH/USD"), 5), vec![(200, 2100), (100, 2000)]);
}

#[test]
fn add_pair_twice_is_refused() {
    let mut store = PairPrice::new(10);
    assert_eq!(store.add_pair(key("BTC/USD")), Ok(()));
    assert_eq!(store.add_pair(key("BTC/USD")), Err(Error::PairExists));
    assert_eq!(store.get_pairs(), vec![key("BTC/USD")]);
}

#[test]
fn remove_unknown_pair_is_refused() {
    let mut store = PairPrice::new(10);
    assert_eq!(store.del_pair(key("BTC/USD")), Err(Error::PairNotFound));
}

#[test]
fn insert_into_unknown_pair_is_refused() {
    let mut store = PairPrice::new(10);
    assert_eq!(store.insert(&key("BTC/USD"), 1, 2), Err(Error::PairNotExist));
    assert!(!store.is_exist(&key("BTC/USD")));
    assert_eq!(store.get_latest_price(&key("BTC/USD")), None);
    assert_eq!(store.get_prices(&key("BTC/USD"), 3), vec![]);
}

#[test]
fn known_pair_without_points_differs_from_unknown_pair() {
    let mut store = PairPrice::new(10);
    store.add_pair(key("A")).unwrap();
    assert!(store.is_exist(&key("A")));
    assert!(!store.is_exist(&key("a")));
    assert_eq!(store.get_latest_price(&key("A")), None);
    assert_eq!(store.get_prices(&key("A"), 4), vec![]);
}

#[test]
fn readded_pair_starts_empty() {
    let mut store = PairPrice::new(10);
    store.add_pair(key("A")).unwrap();
    store.insert(&key("A"), 1, 10).unwrap();
    store.insert(&key("A"), 2, 20).unwrap();
    assert_eq!(store.del_pair(key("A")), Ok(()));
    assert!(!store.is_exist(&key("A")));
    assert_eq!(store.add_pair(key("A")), Ok(()));
    assert_eq!(store.get_latest_price(&key("A")), None);
    assert_eq!(store.get_prices(&key("A"), 10), vec![]);
}

#[test]
fn overflow_evicts_the_oldest_points() {
    let mut store = PairPrice::new(3);
    store.add_pair(key("A")).unwrap();
    for i in 1..=5u64 {
        store.insert(&key("A"), i, i * 10).unwrap();
    }
    assert_eq!(store.get_prices(&key("A"), 10), vec![(5, 50), (4, 40), (3, 30)]);
    store.insert(&key("A"), 6, 60).unwrap();
    assert_eq!(store.get_prices(&key("A"), 10), vec![(6, 60), (5, 50), (4, 40)]);
    assert_eq!(store.get_latest_price(&key("A")), Some((6, 60)));
}

#[test]
fn recent_is_bounded_and_prefix_consistent() {
    let mut store = PairPrice::new(4);
    store.add_pair(key("A")).unwrap();
    for i in 1..=6u64 {
        store.insert(&key("A"), i, i).unwrap();
    }
    let mut previous = store.get_prices(&key("A"), 0);
    assert_eq!(previous, vec![]);
    for n in 1..=6usize {
        let now = store.get_prices(&key("A"), n);
        assert!(now.len() <= n && now.len() <= 4);
        assert_eq!(now.len(), n.min(4));
        assert_eq!(&now[..previous.len()], &previous[..]);
        assert!(now.len() <= previous.len() + 1);
        previous = now;
    }
    assert_eq!(previous, vec![(6, 6), (5, 5), (4, 4), (3, 3)]);
}

#[test]
fn out_of_order_timestamps_keep_insertion_order() {
    let mut store = PairPrice::new(5);
    store.add_pair(key("A")).unwrap();
    store.insert(&key("A"), 300, 1).unwrap();
    store.insert(&key("A"), 100, 2).unwrap();
    store.insert(&key("A"), 100, 3).unwrap();
    assert_eq!(store.get_prices(&key("A"), 5), vec![(100, 3), (100, 2), (300, 1)]);
}

#[test]
fn capacity_zero_keeps_nothing() {
    let mut store = PairPrice::new(0);
    store.add_pair(key("A")).unwrap();
    assert_eq!(store.insert(&key("A"), 1, 1), Ok(()));
    assert_eq!(store.get_latest_price(&key("A")), None);
    assert_eq!(store.capacity(), 0);
}

#[test]
fn pairs_are_listed_once_each_and_series_are_separate() {
    let mut store = PairPrice::new(DEFAULT_CAPACITY);
    store.add_pair(key("A")).unwrap();
    store.add_pair(key("B")).unwrap();
    store.add_pair(key("C")).unwrap();
    store.insert(&key("B"), 7, 70).unwrap();
    store.del_pair(key("A")).unwrap();
    let mut names: Vec<String> = store.get_pairs().into_iter().map(|k| k.0).collect();
    names.sort();
    assert_eq!(names, vec!["B".to_string(), "C".to_string()]);
    assert_eq!(store.get_latest_price(&key("B")), Some((7, 70)));
    assert_eq!(store.get_latest_price(&key("C")), None);
    assert_eq!(store.capacity(), 1000);
}
