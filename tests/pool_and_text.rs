use web_server::pool::{Claim, PoolState, SubmitError};
use web_server::tabs::Tabs;
use web_server::text::{decimal_string, parse_count_str};

#[test]
fn pool_without_workers_is_refused() {
    assert!(PoolState::<u32>::new(0).is_none());
    assert_eq!(PoolState::<u32>::new(3).unwrap().workers(), 3);
}

#[test]
fn jobs_are_handed_out_once_in_order() {
    let mut pool = PoolState::new(2).unwrap();
    pool.submit("a").unwrap();
    pool.submit("b").unwrap();
    assert!(matches!(pool.claim(), Claim::Job("a")));
    pool.submit("c").unwrap();
    assert!(matches!(pool.claim(), Claim::Job("b")));
    assert!(matches!(pool.claim(), Claim::Job("c")));
    assert!(matches!(pool.claim(), Claim::Wait));
}

#[test]
fn shutdown_drains_then_closes() {
    let mut pool = PoolState::new(1).unwrap();
    pool.submit(1).unwrap();
    pool.submit(2).unwrap();
    pool.shutdown();
    assert!(!pool.is_open());
    assert_eq!(pool.submit(3), Err(SubmitError::ShutDown));
    assert_eq!(pool.pending(), 2);
    assert!(matches!(pool.claim(), Claim::Job(1)));
    assert!(matches!(pool.claim(), Claim::Job(2)));
    assert!(matches!(pool.claim(), Claim::Closed));
    assert!(matches!(pool.claim(), Claim::Closed));
}

#[test]
fn tabs_wrap_around() {
    let mut tabs = Tabs::new(vec![(1, 2, "x"), (3, 4, "y"), (5, 6, "z")]);
    assert_eq!(tabs.position(), (1, 2));
    assert_eq!(*tabs.value(), "x");
    tabs.prev();
    assert_eq!(*tabs.value(), "z");
    assert_eq!(tabs.current(), 2);
    tabs.next();
    tabs.next();
    assert_eq!(tabs.position(), (3, 4));
    tabs.next();
    tabs.next();
    assert_eq!(*tabs.value(), "x");
}

#[test]
fn decimal_numerals() {
    assert_eq!(decimal_string(0), "0");
    assert_eq!(decimal_string(7), "7");
    assert_eq!(decimal_string(10), "10");
    assert_eq!(decimal_string(1234567890), "1234567890");
    assert_eq!(decimal_string(usize::MAX), usize::MAX.to_string());
}

#[test]
fn counts_parse_exactly() {
    assert_eq!(parse_count_str("0"), Some(0));
    assert_eq!(parse_count_str("042"), Some(42));
    assert_eq!(parse_count_str(&usize::MAX.to_string()), Some(usize::MAX));
    assert_eq!(parse_count_str("18446744073709551616"), None);
    assert_eq!(parse_count_str(""), None);
    assert_eq!(parse_count_str("-1"), None);
    assert_eq!(parse_count_str(" 1"), None);
}
