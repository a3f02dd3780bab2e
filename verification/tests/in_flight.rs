use factorio_server::in_flight::{Flight, InFlight, NOTIFIER_CAPACITY};

#[test]
fn nothing_is_in_flight_at_first() {
    let flights = InFlight::new();
    assert!(!flights.is_in_flight("cache/factorio/1.1.110"));
    assert_eq!(NOTIFIER_CAPACITY, 1);
}

#[test]
fn the_first_caller_leads_and_the_others_follow() {
    let mut flights = InFlight::new();
    let guard = match flights.check_inflight("a") {
        Flight::Leader(guard) => guard,
        Flight::Follower(_) => panic!("the first caller leads"),
    };
    assert_eq!(guard.path(), "a");
    assert!(flights.is_in_flight("a"));
    assert!(!flights.is_in_flight("b"));
    for _ in 0..5 {
        assert!(matches!(flights.check_inflight("a"), Flight::Follower(_)));
    }
    assert!(matches!(flights.check_inflight("b"), Flight::Leader(_)));
    assert!(flights.is_in_flight("b"));
}

#[test]
fn a_release_frees_the_path() {
    let mut flights = InFlight::new();
    for succeeded in [true, false] {
        let guard = match flights.check_inflight("a") {
            Flight::Leader(guard) => guard,
            Flight::Follower(_) => panic!("a free path is led"),
        };
        flights.release(guard, succeeded);
        assert!(!flights.is_in_flight("a"));
    }
}

#[test]
fn followers_are_told_of_success_only() {
    for succeeded in [true, false] {
        let mut flights = InFlight::new();
        let guard = match flights.check_inflight("a") {
            Flight::Leader(guard) => guard,
            Flight::Follower(_) => panic!("the first caller leads"),
        };
        let mut receivers = Vec::new();
        for _ in 0..3 {
            match flights.check_inflight("a") {
                Flight::Follower(receiver) => receivers.push(receiver),
                Flight::Leader(_) => panic!("the path is being fetched"),
            }
        }
        flights.release(guard, succeeded);
        for receiver in receivers.iter_mut() {
            assert_eq!(receiver.try_recv().is_ok(), succeeded);
            assert!(receiver.try_recv().is_err());
        }
    }
}
