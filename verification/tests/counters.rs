#[test]
fn it_works() {
    let result = fleetlink_transport::add(2, 2);
    assert_eq!(result, 4);
}

#[test]
fn add_reaches_the_largest_sum() {
    assert_eq!(fleetlink_transport::add(u64::MAX - 1, 1), u64::MAX);
    assert_eq!(fleetlink_transport::add(0, 0), 0);
}
