use nebula::amm::tipy::split;

#[test]
fn a_fifth_goes_to_tipy() {
    assert_eq!(split(10_000), (8000, 2000));
    assert_eq!(split(4), (4, 0));
    assert_eq!(split(5), (4, 1));
    assert_eq!(split(0), (0, 0));
    assert_eq!(split(u64::MAX), (14_757_395_258_967_641_292, 3_689_348_814_741_910_323));
}
