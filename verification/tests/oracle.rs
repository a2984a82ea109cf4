use nebula::amm::states::oracle::{clamped, Observation, ObservationState, MAX_TICK};

fn ring(index: u16, entries: &[(u32, i64)]) -> ObservationState {
    ObservationState {
        observation_index: index,
        observations: entries
            .iter()
            .map(|e| Observation { block_timestamp: e.0, tick_cumulative: e.1 })
            .collect(),
    }
}

#[test]
fn average_over_the_window() {
    let o = ring(3, &[(100, 0), (110, 50), (120, 150), (0, 0)]);
    assert_eq!(o.observe_twap(15, 130), Some(10));
    assert_eq!(o.find_observation_at_or_before(115), Some(1));
    assert_eq!(o.find_observation_at_or_before(105), Some(0));
    assert_eq!(o.find_observation_at_or_before(99), None);
}

#[test]
fn average_rounds_toward_zero() {
    let o = ring(3, &[(100, 0), (110, 0), (120, -15), (0, 0)]);
    assert_eq!(o.observe_twap(15, 130), Some(-1));
    let o = ring(3, &[(100, 0), (110, 0), (120, 15), (0, 0)]);
    assert_eq!(o.observe_twap(15, 130), Some(1));
}

#[test]
fn average_is_cut_to_the_tick_range() {
    let o = ring(3, &[(100, 0), (110, 0), (120, 100_000_000), (0, 0)]);
    assert_eq!(o.observe_twap(15, 130), Some(MAX_TICK));
    assert_eq!(clamped(-1_000_000), -443_636);
    assert_eq!(clamped(443_636), 443_636);
    assert_eq!(clamped(5), 5);
}

#[test]
fn too_little_or_too_old_data_has_no_average() {
    let entries = [(100, 0), (110, 50), (120, 150), (0, 0)];
    assert_eq!(ring(1, &entries).observe_twap(15, 130), None);
    assert_eq!(ring(0, &entries).observe_twap(15, 130), None);
    assert_eq!(ring(3, &entries).observe_twap(15, 120), None);
    assert_eq!(ring(3, &entries).observe_twap(15, 151), None);
    assert_eq!(ring(3, &entries).observe_twap(4, 125), None);
    assert_eq!(ring(4, &entries).observe_twap(15, 130), None);
    assert_eq!(ring(3, &entries).observe_twap(40, 130), None);
    assert_eq!(ring(3, &entries).observe_twap(u32::MAX / 2 + 1, 130), None);
    assert_eq!(ring(3, &entries).observe_twap(u32::MAX, 130), None);
}

#[test]
fn search_wraps_round_the_ring() {
    let o = ring(6, &[(140, 0), (150, 100), (120, 10), (130, 0)]);
    assert_eq!(o.find_observation_at_or_before(155), Some(2));
    assert_eq!(o.find_observation_at_or_before(119), None);
    assert_eq!(o.observe_twap(20, 160), Some(3));
    let o = ring(6, &[(140, 0), (150, 100), (160, 10), (130, 0)]);
    assert_eq!(o.find_observation_at_or_before(155), Some(1));
    assert_eq!(o.find_observation_at_or_before(145), Some(0));
    assert_eq!(o.find_observation_at_or_before(135), Some(3));
}

#[test]
fn steady_price_is_its_own_average() {
    for tick in [-443_636i64, -7, 0, 12_345, 443_636] {
        let o = ring(3, &[(100, 5), (110, 5 + tick * 10), (120, 5 + tick * 20), (0, 0)]);
        assert_eq!(o.observe_twap(15, 130), Some(tick as i32));
    }
}
