use host_telemetry::storage::{aggregate, IntegrityError, StorageSummary, VolumeStat};

fn volume(total_bytes: u64, available_bytes: u64) -> VolumeStat {
    VolumeStat { total_bytes, available_bytes }
}

#[test]
fn one_volume() {
    assert_eq!(
        aggregate(&vec![volume(100, 40)]),
        Ok(StorageSummary { total_bytes: 100, used_bytes: 60 })
    );
}

#[test]
fn no_volumes() {
    assert_eq!(aggregate(&vec![]), Ok(StorageSummary { total_bytes: 0, used_bytes: 0 }));
}

#[test]
fn more_available_than_total_is_rejected() {
    assert_eq!(aggregate(&vec![volume(50, 80)]), Err(IntegrityError::AvailableExceedsTotal));
}

#[test]
fn several_volumes_are_summed() {
    let volumes = vec![volume(500, 100), volume(1000, 1000), volume(24, 0)];
    assert_eq!(aggregate(&volumes), Ok(StorageSummary { total_bytes: 1524, used_bytes: 424 }));
}

#[test]
fn only_the_sums_are_compared() {
    // The second volume alone reports more free space than capacity.
    let volumes = vec![volume(100, 10), volume(20, 30)];
    assert_eq!(aggregate(&volumes), Ok(StorageSummary { total_bytes: 120, used_bytes: 80 }));
}

#[test]
fn a_full_and_an_empty_set_of_volumes() {
    assert_eq!(
        aggregate(&vec![volume(7, 0), volume(9, 0)]),
        Ok(StorageSummary { total_bytes: 16, used_bytes: 16 })
    );
    assert_eq!(
        aggregate(&vec![volume(7, 7), volume(9, 9)]),
        Ok(StorageSummary { total_bytes: 16, used_bytes: 0 })
    );
}

#[test]
fn a_capacity_beyond_the_range_is_rejected() {
    let volumes = vec![volume(u64::MAX, 0), volume(1, 0)];
    assert_eq!(aggregate(&volumes), Err(IntegrityError::CapacityOverflow));
}

#[test]
fn the_largest_capacity_is_accepted() {
    let volumes = vec![volume(u64::MAX - 5, 1), volume(5, 2)];
    assert_eq!(
        aggregate(&volumes),
        Ok(StorageSummary { total_bytes: u64::MAX, used_bytes: u64::MAX - 3 })
    );
}

#[test]
fn free_space_beyond_the_range_is_never_wrapped() {
    // The free space adds up to 2^64 + 2, which a 64-bit sum would wrap to 2.
    let volumes = vec![volume(10, u64::MAX), volume(10, 3)];
    assert_eq!(aggregate(&volumes), Err(IntegrityError::AvailableExceedsTotal));
    let volumes = vec![volume(u64::MAX, u64::MAX), volume(u64::MAX, u64::MAX), volume(0, 1)];
    assert_eq!(aggregate(&volumes), Err(IntegrityError::AvailableExceedsTotal));
}

#[test]
fn what_is_used_never_exceeds_the_total() {
    let figures = [0u64, 1, 2, 50, 80, 100, u64::MAX / 2, u64::MAX];
    for &first_total in &figures {
        for &first_available in &figures {
            for &second_total in &figures {
                let volumes = vec![volume(first_total, first_available), volume(second_total, 1)];
                if let Ok(summary) = aggregate(&volumes) {
                    assert!(summary.used_bytes <= summary.total_bytes);
                    let total = first_total as u128 + second_total as u128;
                    let available = first_available as u128 + 1;
                    assert_eq!(summary.total_bytes as u128, total);
                    assert_eq!(summary.used_bytes as u128, total - available);
                }
            }
        }
    }
}

#[test]
fn the_order_of_the_volumes_does_not_matter() {
    let forward = vec![volume(500, 100), volume(1000, 250), volume(24, 3)];
    let backward = vec![volume(24, 3), volume(1000, 250), volume(500, 100)];
    let rotated = vec![volume(1000, 250), volume(24, 3), volume(500, 100)];
    assert_eq!(aggregate(&forward), aggregate(&backward));
    assert_eq!(aggregate(&forward), aggregate(&rotated));
    let rejected = vec![volume(1, 5), volume(2, 0)];
    let rejected_backward = vec![volume(2, 0), volume(1, 5)];
    assert_eq!(aggregate(&rejected), aggregate(&rejected_backward));
}
