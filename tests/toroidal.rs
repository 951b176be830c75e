use toroidal_events::toroidal::{
    average_coordinates_toroidal, furthest_coordinates_toroidal, toroidal_distance_squared,
    toroidal_distance_squared_64,
};

#[test]
fn test_toroidal_distance_normal_1() {
    assert_eq!(toroidal_distance_squared(0, 0, 3, 4), 25);
}

#[test]
fn test_toroidal_distance_normal_2() {
    assert_eq!(toroidal_distance_squared(5, 5, 10, 10), 50);
}

#[test]
fn test_toroidal_distance_edge_1() {
    assert_eq!(toroidal_distance_squared(0, 0, u32::MAX, u32::MAX), 0);
}

#[test]
fn test_toroidal_distance_edge_2() {
    assert_eq!(toroidal_distance_squared(u32::MAX, u32::MAX, 0, 0), 0);
}

#[test]
fn test_toroidal_distance_edge_3() {
    assert_eq!(toroidal_distance_squared(u32::MAX, u32::MAX, 1, 1), 2);
}

#[test]
fn test_toroidal_distance_edge_4() {
    assert_eq!(toroidal_distance_squared(0, 0, u32::MAX, 0), 0);
}

#[test]
fn test_toroidal_distance_edge_5() {
    assert_eq!(toroidal_distance_squared(u32::MAX, 0, 0, 0), 0);
}

#[test]
fn test_toroidal_distance_edge_6() {
    assert_eq!(toroidal_distance_squared(u32::MAX, 0, 0, u32::MAX), 0);
}

#[test]
fn test_toroidal_distance_edge_7() {
    assert_eq!(toroidal_distance_squared(u32::MAX, u32::MAX, 0, u32::MAX), 0);
}

#[test]
fn test_toroidal_distance_edge_8() {
    assert_eq!(toroidal_distance_squared(0, u32::MAX, u32::MAX, u32::MAX), 0);
}

#[test]
fn test_toroidal_distance_squared_small_values() {
    assert_eq!(toroidal_distance_squared(10, 20, 30, 40), 800);
}

#[test]
fn test_toroidal_distance_squared_inputs_close_to_size() {
    assert_eq!(
        toroidal_distance_squared(u32::MAX - 20, u32::MAX - 30, 10, 20),
        3400
    );
}

#[test]
fn test_toroidal_distance_squared_inputs_close_to_size_with_wrapping() {
    assert_eq!(
        toroidal_distance_squared(u32::MAX - 20, 30, 10, u32::MAX - 20),
        3400
    );
}

#[test]
fn test_toroidal_distance_squared_inputs_wrapping_around_several_times() {
    assert_eq!(
        toroidal_distance_squared(10, 20, u32::MAX - 30, u32::MAX - 40),
        5200
    );
}

#[test]
fn test_toroidal_distance_squared_inputs_wrapping_around_several_times_with_larger_distance() {
    assert_eq!(
        toroidal_distance_squared(10, 20, u32::MAX - 10, u32::MAX - 20),
        2000
    );
}

#[test]
fn distance_is_symmetric_on_sample_points() {
    let points: [(u32, u32); 5] = [
        (0, 0),
        (3, 4),
        (u32::MAX, 7),
        (u32::MAX / 2, u32::MAX / 2 + 1),
        (123_456_789, 4_000_000_000),
    ];
    for a in points.iter() {
        for b in points.iter() {
            assert_eq!(
                toroidal_distance_squared(a.0, a.1, b.0, b.1),
                toroidal_distance_squared(b.0, b.1, a.0, a.1)
            );
        }
    }
}

#[test]
fn distance_across_the_seam_is_zero_for_both_widths() {
    assert_eq!(toroidal_distance_squared(0, 0, u32::MAX, u32::MAX), 0);
    assert_eq!(toroidal_distance_squared_64(0, 0, u64::MAX, u64::MAX), 0);
}

#[test]
fn distance_64_exact_values() {
    assert_eq!(toroidal_distance_squared_64(0, 0, 3, 4), 25);
    assert_eq!(
        toroidal_distance_squared_64(10, 20, u64::MAX - 10, u64::MAX - 20),
        2000
    );
    assert_eq!(
        toroidal_distance_squared_64(u64::MAX - 5, 9, 2, 1),
        7 * 7 + 8 * 8
    );
}

#[test]
fn distance_64_largest_value() {
    let h = u64::MAX / 2;
    let expected = (h as u128) * (h as u128) * 2;
    assert_eq!(toroidal_distance_squared_64(0, 0, h, h), expected);
    assert_eq!(
        toroidal_distance_squared_64(0, 0, h, h),
        toroidal_distance_squared_64(h, h, 0, 0)
    );
}

#[test]
fn distance_32_largest_value() {
    let h = u32::MAX / 2;
    let expected = (h as u64) * (h as u64) * 2;
    assert_eq!(toroidal_distance_squared(0, 0, h, h), expected);
    assert_eq!(toroidal_distance_squared(0, 0, h + 1, h + 1), expected);
}

#[test]
fn test_average_coordinates_toroidal_when_x1_less_than_x2_and_y1_less_than_y2() {
    assert_eq!(average_coordinates_toroidal(10, 20, 30, 40), (20, 30));
}

#[test]
fn test_average_coordinates_toroidal_when_x1_greater_than_x2_and_y1_greater_than_y2() {
    assert_eq!(average_coordinates_toroidal(30, 40, 10, 20), (20, 30));
}

#[test]
fn test_average_coordinates_toroidal_when_x1_less_than_x2_and_y1_greater_than_y2() {
    assert_eq!(average_coordinates_toroidal(10, 40, 30, 20), (20, 30));
}

#[test]
fn test_average_coordinates_toroidal_when_x1_greater_than_x2_and_y1_less_than_y2() {
    assert_eq!(average_coordinates_toroidal(30, 20, 10, 40), (20, 30));
}

#[test]
fn test_average_coordinates_toroidal_when_x1_equals_x2_and_y1_less_than_y2() {
    assert_eq!(average_coordinates_toroidal(10, 20, 10, 40), (10, 30));
}

#[test]
fn test_average_coordinates_toroidal_when_x1_equals_x2_and_y1_greater_than_y2() {
    assert_eq!(average_coordinates_toroidal(10, 40, 10, 20), (10, 30));
}

#[test]
fn test_average_coordinates_toroidal_when_y1_equals_y2_and_x1_less_than_x2() {
    assert_eq!(average_coordinates_toroidal(10, 20, 30, 20), (20, 20));
}

#[test]
fn test_average_coordinates_toroidal_when_y1_equals_y2_and_x1_greater_than_x2() {
    assert_eq!(average_coordinates_toroidal(30, 20, 10, 20), (20, 20));
}

#[test]
fn test_average_coordinates_toroidal_when_x1_equals_x2_and_y1_equals_y2() {
    assert_eq!(average_coordinates_toroidal(10, 20, 10, 20), (10, 20));
}

#[test]
fn test_average_coordinates_toroidal_when_x1_equals_x2_and_y1_equals_y2_equals_max() {
    assert_eq!(
        average_coordinates_toroidal(u64::MAX, u64::MAX, u64::MAX, u64::MAX),
        (0, 0)
    );
}

#[test]
fn test_average_coordinates_toroidal_when_x1_equals_x2_and_y1_equals_y2_equals_0() {
    assert_eq!(average_coordinates_toroidal(0, 0, 0, 0), (0, 0));
}

#[test]
fn test_average_coordinates_toroidal_when_x1_equals_x2_and_y1_equals_y2_and_x1_equals_max() {
    assert_eq!(
        average_coordinates_toroidal(u64::MAX, 10, u64::MAX, 10),
        (0, 10)
    );
}

#[test]
fn test_average_coordinates_toroidal_when_x1_equals_x2_and_y1_equals_y2_and_x1_equals_0() {
    assert_eq!(average_coordinates_toroidal(0, 10, 0, 10), (0, 10));
}

#[test]
fn test_average_coordinates_toroidal_when_y1_equals_y2_and_x1_equals_x2_equals_max() {
    assert_eq!(
        average_coordinates_toroidal(u64::MAX, u64::MAX, u64::MAX, u64::MAX),
        (0, 0)
    );
}

#[test]
fn test_average_coordinates_toroidal_when_y1_equals_y2_and_x1_equals_x2_equals_0() {
    assert_eq!(average_coordinates_toroidal(0, 0, 0, 0), (0, 0));
}

#[test]
fn test_average_coordinates_toroidal_normal_operation() {
    assert_eq!(average_coordinates_toroidal(100, 200, 300, 400), (200, 300));
}

#[test]
fn midpoint_takes_the_short_way_across_the_seam() {
    // 10 and MAX - 10 are 20 apart across the seam: half of that is added to
    // the smaller coordinate.
    assert_eq!(average_coordinates_toroidal(10, 0, u64::MAX - 10, 0), (20, 0));
}

#[test]
fn midpoint_truncates_odd_deltas() {
    assert_eq!(average_coordinates_toroidal(10, 3, 15, 0), (12, 1));
    assert_eq!(average_coordinates_toroidal(15, 0, 10, 3), (12, 1));
}

#[test]
fn test_furthest_coordinates_toroidal_from_zero() {
    assert_eq!(
        furthest_coordinates_toroidal(0, 0),
        (u32::MAX / 2, u32::MAX / 2)
    );
}

#[test]
fn test_furthest_coordinates_toroidal_from_middle() {
    let x = u32::MAX / 2;
    let y = u32::MAX / 2;
    assert_eq!(
        furthest_coordinates_toroidal(x, y),
        (u32::MAX - 1, u32::MAX - 1)
    );
}

#[test]
fn test_furthest_coordinates_toroidal_from_quarter() {
    let x = u32::MAX / 4;
    let y = u32::MAX / 4;
    let three_quarters = (u32::MAX / 4) * 3 + 1;
    assert_eq!(
        furthest_coordinates_toroidal(x, y),
        (three_quarters, three_quarters)
    );
}

#[test]
fn test_furthest_coordinates_toroidal_from_three_quarters() {
    let three_quarters = (u32::MAX / 4) * 3;
    let one_quarter = u32::MAX / 4 - 3;
    assert_eq!(
        furthest_coordinates_toroidal(three_quarters, three_quarters),
        (one_quarter, one_quarter)
    );
}

#[test]
fn test_furthest_coordinates_toroidal_opposite_edges() {
    assert_eq!(
        furthest_coordinates_toroidal(u32::MAX, 0),
        (u32::MAX / 2 - 1, u32::MAX / 2)
    );
}

#[test]
fn test_furthest_coordinates_toroidal_halfway() {
    assert_eq!(
        furthest_coordinates_toroidal(u32::MAX, u32::MAX / 2),
        (u32::MAX / 2 - 1, u32::MAX - 1)
    );
}

#[test]
fn antipode_is_at_least_as_far_as_the_other_candidate() {
    let (x, y) = (1_000u32, 2_000_000_000u32);
    let (ax, ay) = furthest_coordinates_toroidal(x, y);
    let other = (ax.wrapping_sub(1), ay.wrapping_sub(1));
    assert!(
        toroidal_distance_squared(ax, ay, x, y) >= toroidal_distance_squared(other.0, other.1, x, y)
    );
    assert_eq!((ax, ay), (x + u32::MAX / 2, y + u32::MAX / 2));
}
