use raycaster::double::order_key;
use raycaster::nearest::{nearest_hit, nearest_of_doubles};

#[test]
fn no_shapes_no_hit() {
    assert_eq!(nearest_hit(&vec![]), None);
}

#[test]
fn all_misses_no_hit() {
    assert_eq!(nearest_hit(&vec![None, None, None]), None);
}

#[test]
fn single_hit_is_nearest() {
    assert_eq!(nearest_hit(&vec![Some(42)]), Some(0));
    assert_eq!(nearest_hit(&vec![None, Some(42), None]), Some(1));
}

#[test]
fn smallest_distance_wins() {
    assert_eq!(nearest_hit(&vec![Some(11), Some(9), Some(10)]), Some(1));
    assert_eq!(nearest_hit(&vec![Some(9), Some(11)]), Some(0));
    assert_eq!(nearest_hit(&vec![None, Some(5), Some(3)]), Some(2));
}

#[test]
fn first_of_equal_distances_wins() {
    assert_eq!(nearest_hit(&vec![Some(7), Some(7), Some(7)]), Some(0));
    assert_eq!(nearest_hit(&vec![Some(8), Some(7), None, Some(7)]), Some(1));
}

#[test]
fn hits_behind_the_origin_count() {
    assert_eq!(nearest_hit(&vec![Some(3), Some(-4), Some(0)]), Some(1));
    assert_eq!(nearest_hit(&vec![Some(i64::MAX), Some(i64::MIN)]), Some(1));
}

#[test]
fn nearest_of_double_distances() {
    let distances = [11.0f64, 9.0, f64::NAN, 9.0, 250.0];
    let keys: Vec<Option<i64>> = distances.iter().map(|d| order_key(d.to_bits())).collect();
    assert_eq!(nearest_hit(&keys), Some(1));
}

#[test]
fn a_distance_that_is_no_number_is_a_miss() {
    let keys = vec![order_key(f64::NAN.to_bits()), order_key(3.5f64.to_bits())];
    assert_eq!(nearest_hit(&keys), Some(1));
    let keys = vec![order_key(f64::NAN.to_bits())];
    assert_eq!(nearest_hit(&keys), None);
}

#[test]
fn zeros_of_either_sign_tie() {
    let keys = vec![order_key(0.0f64.to_bits()), order_key((-0.0f64).to_bits())];
    assert_eq!(nearest_hit(&keys), Some(0));
    let keys = vec![order_key((-0.0f64).to_bits()), order_key(0.0f64.to_bits())];
    assert_eq!(nearest_hit(&keys), Some(0));
}

fn bits(distances: &[Option<f64>]) -> Vec<Option<u64>> {
    distances.iter().map(|d| d.map(f64::to_bits)).collect()
}

#[test]
fn nearest_of_doubles_picks_the_smallest() {
    assert_eq!(nearest_of_doubles(&bits(&[Some(11.0), Some(9.0), None, Some(9.5)])), Some(1));
    assert_eq!(nearest_of_doubles(&bits(&[Some(1.0e-300), Some(0.0)])), Some(1));
    assert_eq!(nearest_of_doubles(&bits(&[Some(f64::INFINITY), Some(f64::MAX)])), Some(1));
}

#[test]
fn nearest_of_doubles_keeps_the_first_of_equals() {
    assert_eq!(nearest_of_doubles(&bits(&[Some(9.0), Some(9.0)])), Some(0));
    assert_eq!(nearest_of_doubles(&bits(&[Some(-0.0), Some(0.0)])), Some(0));
    assert_eq!(nearest_of_doubles(&bits(&[Some(0.0), Some(-0.0)])), Some(0));
}

#[test]
fn nearest_of_doubles_counts_hits_behind_the_origin() {
    assert_eq!(nearest_of_doubles(&bits(&[Some(2.0), Some(-11.0), Some(-9.0)])), Some(1));
    assert_eq!(nearest_of_doubles(&bits(&[Some(0.0), Some(f64::NEG_INFINITY)])), Some(1));
}

#[test]
fn nearest_of_doubles_skips_what_is_no_number() {
    assert_eq!(nearest_of_doubles(&bits(&[Some(f64::NAN), Some(3.5)])), Some(1));
    assert_eq!(nearest_of_doubles(&bits(&[Some(3.5), Some(f64::NAN)])), Some(0));
    assert_eq!(nearest_of_doubles(&bits(&[Some(f64::NAN)])), None);
}

#[test]
fn nearest_of_doubles_without_a_hit() {
    assert_eq!(nearest_of_doubles(&bits(&[])), None);
    assert_eq!(nearest_of_doubles(&bits(&[None, None])), None);
}

#[test]
fn nearest_of_doubles_is_the_minimum_by_comparison() {
    let values = [3.0, -1.5, 7.25, -1.5, 0.0, 1.0e9, -1.0e-9, 2.0];
    for n in 1..=values.len() {
        let hits: Vec<Option<f64>> = values[..n].iter().map(|v| Some(*v)).collect();
        let mut expected = 0;
        for (k, v) in values[..n].iter().enumerate() {
            if *v < values[expected] {
                expected = k;
            }
        }
        assert_eq!(nearest_of_doubles(&bits(&hits)), Some(expected));
    }
}
