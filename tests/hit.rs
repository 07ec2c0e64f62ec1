use raytracer::hit::closest_hit;

fn bits(t: f32) -> Option<u32> {
    Some(t.to_bits())
}

#[test]
fn no_primitives_no_hit() {
    assert_eq!(closest_hit(&vec![]), None);
}

#[test]
fn only_misses_no_hit() {
    assert_eq!(closest_hit(&vec![None, None, None]), None);
}

#[test]
fn nan_distance_is_not_a_hit() {
    assert_eq!(closest_hit(&vec![bits(f32::NAN), None]), None);
    assert_eq!(closest_hit(&vec![bits(-f32::NAN), bits(3.0)]), Some(1));
    assert_eq!(closest_hit(&vec![bits(2.0), bits(f32::NAN)]), Some(0));
}

#[test]
fn nearest_distance_wins() {
    let hits = vec![bits(5.0), None, bits(0.75), bits(1.5)];
    assert_eq!(closest_hit(&hits), Some(2));
}

#[test]
fn first_of_equal_distances_wins() {
    let hits = vec![bits(2.0), bits(1.0), None, bits(1.0)];
    assert_eq!(closest_hit(&hits), Some(1));
}

#[test]
fn negative_zero_precedes_positive_zero() {
    let hits = vec![bits(0.0), bits(-0.0)];
    assert_eq!(closest_hit(&hits), Some(1));
}

#[test]
fn filtered_candidates_give_brute_force_distance() {
    // One intersection result per primitive of a scene.
    let all = vec![None, bits(4.0), None, bits(2.5), bits(7.0), None];
    // Candidates in traversal order, with false positives and a repeat.
    let candidates: Vec<usize> = vec![4, 0, 3, 1, 5, 3];
    let filtered: Vec<Option<u32>> = candidates.iter().map(|&c| all[c]).collect();
    let k_all = closest_hit(&all).unwrap();
    let k_filtered = closest_hit(&filtered).unwrap();
    assert_eq!(k_all, 3);
    assert_eq!(k_filtered, 2);
    assert_eq!(filtered[k_filtered], all[k_all]);
}

#[test]
fn filtered_candidates_without_hits_give_no_hit() {
    let all = vec![None, None, bits(f32::NAN)];
    let candidates: Vec<usize> = vec![2, 0];
    let filtered: Vec<Option<u32>> = candidates.iter().map(|&c| all[c]).collect();
    assert_eq!(closest_hit(&all), None);
    assert_eq!(closest_hit(&filtered), None);
}
