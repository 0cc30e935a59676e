use piping_grid::lookup::{binary_search_index, find_closest_value};

#[test]
fn closest_value_basic() {
    let centres = vec![25, 75, 125, 175];
    assert_eq!(find_closest_value(&centres, 40), 25);
    assert_eq!(find_closest_value(&centres, 60), 75);
    assert_eq!(find_closest_value(&centres, 0), 25);
    assert_eq!(find_closest_value(&centres, 1000), 175);
    assert_eq!(find_closest_value(&centres, 125), 125);
}

#[test]
fn closest_value_tie_prefers_lower() {
    let centres = vec![25, 75, 125, 175];
    // 50 is equidistant from 25 and 75; 100 from 75 and 125.
    assert_eq!(find_closest_value(&centres, 50), 25);
    assert_eq!(find_closest_value(&centres, 100), 75);
    assert_eq!(find_closest_value(&centres, 150), 125);
}

#[test]
fn closest_value_single_element() {
    let centres = vec![7];
    assert_eq!(find_closest_value(&centres, -100), 7);
    assert_eq!(find_closest_value(&centres, 7), 7);
    assert_eq!(find_closest_value(&centres, 100), 7);
}

#[test]
fn closest_value_negative_centres() {
    let centres = vec![-30, -10, 20];
    assert_eq!(find_closest_value(&centres, -19), -10);
    assert_eq!(find_closest_value(&centres, -20), -30);
    assert_eq!(find_closest_value(&centres, 6), 20);
    assert_eq!(find_closest_value(&centres, 5), -10);
}

#[test]
fn binary_search_index_finds_members() {
    let centres = vec![2, 7, 12];
    assert_eq!(binary_search_index(&centres, 2), Some(0));
    assert_eq!(binary_search_index(&centres, 7), Some(1));
    assert_eq!(binary_search_index(&centres, 12), Some(2));
}

#[test]
fn binary_search_index_misses_non_members() {
    let centres = vec![2, 7, 12];
    assert_eq!(binary_search_index(&centres, 0), None);
    assert_eq!(binary_search_index(&centres, 8), None);
    assert_eq!(binary_search_index(&centres, 99), None);
    let empty: Vec<i32> = Vec::new();
    assert_eq!(binary_search_index(&empty, 5), None);
}
