use pl_lens::LensPath;
use pl_lens::LensPathElement;

#[test]
fn test_lens_path_concat() {
    let p0 = LensPath::from_vec(vec![1, 2, 3]);
    let p1 = LensPath::from_vec(vec![4, 5]);
    let p2 = LensPath::concat(p0, p1);
    assert_eq!(p2, LensPath::from_vec(vec![1, 2, 3, 4, 5]));
}

#[test]
fn test_lens_path_debug() {
    let path = LensPath::from_vec(vec![1, 2, 3, 4, 5]);
    assert_eq!(path.to_debug_string(), "[1, 2, 3, 4, 5]".to_string());
}

#[test]
fn an_empty_path_has_no_elements() {
    let path = LensPath::empty();
    assert_eq!(path.elements.len(), 0);
    assert_eq!(path, LensPath::from_vec(vec![]));
    assert_eq!(path.to_debug_string(), "[]".to_string());
}

#[test]
fn single_element_constructors_agree() {
    assert_eq!(LensPath::new(7), LensPath::from_vec(vec![7]));
    assert_eq!(LensPath::from_index(7), LensPath::new(7));
    assert_eq!(LensPath::new(7).to_debug_string(), "[7]".to_string());
}

#[test]
fn from_pair_builds_a_two_element_path() {
    let path = LensPath::from_pair(3, 9);
    assert_eq!(path, LensPath::from_vec(vec![3, 9]));
    assert_ne!(path, LensPath::from_vec(vec![9, 3]));
}

#[test]
fn multi_digit_identifiers_render_in_decimal() {
    let path = LensPath::from_vec(vec![907, 10, 0]);
    assert_eq!(path.to_debug_string(), "[907, 10, 0]".to_string());
}

#[test]
fn concat_is_associative_on_concrete_paths() {
    let grouped_left = LensPath::concat(
        LensPath::concat(LensPath::from_vec(vec![1, 2]), LensPath::new(3)),
        LensPath::from_pair(4, 5),
    );
    let grouped_right = LensPath::concat(
        LensPath::from_vec(vec![1, 2]),
        LensPath::concat(LensPath::new(3), LensPath::from_pair(4, 5)),
    );
    assert_eq!(grouped_left, grouped_right);
    assert_eq!(grouped_left, LensPath::from_vec(vec![1, 2, 3, 4, 5]));
}

#[test]
fn concat_with_the_empty_path_changes_nothing() {
    let path = LensPath::from_vec(vec![5, 6]);
    let left = LensPath::concat(LensPath::empty(), path);
    assert_eq!(left, LensPath::from_vec(vec![5, 6]));
    let right = LensPath::concat(left, LensPath::empty());
    assert_eq!(right, LensPath::from_vec(vec![5, 6]));
}

#[test]
fn paths_are_ordered_lexicographically() {
    let p123 = LensPath::from_vec(vec![1, 2, 3]);
    let p124 = LensPath::from_vec(vec![1, 2, 4]);
    let p12 = LensPath::from_pair(1, 2);
    assert!(p123 < p124);
    assert!(p12 < p123);
    assert!(p124 > p123);
    assert!(LensPath::empty() < p12);
    assert!(p123 <= LensPath::from_vec(vec![1, 2, 3]));
    assert!(!(p123 < LensPath::from_vec(vec![1, 2, 3])));
}

#[test]
fn a_path_element_carries_its_identifier() {
    let element = LensPathElement::new(11);
    assert_eq!(element.id, 11);
    assert_eq!(element, LensPathElement::new(11));
}
