use pl_lens::vec_lens;
use pl_lens::LensError;
use pl_lens::LensPath;

#[test]
fn an_out_of_bounds_read_reports_index_out_of_range() {
    let lens = vec_lens::<u32>(5);
    let v = vec![10u32, 20, 30];
    assert_eq!(lens.try_get_ref(&v), Err(LensError::IndexOutOfRange));
}

#[test]
fn an_out_of_bounds_mutation_reports_index_out_of_range() {
    let lens = vec_lens::<u32>(5);
    let v = vec![10u32, 20, 30];
    assert_eq!(lens.try_set(v, 99), Err(LensError::IndexOutOfRange));
}

#[test]
fn a_vec_lens_should_work() {
    let lens = vec_lens::<u32>(1);

    let v0 = vec![0u32, 1, 2];
    assert_eq!(*lens.get_ref(&v0), 1);

    let v1 = lens.set(v0, 42);
    assert_eq!(v1, vec![0u32, 42, 2]);
}

#[test]
fn a_vec_lens_encodes_its_index_as_the_path_element() {
    let lens = vec_lens::<u8>(5);
    assert_eq!(lens.path(), LensPath::from_index(5));
    assert_eq!(lens.path().to_debug_string(), "[5]".to_string());
}

#[test]
fn checked_vec_lens_operations_succeed_in_bounds() {
    let lens = vec_lens::<u32>(2);
    let v = vec![10u32, 20, 30];
    match lens.try_get_ref(&v) {
        Ok(value) => assert_eq!(*value, 30),
        Err(_) => panic!("index 2 is within bounds"),
    }
    match lens.try_set(v, 33) {
        Ok(updated) => assert_eq!(updated, vec![10u32, 20, 33]),
        Err(_) => panic!("index 2 is within bounds"),
    }
}

#[test]
fn a_failed_checked_mutation_leaves_no_partial_change() {
    let lens = vec_lens::<u32>(3);
    let v = vec![1u32, 2, 3];
    match lens.try_set(v.clone(), 9) {
        Ok(_) => panic!("index 3 is out of bounds for three elements"),
        Err(error) => assert_eq!(error, LensError::IndexOutOfRange),
    }
    assert_eq!(v, vec![1u32, 2, 3]);
}
