use pl_lens::compose;
use pl_lens::modify;
use pl_lens::sample::Struct1;
use pl_lens::sample::Struct1Int16Lens;
use pl_lens::sample::Struct1Int32Lens;
use pl_lens::sample::Struct2;
use pl_lens::sample::Struct2Int32Lens;
use pl_lens::sample::Struct2StringLens;
use pl_lens::sample::Struct2Struct1Lens;
use pl_lens::sample::Struct3;
use pl_lens::sample::Struct3Struct2Lens;
use pl_lens::try_get_ref;
use pl_lens::try_set;
use pl_lens::Lens;
use pl_lens::LensPath;
use pl_lens::RefLens;
use pl_lens::ValueLens;

fn sample_struct3() -> Struct3 {
    Struct3 {
        int32: 332,
        struct2: Struct2 {
            int32: 232,
            string: "hi".to_string(),
            struct1: Struct1 {
                int32: 132,
                int16: 116,
            },
        },
    }
}

#[test]
fn a_basic_lens_should_work() {
    let lens = compose(Struct3Struct2Lens, compose(Struct2Struct1Lens, Struct1Int32Lens));

    let s3_0 = sample_struct3();
    assert_eq!(*lens.get_ref(&s3_0), 132);

    let s3_1 = lens.set(s3_0, 133);
    assert_eq!(s3_1.struct2.struct1.int32, 133);
    assert_eq!(s3_1.struct2.struct1.int16, 116);

    let s3_2 = lens.modify(s3_1, &|a: &i32| a + 1);
    assert_eq!(s3_2.struct2.struct1.int32, 134);
    assert_eq!(s3_2.struct2.struct1.int16, 116);

    let s3_3 = modify(&lens, s3_2, |a| a + 1);
    assert_eq!(s3_3.struct2.struct1.int32, 135);
    assert_eq!(s3_3.struct2.struct1.int16, 116);
}

#[test]
fn lens_composition_should_work_with_boxed_lenses() {
    let struct1_int32_lens: Box<dyn RefLens<Source = Struct1, Target = i32>> =
        Box::new(Struct1Int32Lens);
    let lens = compose(
        Struct3Struct2Lens,
        compose(Box::new(Struct2Struct1Lens), struct1_int32_lens),
    );

    let s3_0 = sample_struct3();
    assert_eq!(*lens.get_ref(&s3_0), 132);

    let s3_1 = lens.set(s3_0, 133);
    assert_eq!(s3_1.struct2.struct1.int32, 133);
    assert_eq!(s3_1.struct2.struct1.int16, 116);

    let s3_2 = lens.modify(s3_1, &|a: &i32| a + 1);
    assert_eq!(s3_2.struct2.struct1.int32, 134);
    assert_eq!(s3_2.struct2.struct1.int16, 116);

    let s3_3 = modify(&lens, s3_2, |a| a + 1);
    assert_eq!(s3_3.struct2.struct1.int32, 135);
    assert_eq!(s3_3.struct2.struct1.int16, 116);
}

#[test]
fn a_composed_path_is_the_concatenation_of_its_parts() {
    let two_level = compose(Struct3Struct2Lens, Struct2Int32Lens);
    assert_eq!(two_level.path(), LensPath::from_pair(1, 0));

    let three_level = compose(Struct3Struct2Lens, compose(Struct2Struct1Lens, Struct1Int32Lens));
    assert_eq!(three_level.path(), LensPath::from_vec(vec![1, 2, 0]));

    assert_eq!(Struct3Struct2Lens.path(), LensPath::new(1));
    assert_eq!(Struct2Int32Lens.path(), LensPath::new(0));
}

#[test]
fn a_get_after_a_set_reads_the_written_value() {
    let s0 = Struct1 { int32: 1, int16: 2 };
    let s1 = Struct1Int32Lens.set(s0, 42);
    assert_eq!(Struct1Int32Lens.get(&s1), 42);
    assert_eq!(*Struct1Int32Lens.get_ref(&s1), 42);
}

#[test]
fn setting_the_same_value_twice_is_idempotent() {
    let s0 = Struct1 { int32: 1, int16: 2 };
    let once = Struct1Int32Lens.set(s0.clone(), 42);
    let twice = Struct1Int32Lens.set(Struct1Int32Lens.set(s0, 42), 42);
    assert_eq!(once, twice);
}

#[test]
fn setting_one_field_leaves_its_sibling_unchanged() {
    let s0 = Struct1 { int32: 1, int16: 2 };
    let s1 = Struct1Int16Lens.set(s0, 7);
    assert_eq!(s1.int32, 1);
    assert_eq!(s1.int16, 7);

    let s2 = Struct2 {
        int32: 5,
        string: "hello".to_string(),
        struct1: Struct1 { int32: 1, int16: 2 },
    };
    let s3 = Struct2Struct1Lens.set(s2, Struct1 { int32: 9, int16: 9 });
    assert_eq!(s3.int32, 5);
    assert_eq!(s3.string, "hello");
    assert_eq!(s3.struct1, Struct1 { int32: 9, int16: 9 });
}

#[test]
fn a_string_field_can_be_read_by_value() {
    let s2 = Struct2 {
        int32: 5,
        string: "hello".to_string(),
        struct1: Struct1 { int32: 1, int16: 2 },
    };
    assert_eq!(Struct2StringLens.get(&s2), "hello".to_string());
    let s3 = Struct2StringLens.set(s2, "world".to_string());
    assert_eq!(s3.string, "world");
    assert_eq!(s3.int32, 5);
}

#[test]
fn checked_operations_succeed_on_a_field_lens() {
    let s0 = Struct1 { int32: 1, int16: 2 };
    match try_get_ref(&Struct1Int32Lens, &s0) {
        Ok(value) => assert_eq!(*value, 1),
        Err(_) => panic!("a field lens target always exists"),
    }
    match try_set(&Struct1Int32Lens, s0, 10) {
        Ok(s1) => assert_eq!(s1, Struct1 { int32: 10, int16: 2 }),
        Err(_) => panic!("a field lens target always exists"),
    }
}

#[test]
fn mutate_with_fn_applies_the_function_in_place() {
    let mut s0 = Struct1 { int32: 20, int16: 2 };
    pl_lens::mutate_with_fn(&Struct1Int32Lens, &mut s0, |a| a * 2);
    assert_eq!(s0.int32, 40);
    assert_eq!(s0.int16, 2);
}
