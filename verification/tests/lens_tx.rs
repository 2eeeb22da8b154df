use pl_lens::composed_tx;
use pl_lens::decrement_tx;
use pl_lens::increment_tx;
use pl_lens::mod_tx;
use pl_lens::not_tx;
use pl_lens::sample::Flags;
use pl_lens::sample::FlagsEnabledLens;
use pl_lens::sample::Struct1;
use pl_lens::sample::Struct1Int32Lens;
use pl_lens::set_tx;
use pl_lens::Transform;

#[test]
fn a_lens_set_transform_should_work() {
    let tx = set_tx(Struct1Int32Lens, |s: &Struct1| s.int32 + 42);
    let s0 = Struct1 { int32: 0, int16: 0 };
    let s1 = tx.apply(s0);
    assert_eq!(s1.int32, 42);
}

#[test]
fn a_lens_modify_transform_should_work() {
    let tx = mod_tx(Struct1Int32Lens, |value: &i32| value + 42);
    let s0 = Struct1 { int32: 0, int16: 0 };
    let s1 = tx.apply(s0);
    assert_eq!(s1.int32, 42);
}

#[test]
fn a_lens_increment_transform_should_work() {
    let tx = increment_tx(Struct1Int32Lens);
    let s0 = Struct1 { int32: 0, int16: 0 };
    let s1 = tx.apply(s0);
    assert_eq!(s1.int32, 1);
}

#[test]
fn a_lens_decrement_transform_should_work() {
    let tx = decrement_tx(Struct1Int32Lens);
    let s0 = Struct1 { int32: 42, int16: 0 };
    let s1 = tx.apply(s0);
    assert_eq!(s1.int32, 41);
}

#[test]
fn an_increment_transform_steps_forty_two_to_forty_three() {
    let tx = increment_tx(Struct1Int32Lens);
    let s0 = Struct1 { int32: 42, int16: 0 };
    let s1 = tx.apply(s0);
    assert_eq!(s1.int32, 43);
}

#[test]
fn a_lens_not_transform_should_work() {
    let tx = not_tx(FlagsEnabledLens);
    let s0 = Flags { enabled: false };
    let s1 = tx.apply(s0);
    assert_eq!(s1.enabled, true);
}

#[test]
fn a_not_transform_applied_twice_restores_the_value() {
    let tx = not_tx(FlagsEnabledLens);
    let s1 = tx.apply(Flags { enabled: true });
    assert_eq!(s1.enabled, false);
    let s2 = tx.apply(s1);
    assert_eq!(s2.enabled, true);
}

#[test]
fn lens_transform_composition_should_work() {
    let add_one = mod_tx(Struct1Int32Lens, |value: &i32| value + 1);
    let add_two = mod_tx(Struct1Int32Lens, |value: &i32| value + 2);
    let mul_two = mod_tx(Struct1Int32Lens, |value: &i32| value * 2);
    let tx = composed_tx(add_one, composed_tx(add_two, mul_two));
    let s0 = Struct1 { int32: 0, int16: 0 };
    let s1 = tx.apply(s0);
    assert_eq!(s1.int32, 6);
}

#[test]
fn a_set_transform_reads_the_whole_source() {
    let tx = set_tx(Struct1Int32Lens, |s: &Struct1| (s.int16 as i32) * 3);
    let s0 = Struct1 { int32: 0, int16: 5 };
    let s1 = tx.apply(s0);
    assert_eq!(s1.int32, 15);
    assert_eq!(s1.int16, 5);
}
