use pl_lens::composed_tx;
use pl_lens::fn_tx;
use pl_lens::identity_tx;
use pl_lens::Transform;

#[test]
fn an_identity_transform_should_pass_input_through_unchanged() {
    let tx = identity_tx::<u8>();
    assert_eq!(tx.apply(42u8), 42u8);
}

#[test]
fn a_fn_transform_should_work() {
    let tx = fn_tx(|x: u32| x * 2);
    let x = 21u32;
    let y = tx.apply(x);
    assert_eq!(y, 42);
}

#[test]
fn transform_composition_should_work() {
    let add_one = fn_tx(|x: u32| x + 1);
    let add_two = fn_tx(|x: u32| x + 2);
    let mul_two = fn_tx(|x: u32| x * 2);
    let tx = composed_tx(add_one, composed_tx(add_two, mul_two));
    let x = 0u32;
    let y = tx.apply(x);
    assert_eq!(y, 6);
}

#[test]
fn transform_composition_is_associative_on_concrete_values() {
    let add_one = fn_tx(|x: u32| x + 1);
    let add_two = fn_tx(|x: u32| x + 2);
    let mul_two = fn_tx(|x: u32| x * 2);
    let grouped_left = composed_tx(composed_tx(add_one, add_two), mul_two);
    assert_eq!(grouped_left.apply(0u32), 6);

    let add_one_again = fn_tx(|x: u32| x + 1);
    let add_two_again = fn_tx(|x: u32| x + 2);
    let mul_two_again = fn_tx(|x: u32| x * 2);
    let grouped_right = composed_tx(add_one_again, composed_tx(add_two_again, mul_two_again));
    assert_eq!(grouped_right.apply(0u32), 6);
}

#[test]
fn a_fn_transform_may_change_the_type() {
    let tx = fn_tx(|x: u16| x as u64 + 1000);
    assert_eq!(tx.apply(42u16), 1042u64);
}

#[test]
fn an_identity_transform_composes_as_a_unit() {
    let tx = composed_tx(identity_tx::<u32>(), fn_tx(|x: u32| x + 5));
    assert_eq!(tx.apply(7u32), 12);
    let tx2 = composed_tx(fn_tx(|x: u32| x + 5), identity_tx::<u32>());
    assert_eq!(tx2.apply(7u32), 12);
}
