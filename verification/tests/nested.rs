use pl_lens::compose;
use pl_lens::sample::Address;
use pl_lens::sample::AddressStreetLens;
use pl_lens::sample::Person;
use pl_lens::sample::PersonAddressLens;
use pl_lens::sample::PersonNameLens;
use pl_lens::Lens;
use pl_lens::RefLens;

#[test]
fn a_simple_nested_data_structure_should_be_lensable() {
    let p0 = Person {
        name: "Pop Zeus".to_string(),
        age: 58,
        address: Address {
            street: "123 Needmore Rd".to_string(),
            city: "Dayton".to_string(),
            postcode: "99999".to_string(),
            names: vec!["a".into(), "vec".into()],
        },
    };
    assert_eq!(PersonNameLens.get_ref(&p0), "Pop Zeus");
    assert_eq!(
        compose(PersonAddressLens, AddressStreetLens).get_ref(&p0),
        "123 Needmore Rd"
    );

    let p1 = compose(PersonAddressLens, AddressStreetLens).set(p0, "666 Titus Ave".to_string());
    assert_eq!(PersonNameLens.get_ref(&p1), "Pop Zeus");
    assert_eq!(compose(PersonAddressLens, AddressStreetLens).get_ref(&p1), "666 Titus Ave");
}
