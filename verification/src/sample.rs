use vstd::prelude::*;

use crate::lens::{Lens, RefLens, ValueLens};
use crate::path::LensPath;

verus! {

/// A small record with two numeric fields, used throughout the crate's
/// tests.  Its lenses below are written by hand, exactly as the accessor
/// contract asks of any producer of per-field lenses: one lens per field,
/// whose path element is the field's zero-based position among its siblings.
#[derive(Clone, Debug, PartialEq)]
pub struct Struct1 {
    /// First field, at hop identifier 0.
    pub int32: i32,
    /// Second field, at hop identifier 1.
    pub int16: i16,
}

/// A record holding a nested [`Struct1`] beside two leaf fields.
#[derive(Clone, Debug, PartialEq)]
pub struct Struct2 {
    /// First field, at hop identifier 0.
    pub int32: i32,
    /// Second field, at hop identifier 1.
    pub string: String,
    /// Nested record, at hop identifier 2.
    pub struct1: Struct1,
}

/// A record holding a nested [`Struct2`], giving three levels of nesting.
#[derive(Clone, Debug, PartialEq)]
pub struct Struct3 {
    /// First field, at hop identifier 0.
    pub int32: i32,
    /// Nested record, at hop identifier 1.
    pub struct2: Struct2,
}

/// A record with a single boolean field.
#[derive(Clone, Debug, PartialEq)]
pub struct Flags {
    /// The only field, at hop identifier 0.
    pub enabled: bool,
}

/// A postal address, nested inside [`Person`].
#[derive(Clone, Debug, PartialEq)]
pub struct Address {
    /// Street line, at hop identifier 0.
    pub street: String,
    /// City name, at hop identifier 1.
    pub city: String,
    /// Postal code, at hop identifier 2.
    pub postcode: String,
    /// Additional names for the address, at hop identifier 3.  The whole
    /// vector is treated as one leaf field.
    pub names: Vec<String>,
}

/// A person with a nested [`Address`].
#[derive(Clone, Debug, PartialEq)]
pub struct Person {
    /// Name, at hop identifier 0.
    pub name: String,
    /// Age in years, at hop identifier 1.
    pub age: u8,
    /// Nested address record, at hop identifier 2.
    pub address: Address,
}

/// Lens from [`Struct1`] to its `int32` field.
#[derive(Clone, Copy)]
pub struct Struct1Int32Lens;

impl Lens for Struct1Int32Lens {
    type Source = Struct1;

    type Target = i32;

    open spec fn spec_path(&self) -> Seq<u64> {
        seq![0u64]
    }

    open spec fn valid(&self, source: Struct1) -> bool {
        true
    }

    open spec fn spec_get(&self, source: Struct1) -> i32 {
        source.int32
    }

    open spec fn spec_set(&self, source: Struct1, target: i32) -> Struct1 {
        Struct1 { int32: target, ..source }
    }

    proof fn law_get_set(&self, source: Struct1, target: i32) {
    }

    proof fn law_set_get(&self, source: Struct1) {
    }

    proof fn law_set_set(&self, source: Struct1, t1: i32, t2: i32) {
    }

    proof fn law_set_preserves_valid(&self, source: Struct1, target: i32) {
    }

    fn path(&self) -> (p: LensPath) {
        LensPath::new(0)
    }

    fn check_valid(&self, source: &Struct1) -> (ok: bool) {
        true
    }

    fn mutate(&self, source: &mut Struct1, target: i32) {
        source.int32 = target;
    }
}

impl RefLens for Struct1Int32Lens {
    fn get_ref<'a>(&self, source: &'a Struct1) -> (target: &'a i32) {
        &source.int32
    }

    fn get_mut_ref<'a>(&self, source: &'a mut Struct1) -> (target: &'a mut i32) {
        &mut source.int32
    }
}

impl ValueLens for Struct1Int32Lens {
    fn get(&self, source: &Struct1) -> (target: i32) {
        source.int32
    }
}

/// Lens from [`Struct1`] to its `int16` field.
#[derive(Clone, Copy)]
pub struct Struct1Int16Lens;

impl Lens for Struct1Int16Lens {
    type Source = Struct1;

    type Target = i16;

    open spec fn spec_path(&self) -> Seq<u64> {
        seq![1u64]
    }

    open spec fn valid(&self, source: Struct1) -> bool {
        true
    }

    open spec fn spec_get(&self, source: Struct1) -> i16 {
        source.int16
    }

    open spec fn spec_set(&self, source: Struct1, target: i16) -> Struct1 {
        Struct1 { int16: target, ..source }
    }

    proof fn law_get_set(&self, source: Struct1, target: i16) {
    }

    proof fn law_set_get(&self, source: Struct1) {
    }

    proof fn law_set_set(&self, source: Struct1, t1: i16, t2: i16) {
    }

    proof fn law_set_preserves_valid(&self, source: Struct1, target: i16) {
    }

    fn path(&self) -> (p: LensPath) {
        LensPath::new(1)
    }

    fn check_valid(&self, source: &Struct1) -> (ok: bool) {
        true
    }

    fn mutate(&self, source: &mut Struct1, target: i16) {
        source.int16 = target;
    }
}

impl RefLens for Struct1Int16Lens {
    fn get_ref<'a>(&self, source: &'a Struct1) -> (target: &'a i16) {
        &source.int16
    }

    fn get_mut_ref<'a>(&self, source: &'a mut Struct1) -> (target: &'a mut i16) {
        &mut source.int16
    }
}

impl ValueLens for Struct1Int16Lens {
    fn get(&self, source: &Struct1) -> (target: i16) {
        source.int16
    }
}

/// Lens from [`Struct2`] to its `int32` field.
#[derive(Clone, Copy)]
pub struct Struct2Int32Lens;

impl Lens for Struct2Int32Lens {
    type Source = Struct2;

    type Target = i32;

    open spec fn spec_path(&self) -> Seq<u64> {
        seq![0u64]
    }

    open spec fn valid(&self, source: Struct2) -> bool {
        true
    }

    open spec fn spec_get(&self, source: Struct2) -> i32 {
        source.int32
    }

    open spec fn spec_set(&self, source: Struct2, target: i32) -> Struct2 {
        Struct2 { int32: target, ..source }
    }

    proof fn law_get_set(&self, source: Struct2, target: i32) {
    }

    proof fn law_set_get(&self, source: Struct2) {
    }

    proof fn law_set_set(&self, source: Struct2, t1: i32, t2: i32) {
    }

    proof fn law_set_preserves_valid(&self, source: Struct2, target: i32) {
    }

    fn path(&self) -> (p: LensPath) {
        LensPath::new(0)
    }

    fn check_valid(&self, source: &Struct2) -> (ok: bool) {
        true
    }

    fn mutate(&self, source: &mut Struct2, target: i32) {
        source.int32 = target;
    }
}

impl RefLens for Struct2Int32Lens {
    fn get_ref<'a>(&self, source: &'a Struct2) -> (target: &'a i32) {
        &source.int32
    }

    fn get_mut_ref<'a>(&self, source: &'a mut Struct2) -> (target: &'a mut i32) {
        &mut source.int32
    }
}

impl ValueLens for Struct2Int32Lens {
    fn get(&self, source: &Struct2) -> (target: i32) {
        source.int32
    }
}

/// Lens from [`Struct2`] to its `string` field.
#[derive(Clone, Copy)]
pub struct Struct2StringLens;

impl Lens for Struct2StringLens {
    type Source = Struct2;

    type Target = String;

    open spec fn spec_path(&self) -> Seq<u64> {
        seq![1u64]
    }

    open spec fn valid(&self, source: Struct2) -> bool {
        true
    }

    open spec fn spec_get(&self, source: Struct2) -> String {
        source.string
    }

    open spec fn spec_set(&self, source: Struct2, target: String) -> Struct2 {
        Struct2 { string: target, ..source }
    }

    proof fn law_get_set(&self, source: Struct2, target: String) {
    }

    proof fn law_set_get(&self, source: Struct2) {
    }

    proof fn law_set_set(&self, source: Struct2, t1: String, t2: String) {
    }

    proof fn law_set_preserves_valid(&self, source: Struct2, target: String) {
    }

    fn path(&self) -> (p: LensPath) {
        LensPath::new(1)
    }

    fn check_valid(&self, source: &Struct2) -> (ok: bool) {
        true
    }

    fn mutate(&self, source: &mut Struct2, target: String) {
        source.string = target;
    }
}

impl RefLens for Struct2StringLens {
    fn get_ref<'a>(&self, source: &'a Struct2) -> (target: &'a String) {
        &source.string
    }

    fn get_mut_ref<'a>(&self, source: &'a mut Struct2) -> (target: &'a mut String) {
        &mut source.string
    }
}

impl ValueLens for Struct2StringLens {
    fn get(&self, source: &Struct2) -> (target: String) {
        source.string.clone()
    }
}

/// Lens from [`Struct2`] to its `struct1` field.
#[derive(Clone, Copy)]
pub struct Struct2Struct1Lens;

impl Lens for Struct2Struct1Lens {
    type Source = Struct2;

    type Target = Struct1;

    open spec fn spec_path(&self) -> Seq<u64> {
        seq![2u64]
    }

    open spec fn valid(&self, source: Struct2) -> bool {
        true
    }

    open spec fn spec_get(&self, source: Struct2) -> Struct1 {
        source.struct1
    }

    open spec fn spec_set(&self, source: Struct2, target: Struct1) -> Struct2 {
        Struct2 { struct1: target, ..source }
    }

    proof fn law_get_set(&self, source: Struct2, target: Struct1) {
    }

    proof fn law_set_get(&self, source: Struct2) {
    }

    proof fn law_set_set(&self, source: Struct2, t1: Struct1, t2: Struct1) {
    }

    proof fn law_set_preserves_valid(&self, source: Struct2, target: Struct1) {
    }

    fn path(&self) -> (p: LensPath) {
        LensPath::new(2)
    }

    fn check_valid(&self, source: &Struct2) -> (ok: bool) {
        true
    }

    fn mutate(&self, source: &mut Struct2, target: Struct1) {
        source.struct1 = target;
    }
}

impl RefLens for Struct2Struct1Lens {
    fn get_ref<'a>(&self, source: &'a Struct2) -> (target: &'a Struct1) {
        &source.struct1
    }

    fn get_mut_ref<'a>(&self, source: &'a mut Struct2) -> (target: &'a mut Struct1) {
        &mut source.struct1
    }
}

/// Lens from [`Struct3`] to its `int32` field.
#[derive(Clone, Copy)]
pub struct Struct3Int32Lens;

impl Lens for Struct3Int32Lens {
    type Source = Struct3;

    type Target = i32;

    open spec fn spec_path(&self) -> Seq<u64> {
        seq![0u64]
    }

    open spec fn valid(&self, source: Struct3) -> bool {
        true
    }

    open spec fn spec_get(&self, source: Struct3) -> i32 {
        source.int32
    }

    open spec fn spec_set(&self, source: Struct3, target: i32) -> Struct3 {
        Struct3 { int32: target, ..source }
    }

    proof fn law_get_set(&self, source: Struct3, target: i32) {
    }

    proof fn law_set_get(&self, source: Struct3) {
    }

    proof fn law_set_set(&self, source: Struct3, t1: i32, t2: i32) {
    }

    proof fn law_set_preserves_valid(&self, source: Struct3, target: i32) {
    }

    fn path(&self) -> (p: LensPath) {
        LensPath::new(0)
    }

    fn check_valid(&self, source: &Struct3) -> (ok: bool) {
        true
    }

    fn mutate(&self, source: &mut Struct3, target: i32) {
        source.int32 = target;
    }
}

impl RefLens for Struct3Int32Lens {
    fn get_ref<'a>(&self, source: &'a Struct3) -> (target: &'a i32) {
        &source.int32
    }

    fn get_mut_ref<'a>(&self, source: &'a mut Struct3) -> (target: &'a mut i32) {
        &mut source.int32
    }
}

impl ValueLens for Struct3Int32Lens {
    fn get(&self, source: &Struct3) -> (target: i32) {
        source.int32
    }
}

/// Lens from [`Struct3`] to its `struct2` field.
#[derive(Clone, Copy)]
pub struct Struct3Struct2Lens;

impl Lens for Struct3Struct2Lens {
    type Source = Struct3;

    type Target = Struct2;

    open spec fn spec_path(&self) -> Seq<u64> {
        seq![1u64]
    }

    open spec fn valid(&self, source: Struct3) -> bool {
        true
    }

    open spec fn spec_get(&self, source: Struct3) -> Struct2 {
        source.struct2
    }

    open spec fn spec_set(&self, source: Struct3, target: Struct2) -> Struct3 {
        Struct3 { struct2: target, ..source }
    }

    proof fn law_get_set(&self, source: Struct3, target: Struct2) {
    }

    proof fn law_set_get(&self, source: Struct3) {
    }

    proof fn law_set_set(&self, source: Struct3, t1: Struct2, t2: Struct2) {
    }

    proof fn law_set_preserves_valid(&self, source: Struct3, target: Struct2) {
    }

    fn path(&self) -> (p: LensPath) {
        LensPath::new(1)
    }

    fn check_valid(&self, source: &Struct3) -> (ok: bool) {
        true
    }

    fn mutate(&self, source: &mut Struct3, target: Struct2) {
        source.struct2 = target;
    }
}

impl RefLens for Struct3Struct2Lens {
    fn get_ref<'a>(&self, source: &'a Struct3) -> (target: &'a Struct2) {
        &source.struct2
    }

    fn get_mut_ref<'a>(&self, source: &'a mut Struct3) -> (target: &'a mut Struct2) {
        &mut source.struct2
    }
}

/// Lens from [`Flags`] to its `enabled` field.
#[derive(Clone, Copy)]
pub struct FlagsEnabledLens;

impl Lens for FlagsEnabledLens {
    type Source = Flags;

    type Target = bool;

    open spec fn spec_path(&self) -> Seq<u64> {
        seq![0u64]
    }

    open spec fn valid(&self, source: Flags) -> bool {
        true
    }

    open spec fn spec_get(&self, source: Flags) -> bool {
        source.enabled
    }

    open spec fn spec_set(&self, source: Flags, target: bool) -> Flags {
        Flags { enabled: target, ..source }
    }

    proof fn law_get_set(&self, source: Flags, target: bool) {
    }

    proof fn law_set_get(&self, source: Flags) {
    }

    proof fn law_set_set(&self, source: Flags, t1: bool, t2: bool) {
    }

    proof fn law_set_preserves_valid(&self, source: Flags, target: bool) {
    }

    fn path(&self) -> (p: LensPath) {
        LensPath::new(0)
    }

    fn check_valid(&self, source: &Flags) -> (ok: bool) {
        true
    }

    fn mutate(&self, source: &mut Flags, target: bool) {
        source.enabled = target;
    }
}

impl RefLens for FlagsEnabledLens {
    fn get_ref<'a>(&self, source: &'a Flags) -> (target: &'a bool) {
        &source.enabled
    }

    fn get_mut_ref<'a>(&self, source: &'a mut Flags) -> (target: &'a mut bool) {
        &mut source.enabled
    }
}

impl ValueLens for FlagsEnabledLens {
    fn get(&self, source: &Flags) -> (target: bool) {
        source.enabled
    }
}

/// Lens from [`Address`] to its `street` field.
#[derive(Clone, Copy)]
pub struct AddressStreetLens;

impl Lens for AddressStreetLens {
    type Source = Address;

    type Target = String;

    open spec fn spec_path(&self) -> Seq<u64> {
        seq![0u64]
    }

    open spec fn valid(&self, source: Address) -> bool {
        true
    }

    open spec fn spec_get(&self, source: Address) -> String {
        source.street
    }

    open spec fn spec_set(&self, source: Address, target: String) -> Address {
        Address { street: target, ..source }
    }

    proof fn law_get_set(&self, source: Address, target: String) {
    }

    proof fn law_set_get(&self, source: Address) {
    }

    proof fn law_set_set(&self, source: Address, t1: String, t2: String) {
    }

    proof fn law_set_preserves_valid(&self, source: Address, target: String) {
    }

    fn path(&self) -> (p: LensPath) {
        LensPath::new(0)
    }

    fn check_valid(&self, source: &Address) -> (ok: bool) {
        true
    }

    fn mutate(&self, source: &mut Address, target: String) {
        source.street = target;
    }
}

impl RefLens for AddressStreetLens {
    fn get_ref<'a>(&self, source: &'a Address) -> (target: &'a String) {
        &source.street
    }

    fn get_mut_ref<'a>(&self, source: &'a mut Address) -> (target: &'a mut String) {
        &mut source.street
    }
}

impl ValueLens for AddressStreetLens {
    fn get(&self, source: &Address) -> (target: String) {
        source.street.clone()
    }
}

/// Lens from [`Address`] to its `city` field.
#[derive(Clone, Copy)]
pub struct AddressCityLens;

impl Lens for AddressCityLens {
    type Source = Address;

    type Target = String;

    open spec fn spec_path(&self) -> Seq<u64> {
        seq![1u64]
    }

    open spec fn valid(&self, source: Address) -> bool {
        true
    }

    open spec fn spec_get(&self, source: Address) -> String {
        source.city
    }

    open spec fn spec_set(&self, source: Address, target: String) -> Address {
        Address { city: target, ..source }
    }

    proof fn law_get_set(&self, source: Address, target: String) {
    }

    proof fn law_set_get(&self, source: Address) {
    }

    proof fn law_set_set(&self, source: Address, t1: String, t2: String) {
    }

    proof fn law_set_preserves_valid(&self, source: Address, target: String) {
    }

    fn path(&self) -> (p: LensPath) {
        LensPath::new(1)
    }

    fn check_valid(&self, source: &Address) -> (ok: bool) {
        true
    }

    fn mutate(&self, source: &mut Address, target: String) {
        source.city = target;
    }
}

impl RefLens for AddressCityLens {
    fn get_ref<'a>(&self, source: &'a Address) -> (target: &'a String) {
        &source.city
    }

    fn get_mut_ref<'a>(&self, source: &'a mut Address) -> (target: &'a mut String) {
        &mut source.city
    }
}

impl ValueLens for AddressCityLens {
    fn get(&self, source: &Address) -> (target: String) {
        source.city.clone()
    }
}

/// Lens from [`Address`] to its `postcode` field.
#[derive(Clone, Copy)]
pub struct AddressPostcodeLens;

impl Lens for AddressPostcodeLens {
    type Source = Address;

    type Target = String;

    open spec fn spec_path(&self) -> Seq<u64> {
        seq![2u64]
    }

    open spec fn valid(&self, source: Address) -> bool {
        true
    }

    open spec fn spec_get(&self, source: Address) -> String {
        source.postcode
    }

    open spec fn spec_set(&self, source: Address, target: String) -> Address {
        Address { postcode: target, ..source }
    }

    proof fn law_get_set(&self, source: Address, target: String) {
    }

    proof fn law_set_get(&self, source: Address) {
    }

    proof fn law_set_set(&self, source: Address, t1: String, t2: String) {
    }

    proof fn law_set_preserves_valid(&self, source: Address, target: String) {
    }

    fn path(&self) -> (p: LensPath) {
        LensPath::new(2)
    }

    fn check_valid(&self, source: &Address) -> (ok: bool) {
        true
    }

    fn mutate(&self, source: &mut Address, target: String) {
        source.postcode = target;
    }
}

impl RefLens for AddressPostcodeLens {
    fn get_ref<'a>(&self, source: &'a Address) -> (target: &'a String) {
        &source.postcode
    }

    fn get_mut_ref<'a>(&self, source: &'a mut Address) -> (target: &'a mut String) {
        &mut source.postcode
    }
}

impl ValueLens for AddressPostcodeLens {
    fn get(&self, source: &Address) -> (target: String) {
        source.postcode.clone()
    }
}

/// Lens from [`Address`] to its `names` field.
#[derive(Clone, Copy)]
pub struct AddressNamesLens;

impl Lens for AddressNamesLens {
    type Source = Address;

    type Target = Vec<String>;

    open spec fn spec_path(&self) -> Seq<u64> {
        seq![3u64]
    }

    open spec fn valid(&self, source: Address) -> bool {
        true
    }

    open spec fn spec_get(&self, source: Address) -> Vec<String> {
        source.names
    }

    open spec fn spec_set(&self, source: Address, target: Vec<String>) -> Address {
        Address { names: target, ..source }
    }

    proof fn law_get_set(&self, source: Address, target: Vec<String>) {
    }

    proof fn law_set_get(&self, source: Address) {
    }

    proof fn law_set_set(&self, source: Address, t1: Vec<String>, t2: Vec<String>) {
    }

    proof fn law_set_preserves_valid(&self, source: Address, target: Vec<String>) {
    }

    fn path(&self) -> (p: LensPath) {
        LensPath::new(3)
    }

    fn check_valid(&self, source: &Address) -> (ok: bool) {
        true
    }

    fn mutate(&self, source: &mut Address, target: Vec<String>) {
        source.names = target;
    }
}

impl RefLens for AddressNamesLens {
    fn get_ref<'a>(&self, source: &'a Address) -> (target: &'a Vec<String>) {
        &source.names
    }

    fn get_mut_ref<'a>(&self, source: &'a mut Address) -> (target: &'a mut Vec<String>) {
        &mut source.names
    }
}

/// Lens from [`Person`] to its `name` field.
#[derive(Clone, Copy)]
pub struct PersonNameLens;

impl Lens for PersonNameLens {
    type Source = Person;

    type Target = String;

    open spec fn spec_path(&self) -> Seq<u64> {
        seq![0u64]
    }

    open spec fn valid(&self, source: Person) -> bool {
        true
    }

    open spec fn spec_get(&self, source: Person) -> String {
        source.name
    }

    open spec fn spec_set(&self, source: Person, target: String) -> Person {
        Person { name: target, ..source }
    }

    proof fn law_get_set(&self, source: Person, target: String) {
    }

    proof fn law_set_get(&self, source: Person) {
    }

    proof fn law_set_set(&self, source: Person, t1: String, t2: String) {
    }

    proof fn law_set_preserves_valid(&self, source: Person, target: String) {
    }

    fn path(&self) -> (p: LensPath) {
        LensPath::new(0)
    }

    fn check_valid(&self, source: &Person) -> (ok: bool) {
        true
    }

    fn mutate(&self, source: &mut Person, target: String) {
        source.name = target;
    }
}

impl RefLens for PersonNameLens {
    fn get_ref<'a>(&self, source: &'a Person) -> (target: &'a String) {
        &source.name
    }

    fn get_mut_ref<'a>(&self, source: &'a mut Person) -> (target: &'a mut String) {
        &mut source.name
    }
}

impl ValueLens for PersonNameLens {
    fn get(&self, source: &Person) -> (target: String) {
        source.name.clone()
    }
}

/// Lens from [`Person`] to its `age` field.
#[derive(Clone, Copy)]
pub struct PersonAgeLens;

impl Lens for PersonAgeLens {
    type Source = Person;

    type Target = u8;

    open spec fn spec_path(&self) -> Seq<u64> {
        seq![1u64]
    }

    open spec fn valid(&self, source: Person) -> bool {
        true
    }

    open spec fn spec_get(&self, source: Person) -> u8 {
        source.age
    }

    open spec fn spec_set(&self, source: Person, target: u8) -> Person {
        Person { age: target, ..source }
    }

    proof fn law_get_set(&self, source: Person, target: u8) {
    }

    proof fn law_set_get(&self, source: Person) {
    }

    proof fn law_set_set(&self, source: Person, t1: u8, t2: u8) {
    }

    proof fn law_set_preserves_valid(&self, source: Person, target: u8) {
    }

    fn path(&self) -> (p: LensPath) {
        LensPath::new(1)
    }

    fn check_valid(&self, source: &Person) -> (ok: bool) {
        true
    }

    fn mutate(&self, source: &mut Person, target: u8) {
        source.age = target;
    }
}

impl RefLens for PersonAgeLens {
    fn get_ref<'a>(&self, source: &'a Person) -> (target: &'a u8) {
        &source.age
    }

    fn get_mut_ref<'a>(&self, source: &'a mut Person) -> (target: &'a mut u8) {
        &mut source.age
    }
}

impl ValueLens for PersonAgeLens {
    fn get(&self, source: &Person) -> (target: u8) {
        source.age
    }
}

/// Lens from [`Person`] to its `address` field.
#[derive(Clone, Copy)]
pub struct PersonAddressLens;

impl Lens for PersonAddressLens {
    type Source = Person;

    type Target = Address;

    open spec fn spec_path(&self) -> Seq<u64> {
        seq![2u64]
    }

    open spec fn valid(&self, source: Person) -> bool {
        true
    }

    open spec fn spec_get(&self, source: Person) -> Address {
        source.address
    }

    open spec fn spec_set(&self, source: Person, target: Address) -> Person {
        Person { address: target, ..source }
    }

    proof fn law_get_set(&self, source: Person, target: Address) {
    }

    proof fn law_set_get(&self, source: Person) {
    }

    proof fn law_set_set(&self, source: Person, t1: Address, t2: Address) {
    }

    proof fn law_set_preserves_valid(&self, source: Person, target: Address) {
    }

    fn path(&self) -> (p: LensPath) {
        LensPath::new(2)
    }

    fn check_valid(&self, source: &Person) -> (ok: bool) {
        true
    }

    fn mutate(&self, source: &mut Person, target: Address) {
        source.address = target;
    }
}

impl RefLens for PersonAddressLens {
    fn get_ref<'a>(&self, source: &'a Person) -> (target: &'a Address) {
        &source.address
    }

    fn get_mut_ref<'a>(&self, source: &'a mut Person) -> (target: &'a mut Address) {
        &mut source.address
    }
}
/// Unrelated-field isolation on [`Struct1`]: setting one field through its
/// lens never changes the observed value of the sibling field, for every
/// source value and every written value.
pub proof fn lemma_struct1_sibling_isolation(source: Struct1, value32: i32, value16: i16)
    ensures
        Struct1Int16Lens.spec_get(Struct1Int32Lens.spec_set(source, value32))
            == Struct1Int16Lens.spec_get(source),
        Struct1Int32Lens.spec_get(Struct1Int16Lens.spec_set(source, value16))
            == Struct1Int32Lens.spec_get(source),
{
}

/// Unrelated-field isolation on [`Struct2`]: replacing the nested record
/// leaves both leaf siblings untouched, for every source and every written
/// value.
pub proof fn lemma_struct2_sibling_isolation(source: Struct2, value: Struct1)
    ensures
        Struct2Int32Lens.spec_get(Struct2Struct1Lens.spec_set(source, value))
            == Struct2Int32Lens.spec_get(source),
        Struct2StringLens.spec_get(Struct2Struct1Lens.spec_set(source, value))
            == Struct2StringLens.spec_get(source),
{
}

} // verus!
