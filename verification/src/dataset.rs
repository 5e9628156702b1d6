//! The embedded dataset of chemical elements, read by atomic number.

use vstd::prelude::*;
use crate::category::{GroupBlock, Rgb, StateOfMatter};
use crate::value::Single;

verus! {

/// Number of chemical elements in the dataset.
pub const ELEMENT_COUNT: usize = 118;

/// Whether `z` is the atomic number of an element of the dataset.
pub open spec fn is_atomic_number(z: int) -> bool {
    1 <= z <= ELEMENT_COUNT
}

/// The name that the dataset gives the element with atomic number `z`.
pub uninterp spec fn element_name(z: int) -> Seq<char>;

/// The symbol that the dataset gives the element with atomic number `z`.
pub uninterp spec fn element_symbol(z: int) -> Seq<char>;

/// The dataset's atomic mass of element `z`.
pub uninterp spec fn element_atomic_mass(z: int) -> Single;

/// The dataset's atomic radius of element `z`.
pub uninterp spec fn element_atomic_radius(z: int) -> u16;

/// The dataset's CPK colour of element `z`.
pub uninterp spec fn element_cpk(z: int) -> Rgb;

/// The dataset's electron configuration of element `z`, as text.
pub uninterp spec fn element_electron_configuration(z: int) -> Seq<char>;

/// The dataset's electronegativity of element `z`.
pub uninterp spec fn element_electronegativity(z: int) -> Single;

/// The dataset's ionization energy of element `z`.
pub uninterp spec fn element_ionization_energy(z: int) -> Single;

/// The dataset's electron affinity of element `z`.
pub uninterp spec fn element_electron_affinity(z: int) -> Single;

/// The dataset's standard state of element `z`.
pub uninterp spec fn element_standard_state(z: int) -> StateOfMatter;

/// The dataset's melting point of element `z`.
pub uninterp spec fn element_melting_point(z: int) -> Single;

/// The dataset's boiling point of element `z`.
pub uninterp spec fn element_boiling_point(z: int) -> Single;

/// The dataset's density of element `z`.
pub uninterp spec fn element_density(z: int) -> Single;

/// The dataset's group block of element `z`.
pub uninterp spec fn element_group(z: int) -> GroupBlock;

/// The dataset's year of discovery of element `z`.
pub uninterp spec fn element_year_discovered(z: int) -> u16;

/// Calls `periodic_table_on_an_enum::periodic_table` and hands out the atomic
/// number of each element it yields. Trusted: the iterator yields every
/// element once, in ascending atomic number from 1 to 118.
#[verifier::external_body]
pub(crate) fn atomic_numbers() -> (numbers: Vec<usize>)
    ensures
        numbers@ == Seq::new(ELEMENT_COUNT as nat, |i: int| (i + 1) as usize),
{
    periodic_table_on_an_enum::periodic_table().map(|e| e.get_atomic_number()).collect()
}

/// Calls `Element::get_name` on the element with atomic number `z`. Trusted:
/// the result is the dataset's name of that element.
#[verifier::external_body]
pub(crate) fn name_of(z: usize) -> (name: String)
    requires
        is_atomic_number(z as int),
    ensures
        name@ == element_name(z as int),
{
    periodic_table_on_an_enum::Element::from_atomic_number(z).unwrap().get_name().to_string()
}

/// Calls `Element::get_symbol` on the element with atomic number `z`. Trusted:
/// the result is the dataset's symbol of that element.
#[verifier::external_body]
pub(crate) fn symbol_of(z: usize) -> (symbol: String)
    requires
        is_atomic_number(z as int),
    ensures
        symbol@ == element_symbol(z as int),
{
    periodic_table_on_an_enum::Element::from_atomic_number(z).unwrap().get_symbol().to_string()
}

/// Calls `Element::get_atomic_mass` on the element with atomic number `z`.
/// Trusted: the result is the dataset's atomic mass of that element.
#[verifier::external_body]
pub(crate) fn atomic_mass_of(z: usize) -> (mass: Single)
    requires
        is_atomic_number(z as int),
    ensures
        mass == element_atomic_mass(z as int),
{
    let element = periodic_table_on_an_enum::Element::from_atomic_number(z).unwrap();
    Single { bits: element.get_atomic_mass().to_bits() }
}

/// Calls `Element::get_atomic_radius` on the element with atomic number `z`.
/// Trusted: the result is the dataset's atomic radius of that element.
#[verifier::external_body]
pub(crate) fn atomic_radius_of(z: usize) -> (radius: u16)
    requires
        is_atomic_number(z as int),
    ensures
        radius == element_atomic_radius(z as int),
{
    periodic_table_on_an_enum::Element::from_atomic_number(z).unwrap().get_atomic_radius()
}

/// Calls `Element::get_cpk` on the element with atomic number `z`. Trusted:
/// the result is the dataset's CPK colour of that element.
#[verifier::external_body]
pub(crate) fn cpk_of(z: usize) -> (cpk: Rgb)
    requires
        is_atomic_number(z as int),
    ensures
        cpk == element_cpk(z as int),
{
    let [r, g, b] = periodic_table_on_an_enum::Element::from_atomic_number(z).unwrap().get_cpk();
    Rgb { r, g, b }
}

/// Calls `Element::get_electronic_configuration_str` on the element with
/// atomic number `z`. Trusted: the result is the dataset's electron
/// configuration of that element.
#[verifier::external_body]
pub(crate) fn electron_configuration_of(z: usize) -> (configuration: String)
    requires
        is_atomic_number(z as int),
    ensures
        configuration@ == element_electron_configuration(z as int),
{
    let element = periodic_table_on_an_enum::Element::from_atomic_number(z).unwrap();
    element.get_electronic_configuration_str().to_string()
}

/// Calls `Element::get_electronegativity` on the element with atomic number
/// `z`. Trusted: the result is the dataset's electronegativity of that element.
#[verifier::external_body]
pub(crate) fn electronegativity_of(z: usize) -> (value: Single)
    requires
        is_atomic_number(z as int),
    ensures
        value == element_electronegativity(z as int),
{
    let element = periodic_table_on_an_enum::Element::from_atomic_number(z).unwrap();
    Single { bits: element.get_electronegativity().to_bits() }
}

/// Calls `Element::get_ionization_energy` on the element with atomic number
/// `z`. Trusted: the result is the dataset's ionization energy of that element.
#[verifier::external_body]
pub(crate) fn ionization_energy_of(z: usize) -> (value: Single)
    requires
        is_atomic_number(z as int),
    ensures
        value == element_ionization_energy(z as int),
{
    let element = periodic_table_on_an_enum::Element::from_atomic_number(z).unwrap();
    Single { bits: element.get_ionization_energy().to_bits() }
}

/// Calls `Element::get_electron_affinity` on the element with atomic number
/// `z`. Trusted: the result is the dataset's electron affinity of that element.
#[verifier::external_body]
pub(crate) fn electron_affinity_of(z: usize) -> (value: Single)
    requires
        is_atomic_number(z as int),
    ensures
        value == element_electron_affinity(z as int),
{
    let element = periodic_table_on_an_enum::Element::from_atomic_number(z).unwrap();
    Single { bits: element.get_electron_affinity().to_bits() }
}

/// Calls `Element::get_standard_state` on the element with atomic number `z`.
/// Trusted: the result is the dataset's standard state of that element.
#[verifier::external_body]
pub(crate) fn standard_state_of(z: usize) -> (state: StateOfMatter)
    requires
        is_atomic_number(z as int),
    ensures
        state == element_standard_state(z as int),
{
    match periodic_table_on_an_enum::Element::from_atomic_number(z).unwrap().get_standard_state() {
        periodic_table_on_an_enum::StateOfMatter::Solid => StateOfMatter::Solid,
        periodic_table_on_an_enum::StateOfMatter::Liquid => StateOfMatter::Liquid,
        periodic_table_on_an_enum::StateOfMatter::Gas => StateOfMatter::Gas,
    }
}

/// Calls `Element::get_melting_point` on the element with atomic number `z`.
/// Trusted: the result is the dataset's melting point of that element.
#[verifier::external_body]
pub(crate) fn melting_point_of(z: usize) -> (value: Single)
    requires
        is_atomic_number(z as int),
    ensures
        value == element_melting_point(z as int),
{
    let element = periodic_table_on_an_enum::Element::from_atomic_number(z).unwrap();
    Single { bits: element.get_melting_point().to_bits() }
}

/// Calls `Element::get_boiling_point` on the element with atomic number `z`.
/// Trusted: the result is the dataset's boiling point of that element.
#[verifier::external_body]
pub(crate) fn boiling_point_of(z: usize) -> (value: Single)
    requires
        is_atomic_number(z as int),
    ensures
        value == element_boiling_point(z as int),
{
    let element = periodic_table_on_an_enum::Element::from_atomic_number(z).unwrap();
    Single { bits: element.get_boiling_point().to_bits() }
}

/// Calls `Element::get_density` on the element with atomic number `z`.
/// Trusted: the result is the dataset's density of that element.
#[verifier::external_body]
pub(crate) fn density_of(z: usize) -> (value: Single)
    requires
        is_atomic_number(z as int),
    ensures
        value == element_density(z as int),
{
    let element = periodic_table_on_an_enum::Element::from_atomic_number(z).unwrap();
    Single { bits: element.get_density().to_bits() }
}

/// Calls `Element::get_group` on the element with atomic number `z`. Trusted:
/// the result is the dataset's group block of that element.
#[verifier::external_body]
pub(crate) fn group_of(z: usize) -> (group: GroupBlock)
    requires
        is_atomic_number(z as int),
    ensures
        group == element_group(z as int),
{
    match periodic_table_on_an_enum::Element::from_atomic_number(z).unwrap().get_group() {
        periodic_table_on_an_enum::GroupBlock::AlkaliMetal => GroupBlock::AlkaliMetal,
        periodic_table_on_an_enum::GroupBlock::AlkalineEarthMetal => GroupBlock::AlkalineEarthMetal,
        periodic_table_on_an_enum::GroupBlock::Lanthanide => GroupBlock::Lanthanide,
        periodic_table_on_an_enum::GroupBlock::Actinide => GroupBlock::Actinide,
        periodic_table_on_an_enum::GroupBlock::TransitionMetal => GroupBlock::TransitionMetal,
        periodic_table_on_an_enum::GroupBlock::PostTransitionMetal => GroupBlock::PostTransitionMetal,
        periodic_table_on_an_enum::GroupBlock::Metalloid => GroupBlock::Metalloid,
        periodic_table_on_an_enum::GroupBlock::NonMetal => GroupBlock::NonMetal,
        periodic_table_on_an_enum::GroupBlock::Halogen => GroupBlock::Halogen,
        periodic_table_on_an_enum::GroupBlock::NobleGas => GroupBlock::NobleGas,
    }
}

/// Calls `Element::get_year_discovered` on the element with atomic number `z`.
/// Trusted: the result is the dataset's year of discovery of that element.
#[verifier::external_body]
pub(crate) fn year_discovered_of(z: usize) -> (year: u16)
    requires
        is_atomic_number(z as int),
    ensures
        year == element_year_discovered(z as int),
{
    periodic_table_on_an_enum::Element::from_atomic_number(z).unwrap().get_year_discovered()
}

} // verus!
