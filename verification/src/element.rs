//! The record of one element, and the list of all of them.

use vstd::prelude::*;
use crate::category::{GroupBlock, Rgb, StateOfMatter};
use crate::dataset::{
    atomic_mass_of, atomic_numbers, atomic_radius_of, boiling_point_of, cpk_of, density_of,
    electron_affinity_of, electron_configuration_of, electronegativity_of, element_atomic_mass,
    element_atomic_radius, element_boiling_point, element_cpk, element_density,
    element_electron_affinity, element_electron_configuration, element_electronegativity,
    element_group, element_ionization_energy, element_melting_point, element_name,
    element_standard_state, element_symbol, element_year_discovered, group_of,
    ionization_energy_of, is_atomic_number, melting_point_of, name_of, standard_state_of,
    symbol_of, year_discovered_of, ELEMENT_COUNT,
};
use crate::value::Single;

verus! {

/// One chemical element with its attributes, as plain values.
#[derive(Clone, Debug, PartialEq, Eq)]
pub struct Element {
    pub name: String,
    pub symbol: String,
    pub atomic_number: u8,
    pub atomic_mass: Single,
    pub atomic_radius: u16,
    pub cpk: Rgb,
    pub electron_configuration: String,
    pub electronegativity: Single,
    pub ionization_energy: Single,
    pub electron_affinity: Single,
    pub standard_state: StateOfMatter,
    pub melting_point: Single,
    pub boiling_point: Single,
    pub density: Single,
    pub group: GroupBlock,
    pub year_discovered: u16,
}

/// What an element record holds.
pub struct ElementModel {
    pub name: Seq<char>,
    pub symbol: Seq<char>,
    pub atomic_number: int,
    pub atomic_mass: Single,
    pub atomic_radius: int,
    pub cpk: Rgb,
    pub electron_configuration: Seq<char>,
    pub electronegativity: Single,
    pub ionization_energy: Single,
    pub electron_affinity: Single,
    pub standard_state: StateOfMatter,
    pub melting_point: Single,
    pub boiling_point: Single,
    pub density: Single,
    pub group: GroupBlock,
    pub year_discovered: int,
}

impl View for Element {
    type V = ElementModel;

    open spec fn view(&self) -> ElementModel {
        ElementModel {
            name: self.name@,
            symbol: self.symbol@,
            atomic_number: self.atomic_number as int,
            atomic_mass: self.atomic_mass,
            atomic_radius: self.atomic_radius as int,
            cpk: self.cpk,
            electron_configuration: self.electron_configuration@,
            electronegativity: self.electronegativity,
            ionization_energy: self.ionization_energy,
            electron_affinity: self.electron_affinity,
            standard_state: self.standard_state,
            melting_point: self.melting_point,
            boiling_point: self.boiling_point,
            density: self.density,
            group: self.group,
            year_discovered: self.year_discovered as int,
        }
    }
}

impl DeepView for Element {
    type V = ElementModel;

    open spec fn deep_view(&self) -> ElementModel {
        self@
    }
}

/// The dataset's record of the element with atomic number `z`.
pub open spec fn dataset_element(z: int) -> ElementModel {
    ElementModel {
        name: element_name(z),
        symbol: element_symbol(z),
        atomic_number: z,
        atomic_mass: element_atomic_mass(z),
        atomic_radius: element_atomic_radius(z) as int,
        cpk: element_cpk(z),
        electron_configuration: element_electron_configuration(z),
        electronegativity: element_electronegativity(z),
        ionization_energy: element_ionization_energy(z),
        electron_affinity: element_electron_affinity(z),
        standard_state: element_standard_state(z),
        melting_point: element_melting_point(z),
        boiling_point: element_boiling_point(z),
        density: element_density(z),
        group: element_group(z),
        year_discovered: element_year_discovered(z) as int,
    }
}

/// The dataset's elements in their natural order: ascending atomic number.
pub open spec fn dataset_elements() -> Seq<ElementModel> {
    Seq::new(ELEMENT_COUNT as nat, |i: int| dataset_element(i + 1))
}

impl Element {
    /// Reads the element with atomic number `z` from the dataset.
    fn load(z: usize) -> (element: Element)
        requires
            is_atomic_number(z as int),
        ensures
            element@ == dataset_element(z as int),
    {
        Element {
            name: name_of(z),
            symbol: symbol_of(z),
            atomic_number: z as u8,
            atomic_mass: atomic_mass_of(z),
            atomic_radius: atomic_radius_of(z),
            cpk: cpk_of(z),
            electron_configuration: electron_configuration_of(z),
            electronegativity: electronegativity_of(z),
            ionization_energy: ionization_energy_of(z),
            electron_affinity: electron_affinity_of(z),
            standard_state: standard_state_of(z),
            melting_point: melting_point_of(z),
            boiling_point: boiling_point_of(z),
            density: density_of(z),
            group: group_of(z),
            year_discovered: year_discovered_of(z),
        }
    }

    /// Looks up an element by atomic number: `Some` exactly for the numbers
    /// from 1 to 118.
    pub fn from_atomic_number(z: usize) -> (found: Option<Element>)
        ensures
            is_atomic_number(z as int) ==> found.is_some() && found.unwrap()@ == dataset_element(
                z as int,
            ),
            !is_atomic_number(z as int) ==> found.is_none(),
    {
        if 1 <= z && z <= ELEMENT_COUNT {
            Some(Element::load(z))
        } else {
            None
        }
    }

    /// Returns every element of the dataset, in ascending atomic number.
    pub fn all() -> (elements: Vec<Element>)
        ensures
            elements.deep_view() == dataset_elements(),
            elements.len() == ELEMENT_COUNT,
            forall|k: int|
                0 <= k < ELEMENT_COUNT ==> (#[trigger] elements[k])@ == dataset_element(k + 1),
    {
        let numbers = atomic_numbers();
        let mut elements: Vec<Element> = Vec::new();
        let mut i: usize = 0;
        while i < numbers.len()
            invariant
                numbers@ == Seq::new(ELEMENT_COUNT as nat, |k: int| (k + 1) as usize),
                i <= numbers.len(),
                elements.len() == i,
                forall|k: int| 0 <= k < i ==> (#[trigger] elements[k])@ == dataset_element(k + 1),
            decreases numbers.len() - i,
        {
            let z = numbers[i];
            elements.push(Element::load(z));
            i += 1;
        }
        assert(elements.deep_view() =~= dataset_elements());
        elements
    }
}

} // verus!
