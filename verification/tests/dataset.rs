use periodic_table::decimal::decimal_string;
use periodic_table::{Element, GroupBlock, Rgb, Single, StateOfMatter};

fn number(value: Single) -> f32 {
    f32::from_bits(value.bits)
}

#[test]
fn lookup_by_atomic_number() {
    assert_eq!(Element::from_atomic_number(0), None);
    assert_eq!(Element::from_atomic_number(119), None);
    assert_eq!(Element::from_atomic_number(usize::MAX), None);
    for z in 1..=118usize {
        let element = Element::from_atomic_number(z).unwrap();
        assert_eq!(element.atomic_number as usize, z);
    }
}

#[test]
fn hydrogen_record() {
    let hydrogen = Element::from_atomic_number(1).unwrap();
    assert_eq!(hydrogen.name, "Hydrogen");
    assert_eq!(hydrogen.symbol, "H");
    assert_eq!(hydrogen.atomic_number, 1);
    assert_eq!(number(hydrogen.atomic_mass), 1.0080);
    assert_eq!(hydrogen.atomic_radius, 120);
    assert_eq!(hydrogen.cpk, Rgb { r: 255, g: 255, b: 255 });
    assert_eq!(hydrogen.electron_configuration, "1s1");
    assert_eq!(number(hydrogen.electronegativity), 2.2);
    assert_eq!(number(hydrogen.ionization_energy), 13.598);
    assert_eq!(number(hydrogen.electron_affinity), 0.754);
    assert_eq!(hydrogen.standard_state, StateOfMatter::Gas);
    assert_eq!(number(hydrogen.melting_point), 13.81);
    assert_eq!(number(hydrogen.boiling_point), 20.28);
    assert_eq!(number(hydrogen.density), 0.00008988);
    assert_eq!(hydrogen.group, GroupBlock::NonMetal);
    assert_eq!(hydrogen.year_discovered, 1766);
}

#[test]
fn mercury_record() {
    let mercury = Element::from_atomic_number(80).unwrap();
    assert_eq!(mercury.name, "Mercury");
    assert_eq!(mercury.symbol, "Hg");
    assert_eq!(number(mercury.atomic_mass), 200.59);
    assert_eq!(mercury.atomic_radius, 209);
    assert_eq!(mercury.cpk, Rgb { r: 0xB8, g: 0xB8, b: 0xD0 });
    assert_eq!(mercury.electron_configuration, "[Xe]6s2 4f14 5d10");
    assert_eq!(number(mercury.electronegativity), 2.0);
    assert_eq!(number(mercury.ionization_energy), 10.438);
    assert_eq!(number(mercury.electron_affinity), 0.0);
    assert_eq!(mercury.standard_state, StateOfMatter::Liquid);
    assert_eq!(number(mercury.melting_point), 234.32);
    assert_eq!(number(mercury.boiling_point), 629.88);
    assert_eq!(number(mercury.density), 13.5336);
    assert_eq!(mercury.group, GroupBlock::TransitionMetal);
    assert_eq!(mercury.year_discovered, 0);
}

#[test]
fn one_element_of_each_group_block() {
    let cases = [
        (3, GroupBlock::AlkaliMetal),
        (4, GroupBlock::AlkalineEarthMetal),
        (57, GroupBlock::Lanthanide),
        (89, GroupBlock::Actinide),
        (26, GroupBlock::TransitionMetal),
        (13, GroupBlock::PostTransitionMetal),
        (14, GroupBlock::Metalloid),
        (6, GroupBlock::NonMetal),
        (9, GroupBlock::Halogen),
        (2, GroupBlock::NobleGas),
    ];
    for (z, group) in cases {
        assert_eq!(Element::from_atomic_number(z).unwrap().group, group);
    }
}

#[test]
fn one_element_of_each_state() {
    assert_eq!(
        Element::from_atomic_number(26).unwrap().standard_state,
        StateOfMatter::Solid
    );
    assert_eq!(
        Element::from_atomic_number(35).unwrap().standard_state,
        StateOfMatter::Liquid
    );
    assert_eq!(
        Element::from_atomic_number(2).unwrap().standard_state,
        StateOfMatter::Gas
    );
    assert_eq!(
        Element::from_atomic_number(118).unwrap().standard_state,
        StateOfMatter::Gas
    );
}

#[test]
fn all_elements_in_ascending_atomic_number() {
    let elements = Element::all();
    assert_eq!(elements.len(), 118);
    for (index, element) in elements.iter().enumerate() {
        assert_eq!(element.atomic_number as usize, index + 1);
        assert_eq!(Some(element.clone()), Element::from_atomic_number(index + 1));
    }
    assert_eq!(elements[0].name, "Hydrogen");
    assert_eq!(elements[117].name, "Oganesson");
}

#[test]
fn group_block_names() {
    assert_eq!(GroupBlock::AlkaliMetal.name(), "Alkali Metal");
    assert_eq!(GroupBlock::AlkalineEarthMetal.name(), "Alkaline Earth Metal");
    assert_eq!(GroupBlock::Lanthanide.name(), "Lanthanide");
    assert_eq!(GroupBlock::Actinide.name(), "Actinide");
    assert_eq!(GroupBlock::TransitionMetal.name(), "Transition Metal");
    assert_eq!(GroupBlock::PostTransitionMetal.name(), "Post-Transition Metal");
    assert_eq!(GroupBlock::Metalloid.name(), "Metalloid");
    assert_eq!(GroupBlock::NonMetal.name(), "Nonmetal");
    assert_eq!(GroupBlock::Halogen.name(), "Halogen");
    assert_eq!(GroupBlock::NobleGas.name(), "Noble Gas");
}

#[test]
fn state_names() {
    assert_eq!(StateOfMatter::Solid.name(), "Solid");
    assert_eq!(StateOfMatter::Liquid.name(), "Liquid");
    assert_eq!(StateOfMatter::Gas.name(), "Gas");
}

#[test]
fn group_block_colours() {
    assert_eq!(GroupBlock::AlkaliMetal.color(), Rgb { r: 255, g: 102, b: 102 });
    assert_eq!(GroupBlock::AlkalineEarthMetal.color(), Rgb { r: 255, g: 222, b: 173 });
    assert_eq!(GroupBlock::Lanthanide.color(), Rgb { r: 255, g: 191, b: 255 });
    assert_eq!(GroupBlock::Actinide.color(), Rgb { r: 255, g: 153, b: 204 });
    assert_eq!(GroupBlock::TransitionMetal.color(), Rgb { r: 255, g: 192, b: 192 });
    assert_eq!(GroupBlock::PostTransitionMetal.color(), Rgb { r: 204, g: 204, b: 204 });
    assert_eq!(GroupBlock::Metalloid.color(), Rgb { r: 204, g: 204, b: 153 });
    assert_eq!(GroupBlock::NonMetal.color(), Rgb { r: 160, g: 255, b: 160 });
    assert_eq!(GroupBlock::Halogen.color(), Rgb { r: 255, g: 255, b: 153 });
    assert_eq!(GroupBlock::NobleGas.color(), Rgb { r: 192, g: 255, b: 255 });
}

#[test]
fn group_block_colours_are_distinct_and_fixed() {
    let groups = [
        GroupBlock::AlkaliMetal,
        GroupBlock::AlkalineEarthMetal,
        GroupBlock::Lanthanide,
        GroupBlock::Actinide,
        GroupBlock::TransitionMetal,
        GroupBlock::PostTransitionMetal,
        GroupBlock::Metalloid,
        GroupBlock::NonMetal,
        GroupBlock::Halogen,
        GroupBlock::NobleGas,
    ];
    for (i, first) in groups.iter().enumerate() {
        assert_eq!(first.color(), first.color());
        for (j, second) in groups.iter().enumerate() {
            assert_eq!(i == j, first.color() == second.color());
        }
    }
}

#[test]
fn every_group_block_of_the_dataset_has_a_colour() {
    for element in Element::all() {
        let color = element.group.color();
        assert_eq!(color, element.group.color());
    }
}

#[test]
fn decimal_notation() {
    assert_eq!(decimal_string(0), "0");
    assert_eq!(decimal_string(7), "7");
    assert_eq!(decimal_string(9), "9");
    assert_eq!(decimal_string(10), "10");
    assert_eq!(decimal_string(17), "17");
    assert_eq!(decimal_string(118), "118");
    assert_eq!(decimal_string(1000), "1000");
    assert_eq!(decimal_string(9_080_706_050), "9080706050");
    assert_eq!(decimal_string(usize::MAX), usize::MAX.to_string());
}
