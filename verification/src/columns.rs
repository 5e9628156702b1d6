//! The columns of the detailed view: their order and their two names.

use vstd::prelude::*;

verus! {

/// Number of fields in a row of the detailed view.
pub const FIELD_COUNT: usize = 16;

/// The long name of the column at `index`.
pub open spec fn long_name(index: int) -> Seq<char>
    recommends
        0 <= index < FIELD_COUNT,
{
    if index == 0 {
        "name"@
    } else if index == 1 {
        "symbol"@
    } else if index == 2 {
        "atomic number"@
    } else if index == 3 {
        "atomic mass"@
    } else if index == 4 {
        "atomic radius"@
    } else if index == 5 {
        "cpk color"@
    } else if index == 6 {
        "electron configuration"@
    } else if index == 7 {
        "electronegativity"@
    } else if index == 8 {
        "ionization energy"@
    } else if index == 9 {
        "electron affinity"@
    } else if index == 10 {
        "standard state"@
    } else if index == 11 {
        "melting point"@
    } else if index == 12 {
        "boiling point"@
    } else if index == 13 {
        "density"@
    } else if index == 14 {
        "group block"@
    } else {
        "year discovered"@
    }
}

/// The short name of the column at `index`.
pub open spec fn short_name(index: int) -> Seq<char>
    recommends
        0 <= index < FIELD_COUNT,
{
    if index == 0 {
        "name"@
    } else if index == 1 {
        "sym"@
    } else if index == 2 {
        "a-num"@
    } else if index == 3 {
        "a-mass"@
    } else if index == 4 {
        "a-rad"@
    } else if index == 5 {
        "cpk-col"@
    } else if index == 6 {
        "elec-config"@
    } else if index == 7 {
        "electroneg"@
    } else if index == 8 {
        "ioniz-energ"@
    } else if index == 9 {
        "elec-affin"@
    } else if index == 10 {
        "stand-state"@
    } else if index == 11 {
        "m-point"@
    } else if index == 12 {
        "b-point"@
    } else if index == 13 {
        "density"@
    } else if index == 14 {
        "g-block"@
    } else {
        "year"@
    }
}

/// The name of the column at `index`: the long one if `full`, else the short
/// one.
pub open spec fn column_name(index: int, full: bool) -> Seq<char>
    recommends
        0 <= index < FIELD_COUNT,
{
    if full {
        long_name(index)
    } else {
        short_name(index)
    }
}

/// Returns the long name of the column at `index`.
pub fn long_label(index: usize) -> (label: &'static str)
    requires
        index < FIELD_COUNT,
    ensures
        label@ == long_name(index as int),
{
    if index == 0 {
        "name"
    } else if index == 1 {
        "symbol"
    } else if index == 2 {
        "atomic number"
    } else if index == 3 {
        "atomic mass"
    } else if index == 4 {
        "atomic radius"
    } else if index == 5 {
        "cpk color"
    } else if index == 6 {
        "electron configuration"
    } else if index == 7 {
        "electronegativity"
    } else if index == 8 {
        "ionization energy"
    } else if index == 9 {
        "electron affinity"
    } else if index == 10 {
        "standard state"
    } else if index == 11 {
        "melting point"
    } else if index == 12 {
        "boiling point"
    } else if index == 13 {
        "density"
    } else if index == 14 {
        "group block"
    } else {
        "year discovered"
    }
}

/// Returns the short name of the column at `index`.
pub fn short_label(index: usize) -> (label: &'static str)
    requires
        index < FIELD_COUNT,
    ensures
        label@ == short_name(index as int),
{
    if index == 0 {
        "name"
    } else if index == 1 {
        "sym"
    } else if index == 2 {
        "a-num"
    } else if index == 3 {
        "a-mass"
    } else if index == 4 {
        "a-rad"
    } else if index == 5 {
        "cpk-col"
    } else if index == 6 {
        "elec-config"
    } else if index == 7 {
        "electroneg"
    } else if index == 8 {
        "ioniz-energ"
    } else if index == 9 {
        "elec-affin"
    } else if index == 10 {
        "stand-state"
    } else if index == 11 {
        "m-point"
    } else if index == 12 {
        "b-point"
    } else if index == 13 {
        "density"
    } else if index == 14 {
        "g-block"
    } else {
        "year"
    }
}

/// Returns the name of the column at `index`: the long one if `full`, else
/// the short one.
pub fn column_label(index: usize, full: bool) -> (label: &'static str)
    requires
        index < FIELD_COUNT,
    ensures
        label@ == column_name(index as int, full),
{
    if full {
        long_label(index)
    } else {
        short_label(index)
    }
}

} // verus!
