//! The two views of the periodic table: the classic grid and the detailed list.

use vstd::prelude::*;
use vstd::string::*;
use crate::category::GroupBlock;
use crate::columns::{column_label, column_name, long_name, short_name, FIELD_COUNT};
use crate::dataset::{element_group, element_symbol, group_of, symbol_of, ELEMENT_COUNT};
use crate::decimal::{decimal, decimal_string};
use crate::element::{dataset_element, Element, ElementModel};
use crate::grid::{cell, grid_at, GRID_COLUMNS, GRID_ROWS};
use crate::paint::{foreground_prefix, paint_rgb, painted, reset_suffix};
use crate::value::{Cell, CellModel, Field, FieldModel, RowModel, TableModel};

verus! {

/// The value of the field at `index` in the detailed row of `element`.
pub open spec fn field_value(element: ElementModel, index: int) -> CellModel
    recommends
        0 <= index < FIELD_COUNT,
{
    if index == 0 {
        CellModel::Text(element.name)
    } else if index == 1 {
        CellModel::Text(element.symbol)
    } else if index == 2 {
        CellModel::Int(element.atomic_number)
    } else if index == 3 {
        CellModel::Float(element.atomic_mass)
    } else if index == 4 {
        CellModel::Int(element.atomic_radius)
    } else if index == 5 {
        CellModel::Binary(seq![element.cpk.r, element.cpk.g, element.cpk.b])
    } else if index == 6 {
        CellModel::Text(element.electron_configuration)
    } else if index == 7 {
        CellModel::Float(element.electronegativity)
    } else if index == 8 {
        CellModel::Float(element.ionization_energy)
    } else if index == 9 {
        CellModel::Float(element.electron_affinity)
    } else if index == 10 {
        CellModel::Text(element.standard_state.name_spec())
    } else if index == 11 {
        CellModel::Float(element.melting_point)
    } else if index == 12 {
        CellModel::Float(element.boiling_point)
    } else if index == 13 {
        CellModel::Float(element.density)
    } else if index == 14 {
        CellModel::Text(element.group.name_spec())
    } else {
        CellModel::Int(element.year_discovered)
    }
}

/// The detailed row of `element`: its sixteen fields in their fixed order,
/// named in full or in short.
pub open spec fn detailed_row(element: ElementModel, full: bool) -> RowModel {
    Seq::new(
        FIELD_COUNT as nat,
        |i: int| FieldModel { name: column_name(i, full), value: field_value(element, i) },
    )
}

/// The detailed view: one row for each element of the dataset, in the
/// dataset's order.
pub open spec fn detailed_table(full: bool) -> TableModel {
    Seq::new(ELEMENT_COUNT as nat, |i: int| detailed_row(dataset_element(i + 1), full))
}

/// The cell of the classic view for an element with this symbol and group
/// block: the symbol in the group block's display colour.
pub open spec fn symbol_cell(symbol: Seq<char>, group: GroupBlock) -> CellModel {
    CellModel::Text(painted(group.color_spec(), symbol))
}

/// The field of the classic view at `row` and `col`: under the column's
/// index, the coloured symbol of the element that the grid holds there, or
/// the empty marker.
pub open spec fn classic_field(row: int, col: int) -> FieldModel {
    FieldModel {
        name: decimal(col as nat),
        value: match grid_at(row, col) {
            Some(z) => symbol_cell(element_symbol(z), element_group(z)),
            None => CellModel::Nothing,
        },
    }
}

/// The row of the classic view at `row`.
pub open spec fn classic_row(row: int) -> RowModel {
    Seq::new(GRID_COLUMNS as nat, |col: int| classic_field(row, col))
}

/// The classic view: the grid, row by row.
pub open spec fn classic_table() -> TableModel {
    Seq::new(GRID_ROWS as nat, |row: int| classic_row(row))
}

/// The detailed view has exactly one row for each element of the dataset, in
/// ascending atomic number, and each row has exactly sixteen fields: the
/// attributes in their fixed order, each under the name of its column.
pub proof fn lemma_detailed_table_shape(full: bool)
    ensures
        detailed_table(full).len() == ELEMENT_COUNT,
        forall|i: int|
            0 <= i < ELEMENT_COUNT ==> (#[trigger] detailed_table(full)[i]).len() == FIELD_COUNT,
        forall|i: int|
            0 <= i < ELEMENT_COUNT ==> (#[trigger] detailed_table(full)[i])[2].value
                == CellModel::Int(i + 1),
        forall|i: int, j: int|
            0 <= i < ELEMENT_COUNT && 0 <= j < FIELD_COUNT ==> (#[trigger] detailed_table(
                full,
            )[i][j]) == (FieldModel {
                name: column_name(j, full),
                value: field_value(dataset_element(i + 1), j),
            }),
{
}

/// The flag selects the names of the columns and nothing else: with it every
/// field has its long name, without it its short name, and the value of every
/// field is the same either way.
pub proof fn lemma_flag_selects_names_only(element: ElementModel)
    ensures
        detailed_row(element, true).len() == detailed_row(element, false).len(),
        forall|j: int|
            0 <= j < FIELD_COUNT ==> (#[trigger] detailed_row(element, true)[j]).name == long_name(
                j,
            ),
        forall|j: int|
            0 <= j < FIELD_COUNT ==> (#[trigger] detailed_row(element, false)[j]).name
                == short_name(j),
        forall|j: int|
            0 <= j < FIELD_COUNT ==> (#[trigger] detailed_row(element, true)[j]).value
                == detailed_row(element, false)[j].value,
{
}

/// The classic view has the shape of the grid: as many rows, and in each row
/// as many fields as the grid has columns, each named by its column's index.
/// An occupied cell holds a text, an empty cell the empty marker, and no cell
/// anything else.
pub proof fn lemma_classic_table_shape()
    ensures
        classic_table().len() == GRID_ROWS,
        forall|row: int|
            0 <= row < GRID_ROWS ==> (#[trigger] classic_table()[row]).len() == GRID_COLUMNS,
        forall|row: int, col: int|
            0 <= row < GRID_ROWS && 0 <= col < GRID_COLUMNS ==> (#[trigger] classic_table()[row][col]).name
                == decimal(col as nat),
        forall|row: int, col: int|
            0 <= row < GRID_ROWS && 0 <= col < GRID_COLUMNS ==> match (#[trigger] classic_table()[row][col]).value {
                CellModel::Text(_) => grid_at(row, col).is_some(),
                CellModel::Nothing => grid_at(row, col).is_none(),
                _ => false,
            },
{
}

/// Building a view twice gives the same table: what a builder returns
/// depends on nothing but the flag.
pub proof fn lemma_views_are_deterministic(
    full: bool,
    first_detailed: TableModel,
    second_detailed: TableModel,
    first_classic: TableModel,
    second_classic: TableModel,
)
    requires
        first_detailed == detailed_table(full),
        second_detailed == detailed_table(full),
        first_classic == classic_table(),
        second_classic == classic_table(),
    ensures
        first_detailed == second_detailed,
        first_classic == second_classic,
{
}

/// Elements of one group block are shown in one colour: the cells of two
/// elements with the same group block begin with the same escape sequence,
/// the one of the group block's colour, whatever their symbols are.
pub proof fn lemma_same_group_same_color(first: int, second: int)
    requires
        element_group(first) == element_group(second),
    ensures
        symbol_cell(element_symbol(first), element_group(first)) == CellModel::Text(
            foreground_prefix(element_group(first).color_spec()) + element_symbol(first)
                + reset_suffix(),
        ),
        symbol_cell(element_symbol(second), element_group(second)) == CellModel::Text(
            foreground_prefix(element_group(first).color_spec()) + element_symbol(second)
                + reset_suffix(),
        ),
{
}

/// The periodic table of elements, rendered as tabular views.
pub struct PeriodicTable;

impl PeriodicTable {
    /// Returns the cell of the classic view for an element with this symbol
    /// and group block.
    pub fn classic_cell(symbol: &str, group: GroupBlock) -> (painted_symbol: Cell)
        ensures
            painted_symbol@ == symbol_cell(symbol@, group),
    {
        Cell::Text(paint_rgb(group.color(), symbol))
    }

    /// Builds the row of the classic view at `row`.
    fn build_classic_row(row: usize) -> (fields: Vec<Field>)
        requires
            row < GRID_ROWS,
        ensures
            fields.deep_view() == classic_row(row as int),
    {
        let mut fields: Vec<Field> = Vec::new();
        let mut col: usize = 0;
        while col < GRID_COLUMNS
            invariant
                row < GRID_ROWS,
                col <= GRID_COLUMNS,
                fields.len() == col,
                forall|k: int| 0 <= k < col ==> (#[trigger] fields[k])@ == classic_field(row as int, k),
            decreases GRID_COLUMNS - col,
        {
            let value = match cell(row, col) {
                Some(z) => {
                    let symbol = symbol_of(z);
                    PeriodicTable::classic_cell(symbol.as_str(), group_of(z))
                },
                None => Cell::Nothing,
            };
            fields.push(Field { name: decimal_string(col), value });
            col += 1;
        }
        assert(fields.deep_view() =~= classic_row(row as int));
        fields
    }

    /// Builds the classic view: one row for each row of the grid and one
    /// field for each of its columns, named by the column's index. An occupied
    /// cell shows the element's symbol in the colour of its group block, an
    /// empty one the empty marker.
    pub fn build_classic_table() -> (table: Vec<Vec<Field>>)
        ensures
            table.deep_view() == classic_table(),
            table.len() == GRID_ROWS,
    {
        let mut table: Vec<Vec<Field>> = Vec::new();
        let mut row: usize = 0;
        while row < GRID_ROWS
            invariant
                row <= GRID_ROWS,
                table.len() == row,
                forall|k: int| 0 <= k < row ==> (#[trigger] table[k]).deep_view() == classic_row(k),
            decreases GRID_ROWS - row,
        {
            table.push(PeriodicTable::build_classic_row(row));
            row += 1;
        }
        assert(table.deep_view() =~= classic_table());
        table
    }

    /// Builds the detailed row of `element`: its sixteen fields in their fixed
    /// order, under the long column names if `full`, else under the short ones.
    pub fn get_row(element: &Element, full: bool) -> (fields: Vec<Field>)
        ensures
            fields.deep_view() == detailed_row(element@, full),
            fields.len() == FIELD_COUNT,
    {
        let mut fields: Vec<Field> = Vec::new();
        let mut index: usize = 0;
        while index < FIELD_COUNT
            invariant
                index <= FIELD_COUNT,
                fields.len() == index,
                forall|k: int|
                    0 <= k < index ==> (#[trigger] fields[k])@ == (FieldModel {
                        name: column_name(k, full),
                        value: field_value(element@, k),
                    }),
            decreases FIELD_COUNT - index,
        {
            let value = PeriodicTable::get_value(element, index);
            fields.push(Field { name: String::from_str(column_label(index, full)), value });
            index += 1;
        }
        assert(fields.deep_view() =~= detailed_row(element@, full));
        fields
    }

    /// Extracts the value of the field at `index` from `element`.
    fn get_value(element: &Element, index: usize) -> (value: Cell)
        requires
            index < FIELD_COUNT,
        ensures
            value@ == field_value(element@, index as int),
    {
        if index == 0 {
            Cell::Text(element.name.clone())
        } else if index == 1 {
            Cell::Text(element.symbol.clone())
        } else if index == 2 {
            Cell::Int(element.atomic_number as i64)
        } else if index == 3 {
            Cell::Float(element.atomic_mass)
        } else if index == 4 {
            Cell::Int(element.atomic_radius as i64)
        } else if index == 5 {
            let bytes = vec![element.cpk.r, element.cpk.g, element.cpk.b];
            assert(bytes@ =~= seq![element.cpk.r, element.cpk.g, element.cpk.b]);
            Cell::Binary(bytes)
        } else if index == 6 {
            Cell::Text(element.electron_configuration.clone())
        } else if index == 7 {
            Cell::Float(element.electronegativity)
        } else if index == 8 {
            Cell::Float(element.ionization_energy)
        } else if index == 9 {
            Cell::Float(element.electron_affinity)
        } else if index == 10 {
            Cell::Text(String::from_str(element.standard_state.name()))
        } else if index == 11 {
            Cell::Float(element.melting_point)
        } else if index == 12 {
            Cell::Float(element.boiling_point)
        } else if index == 13 {
            Cell::Float(element.density)
        } else if index == 14 {
            Cell::Text(String::from_str(element.group.name()))
        } else {
            Cell::Int(element.year_discovered as i64)
        }
    }

    /// Builds the detailed view: one row for each element of the dataset, in
    /// ascending atomic number, each with the sixteen fields of `get_row`.
    pub fn build_detailed_table(should_show_full_column_names: bool) -> (table: Vec<Vec<Field>>)
        ensures
            table.deep_view() == detailed_table(should_show_full_column_names),
            table.len() == ELEMENT_COUNT,
    {
        let elements = Element::all();
        let mut table: Vec<Vec<Field>> = Vec::new();
        let mut i: usize = 0;
        while i < elements.len()
            invariant
                elements.len() == ELEMENT_COUNT,
                forall|k: int|
                    0 <= k < ELEMENT_COUNT ==> (#[trigger] elements[k])@ == dataset_element(k + 1),
                i <= elements.len(),
                table.len() == i,
                forall|k: int|
                    0 <= k < i ==> (#[trigger] table[k]).deep_view() == detailed_row(
                        dataset_element(k + 1),
                        should_show_full_column_names,
                    ),
            decreases elements.len() - i,
        {
            table.push(PeriodicTable::get_row(&elements[i], should_show_full_column_names));
            i += 1;
        }
        assert(table.deep_view() =~= detailed_table(should_show_full_column_names));
        table
    }
}

} // verus!
