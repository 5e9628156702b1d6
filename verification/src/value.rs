//! The values that a table is made of: cells, named fields and rows.

use vstd::prelude::*;

verus! {

/// A single-precision number, carried by its IEEE 754 bit pattern.
#[derive(Clone, Copy, Debug, PartialEq, Eq, Structural)]
pub struct Single {
    pub bits: u32,
}

/// One cell of a table.
#[derive(Clone, Debug, PartialEq, Eq)]
pub enum Cell {
    /// The explicit marker of an empty cell.
    Nothing,
    /// A text.
    Text(String),
    /// A whole number.
    Int(i64),
    /// A single-precision number.
    Float(Single),
    /// A sequence of raw bytes.
    Binary(Vec<u8>),
}

/// What a cell holds.
pub enum CellModel {
    Nothing,
    Text(Seq<char>),
    Int(int),
    Float(Single),
    Binary(Seq<u8>),
}

impl View for Cell {
    type V = CellModel;

    open spec fn view(&self) -> CellModel {
        match *self {
            Cell::Nothing => CellModel::Nothing,
            Cell::Text(s) => CellModel::Text(s@),
            Cell::Int(i) => CellModel::Int(i as int),
            Cell::Float(x) => CellModel::Float(x),
            Cell::Binary(b) => CellModel::Binary(b@),
        }
    }
}

impl DeepView for Cell {
    type V = CellModel;

    open spec fn deep_view(&self) -> CellModel {
        self@
    }
}

/// A cell under its column name.
#[derive(Clone, Debug, PartialEq, Eq)]
pub struct Field {
    pub name: String,
    pub value: Cell,
}

/// What a field holds.
pub struct FieldModel {
    pub name: Seq<char>,
    pub value: CellModel,
}

impl View for Field {
    type V = FieldModel;

    open spec fn view(&self) -> FieldModel {
        FieldModel { name: self.name@, value: self.value@ }
    }
}

impl DeepView for Field {
    type V = FieldModel;

    open spec fn deep_view(&self) -> FieldModel {
        self@
    }
}

/// A row as a mathematical sequence of fields.
pub type RowModel = Seq<FieldModel>;

/// A table as a mathematical sequence of rows.
pub type TableModel = Seq<RowModel>;

} // verus!
