//! The periodic table of elements rendered as two tabular views: a classic grid
//! that mirrors the table's physical layout, and a detailed list with one row of
//! attributes per element.
//!
//! Every table is built from plain values and described by a mathematical model,
//! so that what a builder returns is fixed by its contract alone.

pub mod category;
pub mod columns;
pub mod dataset;
pub mod decimal;
pub mod element;
pub mod grid;
pub mod paint;
pub mod table;
pub mod value;

pub use category::{GroupBlock, Rgb, StateOfMatter};
pub use element::Element;
pub use table::PeriodicTable;
pub use value::{Cell, Field, Single};
