//! Values, cells and typed columns.

use crate::schema::DataType;
use vstd::prelude::*;

verus! {

/// One value of a table.
#[derive(Debug, PartialEq, Eq)]
pub enum Value {
    UInt64(u64),
    /// Milliseconds since the Unix epoch.
    Timestamp(i64),
    Text(String),
}

/// What a [`Value`] is, as a mathematical value.
pub enum ValueView {
    UInt64(u64),
    Timestamp(i64),
    Text(Seq<char>),
}

impl ValueView {
    /// The type that the value belongs to.
    pub open spec fn data_type(self) -> DataType {
        match self {
            ValueView::UInt64(_) => DataType::UInt64,
            ValueView::Timestamp(_) => DataType::Timestamp,
            ValueView::Text(_) => DataType::Text,
        }
    }
}

impl View for Value {
    type V = ValueView;

    open spec fn view(&self) -> ValueView {
        match self {
            Value::UInt64(n) => ValueView::UInt64(*n),
            Value::Timestamp(t) => ValueView::Timestamp(*t),
            Value::Text(s) => ValueView::Text(s@),
        }
    }
}

impl DeepView for Value {
    type V = ValueView;

    open spec fn deep_view(&self) -> ValueView {
        self@
    }
}

impl Value {
    /// The type that the value belongs to.
    pub fn data_type(&self) -> (data_type: DataType)
        ensures
            data_type == self@.data_type(),
    {
        match self {
            Value::UInt64(_) => DataType::UInt64,
            Value::Timestamp(_) => DataType::Timestamp,
            Value::Text(_) => DataType::Text,
        }
    }
}

impl Clone for Value {
    fn clone(&self) -> (value: Value)
        ensures
            value@ == self@,
    {
        match self {
            Value::UInt64(n) => Value::UInt64(*n),
            Value::Timestamp(t) => Value::Timestamp(*t),
            Value::Text(s) => Value::Text(s.clone()),
        }
    }
}

/// A cell is a value or, where the value is absent, `None`. A cell fits a
/// type if it is absent or holds a value of that type.
pub open spec fn cell_fits(cell: Option<ValueView>, data_type: DataType) -> bool {
    cell matches Some(value) ==> value.data_type() == data_type
}

/// The cell of an optional number: a null where there is none.
pub open spec fn uint64_cell(cell: Option<u64>) -> Option<ValueView> {
    match cell {
        Some(n) => Some(ValueView::UInt64(n)),
        None => None,
    }
}

/// The cell of an optional moment: a null where there is none.
pub open spec fn timestamp_cell(cell: Option<i64>) -> Option<ValueView> {
    match cell {
        Some(t) => Some(ValueView::Timestamp(t)),
        None => None,
    }
}

/// The cell of an optional text: a null where there is none.
pub open spec fn text_cell(cell: Option<String>) -> Option<ValueView> {
    match cell {
        Some(s) => Some(ValueView::Text(s@)),
        None => None,
    }
}

/// A column: the cells of one field, one for each row, all of one type.
#[derive(Debug, PartialEq, Eq)]
pub enum Column {
    UInt64(Vec<Option<u64>>),
    Timestamp(Vec<Option<i64>>),
    Text(Vec<Option<String>>),
}

/// What a [`Column`] is, as a mathematical value: its type and its cells in
/// row order.
pub struct ColumnView {
    pub data_type: DataType,
    pub cells: Seq<Option<ValueView>>,
}

impl ColumnView {
    /// Every cell fits the column's type.
    pub open spec fn well_typed(self) -> bool {
        forall|i: int| 0 <= i < self.cells.len() ==> cell_fits(#[trigger] self.cells[i], self.data_type)
    }
}

impl View for Column {
    type V = ColumnView;

    open spec fn view(&self) -> ColumnView {
        match self {
            Column::UInt64(cells) => ColumnView {
                data_type: DataType::UInt64,
                cells: cells@.map_values(|c: Option<u64>| uint64_cell(c)),
            },
            Column::Timestamp(cells) => ColumnView {
                data_type: DataType::Timestamp,
                cells: cells@.map_values(|c: Option<i64>| timestamp_cell(c)),
            },
            Column::Text(cells) => ColumnView {
                data_type: DataType::Text,
                cells: cells@.map_values(|c: Option<String>| text_cell(c)),
            },
        }
    }
}

impl DeepView for Column {
    type V = ColumnView;

    open spec fn deep_view(&self) -> ColumnView {
        self@
    }
}

impl Column {
    /// A column of the given type with no cell.
    pub fn empty(data_type: DataType) -> (column: Column)
        ensures
            column@ == (ColumnView { data_type, cells: Seq::empty() }),
    {
        let column = match data_type {
            DataType::UInt64 => Column::UInt64(Vec::new()),
            DataType::Timestamp => Column::Timestamp(Vec::new()),
            DataType::Text => Column::Text(Vec::new()),
        };
        assert(column@.cells =~= Seq::empty());
        column
    }

    /// The type of the column's values.
    pub fn data_type(&self) -> (data_type: DataType)
        ensures
            data_type == self@.data_type,
    {
        match self {
            Column::UInt64(_) => DataType::UInt64,
            Column::Timestamp(_) => DataType::Timestamp,
            Column::Text(_) => DataType::Text,
        }
    }

    /// The number of cells.
    pub fn len(&self) -> (n: usize)
        ensures
            n == self@.cells.len(),
    {
        match self {
            Column::UInt64(cells) => cells.len(),
            Column::Timestamp(cells) => cells.len(),
            Column::Text(cells) => cells.len(),
        }
    }

    /// Whether the column has no cell.
    pub fn is_empty(&self) -> (empty: bool)
        ensures
            empty == (self@.cells.len() == 0),
    {
        self.len() == 0
    }

    /// Appends a cell, if it fits the column's type: an absent value is
    /// appended as a null of that type. A cell that does not fit is not
    /// appended, and the column stays as it was.
    pub fn push(&mut self, cell: Option<Value>) -> (appended: bool)
        ensures
            appended == cell_fits(cell.deep_view(), old(self)@.data_type),
            appended ==> final(self)@ == (ColumnView {
                data_type: old(self)@.data_type,
                cells: old(self)@.cells.push(cell.deep_view()),
            }),
            !appended ==> final(self)@ == old(self)@,
    {
        match self {
            Column::UInt64(cells) => {
                let ghost before = cells@;
                match cell {
                    None => {
                        cells.push(None);
                    },
                    Some(Value::UInt64(n)) => {
                        cells.push(Some(n));
                    },
                    Some(_) => {
                        return false;
                    },
                }
                assert(cells@.map_values(|c: Option<u64>| uint64_cell(c)) =~= before.map_values(
                    |c: Option<u64>| uint64_cell(c),
                ).push(cell.deep_view()));
                true
            },
            Column::Timestamp(cells) => {
                let ghost before = cells@;
                match cell {
                    None => {
                        cells.push(None);
                    },
                    Some(Value::Timestamp(t)) => {
                        cells.push(Some(t));
                    },
                    Some(_) => {
                        return false;
                    },
                }
                assert(cells@.map_values(|c: Option<i64>| timestamp_cell(c)) =~= before.map_values(
                    |c: Option<i64>| timestamp_cell(c),
                ).push(cell.deep_view()));
                true
            },
            Column::Text(cells) => {
                let ghost before = cells@;
                match cell {
                    None => {
                        cells.push(None);
                    },
                    Some(Value::Text(s)) => {
                        cells.push(Some(s));
                    },
                    Some(_) => {
                        return false;
                    },
                }
                assert(cells@.map_values(|c: Option<String>| text_cell(c)) =~= before.map_values(
                    |c: Option<String>| text_cell(c),
                ).push(cell.deep_view()));
                true
            },
        }
    }

    /// The value in the given row: `None` where the cell is null, and where
    /// the column has no such row.
    pub fn value(&self, row: usize) -> (value: Option<Value>)
        ensures
            row < self@.cells.len() ==> value.deep_view() == self@.cells[row as int],
            row >= self@.cells.len() ==> value is None,
    {
        if row >= self.len() {
            return None;
        }
        match self {
            Column::UInt64(cells) => match cells[row] {
                Some(n) => Some(Value::UInt64(n)),
                None => None,
            },
            Column::Timestamp(cells) => match cells[row] {
                Some(t) => Some(Value::Timestamp(t)),
                None => None,
            },
            Column::Text(cells) => match &cells[row] {
                Some(s) => Some(Value::Text(s.clone())),
                None => None,
            },
        }
    }

    /// Whether the column has the given row and its cell is null.
    pub fn is_null(&self, row: usize) -> (null: bool)
        ensures
            null == (row < self@.cells.len() && self@.cells[row as int] is None),
    {
        if row >= self.len() {
            return false;
        }
        match self {
            Column::UInt64(cells) => cells[row].is_none(),
            Column::Timestamp(cells) => cells[row].is_none(),
            Column::Text(cells) => cells[row].is_none(),
        }
    }

    /// The cells of a column fit its type.
    pub proof fn lemma_well_typed(self)
        ensures
            self@.well_typed(),
    {
    }
}

} // verus!
