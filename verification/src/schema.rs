//! The table descriptor: an ordered list of typed, nullable fields, and the
//! arithmetic of projections over it.

use crate::error::DataError;
use vstd::prelude::*;

verus! {

/// The primitive type of the values of one column.
#[derive(Clone, Copy, Debug, PartialEq, Eq, Structural)]
pub enum DataType {
    /// Unsigned 64-bit integer.
    UInt64,
    /// Milliseconds since the Unix epoch, as a signed 64-bit integer.
    Timestamp,
    /// UTF-8 text.
    Text,
}

/// One field of a table: its name, the type of its values, and whether a
/// value may be absent.
#[derive(Debug, PartialEq, Eq)]
pub struct Field {
    pub name: String,
    pub data_type: DataType,
    pub nullable: bool,
}

/// What a [`Field`] is, as a mathematical value.
pub struct FieldView {
    pub name: Seq<char>,
    pub data_type: DataType,
    pub nullable: bool,
}

impl View for Field {
    type V = FieldView;

    open spec fn view(&self) -> FieldView {
        FieldView { name: self.name@, data_type: self.data_type, nullable: self.nullable }
    }
}

impl DeepView for Field {
    type V = FieldView;

    open spec fn deep_view(&self) -> FieldView {
        self@
    }
}

impl Field {
    /// A field with the given name, type and nullability.
    pub fn new(name: &str, data_type: DataType, nullable: bool) -> (field: Field)
        ensures
            field@ == (FieldView { name: name@, data_type, nullable }),
    {
        Field { name: name.to_string(), data_type, nullable }
    }
}

impl Clone for Field {
    fn clone(&self) -> (field: Field)
        ensures
            field@ == self@,
    {
        Field { name: self.name.clone(), data_type: self.data_type, nullable: self.nullable }
    }
}

/// Every entry of `indices` names one of `columns` columns.
pub open spec fn projection_fits(indices: Seq<usize>, columns: nat) -> bool {
    forall|k: int| 0 <= k < indices.len() ==> indices[k] < columns
}

/// `position` is the place of the first entry of `indices` that names no
/// column of a table of `columns` columns.
pub open spec fn first_misfit(indices: Seq<usize>, columns: nat, position: int) -> bool {
    &&& 0 <= position < indices.len()
    &&& indices[position] >= columns
    &&& forall|k: int| 0 <= k < position ==> indices[k] < columns
}

/// The place of the first entry of `indices` that names no column of a
/// table of `columns` columns, where there is such an entry.
pub open spec fn misfit_position(indices: Seq<usize>, columns: nat) -> int {
    choose|position: int| first_misfit(indices, columns, position)
}

/// The fault of a projection that does not fit: it holds the first entry
/// that names no column, and the number of columns.
pub open spec fn projection_fault(indices: Seq<usize>, columns: nat) -> DataError {
    DataError::InvalidProjection {
        index: indices[misfit_position(indices, columns)],
        columns: columns as usize,
    }
}

/// The items of `items` that `indices` names, in the order of `indices`.
pub open spec fn select<T>(items: Seq<T>, indices: Seq<usize>) -> Seq<T> {
    Seq::new(indices.len(), |k: int| items[indices[k] as int])
}

/// What selecting by `indices` comes to: the selected items where every
/// entry names one, and else the projection's fault.
pub open spec fn select_checked<T>(items: Seq<T>, indices: Seq<usize>) -> Result<Seq<T>, DataError> {
    if projection_fits(indices, items.len()) {
        Ok(select(items, indices))
    } else {
        Err(projection_fault(indices, items.len()))
    }
}

/// There is one first misfit at most: a place that is one is the one.
pub proof fn lemma_misfit_position(indices: Seq<usize>, columns: nat, position: int)
    requires
        first_misfit(indices, columns, position),
    ensures
        misfit_position(indices, columns) == position,
        !projection_fits(indices, columns),
{
    let chosen = misfit_position(indices, columns);
    assert(first_misfit(indices, columns, chosen));
    if chosen < position {
        assert(indices[chosen] < columns);
    }
    if position < chosen {
        assert(indices[position] < columns);
    }
}

/// The projection that names each of `columns` columns once, in order.
pub open spec fn all_columns(columns: nat) -> Seq<usize> {
    Seq::new(columns, |k: int| k as usize)
}

/// The indices that a requested projection stands for, over a table of
/// `columns` columns: its own, or every column in order where none is given.
pub open spec fn resolved(projection: Option<Seq<usize>>, columns: nat) -> Seq<usize> {
    match projection {
        Some(indices) => indices,
        None => all_columns(columns),
    }
}

/// The schema of a table: its fields in column order.
#[derive(Debug, PartialEq, Eq)]
pub struct TableDescriptor {
    fields: Vec<Field>,
}

impl View for TableDescriptor {
    type V = Seq<FieldView>;

    closed spec fn view(&self) -> Seq<FieldView> {
        self.fields.deep_view()
    }
}

impl TableDescriptor {
    /// The descriptor of a table with these fields, in this order.
    pub fn new(fields: Vec<Field>) -> (descriptor: TableDescriptor)
        ensures
            descriptor@ == fields.deep_view(),
    {
        TableDescriptor { fields }
    }

    /// The number of fields.
    pub fn len(&self) -> (n: usize)
        ensures
            n == self@.len(),
    {
        self.fields.len()
    }

    /// Whether there is no field.
    pub fn is_empty(&self) -> (empty: bool)
        ensures
            empty == (self@.len() == 0),
    {
        self.fields.len() == 0
    }

    /// The field at `index`, if there is one.
    pub fn field(&self, index: usize) -> (field: Option<&Field>)
        ensures
            index < self@.len() ==> field is Some && field.unwrap()@ == self@[index as int],
            index >= self@.len() ==> field is None,
    {
        if index < self.fields.len() {
            Some(&self.fields[index])
        } else {
            None
        }
    }

    /// The fields, in column order.
    pub fn fields(&self) -> (fields: &Vec<Field>)
        ensures
            fields.deep_view() == self@,
    {
        &self.fields
    }

    /// Whether `other` lists the same fields in the same order.
    pub fn same_as(&self, other: &TableDescriptor) -> (same: bool)
        ensures
            same == (self@ == other@),
    {
        if self.fields.len() != other.fields.len() {
            assert(self@.len() != other@.len());
            return false;
        }
        let mut k: usize = 0;
        while k < self.fields.len()
            invariant
                k <= self.fields.len(),
                self.fields.len() == other.fields.len(),
                forall|j: int| 0 <= j < k ==> self@[j] == other@[j],
            decreases self.fields.len() - k,
        {
            let a = &self.fields[k];
            let b = &other.fields[k];
            let same_type = match (a.data_type, b.data_type) {
                (DataType::UInt64, DataType::UInt64) => true,
                (DataType::Timestamp, DataType::Timestamp) => true,
                (DataType::Text, DataType::Text) => true,
                _ => false,
            };
            if !(a.name == b.name && same_type && a.nullable == b.nullable) {
                assert(self@[k as int] != other@[k as int]);
                return false;
            }
            k += 1;
        }
        assert(self@ =~= other@);
        true
    }

    /// The descriptor of the columns that `indices` names, in the order of
    /// `indices`. An entry may occur more than once. Fails, with the first
    /// entry that names no column, where there is such an entry.
    pub fn project(&self, indices: &Vec<usize>) -> (projected: Result<TableDescriptor, DataError>)
        ensures
            match projected {
                Ok(descriptor) => select_checked(self@, indices@) == Ok::<Seq<FieldView>, DataError>(
                    descriptor@,
                ),
                Err(fault) => select_checked(self@, indices@) == Err::<Seq<FieldView>, DataError>(
                    fault,
                ),
            },
    {
        let mut fields: Vec<Field> = Vec::new();
        let mut k: usize = 0;
        while k < indices.len()
            invariant
                k <= indices.len(),
                fields.len() == k,
                forall|j: int| 0 <= j < k ==> indices@[j] < self@.len(),
                forall|j: int|
                    0 <= j < k ==> #[trigger] fields.deep_view()[j] == self@[indices@[j] as int],
            decreases indices.len() - k,
        {
            let index = indices[k];
            if index >= self.fields.len() {
                proof {
                    lemma_misfit_position(indices@, self@.len(), k as int);
                }
                return Err(DataError::InvalidProjection { index, columns: self.fields.len() });
            }
            let ghost before = fields.deep_view();
            fields.push(self.fields[index].clone());
            assert forall|j: int| 0 <= j < k + 1 implies #[trigger] fields.deep_view()[j]
                == self@[indices@[j] as int] by {
                if j < k {
                    assert(fields.deep_view()[j] == before[j]);
                } else {
                    assert(self@[index as int] == self.fields@[index as int]@);
                }
            }
            k += 1;
        }
        assert(fields.deep_view() =~= select(self@, indices@));
        Ok(TableDescriptor { fields })
    }
}

impl Clone for TableDescriptor {
    fn clone(&self) -> (descriptor: TableDescriptor)
        ensures
            descriptor@ == self@,
    {
        let mut fields: Vec<Field> = Vec::new();
        let mut k: usize = 0;
        while k < self.fields.len()
            invariant
                k <= self.fields.len(),
                fields.len() == k,
                forall|j: int| 0 <= j < k ==> #[trigger] fields.deep_view()[j] == self@[j],
            decreases self.fields.len() - k,
        {
            let ghost before = fields.deep_view();
            fields.push(self.fields[k].clone());
            assert forall|j: int| 0 <= j < k + 1 implies #[trigger] fields.deep_view()[j]
                == self@[j] by {
                if j < k {
                    assert(fields.deep_view()[j] == before[j]);
                } else {
                    assert(self@[j] == self.fields@[j]@);
                }
            }
            k += 1;
        }
        assert(fields.deep_view() =~= self@);
        TableDescriptor { fields }
    }
}

} // verus!
