//! The data source: a table's schema and its store, shared by every scan.

use crate::batch::RecordBatch;
use crate::column::Value;
use crate::error::DataError;
use crate::plan::{requested, ScanPlanNode, ScanView};
use crate::schema::TableDescriptor;
use crate::store::{share, ColumnarStore, StoreView};
use crate::table::TableView;
use std::sync::Arc;
use vstd::prelude::*;
use vstd::rwlock::{RwLock, RwLockPredicate};

verus! {

/// What kind of relation a table is to a query engine.
#[derive(Clone, Copy, Debug, PartialEq, Eq, Structural)]
pub enum TableKind {
    /// A physical relation that can be queried.
    Base,
    /// A relation defined by a query.
    View,
    /// A relation that lives for one session.
    Temporary,
}

/// The invariant of a store's lock: whoever holds the lock finds exactly
/// this store in it.
struct Holds {
    store: Ghost<StoreView>,
}

impl RwLockPredicate<ColumnarStore> for Holds {
    closed spec fn inv(self, held: ColumnarStore) -> bool {
        held@ == self.store@
    }
}

/// What the handles of one data source share.
struct Shared {
    schema: TableDescriptor,
    store: RwLock<ColumnarStore, Holds>,
}

/// A table that a query engine can scan. A data source is a handle: cloning
/// it gives a second handle to the same schema and store, and copies no
/// cell.
///
/// The store sits behind a reader-writer lock whose invariant pins the store
/// that was built: whoever takes the lock finds exactly that store in it. A
/// reader holds the lock only while it takes handles to the columns it
/// needs. Nothing is ever written back, and no holder can fail while it
/// holds the lock, so the lock has no poisoned state and reading has no
/// fault of its own.
pub struct DataSource {
    shared: Arc<Shared>,
}

impl View for DataSource {
    type V = TableView;

    closed spec fn view(&self) -> TableView {
        TableView {
            schema: self.shared.schema@,
            columns: self.shared.store.pred().store@.columns,
            rows: self.shared.store.pred().store@.rows,
        }
    }
}

impl DataSource {
    #[verifier::type_invariant]
    spec fn well_formed(&self) -> bool {
        self@.well_formed()
    }

    /// The data source of the table that the rows make up under the schema.
    /// Each row gives one cell to each column; an absent value becomes a null
    /// of the column's type.
    ///
    /// Fails, building nothing, where a row does not fit the schema; the
    /// fault names the first such row.
    pub fn new(rows: Vec<Vec<Option<Value>>>, schema: TableDescriptor) -> (built: Result<
        DataSource,
        DataError,
    >)
        ensures
            match built {
                Ok(source) => TableView::build(rows.deep_view(), schema@) == Ok::<
                    TableView,
                    DataError,
                >(source@) && source@.well_formed(),
                Err(fault) => TableView::build(rows.deep_view(), schema@) == Err::<
                    TableView,
                    DataError,
                >(fault),
            },
    {
        match ColumnarStore::new(rows, &schema) {
            Ok(store) => {
                let ghost held = Holds { store: Ghost(store@) };
                let lock = RwLock::new(store, Ghost(held));
                Ok(DataSource { shared: Arc::new(Shared { schema, store: lock }) })
            },
            Err(fault) => Err(fault),
        }
    }

    /// The full schema of the table.
    pub fn schema(&self) -> (schema: &TableDescriptor)
        ensures
            schema@ == self@.schema,
            self@.well_formed(),
    {
        proof {
            use_type_invariant(self);
        }
        &self.shared.schema
    }

    /// The kind of relation this is: a base table.
    pub fn table_kind(&self) -> (kind: TableKind)
        ensures
            kind == TableKind::Base,
    {
        TableKind::Base
    }

    /// Plans a scan of the table: the node that reads the columns that the
    /// projection names, in its order, or every column in table order where
    /// no projection is given. The node shares this data source and copies
    /// no cell.
    ///
    /// Filters and the limit are not pushed down: they are accepted and left
    /// to the engine above. Only the schema is looked at; the store is
    /// neither locked nor read before the node is executed.
    ///
    /// Fails where the projection names a column that the table does not
    /// have; the fault holds the first such entry.
    pub fn scan(
        &self,
        projection: Option<&Vec<usize>>,
        filters: &Vec<String>,
        limit: Option<usize>,
    ) -> (planned: Result<ScanPlanNode, DataError>)
        ensures
            match planned {
                Ok(node) => ScanView::plan(self@, requested(projection)) == Ok::<
                    ScanView,
                    DataError,
                >(node@) && node@.well_formed(),
                Err(fault) => ScanView::plan(self@, requested(projection)) == Err::<
                    ScanView,
                    DataError,
                >(fault),
            },
    {
        ScanPlanNode::new(self.clone(), projection)
    }

    /// The number of rows of the table.
    pub fn num_rows(&self) -> (n: usize)
        ensures
            n == self@.rows,
    {
        let handle = self.shared.store.acquire_read();
        let n = handle.borrow().num_rows();
        handle.release_read();
        n
    }

    /// Reads the columns that `indices` names into a batch, in the order of
    /// `indices`. The store's lock is held while the handles to the columns
    /// are taken, and is released before the batch is returned. Fails, with
    /// the first entry that names no column, where there is such an entry.
    pub fn read(&self, indices: &Vec<usize>) -> (batch: Result<RecordBatch, DataError>)
        ensures
            match batch {
                Ok(read) => self@.read(indices@) == Ok::<TableView, DataError>(read@),
                Err(fault) => self@.read(indices@) == Err::<TableView, DataError>(fault),
            },
    {
        proof {
            use_type_invariant(self);
        }
        let schema = match self.shared.schema.project(indices) {
            Ok(schema) => schema,
            Err(fault) => {
                return Err(fault);
            },
        };
        let handle = self.shared.store.acquire_read();
        let store = handle.borrow();
        let picked = store.columns_at(indices);
        let rows = store.num_rows();
        handle.release_read();
        match picked {
            Ok(columns) => Ok(RecordBatch::assemble(schema, columns, rows)),
            Err(fault) => Err(fault),
        }
    }
}

impl Clone for DataSource {
    /// A second handle to the same table.
    fn clone(&self) -> (source: DataSource)
        ensures
            source@ == self@,
    {
        proof {
            use_type_invariant(self);
        }
        DataSource { shared: share(&self.shared) }
    }
}

} // verus!
