use columnar_source::batch::RecordBatch;
use columnar_source::column::{Column, Value};
use columnar_source::error::DataError;
use columnar_source::plan::{ExecutionMode, Partitioning, ScanPlanNode};
use columnar_source::schema::{DataType, Field, TableDescriptor};
use columnar_source::source::{DataSource, TableKind};
use columnar_source::store::ColumnarStore;
use columnar_source::stream::ResultStream;

fn text(s: &str) -> Option<Value> {
    Some(Value::Text(s.to_string()))
}

fn number(n: u64) -> Option<Value> {
    Some(Value::UInt64(n))
}

fn moment(t: i64) -> Option<Value> {
    Some(Value::Timestamp(t))
}

fn id_name_schema() -> TableDescriptor {
    TableDescriptor::new(vec![
        Field::new("id", DataType::UInt64, true),
        Field::new("name", DataType::Text, true),
    ])
}

fn id_name_rows() -> Vec<Vec<Option<Value>>> {
    vec![vec![number(1), text("a")], vec![number(2), None]]
}

fn id_name_source() -> DataSource {
    match DataSource::new(id_name_rows(), id_name_schema()) {
        Ok(source) => source,
        Err(fault) => panic!("the rows fit the schema: {:?}", fault),
    }
}

fn three_column_schema() -> TableDescriptor {
    TableDescriptor::new(vec![
        Field::new("id", DataType::UInt64, false),
        Field::new("seen", DataType::Timestamp, true),
        Field::new("name", DataType::Text, true),
    ])
}

fn three_column_rows() -> Vec<Vec<Option<Value>>> {
    vec![
        vec![number(10), moment(1_000), text("ann")],
        vec![number(20), None, text("")],
        vec![number(30), moment(-5), None],
        vec![number(u64::MAX), moment(i64::MIN), text("zoë")],
    ]
}

fn three_column_source() -> DataSource {
    match DataSource::new(three_column_rows(), three_column_schema()) {
        Ok(source) => source,
        Err(fault) => panic!("the rows fit the schema: {:?}", fault),
    }
}

fn plan(source: &DataSource, projection: Option<&Vec<usize>>) -> ScanPlanNode {
    match source.scan(projection, &Vec::new(), None) {
        Ok(node) => node,
        Err(fault) => panic!("the projection fits: {:?}", fault),
    }
}

fn run(node: &ScanPlanNode) -> ResultStream {
    match node.execute(0) {
        Ok(stream) => stream,
        Err(fault) => panic!("partition 0 exists: {:?}", fault),
    }
}

fn only_batch(stream: &mut ResultStream) -> RecordBatch {
    let batch = match stream.next() {
        Some(batch) => batch,
        None => panic!("the stream has a batch"),
    };
    assert!(stream.next().is_none());
    batch
}

fn all_rows(batch: &RecordBatch) -> Vec<Vec<Option<Value>>> {
    (0..batch.num_rows()).map(|i| batch.row(i).unwrap()).collect()
}

#[test]
fn scan_without_projection_yields_both_rows() {
    let source = id_name_source();
    let node = plan(&source, None);
    let mut stream = run(&node);
    let batch = only_batch(&mut stream);
    assert_eq!(batch.num_rows(), 2);
    assert_eq!(batch.num_columns(), 2);
    assert_eq!(batch.row(0), Some(vec![number(1), text("a")]));
    assert_eq!(batch.row(1), Some(vec![number(2), None]));
    assert_eq!(batch.row(2), None);
    assert_eq!(batch.schema(), &id_name_schema());
}

#[test]
fn scan_of_second_column_yields_names() {
    let source = id_name_source();
    let node = plan(&source, Some(&vec![1]));
    let mut stream = run(&node);
    let batch = only_batch(&mut stream);
    assert_eq!(batch.num_columns(), 1);
    assert_eq!(batch.num_rows(), 2);
    assert_eq!(
        batch.column(0),
        Some(&Column::Text(vec![Some("a".to_string()), None]))
    );
    assert_eq!(batch.value(0, 0), text("a"));
    assert_eq!(batch.value(1, 0), None);
    assert!(batch.column(0).unwrap().is_null(1));
    assert!(!batch.column(0).unwrap().is_null(0));
    assert_eq!(
        batch.schema(),
        &TableDescriptor::new(vec![Field::new("name", DataType::Text, true)])
    );
}

#[test]
fn scan_one_past_the_end_is_refused() {
    let source = id_name_source();
    let refused = source.scan(Some(&vec![2]), &Vec::new(), None);
    assert_eq!(
        refused.err(),
        Some(DataError::InvalidProjection { index: 2, columns: 2 })
    );
}

#[test]
fn scan_names_the_first_entry_out_of_range() {
    let source = three_column_source();
    let refused = source.scan(Some(&vec![0, 7, 3, 1]), &Vec::new(), None);
    assert_eq!(
        refused.err(),
        Some(DataError::InvalidProjection { index: 7, columns: 3 })
    );
    let refused = source.scan(Some(&vec![usize::MAX]), &Vec::new(), None);
    assert_eq!(
        refused.err(),
        Some(DataError::InvalidProjection { index: usize::MAX, columns: 3 })
    );
}

#[test]
fn store_has_one_column_for_each_field_and_one_cell_for_each_row() {
    let schema = three_column_schema();
    let store = match ColumnarStore::new(three_column_rows(), &schema) {
        Ok(store) => store,
        Err(fault) => panic!("the rows fit the schema: {:?}", fault),
    };
    assert_eq!(store.num_columns(), 3);
    assert_eq!(store.num_rows(), 4);
    for j in 0..3 {
        let column = store.column(j).unwrap();
        assert_eq!(column.len(), 4);
        assert_eq!(column.data_type(), schema.field(j).unwrap().data_type);
    }
    assert!(store.column(3).is_none());
    let source = three_column_source();
    assert_eq!(source.schema().len(), 3);
    assert_eq!(source.num_rows(), 4);
}

#[test]
fn store_keeps_nulls_in_place() {
    let schema = three_column_schema();
    let store = match ColumnarStore::new(three_column_rows(), &schema) {
        Ok(store) => store,
        Err(fault) => panic!("the rows fit the schema: {:?}", fault),
    };
    assert_eq!(
        *store.column(1).unwrap(),
        Column::Timestamp(vec![Some(1_000), None, Some(-5), Some(i64::MIN)])
    );
    assert_eq!(
        *store.column(2).unwrap(),
        Column::Text(vec![
            Some("ann".to_string()),
            Some(String::new()),
            None,
            Some("zoë".to_string())
        ])
    );
    assert_eq!(
        *store.column(0).unwrap(),
        Column::UInt64(vec![Some(10), Some(20), Some(30), Some(u64::MAX)])
    );
}

#[test]
fn batch_follows_the_order_of_the_projection() {
    let source = three_column_source();
    let projection = vec![2, 0];
    let node = plan(&source, Some(&projection));
    assert_eq!(node.projection(), &projection);
    let mut stream = run(&node);
    assert_eq!(
        stream.schema(),
        &TableDescriptor::new(vec![
            Field::new("name", DataType::Text, true),
            Field::new("id", DataType::UInt64, false),
        ])
    );
    let batch = only_batch(&mut stream);
    assert_eq!(batch.schema(), node.schema());
    let rows = three_column_rows();
    assert_eq!(batch.num_rows(), rows.len());
    for (i, row) in rows.iter().enumerate() {
        assert_eq!(batch.value(i, 0), row[2]);
        assert_eq!(batch.value(i, 1), row[0]);
        assert_eq!(batch.row(i), Some(vec![row[2].clone(), row[0].clone()]));
    }
}

#[test]
fn projection_may_repeat_a_column() {
    let source = three_column_source();
    let node = plan(&source, Some(&vec![1, 1, 0]));
    let batch = only_batch(&mut run(&node));
    assert_eq!(batch.num_columns(), 3);
    assert_eq!(batch.column(0), batch.column(1));
    assert_eq!(batch.row(0), Some(vec![moment(1_000), moment(1_000), number(10)]));
}

#[test]
fn scan_without_projection_yields_every_column_in_order() {
    let source = three_column_source();
    let node = plan(&source, None);
    assert_eq!(node.projection(), &vec![0, 1, 2]);
    assert_eq!(node.schema(), &three_column_schema());
    let batch = only_batch(&mut run(&node));
    assert_eq!(all_rows(&batch), three_column_rows());
}

#[test]
fn empty_projection_yields_rows_without_columns() {
    let source = three_column_source();
    let node = plan(&source, Some(&Vec::new()));
    let batch = only_batch(&mut run(&node));
    assert_eq!(batch.num_columns(), 0);
    assert_eq!(batch.num_rows(), 4);
    assert_eq!(batch.row(3), Some(Vec::new()));
    assert!(batch.schema().is_empty());
}

#[test]
fn repeated_scans_give_the_same_result() {
    let source = three_column_source();
    let projection = vec![2, 1];
    let first_schema = source.schema().clone();
    let first = all_rows(&only_batch(&mut run(&plan(&source, Some(&projection)))));
    let second = all_rows(&only_batch(&mut run(&plan(&source, Some(&projection)))));
    assert_eq!(first, second);
    assert_eq!(source.schema(), &first_schema);
    assert_eq!(source.schema(), &three_column_schema());
    let node = plan(&source, Some(&projection));
    let third = all_rows(&only_batch(&mut run(&node)));
    let fourth = all_rows(&only_batch(&mut run(&node)));
    assert_eq!(third, first);
    assert_eq!(fourth, first);
    assert_eq!(source.num_rows(), 4);
}

#[test]
fn a_second_handle_reads_the_same_table() {
    let source = three_column_source();
    let handle = source.clone();
    drop(source);
    let batch = only_batch(&mut run(&plan(&handle, None)));
    assert_eq!(all_rows(&batch), three_column_rows());
    let node = plan(&handle, Some(&vec![0]));
    assert_eq!(node.source().num_rows(), 4);
    assert_eq!(node.source().schema(), &three_column_schema());
}

#[test]
fn empty_row_set_builds_and_scans_to_nothing() {
    let schema = three_column_schema();
    let store = match ColumnarStore::new(Vec::new(), &schema) {
        Ok(store) => store,
        Err(fault) => panic!("no row can misfit: {:?}", fault),
    };
    assert_eq!(store.num_rows(), 0);
    assert_eq!(store.num_columns(), 3);
    for j in 0..3 {
        assert!(store.column(j).unwrap().is_empty());
    }
    let source = match DataSource::new(Vec::new(), three_column_schema()) {
        Ok(source) => source,
        Err(fault) => panic!("no row can misfit: {:?}", fault),
    };
    let node = plan(&source, None);
    let mut stream = run(&node);
    assert_eq!(stream.schema(), &three_column_schema());
    assert!(stream.is_finished());
    assert!(stream.next().is_none());
    assert!(stream.next().is_none());
    let batch = match source.read(&vec![0, 1, 2]) {
        Ok(batch) => batch,
        Err(fault) => panic!("the projection fits: {:?}", fault),
    };
    assert_eq!(batch.num_rows(), 0);
    assert_eq!(batch.num_columns(), 3);
}

#[test]
fn table_without_fields_takes_rows_without_cells() {
    let source = match DataSource::new(vec![Vec::new(), Vec::new()], TableDescriptor::new(Vec::new())) {
        Ok(source) => source,
        Err(fault) => panic!("rows without cells fit no fields: {:?}", fault),
    };
    assert_eq!(source.num_rows(), 2);
    let batch = only_batch(&mut run(&plan(&source, None)));
    assert_eq!(batch.num_rows(), 2);
    assert_eq!(batch.num_columns(), 0);
}

#[test]
fn row_with_wrong_arity_is_a_schema_mismatch() {
    let rows = vec![
        vec![number(1), text("a")],
        vec![number(2)],
        vec![number(3), text("c"), text("d")],
    ];
    let built = DataSource::new(rows, id_name_schema());
    assert_eq!(built.err(), Some(DataError::SchemaMismatch { row: 1 }));
    let rows = vec![vec![number(1), text("a"), None]];
    let built = ColumnarStore::new(rows, &id_name_schema());
    assert_eq!(built.err(), Some(DataError::SchemaMismatch { row: 0 }));
}

#[test]
fn cell_of_wrong_type_is_a_schema_mismatch() {
    let rows = vec![
        vec![number(1), text("a")],
        vec![None, None],
        vec![text("3"), text("c")],
    ];
    let built = DataSource::new(rows, id_name_schema());
    assert_eq!(built.err(), Some(DataError::SchemaMismatch { row: 2 }));
    let rows = vec![vec![moment(1), text("a")]];
    let built = DataSource::new(rows, id_name_schema());
    assert_eq!(built.err(), Some(DataError::SchemaMismatch { row: 0 }));
}

#[test]
fn null_is_taken_in_any_column() {
    let rows = vec![vec![None, None, None]];
    let source = match DataSource::new(rows, three_column_schema()) {
        Ok(source) => source,
        Err(fault) => panic!("a null fits every type: {:?}", fault),
    };
    let batch = only_batch(&mut run(&plan(&source, None)));
    assert_eq!(batch.row(0), Some(vec![None, None, None]));
    assert_eq!(batch.column(0), Some(&Column::UInt64(vec![None])));
    assert_eq!(batch.column(1), Some(&Column::Timestamp(vec![None])));
    assert_eq!(batch.column(2), Some(&Column::Text(vec![None])));
}

#[test]
fn only_partition_zero_exists() {
    let source = id_name_source();
    let node = plan(&source, None);
    assert_eq!(
        node.execute(1).err(),
        Some(DataError::InvalidPartition { partition: 1 })
    );
    assert_eq!(
        node.execute(usize::MAX).err(),
        Some(DataError::InvalidPartition { partition: usize::MAX })
    );
    assert!(node.execute(0).is_ok());
}

#[test]
fn scan_node_is_a_leaf() {
    let source = id_name_source();
    let node = plan(&source, Some(&vec![1, 0]));
    assert!(node.children().is_empty());
    let child = plan(&source, None);
    let other = plan(&source, None);
    let refused = node.with_new_children(vec![child, other]);
    assert_eq!(
        refused.err(),
        Some(DataError::UnexpectedChildren { children: 2 })
    );
    let node = plan(&source, Some(&vec![1, 0]));
    let same = match node.clone().with_new_children(Vec::<ScanPlanNode>::new()) {
        Ok(same) => same,
        Err(fault) => panic!("no children is what a leaf has: {:?}", fault),
    };
    assert_eq!(same.projection(), &vec![1, 0]);
    assert_eq!(same.projection(), node.projection());
    assert_eq!(same.schema(), node.schema());
    assert_eq!(
        node.clone().with_new_children(vec!["a child of another kind"]).err(),
        Some(DataError::UnexpectedChildren { children: 1 })
    );
    let batch = only_batch(&mut run(&same));
    assert_eq!(batch.row(0), Some(vec![text("a"), number(1)]));
}

#[test]
fn scan_node_has_one_bounded_partition() {
    let source = three_column_source();
    let node = plan(&source, Some(&vec![2]));
    let properties = node.properties();
    assert_eq!(properties.partitioning(), Partitioning::UnknownPartitioning(1));
    assert_eq!(properties.partitioning().partition_count(), 1);
    assert_eq!(properties.execution_mode(), ExecutionMode::Bounded);
    assert_eq!(properties.schema(), node.schema());
    assert_eq!(
        properties.schema(),
        &TableDescriptor::new(vec![Field::new("name", DataType::Text, true)])
    );
}

#[test]
fn data_source_is_a_base_table() {
    assert_eq!(id_name_source().table_kind(), TableKind::Base);
}

#[test]
fn filters_and_limit_change_nothing() {
    let source = three_column_source();
    let filters = vec!["id > 10".to_string(), "name IS NOT NULL".to_string()];
    let node = match source.scan(Some(&vec![0, 2]), &filters, Some(1)) {
        Ok(node) => node,
        Err(fault) => panic!("the projection fits: {:?}", fault),
    };
    let batch = only_batch(&mut run(&node));
    assert_eq!(batch.num_rows(), 4);
    let plain = only_batch(&mut run(&plan(&source, Some(&vec![0, 2]))));
    assert_eq!(all_rows(&batch), all_rows(&plain));
}

#[test]
fn stream_hands_out_its_batch_once() {
    let source = id_name_source();
    let node = plan(&source, None);
    let mut stream = run(&node);
    assert!(!stream.is_finished());
    let batch = stream.next();
    assert!(batch.is_some());
    assert!(stream.is_finished());
    assert!(stream.next().is_none());
    assert!(stream.next().is_none());
    assert!(stream.is_finished());
    assert_eq!(stream.schema(), &id_name_schema());
}

#[test]
fn stream_of_a_batch_without_rows_is_finished() {
    let source = match DataSource::new(Vec::new(), id_name_schema()) {
        Ok(source) => source,
        Err(fault) => panic!("no row can misfit: {:?}", fault),
    };
    let batch = match source.read(&vec![1]) {
        Ok(batch) => batch,
        Err(fault) => panic!("the projection fits: {:?}", fault),
    };
    let mut stream = ResultStream::once(batch);
    assert!(stream.is_finished());
    assert!(stream.next().is_none());
    assert_eq!(stream.schema().len(), 1);
}

#[test]
fn read_refuses_a_projection_out_of_range() {
    let source = id_name_source();
    assert_eq!(
        source.read(&vec![1, 2]).err(),
        Some(DataError::InvalidProjection { index: 2, columns: 2 })
    );
    let store = match ColumnarStore::new(id_name_rows(), &id_name_schema()) {
        Ok(store) => store,
        Err(fault) => panic!("the rows fit the schema: {:?}", fault),
    };
    assert_eq!(
        store.columns_at(&vec![5]).err(),
        Some(DataError::InvalidProjection { index: 5, columns: 2 })
    );
    let picked = store.columns_at(&vec![1, 0]).unwrap();
    assert_eq!(*picked[0], Column::Text(vec![Some("a".to_string()), None]));
    assert_eq!(*picked[1], Column::UInt64(vec![Some(1), Some(2)]));
}

#[test]
fn descriptor_projects_and_compares() {
    let schema = three_column_schema();
    assert_eq!(schema.len(), 3);
    assert!(!schema.is_empty());
    assert_eq!(schema.field(2), Some(&Field::new("name", DataType::Text, true)));
    assert_eq!(schema.field(3), None);
    assert_eq!(schema.fields().len(), 3);
    let projected = schema.project(&vec![2, 2, 0]).unwrap();
    assert_eq!(
        projected,
        TableDescriptor::new(vec![
            Field::new("name", DataType::Text, true),
            Field::new("name", DataType::Text, true),
            Field::new("id", DataType::UInt64, false),
        ])
    );
    assert_eq!(
        schema.project(&vec![0, 3]).err(),
        Some(DataError::InvalidProjection { index: 3, columns: 3 })
    );
    assert!(schema.same_as(&three_column_schema()));
    assert!(!schema.same_as(&id_name_schema()));
    assert!(!schema.same_as(&projected));
    assert!(schema.clone().same_as(&schema));
    let renamed = TableDescriptor::new(vec![
        Field::new("id", DataType::UInt64, false),
        Field::new("seen", DataType::Timestamp, false),
        Field::new("name", DataType::Text, true),
    ]);
    assert!(!schema.same_as(&renamed));
}

#[test]
fn column_takes_only_cells_of_its_type() {
    let mut column = Column::empty(DataType::Timestamp);
    assert_eq!(column.data_type(), DataType::Timestamp);
    assert!(column.is_empty());
    assert!(column.push(moment(7)));
    assert!(column.push(None));
    assert!(!column.push(number(7)));
    assert!(!column.push(text("7")));
    assert_eq!(column.len(), 2);
    assert_eq!(column, Column::Timestamp(vec![Some(7), None]));
    assert_eq!(column.value(0), moment(7));
    assert_eq!(column.value(1), None);
    assert_eq!(column.value(2), None);
    assert!(column.is_null(1));
    assert!(!column.is_null(2));
    assert_eq!(Value::Text("x".to_string()).data_type(), DataType::Text);
    assert_eq!(Value::UInt64(1).data_type(), DataType::UInt64);
    assert_eq!(Value::Timestamp(1).clone(), Value::Timestamp(1));
}

fn shared_between_threads<T: Send + Sync>() {}

#[test]
fn data_source_and_scan_can_be_shared_between_threads() {
    shared_between_threads::<DataSource>();
    shared_between_threads::<ScanPlanNode>();
    shared_between_threads::<RecordBatch>();
    shared_between_threads::<ResultStream>();
}
