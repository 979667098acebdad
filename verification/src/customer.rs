//! The customer table: how an exported customer record becomes a row, and
//! how a compressed export becomes a data source.

use crate::column::{cell_fits, timestamp_cell, uint64_cell, Value, ValueView};
use crate::decode::{csv_records, datetime_millis, gunzip, gunzipped, parse_datetime, read_csv};
use crate::error::{DataError, Error};
use crate::schema::{DataType, Field, FieldView, TableDescriptor};
use crate::source::DataSource;
use crate::table::{lemma_unfit_row, row_fits, rows_fit, RowView, TableView};
use crate::text::{decimal_u64, parse_u64};
use vstd::prelude::*;

verus! {

/// The number of fields of a customer.
pub const CUSTOMER_FIELDS: usize = 10;

/// The format in which an export writes a date and time.
pub open spec fn date_format() -> Seq<char> {
    "%Y-%m-%d %H:%M:%S"@
}

/// Reads a date and time as an export writes it, such as
/// `2001-09-09 01:46:40`, into milliseconds since the Unix epoch. Gives
/// `None` for a text that is no such date, as for the all-zero date that an
/// export writes where it has none.
pub fn format_date(date: &str) -> (millis: Option<i64>)
    ensures
        millis == datetime_millis(date@, date_format()),
{
    parse_datetime(date, "%Y-%m-%d %H:%M:%S")
}

/// One customer, as decoded from an export.
#[derive(Debug, PartialEq, Eq)]
pub struct Customer {
    pub eq_id: Option<u64>,
    pub sponsor_eq_id: Option<u64>,
    pub parent_eq_id: Option<u64>,
    pub created_date: Option<i64>,
    pub change_date: Option<i64>,
    pub full_name: String,
    pub invoice_phone_number: String,
    pub delivery_phone_number: String,
    pub invoice_address: String,
    pub shipping_address: String,
}

/// What a [`Customer`] is, as a mathematical value.
pub struct CustomerView {
    pub eq_id: Option<u64>,
    pub sponsor_eq_id: Option<u64>,
    pub parent_eq_id: Option<u64>,
    pub created_date: Option<i64>,
    pub change_date: Option<i64>,
    pub full_name: Seq<char>,
    pub invoice_phone_number: Seq<char>,
    pub delivery_phone_number: Seq<char>,
    pub invoice_address: Seq<char>,
    pub shipping_address: Seq<char>,
}

impl CustomerView {
    /// The customer that a record of at least ten fields writes: three
    /// numbers and two dates, each absent where its field does not parse,
    /// and five texts, taken as they are. Fields after the tenth are not
    /// looked at.
    pub open spec fn of_record(record: Seq<Seq<char>>) -> CustomerView {
        CustomerView {
            eq_id: decimal_u64(record[0]),
            sponsor_eq_id: decimal_u64(record[1]),
            parent_eq_id: decimal_u64(record[2]),
            created_date: datetime_millis(record[3], date_format()),
            change_date: datetime_millis(record[4], date_format()),
            full_name: record[5],
            invoice_phone_number: record[6],
            delivery_phone_number: record[7],
            invoice_address: record[8],
            shipping_address: record[9],
        }
    }

    /// The customer as a row of the customer table.
    pub open spec fn row(self) -> RowView {
        seq![
            uint64_cell(self.eq_id),
            uint64_cell(self.sponsor_eq_id),
            uint64_cell(self.parent_eq_id),
            timestamp_cell(self.created_date),
            timestamp_cell(self.change_date),
            Some(ValueView::Text(self.full_name)),
            Some(ValueView::Text(self.invoice_phone_number)),
            Some(ValueView::Text(self.delivery_phone_number)),
            Some(ValueView::Text(self.invoice_address)),
            Some(ValueView::Text(self.shipping_address)),
        ]
    }
}

impl View for Customer {
    type V = CustomerView;

    open spec fn view(&self) -> CustomerView {
        CustomerView {
            eq_id: self.eq_id,
            sponsor_eq_id: self.sponsor_eq_id,
            parent_eq_id: self.parent_eq_id,
            created_date: self.created_date,
            change_date: self.change_date,
            full_name: self.full_name@,
            invoice_phone_number: self.invoice_phone_number@,
            delivery_phone_number: self.delivery_phone_number@,
            invoice_address: self.invoice_address@,
            shipping_address: self.shipping_address@,
        }
    }
}

impl Customer {
    /// Decodes a customer from a record of an export.
    pub fn from_record(record: &Vec<String>) -> (customer: Customer)
        requires
            record.len() >= CUSTOMER_FIELDS,
        ensures
            customer@ == CustomerView::of_record(record.deep_view()),
    {
        assert(forall|k: int| 0 <= k < record.len() ==> record.deep_view()[k] == record@[k]@);
        Customer {
            eq_id: parse_u64(record[0].as_str()),
            sponsor_eq_id: parse_u64(record[1].as_str()),
            parent_eq_id: parse_u64(record[2].as_str()),
            created_date: format_date(record[3].as_str()),
            change_date: format_date(record[4].as_str()),
            full_name: record[5].clone(),
            invoice_phone_number: record[6].clone(),
            delivery_phone_number: record[7].clone(),
            invoice_address: record[8].clone(),
            shipping_address: record[9].clone(),
        }
    }

    /// The customer as a row of the customer table.
    pub fn into_row(self) -> (row: Vec<Option<Value>>)
        ensures
            row.deep_view() == self@.row(),
            row_fits(self@.row(), customer_fields()),
    {
        let mut row: Vec<Option<Value>> = Vec::new();
        row.push(
            match self.eq_id {
                Some(n) => Some(Value::UInt64(n)),
                None => None,
            },
        );
        row.push(
            match self.sponsor_eq_id {
                Some(n) => Some(Value::UInt64(n)),
                None => None,
            },
        );
        row.push(
            match self.parent_eq_id {
                Some(n) => Some(Value::UInt64(n)),
                None => None,
            },
        );
        row.push(
            match self.created_date {
                Some(t) => Some(Value::Timestamp(t)),
                None => None,
            },
        );
        row.push(
            match self.change_date {
                Some(t) => Some(Value::Timestamp(t)),
                None => None,
            },
        );
        row.push(Some(Value::Text(self.full_name)));
        row.push(Some(Value::Text(self.invoice_phone_number)));
        row.push(Some(Value::Text(self.delivery_phone_number)));
        row.push(Some(Value::Text(self.invoice_address)));
        row.push(Some(Value::Text(self.shipping_address)));
        assert(row.deep_view() =~= self@.row());
        proof {
            lemma_customer_row_fits(self@);
        }
        row
    }
}

/// The fields of the customer table, in column order.
pub open spec fn customer_fields() -> Seq<FieldView> {
    seq![
        FieldView { name: "eq_id"@, data_type: DataType::UInt64, nullable: true },
        FieldView { name: "sponsor_eq_id"@, data_type: DataType::UInt64, nullable: true },
        FieldView { name: "parent_eq_id"@, data_type: DataType::UInt64, nullable: true },
        FieldView { name: "created_date"@, data_type: DataType::Timestamp, nullable: true },
        FieldView { name: "change_date"@, data_type: DataType::Timestamp, nullable: true },
        FieldView { name: "full_name"@, data_type: DataType::Text, nullable: false },
        FieldView { name: "invoice_phone_number"@, data_type: DataType::Text, nullable: false },
        FieldView { name: "delivery_phone_number"@, data_type: DataType::Text, nullable: false },
        FieldView { name: "invoice_address"@, data_type: DataType::Text, nullable: false },
        FieldView { name: "shipping_address"@, data_type: DataType::Text, nullable: false },
    ]
}

/// Every customer's row fits the customer table.
pub proof fn lemma_customer_row_fits(customer: CustomerView)
    ensures
        row_fits(customer.row(), customer_fields()),
{
    let row = customer.row();
    let fields = customer_fields();
    assert(row.len() == 10 && fields.len() == 10);
    assert forall|j: int| 0 <= j < row.len() implies cell_fits(
        #[trigger] row[j],
        fields[j].data_type,
    ) by {
        if j == 0 {
        } else if j == 1 {
        } else if j == 2 {
        } else if j == 3 {
        } else if j == 4 {
        } else if j == 5 {
        } else if j == 6 {
        } else if j == 7 {
        } else if j == 8 {
        } else {
            assert(j == 9);
        }
    }
}

/// The schema of the customer table.
pub fn customer_schema() -> (schema: TableDescriptor)
    ensures
        schema@ == customer_fields(),
{
    let mut fields: Vec<Field> = Vec::new();
    fields.push(Field::new("eq_id", DataType::UInt64, true));
    fields.push(Field::new("sponsor_eq_id", DataType::UInt64, true));
    fields.push(Field::new("parent_eq_id", DataType::UInt64, true));
    fields.push(Field::new("created_date", DataType::Timestamp, true));
    fields.push(Field::new("change_date", DataType::Timestamp, true));
    fields.push(Field::new("full_name", DataType::Text, false));
    fields.push(Field::new("invoice_phone_number", DataType::Text, false));
    fields.push(Field::new("delivery_phone_number", DataType::Text, false));
    fields.push(Field::new("invoice_address", DataType::Text, false));
    fields.push(Field::new("shipping_address", DataType::Text, false));
    assert(fields.deep_view() =~= customer_fields());
    TableDescriptor::new(fields)
}

/// The row that a record gives to the customer table: the customer's row
/// for a record of at least ten fields. A shorter record writes no customer;
/// it gives a row with no cell, which fits no table with fields.
pub open spec fn record_row(record: Seq<Seq<char>>) -> RowView {
    if record.len() >= CUSTOMER_FIELDS {
        CustomerView::of_record(record).row()
    } else {
        Seq::empty()
    }
}

/// The rows that the records give to the customer table, in their order.
pub open spec fn record_rows(records: Seq<Seq<Seq<char>>>) -> Seq<RowView> {
    Seq::new(records.len(), |i: int| record_row(records[i]))
}

/// What loading the records comes to: the customer table of their rows, or
/// a schema mismatch at the first record that is too short.
pub open spec fn customers_table(records: Seq<Seq<Seq<char>>>) -> Result<TableView, DataError> {
    TableView::build(record_rows(records), customer_fields())
}

/// Records load if and only if each of them has at least ten fields; the
/// table then has the customer fields and one row for each record, which is
/// the row of the customer that the record writes.
pub proof fn lemma_customers_table(records: Seq<Seq<Seq<char>>>)
    ensures
        customers_table(records) is Ok <==> forall|i: int|
            0 <= i < records.len() ==> (#[trigger] records[i]).len() >= CUSTOMER_FIELDS,
        customers_table(records) matches Ok(table) ==> {
            &&& table.schema == customer_fields()
            &&& table.rows == records.len()
            &&& table.columns.len() == CUSTOMER_FIELDS
            &&& forall|i: int, j: int|
                0 <= i < records.len() && 0 <= j < CUSTOMER_FIELDS ==> #[trigger] table.cell(i, j)
                    == CustomerView::of_record(records[i]).row()[j]
        },
{
    let rows = record_rows(records);
    let fields = customer_fields();
    assert(fields.len() == 10);
    if forall|i: int| 0 <= i < records.len() ==> (#[trigger] records[i]).len() >= CUSTOMER_FIELDS {
        assert forall|i: int| 0 <= i < rows.len() implies row_fits(#[trigger] rows[i], fields) by {
            assert(records[i].len() >= CUSTOMER_FIELDS);
            lemma_customer_row_fits(CustomerView::of_record(records[i]));
        }
        assert(rows_fit(rows, fields));
        let table = TableView::of_rows(rows, fields);
        assert forall|i: int, j: int|
            0 <= i < records.len() && 0 <= j < CUSTOMER_FIELDS implies #[trigger] table.cell(i, j)
                == CustomerView::of_record(records[i]).row()[j] by {
            assert(records[i].len() >= CUSTOMER_FIELDS);
            assert(rows[i] == CustomerView::of_record(records[i]).row());
        }
    } else {
        let i = choose|i: int| 0 <= i < records.len() && (#[trigger] records[i]).len() < CUSTOMER_FIELDS;
        assert(rows[i].len() == 0);
        assert(!row_fits(rows[i], fields));
    }
}

/// The data source of the customers that the records of an export write,
/// one row for each record, in their order.
///
/// Fails where a record has fewer than ten fields; the fault is a schema
/// mismatch that names the first such record.
pub fn customers_from_records(records: Vec<Vec<String>>) -> (loaded: Result<DataSource, Error>)
    ensures
        match loaded {
            Ok(source) => customers_table(records.deep_view()) == Ok::<TableView, DataError>(
                source@,
            ) && source@.well_formed(),
            Err(Error::DataError(fault)) => customers_table(records.deep_view()) == Err::<
                TableView,
                DataError,
            >(fault),
            Err(_) => false,
        },
{
    let ghost all = records.deep_view();
    let ghost wanted = record_rows(all);
    let mut rows: Vec<Vec<Option<Value>>> = Vec::new();
    let mut i: usize = 0;
    while i < records.len()
        invariant
            i <= records.len(),
            all == records.deep_view(),
            wanted == record_rows(all),
            rows.len() == i,
            forall|r: int| 0 <= r < i ==> (#[trigger] rows.deep_view()[r]) == wanted[r],
            forall|r: int| 0 <= r < i ==> row_fits(#[trigger] wanted[r], customer_fields()),
        decreases records.len() - i,
    {
        let record = &records[i];
        assert(all[i as int] == record.deep_view());
        if record.len() < CUSTOMER_FIELDS {
            proof {
                assert(wanted[i as int].len() == 0);
                assert(!row_fits(wanted[i as int], customer_fields()));
                lemma_unfit_row(wanted, customer_fields(), i as int);
            }
            return Err(Error::DataError(DataError::SchemaMismatch { row: i }));
        }
        let customer = Customer::from_record(record);
        let ghost before = rows.deep_view();
        rows.push(customer.into_row());
        assert forall|r: int| 0 <= r < i + 1 implies (#[trigger] rows.deep_view()[r])
            == wanted[r] by {
            if r < i {
                assert(rows.deep_view()[r] == before[r]);
            } else {
                assert(rows.deep_view()[r] == rows@[r].deep_view());
                assert(wanted[r] == record_row(all[r]));
            }
        }
        i += 1;
    }
    assert(rows.deep_view() =~= wanted);
    assert(rows_fit(wanted, customer_fields()));
    match DataSource::new(rows, customer_schema()) {
        Ok(source) => Ok(source),
        Err(fault) => Err(Error::DataError(fault)),
    }
}

/// What loading a compressed export comes to, given what its bytes
/// decompress to and what records the decompressed text holds.
pub open spec fn export_loads(raw: Seq<u8>, loaded: Result<TableView, DataError>) -> bool {
    &&& gunzipped(raw) matches Some(plain)
    &&& csv_records(plain, true, None) matches Some(records)
    &&& customers_table(records) == loaded
}

/// The raw input cannot be decoded: it does not decompress, or what it
/// decompresses to is no comma-separated text.
pub open spec fn export_undecodable(raw: Seq<u8>) -> bool {
    match gunzipped(raw) {
        Some(plain) => csv_records(plain, true, None) is None,
        None => true,
    }
}

/// Loads a compressed customer export into a data source. The input is a
/// gzip stream of comma-separated text; its first line is a header and is
/// skipped, and every other record writes one customer.
///
/// Fails with a decoding fault where the input does not decompress or is no
/// comma-separated text, and with a schema mismatch where a record has
/// fewer than ten fields.
pub fn customer_data(raw: &[u8]) -> (loaded: Result<DataSource, Error>)
    ensures
        match loaded {
            Ok(source) => export_loads(raw@, Ok(source@)) && source@.well_formed(),
            Err(Error::DataError(fault)) => export_loads(raw@, Err(fault)),
            Err(Error::CsvError(_)) => export_undecodable(raw@),
            Err(_) => false,
        },
{
    let plain = match gunzip(raw) {
        Ok(plain) => plain,
        Err(message) => {
            return Err(Error::CsvError(message));
        },
    };
    let records = match read_csv(plain.as_slice(), true, None) {
        Ok(records) => records,
        Err(message) => {
            return Err(Error::CsvError(message));
        },
    };
    customers_from_records(records)
}

} // verus!
