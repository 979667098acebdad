//! Decoding of raw input: gzip decompression and delimited text. Both are
//! the work of outside crates; this module states what the rest of the
//! library takes from them.

use chrono::NaiveDateTime;
use flate2::bufread::GzDecoder;
use std::io::Read;
use vstd::prelude::*;

verus! {

/// The bytes that a gzip stream decompresses to, or `None` where the bytes
/// are no gzip stream that can be read to its end.
pub uninterp spec fn gunzipped(data: Seq<u8>) -> Option<Seq<u8>>;

/// The records that delimited text holds, each as its fields in order, or
/// `None` where the text cannot be read as comma-separated records. With
/// `has_headers` the first record is taken for a header and left out. The
/// records end at `terminator` or, where none is given, at a line break.
pub uninterp spec fn csv_records(data: Seq<u8>, has_headers: bool, terminator: Option<u8>) -> Option<
    Seq<Seq<Seq<char>>>,
>;

/// The moment that a text writes under a `strftime`-like format, as
/// milliseconds since the Unix epoch and taken as UTC, or `None` where the
/// text does not match the format or writes no date and time that exists.
pub uninterp spec fn datetime_millis(text: Seq<char>, format: Seq<char>) -> Option<i64>;

/// Parses a date and time with `chrono::NaiveDateTime::parse_from_str` and
/// converts a parsed moment with `and_utc` and `timestamp_millis`. Whether
/// the text parses, and the moment it gives, depend on the text and the
/// format alone: no clock, time zone or locale comes into it.
#[verifier::external_body]
pub(crate) fn parse_datetime(text: &str, format: &str) -> (millis: Option<i64>)
    ensures
        millis == datetime_millis(text@, format@),
{
    match NaiveDateTime::parse_from_str(text, format) {
        Ok(moment) => Some(moment.and_utc().timestamp_millis()),
        Err(_) => None,
    }
}

/// Decompresses a gzip stream with `flate2::bufread::GzDecoder`, read to its
/// end by `read_to_end`. Whether that succeeds, and the bytes it gives,
/// depend on the input alone. Where the decoder reports an error, the
/// error's message comes back; nothing is claimed of its wording.
#[verifier::external_body]
pub(crate) fn gunzip(data: &[u8]) -> (plain: Result<Vec<u8>, String>)
    ensures
        match plain {
            Ok(bytes) => gunzipped(data@) == Some(bytes@),
            Err(_) => gunzipped(data@) is None,
        },
{
    let mut plain: Vec<u8> = Vec::new();
    match GzDecoder::new(data).read_to_end(&mut plain) {
        Ok(_) => Ok(plain),
        Err(fault) => Err(fault.to_string()),
    }
}

/// Reads all records of comma-separated text with a reader of the `csv`
/// crate, built by `csv::ReaderBuilder` with the given header and terminator
/// settings and walked by `Reader::records`. Whether that succeeds, and
/// the records it gives, depend on the arguments alone. The first error
/// that the reader reports ends the read, and its message comes back;
/// nothing is claimed of its wording.
#[verifier::external_body]
pub(crate) fn read_csv(data: &[u8], has_headers: bool, terminator: Option<u8>) -> (records: Result<
    Vec<Vec<String>>,
    String,
>)
    ensures
        match records {
            Ok(read) => csv_records(data@, has_headers, terminator) == Some(read.deep_view()),
            Err(_) => csv_records(data@, has_headers, terminator) is None,
        },
{
    let mut builder = csv::ReaderBuilder::new();
    builder.delimiter(b',').has_headers(has_headers);
    builder.terminator(terminator.map_or(csv::Terminator::CRLF, csv::Terminator::Any));
    let mut reader = builder.from_reader(data);
    let mut records: Vec<Vec<String>> = Vec::new();
    for record in reader.records() {
        match record {
            Ok(fields) => records.push(fields.iter().map(str::to_string).collect()),
            Err(fault) => return Err(fault.to_string()),
        }
    }
    Ok(records)
}

} // verus!
