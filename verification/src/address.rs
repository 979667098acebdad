//! Postal addresses written as one comma-separated record, such as
//! `Raadhuisstraat 1, Amsterdam, 3036, NL`: street, city, postal code and
//! country, the last three counted from the end.

use crate::decode::{csv_records, read_csv};
use crate::error::Error;
use crate::text::{trim, trimmed};
use vstd::prelude::*;

verus! {

/// The byte at which an address ends, should it hold one: an address is a
/// single record, and a line break within it does not end it.
pub const ADDRESS_END: u8 = 0;

/// The city of an address: its third field from the end, trimmed. `None`
/// where the address has fewer than three fields.
pub open spec fn city_in(record: Seq<Seq<char>>) -> Option<Seq<char>> {
    if record.len() >= 3 {
        Some(trimmed(record[record.len() - 3]))
    } else {
        None
    }
}

/// The country of an address: its last field, trimmed. `None` where the
/// address has no field.
pub open spec fn country_in(record: Seq<Seq<char>>) -> Option<Seq<char>> {
    if record.len() >= 1 {
        Some(trimmed(record[record.len() - 1]))
    } else {
        None
    }
}

/// The city of an address, given as its fields.
pub fn city_of(record: &Vec<String>) -> (city: Option<String>)
    ensures
        city.deep_view() == city_in(record.deep_view()),
{
    if record.len() >= 3 {
        let field = &record[record.len() - 3];
        assert(record.deep_view()[record.len() - 3] == field@);
        Some(trim(field.as_str()))
    } else {
        None
    }
}

/// The country of an address, given as its fields.
pub fn country_of(record: &Vec<String>) -> (country: Option<String>)
    ensures
        country.deep_view() == country_in(record.deep_view()),
{
    if record.len() >= 1 {
        let field = &record[record.len() - 1];
        assert(record.deep_view()[record.len() - 1] == field@);
        Some(trim(field.as_str()))
    } else {
        None
    }
}

/// What the text of an address decodes to: its records, read without a
/// header and ending only at [`ADDRESS_END`].
pub open spec fn address_records(addr: Seq<char>) -> Option<Seq<Seq<Seq<char>>>> {
    csv_records(vstd::utf8::encode_utf8(addr), false, Some(ADDRESS_END))
}

/// The fields of an address. Fails with a decoding fault where the text is
/// no comma-separated record, and with a record count where it holds none
/// or more than one.
pub fn address_fields(addr: &str) -> (fields: Result<Vec<String>, Error>)
    ensures
        match fields {
            Ok(record) => address_records(addr@) == Some(seq![record.deep_view()]),
            Err(Error::CsvError(_)) => address_records(addr@) is None,
            Err(Error::RecordCount { found }) => address_records(addr@) matches Some(records)
                && records.len() == found && found != 1,
            Err(_) => false,
        },
{
    let mut records = match read_csv(addr.as_bytes(), false, Some(ADDRESS_END)) {
        Ok(records) => records,
        Err(message) => {
            return Err(Error::CsvError(message));
        },
    };
    if records.len() != 1 {
        return Err(Error::RecordCount { found: records.len() });
    }
    let ghost all = records.deep_view();
    let record = records.pop().unwrap();
    assert(all =~= seq![record.deep_view()]) by {
        assert(all[0] == record.deep_view());
    }
    Ok(record)
}

/// The city of an address: the third field from the end, without the
/// white space around it, or `None` where the address has fewer than three
/// fields. Fails as [`address_fields`] does.
pub fn get_city(addr: &str) -> (city: Result<Option<String>, Error>)
    ensures
        match city {
            Ok(found) => address_records(addr@) matches Some(records) && records.len() == 1
                && found.deep_view() == city_in(records[0]),
            Err(Error::CsvError(_)) => address_records(addr@) is None,
            Err(Error::RecordCount { found }) => address_records(addr@) matches Some(records)
                && records.len() == found && found != 1,
            Err(_) => false,
        },
{
    match address_fields(addr) {
        Ok(record) => Ok(city_of(&record)),
        Err(fault) => Err(fault),
    }
}

/// The country of an address: the last field, without the white space
/// around it. Fails as [`address_fields`] does.
pub fn get_country(addr: &str) -> (country: Result<Option<String>, Error>)
    ensures
        match country {
            Ok(found) => address_records(addr@) matches Some(records) && records.len() == 1
                && found.deep_view() == country_in(records[0]),
            Err(Error::CsvError(_)) => address_records(addr@) is None,
            Err(Error::RecordCount { found }) => address_records(addr@) matches Some(records)
                && records.len() == found && found != 1,
            Err(_) => false,
        },
{
    match address_fields(addr) {
        Ok(record) => Ok(country_of(&record)),
        Err(fault) => Err(fault),
    }
}

} // verus!
