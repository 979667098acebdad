use columnar_source::address::{address_fields, city_of, country_of, get_city, get_country};
use columnar_source::error::Error;

fn fields(items: &[&str]) -> Vec<String> {
    items.iter().map(|s| s.to_string()).collect()
}

#[test]
fn city_is_the_third_field_from_the_end() {
    let addr = "Raadhuisstraat (2401231509), Amsterdam, 3036, NO";
    assert_eq!(get_city(addr), Ok(Some("Amsterdam".to_string())));
    assert_eq!(get_country(addr), Ok(Some("NO".to_string())));
    assert_eq!(
        address_fields(addr),
        Ok(fields(&["Raadhuisstraat (2401231509)", " Amsterdam", " 3036", " NO"]))
    );
}

#[test]
fn city_of_a_long_address_counts_from_the_end() {
    let addr = "c/o Smith, Main Street 5,\"Springfield, East\", 12345 ,  US ";
    assert_eq!(get_city(addr), Ok(Some("Springfield, East".to_string())));
    assert_eq!(get_country(addr), Ok(Some("US".to_string())));
}

#[test]
fn short_address_has_no_city() {
    assert_eq!(get_city("3036, NO"), Ok(None));
    assert_eq!(get_country("3036, NO"), Ok(Some("NO".to_string())));
    assert_eq!(get_city("NO"), Ok(None));
    assert_eq!(get_country(" NO"), Ok(Some("NO".to_string())));
    assert_eq!(get_city("a,b,c"), Ok(Some("a".to_string())));
}

#[test]
fn line_break_does_not_end_an_address() {
    let addr = "Street 1\nBack house, Oslo, 0150, NO";
    assert_eq!(get_city(addr), Ok(Some("Oslo".to_string())));
    assert_eq!(
        address_fields(addr),
        Ok(fields(&["Street 1\nBack house", " Oslo", " 0150", " NO"]))
    );
}

#[test]
fn empty_address_holds_no_record() {
    assert_eq!(get_city(""), Err(Error::RecordCount { found: 0 }));
    assert_eq!(get_country(""), Err(Error::RecordCount { found: 0 }));
    assert_eq!(address_fields(""), Err(Error::RecordCount { found: 0 }));
}

#[test]
fn address_with_an_end_byte_holds_two_records() {
    let addr = "a, b, c\0d, e, f";
    assert_eq!(get_city(addr), Err(Error::RecordCount { found: 2 }));
    assert_eq!(get_country(addr), Err(Error::RecordCount { found: 2 }));
}

#[test]
fn records_of_unequal_length_are_a_decoding_fault() {
    let addr = "a, b, c\0d, e";
    assert!(matches!(get_city(addr), Err(Error::CsvError(_))));
    assert!(matches!(get_country(addr), Err(Error::CsvError(_))));
    assert!(matches!(address_fields(addr), Err(Error::CsvError(_))));
}

#[test]
fn city_and_country_of_fields() {
    assert_eq!(
        city_of(&fields(&["x", "  Bergen\t", "5003", "NO"])),
        Some("Bergen".to_string())
    );
    assert_eq!(city_of(&fields(&["Bergen", "5003", "NO"])), Some("Bergen".to_string()));
    assert_eq!(city_of(&fields(&["5003", "NO"])), None);
    assert_eq!(city_of(&Vec::new()), None);
    assert_eq!(country_of(&fields(&["5003", " NO "])), Some("NO".to_string()));
    assert_eq!(country_of(&fields(&["  "])), Some(String::new()));
    assert_eq!(country_of(&Vec::new()), None);
}
