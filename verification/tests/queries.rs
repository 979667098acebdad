use columnar_source::queries::{children_sql, decimal, sponsored_count_sql, sponsored_sql};
use columnar_source::text::parse_u64;

#[test]
fn decimal_writes_numbers_without_sign_or_leading_zero() {
    assert_eq!(decimal(0), "0");
    assert_eq!(decimal(7), "7");
    assert_eq!(decimal(10), "10");
    assert_eq!(decimal(2_401_231_509), "2401231509");
    assert_eq!(decimal(u64::MAX), "18446744073709551615");
}

#[test]
fn decimal_agrees_with_the_standard_library() {
    for n in [0u64, 1, 9, 10, 11, 99, 100, 101, 1_000_000, u64::MAX / 10, u64::MAX - 1, u64::MAX] {
        assert_eq!(decimal(n), n.to_string());
        assert_eq!(decimal(n), format!("{n}"));
    }
}

#[test]
fn decimal_reads_back_as_the_number() {
    for n in [0u64, 5, 10, 12345, 1 << 32, u64::MAX] {
        assert_eq!(parse_u64(&decimal(n)), Some(n));
    }
}

#[test]
fn children_sql_asks_for_the_children_of_a_customer() {
    let eq_id: u64 = 42;
    let expected = format!("SELECT eq_id, full_name, parent_eq_id,
                (SELECT COUNT(*) as children 
                    FROM customer t1 
                    WHERE t1.parent_eq_id=customer.eq_id)
        FROM customer 
        WHERE customer.parent_eq_id = {eq_id} 
        ORDER BY children DESC
        LIMIT 5");
    assert_eq!(children_sql(eq_id), expected);
    assert!(children_sql(0).contains("WHERE customer.parent_eq_id = 0 \n"));
    assert!(children_sql(u64::MAX).contains("parent_eq_id = 18446744073709551615 \n"));
}

#[test]
fn sponsored_sql_asks_for_the_sponsored_of_a_customer() {
    let eq_id: u64 = 1001;
    let expected = format!("SELECT eq_id, full_name, parent_eq_id,
                (SELECT COUNT(*) as children 
                    FROM customer t1 
                    WHERE t1.parent_eq_id=customer.eq_id)
        FROM customer 
        WHERE customer.sponsor_eq_id = {eq_id} 
        ORDER BY children DESC
        LIMIT 5");
    assert_eq!(sponsored_sql(eq_id), expected);
    assert!(sponsored_sql(7).ends_with("sponsor_eq_id = 7 \n        ORDER BY children DESC\n        LIMIT 5"));
}

#[test]
fn sponsored_count_sql_asks_for_a_count() {
    let eq_id: u64 = 9;
    let expected = format!("SELECT count(*) AS count
        FROM customer 
        WHERE customer.sponsor_eq_id = {eq_id}");
    assert_eq!(sponsored_count_sql(eq_id), expected);
    assert!(sponsored_count_sql(120).ends_with("= 120"));
}
