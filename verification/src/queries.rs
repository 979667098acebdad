//! The text of the queries that are asked of the customer table.

use crate::text::{all_digits, decimal_u64, digits_value, is_digit, unsigned_part};
use vstd::prelude::*;
use vstd::string::StringExecFns;

verus! {

/// The character that writes a digit.
pub open spec fn digit_char(digit: nat) -> char {
    if digit == 0 {
        '0'
    } else if digit == 1 {
        '1'
    } else if digit == 2 {
        '2'
    } else if digit == 3 {
        '3'
    } else if digit == 4 {
        '4'
    } else if digit == 5 {
        '5'
    } else if digit == 6 {
        '6'
    } else if digit == 7 {
        '7'
    } else if digit == 8 {
        '8'
    } else {
        '9'
    }
}

/// A number written in decimal: its digits, most significant first, with
/// no sign and no leading zero; `0` for zero.
pub open spec fn decimal_text(n: nat) -> Seq<char>
    decreases n,
{
    if n < 10 {
        seq![digit_char(n)]
    } else {
        decimal_text(n / 10).push(digit_char(n % 10))
    }
}

/// A number written in decimal reads back as itself.
pub proof fn lemma_decimal_reads_back(n: nat)
    ensures
        decimal_text(n).len() > 0,
        all_digits(decimal_text(n)),
        digits_value(decimal_text(n)) == n,
        unsigned_part(decimal_text(n)) == decimal_text(n),
        n <= u64::MAX ==> decimal_u64(decimal_text(n)) == Some(n as u64),
    decreases n,
{
    let text = decimal_text(n);
    if n < 10 {
        assert(text.len() == 1);
        assert(text[0] == digit_char(n));
        assert(is_digit(text[0]));
        assert(text.drop_last() =~= Seq::<char>::empty());
        assert(digits_value(text.drop_last()) == 0);
        assert(text.last() as u32 - 48 == n);
    } else {
        let shorter = decimal_text(n / 10);
        lemma_decimal_reads_back(n / 10);
        assert(text.drop_last() =~= shorter);
        assert(text.last() == digit_char(n % 10));
        assert(text.last() as u32 - 48 == n % 10);
        assert forall|i: int| 0 <= i < text.len() implies is_digit(#[trigger] text[i]) by {
            if i < shorter.len() {
                assert(text[i] == shorter[i]);
            }
        }
        assert(text[0] == shorter[0]);
    }
    assert(is_digit(text[0]));
    assert(text[0] != '+');
}

/// The text of one digit.
fn digit_text(digit: u64) -> (text: &'static str)
    requires
        digit < 10,
    ensures
        text@ == seq![digit_char(digit as nat)],
{
    proof {
        reveal_strlit("0");
        reveal_strlit("1");
        reveal_strlit("2");
        reveal_strlit("3");
        reveal_strlit("4");
        reveal_strlit("5");
        reveal_strlit("6");
        reveal_strlit("7");
        reveal_strlit("8");
        reveal_strlit("9");
    }
    let text = if digit == 0 {
        "0"
    } else if digit == 1 {
        "1"
    } else if digit == 2 {
        "2"
    } else if digit == 3 {
        "3"
    } else if digit == 4 {
        "4"
    } else if digit == 5 {
        "5"
    } else if digit == 6 {
        "6"
    } else if digit == 7 {
        "7"
    } else if digit == 8 {
        "8"
    } else {
        "9"
    };
    assert(text@ =~= seq![digit_char(digit as nat)]);
    text
}

/// Writes a number in decimal.
pub fn decimal(n: u64) -> (text: String)
    ensures
        text@ == decimal_text(n as nat),
    decreases n,
{
    if n < 10 {
        digit_text(n).to_string()
    } else {
        let mut text = decimal(n / 10);
        text.append(digit_text(n % 10));
        assert(text@ =~= decimal_text(n as nat));
        text
    }
}

/// What comes before the customer's number in the query for the children
/// of a customer.
pub open spec fn children_head() -> Seq<char> {
    "SELECT eq_id, full_name, parent_eq_id,\n                (SELECT COUNT(*) as children \n                    FROM customer t1 \n                    WHERE t1.parent_eq_id=customer.eq_id)\n        FROM customer \n        WHERE customer.parent_eq_id = "@
}

/// What comes before the customer's number in the query for the customers
/// that a customer sponsors.
pub open spec fn sponsored_head() -> Seq<char> {
    "SELECT eq_id, full_name, parent_eq_id,\n                (SELECT COUNT(*) as children \n                    FROM customer t1 \n                    WHERE t1.parent_eq_id=customer.eq_id)\n        FROM customer \n        WHERE customer.sponsor_eq_id = "@
}

/// What comes after the customer's number in both of these queries: the
/// customers with the most children first, and five of them at most.
pub open spec fn most_children_tail() -> Seq<char> {
    " \n        ORDER BY children DESC\n        LIMIT 5"@
}

/// What comes before the customer's number in the query for the number of
/// customers that a customer sponsors.
pub open spec fn sponsored_count_head() -> Seq<char> {
    "SELECT count(*) AS count\n        FROM customer \n        WHERE customer.sponsor_eq_id = "@
}

/// The query for the five customers with the most children among those
/// whose parent is the customer `eq_id`, each with the number of its own
/// children.
pub fn children_sql(eq_id: u64) -> (sql: String)
    ensures
        sql@ == children_head() + decimal_text(eq_id as nat) + most_children_tail(),
{
    let mut sql =
        "SELECT eq_id, full_name, parent_eq_id,\n                (SELECT COUNT(*) as children \n                    FROM customer t1 \n                    WHERE t1.parent_eq_id=customer.eq_id)\n        FROM customer \n        WHERE customer.parent_eq_id = ".to_string();
    sql.append(decimal(eq_id).as_str());
    sql.append(" \n        ORDER BY children DESC\n        LIMIT 5");
    sql
}

/// The query for the five customers with the most children among those
/// that the customer `eq_id` sponsors, each with the number of its own
/// children.
pub fn sponsored_sql(eq_id: u64) -> (sql: String)
    ensures
        sql@ == sponsored_head() + decimal_text(eq_id as nat) + most_children_tail(),
{
    let mut sql =
        "SELECT eq_id, full_name, parent_eq_id,\n                (SELECT COUNT(*) as children \n                    FROM customer t1 \n                    WHERE t1.parent_eq_id=customer.eq_id)\n        FROM customer \n        WHERE customer.sponsor_eq_id = ".to_string();
    sql.append(decimal(eq_id).as_str());
    sql.append(" \n        ORDER BY children DESC\n        LIMIT 5");
    sql
}

/// The query for the number of customers that the customer `eq_id`
/// sponsors.
pub fn sponsored_count_sql(eq_id: u64) -> (sql: String)
    ensures
        sql@ == sponsored_count_head() + decimal_text(eq_id as nat),
{
    let mut sql =
        "SELECT count(*) AS count\n        FROM customer \n        WHERE customer.sponsor_eq_id = ".to_string();
    sql.append(decimal(eq_id).as_str());
    sql
}

} // verus!
