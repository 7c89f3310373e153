use attendance::error::Error;
use attendance::sql::{
    check_bulk_insert, check_single_insert, cycle_take, designation_insert_query,
    designation_param_types, employee_insert_query, employee_param_types, insert_query,
    is_unique_violation, ColumnType,
};
use attendance::text::decimal_string;

#[test]
fn designation_insert_text() {
    assert_eq!(designation_insert_query(1), "INSERT INTO DESIGNATION VALUES ($1, $2)");
    assert_eq!(designation_insert_query(3), "INSERT INTO DESIGNATION VALUES ($1, $2), ($3, $4), ($5, $6)");
}

#[test]
fn empty_insert_text_loses_last_prefix_char() {
    assert_eq!(designation_insert_query(0), "INSERT INTO DESIGNATION VALUE");
    assert_eq!(employee_insert_query(0), "INSERT INTO EMPLOYEE VALUE");
}

#[test]
fn employee_insert_text() {
    assert_eq!(
        employee_insert_query(1),
        "INSERT INTO EMPLOYEE VALUES ($1, $2, $3, $4, $5, $6, $7, $8, $9, $10)"
    );
    assert_eq!(
        employee_insert_query(2),
        "INSERT INTO EMPLOYEE VALUES ($1, $2, $3, $4, $5, $6, $7, $8, $9, $10), \
         ($11, $12, $13, $14, $15, $16, $17, $18, $19, $20)"
    );
}

#[test]
fn single_column_insert_text() {
    assert_eq!(insert_query("INSERT INTO T VALUES", 2, 1), "INSERT INTO T VALUES ($1), ($2)");
}

#[test]
fn designation_types() {
    assert_eq!(designation_param_types(0), vec![]);
    assert_eq!(
        designation_param_types(2),
        vec![ColumnType::Uuid, ColumnType::Text, ColumnType::Uuid, ColumnType::Text]
    );
}

#[test]
fn employee_types() {
    let t = employee_param_types(2);
    let row = [
        ColumnType::Uuid,
        ColumnType::Text,
        ColumnType::Text,
        ColumnType::Text,
        ColumnType::Text,
        ColumnType::Date,
        ColumnType::Text,
        ColumnType::Uuid,
        ColumnType::Int4,
        ColumnType::Text,
    ];
    assert_eq!(t.len(), 20);
    assert_eq!(&t[..10], &row[..]);
    assert_eq!(&t[10..], &row[..]);
}

#[test]
fn cycle_take_repeats() {
    let p = [ColumnType::Date, ColumnType::Time, ColumnType::Int4];
    assert_eq!(
        cycle_take(&p, 5),
        vec![ColumnType::Date, ColumnType::Time, ColumnType::Int4, ColumnType::Date, ColumnType::Time]
    );
}

#[test]
fn single_insert_checks() {
    assert_eq!(check_single_insert(1), Ok(()));
    assert_eq!(check_single_insert(0), Err(Error::InsertUnsuccessfulError(0, 1)));
    assert_eq!(check_single_insert(2), Err(Error::InsertUnsuccessfulError(2, 1)));
}

#[test]
fn bulk_insert_checks() {
    assert_eq!(check_bulk_insert(3, 3), Ok(()));
    assert_eq!(check_bulk_insert(0, 0), Ok(()));
    assert_eq!(check_bulk_insert(1, 3), Err(Error::InsertUnsuccessfulError(1, 2)));
}

#[test]
fn unique_violation_codes() {
    assert!(is_unique_violation(Some("23505")));
    assert!(!is_unique_violation(Some("23503")));
    assert!(!is_unique_violation(Some("235050")));
    assert!(!is_unique_violation(None));
}

#[test]
fn decimal_numerals() {
    assert_eq!(decimal_string(0), "0");
    assert_eq!(decimal_string(7), "7");
    assert_eq!(decimal_string(10), "10");
    assert_eq!(decimal_string(1234567890), "1234567890");
    assert_eq!(decimal_string(u64::MAX), u64::MAX.to_string());
}

#[test]
fn error_messages() {
    assert_eq!(Error::WrongCredentialsError.message(), "wrong credentials");
    assert_eq!(Error::JWTExpiredError.message(), "jwt expired error");
    assert_eq!(Error::NoAuthHeaderError.message(), "no auth header");
    assert_eq!(Error::InvalidAuthHeaderError.message(), "invalid auth header");
    assert_eq!(Error::NoPermissionError.message(), "no permission");
    assert_eq!(Error::ParseError.message(), "parse error");
    assert_eq!(
        Error::InsertUnsuccessfulError(3, 12).message(),
        "db insert unsuccessful, succeeded: 3 failed: 12"
    );
    assert_eq!(Error::DuplicateAttendanceError.message(), "attendance already exists");
}
