//! SQL text and statement bookkeeping for the employee store: the text of
//! multi-row inserts, the column types bound to their parameters, and the
//! checks made on what the database reports back.

use vstd::prelude::*;

use crate::error::Error;
use crate::text::{decimal, push_decimal, push_str, string_from_chars};

verus! {

/// The column types that the statements of this service bind.
#[derive(Clone, Copy, Debug, PartialEq, Eq, Structural)]
pub enum ColumnType {
    Uuid,
    Text,
    Date,
    Time,
    Int4,
}

/// `"$n"`: the placeholder for parameter number `n`.
pub open spec fn placeholder(n: nat) -> Seq<char> {
    seq!['$'] + decimal(n)
}

/// The first `k` placeholders of a row that starts at parameter `first`,
/// each followed by `", "`.
pub open spec fn leading_placeholders(first: nat, k: nat) -> Seq<char>
    decreases k,
{
    if k == 0 {
        Seq::empty()
    } else {
        leading_placeholders(first, (k - 1) as nat) + placeholder((first + k - 1) as nat) + seq![',', ' ']
    }
}

/// `" ($first, ..., $last),"`: one row of `width` placeholders starting at
/// parameter `first`, with its trailing comma.
pub open spec fn row_text(first: nat, width: nat) -> Seq<char> {
    seq![' ', '('] + leading_placeholders(first, (width - 1) as nat) + placeholder(
        (first + width - 1) as nat,
    ) + seq![')', ',']
}

/// The rows of a multi-row insert: row `i` (from 0) holds parameters
/// `1 + i * width` to `(i + 1) * width`.
pub open spec fn rows_text(rows: nat, width: nat) -> Seq<char>
    decreases rows,
{
    if rows == 0 {
        Seq::empty()
    } else {
        rows_text((rows - 1) as nat, width) + row_text((1 + (rows - 1) * width) as nat, width)
    }
}

/// The text of an insert of `rows` rows of `width` parameters each: the
/// prefix, the rows, and the last character dropped (the trailing comma of
/// the last row; with no rows, the last character of the prefix).
pub open spec fn insert_text(prefix: Seq<char>, rows: nat, width: nat) -> Seq<char> {
    (prefix + rows_text(rows, width)).drop_last()
}

proof fn lemma_row_start(i: nat, width: nat)
    ensures
        1 + (i + 1) * width == 1 + i * width + width,
{
    assert((i + 1) * width == i * width + width) by (nonlinear_arith);
}

proof fn lemma_row_bound(i: nat, rows: nat, width: nat)
    requires
        i < rows,
    ensures
        (i + 1) * width <= rows * width,
{
    assert((i + 1) * width <= rows * width) by (nonlinear_arith)
        requires
            i + 1 <= rows,
    ;
}

/// Builds the text of a multi-row insert: `prefix`, then for each row
/// `" ($a, $b, ...),"` with the parameters numbered on from 1, and the last
/// character removed.
pub fn insert_query(prefix: &str, rows: usize, width: usize) -> (q: String)
    requires
        prefix@.len() > 0,
        width >= 1,
        rows * width < usize::MAX,
    ensures
        q@ == insert_text(prefix@, rows as nat, width as nat),
{
    let mut out: Vec<char> = Vec::new();
    push_str(&mut out, prefix);
    let mut count: usize = 1;
    let mut i: usize = 0;
    while i < rows
        invariant
            i <= rows,
            width >= 1,
            rows * width < usize::MAX,
            count == 1 + i * width,
            out@ == prefix@ + rows_text(i as nat, width as nat),
        decreases rows - i,
    {
        proof {
            lemma_row_bound(i as nat, rows as nat, width as nat);
            lemma_row_start(i as nat, width as nat);
        }
        let ghost first = count as nat;
        let ghost before = out@;
        out.push(' ');
        out.push('(');
        let mut k: usize = 0;
        while k + 1 < width
            invariant
                k + 1 <= width,
                count == first + k,
                first + width <= usize::MAX,
                out@ == before + seq![' ', '('] + leading_placeholders(first, k as nat),
            decreases width - k,
        {
            out.push('$');
            push_decimal(&mut out, count as u64);
            out.push(',');
            out.push(' ');
            count = count + 1;
            k = k + 1;
        }
        out.push('$');
        push_decimal(&mut out, count as u64);
        out.push(')');
        out.push(',');
        count = count + 1;
        assert(out@ == before + row_text(first, width as nat));
        assert(out@ == prefix@ + rows_text((i + 1) as nat, width as nat));
        i = i + 1;
    }
    out.pop();
    string_from_chars(out.as_slice())
}


/// The start of a multi-row insert into the designation table.
pub const DESIGNATION_INSERT_PREFIX: &'static str = "INSERT INTO DESIGNATION VALUES";

/// The start of a multi-row insert into the employee table.
pub const EMPLOYEE_INSERT_PREFIX: &'static str = "INSERT INTO EMPLOYEE VALUES";

/// Parameters per designation row: id, name.
pub const DESIGNATION_WIDTH: usize = 2;

/// Parameters per employee row: id, name, email, password, phone number,
/// date of birth, role, designation id, experience, address.
pub const EMPLOYEE_WIDTH: usize = 10;

/// The column types of a designation row, in order.
pub open spec fn designation_columns() -> Seq<ColumnType> {
    seq![ColumnType::Uuid, ColumnType::Text]
}

/// The column types of an employee row, in order.
pub open spec fn employee_columns() -> Seq<ColumnType> {
    seq![
        ColumnType::Uuid,
        ColumnType::Text,
        ColumnType::Text,
        ColumnType::Text,
        ColumnType::Text,
        ColumnType::Date,
        ColumnType::Text,
        ColumnType::Uuid,
        ColumnType::Int4,
        ColumnType::Text,
    ]
}

/// The text of an insert of `len` designations in one statement.
pub fn designation_insert_query(len: usize) -> (q: String)
    requires
        len * 2 < usize::MAX,
    ensures
        q@ == insert_text(DESIGNATION_INSERT_PREFIX@, len as nat, 2),
{
    proof {
        reveal_strlit("INSERT INTO DESIGNATION VALUES");
    }
    insert_query(DESIGNATION_INSERT_PREFIX, len, DESIGNATION_WIDTH)
}

/// The text of an insert of `len` employees in one statement.
pub fn employee_insert_query(len: usize) -> (q: String)
    requires
        len * 10 < usize::MAX,
    ensures
        q@ == insert_text(EMPLOYEE_INSERT_PREFIX@, len as nat, 10),
{
    proof {
        reveal_strlit("INSERT INTO EMPLOYEE VALUES");
    }
    insert_query(EMPLOYEE_INSERT_PREFIX, len, EMPLOYEE_WIDTH)
}

/// The first `n` elements of `pattern` repeated without end.
pub fn cycle_take(pattern: &[ColumnType], n: usize) -> (v: Vec<ColumnType>)
    requires
        pattern@.len() > 0,
    ensures
        v@.len() == n,
        forall|i: int| 0 <= i < n ==> v@[i] == pattern@[i % (pattern@.len() as int)],
{
    let p = pattern.len();
    let mut v: Vec<ColumnType> = Vec::new();
    let mut j: usize = 0;
    let mut i: usize = 0;
    while i < n
        invariant
            p == pattern@.len(),
            p > 0,
            i <= n,
            j < p,
            j == (i as int) % (p as int),
            v@.len() == i,
            forall|k: int| 0 <= k < i ==> v@[k] == pattern@[k % (p as int)],
        decreases n - i,
    {
        v.push(pattern[j]);
        proof {
            assert(((i + 1) as int) % (p as int) == if j + 1 == p { 0 } else { j + 1 }) by (nonlinear_arith)
                requires
                    j == (i as int) % (p as int),
                    j < p,
                    p > 0,
            {
                vstd::arithmetic::div_mod::lemma_fundamental_div_mod(i as int, p as int);
                vstd::arithmetic::div_mod::lemma_fundamental_div_mod((i + 1) as int, p as int);
            }
        }
        j = if j + 1 == p { 0 } else { j + 1 };
        i = i + 1;
    }
    v
}

/// The parameter types of an insert of `len` designations.
pub fn designation_param_types(len: usize) -> (v: Vec<ColumnType>)
    requires
        len * 2 <= usize::MAX,
    ensures
        v@.len() == 2 * len,
        forall|i: int| 0 <= i < 2 * len ==> v@[i] == designation_columns()[i % 2],
{
    let pattern = [ColumnType::Uuid, ColumnType::Text];
    assert(pattern@ == designation_columns());
    cycle_take(&pattern, 2 * len)
}

/// The parameter types of an insert of `len` employees.
pub fn employee_param_types(len: usize) -> (v: Vec<ColumnType>)
    requires
        len * 10 <= usize::MAX,
    ensures
        v@.len() == 10 * len,
        forall|i: int| 0 <= i < 10 * len ==> v@[i] == employee_columns()[i % 10],
{
    let pattern = [
        ColumnType::Uuid,
        ColumnType::Text,
        ColumnType::Text,
        ColumnType::Text,
        ColumnType::Text,
        ColumnType::Date,
        ColumnType::Text,
        ColumnType::Uuid,
        ColumnType::Int4,
        ColumnType::Text,
    ];
    assert(pattern@ == employee_columns());
    cycle_take(&pattern, 10 * len)
}

/// What a single-row insert that reported `stored` rows amounts to.
pub fn check_single_insert(stored: u64) -> (r: Result<(), Error>)
    ensures
        r == (if stored == 1 {
            Ok(())
        } else {
            Err(Error::InsertUnsuccessfulError(stored, 1))
        }),
{
    if stored != 1 {
        Err(Error::InsertUnsuccessfulError(stored, 1))
    } else {
        Ok(())
    }
}

/// What an insert of `len` rows that reported `stored` rows amounts to.
pub fn check_bulk_insert(stored: u64, len: u64) -> (r: Result<(), Error>)
    requires
        stored <= len,
    ensures
        r == (if stored == len {
            Ok(())
        } else {
            Err(Error::InsertUnsuccessfulError(stored, (len - stored) as u64))
        }),
{
    if stored != len {
        Err(Error::InsertUnsuccessfulError(stored, len - stored))
    } else {
        Ok(())
    }
}

/// The SQLSTATE of a unique-key violation.
pub const UNIQUE_VIOLATION: &'static str = "23505";

/// Whether a failed statement's SQLSTATE, if any, is a unique-key violation.
pub fn is_unique_violation(code: Option<&str>) -> (b: bool)
    ensures
        b == (code matches Some(c) && c@ == UNIQUE_VIOLATION@),
{
    match code {
        Some(c) => crate::text::str_eq(c, UNIQUE_VIOLATION),
        None => false,
    }
}

} // verus!
