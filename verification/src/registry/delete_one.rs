//! The result of deleting one row.

use vstd::prelude::*;

verus! {

/// How the deletion was run.
#[derive(Clone, Copy, Debug, PartialEq, Eq, Structural)]
pub enum DeleteStatement {
    /// The deleted row is returned.
    Returning,
    /// Only the number of deleted rows is returned.
    CountOnly,
}

/// What the database answered.
#[derive(Clone, Copy, Debug, PartialEq, Eq, Structural)]
pub enum DeleteAnswer {
    /// The rows that came back, and whether the first of them is null.
    Rows { count: usize, first_is_null: bool },
    /// The number of rows that were affected.
    Affected(u64),
}

/// The statement to run for a mutation that does or does not return the
/// row.
pub fn statement(mutation_is_returning: bool) -> (statement: DeleteStatement)
    ensures
        statement == if mutation_is_returning {
            DeleteStatement::Returning
        } else {
            DeleteStatement::CountOnly
        },
{
    if mutation_is_returning {
        DeleteStatement::Returning
    } else {
        DeleteStatement::CountOnly
    }
}

/// The `rowCount` of the result: for rows that came back, one if there is
/// a first row and it is not null, else zero; else the number of affected
/// rows.
pub fn row_count(answer: DeleteAnswer) -> (count: u64)
    ensures
        count == match answer {
            DeleteAnswer::Rows { count, first_is_null } => if count > 0 && !first_is_null {
                1u64
            } else {
                0u64
            },
            DeleteAnswer::Affected(rows) => rows,
        },
{
    match answer {
        DeleteAnswer::Rows { count, first_is_null } => {
            if count > 0 && !first_is_null {
                1
            } else {
                0
            }
        },
        DeleteAnswer::Affected(rows) => rows,
    }
}

} // verus!
