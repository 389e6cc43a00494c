//! Interpretation of executed statements: the repository's three
//! operations, classifying every outcome of the statements the SQL module
//! builds.
//!
//! The web layer executes a statement against a borrowed pooled connection
//! and hands back either the result set, as plain rows, or the driver's
//! failure diagnostic; the functions here decide what each operation
//! returns for every such outcome.

use vstd::prelude::*;

use crate::errors::MyError;
use crate::models::{spec_map_row, spec_missing_field, DbRow, User};

verus! {

/// What executing a statement produced: the rows of the result set, or the
/// driver's failure diagnostic.
pub enum DbOutcome {
    Rows(Vec<DbRow>),
    Failure(String),
}

/// The first canonical column missing from the first row that fails to map,
/// scanning the result set in order.
pub open spec fn spec_first_unmappable(rows: Seq<DbRow>) -> Option<Seq<char>>
    decreases rows.len(),
{
    if rows.len() == 0 {
        None
    } else if spec_map_row(rows[0]@) is None {
        spec_missing_field(rows[0]@)
    } else {
        spec_first_unmappable(rows.drop_first())
    }
}

/// What a single-record operation returns for each outcome: the first row
/// of the result set mapped to a record; `NotFound` on an empty result set;
/// `PGError` carrying the diagnostic on an execution failure; `PGMError`
/// naming the first missing canonical column if the row does not map.
pub open spec fn spec_single_record_result(
    outcome: DbOutcome,
    r: Result<User, MyError>,
) -> bool {
    &&& (outcome matches DbOutcome::Failure(m) ==> (r matches Err(e) && e
        matches MyError::PGError(d) && d@ == m@))
    &&& (outcome matches DbOutcome::Rows(rows) ==> {
        &&& (rows@.len() == 0 ==> (r matches Err(e) && e is NotFound))
        &&& (rows@.len() > 0 ==> (match spec_map_row(rows@[0]@) {
            Some(u) => r matches Ok(rec) && rec@ == u,
            None => r matches Err(e) && e matches MyError::PGMError(m) && Some(m@)
                == spec_missing_field(rows@[0]@),
        }))
    })
}

/// Decides a single-record operation; shared by the insert and the
/// lookup-by-identifier, which differ only in the statement they execute.
fn single_record(outcome: DbOutcome) -> (r: Result<User, MyError>)
    ensures
        spec_single_record_result(outcome, r),
{
    match outcome {
        DbOutcome::Failure(m) => Err(MyError::PGError(m)),
        DbOutcome::Rows(rows) => {
            if rows.len() == 0 {
                Err(MyError::NotFound)
            } else {
                User::from_row(&rows[0])
            }
        },
    }
}

/// Interprets the result of the INSERT built by the SQL module. Exactly one
/// echoed row is expected, and its mapping is the created record; an empty
/// result set is `NotFound`.
pub fn add_user(outcome: DbOutcome) -> (r: Result<User, MyError>)
    ensures
        spec_single_record_result(outcome, r),
{
    single_record(outcome)
}

/// Interprets the result of the SELECT-by-identifier built by the SQL
/// module. At most one row is expected; defensively, the first row is
/// taken. Zero rows is `NotFound`.
pub fn get_user_by_id(outcome: DbOutcome) -> (r: Result<User, MyError>)
    ensures
        spec_single_record_result(outcome, r),
{
    single_record(outcome)
}

/// Interprets the result of the SELECT over all rows: every row is mapped,
/// in order; an empty result set is the valid empty listing, never an
/// error. An execution failure is `PGError`; a row that does not map is
/// `PGMError` naming the first missing canonical column.
#[verifier::loop_isolation(false)]
pub fn get_users(outcome: DbOutcome) -> (r: Result<Vec<User>, MyError>)
    ensures
        (outcome matches DbOutcome::Failure(m) ==> (r matches Err(e) && e
            matches MyError::PGError(d) && d@ == m@)),
        (outcome matches DbOutcome::Rows(rows) ==> {
            &&& ((r is Ok) <==> (forall|j: int|
                0 <= j < rows@.len() ==> spec_map_row(rows@[j]@) is Some))
            &&& (r matches Ok(out) ==> out@.len() == rows@.len() && (forall|j: int|
                0 <= j < rows@.len() ==> spec_map_row(rows@[j]@) == Some(out@[j]@)))
            &&& (r matches Err(e) ==> (e matches MyError::PGMError(m) && Some(m@)
                == spec_first_unmappable(rows@)))
        }),
{
    match outcome {
        DbOutcome::Failure(m) => Err(MyError::PGError(m)),
        DbOutcome::Rows(rows) => {
            let n = rows.len();
            let mut out: Vec<User> = Vec::new();
            let mut i: usize = 0;
            proof {
                assert(rows@.skip(0) =~= rows@);
            }
            while i < n
                invariant
                    n == rows@.len(),
                    0 <= i <= n,
                    out@.len() == i,
                    forall|j: int| 0 <= j < i ==> spec_map_row(rows@[j]@) == Some(out@[j]@),
                    spec_first_unmappable(rows@) == spec_first_unmappable(rows@.skip(i as int)),
                decreases n - i,
            {
                proof {
                    assert(rows@.skip(i as int)[0] == rows@[i as int]);
                }
                match User::from_row(&rows[i]) {
                    Ok(u) => {
                        out.push(u);
                        proof {
                            assert(rows@.skip(i as int).drop_first() =~= rows@.skip(i as int + 1));
                        }
                        i += 1;
                    },
                    Err(e) => {
                        return Err(e);
                    },
                }
            }
            proof {
                assert(rows@.skip(n as int) =~= Seq::<DbRow>::empty());
            }
            Ok(out)
        },
    }
}

} // verus!
