//! Error taxonomy of the data-access layer and its translation to
//! HTTP-visible replies.

use vstd::prelude::*;

use crate::http::HttpReply;

verus! {

/// Every failure the data-access layer can report, classified.
///
/// Lower layers return these typed errors; the only translation to
/// wire-level status codes is [`MyError::error_response`].
#[derive(Debug)]
pub enum MyError {
    /// A lookup, or an insert expected to echo its row back, yielded zero
    /// rows.
    NotFound,
    /// Statement execution failed; the payload carries the driver's
    /// diagnostic text.
    PGError(String),
    /// A result row could not be mapped to a record; the payload names the
    /// first canonical column that was missing.
    PGMError(String),
    /// A connection could not be acquired from the pool; the payload carries
    /// the pool's diagnostic text.
    PoolError(String),
    /// The request input could not be decoded; the payload carries the
    /// decoder's diagnostic text.
    DecodeError(String),
}

impl MyError {
    /// The HTTP status code owed to each error class: absent records are
    /// 404, undecodable input is 400, every backend fault is 500.
    pub open spec fn spec_status(&self) -> u16 {
        match self {
            MyError::NotFound => 404,
            MyError::PGError(_) => 500,
            MyError::PGMError(_) => 500,
            MyError::PoolError(_) => 500,
            MyError::DecodeError(_) => 400,
        }
    }

    /// Translates an error to its HTTP reply.
    ///
    /// Only a pool-acquisition failure echoes its diagnostic in the body, as
    /// an explicit aid when the backend is unreachable; no other internal
    /// detail reaches the client.
    pub fn error_response(&self) -> (r: HttpReply)
        ensures
            r.status == self.spec_status(),
            (*self matches MyError::PoolError(m) ==> r.body@ == m@),
            !(*self matches MyError::PoolError(_)) ==> r.body@ == Seq::<char>::empty(),
    {
        match self {
            MyError::NotFound => HttpReply { status: 404, body: String::new() },
            MyError::PoolError(m) => HttpReply { status: 500, body: m.clone() },
            MyError::PGError(_) => HttpReply { status: 500, body: String::new() },
            MyError::PGMError(_) => HttpReply { status: 500, body: String::new() },
            MyError::DecodeError(_) => HttpReply { status: 400, body: String::new() },
        }
    }
}

impl PartialEq for MyError {
    fn eq(&self, other: &MyError) -> (r: bool) {
        match (self, other) {
            (MyError::NotFound, MyError::NotFound) => true,
            (MyError::PGError(a), MyError::PGError(b)) => *a == *b,
            (MyError::PGMError(a), MyError::PGMError(b)) => *a == *b,
            (MyError::PoolError(a), MyError::PoolError(b)) => *a == *b,
            (MyError::DecodeError(a), MyError::DecodeError(b)) => *a == *b,
            _ => false,
        }
    }
}

impl vstd::std_specs::cmp::PartialEqSpecImpl for MyError {
    open spec fn obeys_eq_spec() -> bool {
        true
    }

    open spec fn eq_spec(&self, other: &MyError) -> bool {
        match (self, other) {
            (MyError::NotFound, MyError::NotFound) => true,
            (MyError::PGError(a), MyError::PGError(b)) => a@ == b@,
            (MyError::PGMError(a), MyError::PGMError(b)) => a@ == b@,
            (MyError::PoolError(a), MyError::PoolError(b)) => a@ == b@,
            (MyError::DecodeError(a), MyError::DecodeError(b)) => a@ == b@,
            _ => false,
        }
    }
}

} // verus!
