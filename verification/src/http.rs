//! Wire-level reply values handed back to the web layer.

use vstd::prelude::*;

verus! {

/// A fully determined HTTP reply: a status code and a body.
///
/// The web layer turns this into a transport response verbatim; the library
/// decides both fields, so the HTTP-visible behaviour is fixed here.
pub struct HttpReply {
    pub status: u16,
    pub body: String,
}

/// Health-check endpoint body: a static message with status 200.
pub fn handle_echo() -> (r: HttpReply)
    ensures
        r.status == 200,
        r.body@ == "Server working"@,
{
    HttpReply { status: 200, body: "Server working".to_owned() }
}

} // verus!
