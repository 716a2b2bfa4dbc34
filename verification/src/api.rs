//! The pure side of the remote interface: the service's base URL and the
//! reading of a failed response's body.  The transport itself lives
//! outside the library and hands these functions plain values.

use vstd::prelude::*;

verus! {

/// The structured error body a failed remote call may carry.
pub struct ErrorResponse {
    pub timestamp: String,
    pub status: i32,
    pub error: String,
    pub message: String,
    pub path: String,
}

/// The address every request starts from.
pub fn get_base_url() -> (r: String)
    ensures
        r@ == "https://start.spring.io/"@,
{
    "https://start.spring.io/".to_owned()
}

/// The detail a failed response contributes to an error message: the
/// structured body's message where one parsed, the raw text otherwise.
pub fn failure_detail(parsed: Option<ErrorResponse>, raw: String) -> (r: String)
    ensures
        r@ == (match parsed {
            Option::Some(e) => e.message@,
            Option::None => raw@,
        }),
{
    match parsed {
        Option::Some(e) => e.message,
        Option::None => raw,
    }
}

} // verus!
