//! The one request that the program makes.

use vstd::prelude::*;

verus! {

/// The value of the `User-Agent` header that goes with every request.
pub const USER_AGENT: &'static str = "JustNesh";

/// The address of a user's public events.
pub open spec fn events_address(username: Seq<char>) -> Seq<char> {
    "https://api.github.com/users/"@ + username + "/events"@
}

/// The address to ask for a user's public events. The name goes into it as
/// it is.
pub fn events_url(username: &str) -> (url: String)
    requires
        username@.len() > 0,
    ensures
        url@ == events_address(username@),
{
    String::from_str("https://api.github.com/users/").concat(username).concat("/events")
}

} // verus!
