//! An operation behind basic authorization: it greets the one user it knows.

use crate::http::STATUS_UNAUTHORIZED;
use crate::payload::plain_text::PlainText;
use crate::text::str_eq;
use vstd::prelude::*;
use vstd::string::*;

verus! {

/// Whether the credentials are those of the user that the operation knows.
pub open spec fn known_user(username: Seq<char>, password: Seq<char>) -> bool {
    username == "test"@ && password == "123456"@
}

/// Greets the user by name where the credentials are the known ones, and
/// answers with the status 401 where they are not.
pub fn auth_basic(username: &str, password: &str) -> (r: Result<PlainText<String>, u16>)
    ensures
        known_user(username@, password@) ==> (r matches Ok(greeting) && greeting.0@ == "hello: "@
            + username@),
        !known_user(username@, password@) ==> r == Err::<PlainText<String>, u16>(
            STATUS_UNAUTHORIZED,
        ),
{
    if !str_eq(username, "test") || !str_eq(password, "123456") {
        return Err(STATUS_UNAUTHORIZED);
    }
    let mut greeting = String::from_str("hello: ");
    greeting.append(username);
    Ok(PlainText(greeting))
}

} // verus!
