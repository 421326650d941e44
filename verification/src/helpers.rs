//! Input validation: role membership and the minimum shape of usernames and
//! passwords. Pure predicates, checked before anything else runs.

use vstd::prelude::*;
use vstd::string::StrSliceExecFns;
use vstd::string::StringExecFns;

verus! {

/// A role is valid iff it is one of the two enumerated roles.
pub open spec fn valid_role(role: Seq<char>) -> bool {
    role == "team_manager"@ || role == "insurance"@
}

/// A username is valid iff it is longer than three characters.
pub open spec fn valid_username(username: Seq<char>) -> bool {
    username.len() > 3
}

/// A password is valid iff it is longer than three characters.
pub open spec fn valid_password(password: Seq<char>) -> bool {
    password.len() > 3
}

pub fn is_valid_user_role(role: &str) -> (r: bool)
    ensures
        r == valid_role(role@),
{
    let owned = role.to_owned();
    owned == String::from_str("team_manager") || owned == String::from_str("insurance")
}

pub fn is_valid_username(username: &str) -> (r: bool)
    ensures
        r == valid_username(username@),
{
    username.unicode_len() > 3
}

pub fn is_valid_password(password: &str) -> (r: bool)
    ensures
        r == valid_password(password@),
{
    password.unicode_len() > 3
}

} // verus!
