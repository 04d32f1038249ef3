//! Login credentials of local users.

use vstd::prelude::*;

verus! {

/// How the local user `actor` logs in; an inactive user cannot log in yet.
#[derive(Debug, Clone)]
pub struct Model {
    pub internal: i64,
    pub actor: String,
    pub login: String,
    pub password: String,
    pub active: bool,
}

} // verus!
