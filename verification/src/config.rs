use vstd::prelude::*;

verus! {

/// The learner's account, as read from the configuration file.
#[derive(Debug, Clone, PartialEq, Eq)]
pub struct Config {
    pub username: String,
    pub password: String,
}

} // verus!
