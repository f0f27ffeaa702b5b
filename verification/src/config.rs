use vstd::prelude::*;

verus! {

/// Session configuration: the credential the chat transport needs.
/// Loading it from the process environment is the shell's job; the
/// library only carries the value.
pub struct Config {
    pub api_key: String,
}

impl Config {
    pub fn new(api_key: String) -> (c: Config)
        ensures
            c.api_key@ == api_key@,
    {
        Config { api_key }
    }
}

} // verus!
