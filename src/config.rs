use vstd::prelude::*;

verus! {

/// The settings that a request is served with: the address of the store.
pub struct Configuration {
    pub mysql_address: String,
}

impl Configuration {
    /// A configuration for the store at `mysql_address`.
    pub fn new(mysql_address: String) -> (r: Configuration)
        ensures
            r.mysql_address == mysql_address,
    {
        Configuration { mysql_address }
    }
}

} // verus!
