//! A zome whose initialisation always fails: a fixture for tests of what a
//! conductor does with an app that cannot be set up.

use vstd::prelude::*;
use vstd::string::*;

verus! {

/// What a zome knows of itself when it runs.
#[derive(Clone, Debug, PartialEq, Eq)]
pub struct ZomeGlobals {
    pub zome_name: String,
}

/// What the initialisation of a zome comes to.
#[derive(Clone, Debug, PartialEq, Eq)]
pub enum InitCallbackResult {
    /// The zome is ready.
    Pass,
    /// The zome named here cannot be used, for the reason given.
    Fail(String, String),
}

/// The initialisation callback: it fails, whatever the zome, and names the
/// zome that it ran in.
pub fn init(globals: ZomeGlobals) -> (r: InitCallbackResult)
    ensures
        r matches InitCallbackResult::Fail(zome_name, reason) && zome_name == globals.zome_name
            && reason@ == "because i said so"@,
{
    InitCallbackResult::Fail(globals.zome_name, String::from_str("because i said so"))
}

} // verus!
