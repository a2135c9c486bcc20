use vstd::prelude::*;
use vstd::string::StringExecFns;

verus! {

/// The one request method that the plugin answers.
pub const INITIALIZE_METHOD: &'static str = "initialize";

/// Whether a request with this method name starts the server resolution.
/// Every other method is ignored: it leads to no resolution and no launch.
pub fn is_initialize(method: &str) -> (r: bool)
    ensures
        r == (method@ == INITIALIZE_METHOD@),
{
    String::from_str(method) == String::from_str(INITIALIZE_METHOD)
}

} // verus!
