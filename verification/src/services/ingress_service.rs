use vstd::prelude::*;
use vstd::string::StringExecFns;

verus! {

/// The answer to a request that deleted the ingress `name`.
pub fn deleted_message(name: &str) -> (message: String)
    ensures
        message@ == "delete ingress: "@ + name@,
{
    String::from_str("delete ingress: ").concat(name)
}

} // verus!
