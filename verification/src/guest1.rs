//! The first guest component: one `run` export that returns a fixed message.

use vstd::prelude::*;

verus! {

/// The message that guest1's `run` export returns.
pub open spec fn run_message() -> Seq<char> {
    "guest1 run() called"@
}

/// The guest1 component; its exports are associated functions.
pub struct Guest1;

impl Guest1 {
    /// Entry point exported by the guest1 world: returns its fixed message.
    pub fn run() -> (message: String)
        ensures
            message@ == run_message(),
    {
        "guest1 run() called".to_owned()
    }
}

} // verus!
