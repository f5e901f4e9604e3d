//! The command line that the overlay understands.

use vstd::prelude::*;
use vstd::string::StringExecFns;

verus! {

/// Argument that asks the overlay to show or hide itself.
pub const TOGGLE_OVERLAY_CLI_ARG: &'static str = "--toggle-overlay";

/// Whether one of `args` is [`TOGGLE_OVERLAY_CLI_ARG`].
pub open spec fn requests_overlay_toggle(args: Seq<String>) -> bool {
    exists|i: int| 0 <= i < args.len() && (#[trigger] args[i])@ == TOGGLE_OVERLAY_CLI_ARG@
}

/// Whether the arguments of a launch ask to toggle the overlay. It makes no
/// difference whether the launch is this process or a second one that handed
/// its arguments over.
pub fn args_request_overlay_toggle(args: &[String]) -> (r: bool)
    ensures
        r == requests_overlay_toggle(args@),
{
    let wanted = String::from_str(TOGGLE_OVERLAY_CLI_ARG);
    let mut i: usize = 0;
    while i < args.len()
        invariant
            i <= args@.len(),
            wanted@ == TOGGLE_OVERLAY_CLI_ARG@,
            forall|k: int| 0 <= k < i ==> (#[trigger] args@[k])@ != TOGGLE_OVERLAY_CLI_ARG@,
        decreases args@.len() - i,
    {
        if args[i] == wanted {
            return true;
        }
        i = i + 1;
    }
    false
}

} // verus!
