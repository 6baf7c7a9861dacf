//! The controller a client runs when it has none of its own.
use vstd::prelude::*;

verus! {

/// A controller that knows no command: every call to it fails with "not found
/// cmd tag".
pub struct DefaultController;

impl Default for DefaultController {
    fn default() -> (c: DefaultController) {
        DefaultController
    }
}

} // verus!
