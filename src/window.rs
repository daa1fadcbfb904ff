use vstd::prelude::*;

verus! {

/// How the cursor behaves over a window.
#[derive(Clone, Copy, Debug, PartialEq, Eq, Structural)]
pub enum CursorMode {
    Normal,
    Hidden,
    /// Hidden and held in place, for relative motion.
    Disabled,
}

} // verus!
