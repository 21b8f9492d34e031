//! The capability every device offers: a stable name and a textual report of
//! its current state.

use vstd::prelude::*;

verus! {

/// A device has an immutable name and renders its state as one line of text.
/// Both are pinned by the spec functions, so callers know exactly which
/// characters each method returns.
pub trait Device {
    /// The device's name.
    spec fn spec_name(&self) -> Seq<char>;

    /// The report text for the device's current state.
    spec fn spec_report(&self) -> Seq<char>;

    /// Renders the current state; reading only, never mutating.
    fn report(&self) -> (r: String)
        ensures
            r@ == self.spec_report(),
    ;

    /// Returns the immutable identifier.
    fn get_name(&self) -> (r: &str)
        ensures
            r@ == self.spec_name(),
    ;
}

} // verus!
