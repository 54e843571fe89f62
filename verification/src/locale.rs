use vstd::prelude::*;

verus! {

/// The user-interface languages the editor ships with.
#[derive(Clone, Copy, Debug, PartialEq, Eq, Structural)]
pub enum Locale {
    /// Brazilian Portuguese.
    PtBr,
    /// English.
    En,
}

} // verus!
