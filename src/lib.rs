//! A stable, read-only view of a host toolchain's syntax tree and semantic types,
//! handed to independently built analysis checks, together with the context
//! through which checks resolve ids and emit diagnostics, and the fixed order in
//! which the host drives every check over one compilation unit.
use vstd::prelude::*;
use vstd::string::*;

pub mod body;
pub mod checks;
pub mod common;
pub mod context;
pub mod callable;
pub mod ffi;
pub mod generic;
pub mod item;
pub mod lint_pass;
pub mod table_host;
pub mod ty;

verus! {

/// The revision of this interface. A host and a check work together only
/// where both were built against the same revision.
pub const MARKER_API_VERSION: &'static str = "0.1.0";

/// Whether a host and a check built against the given revisions may work
/// together: the two strings must be equal.
pub fn versions_compatible(host: &str, check: &str) -> (r: bool)
    ensures
        r == (host@ == check@),
{
    let h = host.to_owned();
    let c = check.to_owned();
    h == c
}

/// Blocks hand construction of enum variants that wrap other node kinds, much
/// like `#[non_exhaustive]` does for whole types. Checks can ignore it: it holds
/// no information about the analysed program.
#[derive(Clone, Copy, Debug)]
#[non_exhaustive]
pub struct CtorBlocker {
    data: u8,
}

impl CtorBlocker {
    /// The byte the blocker carries so that it has a layout of its own.
    pub closed spec fn spec_data(&self) -> u8 {
        self.data
    }

    /// The one value of the blocker; only the host creates it.
    pub fn new() -> (r: CtorBlocker)
        ensures
            r.spec_data() == 255,
    {
        CtorBlocker { data: 255 }
    }

    /// The text of the blocker, `..`: it stands for nothing of the program.
    pub fn to_string(&self) -> (r: String)
        ensures
            r@ == ".."@,
    {
        String::from_str("..")
    }
}

} // verus!
