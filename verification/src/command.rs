//! The command a single invocation of the tool carries out: parsed once
//! from the process arguments, immutable for the run.

use vstd::prelude::*;

verus! {

/// The four verbs of the tool. `Use` carries the version to pin,
/// unvalidated; `Install` carries the LTS flag and an optional explicit
/// version, of which the flag takes precedence.
#[derive(Debug, Clone, PartialEq, Eq)]
pub enum Command {
    Current,
    List,
    Use { version: String },
    Install { lts: bool, version: Option<String> },
}

} // verus!
