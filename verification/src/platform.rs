//! The operating-system family the shell runs on. The shutdown
//! escalation and the launch paths differ between the two.

use vstd::prelude::*;

verus! {

#[derive(Clone, Copy, Debug, PartialEq, Eq, Structural)]
pub enum Platform {
    Windows,
    Unix,
}

} // verus!
