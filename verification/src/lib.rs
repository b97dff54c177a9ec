//! Verified orchestration layer for a local Hardhat development toolchain.
//!
//! The crate holds the decision logic of a desktop backend that drives the
//! toolchain's command-line interface: probing installation state, detecting
//! projects, provisioning new projects through an ordered fallback chain,
//! classifying subprocess outcomes, deriving artifact paths, selecting
//! deployment modules, and templating console driver scripts.  All process,
//! filesystem and network work is left to an unverified outer shell, which
//! hands plain values in and takes plain values back.

use vstd::prelude::*;
use vstd::string::StringExecFns;

pub mod commands;
pub mod console;
pub mod contracts;
pub mod deploy;
pub mod outcome;
pub mod provision;
pub mod scaffold;
pub mod status;
pub mod strutil;
pub mod tasks;

verus! {

/// Builds the greeting shown by the frontend's demonstration command.
pub fn greet(name: &str) -> (r: String)
    ensures
        r@ == "Hello, "@ + name@ + "! You've been greeted from Rust!"@,
{
    let mut r = String::new();
    r.append("Hello, ");
    r.append(name);
    r.append("! You've been greeted from Rust!");
    proof {
        assert(r@ =~= "Hello, "@ + name@ + "! You've been greeted from Rust!"@);
    }
    r
}

} // verus!
