//! Console script runner: wraps an opaque caller-supplied expression in a
//! generated driver script.  The expression is never parsed here; it is
//! embedded verbatim between a fixed prefix and suffix.  The script loads the
//! toolchain runtime, awaits the expression inside an async wrapper, and
//! serializes the result defensively — wide integers as strings with a
//! sentinel suffix, toolchain numeric wrappers with a type annotation,
//! address-bearing objects as signer descriptors, everything else as
//! indented JSON.  The shell writes the script to a fixed temporary name
//! inside the project, runs it, and removes it whatever the outcome.

use vstd::prelude::*;
use vstd::string::StringExecFns;

use crate::strutil::concat2;

verus! {

/// Everything in the driver script before the embedded expression.
pub open spec fn script_prefix_view() -> Seq<char> {
    r#"
const hre = require("hardhat");
const { ethers } = require("hardhat");

// Make provider available globally for easier access
const provider = hre.ethers.provider;

// Custom serializer to handle BigInt and other special types
function serializeResult(obj) {
    return JSON.stringify(obj, (key, value) => {
        if (typeof value === 'bigint') {
            return value.toString() + 'n';
        }
        if (value && typeof value === 'object' && value.constructor && value.constructor.name === 'BigNumber') {
            return value.toString() + ' (BigNumber)';
        }
        if (value && typeof value.address === 'string') {
            // Handle ethers Signer objects
            return {
                address: value.address,
                type: 'Signer'
            };
        }
        if (value && value._isBigNumber) {
            return value.toString() + ' (BigNumber)';
        }
        return value;
    }, 2);
}

async function main() {
    try {
        const result = await eval(`(async () => { "#@
}

/// Everything in the driver script after the embedded expression.
pub open spec fn script_suffix_view() -> Seq<char> {
    r#" })()`);
        if (result !== undefined) {
            if (typeof result === 'bigint') {
                console.log(result.toString());
            } else if (Array.isArray(result)) {
                console.log('Array with', result.length, 'items:');
                console.log(serializeResult(result));
            } else if (typeof result === 'object' && result !== null) {
                console.log(serializeResult(result));
            } else {
                console.log(result);
            }
        }
    } catch (error) {
        console.error("Error:", error.message);
        if (error.stack) {
            console.error("Stack:", error.stack);
        }
        process.exit(1);
    }
}

main().catch((error) => {
    console.error("Fatal error:", error.message);
    process.exit(1);
});
"#@
}

/// The driver script generated for `expression`.
pub open spec fn console_script_view(expression: Seq<char>) -> Seq<char> {
    script_prefix_view() + expression + script_suffix_view()
}

/// The prefix of the driver script, as written to disk.
pub fn script_prefix() -> (r: &'static str)
    ensures
        r@ == script_prefix_view(),
{
    r#"
const hre = require("hardhat");
const { ethers } = require("hardhat");

// Make provider available globally for easier access
const provider = hre.ethers.provider;

// Custom serializer to handle BigInt and other special types
function serializeResult(obj) {
    return JSON.stringify(obj, (key, value) => {
        if (typeof value === 'bigint') {
            return value.toString() + 'n';
        }
        if (value && typeof value === 'object' && value.constructor && value.constructor.name === 'BigNumber') {
            return value.toString() + ' (BigNumber)';
        }
        if (value && typeof value.address === 'string') {
            // Handle ethers Signer objects
            return {
                address: value.address,
                type: 'Signer'
            };
        }
        if (value && value._isBigNumber) {
            return value.toString() + ' (BigNumber)';
        }
        return value;
    }, 2);
}

async function main() {
    try {
        const result = await eval(`(async () => { "#
}

/// The suffix of the driver script, as written to disk.
pub fn script_suffix() -> (r: &'static str)
    ensures
        r@ == script_suffix_view(),
{
    r#" })()`);
        if (result !== undefined) {
            if (typeof result === 'bigint') {
                console.log(result.toString());
            } else if (Array.isArray(result)) {
                console.log('Array with', result.length, 'items:');
                console.log(serializeResult(result));
            } else if (typeof result === 'object' && result !== null) {
                console.log(serializeResult(result));
            } else {
                console.log(result);
            }
        }
    } catch (error) {
        console.error("Error:", error.message);
        if (error.stack) {
            console.error("Stack:", error.stack);
        }
        process.exit(1);
    }
}

main().catch((error) => {
    console.error("Fatal error:", error.message);
    process.exit(1);
});
"#
}

/// Builds the driver script: the expression verbatim between the fixed
/// prefix and suffix.
pub fn build_console_script(expression: &str) -> (r: String)
    ensures
        r@ == console_script_view(expression@),
{
    let mut r = String::from_str(script_prefix());
    r.append(expression);
    r.append(script_suffix());
    proof {
        assert(r@ =~= script_prefix_view() + expression@ + script_suffix_view());
    }
    r
}

/// The fixed temporary file name the driver script is written under, inside
/// the project directory.
pub fn temp_script_name() -> (r: &'static str)
    ensures
        r@ == "temp_console_script.js"@,
{
    "temp_console_script.js"
}

/// The full path of the temporary driver script for a project.
pub fn temp_script_path(project: &str) -> (r: String)
    ensures
        r@ == project@ + "/temp_console_script.js"@,
{
    concat2(project, "/temp_console_script.js")
}

/// The error reported when the driver script cannot be written; nothing runs
/// in that case.
pub fn script_write_error(detail: &str) -> (r: String)
    ensures
        r@ == "Failed to create temp script: "@ + detail@,
{
    concat2("Failed to create temp script: ", detail)
}

} // verus!
