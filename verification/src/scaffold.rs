//! Direct scaffolding: the fixed, ordered plan of files and directories the
//! provisioner writes when both initializers fail, and the classification of
//! the dependency installation that closes the plan.  Any failure inside the
//! plan is fatal and names the failing sub-step.

use vstd::prelude::*;
use vstd::string::StringExecFns;

use crate::outcome::RunResult;
use crate::strutil::concat2;

verus! {

/// What one scaffold step asks the shell to do inside the project directory.
#[derive(Clone, Copy, PartialEq, Eq, Structural, Debug)]
pub enum ScaffoldAction {
    WriteFile,
    CreateDir,
    InstallDeps,
}

/// One step of the scaffold plan: the action, its target path relative to the
/// project directory, the full contents for a file write, and the text that
/// opens the fatal message should the step fail.
pub struct ScaffoldStep {
    pub action: ScaffoldAction,
    pub target: String,
    pub contents: String,
    pub failure_prefix: String,
}

/// The fixed project manifest the fallback writes.
pub open spec fn package_json_view() -> Seq<char> {
    r#"{
  "name": "hardhat-project",
  "version": "1.0.0",
  "description": "A Hardhat project created by Hardhat GUI",
  "scripts": {
    "test": "npx hardhat test"
  },
  "devDependencies": {
    "@nomicfoundation/hardhat-toolbox": "^5.0.0",
    "hardhat": "^2.22.0"
  }
}
"#@
}

/// The fixed toolchain configuration pointing at the local network endpoint.
pub open spec fn hardhat_config_view() -> Seq<char> {
    r#"require("@nomicfoundation/hardhat-toolbox");

/** @type import('hardhat/config').HardhatUserConfig */
module.exports = {
  solidity: "0.8.24",
  networks: {
    localhost: {
      url: "http://127.0.0.1:8545"
    }
  }
};
"#@
}

/// The example contract source the fallback writes.
pub open spec fn example_contract_view() -> Seq<char> {
    r#"// SPDX-License-Identifier: MIT
pragma solidity ^0.8.24;

contract Lock {
    uint public unlockTime;
    address payable public owner;

    event Withdrawal(uint amount, uint when);

    constructor(uint _unlockTime) payable {
        require(
            block.timestamp < _unlockTime,
            "Unlock time should be in the future"
        );

        unlockTime = _unlockTime;
        owner = payable(msg.sender);
    }

    function withdraw() public {
        require(block.timestamp >= unlockTime, "You can't withdraw yet");
        require(msg.sender == owner, "You aren't the owner");

        emit Withdrawal(address(this).balance, block.timestamp);

        owner.transfer(address(this).balance);
    }
}
"#@
}

/// The fixed project manifest, as written to disk.
pub fn package_json_text() -> (r: &'static str)
    ensures
        r@ == package_json_view(),
{
    r#"{
  "name": "hardhat-project",
  "version": "1.0.0",
  "description": "A Hardhat project created by Hardhat GUI",
  "scripts": {
    "test": "npx hardhat test"
  },
  "devDependencies": {
    "@nomicfoundation/hardhat-toolbox": "^5.0.0",
    "hardhat": "^2.22.0"
  }
}
"#
}

/// The fixed toolchain configuration, as written to disk.
pub fn hardhat_config_text() -> (r: &'static str)
    ensures
        r@ == hardhat_config_view(),
{
    r#"require("@nomicfoundation/hardhat-toolbox");

/** @type import('hardhat/config').HardhatUserConfig */
module.exports = {
  solidity: "0.8.24",
  networks: {
    localhost: {
      url: "http://127.0.0.1:8545"
    }
  }
};
"#
}

/// The example contract source, as written to disk.
pub fn example_contract_text() -> (r: &'static str)
    ensures
        r@ == example_contract_view(),
{
    r#"// SPDX-License-Identifier: MIT
pragma solidity ^0.8.24;

contract Lock {
    uint public unlockTime;
    address payable public owner;

    event Withdrawal(uint amount, uint when);

    constructor(uint _unlockTime) payable {
        require(
            block.timestamp < _unlockTime,
            "Unlock time should be in the future"
        );

        unlockTime = _unlockTime;
        owner = payable(msg.sender);
    }

    function withdraw() public {
        require(block.timestamp >= unlockTime, "You can't withdraw yet");
        require(msg.sender == owner, "You aren't the owner");

        emit Withdrawal(address(this).balance, block.timestamp);

        owner.transfer(address(this).balance);
    }
}
"#
}

fn write_step(target: &str, contents: &str, failure_prefix: &str) -> (s: ScaffoldStep)
    ensures
        s.action == ScaffoldAction::WriteFile,
        s.target@ == target@,
        s.contents@ == contents@,
        s.failure_prefix@ == failure_prefix@,
{
    ScaffoldStep {
        action: ScaffoldAction::WriteFile,
        target: String::from_str(target),
        contents: String::from_str(contents),
        failure_prefix: String::from_str(failure_prefix),
    }
}

fn dir_step(target: &str, failure_prefix: &str) -> (s: ScaffoldStep)
    ensures
        s.action == ScaffoldAction::CreateDir,
        s.target@ == target@,
        s.contents@.len() == 0,
        s.failure_prefix@ == failure_prefix@,
{
    ScaffoldStep {
        action: ScaffoldAction::CreateDir,
        target: String::from_str(target),
        contents: String::new(),
        failure_prefix: String::from_str(failure_prefix),
    }
}

/// The scaffold plan, in the fixed order the shell must attempt it: the
/// manifest, the configuration, the contract sources directory and its
/// example contract, the empty test and script directories, and finally the
/// dependency installation.
pub fn scaffold_plan() -> (v: Vec<ScaffoldStep>)
    ensures
        v@.len() == 7,
        v@[0].action == ScaffoldAction::WriteFile,
        v@[0].target@ == "package.json"@,
        v@[0].contents@ == package_json_view(),
        v@[0].failure_prefix@ == "Failed to create package.json: "@,
        v@[1].action == ScaffoldAction::WriteFile,
        v@[1].target@ == "hardhat.config.js"@,
        v@[1].contents@ == hardhat_config_view(),
        v@[1].failure_prefix@ == "Failed to create hardhat.config.js: "@,
        v@[2].action == ScaffoldAction::CreateDir,
        v@[2].target@ == "contracts"@,
        v@[2].failure_prefix@ == "Failed to create contracts directory: "@,
        v@[3].action == ScaffoldAction::WriteFile,
        v@[3].target@ == "contracts/Lock.sol"@,
        v@[3].contents@ == example_contract_view(),
        v@[3].failure_prefix@ == "Failed to create Lock.sol: "@,
        v@[4].action == ScaffoldAction::CreateDir,
        v@[4].target@ == "test"@,
        v@[4].failure_prefix@ == "Failed to create test directory: "@,
        v@[5].action == ScaffoldAction::CreateDir,
        v@[5].target@ == "scripts"@,
        v@[5].failure_prefix@ == "Failed to create scripts directory: "@,
        v@[6].action == ScaffoldAction::InstallDeps,
        v@[6].target@.len() == 0,
        v@[6].failure_prefix@ == "Failed to install dependencies: "@,
{
    let mut v: Vec<ScaffoldStep> = Vec::new();
    v.push(write_step("package.json", package_json_text(), "Failed to create package.json: "));
    v.push(
        write_step(
            "hardhat.config.js",
            hardhat_config_text(),
            "Failed to create hardhat.config.js: ",
        ),
    );
    v.push(dir_step("contracts", "Failed to create contracts directory: "));
    v.push(
        write_step("contracts/Lock.sol", example_contract_text(), "Failed to create Lock.sol: "),
    );
    v.push(dir_step("test", "Failed to create test directory: "));
    v.push(dir_step("scripts", "Failed to create scripts directory: "));
    v.push(
        ScaffoldStep {
            action: ScaffoldAction::InstallDeps,
            target: String::new(),
            contents: String::new(),
            failure_prefix: String::from_str("Failed to install dependencies: "),
        },
    );
    v
}

/// Builds the fatal message for a scaffold step that failed with `detail`.
pub fn scaffold_failure(step: &ScaffoldStep, detail: &str) -> (r: String)
    ensures
        r@ == step.failure_prefix@ + detail@,
{
    concat2(step.failure_prefix.as_str(), detail)
}

/// The view of a unit-or-message result.
pub open spec fn unit_result_view(r: Result<(), String>) -> Result<(), Seq<char>> {
    match r {
        Ok(_) => Ok(()),
        Err(e) => Err(e@),
    }
}

/// What the dependency installation owes: a launch failure and a non-zero
/// exit are both fatal, carrying the failure detail.
pub open spec fn deps_install_view(r: RunResult) -> Result<(), Seq<char>> {
    match r {
        RunResult::LaunchFailed(e) => Err("Failed to install dependencies: "@ + e@),
        RunResult::Launched(o) => if o.success {
            Ok(())
        } else {
            Err("Failed to install dependencies: "@ + o.stderr@)
        },
    }
}

/// Classifies the dependency-installation run that ends the scaffold plan.
pub fn classify_deps_install(r: &RunResult) -> (out: Result<(), String>)
    ensures
        unit_result_view(out) == deps_install_view(*r),
{
    match r {
        RunResult::LaunchFailed(e) => Err(
            concat2("Failed to install dependencies: ", e.as_str()),
        ),
        RunResult::Launched(o) => if o.success {
            Ok(())
        } else {
            Err(concat2("Failed to install dependencies: ", o.stderr.as_str()))
        },
    }
}

} // verus!
