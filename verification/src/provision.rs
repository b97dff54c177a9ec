//! Project provisioner: an ordered chain of creation strategies.  The target
//! directory is ensured first (fatal on failure); then the toolchain's own
//! initializer, then the quick-start initializer, each forced non-interactive;
//! then direct scaffolding of a fixed minimal project.  Each strategy either
//! fully succeeds, passes control to the next, or aborts — never a mix.  The
//! unverified shell performs each stage's side effects and feeds the result
//! back into the step functions below, which decide everything.

use vstd::prelude::*;
use vstd::string::StringExecFns;

use crate::outcome::RunResult;
use crate::outcome::run_success;
use crate::strutil::concat2;
use crate::strutil::concat3;
use crate::strutil::ends_with;

verus! {

/// The creation strategies a step can pass control to, in the fixed order
/// they are attempted.  Ensuring the target directory precedes them all and
/// is never returned to: its failure is fatal.
#[derive(Clone, Copy, PartialEq, Eq, Structural, Debug)]
pub enum ProvisionStage {
    PrimaryInit,
    QuickStart,
    Scaffold,
}

/// What a step decides: move on to a later stage, or stop with the
/// caller-visible result.
pub enum ProvisionNext {
    Continue(ProvisionStage),
    Finished(Result<String, String>),
}

/// The mathematical value of a step decision.
pub enum ProvisionNextView {
    Continue(ProvisionStage),
    Finished(Result<Seq<char>, Seq<char>>),
}

impl View for ProvisionNext {
    type V = ProvisionNextView;

    open spec fn view(&self) -> ProvisionNextView {
        match self {
            ProvisionNext::Continue(s) => ProvisionNextView::Continue(*s),
            ProvisionNext::Finished(r) => ProvisionNextView::Finished(
                match r {
                    Ok(m) => Ok(m@),
                    Err(e) => Err(e@),
                },
            ),
        }
    }
}

/// The message reported when an initializer created the project.
pub open spec fn success_message_view(path: Seq<char>) -> Seq<char> {
    "Hardhat project created successfully at "@ + path
}

/// The message reported when direct scaffolding created the project; it must
/// let the caller tell the fallback path from the primary one.
pub open spec fn fallback_message_view(path: Seq<char>) -> Seq<char> {
    success_message_view(path) + " (using fallback method)"@
}

/// What ensuring the target directory decides: a failure there is fatal,
/// since no strategy makes sense without a writable directory.
pub open spec fn dir_step_view(dir_error: Option<String>) -> ProvisionNextView {
    match dir_error {
        Some(e) => ProvisionNextView::Finished(Err("Failed to create directory: "@ + e@)),
        None => ProvisionNextView::Continue(ProvisionStage::PrimaryInit),
    }
}

/// What the primary initializer's run decides: a launch failure is fatal, a
/// non-zero exit passes control to the quick-start strategy.
pub open spec fn primary_init_step_view(path: Seq<char>, r: RunResult) -> ProvisionNextView {
    match r {
        RunResult::LaunchFailed(e) => ProvisionNextView::Finished(
            Err("Failed to execute hardhat init: "@ + e@),
        ),
        RunResult::Launched(o) => if o.success {
            ProvisionNextView::Finished(Ok(success_message_view(path)))
        } else {
            ProvisionNextView::Continue(ProvisionStage::QuickStart)
        },
    }
}

/// What the quick-start initializer's run decides: anything short of success
/// passes control to direct scaffolding.
pub open spec fn quick_start_step_view(path: Seq<char>, r: RunResult) -> ProvisionNextView {
    if run_success(r) {
        ProvisionNextView::Finished(Ok(success_message_view(path)))
    } else {
        ProvisionNextView::Continue(ProvisionStage::Scaffold)
    }
}

/// What the scaffolding outcome decides: its error, already naming the failed
/// sub-step, is passed through; success reports the fallback message.
pub open spec fn scaffold_step_view(path: Seq<char>, r: Result<(), String>) -> ProvisionNextView {
    match r {
        Ok(_) => ProvisionNextView::Finished(Ok(fallback_message_view(path))),
        Err(e) => ProvisionNextView::Finished(Err(e@)),
    }
}

/// Builds the primary-path success message.
pub fn success_message(path: &str) -> (r: String)
    ensures
        r@ == success_message_view(path@),
{
    concat2("Hardhat project created successfully at ", path)
}

/// Builds the fallback-path success message.
pub fn fallback_message(path: &str) -> (r: String)
    ensures
        r@ == fallback_message_view(path@),
{
    concat3("Hardhat project created successfully at ", path, " (using fallback method)")
}

/// Decides what follows the attempt to ensure the target directory.
pub fn after_dir_create(dir_error: &Option<String>) -> (r: ProvisionNext)
    ensures
        r@ == dir_step_view(*dir_error),
{
    match dir_error {
        Some(e) => ProvisionNext::Finished(Err(concat2("Failed to create directory: ", e.as_str()))),
        None => ProvisionNext::Continue(ProvisionStage::PrimaryInit),
    }
}

/// Decides what follows the primary initializer's run.
pub fn after_primary_init(path: &str, run: &RunResult) -> (r: ProvisionNext)
    ensures
        r@ == primary_init_step_view(path@, *run),
{
    match run {
        RunResult::LaunchFailed(e) => ProvisionNext::Finished(
            Err(concat2("Failed to execute hardhat init: ", e.as_str())),
        ),
        RunResult::Launched(o) => if o.success {
            ProvisionNext::Finished(Ok(success_message(path)))
        } else {
            ProvisionNext::Continue(ProvisionStage::QuickStart)
        },
    }
}

/// Decides what follows the quick-start initializer's run.
pub fn after_quick_start(path: &str, run: &RunResult) -> (r: ProvisionNext)
    ensures
        r@ == quick_start_step_view(path@, *run),
{
    match run {
        RunResult::Launched(o) => if o.success {
            ProvisionNext::Finished(Ok(success_message(path)))
        } else {
            ProvisionNext::Continue(ProvisionStage::Scaffold)
        },
        RunResult::LaunchFailed(_) => ProvisionNext::Continue(ProvisionStage::Scaffold),
    }
}

/// Decides what follows direct scaffolding.
pub fn after_scaffold(path: &str, scaffold: &Result<(), String>) -> (r: ProvisionNext)
    ensures
        r@ == scaffold_step_view(path@, *scaffold),
{
    match scaffold {
        Ok(_) => ProvisionNext::Finished(Ok(fallback_message(path))),
        Err(e) => ProvisionNext::Finished(Err(e.clone())),
    }
}

/// Law: with the directory ensured, both initializers failing recoverably,
/// and scaffolding succeeding, the chain walks its fixed order — primary,
/// quick-start, scaffold — and ends in success with a message that names the
/// fallback path.
pub proof fn lemma_fallback_chain(
    path: Seq<char>,
    dir_error: Option<String>,
    primary: RunResult,
    quick: RunResult,
    scaffold: Result<(), String>,
)
    requires
        dir_error is None,
        primary is Launched,
        !run_success(primary),
        !run_success(quick),
        scaffold is Ok,
    ensures
        dir_step_view(dir_error) == ProvisionNextView::Continue(ProvisionStage::PrimaryInit),
        primary_init_step_view(path, primary) == ProvisionNextView::Continue(
            ProvisionStage::QuickStart,
        ),
        quick_start_step_view(path, quick) == ProvisionNextView::Continue(
            ProvisionStage::Scaffold,
        ),
        scaffold_step_view(path, scaffold) == ProvisionNextView::Finished(
            Ok(fallback_message_view(path)),
        ),
        ends_with(fallback_message_view(path), " (using fallback method)"@),
{
    let m = fallback_message_view(path);
    let suffix = " (using fallback method)"@;
    assert(m.subrange(m.len() - suffix.len(), m.len() as int) =~= suffix);
}

/// Law: for any project path, the fallback-path message differs from the
/// primary-path message, so the caller can always tell which strategy won.
pub proof fn lemma_messages_distinguish(path: Seq<char>)
    ensures
        fallback_message_view(path) != success_message_view(path),
{
    reveal_strlit(" (using fallback method)");
    assert(fallback_message_view(path).len() == success_message_view(path).len() + 24);
}

} // verus!
