//! Deployment precondition: before any subprocess is launched, a
//! deployment-modules directory must exist and hold at least one recognized
//! script file.  The first matching entry in the caller's enumeration order
//! is the one deployed; that order is the directory's own, not sorted.

use vstd::prelude::*;
use vstd::string::StrSliceExecFns;
use vstd::string::StringExecFns;

use crate::strutil::concat2;
use crate::strutil::concat3;
use crate::strutil::ends_with;
use crate::strutil::str_ends_with;
use crate::tasks::result_view;

verus! {

/// A file name is a deployment module iff it carries one of the two script
/// extensions over a non-empty stem.
pub open spec fn is_module_name(s: Seq<char>) -> bool {
    ||| s.len() > ".js"@.len() && ends_with(s, ".js"@)
    ||| s.len() > ".ts"@.len() && ends_with(s, ".ts"@)
}

/// The first deployment-module name in `names`, in the given order.
pub open spec fn first_module(names: Seq<Seq<char>>) -> Option<Seq<char>>
    decreases names.len(),
{
    if names.len() == 0 {
        None
    } else if is_module_name(names[0]) {
        Some(names[0])
    } else {
        first_module(names.drop_first())
    }
}

proof fn lemma_first_module_skip(names: Seq<Seq<char>>, i: int)
    requires
        0 <= i <= names.len(),
        forall|j: int| 0 <= j < i ==> !is_module_name(#[trigger] names[j]),
    ensures
        first_module(names) == first_module(names.subrange(i, names.len() as int)),
    decreases i,
{
    if i > 0 {
        let t = names.drop_first();
        assert(t =~= names.subrange(1, names.len() as int));
        assert(forall|j: int| 0 <= j < i - 1 ==> !is_module_name(#[trigger] t[j]));
        lemma_first_module_skip(t, i - 1);
        assert(t.subrange(i - 1, t.len() as int) =~= names.subrange(i, names.len() as int));
    } else {
        assert(names.subrange(0, names.len() as int) =~= names);
    }
}

/// Whether `file_name` is a recognized deployment-module file name.
pub fn is_module_file(file_name: &str) -> (r: bool)
    ensures
        r == is_module_name(file_name@),
{
    proof {
        reveal_strlit(".js");
        reveal_strlit(".ts");
    }
    let n = file_name.unicode_len();
    (n > 3 && str_ends_with(file_name, ".js")) || (n > 3 && str_ends_with(file_name, ".ts"))
}

/// The deployment-modules directory of a project.
pub fn modules_dir_path(project: &str) -> (r: String)
    ensures
        r@ == project@ + "/ignition/modules"@,
{
    concat2(project, "/ignition/modules")
}

/// The full path of a deployment-module file inside a project.
pub fn module_file_path(project: &str, file_name: &str) -> (r: String)
    ensures
        r@ == project@ + "/ignition/modules/"@ + file_name@,
{
    concat3(project, "/ignition/modules/", file_name)
}

/// What the selection owes: a distinct precondition error when the directory
/// is missing, a distinct one when no entry matches, and otherwise the first
/// matching entry in enumeration order.
pub open spec fn module_selection(dir_exists: bool, names: Seq<Seq<char>>) -> Result<
    Seq<char>,
    Seq<char>,
> {
    if !dir_exists {
        Err(
            "No Hardhat Ignition modules found. Please create deployment scripts in ignition/modules/"@,
        )
    } else {
        match first_module(names) {
            Some(m) => Ok(m),
            None => Err("No deployment modules found in ignition/modules/"@),
        }
    }
}

/// Selects the deployment module, checking the precondition before anything
/// is launched.  `entries` are the file names inside the modules directory,
/// in the order the caller enumerated them; it is ignored when the directory
/// does not exist.
pub fn select_deploy_module(dir_exists: bool, entries: &Vec<String>) -> (r: Result<String, String>)
    ensures
        result_view(r) == module_selection(dir_exists, entries.deep_view()),
{
    if !dir_exists {
        return Err(
            String::from_str(
                "No Hardhat Ignition modules found. Please create deployment scripts in ignition/modules/",
            ),
        );
    }
    let ghost names = entries.deep_view();
    let n = entries.len();
    let mut i: usize = 0;
    while i < n
        invariant
            dir_exists,
            i <= n,
            n == entries@.len(),
            names == entries.deep_view(),
            forall|j: int| 0 <= j < i ==> !is_module_name(#[trigger] names[j]),
        decreases n - i,
    {
        if is_module_file(entries[i].as_str()) {
            proof {
                lemma_first_module_skip(names, i as int);
                let rest = names.subrange(i as int, names.len() as int);
                assert(rest[0] == names[i as int]);
                assert(names[i as int] == entries@[i as int]@);
                assert(first_module(rest) == Some(rest[0]));
            }
            return Ok(entries[i].clone());
        }
        proof {
            assert(names[i as int] == entries@[i as int]@);
        }
        i = i + 1;
    }
    proof {
        lemma_first_module_skip(names, n as int);
        assert(names.subrange(n as int, names.len() as int).len() == 0);
    }
    Err(String::from_str("No deployment modules found in ignition/modules/"))
}

} // verus!
