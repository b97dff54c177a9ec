//! Artifact inspector: recognizes contract source files, derives the
//! deterministic artifact paths the toolchain writes for them, and assembles
//! one record per source file from existence probes supplied by the caller.

use vstd::prelude::*;
use vstd::string::StrSliceExecFns;
use vstd::string::StringExecFns;

use crate::strutil::concat2;
use crate::strutil::concat3;
use crate::strutil::concat4;
use crate::strutil::ends_with;
use crate::strutil::str_ends_with;

verus! {

/// One discovered contract source file: its stem, its source path, whether a
/// compiled artifact exists for it, and its size when the caller could read it.
pub struct ContractInfo {
    pub name: String,
    pub path: String,
    pub compiled: bool,
    pub size: Option<u64>,
}

/// What the caller learned about one source file inside `contracts/`: the
/// plain file name, the file size if readable, and whether each of the two
/// derived artifact files exists.
pub struct SourceProbe {
    pub file_name: String,
    pub size: Option<u64>,
    pub artifact_exists: bool,
    pub debug_artifact_exists: bool,
}

/// A file name is a contract source iff it carries the source extension over a
/// non-empty stem.
pub open spec fn is_source_name(s: Seq<char>) -> bool {
    s.len() > ".sol"@.len() && ends_with(s, ".sol"@)
}

/// The stem of a source file name: everything before the extension.
pub open spec fn source_stem(s: Seq<char>) -> Seq<char> {
    s.subrange(0, s.len() - ".sol"@.len())
}

/// Whether `file_name` is a recognized contract source file name.
pub fn is_source_file(file_name: &str) -> (r: bool)
    ensures
        r == is_source_name(file_name@),
{
    proof {
        reveal_strlit(".sol");
    }
    file_name.unicode_len() > 4 && str_ends_with(file_name, ".sol")
}

/// The stem of a recognized source file name.
pub fn source_file_stem(file_name: &str) -> (r: String)
    requires
        is_source_name(file_name@),
    ensures
        r@ == source_stem(file_name@),
{
    proof {
        reveal_strlit(".sol");
    }
    let n = file_name.unicode_len();
    let stem = file_name.substring_char(0, n - 4);
    String::from_str(stem)
}

/// The source path reported for a contract file found inside `contracts/`.
pub open spec fn source_path_of(project: Seq<char>, file_name: Seq<char>) -> Seq<char> {
    project + "/contracts/"@ + file_name
}

/// The artifact the toolchain writes when it compiles a source file.
pub open spec fn artifact_path_of(project: Seq<char>, file_name: Seq<char>) -> Seq<char> {
    project + "/artifacts/contracts/"@ + file_name + "/"@ + source_stem(file_name) + ".json"@
}

/// The debug sibling of the compiled artifact.
pub open spec fn debug_artifact_path_of(project: Seq<char>, file_name: Seq<char>) -> Seq<char> {
    project + "/artifacts/contracts/"@ + file_name + "/"@ + source_stem(file_name)
        + ".dbg.json"@
}

/// Builds the path of a source file inside the project's `contracts/` tree.
pub fn source_path(project: &str, file_name: &str) -> (r: String)
    ensures
        r@ == source_path_of(project@, file_name@),
{
    concat3(project, "/contracts/", file_name)
}

/// Builds the derived path of the compiled artifact for a source file.
pub fn artifact_path(project: &str, file_name: &str) -> (r: String)
    requires
        is_source_name(file_name@),
    ensures
        r@ == artifact_path_of(project@, file_name@),
{
    let stem = source_file_stem(file_name);
    let head = concat4(project, "/artifacts/contracts/", file_name, "/");
    let tail = concat2(stem.as_str(), ".json");
    let r = concat2(head.as_str(), tail.as_str());
    proof {
        assert(r@ =~= artifact_path_of(project@, file_name@));
    }
    r
}

/// Builds the derived path of the debug artifact for a source file.
pub fn debug_artifact_path(project: &str, file_name: &str) -> (r: String)
    requires
        is_source_name(file_name@),
    ensures
        r@ == debug_artifact_path_of(project@, file_name@),
{
    let stem = source_file_stem(file_name);
    let head = concat4(project, "/artifacts/contracts/", file_name, "/");
    let tail = concat2(stem.as_str(), ".dbg.json");
    let r = concat2(head.as_str(), tail.as_str());
    proof {
        assert(r@ =~= debug_artifact_path_of(project@, file_name@));
    }
    r
}

/// `rec` is the record that `probe` must yield inside `project`.
pub open spec fn record_matches(project: Seq<char>, probe: SourceProbe, rec: ContractInfo) -> bool {
    &&& rec.name@ == source_stem(probe.file_name@)
    &&& rec.path@ == source_path_of(project, probe.file_name@)
    &&& rec.compiled == (probe.artifact_exists || probe.debug_artifact_exists)
    &&& rec.size == probe.size
}

/// Assembles the record for one probed source file.  A contract is compiled
/// iff at least one of the two derived artifact files exists; absence of the
/// whole artifact tree therefore reads as not-compiled, never as an error.
pub fn make_contract_record(project: &str, probe: &SourceProbe) -> (rec: ContractInfo)
    requires
        is_source_name(probe.file_name@),
    ensures
        record_matches(project@, *probe, rec),
{
    let name = source_file_stem(probe.file_name.as_str());
    let path = source_path(project, probe.file_name.as_str());
    ContractInfo {
        name,
        path,
        compiled: probe.artifact_exists || probe.debug_artifact_exists,
        size: probe.size,
    }
}

/// Assembles one record per probed source file, in the order the caller
/// enumerated them.
pub fn contracts_from_probes(project: &str, probes: &Vec<SourceProbe>) -> (recs: Vec<ContractInfo>)
    requires
        forall|i: int| 0 <= i < probes@.len() ==> is_source_name(#[trigger] probes@[i].file_name@),
    ensures
        recs@.len() == probes@.len(),
        forall|i: int|
            0 <= i < recs@.len() ==> record_matches(project@, probes@[i], #[trigger] recs@[i]),
{
    let mut recs: Vec<ContractInfo> = Vec::new();
    let n = probes.len();
    let mut i: usize = 0;
    while i < n
        invariant
            i <= n,
            n == probes@.len(),
            recs@.len() == i,
            forall|k: int| 0 <= k < probes@.len() ==> is_source_name(#[trigger] probes@[k].file_name@),
            forall|k: int|
                0 <= k < i ==> record_matches(project@, probes@[k], #[trigger] recs@[k]),
        decreases n - i,
    {
        let rec = make_contract_record(project, &probes[i]);
        recs.push(rec);
        i = i + 1;
    }
    recs
}

} // verus!
