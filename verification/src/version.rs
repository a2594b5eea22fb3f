//! Version reporting: the application's semantic version is a single value
//! embedded at build time, identical for every read within a process.

use vstd::prelude::*;
use vstd::string::StringExecFns;

verus! {

/// The version embedded in the build, as a sequence of characters. Every
/// report of the version within a process equals this one value.
pub open spec fn app_version() -> Seq<char> {
    "0.1.0"@
}

/// Host-callable version reporter: returns the embedded application version.
/// No inputs, no side effects, no failure modes; the result is non-empty and
/// is the same on every call within a process.
pub fn get_app_version() -> (v: String)
    ensures
        v@ == app_version(),
        v@.len() > 0,
{
    proof {
        reveal_strlit("0.1.0");
    }
    String::from_str("0.1.0")
}

/// Two reads of the version agree, whatever ran between them: the version is
/// one non-empty value for the whole process, so any values that satisfy the
/// reporter's contract are equal.
pub proof fn lemma_version_reads_agree(v1: Seq<char>, v2: Seq<char>)
    requires
        v1 == app_version(),
        v2 == app_version(),
    ensures
        v1 == v2,
        v1.len() > 0,
{
    reveal_strlit("0.1.0");
}

} // verus!
