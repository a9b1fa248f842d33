//! Building the patched launcher script.
//!
//! The patch prepends exactly one loader statement to the existing script:
//! a `require` of the working directory, embedded verbatim inside a raw
//! string literal (no escaping — a directory whose path contains a
//! backtick would corrupt the statement, and that is the documented
//! behaviour, not guarded against here).  The original content follows
//! unchanged after a single newline.  No check for a prior injection is
//! made: patching an already patched script prepends the statement again.

use vstd::prelude::*;
use vstd::string::*;

verus! {

/// The loader statement injected for a working directory `cwd`:
/// `require(String.raw`...`);` with the path embedded verbatim.
pub open spec fn require_line_spec(cwd: Seq<char>) -> Seq<char> {
    "require(String.raw`"@ + cwd + "`);"@
}

/// The loader statement for the working directory `cwd`.
pub fn require_line(cwd: &str) -> (r: String)
    ensures
        r@ == require_line_spec(cwd@),
{
    let mut s = "require(String.raw`".to_owned();
    s.append(cwd);
    s.append("`);");
    s
}

/// The patched script: the loader statement, one newline, then the
/// previous content verbatim.
pub open spec fn patched_spec(cwd: Seq<char>, original: Seq<char>) -> Seq<char> {
    require_line_spec(cwd) + "\n"@ + original
}

/// Prepends the loader statement for `cwd` to the script content
/// `original`.  The result is exactly the statement, a newline, then
/// `original` unchanged — no trimming, no merge, no idempotence check.
pub fn patch_script(cwd: &str, original: &str) -> (r: String)
    ensures
        r@ == patched_spec(cwd@, original@),
{
    let mut s = require_line(cwd);
    s.append("\n");
    s.append(original);
    s
}

/// Patching is deliberately not idempotent: patching a script that was
/// already patched for the same working directory prepends the loader
/// statement a second time, so the result carries two copies of it.
pub proof fn lemma_patch_twice_duplicates(cwd: Seq<char>, original: Seq<char>)
    ensures
        patched_spec(cwd, patched_spec(cwd, original)) == require_line_spec(cwd) + "\n"@
            + require_line_spec(cwd) + "\n"@ + original,
{
    assert(patched_spec(cwd, patched_spec(cwd, original)) =~= require_line_spec(cwd) + "\n"@
        + require_line_spec(cwd) + "\n"@ + original);
}

} // verus!
