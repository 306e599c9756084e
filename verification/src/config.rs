//! Run configuration and the manifest-driven run itself.
//!
//! A run resolves its target directory from the command-line arguments,
//! then checks the run-level preconditions in order — the directory
//! exists, the manifest file exists, the manifest could be read — and
//! turns the manifest lines into a plan of rename operations, one per
//! line, to be carried out in manifest order. Per-line rename failures
//! never abort a run, so the whole plan is decided up front; only the
//! run-level checks can fail.

use vstd::prelude::*;
use crate::manifest::{op_dest_of_line, op_source_of_line, split_manifest_string, RenameOp};

verus! {

/// A run-level failure: the only kind of failure that aborts a run.
/// Individual rename failures are reported per line and never escalate.
#[derive(Debug, Clone, Copy, PartialEq, Eq, Structural)]
pub enum RunError {
    /// The target directory does not exist.
    PathNotFound,
    /// The target directory has no manifest file.
    ManifestMissing,
    /// The manifest file exists but could not be read.
    ManifestRead,
    /// Deleting the manifest was requested but failed.
    ManifestDelete,
}

/// Everything a successful run does to the target directory: the renames,
/// in manifest order, and whether the manifest file is deleted afterwards.
#[derive(Debug, Clone)]
pub struct RenamePlan {
    pub renames: Vec<RenameOp>,
    pub delete_manifest: bool,
}

/// Options for one run, built once from the command line and immutable
/// afterwards.
#[derive(Debug)]
pub struct ProcessConfig {
    pub process_path: String,
    pub reverse: bool,
    pub delete_manifest: bool,
}

/// Whether `flag` occurs anywhere among the arguments.
pub open spec fn has_flag(args: Seq<String>, flag: Seq<char>) -> bool {
    exists|k: int| 0 <= k < args.len() && #[trigger] args[k]@ == flag
}

/// Whether the arguments carry a positional target path: a second
/// argument that is neither the reverse flag nor the delete flag. It is
/// taken verbatim, so an unrecognized flag in that position becomes the
/// target path.
pub open spec fn has_positional_path(args: Seq<String>) -> bool {
    args.len() > 1 && args[1]@ != "-r"@ && args[1]@ != "-m"@
}

/// The target directory the arguments select: the positional path when
/// one is present, the current working directory otherwise.
pub open spec fn target_path(args: Seq<String>, current_dir: Seq<char>) -> Seq<char> {
    if has_positional_path(args) {
        args[1]@
    } else {
        current_dir
    }
}

/// Whether the arguments select their own target path, so that the
/// current working directory need not be consulted.
pub fn uses_positional_path(in_args: &[String]) -> (b: bool)
    ensures
        b == has_positional_path(in_args@),
{
    if in_args.len() > 1 {
        let rflag: String = String::from_str("-r");
        let mflag: String = String::from_str("-m");
        let arg: &String = vstd::slice::slice_index_get(in_args, 1);
        !arg.eq(&rflag) && !arg.eq(&mflag)
    } else {
        false
    }
}

impl ProcessConfig {
    /// A configuration with nothing set: empty target path, forward mode,
    /// manifest kept.
    pub fn new() -> (c: ProcessConfig)
        ensures
            c.process_path@ == Seq::<char>::empty(),
            !c.reverse,
            !c.delete_manifest,
    {
        ProcessConfig { process_path: String::new(), reverse: false, delete_manifest: false }
    }

    /// Reads the command-line arguments: `-r` anywhere selects reverse
    /// mode, `-m` anywhere asks for the manifest to be deleted, and the
    /// second argument, unless it is one of those flags, is the target
    /// path. Without a positional path the given current working
    /// directory becomes the target. Unrecognized flags are ignored.
    pub fn parse_args(in_args: &[String], current_dir: String) -> (c: ProcessConfig)
        ensures
            c.reverse == has_flag(in_args@, "-r"@),
            c.delete_manifest == has_flag(in_args@, "-m"@),
            c.process_path@ == target_path(in_args@, current_dir@),
    {
        let rflag: String = String::from_str("-r");
        let mflag: String = String::from_str("-m");

        let mut reverse: bool = false;
        let mut delete_manifest: bool = false;
        let n: usize = in_args.len();
        let mut i: usize = 0;
        while i < n
            invariant
                i <= n,
                n == in_args@.len(),
                rflag@ == "-r"@,
                mflag@ == "-m"@,
                reverse == (exists|k: int| 0 <= k < i && #[trigger] in_args@[k]@ == "-r"@),
                delete_manifest == (exists|k: int| 0 <= k < i && #[trigger] in_args@[k]@
                    == "-m"@),
            decreases n - i,
        {
            let arg: &String = vstd::slice::slice_index_get(in_args, i);
            if arg.eq(&rflag) {
                reverse = true;
            }
            if arg.eq(&mflag) {
                delete_manifest = true;
            }
            i = i + 1;
        }

        let process_path: String = if uses_positional_path(in_args) {
            vstd::slice::slice_index_get(in_args, 1).clone()
        } else {
            current_dir
        };

        ProcessConfig { process_path, reverse, delete_manifest }
    }

    /// Decides one run from the probed state of the target directory.
    /// The run-level checks short-circuit in order: missing directory,
    /// missing manifest, unreadable manifest (`manifest_lines` is `None`
    /// when reading failed). Otherwise every manifest line, well-formed
    /// or not, contributes exactly one rename in manifest order, and the
    /// manifest is deleted afterwards exactly when that was requested.
    /// Re-running after the manifest was deleted finds the same missing
    /// manifest again and fails the same way.
    pub fn run(
        &self,
        directory_exists: bool,
        manifest_exists: bool,
        manifest_lines: Option<Vec<String>>,
    ) -> (r: Result<RenamePlan, RunError>)
        ensures
            !directory_exists ==> r == Err::<RenamePlan, RunError>(RunError::PathNotFound),
            directory_exists && !manifest_exists ==> r == Err::<RenamePlan, RunError>(
                RunError::ManifestMissing,
            ),
            directory_exists && manifest_exists && manifest_lines is None ==> r == Err::<
                RenamePlan,
                RunError,
            >(RunError::ManifestRead),
            directory_exists && manifest_exists && manifest_lines is Some ==> r is Ok
                && plan_matches(
                r->Ok_0,
                manifest_lines->Some_0@,
                self.reverse,
                self.delete_manifest,
            ),
    {
        if !directory_exists {
            return Err(RunError::PathNotFound);
        }
        if !manifest_exists {
            return Err(RunError::ManifestMissing);
        }
        let lines: Vec<String> = match manifest_lines {
            Some(lines) => lines,
            None => {
                return Err(RunError::ManifestRead);
            },
        };

        let reverse: bool = self.reverse;
        let mut renames: Vec<RenameOp> = Vec::new();
        let mut i: usize = 0;
        while i < lines.len()
            invariant
                i <= lines@.len(),
                renames@.len() == i,
                forall|k: int| 0 <= k < i ==> (#[trigger] renames@[k]).source@
                    == op_source_of_line(lines@[k]@, reverse)
                    && renames@[k].dest@ == op_dest_of_line(lines@[k]@, reverse),
            decreases lines@.len() - i,
        {
            let pair = split_manifest_string(lines[i].as_str());
            let op = pair.to_rename_op(reverse);
            renames.push(op);
            i = i + 1;
        }

        Ok(RenamePlan { renames, delete_manifest: self.delete_manifest })
    }
}

/// Whether `plan` is the plan a run with the given options owes for the
/// given manifest lines: one rename per line, in order, each taken from
/// its line in the requested direction, and the requested manifest
/// cleanup.
pub open spec fn plan_matches(
    plan: RenamePlan,
    lines: Seq<String>,
    reverse: bool,
    delete_manifest: bool,
) -> bool {
    &&& plan.delete_manifest == delete_manifest
    &&& plan.renames@.len() == lines.len()
    &&& forall|k: int| 0 <= k < lines.len() ==> (#[trigger] plan.renames@[k]).source@
        == op_source_of_line(lines[k]@, reverse) && plan.renames@[k].dest@ == op_dest_of_line(
        lines[k]@,
        reverse,
    )
}

} // verus!
