//! A mathematical model of the target directory and of the effect a
//! rename operation has on it.
//!
//! The directory is a map from filenames to abstract file contents. A
//! rename moves the contents from the source name to the destination
//! name when the source exists, and leaves the directory unchanged when
//! it does not — a failed rename is reported but never alters anything.

use vstd::prelude::*;
use crate::manifest::{op_dest_of_line, op_source_of_line};

verus! {

/// The directory after renaming `source` to `dest`. When `source` is
/// absent the rename fails and the directory is unchanged; when `dest`
/// already exists it is overwritten.
pub open spec fn apply_rename(
    files: Map<Seq<char>, nat>,
    source: Seq<char>,
    dest: Seq<char>,
) -> Map<Seq<char>, nat> {
    if files.contains_key(source) {
        files.remove(source).insert(dest, files[source])
    } else {
        files
    }
}

/// Renaming `owl` to `orig` and then `orig` back to `owl` restores the
/// directory exactly, whenever `owl` exists beforehand and `orig` does
/// not collide with an existing file.
pub proof fn lemma_rename_round_trip(files: Map<Seq<char>, nat>, owl: Seq<char>, orig: Seq<char>)
    requires
        files.contains_key(owl),
        !files.contains_key(orig),
    ensures
        apply_rename(apply_rename(files, owl, orig), orig, owl) == files,
{
    let forward = apply_rename(files, owl, orig);
    assert(apply_rename(forward, orig, owl) =~= files);
}

/// Applying a forward rename and then a reverse rename taken from the
/// same manifest line restores the directory, for every line whose
/// transformed name exists and whose original name is free.
pub proof fn lemma_line_round_trip(files: Map<Seq<char>, nat>, line: Seq<char>)
    requires
        files.contains_key(op_source_of_line(line, false)),
        !files.contains_key(op_dest_of_line(line, false)),
    ensures
        apply_rename(
            apply_rename(files, op_source_of_line(line, false), op_dest_of_line(line, false)),
            op_source_of_line(line, true),
            op_dest_of_line(line, true),
        ) == files,
{
    lemma_rename_round_trip(files, op_source_of_line(line, false), op_dest_of_line(line, false));
}

} // verus!
