//! Manifest lines and the rename pairs they describe.
//!
//! Each manifest line maps a transformed (obfuscated) filename to the
//! original filename, separated by the first `=` on the line. A line
//! without `=` is a degenerate entry: the whole line is the transformed
//! name and the original name is empty.

use vstd::prelude::*;

verus! {

/// The character that separates the two filenames on a manifest line.
pub const MANIFEST_DELIM: char = '=';

/// Position of the first occurrence of `c` in `s` at or after `start`,
/// or `s.len()` if there is none.
pub open spec fn index_of_char_from(s: Seq<char>, c: char, start: int) -> int
    decreases s.len() - start,
{
    if start < 0 || start >= s.len() {
        s.len() as int
    } else if s[start] == c {
        start
    } else {
        index_of_char_from(s, c, start + 1)
    }
}

/// If `c` occurs at `d` and nowhere in `[start, d)`, the search from
/// `start` finds exactly `d`.
pub proof fn lemma_index_of_char_from_found(s: Seq<char>, c: char, start: int, d: int)
    requires
        0 <= start <= d < s.len(),
        s[d] == c,
        forall|k: int| start <= k < d ==> s[k] != c,
    ensures
        index_of_char_from(s, c, start) == d,
    decreases d - start,
{
    if start < d {
        lemma_index_of_char_from_found(s, c, start + 1, d);
    }
}

/// If `c` occurs nowhere in `[start, s.len())`, the search from `start`
/// finds nothing and yields `s.len()`.
pub proof fn lemma_index_of_char_from_none(s: Seq<char>, c: char, start: int)
    requires
        0 <= start,
        forall|k: int| start <= k < s.len() ==> s[k] != c,
    ensures
        index_of_char_from(s, c, start) == s.len(),
    decreases s.len() - start,
{
    if start < s.len() {
        lemma_index_of_char_from_none(s, c, start + 1);
    }
}

/// The transformed (left) filename of a manifest line: everything before
/// the first delimiter, or the whole line if there is no delimiter.
pub open spec fn owl_of_line(line: Seq<char>) -> Seq<char> {
    line.subrange(0, index_of_char_from(line, MANIFEST_DELIM, 0))
}

/// The original (right) filename of a manifest line: everything between
/// the first delimiter and the second (or the end of the line), or empty
/// if there is no delimiter.
pub open spec fn orig_of_line(line: Seq<char>) -> Seq<char> {
    let d = index_of_char_from(line, MANIFEST_DELIM, 0);
    if d == line.len() {
        Seq::<char>::empty()
    } else {
        line.subrange(d + 1, index_of_char_from(line, MANIFEST_DELIM, d + 1))
    }
}

/// One parsed manifest line: a transformed filename and the original
/// filename it should be restored to.
#[derive(Debug, Clone)]
pub struct Manifest {
    pub owl_filename: String,
    pub orig_filename: String,
}

/// Position of the first `c` in `s` at or after `start`, or the character
/// length of `s` if `c` does not occur there.
fn find_char_from(s: &str, c: char, start: usize) -> (i: usize)
    requires
        start <= s@.len(),
    ensures
        i == index_of_char_from(s@, c, start as int),
        start <= i <= s@.len(),
        i < s@.len() ==> s@[i as int] == c,
{
    let len: usize = s.unicode_len();
    let mut i: usize = start;
    while i < len && s.get_char(i) != c
        invariant
            start <= i <= len,
            len == s@.len(),
            index_of_char_from(s@, c, start as int) == index_of_char_from(s@, c, i as int),
        decreases len - i,
    {
        assert(index_of_char_from(s@, c, i as int) == index_of_char_from(s@, c, i + 1));
        i = i + 1;
    }
    i
}

/// Splits one manifest line at its first delimiter into a rename pair.
/// Text after a second delimiter is discarded; a line without a delimiter
/// becomes a pair with an empty original name.
pub fn split_manifest_string(manifest_str: &str) -> (m: Manifest)
    ensures
        m.owl_filename@ == owl_of_line(manifest_str@),
        m.orig_filename@ == orig_of_line(manifest_str@),
{
    let len: usize = manifest_str.unicode_len();
    let d: usize = find_char_from(manifest_str, MANIFEST_DELIM, 0);
    if d < len {
        let e: usize = find_char_from(manifest_str, MANIFEST_DELIM, d + 1);
        let owl: &str = manifest_str.substring_char(0, d);
        let orig: &str = manifest_str.substring_char(d + 1, e);
        Manifest { owl_filename: owl.to_owned(), orig_filename: orig.to_owned() }
    } else {
        proof {
            assert(manifest_str@.subrange(0, manifest_str@.len() as int) =~= manifest_str@);
        }
        Manifest { owl_filename: manifest_str.to_owned(), orig_filename: String::new() }
    }
}

/// One rename to carry out in the target directory: the file currently
/// named `source` is to be renamed to `dest`.
#[derive(Debug, Clone)]
pub struct RenameOp {
    pub source: String,
    pub dest: String,
}

/// The filename a rename of `line` starts from: the transformed name in
/// forward mode, the original name in reverse mode.
pub open spec fn op_source_of_line(line: Seq<char>, reverse: bool) -> Seq<char> {
    if reverse {
        orig_of_line(line)
    } else {
        owl_of_line(line)
    }
}

/// The filename a rename of `line` ends at: the original name in forward
/// mode, the transformed name in reverse mode.
pub open spec fn op_dest_of_line(line: Seq<char>, reverse: bool) -> Seq<char> {
    if reverse {
        owl_of_line(line)
    } else {
        orig_of_line(line)
    }
}

impl Manifest {
    /// The rename this pair asks for: transformed to original in forward
    /// mode, original back to transformed in reverse mode.
    pub fn to_rename_op(&self, reverse: bool) -> (op: RenameOp)
        ensures
            op.source@ == if reverse { self.orig_filename@ } else { self.owl_filename@ },
            op.dest@ == if reverse { self.owl_filename@ } else { self.orig_filename@ },
    {
        if reverse {
            RenameOp { source: self.orig_filename.clone(), dest: self.owl_filename.clone() }
        } else {
            RenameOp { source: self.owl_filename.clone(), dest: self.orig_filename.clone() }
        }
    }
}

/// The name of the manifest file looked for in the target directory.
pub fn manifest_file_name() -> (s: String)
    ensures
        s@ == "manifest.txt"@,
{
    String::from_str("manifest.txt")
}

/// A line with exactly one delimiter, at position `d`, parses into the
/// text before `d` and the text after `d`.
pub proof fn lemma_parse_single_delim(line: Seq<char>, d: int)
    requires
        0 <= d < line.len(),
        line[d] == MANIFEST_DELIM,
        forall|k: int| 0 <= k < line.len() && k != d ==> line[k] != MANIFEST_DELIM,
    ensures
        owl_of_line(line) == line.subrange(0, d),
        orig_of_line(line) == line.subrange(d + 1, line.len() as int),
{
    lemma_index_of_char_from_found(line, MANIFEST_DELIM, 0, d);
    lemma_index_of_char_from_none(line, MANIFEST_DELIM, d + 1);
}

/// A line without a delimiter parses into the whole line and an empty
/// original name.
pub proof fn lemma_parse_no_delim(line: Seq<char>)
    requires
        forall|k: int| 0 <= k < line.len() ==> line[k] != MANIFEST_DELIM,
    ensures
        owl_of_line(line) == line,
        orig_of_line(line) == Seq::<char>::empty(),
{
    lemma_index_of_char_from_none(line, MANIFEST_DELIM, 0);
    assert(line.subrange(0, line.len() as int) =~= line);
}

} // verus!
