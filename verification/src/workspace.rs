//! The temporary workspace's file naming: one file inside a private
//! directory, named deterministically from a fixed stem with the configured
//! suffix appended verbatim. The directory's privacy already guarantees
//! uniqueness, so no randomness takes part in the name.

use vstd::prelude::*;

verus! {

/// The byte that separates path components.
pub const PATH_SEPARATOR: u8 = 47;

/// The fixed stem of the workspace file's name, the bytes of `tmp_output`.
pub open spec fn file_stem() -> Seq<u8> {
    seq![116u8, 109u8, 112u8, 95u8, 111u8, 117u8, 116u8, 112u8, 117u8, 116u8]
}

/// A suffix is valid when no byte of it is the path separator, so that the
/// suffix cannot move the file out of the workspace directory.
pub open spec fn suffix_valid(suffix: Seq<u8>) -> bool {
    forall|i: int| 0 <= i < suffix.len() ==> suffix[i] != PATH_SEPARATOR
}

/// Decides whether `suffix` is valid: free of the path separator.
pub fn suffix_is_valid(suffix: &Vec<u8>) -> (r: bool)
    ensures
        r == suffix_valid(suffix@),
{
    let mut i: usize = 0;
    while i < suffix.len()
        invariant
            i <= suffix@.len(),
            forall|k: int| 0 <= k < i ==> suffix@[k] != PATH_SEPARATOR,
        decreases suffix@.len() - i,
    {
        if suffix[i] == PATH_SEPARATOR {
            return false;
        }
        i = i + 1;
    }
    true
}

/// The fixed stem as a byte vector.
pub fn file_stem_bytes() -> (stem: Vec<u8>)
    ensures
        stem@ == file_stem(),
{
    let mut stem: Vec<u8> = Vec::new();
    stem.push(116);
    stem.push(109);
    stem.push(112);
    stem.push(95);
    stem.push(111);
    stem.push(117);
    stem.push(116);
    stem.push(112);
    stem.push(117);
    stem.push(116);
    proof {
        assert(stem@ =~= file_stem());
    }
    stem
}

/// The workspace file's name: the fixed stem with the suffix appended
/// verbatim.
pub fn workspace_file_name(suffix: &Vec<u8>) -> (name: Vec<u8>)
    ensures
        name@ == file_stem() + suffix@,
{
    let mut name = file_stem_bytes();
    crate::bytes::append_bytes(&mut name, suffix);
    name
}

/// The workspace file's path: the workspace directory, one separator, and
/// the file's name. A valid suffix cannot place the file anywhere else, and
/// the name itself involves no randomness: the private directory makes it
/// unique on its own.
pub fn workspace_file_path(dir: &Vec<u8>, suffix: &Vec<u8>) -> (path: Vec<u8>)
    ensures
        path@ == dir@ + seq![PATH_SEPARATOR] + file_stem() + suffix@,
{
    let mut path = crate::bytes::copy_bytes(dir);
    path.push(PATH_SEPARATOR);
    let name = workspace_file_name(suffix);
    crate::bytes::append_bytes(&mut path, &name);
    proof {
        assert(path@ =~= dir@ + seq![PATH_SEPARATOR] + file_stem() + suffix@);
    }
    path
}

} // verus!
