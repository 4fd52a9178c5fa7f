//! The compute half of saving: the path the file is written to, and the
//! overwrite semantics of a write, stated over a model of the destination
//! directory as a map from paths to contents. The directory creation and the
//! write itself are performed by the surrounding program.

use vstd::prelude::*;
use vstd::string::StringExecFns;

use crate::resolver::slash;

verus! {

/// The path of the saved file: the destination directory, a separator, and
/// the file name.
pub open spec fn saved_path_of(dest: Seq<char>, file_name: Seq<char>) -> Seq<char> {
    dest + slash() + file_name
}

/// Join the destination directory and the file name into the path the
/// content is written to.
pub fn join_path(dest: &str, file_name: &str) -> (p: String)
    ensures
        p@ == saved_path_of(dest@, file_name@),
{
    let mut p = String::from_str(dest);
    p.append("/");
    p.append(file_name);
    proof {
        reveal_strlit("/");
        assert("/"@ =~= slash());
        assert(p@ =~= saved_path_of(dest@, file_name@));
    }
    p
}

/// The effect of a write on the destination directory, modelled as a map
/// from file paths to contents: the content is stored at the path, replacing
/// whatever was there.
pub open spec fn write_effect(
    files: Map<Seq<char>, Seq<char>>,
    path: Seq<char>,
    content: Seq<char>,
) -> Map<Seq<char>, Seq<char>> {
    files.insert(path, content)
}

/// Saving is idempotent: writing the same content twice leaves the same
/// directory as writing it once, and the file at the path holds exactly the
/// content — the write overwrites, it does not append.
pub proof fn lemma_save_idempotent(
    files: Map<Seq<char>, Seq<char>>,
    path: Seq<char>,
    content: Seq<char>,
)
    ensures
        write_effect(write_effect(files, path, content), path, content) == write_effect(
            files,
            path,
            content,
        ),
        write_effect(files, path, content).dom().contains(path),
        write_effect(files, path, content)[path] == content,
{
    assert(write_effect(write_effect(files, path, content), path, content) =~= write_effect(
        files,
        path,
        content,
    ));
}

} // verus!
