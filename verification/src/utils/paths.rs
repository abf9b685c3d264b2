//! Paths of files below a directory.
use vstd::prelude::*;

verus! {

/// Whether a name leads on from a directory wherever the program runs: it begins with no slash,
/// and holds nothing that some machine takes for a drive or a separator of its own.
pub open spec fn is_relative(file: Seq<char>) -> bool {
    &&& !(file.len() > 0 && file[0] == '/')
    &&& forall|i: int| 0 <= i < file.len() ==> (#[trigger] file[i]) != '\\' && file[i] != ':'
}

/// Whether a name begins at the top wherever the program runs.
pub open spec fn is_absolute(file: Seq<char>) -> bool {
    &&& file.len() > 0 && file[0] == '/'
    &&& forall|i: int| 0 <= i < file.len() ==> (#[trigger] file[i]) != '\\' && file[i] != ':'
}

pub open spec fn is_separator(c: char) -> bool {
    c == '/' || c == '\\'
}

/// Whether a directory begins with two separators, as the name of a share or a device does.
pub open spec fn names_a_share(root: Seq<char>) -> bool {
    root.len() >= 2 && is_separator(root[0]) && is_separator(root[1])
}

/// Whether a directory begins with two backslashes: after some such beginnings a machine takes
/// names letter by letter.
pub open spec fn is_verbatim(root: Seq<char>) -> bool {
    root.len() >= 2 && root[0] == '\\' && root[1] == '\\'
}

/// Whether a path is a name put behind a directory: between them stands one separator, or none
/// where the directory is empty or ends in something that separates by itself.
pub open spec fn is_joined(path: Seq<char>, root: Seq<char>, file: Seq<char>) -> bool {
    let plain = root + file;
    let slash = root + "/"@ + file;
    let backslash = root + "\\"@ + file;
    if root.len() == 0 {
        path == file
    } else if is_separator(root.last()) {
        path == plain || path == slash
    } else if root.last() == ':' {
        path == plain || path == slash || path == backslash
    } else {
        path == slash || path == backslash
    }
}

/// Whether a path is what a name is resolved to from a directory.
pub open spec fn leads_to(path: Seq<char>, root: Seq<char>, file: Seq<char>) -> bool {
    &&& is_relative(file) && !is_verbatim(root) ==> is_joined(path, root, file)
    &&& is_absolute(file) && !names_a_share(root) && !root.contains(':') ==> path == file
}

/// Calls `Path::join`. A relative name is put behind the directory; which separator stands between
/// them depends on the machine. An absolute name takes the place of the directory. What becomes
/// of a name with a backslash or a colon depends on the machine and is left open, and so is a
/// directory that names a share or a device.
#[verifier::external_body]
pub(crate) fn join_path(root: &str, file: &str) -> (r: String)
    ensures
        leads_to(r@, root@, file@),
{
    std::path::Path::new(root).join(file).to_string_lossy().into_owned()
}

/// A path that a relative name was resolved to lies below the directory: it begins with it, and
/// what follows is the name and at most one separator.
pub proof fn resolved_path_is_below_its_root(path: Seq<char>, root: Seq<char>, file: Seq<char>)
    requires
        leads_to(path, root, file),
        is_relative(file),
        !is_verbatim(root),
    ensures
        root.is_prefix_of(path),
        file.is_suffix_of(path),
        root.len() + file.len() <= path.len() <= root.len() + 1 + file.len(),
        path.len() == root.len() + 1 + file.len() ==> is_separator(path[root.len() as int]),
{
    reveal_strlit("/");
    reveal_strlit("\\");
    assert(root.is_prefix_of(path)) by {
        assert(path.subrange(0, root.len() as int) =~= root);
    }
    assert(file.is_suffix_of(path)) by {
        assert(path.subrange(path.len() - file.len(), path.len() as int) =~= file);
    }
}

} // verus!
