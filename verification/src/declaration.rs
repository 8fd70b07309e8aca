//! Where the type declarations of the unstable API lie.

use vstd::prelude::*;
use vstd::string::*;

verus! {

/// The name of the file that declares the unstable API to the host's
/// scripts.
pub open spec fn declaration_file() -> Seq<char> {
    "lib.deno_http.unstable.d.ts"@
}

/// A file's path below a directory: the directory, a `/` unless the
/// directory is empty or ends in one, and the file's name.
pub open spec fn path_in(dir: Seq<char>, file: Seq<char>) -> Seq<char> {
    if dir.len() == 0 || dir.last() == '/' {
        dir + file
    } else {
        dir + "/"@ + file
    }
}

/// The path of the declaration file of the unstable API, which lies in the
/// package's directory `manifest_dir`.
pub fn get_unstable_declaration(manifest_dir: &str) -> (path: String)
    ensures
        path@ == path_in(manifest_dir@, declaration_file()),
{
    let mut path = String::from_str(manifest_dir);
    let len = manifest_dir.unicode_len();
    if len > 0 && manifest_dir.get_char(len - 1) != '/' {
        path.append("/");
    }
    path.append("lib.deno_http.unstable.d.ts");
    path
}

} // verus!
